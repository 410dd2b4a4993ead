//! Behavioral flags understood by the native engine.
//!
//! The engine takes an integer bitset at open time; each flag below selects
//! one independent behavioral switch. The bit values mirror the constants of
//! the engine's public C header.

use vstd::prelude::*;

verus! {

/// One behavioral switch of the native engine.
///
/// Flags are combined by bitwise OR into the bitset handed to the engine at
/// open time; see [`spec_set_flag`] and [`spec_remove_flag`].
#[derive(Debug, Copy, Clone)]
pub enum Flag {
    /// Print debugging messages to stderr.
    Debug,
    /// If the file queried is a symlink, follow it.
    Symlink,
    /// If the file is compressed, unpack it and look at the contents.
    Compress,
    /// If the file is a block or character special device, open the device
    /// and try to look in its contents.
    Devices,
    /// Return a MIME type string, instead of a textual description.
    MimeType,
    /// Return a MIME encoding, instead of a textual description.
    MimeEncoding,
    /// A shorthand for [`Flag::MimeType`] | [`Flag::MimeEncoding`].
    Mime,
    /// Return all matches, not just the first.
    Continue,
    /// Check the magic database for consistency and print warnings to stderr.
    Check,
    /// Attempt to preserve the access time of files analysed.
    PreserveAccessTime,
    /// Don't translate unprintable characters to an octal representation.
    Raw,
    /// Treat operating system errors while trying to open files and follow
    /// symlinks as real errors, instead of printing them in the result.
    Error,
    /// Return the Apple creator and type.
    Apple,
    /// Return a slash-separated list of extensions for this file type.
    Extension,
    /// Don't report on compression, only report about the uncompressed data.
    CompressTransparent,
    /// Don't check for `EMX` application type.
    NoCheckAppType,
    /// Don't get extra information on MS Composite Document Files.
    NoCheckCDF,
    /// Don't look inside compressed files.
    NoCheckCompress,
    /// Don't print ELF details.
    NoCheckELF,
    /// Don't check text encodings.
    NoCheckEncoding,
    /// Don't consult magic files.
    NoCheckSoft,
    /// Don't examine tar files.
    NoCheckTar,
    /// Don't check for various types of text files.
    NoCheckText,
    /// Don't look for known tokens inside ascii files.
    NoCheckTokens,
    /// Don't examine JSON files.
    NoCheckJSON,
    /// Don't examine CSV files.
    NoCheckCSV,
}

impl Flag {
    /// The bit this flag occupies in the engine's bitset.
    pub open spec fn spec_bits(self) -> i32 {
        match self {
            Flag::Debug => 0x0000001,
            Flag::Symlink => 0x0000002,
            Flag::Compress => 0x0000004,
            Flag::Devices => 0x0000008,
            Flag::MimeType => 0x0000010,
            Flag::MimeEncoding => 0x0000400,
            Flag::Mime => 0x0000410,
            Flag::Continue => 0x0000020,
            Flag::Check => 0x0000040,
            Flag::PreserveAccessTime => 0x0000080,
            Flag::Raw => 0x0000100,
            Flag::Error => 0x0000200,
            Flag::Apple => 0x0000800,
            Flag::Extension => 0x1000000,
            Flag::CompressTransparent => 0x2000000,
            Flag::NoCheckAppType => 0x0008000,
            Flag::NoCheckCDF => 0x0040000,
            Flag::NoCheckCompress => 0x0001000,
            Flag::NoCheckELF => 0x0010000,
            Flag::NoCheckEncoding => 0x0200000,
            Flag::NoCheckSoft => 0x0004000,
            Flag::NoCheckTar => 0x0002000,
            Flag::NoCheckText => 0x0020000,
            Flag::NoCheckTokens => 0x0100000,
            Flag::NoCheckJSON => 0x0400000,
            Flag::NoCheckCSV => 0x0080000,
        }
    }

    /// Returns the bit this flag occupies in the engine's bitset.
    pub fn bits(self) -> (r: i32)
        ensures
            r == self.spec_bits(),
    {
        match self {
            Flag::Debug => 0x0000001,
            Flag::Symlink => 0x0000002,
            Flag::Compress => 0x0000004,
            Flag::Devices => 0x0000008,
            Flag::MimeType => 0x0000010,
            Flag::MimeEncoding => 0x0000400,
            Flag::Mime => 0x0000410,
            Flag::Continue => 0x0000020,
            Flag::Check => 0x0000040,
            Flag::PreserveAccessTime => 0x0000080,
            Flag::Raw => 0x0000100,
            Flag::Error => 0x0000200,
            Flag::Apple => 0x0000800,
            Flag::Extension => 0x1000000,
            Flag::CompressTransparent => 0x2000000,
            Flag::NoCheckAppType => 0x0008000,
            Flag::NoCheckCDF => 0x0040000,
            Flag::NoCheckCompress => 0x0001000,
            Flag::NoCheckELF => 0x0010000,
            Flag::NoCheckEncoding => 0x0200000,
            Flag::NoCheckSoft => 0x0004000,
            Flag::NoCheckTar => 0x0002000,
            Flag::NoCheckText => 0x0020000,
            Flag::NoCheckTokens => 0x0100000,
            Flag::NoCheckJSON => 0x0400000,
            Flag::NoCheckCSV => 0x0080000,
        }
    }
}

/// The bitset after setting `flag`.
pub open spec fn spec_set_flag(flags: i32, flag: Flag) -> i32 {
    flags | flag.spec_bits()
}

/// The bitset after removing `flag`.
pub open spec fn spec_remove_flag(flags: i32, flag: Flag) -> i32 {
    flags & !flag.spec_bits()
}

/// Setting the same flag twice is the same as setting it once.
pub proof fn lemma_set_flag_idempotent(flags: i32, flag: Flag)
    ensures
        spec_set_flag(spec_set_flag(flags, flag), flag) == spec_set_flag(flags, flag),
{
    let b = flag.spec_bits();
    assert((flags | b) | b == flags | b) by (bit_vector);
}

/// Removing the same flag twice is the same as removing it once.
pub proof fn lemma_remove_flag_idempotent(flags: i32, flag: Flag)
    ensures
        spec_remove_flag(spec_remove_flag(flags, flag), flag) == spec_remove_flag(flags, flag),
{
    let b = flag.spec_bits();
    assert((flags & !b) & !b == flags & !b) by (bit_vector);
}

/// Two flags can be set in either order.
pub proof fn lemma_set_flags_commute(flags: i32, a: Flag, b: Flag)
    ensures
        spec_set_flag(spec_set_flag(flags, a), b) == spec_set_flag(spec_set_flag(flags, b), a),
{
    let x = a.spec_bits();
    let y = b.spec_bits();
    assert((flags | x) | y == (flags | y) | x) by (bit_vector);
}

/// Two flags can be removed in either order.
pub proof fn lemma_remove_flags_commute(flags: i32, a: Flag, b: Flag)
    ensures
        spec_remove_flag(spec_remove_flag(flags, a), b) == spec_remove_flag(
            spec_remove_flag(flags, b),
            a,
        ),
{
    let x = a.spec_bits();
    let y = b.spec_bits();
    assert((flags & !x) & !y == (flags & !y) & !x) by (bit_vector);
}

/// Setting one flag and removing another can be done in either order, as long
/// as the two flags share no bits.
pub proof fn lemma_set_remove_commute(flags: i32, set: Flag, removed: Flag)
    requires
        set.spec_bits() & removed.spec_bits() == 0,
    ensures
        spec_remove_flag(spec_set_flag(flags, set), removed) == spec_set_flag(
            spec_remove_flag(flags, removed),
            set,
        ),
{
    let x = set.spec_bits();
    let y = removed.spec_bits();
    assert((flags | x) & !y == (flags & !y) | x) by (bit_vector)
        requires
            x & y == 0,
    ;
}

} // verus!

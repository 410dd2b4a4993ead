//! Configurations: the recipe from which engine instances are created.
//!
//! A recipe is a flag bitset plus a [`Source`] saying which magic database(s)
//! the engine loads: the system default, in-memory buffers, or a list of
//! filesystem paths. The engine takes the path list as one colon-separated
//! byte string terminated by a NUL, so no configured path may contain either
//! byte; violating that is a construction-time error, never a runtime crash.

use vstd::prelude::*;
use vstd::slice::slice_to_vec;

use crate::error::Error;
use crate::ffi::{spec_remove_flag, spec_set_flag, Flag};
use crate::pool::Pool;

verus! {

/// The byte separating two paths in the engine's database path list.
pub const PATH_SEPARATOR: u8 = 58;

/// The byte terminating the engine's database path list.
pub const PATH_TERMINATOR: u8 = 0;

/// Which magic database(s) an engine instance loads.
#[derive(Debug)]
pub enum Source {
    /// The default database installed on the system.
    Default,
    /// One or more databases provided as byte buffers.
    Buffers(Vec<Vec<u8>>),
    /// One or more databases on the filesystem, as a single separator-joined
    /// byte string free of terminator bytes.
    Files(Vec<u8>),
}

/// The mathematical shape of a [`Source`].
pub enum SourceModel {
    Default,
    Buffers(Seq<Seq<u8>>),
    Files(Seq<u8>),
}

impl View for Source {
    type V = SourceModel;

    open spec fn view(&self) -> SourceModel {
        match self {
            Source::Default => SourceModel::Default,
            Source::Buffers(buffers) => SourceModel::Buffers(buffers.deep_view()),
            Source::Files(bytes) => SourceModel::Files(bytes@),
        }
    }
}

/// The byte string handed to the engine for a list of database paths: the
/// paths joined by [`PATH_SEPARATOR`], where a separator is inserted exactly
/// when the bytes accumulated so far are non-empty.
pub open spec fn spec_join_paths(paths: Seq<Seq<u8>>) -> Seq<u8>
    decreases paths.len(),
{
    if paths.len() == 0 {
        Seq::empty()
    } else {
        let rest = spec_join_paths(paths.drop_last());
        if rest.len() == 0 {
            rest + paths.last()
        } else {
            rest + seq![PATH_SEPARATOR] + paths.last()
        }
    }
}

/// Whether some path contains the separator byte.
pub open spec fn spec_has_separator(paths: Seq<Seq<u8>>) -> bool {
    exists|i: int| 0 <= i < paths.len() && paths[i].contains(PATH_SEPARATOR)
}

/// Whether some path contains the terminator byte.
pub open spec fn spec_has_terminator(paths: Seq<Seq<u8>>) -> bool {
    exists|i: int| 0 <= i < paths.len() && paths[i].contains(PATH_TERMINATOR)
}

/// The joined path list contains a given byte other than the separator
/// exactly when one of the paths contains it.
pub proof fn lemma_join_contains(paths: Seq<Seq<u8>>, byte: u8)
    requires
        byte != PATH_SEPARATOR,
    ensures
        spec_join_paths(paths).contains(byte) <==> exists|i: int|
            0 <= i < paths.len() && paths[i].contains(byte),
    decreases paths.len(),
{
    if paths.len() > 0 {
        lemma_join_contains(paths.drop_last(), byte);
        let rest = spec_join_paths(paths.drop_last());
        let joined = spec_join_paths(paths);
        let last = paths.last();
        assert(forall|j: int| 0 <= j < paths.len() - 1 ==> paths[j] == paths.drop_last()[j]);
        if rest.len() == 0 {
            assert(joined =~= last);
        } else {
            assert(joined =~= rest + seq![PATH_SEPARATOR] + last);
        }
        if joined.contains(byte) {
            let k = choose|k: int| 0 <= k < joined.len() && joined[k] == byte;
            if rest.len() == 0 {
                assert(last[k] == byte);
                assert(paths[paths.len() - 1].contains(byte));
            } else {
                if k < rest.len() {
                    assert(rest[k] == byte);
                } else if k == rest.len() {
                    assert(joined[k] == PATH_SEPARATOR);
                } else {
                    assert(last[k - rest.len() - 1] == byte);
                    assert(paths[paths.len() - 1].contains(byte));
                }
            }
        }
        if exists|i: int| 0 <= i < paths.len() && paths[i].contains(byte) {
            let i = choose|i: int| 0 <= i < paths.len() && paths[i].contains(byte);
            let k = choose|k: int| 0 <= k < paths[i].len() && paths[i][k] == byte;
            if i < paths.len() - 1 {
                assert(paths.drop_last()[i].contains(byte));
                let m = choose|m: int| 0 <= m < rest.len() && rest[m] == byte;
                assert(joined[m] == byte);
            } else {
                if rest.len() == 0 {
                    assert(joined[k] == byte);
                } else {
                    assert(joined[rest.len() + 1 + k] == byte);
                }
            }
        }
    }
}

/// What building a source from a list of paths yields: the first path
/// containing a separator is rejected before anything else is looked at;
/// otherwise an embedded terminator anywhere is rejected; otherwise the
/// joined byte string.
pub open spec fn spec_paths_source(paths: Seq<Seq<u8>>) -> Result<SourceModel, Error> {
    if spec_has_separator(paths) {
        Err(Error::EmbeddedColons)
    } else if spec_has_terminator(paths) {
        Err(Error::EmbeddedNuls)
    } else {
        Ok(SourceModel::Files(spec_join_paths(paths)))
    }
}

/// Returns whether `bytes` contains `needle`.
fn contains_byte(bytes: &Vec<u8>, needle: u8) -> (r: bool)
    ensures
        r == bytes@.contains(needle),
{
    let mut i: usize = 0;
    while i < bytes.len()
        invariant
            i <= bytes@.len(),
            forall|j: int| 0 <= j < i ==> bytes@[j] != needle,
        decreases bytes@.len() - i,
    {
        if bytes[i] == needle {
            return true;
        }
        i = i + 1;
    }
    false
}

/// A configuration that sets engine flags on any created lease.
///
/// By default, the only flag that is set is [`Flag::Error`].
pub trait Config: ConfigPrivateExt {
    /// Removes a flag from the configuration.
    fn remove_flag(self, flag: Flag) -> (r: Self)
        ensures
            r.spec_flags() == spec_remove_flag(self.spec_flags(), flag),
            r.spec_source_model() == self.spec_source_model(),
    ;

    /// Sets a flag on the configuration.
    fn set_flag(self, flag: Flag) -> (r: Self)
        ensures
            r.spec_flags() == spec_set_flag(self.spec_flags(), flag),
            r.spec_source_model() == self.spec_source_model(),
    ;

    /// Builds a pool of leases from the configuration: the recipe is stored,
    /// and no engine instance is created eagerly.
    fn build_pool<C>(self) -> (r: Result<Pool<C>, Error>)
        ensures
            match (r, self.spec_source_model()) {
                (Ok(p), Ok(m)) => p.spec_flags() == self.spec_flags() && p.spec_source()@ == m
                    && p.spec_idle() == Seq::<C>::empty(),
                (Err(e), Err(m)) => e == m,
                _ => false,
            },
    {
        let flags = self.flags();
        match self.into_source() {
            Ok(source) => Ok(Pool::new(flags, source)),
            Err(e) => Err(e),
        }
    }
}

/// The recipe a configuration denotes: its flag bitset and its database
/// source.
pub trait ConfigPrivateExt: Sized {
    /// The flag bitset of the configuration.
    spec fn spec_flags(&self) -> i32;

    /// The database source the configuration denotes, or the error with
    /// which it is rejected.
    spec fn spec_source_model(&self) -> Result<SourceModel, Error>;

    /// Returns the flag bitset of the configuration.
    fn flags(&self) -> (r: i32)
        ensures
            r == self.spec_flags(),
    ;

    /// Turns the configuration into its database source, rejecting paths
    /// that the engine's encoding cannot carry.
    fn into_source(self) -> (r: Result<Source, Error>)
        ensures
            match (r, self.spec_source_model()) {
                (Ok(src), Ok(m)) => src@ == m,
                (Err(e), Err(m)) => e == m,
                _ => false,
            },
    ;
}

/// A configuration using the default magic database installed on the system.
#[derive(Debug, Clone)]
pub struct DefaultConfig {
    flags: i32,
}

impl ConfigPrivateExt for DefaultConfig {
    closed spec fn spec_flags(&self) -> i32 {
        self.flags
    }

    open spec fn spec_source_model(&self) -> Result<SourceModel, Error> {
        Ok(SourceModel::Default)
    }

    fn flags(&self) -> (r: i32)
        ensures
            r == self.spec_flags(),
    {
        self.flags
    }

    fn into_source(self) -> (r: Result<Source, Error>)
        ensures
            match (r, self.spec_source_model()) {
                (Ok(src), Ok(m)) => src@ == m,
                (Err(e), Err(m)) => e == m,
                _ => false,
            },
    {
        Ok(Source::Default)
    }
}

impl Config for DefaultConfig {
    fn remove_flag(self, flag: Flag) -> (r: Self)
        ensures
            r.spec_flags() == spec_remove_flag(self.spec_flags(), flag),
            r.spec_source_model() == self.spec_source_model(),
    {
        DefaultConfig { flags: self.flags & !flag.bits() }
    }

    fn set_flag(self, flag: Flag) -> (r: Self)
        ensures
            r.spec_flags() == spec_set_flag(self.spec_flags(), flag),
            r.spec_source_model() == self.spec_source_model(),
    {
        DefaultConfig { flags: self.flags | flag.bits() }
    }
}

impl Default for DefaultConfig {
    /// The default configuration: only [`Flag::Error`] is set.
    fn default() -> (c: Self)
        ensures
            c.spec_flags() == Flag::Error.spec_bits(),
    {
        DefaultConfig { flags: Flag::Error.bits() }
    }
}

/// A configuration using one or more magic databases provided as byte
/// buffers.
#[derive(Debug, Clone)]
pub struct BufferConfig {
    config: DefaultConfig,
    buffers: Vec<Vec<u8>>,
}

impl BufferConfig {
    /// The configured database buffers.
    pub closed spec fn spec_buffers(&self) -> Seq<Seq<u8>> {
        self.buffers.deep_view()
    }

    /// Adds one database buffer to the configuration.
    pub fn with_buffer(self, buffer: &[u8]) -> (r: Self)
        ensures
            r.spec_flags() == self.spec_flags(),
            r.spec_buffers() == self.spec_buffers().push(buffer@),
    {
        let BufferConfig { config, mut buffers } = self;
        buffers.push(slice_to_vec(buffer));
        let r = BufferConfig { config, buffers };
        assert(r.spec_buffers() =~~= self.spec_buffers().push(buffer@));
        r
    }
}

impl ConfigPrivateExt for BufferConfig {
    closed spec fn spec_flags(&self) -> i32 {
        self.config.flags
    }

    open spec fn spec_source_model(&self) -> Result<SourceModel, Error> {
        Ok(SourceModel::Buffers(self.spec_buffers()))
    }

    fn flags(&self) -> (r: i32)
        ensures
            r == self.spec_flags(),
    {
        self.config.flags
    }

    fn into_source(self) -> (r: Result<Source, Error>)
        ensures
            match (r, self.spec_source_model()) {
                (Ok(src), Ok(m)) => src@ == m,
                (Err(e), Err(m)) => e == m,
                _ => false,
            },
    {
        Ok(Source::Buffers(self.buffers))
    }
}

impl Config for BufferConfig {
    fn remove_flag(self, flag: Flag) -> (r: Self)
        ensures
            r.spec_flags() == spec_remove_flag(self.spec_flags(), flag),
            r.spec_source_model() == self.spec_source_model(),
    {
        BufferConfig { config: self.config.remove_flag(flag), buffers: self.buffers }
    }

    fn set_flag(self, flag: Flag) -> (r: Self)
        ensures
            r.spec_flags() == spec_set_flag(self.spec_flags(), flag),
            r.spec_source_model() == self.spec_source_model(),
    {
        BufferConfig { config: self.config.set_flag(flag), buffers: self.buffers }
    }
}

impl Default for BufferConfig {
    /// The default configuration with no buffers yet: only [`Flag::Error`]
    /// is set.
    fn default() -> (c: Self)
        ensures
            c.spec_flags() == Flag::Error.spec_bits(),
            c.spec_buffers() == Seq::<Seq<u8>>::empty(),
    {
        let c = BufferConfig { config: DefaultConfig::default(), buffers: Vec::new() };
        assert(c.spec_buffers() =~= Seq::<Seq<u8>>::empty());
        c
    }
}

/// A configuration using one or more magic databases on the filesystem, but
/// not including the default database. Paths are given as the bytes of their
/// operating-system representation.
#[derive(Debug, Clone)]
pub struct FileConfig {
    config: DefaultConfig,
    paths: Vec<Vec<u8>>,
}

impl FileConfig {
    /// The configured database paths.
    pub closed spec fn spec_paths(&self) -> Seq<Seq<u8>> {
        self.paths.deep_view()
    }

    /// Adds one database path, given as bytes, to the configuration.
    pub fn with_file(self, path: Vec<u8>) -> (r: Self)
        ensures
            r.spec_flags() == self.spec_flags(),
            r.spec_paths() == self.spec_paths().push(path@),
    {
        let FileConfig { config, mut paths } = self;
        paths.push(path);
        let r = FileConfig { config, paths };
        assert(r.spec_paths() =~~= self.spec_paths().push(path@));
        r
    }
}

impl ConfigPrivateExt for FileConfig {
    closed spec fn spec_flags(&self) -> i32 {
        self.config.flags
    }

    open spec fn spec_source_model(&self) -> Result<SourceModel, Error> {
        spec_paths_source(self.spec_paths())
    }

    fn flags(&self) -> (r: i32)
        ensures
            r == self.spec_flags(),
    {
        self.config.flags
    }

    #[verifier::loop_isolation(false)]
    fn into_source(self) -> (r: Result<Source, Error>)
        ensures
            match (r, self.spec_source_model()) {
                (Ok(src), Ok(m)) => src@ == m,
                (Err(e), Err(m)) => e == m,
                _ => false,
            },
    {
        let ghost pseq = self.spec_paths();
        assert(self.spec_source_model() == spec_paths_source(pseq));
        let paths = self.paths;
        let mut joined: Vec<u8> = Vec::new();
        let mut i: usize = 0;
        assert(joined@ =~= spec_join_paths(pseq.take(0)));
        while i < paths.len()
            invariant
                i <= paths@.len(),
                pseq == paths.deep_view(),
                forall|j: int| 0 <= j < i ==> !pseq[j].contains(PATH_SEPARATOR),
                joined@ == spec_join_paths(pseq.take(i as int)),
            decreases paths@.len() - i,
        {
            let path = &paths[i];
            assert(path@ =~= pseq[i as int]);
            if contains_byte(path, PATH_SEPARATOR) {
                assert(spec_has_separator(pseq));
                return Err(Error::EmbeddedColons);
            }
            if joined.len() > 0 {
                joined.push(PATH_SEPARATOR);
            }
            let mut k: usize = 0;
            let ghost mid = joined@;
            assert(joined@ =~= mid + path@.take(0));
            while k < path.len()
                invariant
                    k <= path@.len(),
                    joined@ == mid + path@.take(k as int),
                decreases path@.len() - k,
            {
                joined.push(path[k]);
                assert(joined@ =~= mid + path@.take(k as int + 1));
                k = k + 1;
            }
            assert(joined@ =~= mid + path@);
            proof {
                let prefix = pseq.take(i as int);
                let step = pseq.take(i as int + 1);
                assert(step.drop_last() =~= prefix);
                assert(step.last() == pseq[i as int]);
                if spec_join_paths(prefix).len() == 0 {
                    assert(joined@ =~= spec_join_paths(prefix) + pseq[i as int]);
                } else {
                    assert(joined@ =~= spec_join_paths(prefix) + seq![PATH_SEPARATOR] + pseq[
                        i as int
                    ]);
                }
            }
            i = i + 1;
        }
        assert(pseq.take(i as int) =~= pseq);
        assert(!spec_has_separator(pseq));
        if contains_byte(&joined, PATH_TERMINATOR) {
            proof {
                lemma_join_contains(pseq, PATH_TERMINATOR);
            }
            assert(spec_has_terminator(pseq));
            return Err(Error::EmbeddedNuls);
        }
        proof {
            lemma_join_contains(pseq, PATH_TERMINATOR);
        }
        assert(!spec_has_terminator(pseq));
        Ok(Source::Files(joined))
    }
}

impl Config for FileConfig {
    fn remove_flag(self, flag: Flag) -> (r: Self)
        ensures
            r.spec_flags() == spec_remove_flag(self.spec_flags(), flag),
            r.spec_source_model() == self.spec_source_model(),
    {
        FileConfig { config: self.config.remove_flag(flag), paths: self.paths }
    }

    fn set_flag(self, flag: Flag) -> (r: Self)
        ensures
            r.spec_flags() == spec_set_flag(self.spec_flags(), flag),
            r.spec_source_model() == self.spec_source_model(),
    {
        FileConfig { config: self.config.set_flag(flag), paths: self.paths }
    }
}

impl Default for FileConfig {
    /// The default configuration with no paths yet: only [`Flag::Error`] is
    /// set.
    fn default() -> (c: Self)
        ensures
            c.spec_flags() == Flag::Error.spec_bits(),
            c.spec_paths() == Seq::<Seq<u8>>::empty(),
    {
        let c = FileConfig { config: DefaultConfig::default(), paths: Vec::new() };
        assert(c.spec_paths() =~= Seq::<Seq<u8>>::empty());
        c
    }
}

} // verus!

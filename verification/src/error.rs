//! The error taxonomy.
//!
//! Every failure mode of the crate is one variant of [`Error`], so that a
//! caller can tell an engine-reported classification failure apart from a
//! failure of the plumbing around the engine (pipes, locks, leases).

use vstd::prelude::*;
use vstd::string::StringExecFns;
use vstd::utf8::{decode_utf8, valid_utf8};

verus! {

/// Errors that can be returned from this crate.
#[derive(Debug)]
pub enum Error {
    /// A query was attempted on a lease whose engine instance has been
    /// permanently relinquished.
    CookieNommed,
    /// Opening a new engine instance failed; carries the OS error code
    /// reported at the time of the failure.
    Create(i32),
    /// A query succeeded but its textual result was not valid UTF-8; carries
    /// the raw bytes of the result.
    DescriptionNotUtf8(Vec<u8>),
    /// One or more embedded path-separator bytes in a database path.
    EmbeddedColons,
    /// One or more embedded NUL bytes in a database path.
    EmbeddedNuls,
    /// A native call failed and the engine supplied an error code and a
    /// message.
    Magic { errno: i32, message: Message },
    /// A native call failed with the given code, and retrieving the error
    /// message then failed as well.
    Nested(i32),
    /// Creating the anonymous pipe for a streaming classification failed;
    /// carries the OS error code.
    PipeCreate(i32),
    /// Copying data into the anonymous pipe failed; carries the OS error
    /// code. The engine closing its end of the pipe early is a normal
    /// termination signal, never this error.
    PipeCopy(i32),
    /// The worker driving a streaming classification did not terminate
    /// cleanly; the lease that lent it the engine instance is spent.
    PipeJoin,
    /// The pool's idle-set lock was found broken.
    PoolPoisoned,
}

/// An error message reported by the engine: raw bytes that are usually, but
/// not always, text.
#[derive(Debug, Clone)]
pub struct Message(Vec<u8>);

impl View for Message {
    type V = Seq<u8>;

    closed spec fn view(&self) -> Seq<u8> {
        self.0@
    }
}

/// The decimal digits of `n`, most significant first.
pub open spec fn spec_decimal_digits(n: nat) -> Seq<char>
    decreases n,
{
    if n < 10 {
        seq![spec_digit_char(n)]
    } else {
        spec_decimal_digits(n / 10).push(spec_digit_char(n % 10))
    }
}

/// The character for one decimal digit.
pub open spec fn spec_digit_char(d: nat) -> char
    recommends
        d < 10,
{
    if d == 0 {
        '0'
    } else if d == 1 {
        '1'
    } else if d == 2 {
        '2'
    } else if d == 3 {
        '3'
    } else if d == 4 {
        '4'
    } else if d == 5 {
        '5'
    } else if d == 6 {
        '6'
    } else if d == 7 {
        '7'
    } else if d == 8 {
        '8'
    } else {
        '9'
    }
}

/// What [`Message::display_string`] returns: the decoded text when the bytes
/// are well-formed UTF-8, and otherwise a placeholder giving the byte count.
pub open spec fn spec_message_display(bytes: Seq<u8>) -> Seq<char> {
    if valid_utf8(bytes) {
        decode_utf8(bytes)
    } else if bytes.len() == 1 {
        "["@ + spec_decimal_digits(bytes.len()) + " byte]"@
    } else {
        "["@ + spec_decimal_digits(bytes.len()) + " bytes]"@
    }
}

impl Message {
    /// Wraps the raw bytes of an engine-reported message.
    pub fn new(bytes: Vec<u8>) -> (m: Message)
        ensures
            m@ == bytes@,
    {
        Message(bytes)
    }

    /// The raw bytes of the message.
    pub fn as_bytes(&self) -> (r: &Vec<u8>)
        ensures
            r@ == self@,
    {
        &self.0
    }

    /// A best-effort rendering: the message itself when it decodes as UTF-8,
    /// and otherwise a placeholder stating how many bytes it holds.
    pub fn display_string(&self) -> (r: String)
        ensures
            r@ == spec_message_display(self@),
    {
        match bytes_to_utf8(&self.0) {
            Some(s) => s,
            None => {
                let mut out = "[".to_owned();
                let digits = usize_to_decimal(self.0.len());
                out.append(digits.as_str());
                if self.0.len() == 1 {
                    out.append(" byte]");
                } else {
                    out.append(" bytes]");
                }
                out
            },
        }
    }
}

/// Relies on `String::from_utf8`: it succeeds exactly on well-formed UTF-8
/// input and returns the text those bytes encode.
#[verifier::external_body]
pub(crate) fn bytes_to_utf8(bytes: &Vec<u8>) -> (r: Option<String>)
    ensures
        match r {
            Some(s) => valid_utf8(bytes@) && s@ == decode_utf8(bytes@),
            None => !valid_utf8(bytes@),
        },
{
    String::from_utf8(bytes.clone()).ok()
}

/// Relies on the `Display` implementation for `usize`, which renders the
/// value as its decimal digits without sign, padding or separators.
#[verifier::external_body]
fn usize_to_decimal(n: usize) -> (r: String)
    ensures
        r@ == spec_decimal_digits(n as nat),
{
    format!("{n}")
}

} // verus!

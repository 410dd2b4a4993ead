//! Leases over engine instances, and the classification of native-call
//! outcomes.
//!
//! The native engine is non-reentrant: one instance must be used by only one
//! thread at any instant, though an idle instance may move between threads.
//! A [`Handle`] is the single-owner lease enforcing that discipline. It is
//! generic over the engine-instance type `C` (the unverified rim supplies the
//! native cookie; a test may supply a double) and over the reference type `R`
//! by which a pool-affiliated lease finds its way back to its pool.
//!
//! A lease either owns its instance or is *spent*: the instance has been
//! permanently relinquished, and every further query is rejected with
//! [`Error::CookieNommed`] before any native call could be attempted.

use vstd::prelude::*;
use vstd::utf8::{decode_utf8, valid_utf8};

use crate::error::{bytes_to_utf8, Error, Message};

verus! {

/// A raw result from the native engine, which is either an integer (negative
/// one signals failure) or a string pointer (null signals failure). The
/// integer form is implemented here; the pointer form belongs to the
/// unverified rim.
pub trait ResultType {
    /// Whether this raw result is the engine's failure sentinel.
    spec fn spec_is_error(&self) -> bool;

    /// Returns whether this raw result is the engine's failure sentinel.
    fn is_error(&self) -> (r: bool)
        ensures
            r == self.spec_is_error(),
    ;
}

impl ResultType for i32 {
    open spec fn spec_is_error(&self) -> bool {
        *self == -1
    }

    fn is_error(&self) -> (r: bool)
        ensures
            r == self.spec_is_error(),
    {
        *self == -1
    }
}

/// A single-owner lease over one engine instance.
pub struct Handle<C, R> {
    cookie: Option<C>,
    reservoir: Option<R>,
}

impl<C, R> Handle<C, R> {
    /// The engine instance this lease currently owns, if any.
    pub closed spec fn cookie_opt(&self) -> Option<C> {
        self.cookie
    }

    /// The pool reference this lease returns its instance to on release, if
    /// it is pool-affiliated.
    pub closed spec fn reservoir_opt(&self) -> Option<R> {
        self.reservoir
    }

    /// Whether the lease currently owns its engine instance.
    pub open spec fn owns_cookie(&self) -> bool {
        self.cookie_opt() is Some
    }

    /// Wraps an engine instance in a lease, pool-affiliated when `reservoir`
    /// is given.
    pub fn new(cookie: C, reservoir: Option<R>) -> (h: Handle<C, R>)
        ensures
            h.cookie_opt() == Some(cookie),
            h.reservoir_opt() == reservoir,
    {
        Handle { cookie: Some(cookie), reservoir }
    }

    /// Whether the lease has permanently relinquished its engine instance.
    pub fn is_spent(&self) -> (r: bool)
        ensures
            r == !self.owns_cookie(),
    {
        self.cookie.is_none()
    }

    /// Takes exclusive ownership of the engine instance, e.g. to lend it to
    /// a streaming worker. On a spent lease this fails with
    /// [`Error::CookieNommed`] and changes nothing — in particular, the
    /// caller is left with no instance to direct a native call at.
    pub fn take_cookie(&mut self) -> (r: Result<C, Error>)
        ensures
            r == spec_take_result(*old(self)),
            !final(self).owns_cookie(),
            final(self).reservoir_opt() == old(self).reservoir_opt(),
    {
        match self.cookie.take() {
            Some(c) => Ok(c),
            None => Err(Error::CookieNommed),
        }
    }

    /// Reabsorbs an engine instance previously taken out of this lease.
    pub fn restore_cookie(&mut self, cookie: C)
        requires
            !old(self).owns_cookie(),
        ensures
            final(self).cookie_opt() == Some(cookie),
            final(self).reservoir_opt() == old(self).reservoir_opt(),
    {
        self.cookie = Some(cookie);
    }

    /// Dismantles the lease on release: hands back the owned instance (if
    /// any) and the pool reference (if any). A pool-affiliated instance is
    /// to be pushed back into the pool's idle set; an unaffiliated one is to
    /// be closed.
    pub fn release_parts(&mut self) -> (r: (Option<C>, Option<R>))
        ensures
            r == (old(self).cookie_opt(), old(self).reservoir_opt()),
            !final(self).owns_cookie(),
            final(self).reservoir_opt() is None,
    {
        (self.cookie.take(), self.reservoir.take())
    }
}

/// What taking the engine instance out of a lease yields: the instance when
/// the lease owns it, and [`Error::CookieNommed`] when the lease is spent.
pub open spec fn spec_take_result<C, R>(h: Handle<C, R>) -> Result<C, Error> {
    match h.cookie_opt() {
        Some(c) => Ok(c),
        None => Err(Error::CookieNommed),
    }
}

/// A spent lease is terminal: taking its instance yields the dedicated error,
/// so no query on it can ever reach a native call.
pub proof fn lemma_spent_lease_rejects_queries<C, R>(h: Handle<C, R>)
    requires
        !h.owns_cookie(),
    ensures
        spec_take_result(h) == Err::<C, Error>(Error::CookieNommed),
{
}

/// Classifies the outcome of opening a new engine instance: a missing
/// instance maps to [`Error::Create`] carrying the OS error code observed at
/// the time of the failure.
pub fn classify_open<C>(opened: Option<C>, os_errno: i32) -> (r: Result<C, Error>)
    ensures
        match opened {
            Some(c) => r matches Ok(rc) && rc == c,
            None => r matches Err(e) && e == Error::Create(os_errno),
        },
{
    match opened {
        Some(c) => Ok(c),
        None => Err(Error::Create(os_errno)),
    }
}

/// Classifies the raw outcome of one native call. A failure sentinel turns
/// into [`Error::Magic`] carrying the engine's error code and message, or
/// into the degraded [`Error::Nested`] carrying only the code when the
/// message itself was unavailable. The code and message are only read when
/// the result is the sentinel.
pub fn classify_result<T: ResultType>(result: T, errno: i32, message: Option<Vec<u8>>) -> (r:
    Result<T, Error>)
    ensures
        !result.spec_is_error() ==> (r matches Ok(t) && t == result),
        result.spec_is_error() ==> match message {
            Some(m) => r matches Err(e) && e matches Error::Magic {
                errno: en,
                message: msg,
            } && en == errno && msg@ == m@,
            None => r matches Err(e) && e == Error::Nested(errno),
        },
{
    if result.is_error() {
        match message {
            Some(m) => Err(Error::Magic { errno, message: Message::new(m) }),
            None => Err(Error::Nested(errno)),
        }
    } else {
        Ok(result)
    }
}

/// Decodes the bytes of a successful query result. Bytes that are not
/// well-formed UTF-8 are not silently mangled: they come back unchanged
/// inside [`Error::DescriptionNotUtf8`].
pub fn description_to_str(desc: Vec<u8>) -> (r: Result<String, Error>)
    ensures
        valid_utf8(desc@) ==> (r matches Ok(s) && s@ == decode_utf8(desc@)),
        !valid_utf8(desc@) ==> (r matches Err(e) && e matches Error::DescriptionNotUtf8(b) && b@
            == desc@),
{
    match bytes_to_utf8(&desc) {
        Some(s) => Ok(s),
        None => Err(Error::DescriptionNotUtf8(desc)),
    }
}

/// Finishes building a lease after the freshly opened instance has been
/// loaded with its database source. A load failure propagates the error and
/// consumes the partially-built instance, so its owner's cleanup runs and no
/// native resource outlives the failure path.
pub fn finish_create<C, R>(cookie: C, load_outcome: Result<i32, Error>, reservoir: Option<R>) -> (r:
    Result<Handle<C, R>, Error>)
    ensures
        match load_outcome {
            Ok(_) => r matches Ok(h) && h.cookie_opt() == Some(cookie) && h.reservoir_opt()
                == reservoir,
            Err(e) => r matches Err(e2) && e2 == e,
        },
{
    match load_outcome {
        Ok(_) => Ok(Handle::new(cookie, reservoir)),
        Err(e) => Err(e),
    }
}

} // verus!

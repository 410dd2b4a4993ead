//! The streaming adapter protocol.
//!
//! An arbitrary blocking byte source is classified by lending the lease's
//! engine instance to a worker, which issues exactly one descriptor-based
//! query against the read end of a pipe, while the calling thread copies
//! the source into the write end in chunks. The engine may stop reading as
//! soon as it has seen enough: the resulting broken-pipe write failure is a
//! normal termination signal, not an error.
//!
//! The copy loop and the worker live in the unverified rim (they block on
//! I/O and a join); every decision they take is a function here. One
//! [`CopyEvent`] describes what the rim observed in one step of the copy
//! loop, and [`copy_step`] says whether to go on, stop cleanly, or abort.
//! [`finish_stream`] settles the lease after the join: a clean join always
//! hands the engine instance back, whatever the query's outcome; a failed
//! join leaves the lease permanently spent.

use vstd::prelude::*;

use crate::error::Error;
use crate::handle::Handle;

verus! {

/// What the unverified copy loop observed in one step: the outcome of one
/// read from the byte source, or of one write of the chunk just read into
/// the pipe. OS error codes ride along for the failure cases.
#[derive(Debug)]
pub enum CopyEvent {
    /// The source yielded a chunk of this many bytes; zero means the source
    /// is exhausted.
    SourceRead(usize),
    /// Reading the source failed with this OS error code.
    SourceFailed(i32),
    /// The chunk was written into the pipe in full.
    SinkWrote,
    /// The engine closed its end of the pipe: it has gathered enough data.
    SinkClosed,
    /// Writing into the pipe failed, other than by the engine closing its
    /// end, with this OS error code.
    SinkFailed(i32),
}

/// What the copy loop does next.
#[derive(Debug)]
pub enum CopyStep {
    /// Keep copying.
    Proceed,
    /// Stop cleanly: the source is exhausted, or the engine has seen enough.
    Finished,
    /// Fail the whole streaming operation with this error.
    Abort(Error),
}

/// Classifies the outcome of creating the anonymous pipe: a missing pipe
/// maps to [`Error::PipeCreate`] carrying the OS error code observed at the
/// time of the failure.
pub fn classify_pipe<P>(pipe: Option<P>, os_errno: i32) -> (r: Result<P, Error>)
    ensures
        match pipe {
            Some(p) => r matches Ok(rp) && rp == p,
            None => r matches Err(e) && e == Error::PipeCreate(os_errno),
        },
{
    match pipe {
        Some(p) => Ok(p),
        None => Err(Error::PipeCreate(os_errno)),
    }
}

/// The decision for one copy-loop event. The engine closing its end of the
/// pipe ends the copy as cleanly as an exhausted source does; every genuine
/// I/O failure aborts with [`Error::PipeCopy`].
pub open spec fn spec_copy_step(event: CopyEvent) -> CopyStep {
    match event {
        CopyEvent::SourceRead(n) => if n == 0 {
            CopyStep::Finished
        } else {
            CopyStep::Proceed
        },
        CopyEvent::SourceFailed(code) => CopyStep::Abort(Error::PipeCopy(code)),
        CopyEvent::SinkWrote => CopyStep::Proceed,
        CopyEvent::SinkClosed => CopyStep::Finished,
        CopyEvent::SinkFailed(code) => CopyStep::Abort(Error::PipeCopy(code)),
    }
}

/// Decides how the copy loop reacts to one observed event.
pub fn copy_step(event: CopyEvent) -> (d: CopyStep)
    ensures
        d == spec_copy_step(event),
{
    match event {
        CopyEvent::SourceRead(n) => if n == 0 {
            CopyStep::Finished
        } else {
            CopyStep::Proceed
        },
        CopyEvent::SourceFailed(code) => CopyStep::Abort(Error::PipeCopy(code)),
        CopyEvent::SinkWrote => CopyStep::Proceed,
        CopyEvent::SinkClosed => CopyStep::Finished,
        CopyEvent::SinkFailed(code) => CopyStep::Abort(Error::PipeCopy(code)),
    }
}

/// Settles a lease whose engine instance was lent to a streaming worker.
///
/// `joined` is what joining the worker produced: the query's outcome
/// together with the instance the worker unconditionally hands back, or
/// nothing when the worker did not terminate cleanly.
///
/// On a clean join the instance is reabsorbed — the lease is usable again
/// even when the query itself failed — and the query's outcome is passed
/// through unchanged. On a failed join the instance is unrecoverable: the
/// operation fails with [`Error::PipeJoin`] and the lease stays spent for
/// good.
pub fn finish_stream<C, R>(
    handle: &mut Handle<C, R>,
    joined: Option<(Result<String, Error>, C)>,
) -> (r: Result<String, Error>)
    requires
        !old(handle).owns_cookie(),
    ensures
        final(handle).reservoir_opt() == old(handle).reservoir_opt(),
        match joined {
            Some((outcome, cookie)) => final(handle).cookie_opt() == Some(cookie) && r == outcome,
            None => !final(handle).owns_cookie() && (r matches Err(e) && e == Error::PipeJoin),
        },
{
    match joined {
        Some((outcome, cookie)) => {
            handle.restore_cookie(cookie);
            outcome
        },
        None => Err(Error::PipeJoin),
    }
}

} // verus!

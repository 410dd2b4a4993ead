use mojique::{classify_pipe, copy_step, finish_stream, CopyEvent, CopyStep, Error, Handle};

#[test]
fn failed_pipe_creation_is_its_own_error() {
    let r: Result<u32, Error> = classify_pipe(None, 24);
    assert!(matches!(r, Err(Error::PipeCreate(24))));
    let r: Result<u32, Error> = classify_pipe(Some(5), 0);
    assert_eq!(r.expect("a created pipe passes through"), 5);
}

#[test]
fn empty_source_finishes_copy_immediately() {
    // An empty byte source ends the copy at once; the worker's outcome — for
    // an empty input, the engine's empty-input classification — passes
    // through unchanged and the lease is usable again.
    assert!(matches!(copy_step(CopyEvent::SourceRead(0)), CopyStep::Finished));

    let mut handle: Handle<u32, u8> = Handle::new(7, None);
    let cookie = handle.take_cookie().expect("the lease owns its instance");
    let joined = Some((Ok("empty".to_string()), cookie));
    let r = finish_stream(&mut handle, joined);
    assert_eq!(r.expect("the worker's outcome passes through"), "empty");
    assert!(!handle.is_spent());
}

#[test]
fn engine_cutting_off_early_is_clean_termination() {
    // The engine closing its end of the pipe once it has seen enough data
    // ends the copy cleanly, the partial classification is kept, and the
    // lease is not spent.
    assert!(matches!(copy_step(CopyEvent::SinkWrote), CopyStep::Proceed));
    assert!(matches!(copy_step(CopyEvent::SourceRead(8192)), CopyStep::Proceed));
    assert!(matches!(copy_step(CopyEvent::SinkClosed), CopyStep::Finished));

    let mut handle: Handle<u32, u8> = Handle::new(7, None);
    let cookie = handle.take_cookie().expect("the lease owns its instance");
    let joined = Some((Ok("data".to_string()), cookie));
    let r = finish_stream(&mut handle, joined);
    assert_eq!(r.expect("a partial classification is a success"), "data");
    assert!(!handle.is_spent());
    assert_eq!(handle.take_cookie().expect("the lease is usable afterward"), 7);
}

#[test]
fn genuine_pipe_failures_abort_the_copy() {
    match copy_step(CopyEvent::SourceFailed(5)) {
        CopyStep::Abort(Error::PipeCopy(5)) => {}
        other => panic!("expected an aborting pipe error, got {other:?}"),
    }
    match copy_step(CopyEvent::SinkFailed(28)) {
        CopyStep::Abort(Error::PipeCopy(28)) => {}
        other => panic!("expected an aborting pipe error, got {other:?}"),
    }
}

#[test]
fn worker_failure_passes_query_error_through_but_keeps_lease() {
    // A clean join always hands the instance back, even when the query
    // itself failed.
    let mut handle: Handle<u32, u8> = Handle::new(7, None);
    let cookie = handle.take_cookie().expect("the lease owns its instance");
    let joined = Some((Err(Error::Nested(4)), cookie));
    let r = finish_stream(&mut handle, joined);
    assert!(matches!(r, Err(Error::Nested(4))));
    assert!(!handle.is_spent());
}

#[test]
fn join_failure_spends_lease_permanently() {
    let mut handle: Handle<u32, u8> = Handle::new(7, None);
    let _ = handle.take_cookie().expect("the lease owns its instance");
    let r = finish_stream(&mut handle, None);
    assert!(matches!(r, Err(Error::PipeJoin)));
    assert!(handle.is_spent());

    // Every subsequent query is rejected without any engine involvement.
    assert!(matches!(handle.take_cookie(), Err(Error::CookieNommed)));
    assert!(matches!(handle.take_cookie(), Err(Error::CookieNommed)));
}

use std::cell::Cell;
use std::rc::Rc;

use mojique::{
    classify_open, classify_result, description_to_str, finish_create, Error, Flag, Handle,
    Message, ResultType,
};

/// A stand-in for one native engine instance: its drop stands for the
/// engine's close call, counted so a test can pair opens with closes.
struct FakeCookie {
    closes: Rc<Cell<usize>>,
}

impl Drop for FakeCookie {
    fn drop(&mut self) {
        self.closes.set(self.closes.get() + 1);
    }
}

fn fake_open(closes: &Rc<Cell<usize>>, opens: &Rc<Cell<usize>>) -> FakeCookie {
    opens.set(opens.get() + 1);
    FakeCookie { closes: closes.clone() }
}

#[test]
fn creation_never_leaks_an_instance() {
    // Whatever flags the recipe carries, creation either succeeds or fails
    // with the creation or load error, and on every failure path each opened
    // instance is closed again.
    let combos: Vec<i32> = vec![
        Flag::Error.bits(),
        Flag::Error.bits() | Flag::Mime.bits(),
        Flag::Symlink.bits() | Flag::Compress.bits(),
        0,
    ];
    for _flags in combos {
        let opens = Rc::new(Cell::new(0usize));
        let closes = Rc::new(Cell::new(0usize));

        // The engine refuses to open: a creation error, nothing to close.
        let r: Result<FakeCookie, Error> = classify_open(None, 13);
        assert!(matches!(r, Err(Error::Create(13))));
        assert_eq!(opens.get(), 0);
        assert_eq!(closes.get(), 0);

        // The engine opens but the database fails to load: the load error
        // propagates and the opened instance is closed.
        let cookie = fake_open(&closes, &opens);
        let open_ok: Result<FakeCookie, Error> = classify_open(Some(cookie), 0);
        let cookie = open_ok.expect("an opened instance is accepted");
        let load: Result<i32, Error> = classify_result(-1, 5, Some(b"bad database".to_vec()));
        let r: Result<Handle<FakeCookie, u8>, Error> = finish_create(cookie, load, None);
        assert!(matches!(r, Err(Error::Magic { errno: 5, .. })));
        drop(r);
        assert_eq!(opens.get(), 1);
        assert_eq!(closes.get(), 1);

        // Creation succeeds: the instance lives in the lease until release.
        let cookie = fake_open(&closes, &opens);
        let load: Result<i32, Error> = classify_result(0, 0, None);
        let mut handle: Handle<FakeCookie, u8> =
            finish_create(cookie, load, None).expect("a clean load yields a lease");
        assert_eq!(opens.get(), 2);
        assert_eq!(closes.get(), 1);
        let (cookie, reservoir) = handle.release_parts();
        assert!(reservoir.is_none());
        drop(cookie);
        assert_eq!(opens.get(), 2);
        assert_eq!(closes.get(), 2);
    }
}

#[test]
fn spent_lease_rejects_queries() {
    let mut handle: Handle<u32, u8> = Handle::new(7, None);
    assert!(!handle.is_spent());
    assert_eq!(handle.take_cookie().expect("the lease owns its instance"), 7);
    assert!(handle.is_spent());
    assert!(matches!(handle.take_cookie(), Err(Error::CookieNommed)));
    assert!(matches!(handle.take_cookie(), Err(Error::CookieNommed)));
    handle.restore_cookie(7);
    assert!(!handle.is_spent());
}

#[test]
fn release_hands_back_instance_and_pool_reference() {
    let mut handle: Handle<u32, &str> = Handle::new(3, Some("pool"));
    let (cookie, reservoir) = handle.release_parts();
    assert_eq!(cookie, Some(3));
    assert_eq!(reservoir, Some("pool"));
    assert!(handle.is_spent());
    let (cookie, reservoir) = handle.release_parts();
    assert!(cookie.is_none());
    assert!(reservoir.is_none());
}

#[test]
fn integer_results_use_the_failure_sentinel() {
    assert!((-1i32).is_error());
    assert!(!0i32.is_error());
    assert!(!1i32.is_error());
    assert!(!(-2i32).is_error());
}

#[test]
fn failing_call_with_message_becomes_structured_error() {
    // The engine failing to stat a missing path reports code 2 and a message
    // naming the path.
    let message = b"cannot stat `this-file-should-not-exist' (No such file or directory)".to_vec();
    let r: Result<i32, Error> = classify_result(-1, 2, Some(message.clone()));
    match r {
        Err(Error::Magic { errno, message: m }) => {
            assert_eq!(errno, 2);
            assert_eq!(m.as_bytes(), &message);
            assert!(m.display_string().contains("this-file-should-not-exist"));
        }
        other => panic!("expected a structured engine error, got {other:?}"),
    }
}

#[test]
fn failing_call_without_message_degrades_to_code_only() {
    let r: Result<i32, Error> = classify_result(-1, 9, None);
    assert!(matches!(r, Err(Error::Nested(9))));
}

#[test]
fn succeeding_call_passes_result_through() {
    let r: Result<i32, Error> = classify_result(42, 0, None);
    assert_eq!(r.expect("a non-sentinel result is a success"), 42);
}

#[test]
fn description_decodes_as_text() {
    let r = description_to_str(b"text/x-c".to_vec());
    assert_eq!(r.expect("plain text decodes"), "text/x-c");
}

#[test]
fn non_text_description_keeps_raw_bytes() {
    let r = description_to_str(vec![0xff, 0xfe]);
    match r {
        Err(Error::DescriptionNotUtf8(bytes)) => assert_eq!(bytes, vec![0xff, 0xfe]),
        other => panic!("expected the non-text error, got {other:?}"),
    }
}

#[test]
fn message_display_prefers_text() {
    let m = Message::new(b"hello".to_vec());
    assert_eq!(m.display_string(), "hello");
}

#[test]
fn message_display_falls_back_to_byte_count() {
    assert_eq!(Message::new(vec![0xff]).display_string(), "[1 byte]");
    assert_eq!(Message::new(vec![0xff, 0xfe, 0xfd]).display_string(), "[3 bytes]");
    assert_eq!(
        Message::new(vec![0xc0, 0x80, 0x00, 0x11, 0x22, 0x33, 0x44, 0x55, 0x66, 0x77, 0xff, 0xff])
            .display_string(),
        "[12 bytes]"
    );
}

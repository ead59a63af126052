use wifi_fetch::endpoint::Endpoint;
use wifi_fetch::esp32c3::fetch::{Fetch, FetchAction, FetchEvent, FetchStage};
use wifi_fetch::steps::UnexpectedEvent;

const CONNECT: FetchAction = FetchAction::Connect {
    endpoint: Endpoint { octets: [142, 250, 185, 115], port: 80 },
    timeout_ms: 10_000,
};

const WRITE: FetchAction =
    FetchAction::Write(b"GET / HTTP/1.0\r\nHost: www.mobile-j.de\r\n\r\n");

fn play<'a>(
    fetch: &mut Fetch,
    story: Vec<(FetchAction, FetchEvent<&'a [u8]>)>,
) -> Vec<&'a str> {
    let mut shown = Vec::new();
    for (action, event) in story {
        assert_eq!(fetch.action(), action);
        if let Some(text) = fetch.step(event).unwrap() {
            shown.push(text);
        }
    }
    shown
}

#[test]
fn a_refused_attempt_is_repeated_after_a_second() {
    let mut fetch = Fetch::new();
    let shown = play(
        &mut fetch,
        vec![
            (FetchAction::Pause(1000), FetchEvent::Done),
            (CONNECT, FetchEvent::Connect { ok: false }),
            (FetchAction::Pause(1000), FetchEvent::Done),
            (CONNECT, FetchEvent::Connect { ok: false }),
        ],
    );
    assert!(shown.is_empty());
    assert_eq!(fetch.stage, FetchStage::Delaying);
}

#[test]
fn a_session_shows_the_pieces_until_the_server_closes() {
    let mut fetch = Fetch::new();
    let shown = play(
        &mut fetch,
        vec![
            (FetchAction::Pause(1000), FetchEvent::Done),
            (CONNECT, FetchEvent::Connect { ok: true }),
            (WRITE, FetchEvent::Write { ok: true }),
            (FetchAction::Read, FetchEvent::Read(b"HTTP/1.0 200 OK\r\n")),
            (WRITE, FetchEvent::Write { ok: true }),
            (FetchAction::Read, FetchEvent::Read("gr\u{fc}n \u{20ac}".as_bytes())),
            (WRITE, FetchEvent::Write { ok: true }),
            (FetchAction::Read, FetchEvent::Read(b"")),
            (FetchAction::Pause(10_000), FetchEvent::Done),
            (FetchAction::Pause(1000), FetchEvent::Done),
        ],
    );
    assert_eq!(shown, ["HTTP/1.0 200 OK\r\n", "gr\u{fc}n \u{20ac}"]);
    assert_eq!(fetch.action(), CONNECT);
}

#[test]
fn a_session_ends_when_the_socket_fails() {
    for ending in [FetchEvent::Write { ok: false }, FetchEvent::ReadFailed] {
        let mut fetch = Fetch { stage: FetchStage::Writing };
        if ending == FetchEvent::ReadFailed {
            assert_eq!(fetch.step(FetchEvent::Write { ok: true }), Ok(None));
        }
        assert_eq!(fetch.step(ending), Ok(None));
        assert_eq!(fetch.stage, FetchStage::Resting);
        assert_eq!(fetch.action(), FetchAction::Pause(10_000));
        assert_eq!(fetch.step(FetchEvent::Done), Ok(None));
        assert_eq!(fetch.stage, FetchStage::Delaying);
    }
}

#[test]
fn bytes_that_are_no_text_stop_the_board() {
    let garbage: [&[u8]; 5] = [
        b"\xff",
        b"ok \xc3",
        b"\xed\xa0\x80",
        b"\xc0\xaf",
        b"\x80abc",
    ];
    for bytes in garbage {
        let mut fetch = Fetch { stage: FetchStage::Reading };
        assert_eq!(fetch.step(FetchEvent::Read(bytes)), Ok(None));
        assert_eq!(fetch.stage, FetchStage::Halted);
        assert_eq!(fetch.action(), FetchAction::Halt);
        assert_eq!(fetch.step(FetchEvent::Done), Err(UnexpectedEvent));
        assert_eq!(fetch.stage, FetchStage::Halted);
    }
}

#[test]
fn the_fetch_loop_refuses_an_event_that_is_no_answer() {
    let mut fetch = Fetch::new();
    assert_eq!(fetch.step(FetchEvent::Read(b"early")), Err(UnexpectedEvent));
    assert_eq!(fetch.step(FetchEvent::Connect { ok: true }), Err(UnexpectedEvent));
    assert_eq!(fetch.step(FetchEvent::ReadFailed), Err(UnexpectedEvent));
    assert_eq!(fetch.stage, FetchStage::Delaying);
}

use wifi_fetch::picow::fetch::{Fetch, FetchAction, FetchEvent, FetchStage, Report};
use wifi_fetch::request::URL_BUFFER_LEN;
use wifi_fetch::steps::UnexpectedEvent;

const URL: &str = "http://142.250.185.115:80 GET / HTTP/1.0\r\nHost: www.mobile-j.de\r\n\r\n";

#[test]
fn a_round_persists_until_the_answer() {
    let mut buf = [0u8; URL_BUFFER_LEN];
    let mut fetch = Fetch::new(&mut buf);
    assert_eq!(fetch.url, URL);
    let story: Vec<(FetchAction, FetchEvent<&[u8]>)> = vec![
        (FetchAction::Request(URL), FetchEvent::Request { ok: false }),
        (FetchAction::Pause(5000), FetchEvent::Done),
        (FetchAction::Request(URL), FetchEvent::Request { ok: false }),
        (FetchAction::Pause(5000), FetchEvent::Done),
        (FetchAction::Request(URL), FetchEvent::Request { ok: true }),
        (FetchAction::Send, FetchEvent::Send { ok: false }),
        (FetchAction::Pause(5000), FetchEvent::Done),
        (FetchAction::Send, FetchEvent::Send { ok: true }),
    ];
    for (action, event) in story {
        assert_eq!(fetch.action(), action);
        assert_eq!(fetch.step(event), Ok(None));
    }
    assert_eq!(fetch.action(), FetchAction::ReadBody);
    assert_eq!(
        fetch.step(FetchEvent::Body("caf\u{e9}".as_bytes())),
        Ok(Some(Report::Body("caf\u{e9}")))
    );
    assert_eq!(fetch.action(), FetchAction::Pause(10_000));
    assert_eq!(fetch.step(FetchEvent::Done), Ok(None));
    assert_eq!(fetch.action(), FetchAction::Request(URL));
}

#[test]
fn a_body_that_is_no_text_is_reported_and_the_loop_goes_on() {
    let mut fetch = Fetch { url: URL, stage: FetchStage::ReadingBody };
    assert_eq!(
        fetch.step(FetchEvent::Body(b"\xfe\xff")),
        Ok(Some(Report::Unreadable))
    );
    assert_eq!(fetch.stage, FetchStage::Resting);
    assert_eq!(fetch.step(FetchEvent::Done), Ok(None));
    assert_eq!(fetch.stage, FetchStage::Requesting);
}

#[test]
fn an_empty_body_is_text() {
    let mut fetch = Fetch { url: URL, stage: FetchStage::ReadingBody };
    assert_eq!(fetch.step(FetchEvent::Body(b"")), Ok(Some(Report::Body(""))));
}

#[test]
fn the_client_loop_refuses_an_event_that_is_no_answer() {
    let mut fetch = Fetch { url: URL, stage: FetchStage::Requesting };
    assert_eq!(fetch.step(FetchEvent::Done), Err(UnexpectedEvent));
    assert_eq!(fetch.step(FetchEvent::Send { ok: true }), Err(UnexpectedEvent));
    assert_eq!(fetch.step(FetchEvent::Body(b"early")), Err(UnexpectedEvent));
    assert_eq!(fetch.stage, FetchStage::Requesting);
}

#[test]
fn a_body_that_cannot_be_read_stops_the_pico() {
    let mut fetch = Fetch { url: URL, stage: FetchStage::ReadingBody };
    assert_eq!(fetch.step(FetchEvent::BodyFailed), Ok(None));
    assert_eq!(fetch.stage, FetchStage::Halted);
    assert_eq!(fetch.action(), FetchAction::Halt);
    assert_eq!(fetch.step(FetchEvent::Done), Err(UnexpectedEvent));
    assert_eq!(fetch.step(FetchEvent::Body(b"late")), Err(UnexpectedEvent));
    assert_eq!(fetch.step(FetchEvent::BodyFailed), Err(UnexpectedEvent));
    assert_eq!(fetch.stage, FetchStage::Halted);
}

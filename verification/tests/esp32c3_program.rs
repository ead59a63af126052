use wifi_fetch::esp32c3::boot::{BootAction, BootEvent, BootStage, HEAP_LEN};
use wifi_fetch::esp32c3::fetch::{
    FetchAction, FetchEvent, FetchStage, READ_BUFFER_LEN, SOCKET_BUFFER_LEN,
};
use wifi_fetch::esp32c3::program::{Program, ProgramEvent};
use wifi_fetch::phases::Phased;
use wifi_fetch::steps::UnexpectedEvent;

fn start() -> Vec<ProgramEvent<&'static [u8]>> {
    let mut events = vec![BootEvent::Done; 7];
    events.push(BootEvent::Words { first: 1, second: 2 });
    events.extend(vec![BootEvent::Done; 3]);
    events.extend([
        BootEvent::Link { up: false },
        BootEvent::Done,
        BootEvent::Link { up: true },
        BootEvent::Address { known: false },
        BootEvent::Done,
        BootEvent::Address { known: true },
    ]);
    events.into_iter().map(Phased::Starting).collect()
}

#[test]
fn the_esp_fetches_only_with_an_address() {
    let mut program = Program::new();
    let mut waited = 0;
    for event in start() {
        assert_eq!(program.step(Phased::Working(FetchEvent::Done)), Err(UnexpectedEvent));
        match program.action() {
            Phased::Starting(BootAction::Pause(ms)) => waited += ms,
            Phased::Starting(BootAction::StartStack { seed, sockets }) => {
                assert_eq!((seed, sockets), (0x1_0000_0002, 3));
            }
            Phased::Starting(_) => {}
            Phased::Working(_) => panic!("the work has begun too early"),
        }
        assert_eq!(program.step(event), Ok(None));
    }
    assert_eq!(waited, 1000 + 2 * 500);
    assert_eq!(program.stage, Phased::Working(FetchStage::Delaying));
    assert_eq!(program.action(), Phased::Working(FetchAction::Pause(1000)));
    assert_eq!(program.step(Phased::Starting(BootEvent::Done)), Err(UnexpectedEvent));
}

#[test]
fn the_esp_shows_what_it_reads() {
    let mut program = Program::new();
    for event in start() {
        assert_eq!(program.step(event), Ok(None));
    }
    for event in [
        FetchEvent::Done,
        FetchEvent::Connect { ok: true },
        FetchEvent::Write { ok: true },
    ] {
        assert_eq!(program.step(Phased::Working(event)), Ok(None));
    }
    assert_eq!(program.step(Phased::Working(FetchEvent::Read(b"page"))), Ok(Some("page")));
    assert_eq!(program.stage, Phased::Working(FetchStage::Writing));
}

#[test]
fn an_esp_that_stops_takes_no_more_events() {
    let mut program = Program { stage: Phased::Starting(BootStage::StartingRadio) };
    assert_eq!(program.step(Phased::Starting(BootEvent::Failed)), Ok(None));
    assert_eq!(program.action(), Phased::Starting(BootAction::Halt));
    assert_eq!(program.step(Phased::Starting(BootEvent::Done)), Err(UnexpectedEvent));
    let mut program = Program { stage: Phased::Working(FetchStage::Reading) };
    assert_eq!(program.step(Phased::Working(FetchEvent::Read(b"\xff"))), Ok(None));
    assert_eq!(program.action(), Phased::Working(FetchAction::Halt));
    assert_eq!(program.step(Phased::Working(FetchEvent::Done)), Err(UnexpectedEvent));
}

#[test]
fn the_esp_has_its_sizes() {
    assert_eq!((HEAP_LEN, SOCKET_BUFFER_LEN, READ_BUFFER_LEN), (64 * 1024, 4096, 1024));
}

use wifi_fetch::esp32c3::boot::{Boot, BootAction, BootEvent, BootStage, GREETING};
use wifi_fetch::esp32c3::display::{
    ALTERNATIVE_PINS, BUFFER_LEN, CELL, CHAR_NUM, HEIGHT, MEMORY_COLUMNS, OFFSETX, REMAPPED_PINS,
    VISIBLE_COLUMNS, VISIBLE_LINES, WIDTH,
};
use wifi_fetch::steps::UnexpectedEvent;

#[test]
fn the_board_comes_up_in_order() {
    let mut boot = Boot::new();
    let story = [
        (BootAction::OpenBus { khz: 400 }, BootEvent::Done),
        (BootAction::InitDisplay, BootEvent::Done),
        (BootAction::ClearDisplay, BootEvent::Done),
        (BootAction::Pause(1000), BootEvent::Done),
        (BootAction::SpawnBlink, BootEvent::Done),
        (BootAction::Greet("Hello\nWorld!"), BootEvent::Done),
        (BootAction::StartRadio, BootEvent::Done),
        (
            BootAction::DrawWords,
            BootEvent::Words { first: 0x0123_4567, second: 0x89ab_cdef },
        ),
        (
            BootAction::StartStack { seed: 0x0123_4567_89ab_cdef, sockets: 3 },
            BootEvent::Done,
        ),
        (BootAction::SpawnConnection, BootEvent::Done),
        (BootAction::SpawnNet, BootEvent::Done),
    ];
    for (action, event) in story {
        assert_eq!(boot.action(), action);
        assert_eq!(boot.step(event), Ok(()));
    }
    assert_eq!(boot.action(), BootAction::PollLink);
}

#[test]
fn the_network_is_asked_every_half_second() {
    let mut boot = Boot { stage: BootStage::PollingLink };
    let story = [
        (BootAction::PollLink, BootEvent::Link { up: false }),
        (BootAction::Pause(500), BootEvent::Done),
        (BootAction::PollLink, BootEvent::Link { up: false }),
        (BootAction::Pause(500), BootEvent::Done),
        (BootAction::PollLink, BootEvent::Link { up: true }),
        (BootAction::PollAddress, BootEvent::Address { known: false }),
        (BootAction::Pause(500), BootEvent::Done),
        (BootAction::PollAddress, BootEvent::Address { known: true }),
    ];
    for (action, event) in story {
        assert_eq!(boot.action(), action);
        assert_eq!(boot.step(event), Ok(()));
    }
    assert_eq!(boot.stage, BootStage::Ready);
    assert_eq!(boot.action(), BootAction::Proceed);
}

#[test]
fn a_ready_board_takes_no_more_events() {
    let mut boot = Boot { stage: BootStage::Ready };
    assert_eq!(boot.step(BootEvent::Done), Err(UnexpectedEvent));
    assert_eq!(boot.step(BootEvent::Link { up: true }), Err(UnexpectedEvent));
    assert_eq!(boot.step(BootEvent::Address { known: true }), Err(UnexpectedEvent));
    assert_eq!(boot.stage, BootStage::Ready);
}

#[test]
fn an_address_is_no_answer_to_a_question_for_the_link() {
    let mut boot = Boot { stage: BootStage::PollingLink };
    assert_eq!(boot.step(BootEvent::Address { known: true }), Err(UnexpectedEvent));
    assert_eq!(boot.stage, BootStage::PollingLink);
}

#[test]
fn the_display_has_its_geometry() {
    assert_eq!((WIDTH, HEIGHT, OFFSETX), (90, 20, 27));
    assert_eq!(BUFFER_LEN, 225);
    assert_eq!(CHAR_NUM, 33);
    assert!(!ALTERNATIVE_PINS);
    assert!(!REMAPPED_PINS);
    assert_eq!((MEMORY_COLUMNS, CELL), (128, 8));
    assert!(OFFSETX + WIDTH <= MEMORY_COLUMNS);
}

#[test]
fn the_greeting_is_completely_visible() {
    let lines: Vec<&str> = GREETING.split('\n').collect();
    assert_eq!(lines, ["Hello", "World!"]);
    assert_eq!((VISIBLE_LINES, VISIBLE_COLUMNS), (2, 9));
    assert!(lines.len() <= VISIBLE_LINES as usize);
    assert!(lines.iter().all(|line| line.len() <= VISIBLE_COLUMNS as usize));
}

#[test]
fn a_failure_of_the_display_or_the_radio_stops_the_board() {
    for stage in [
        BootStage::OpeningBus,
        BootStage::InitialisingDisplay,
        BootStage::ClearingDisplay,
        BootStage::StartingRadio,
    ] {
        let mut boot = Boot { stage };
        assert_eq!(boot.step(BootEvent::Failed), Ok(()));
        assert_eq!(boot.stage, BootStage::Halted);
        assert_eq!(boot.action(), BootAction::Halt);
        assert_eq!(boot.step(BootEvent::Done), Err(UnexpectedEvent));
        assert_eq!(boot.step(BootEvent::Failed), Err(UnexpectedEvent));
    }
}

#[test]
fn the_board_goes_on_without_a_task_or_a_greeting() {
    for (stage, next) in [
        (BootStage::SpawningBlink, BootStage::Greeting),
        (BootStage::Greeting, BootStage::StartingRadio),
        (BootStage::SpawningConnection, BootStage::SpawningNet),
        (BootStage::SpawningNet, BootStage::PollingLink),
    ] {
        for event in [BootEvent::Done, BootEvent::Failed] {
            let mut boot = Boot { stage };
            assert_eq!(boot.step(event), Ok(()));
            assert_eq!(boot.stage, next);
        }
    }
}

#[test]
fn a_wait_cannot_fail() {
    let mut boot = Boot { stage: BootStage::Settling };
    assert_eq!(boot.step(BootEvent::Failed), Err(UnexpectedEvent));
    assert_eq!(boot.stage, BootStage::Settling);
}

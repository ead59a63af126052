use wifi_fetch::esp32c3::station::{
    StaState, Station, StationAction, StationEvent, StationStage,
};
use wifi_fetch::steps::UnexpectedEvent;

fn actions_of(events: &[StationEvent]) -> Vec<StationAction<'static>> {
    let mut station = Station::new("home", "secret");
    let mut actions = Vec::new();
    for event in events {
        actions.push(station.action());
        assert_eq!(station.step(*event), Ok(()));
    }
    assert_eq!(station.stage, StationStage::Checking);
    actions
}

const SET_UP: [StationAction<'static>; 3] = [
    StationAction::Configure { ssid: "home", password: "secret" },
    StationAction::Start,
    StationAction::Scan { max: 10 },
];

#[test]
fn a_fresh_controller_is_set_up_before_it_connects() {
    let actions = actions_of(&[
        StationEvent::State(StaState::Invalid),
        StationEvent::Started(Some(false)),
        StationEvent::Done,
        StationEvent::Done,
        StationEvent::Done,
        StationEvent::Connect { ok: true },
    ]);
    let mut expected = vec![StationAction::ReadState, StationAction::ReadStarted];
    expected.extend(SET_UP);
    expected.push(StationAction::Connect);
    assert_eq!(actions, expected);
}

#[test]
fn a_controller_that_cannot_tell_is_set_up_too() {
    let actions = actions_of(&[
        StationEvent::State(StaState::Stopped),
        StationEvent::Started(None),
        StationEvent::Done,
        StationEvent::Done,
        StationEvent::Done,
        StationEvent::Connect { ok: true },
    ]);
    assert_eq!(actions[2..5], SET_UP);
}

#[test]
fn a_started_controller_connects_at_once() {
    for state in [
        StaState::Started,
        StaState::Disconnected,
        StaState::Stopped,
        StaState::Invalid,
    ] {
        let actions = actions_of(&[
            StationEvent::State(state),
            StationEvent::Started(Some(true)),
            StationEvent::Connect { ok: true },
        ]);
        assert_eq!(
            actions,
            [StationAction::ReadState, StationAction::ReadStarted, StationAction::Connect]
        );
    }
}

#[test]
fn a_connected_board_waits_for_the_loss_and_five_seconds_more() {
    let actions = actions_of(&[
        StationEvent::State(StaState::Connected),
        StationEvent::Done,
        StationEvent::Done,
        StationEvent::Started(Some(true)),
        StationEvent::Connect { ok: true },
    ]);
    assert_eq!(
        actions,
        [
            StationAction::ReadState,
            StationAction::AwaitDisconnect,
            StationAction::Pause(5000),
            StationAction::ReadStarted,
            StationAction::Connect,
        ]
    );
}

#[test]
fn a_failed_attempt_is_repeated_after_five_seconds() {
    let actions = actions_of(&[
        StationEvent::State(StaState::Started),
        StationEvent::Started(Some(true)),
        StationEvent::Connect { ok: false },
        StationEvent::Done,
        StationEvent::State(StaState::Disconnected),
        StationEvent::Started(Some(true)),
        StationEvent::Connect { ok: true },
    ]);
    assert_eq!(actions[2..4], [StationAction::Connect, StationAction::Pause(5000)]);
    assert_eq!(actions[6], StationAction::Connect);
}

#[test]
fn the_longest_way_to_an_attempt_has_nine_stages() {
    let mut station = Station::new("", "");
    station.stage = StationStage::Retrying;
    let events = [
        StationEvent::Done,
        StationEvent::State(StaState::Connected),
        StationEvent::Done,
        StationEvent::Done,
        StationEvent::Started(None),
        StationEvent::Done,
        StationEvent::Done,
        StationEvent::Done,
    ];
    for event in events {
        assert_ne!(station.action(), StationAction::Connect);
        assert_eq!(station.step(event), Ok(()));
    }
    assert_eq!(station.action(), StationAction::Connect);
}

#[test]
fn the_station_refuses_an_event_that_is_no_answer() {
    let mut station = Station::new("home", "secret");
    assert_eq!(station.step(StationEvent::Done), Err(UnexpectedEvent));
    assert_eq!(station.step(StationEvent::Connect { ok: true }), Err(UnexpectedEvent));
    assert_eq!(station.step(StationEvent::Started(Some(true))), Err(UnexpectedEvent));
    assert_eq!(station.stage, StationStage::Checking);
    assert_eq!((station.ssid, station.psk), ("home", "secret"));
}

#[test]
fn a_radio_that_cannot_be_set_up_stops_the_board() {
    for stage in [
        StationStage::Configuring,
        StationStage::Starting,
        StationStage::Scanning,
    ] {
        let mut station = Station::new("home", "secret");
        station.stage = stage;
        assert_eq!(station.step(StationEvent::Failed), Ok(()));
        assert_eq!(station.stage, StationStage::Halted);
        assert_eq!(station.action(), StationAction::Halt);
        assert_eq!(station.step(StationEvent::Done), Err(UnexpectedEvent));
        assert_eq!(station.step(StationEvent::Failed), Err(UnexpectedEvent));
    }
}

#[test]
fn the_station_cannot_fail_elsewhere() {
    for stage in [
        StationStage::Checking,
        StationStage::Watching,
        StationStage::Settling,
        StationStage::Probing,
        StationStage::Connecting,
        StationStage::Retrying,
    ] {
        let mut station = Station::new("home", "secret");
        station.stage = stage;
        assert_eq!(station.step(StationEvent::Failed), Err(UnexpectedEvent));
        assert_eq!(station.stage, stage);
    }
}

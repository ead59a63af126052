use wifi_fetch::picow::boot::{Boot, BootAction, BootEvent, BootStage, DhcpRetry};
use wifi_fetch::picow::flash::FlashRegion;
use wifi_fetch::steps::UnexpectedEvent;

const JOIN: BootAction<'static> = BootAction::Join { ssid: "home", passphrase: b"secret" };

#[test]
fn the_pico_comes_up_in_order() {
    let mut boot = Boot::new("home", "secret");
    let story = [
        (
            BootAction::LoadFirmware(FlashRegion { base: 0x1010_0000, len: 231_077 }),
            BootEvent::Done,
        ),
        (BootAction::SpawnDriver, BootEvent::Done),
        (
            BootAction::InitChip(FlashRegion { base: 0x1014_0000, len: 984 }),
            BootEvent::Done,
        ),
        (BootAction::SavePower, BootEvent::Done),
        (BootAction::DrawSeed, BootEvent::Seed(0x0123_4567_89ab_cdef)),
        (
            BootAction::StartStack {
                seed: 0x0123_4567_89ab_cdef,
                retry: DhcpRetry { initial_request_timeout_secs: 5, request_retries: 10 },
                sockets: 5,
            },
            BootEvent::Done,
        ),
        (BootAction::SpawnNet, BootEvent::Done),
    ];
    for (action, event) in story {
        assert_eq!(boot.action(), action);
        assert_eq!(boot.step(event), Ok(()));
    }
    assert_eq!(boot.action(), JOIN);
}

#[test]
fn the_pico_joins_persistently() {
    let mut boot = Boot { ssid: "home", psk: "secret", stage: BootStage::Joining };
    for _ in 0..20 {
        assert_eq!(boot.action(), JOIN);
        assert_eq!(boot.step(BootEvent::Join { ok: false }), Ok(()));
        assert_eq!(boot.action(), BootAction::Pause(5000));
        assert_eq!(boot.step(BootEvent::Done), Ok(()));
    }
    assert_eq!(boot.step(BootEvent::Join { ok: true }), Ok(()));
    assert_eq!(boot.action(), BootAction::AwaitConfig);
    assert_eq!(boot.step(BootEvent::Done), Ok(()));
    assert_eq!(boot.action(), BootAction::SpawnBlink);
    assert_eq!(boot.step(BootEvent::Done), Ok(()));
    assert_eq!(boot.action(), BootAction::Proceed);
    assert_eq!(boot.stage, BootStage::Ready);
}

#[test]
fn the_passphrase_is_the_encoding_of_the_key() {
    let boot = Boot { ssid: "s", psk: "\u{fc}", stage: BootStage::Joining };
    assert_eq!(
        boot.action(),
        BootAction::Join { ssid: "s", passphrase: &[0xc3, 0xbc] }
    );
}

#[test]
fn the_pico_refuses_an_event_that_is_no_answer() {
    let mut boot = Boot::new("home", "secret");
    assert_eq!(boot.step(BootEvent::Join { ok: true }), Err(UnexpectedEvent));
    assert_eq!(boot.stage, BootStage::LoadingFirmware);
    boot.stage = BootStage::Joining;
    assert_eq!(boot.step(BootEvent::Done), Err(UnexpectedEvent));
    boot.stage = BootStage::Ready;
    assert_eq!(boot.step(BootEvent::Done), Err(UnexpectedEvent));
    assert_eq!(boot.step(BootEvent::Join { ok: true }), Err(UnexpectedEvent));
    assert_eq!(boot.stage, BootStage::Ready);
}

#[test]
fn a_light_that_cannot_be_set_going_stops_the_pico() {
    let mut boot = Boot { ssid: "home", psk: "secret", stage: BootStage::SpawningBlink };
    assert_eq!(boot.step(BootEvent::Failed), Ok(()));
    assert_eq!(boot.stage, BootStage::Halted);
    assert_eq!(boot.action(), BootAction::Halt);
    assert_eq!(boot.step(BootEvent::Done), Err(UnexpectedEvent));
    assert_eq!(boot.step(BootEvent::Failed), Err(UnexpectedEvent));
}

#[test]
fn the_pico_goes_on_without_a_driver_or_network_task() {
    for (stage, next) in [
        (BootStage::SpawningDriver, BootStage::InitialisingChip),
        (BootStage::SpawningNet, BootStage::Joining),
    ] {
        for event in [BootEvent::Done, BootEvent::Failed] {
            let mut boot = Boot { ssid: "home", psk: "secret", stage };
            assert_eq!(boot.step(event), Ok(()));
            assert_eq!(boot.stage, next);
        }
    }
}

#[test]
fn the_pico_waits_for_its_seed() {
    let mut boot = Boot { ssid: "home", psk: "secret", stage: BootStage::DrawingSeed };
    assert_eq!(boot.step(BootEvent::Done), Err(UnexpectedEvent));
    assert_eq!(boot.stage, BootStage::DrawingSeed);
    assert_eq!(boot.step(BootEvent::Seed(7)), Ok(()));
    assert_eq!(boot.stage, BootStage::StartingStack { seed: 7 });
    assert_eq!(boot.step(BootEvent::Seed(8)), Err(UnexpectedEvent));
    assert_eq!(boot.stage, BootStage::StartingStack { seed: 7 });
}

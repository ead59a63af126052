use wifi_fetch::blink::{LedAction, Switching, Toggling, DUR, LED_PIN};

fn light_after(actions: &[LedAction]) -> (bool, u64) {
    let mut lit = false;
    let mut time = 0;
    for action in actions {
        match *action {
            LedAction::Toggle => lit = !lit,
            LedAction::Switch { pin: _, on } => lit = on,
            LedAction::Pause(ms) => time += ms,
        }
    }
    (lit, time)
}

#[test]
fn a_toggled_light_changes_and_waits() {
    let mut light = Toggling::new();
    assert_eq!(light.next(), LedAction::Toggle);
    assert_eq!(light.next(), LedAction::Pause(500));
    assert_eq!(light.next(), LedAction::Toggle);
    assert_eq!(light.next(), LedAction::Pause(500));
    assert_eq!(light, Toggling::Change);
}

#[test]
fn a_switched_light_goes_on_and_off() {
    let mut light = Switching::new();
    assert_eq!(light.next(), LedAction::Switch { pin: 0, on: true });
    assert_eq!(light.next(), LedAction::Pause(DUR));
    assert_eq!(light.next(), LedAction::Switch { pin: 0, on: false });
    assert_eq!(light.next(), LedAction::Pause(DUR));
    assert_eq!(light, Switching::On);
}

#[test]
fn both_lights_blink_alike() {
    let mut toggling = Toggling::new();
    let mut switching = Switching::new();
    let mut toggled = Vec::new();
    let mut switched = Vec::new();
    for count in 1..40u64 {
        toggled.push(toggling.next());
        switched.push(switching.next());
        let light = light_after(&toggled);
        assert_eq!(light, light_after(&switched));
        assert_eq!(light, ((count + 1) / 2 % 2 == 1, 500 * (count / 2)));
    }
}

#[test]
fn both_lights_light_up_first() {
    assert_eq!(Toggling::new(), Toggling::Change);
    assert_eq!(Switching::new(), Switching::On);
}

#[test]
fn a_switched_light_touches_its_pin_only() {
    assert_eq!(LED_PIN, 0);
    let mut light = Switching::new();
    for _ in 0..20 {
        match light.next() {
            LedAction::Switch { pin, on: _ } => assert_eq!(pin, 0),
            LedAction::Pause(ms) => assert_eq!(ms, 500),
            LedAction::Toggle => panic!("a switched light is not toggled"),
        }
    }
}

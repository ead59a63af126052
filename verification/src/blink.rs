//! The lights of the boards.
//!
//! One board toggles its light, the other switches it on and off.
use vstd::prelude::*;

verus! {

/// The time between two changes of a light, in milliseconds.
pub const DUR: u64 = 500;

/// The pin of the Wi-Fi chip that the switched light hangs on.
pub const LED_PIN: u8 = 0;

/// An operation that is asked of a light or of the timer.
#[derive(Clone, Copy, Debug, PartialEq, Eq, Structural)]
pub enum LedAction {
    Toggle,
    /// This pin, to this level.
    Switch { pin: u8, on: bool },
    Pause(u64),
}

/// What a light that is toggled is about to do.
#[derive(Clone, Copy, Debug, PartialEq, Eq, Structural)]
pub enum Toggling {
    Change,
    Hold,
}

/// What a light that is switched is about to do.
#[derive(Clone, Copy, Debug, PartialEq, Eq, Structural)]
pub enum Switching {
    On,
    HoldOn,
    Off,
    HoldOff,
}

impl Toggling {
    /// The light at its start: it is about to change.
    pub fn new() -> (light: Toggling)
        ensures
            light == Toggling::Change,
    {
        Toggling::Change
    }

    /// The operation that is due.
    pub open spec fn due(self) -> LedAction {
        match self {
            Toggling::Change => LedAction::Toggle,
            Toggling::Hold => LedAction::Pause(DUR),
        }
    }

    /// What comes after it.
    pub open spec fn then_comes(self) -> Toggling {
        match self {
            Toggling::Change => Toggling::Hold,
            Toggling::Hold => Toggling::Change,
        }
    }

    /// Hands out the operation that is due, and goes on to the one after it.
    pub fn next(&mut self) -> (action: LedAction)
        ensures
            action == old(self).due(),
            *final(self) == old(self).then_comes(),
    {
        match *self {
            Toggling::Change => {
                *self = Toggling::Hold;
                LedAction::Toggle
            },
            Toggling::Hold => {
                *self = Toggling::Change;
                LedAction::Pause(DUR)
            },
        }
    }
}

impl Switching {
    /// The light at its start: it is about to go on.
    pub fn new() -> (light: Switching)
        ensures
            light == Switching::On,
    {
        Switching::On
    }

    /// The operation that is due.
    pub open spec fn due(self) -> LedAction {
        match self {
            Switching::On => LedAction::Switch { pin: LED_PIN, on: true },
            Switching::HoldOn => LedAction::Pause(DUR),
            Switching::Off => LedAction::Switch { pin: LED_PIN, on: false },
            Switching::HoldOff => LedAction::Pause(DUR),
        }
    }

    /// What comes after it.
    pub open spec fn then_comes(self) -> Switching {
        match self {
            Switching::On => Switching::HoldOn,
            Switching::HoldOn => Switching::Off,
            Switching::Off => Switching::HoldOff,
            Switching::HoldOff => Switching::On,
        }
    }

    /// Hands out the operation that is due, and goes on to the one after it.
    pub fn next(&mut self) -> (action: LedAction)
        ensures
            action == old(self).due(),
            *final(self) == old(self).then_comes(),
    {
        match *self {
            Switching::On => {
                *self = Switching::HoldOn;
                LedAction::Switch { pin: LED_PIN, on: true }
            },
            Switching::HoldOn => {
                *self = Switching::Off;
                LedAction::Pause(DUR)
            },
            Switching::Off => {
                *self = Switching::HoldOff;
                LedAction::Switch { pin: LED_PIN, on: false }
            },
            Switching::HoldOff => {
                *self = Switching::On;
                LedAction::Pause(DUR)
            },
        }
    }
}

/// A light, and the milliseconds for which it has been going.
pub struct Light {
    pub lit: bool,
    pub time: nat,
}

impl Light {
    /// A light that is dark, at the beginning.
    pub open spec fn dark() -> Light {
        Light { lit: false, time: 0 }
    }

    /// What an operation makes of the light.
    pub open spec fn under(self, action: LedAction) -> Light {
        match action {
            LedAction::Toggle => Light { lit: !self.lit, ..self },
            LedAction::Switch { pin: _, on } => Light { lit: on, ..self },
            LedAction::Pause(ms) => Light { time: self.time + ms as nat, ..self },
        }
    }
}

/// A dark light that has been toggled through `count` operations, and what comes next.
pub open spec fn toggled(count: nat) -> (Light, Toggling)
    decreases count,
{
    if count == 0 {
        (Light::dark(), Toggling::Change)
    } else {
        let (light, stage) = toggled((count - 1) as nat);
        (light.under(stage.due()), stage.then_comes())
    }
}

/// A dark light that has been switched through `count` operations, and what comes next.
pub open spec fn switched(count: nat) -> (Light, Switching)
    decreases count,
{
    if count == 0 {
        (Light::dark(), Switching::On)
    } else {
        let (light, stage) = switched((count - 1) as nat);
        (light.under(stage.due()), stage.then_comes())
    }
}

/// Both lights blink alike: they change every half second, and are lit in every even
/// half second, counted from zero. `count` operations have made `count / 2` half
/// seconds go by, and an odd operation is a change.
pub proof fn law_lights_blink_alike(count: nat)
    ensures
        toggled(count).0 == switched(count).0,
        toggled(count).0.time == DUR * (count / 2),
        toggled(count).0.lit == ((count + 1) / 2 % 2 == 1),
        toggled(count).1 == (if count % 2 == 0 {
            Toggling::Change
        } else {
            Toggling::Hold
        }),
        switched(count).1 == (if count % 4 == 0 {
            Switching::On
        } else if count % 4 == 1 {
            Switching::HoldOn
        } else if count % 4 == 2 {
            Switching::Off
        } else {
            Switching::HoldOff
        }),
    decreases count,
{
    if count > 0 {
        law_lights_blink_alike((count - 1) as nat);
    }
}

/// A switched light asks for nothing but its own pin and for waits of its interval: no
/// other pin is touched, whatever the stage.
pub proof fn law_switching_touches_its_pin_only(stage: Switching)
    ensures
        stage.due() is Switch || stage.due() is Pause,
        stage.due() matches LedAction::Switch { pin, on } ==> pin == LED_PIN,
        stage.due() matches LedAction::Pause(ms) ==> ms == DUR,
{
}

/// A toggled light goes on for ever with two operations: a change, and half a second of
/// waiting.
pub proof fn law_toggling_alternates(
    start: Toggling,
    light1: &mut Toggling,
    action1: LedAction,
    light2: &mut Toggling,
    action2: LedAction,
)
    requires
        call_ensures(Toggling::new, (), start),
        *old(light1) == start,
        call_ensures(Toggling::next, (light1,), action1),
        *old(light2) == *final(light1),
        call_ensures(Toggling::next, (light2,), action2),
    ensures
        action1 == LedAction::Toggle,
        action2 == LedAction::Pause(500),
        *final(light2) == start,
        *final(light1) != start,
{
}

/// A switched light goes on for ever with four operations: its pin goes high, half a
/// second passes, its pin goes low, and half a second passes.
pub proof fn law_switching_goes_round(
    start: Switching,
    light1: &mut Switching,
    action1: LedAction,
    light2: &mut Switching,
    action2: LedAction,
    light3: &mut Switching,
    action3: LedAction,
    light4: &mut Switching,
    action4: LedAction,
)
    requires
        call_ensures(Switching::new, (), start),
        *old(light1) == start,
        call_ensures(Switching::next, (light1,), action1),
        *old(light2) == *final(light1),
        call_ensures(Switching::next, (light2,), action2),
        *old(light3) == *final(light2),
        call_ensures(Switching::next, (light3,), action3),
        *old(light4) == *final(light3),
        call_ensures(Switching::next, (light4,), action4),
    ensures
        action1 == (LedAction::Switch { pin: 0, on: true }),
        action2 == LedAction::Pause(500),
        action3 == (LedAction::Switch { pin: 0, on: false }),
        action4 == LedAction::Pause(500),
        *final(light4) == start,
{
}

} // verus!

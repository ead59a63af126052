//! The way from power-on to a network with an address.
use crate::esp32c3::fetch::FetchStage;
use crate::phases::Opens;
use crate::seed::{seed_of, stack_seed};
use crate::steps::{lemma_halted, lemma_run_push, run, slept, visited, Steps, UnexpectedEvent};
use vstd::prelude::*;

verus! {

/// The frequency of the bus to the display.
pub const BUS_KHZ: u32 = 400;

/// The wait between the cleared display and the first sign of life.
pub const SETTLE_PAUSE_MS: u64 = 1000;

/// The wait before the network is asked again.
pub const POLL_PAUSE_MS: u64 = 500;

/// The bytes of the heap that the radio works with.
pub const HEAP_LEN: usize = 65_536;

/// The number of sockets that the network stack has room for.
pub const STACK_SOCKETS: usize = 3;

/// The text on the display.
pub const GREETING: &'static str = "Hello\nWorld!";

/// What the board is about to do.
#[derive(Clone, Copy, Debug, PartialEq, Eq, Structural)]
pub enum BootStage {
    OpeningBus,
    InitialisingDisplay,
    ClearingDisplay,
    Settling,
    SpawningBlink,
    Greeting,
    StartingRadio,
    DrawingSeed,
    StartingStack { seed: u64 },
    SpawningConnection,
    SpawningNet,
    PollingLink,
    AwaitingLink,
    PollingAddress,
    AwaitingAddress,
    /// The board has a link and an address.
    Ready,
    /// Something failed that the board cannot do without: it stops.
    Halted,
}

/// How an operation of the board went.
#[derive(Clone, Copy, Debug, PartialEq, Eq, Structural)]
pub enum BootEvent {
    /// The operation is over, and had nothing to tell.
    Done,
    /// The operation could not be done.
    Failed,
    /// These words were drawn, the first of them before the second.
    Words { first: u32, second: u32 },
    /// The network stack was asked for its link.
    Link { up: bool },
    /// The network stack was asked for its address.
    Address { known: bool },
}

/// An operation that is asked of the board.
#[derive(Clone, Copy, Debug, PartialEq, Eq)]
pub enum BootAction {
    /// The bus to the display, and the display on it.
    OpenBus { khz: u32 },
    InitDisplay,
    ClearDisplay,
    Pause(u64),
    SpawnBlink,
    /// This text, on the display.
    Greet(&'static str),
    StartRadio,
    /// Two random words.
    DrawWords,
    /// The network stack on top of the radio, with this seed and room for this many sockets.
    StartStack { seed: u64, sockets: usize },
    SpawnConnection,
    SpawnNet,
    PollLink,
    PollAddress,
    /// Nothing is left to do.
    Proceed,
    /// The end of the program, as after a panic.
    Halt,
}

/// The board on its way.
#[derive(Clone, Copy, Debug)]
pub struct Boot {
    pub stage: BootStage,
}

impl Steps for BootStage {
    type Event = BootEvent;

    type Told = ();

    open spec fn after(self, event: BootEvent) -> Option<BootStage> {
        match (self, event) {
            (BootStage::OpeningBus, BootEvent::Done) => Some(BootStage::InitialisingDisplay),
            (BootStage::InitialisingDisplay, BootEvent::Done) => Some(BootStage::ClearingDisplay),
            (BootStage::ClearingDisplay, BootEvent::Done) => Some(BootStage::Settling),
            (BootStage::Settling, BootEvent::Done) => Some(BootStage::SpawningBlink),
            (BootStage::SpawningBlink, BootEvent::Done | BootEvent::Failed) => Some(BootStage::Greeting),
            (BootStage::Greeting, BootEvent::Done | BootEvent::Failed) => Some(BootStage::StartingRadio),
            (BootStage::StartingRadio, BootEvent::Done) => Some(BootStage::DrawingSeed),
            (BootStage::DrawingSeed, BootEvent::Words { first, second }) => Some(BootStage::StartingStack { seed: seed_of(first, second) as u64 }),
            (BootStage::StartingStack { .. }, BootEvent::Done) => Some(BootStage::SpawningConnection),
            (BootStage::SpawningConnection, BootEvent::Done | BootEvent::Failed) => Some(BootStage::SpawningNet),
            (BootStage::SpawningNet, BootEvent::Done | BootEvent::Failed) => Some(BootStage::PollingLink),
            (
                BootStage::OpeningBus
                | BootStage::InitialisingDisplay
                | BootStage::ClearingDisplay
                | BootStage::StartingRadio,
                BootEvent::Failed,
            ) => Some(BootStage::Halted),
            (BootStage::PollingLink, BootEvent::Link { up: true }) => Some(
                BootStage::PollingAddress,
            ),
            (BootStage::PollingLink, BootEvent::Link { up: false }) => Some(
                BootStage::AwaitingLink,
            ),
            (BootStage::AwaitingLink, BootEvent::Done) => Some(BootStage::PollingLink),
            (BootStage::PollingAddress, BootEvent::Address { known: true }) => Some(
                BootStage::Ready,
            ),
            (BootStage::PollingAddress, BootEvent::Address { known: false }) => Some(
                BootStage::AwaitingAddress,
            ),
            (BootStage::AwaitingAddress, BootEvent::Done) => Some(BootStage::PollingAddress),
            _ => None,
        }
    }

    open spec fn pause(self) -> nat {
        match self {
            BootStage::Settling => SETTLE_PAUSE_MS as nat,
            BootStage::AwaitingLink | BootStage::AwaitingAddress => POLL_PAUSE_MS as nat,
            _ => 0,
        }
    }

    open spec fn tells(self, event: BootEvent) -> Option<()> {
        None
    }
}

impl Opens for BootStage {
    type Work = FetchStage;

    open spec fn is_through(self) -> bool {
        self is Ready
    }

    open spec fn opened() -> FetchStage {
        FetchStage::Delaying
    }
}

impl Boot {
    /// Whether this is the operation that is due.
    pub open spec fn is_due(self, action: BootAction) -> bool {
        action == (match self.stage {
            BootStage::OpeningBus => BootAction::OpenBus { khz: BUS_KHZ },
            BootStage::InitialisingDisplay => BootAction::InitDisplay,
            BootStage::ClearingDisplay => BootAction::ClearDisplay,
            BootStage::Settling => BootAction::Pause(SETTLE_PAUSE_MS),
            BootStage::SpawningBlink => BootAction::SpawnBlink,
            BootStage::Greeting => BootAction::Greet(GREETING),
            BootStage::StartingRadio => BootAction::StartRadio,
            BootStage::DrawingSeed => BootAction::DrawWords,
            BootStage::StartingStack { seed } => BootAction::StartStack {
                seed,
                sockets: STACK_SOCKETS,
            },
            BootStage::SpawningConnection => BootAction::SpawnConnection,
            BootStage::SpawningNet => BootAction::SpawnNet,
            BootStage::PollingLink => BootAction::PollLink,
            BootStage::AwaitingLink => BootAction::Pause(POLL_PAUSE_MS),
            BootStage::PollingAddress => BootAction::PollAddress,
            BootStage::AwaitingAddress => BootAction::Pause(POLL_PAUSE_MS),
            BootStage::Ready => BootAction::Proceed,
            BootStage::Halted => BootAction::Halt,
        })
    }

    /// The board after power-on.
    pub fn new() -> (boot: Boot)
        ensures
            boot.stage == BootStage::OpeningBus,
    {
        Boot { stage: BootStage::OpeningBus }
    }

    /// The operation that is due.
    pub fn action(&self) -> (action: BootAction)
        ensures
            self.is_due(action),
            self.stage.pause() == (match action {
                BootAction::Pause(ms) => ms as nat,
                _ => 0,
            }),
    {
        match self.stage {
            BootStage::OpeningBus => BootAction::OpenBus { khz: BUS_KHZ },
            BootStage::InitialisingDisplay => BootAction::InitDisplay,
            BootStage::ClearingDisplay => BootAction::ClearDisplay,
            BootStage::Settling => BootAction::Pause(SETTLE_PAUSE_MS),
            BootStage::SpawningBlink => BootAction::SpawnBlink,
            BootStage::Greeting => BootAction::Greet(GREETING),
            BootStage::StartingRadio => BootAction::StartRadio,
            BootStage::DrawingSeed => BootAction::DrawWords,
            BootStage::StartingStack { seed } => BootAction::StartStack {
                seed,
                sockets: STACK_SOCKETS,
            },
            BootStage::SpawningConnection => BootAction::SpawnConnection,
            BootStage::SpawningNet => BootAction::SpawnNet,
            BootStage::PollingLink => BootAction::PollLink,
            BootStage::PollingAddress => BootAction::PollAddress,
            BootStage::AwaitingLink | BootStage::AwaitingAddress => BootAction::Pause(
                POLL_PAUSE_MS,
            ),
            BootStage::Ready => BootAction::Proceed,
            BootStage::Halted => BootAction::Halt,
        }
    }

    /// Takes the outcome of the operation that was due.
    pub fn step(&mut self, event: BootEvent) -> (taken: Result<(), UnexpectedEvent>)
        ensures
            taken is Ok <==> old(self).stage.after(event) is Some,
            taken is Ok ==> Some(final(self).stage) == old(self).stage.after(event),
            taken is Err ==> final(self).stage == old(self).stage,
    {
        let next: BootStage = match (self.stage, event) {
            (BootStage::OpeningBus, BootEvent::Done) => BootStage::InitialisingDisplay,
            (BootStage::InitialisingDisplay, BootEvent::Done) => BootStage::ClearingDisplay,
            (BootStage::ClearingDisplay, BootEvent::Done) => BootStage::Settling,
            (BootStage::Settling, BootEvent::Done) => BootStage::SpawningBlink,
            (BootStage::SpawningBlink, BootEvent::Done | BootEvent::Failed) => BootStage::Greeting,
            (BootStage::Greeting, BootEvent::Done | BootEvent::Failed) => BootStage::StartingRadio,
            (BootStage::StartingRadio, BootEvent::Done) => BootStage::DrawingSeed,
            (BootStage::DrawingSeed, BootEvent::Words { first, second }) => BootStage::StartingStack { seed: stack_seed(first, second) },
            (BootStage::StartingStack { .. }, BootEvent::Done) => BootStage::SpawningConnection,
            (BootStage::SpawningConnection, BootEvent::Done | BootEvent::Failed) => BootStage::SpawningNet,
            (BootStage::SpawningNet, BootEvent::Done | BootEvent::Failed) => BootStage::PollingLink,
            (
                BootStage::OpeningBus
                | BootStage::InitialisingDisplay
                | BootStage::ClearingDisplay
                | BootStage::StartingRadio,
                BootEvent::Failed,
            ) => BootStage::Halted,
            (BootStage::PollingLink, BootEvent::Link { up }) => if up {
                BootStage::PollingAddress
            } else {
                BootStage::AwaitingLink
            },
            (BootStage::AwaitingLink, BootEvent::Done) => BootStage::PollingLink,
            (BootStage::PollingAddress, BootEvent::Address { known }) => if known {
                BootStage::Ready
            } else {
                BootStage::AwaitingAddress
            },
            (BootStage::AwaitingAddress, BootEvent::Done) => BootStage::PollingAddress,
            _ => {
                return Err(UnexpectedEvent);
            },
        };
        self.stage = next;
        Ok(())
    }
}

/// The seed that the words drawn in `events` make.
pub open spec fn drawn(events: Seq<BootEvent>) -> u64 {
    match events[7] {
        BootEvent::Words { first, second } => seed_of(first, second) as u64,
        _ => 0,
    }
}

/// The stages that every start goes through before the network is asked for anything,
/// where the words that are drawn make `seed`.
pub open spec fn set_up(seed: u64) -> Seq<BootStage> {
    seq![
        BootStage::OpeningBus,
        BootStage::InitialisingDisplay,
        BootStage::ClearingDisplay,
        BootStage::Settling,
        BootStage::SpawningBlink,
        BootStage::Greeting,
        BootStage::StartingRadio,
        BootStage::DrawingSeed,
        BootStage::StartingStack { seed },
        BootStage::SpawningConnection,
        BootStage::SpawningNet,
    ]
}

/// The stages in which the board waits for the network.
pub open spec fn is_waiting_for_network(stage: BootStage) -> bool {
    match stage {
        BootStage::PollingLink
        | BootStage::AwaitingLink
        | BootStage::PollingAddress
        | BootStage::AwaitingAddress
        | BootStage::Ready => true,
        _ => false,
    }
}

/// Every start is the same until the network is asked, unless the board stops: the light
/// is set going and the greeting is sent to the display before the radio is started, the
/// network stack gets the seed that was drawn, and both network tasks are spawned before
/// the first question for a link.
pub proof fn law_boot_order(events: Seq<BootEvent>)
    requires
        run(BootStage::OpeningBus, events) is Some,
    ensures
        run(BootStage::OpeningBus, events)->0 is Halted || (if events.len() < set_up(drawn(events)).len() {
            run(BootStage::OpeningBus, events) == Some(set_up(drawn(events))[events.len() as int])
        } else {
            is_waiting_for_network(run(BootStage::OpeningBus, events)->0)
        }),
        visited(BootStage::OpeningBus, events).len() == events.len(),
        forall|i: int|
            0 <= i < events.len() && i < set_up(drawn(events)).len() ==> #[trigger] visited(
                BootStage::OpeningBus,
                events,
            )[i] == set_up(drawn(events))[i],
    decreases events.len(),
{
    if events.len() > 0 {
        law_boot_order(events.drop_last());
        assert(events.len() > 8 ==> drawn(events) == drawn(events.drop_last()));
        lemma_run_push(BootStage::OpeningBus, events.drop_last(), events.last());
        assert(events =~= events.drop_last().push(events.last()));
    }
}

/// The board is ready exactly when it has been told of a link, and of an address.
pub proof fn law_boot_ready(events: Seq<BootEvent>)
    requires
        run(BootStage::OpeningBus, events) is Some,
    ensures
        run(BootStage::OpeningBus, events)->0 is Ready <==> events.contains(
            BootEvent::Address { known: true },
        ),
        events.contains(BootEvent::Link { up: true }) <==> match run(
            BootStage::OpeningBus,
            events,
        )->0 {
            BootStage::PollingAddress | BootStage::AwaitingAddress | BootStage::Ready => true,
            _ => false,
        },
    decreases events.len(),
{
    if events.len() > 0 {
        let before = events.drop_last();
        law_boot_ready(before);
        assert(events =~= before.push(events.last()));
        assert(forall|event: BootEvent|
            events.contains(event) <==> before.contains(event) || event == events.last()) by {
            assert forall|event: BootEvent| events.contains(event) implies before.contains(event)
                || event == events.last() by {
                let i = choose|i: int| 0 <= i < events.len() && events[i] == event;
                if i < before.len() {
                    assert(before[i] == event);
                }
            }
            assert forall|event: BootEvent| before.contains(event) || event
                == events.last() implies events.contains(event) by {
                if before.contains(event) {
                    let i = choose|i: int| 0 <= i < before.len() && before[i] == event;
                    assert(events[i] == event);
                } else {
                    assert(events[events.len() - 1] == event);
                }
            }
        }
    }
}

/// The number of questions in `events` that the network stack answered with no.
pub open spec fn refusals(events: Seq<BootEvent>) -> nat
    decreases events.len(),
{
    if events.len() == 0 {
        0
    } else {
        refusals(events.drop_last()) + (match events.last() {
            BootEvent::Link { up: false } | BootEvent::Address { known: false } => 1nat,
            _ => 0,
        })
    }
}

/// The board waits for a second while it is set up and for half a second after each no
/// of the network stack, and never otherwise.
pub proof fn law_boot_pauses(events: Seq<BootEvent>)
    requires
        run(BootStage::OpeningBus, events) is Some,
    ensures
        slept(BootStage::OpeningBus, events) == (if events.len() >= 4 {
            SETTLE_PAUSE_MS as nat
        } else {
            0
        }) + POLL_PAUSE_MS * (refusals(events) - (match run(
            BootStage::OpeningBus,
            events,
        )->0 {
            BootStage::AwaitingLink | BootStage::AwaitingAddress => 1nat,
            _ => 0,
        })),
    decreases events.len(),
{
    law_boot_order(events);
    if events.len() > 0 {
        law_boot_order(events.drop_last());
        law_boot_pauses(events.drop_last());
    }
}

/// Whether the board cannot do without the operation of this stage.
pub open spec fn must_succeed(stage: BootStage) -> bool {
    match stage {
        BootStage::OpeningBus
        | BootStage::InitialisingDisplay
        | BootStage::ClearingDisplay
        | BootStage::StartingRadio => true,
        _ => false,
    }
}

/// Whether the board goes on without the operation of this stage, where it fails.
pub open spec fn may_fail(stage: BootStage) -> bool {
    match stage {
        BootStage::SpawningBlink
        | BootStage::Greeting
        | BootStage::SpawningConnection
        | BootStage::SpawningNet => true,
        _ => false,
    }
}

/// A failure of the display or of the radio stops the board. A task that cannot be
/// spawned does not, nor does a greeting that cannot be shown: the board goes on as if
/// nothing had happened.
pub proof fn law_boot_failures(stage: BootStage)
    ensures
        stage.after(BootEvent::Failed) == (if must_succeed(stage) {
            Some(BootStage::Halted)
        } else if may_fail(stage) {
            stage.after(BootEvent::Done)
        } else {
            None
        }),
{
}

/// The board stops exactly when something failed that it cannot do without.
pub proof fn law_boot_halts(events: Seq<BootEvent>)
    requires
        run(BootStage::OpeningBus, events) is Some,
    ensures
        run(BootStage::OpeningBus, events) == Some(BootStage::Halted) <==> exists|i: int|
            0 <= i < events.len() && must_succeed(
                #[trigger] visited(BootStage::OpeningBus, events)[i],
            ) && events[i] == BootEvent::Failed,
{
    lemma_halted(
        BootStage::OpeningBus,
        events,
        BootStage::Halted,
        |stage: BootStage, event: BootEvent| must_succeed(stage) && event == BootEvent::Failed,
    );
}

/// Until it is ready or has stopped, the board never gets stuck: every stage has an
/// event that answers it.
pub proof fn law_boot_never_stuck(stage: BootStage)
    ensures
        (exists|event: BootEvent| #[trigger] stage.after(event) is Some) <==> !(stage is Ready
            || stage is Halted),
{
    let witness = match stage {
        BootStage::DrawingSeed => BootEvent::Words { first: 0, second: 0 },
        BootStage::PollingLink => BootEvent::Link { up: true },
        BootStage::PollingAddress => BootEvent::Address { known: true },
        _ => BootEvent::Done,
    };
    assert(stage is Ready || stage is Halted || stage.after(witness) is Some);
}

/// A new start begins with the bus.
pub proof fn law_boot_begins(boot: Boot)
    requires
        call_ensures(Boot::new, (), boot),
    ensures
        boot.stage is OpeningBus,
{
}

/// What the start asks for: a bus of 400 kHz, the greeting in two lines, a stack with the
/// seed that was drawn and room for three sockets, and waits of one second before the light
/// and of half a second between two questions.
pub proof fn law_boot_asks(boot: Boot, action: BootAction)
    requires
        call_ensures(Boot::action, (&boot,), action),
    ensures
        action is OpenBus <==> boot.stage is OpeningBus,
        action matches BootAction::OpenBus { khz } ==> khz == 400,
        action is InitDisplay <==> boot.stage is InitialisingDisplay,
        action is ClearDisplay <==> boot.stage is ClearingDisplay,
        action is Pause <==> boot.stage is Settling || boot.stage is AwaitingLink || boot.stage
            is AwaitingAddress,
        boot.stage is Settling ==> action == BootAction::Pause(1000),
        boot.stage is AwaitingLink ==> action == BootAction::Pause(500),
        boot.stage is AwaitingAddress ==> action == BootAction::Pause(500),
        action is SpawnBlink <==> boot.stage is SpawningBlink,
        action is Greet <==> boot.stage is Greeting,
        action matches BootAction::Greet(text) ==> text@ == "Hello\nWorld!"@,
        action is StartRadio <==> boot.stage is StartingRadio,
        action is DrawWords <==> boot.stage is DrawingSeed,
        action is StartStack <==> boot.stage is StartingStack,
        action matches BootAction::StartStack { seed, sockets } ==> boot.stage
            == (BootStage::StartingStack { seed }) && sockets == 3,
        action is SpawnConnection <==> boot.stage is SpawningConnection,
        action is SpawnNet <==> boot.stage is SpawningNet,
        action is PollLink <==> boot.stage is PollingLink,
        action is PollAddress <==> boot.stage is PollingAddress,
        action is Proceed <==> boot.stage is Ready,
        action is Halt <==> boot.stage is Halted,
{
}

/// Where an outcome leads: the words that were drawn are the halves of the seed, a question
/// is asked again after a no, a failure of the bus, the display or the radio stops the
/// board, and any other failure makes no difference.
pub proof fn law_boot_takes(boot: &mut Boot, event: BootEvent, taken: Result<(), UnexpectedEvent>)
    requires
        call_ensures(Boot::step, (boot, event), taken),
    ensures
        taken is Err ==> final(boot).stage == old(boot).stage,
        taken is Ok <==> match event {
            BootEvent::Words { first: _, second: _ } => old(boot).stage is DrawingSeed,
            BootEvent::Link { up: _ } => old(boot).stage is PollingLink,
            BootEvent::Address { known: _ } => old(boot).stage is PollingAddress,
            BootEvent::Failed => match old(boot).stage {
                BootStage::OpeningBus
                | BootStage::InitialisingDisplay
                | BootStage::ClearingDisplay
                | BootStage::SpawningBlink
                | BootStage::Greeting
                | BootStage::StartingRadio
                | BootStage::SpawningConnection
                | BootStage::SpawningNet => true,
                _ => false,
            },
            BootEvent::Done => match old(boot).stage {
                BootStage::DrawingSeed
                | BootStage::PollingLink
                | BootStage::PollingAddress
                | BootStage::Ready
                | BootStage::Halted => false,
                _ => true,
            },
        },
        event matches BootEvent::Words { first, second } ==> (taken is Ok ==> {
            &&& final(boot).stage matches BootStage::StartingStack { seed }
            &&& seed as int / 0x1_0000_0000 == first
            &&& seed as int % 0x1_0000_0000 == second
        }),
        event matches BootEvent::Link { up } ==> (taken is Ok ==> (if up {
            final(boot).stage is PollingAddress
        } else {
            final(boot).stage is AwaitingLink
        })),
        event matches BootEvent::Address { known } ==> (taken is Ok ==> (if known {
            final(boot).stage is Ready
        } else {
            final(boot).stage is AwaitingAddress
        })),
        taken is Ok && (event is Done || event is Failed) ==> match old(boot).stage {
            BootStage::OpeningBus => if event is Done {
                final(boot).stage is InitialisingDisplay
            } else {
                final(boot).stage is Halted
            },
            BootStage::InitialisingDisplay => if event is Done {
                final(boot).stage is ClearingDisplay
            } else {
                final(boot).stage is Halted
            },
            BootStage::ClearingDisplay => if event is Done {
                final(boot).stage is Settling
            } else {
                final(boot).stage is Halted
            },
            BootStage::Settling => final(boot).stage is SpawningBlink,
            BootStage::SpawningBlink => final(boot).stage is Greeting,
            BootStage::Greeting => final(boot).stage is StartingRadio,
            BootStage::StartingRadio => if event is Done {
                final(boot).stage is DrawingSeed
            } else {
                final(boot).stage is Halted
            },
            BootStage::StartingStack { .. } => final(boot).stage is SpawningConnection,
            BootStage::SpawningConnection => final(boot).stage is SpawningNet,
            BootStage::SpawningNet => final(boot).stage is PollingLink,
            BootStage::AwaitingLink => final(boot).stage is PollingLink,
            BootStage::AwaitingAddress => final(boot).stage is PollingAddress,
            _ => false,
        },
{
}

} // verus!

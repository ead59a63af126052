//! The whole program of the board: the start, and then the loop that fetches the page.
use crate::esp32c3::boot::{law_boot_order, law_boot_pauses, law_boot_ready, refusals};
use crate::esp32c3::boot::{Boot, BootAction, BootEvent, BootStage};
use crate::esp32c3::boot::{POLL_PAUSE_MS, SETTLE_PAUSE_MS};
use crate::esp32c3::fetch::{attempts, law_fetch_pauses, sessions_ended};
use crate::esp32c3::fetch::{Fetch, FetchAction, FetchEvent, FetchStage};
use crate::esp32c3::fetch::{CONNECT_PAUSE_MS, SESSION_PAUSE_MS};
use crate::phases::{lemma_phases, starts, works, Phased};
use crate::seed::seed_of;
use crate::steps::{gone_through, is_orderly, run, slept, visited};
use crate::steps::{lemma_ranks, Ranked, Steps, UnexpectedEvent};
use vstd::prelude::*;
use vstd::utf8::{decode_utf8, encode_utf8, valid_utf8};

verus! {

/// What the board is about to do.
pub type ProgramStage = Phased<BootStage, FetchStage>;

/// How an operation of the board went. `B` holds the bytes that were read.
pub type ProgramEvent<B> = Phased<BootEvent, FetchEvent<B>>;

/// An operation that is asked of the board.
pub type ProgramAction = Phased<BootAction, FetchAction>;

/// The program.
#[derive(Debug)]
pub struct Program {
    pub stage: ProgramStage,
}

/// The event, with the bytes by their values.
pub open spec fn model(event: ProgramEvent<&[u8]>) -> ProgramEvent<Seq<u8>> {
    match event {
        Phased::Starting(event) => Phased::Starting(event),
        Phased::Working(event) => Phased::Working(event.model()),
    }
}

impl Program {
    /// The program after power-on.
    pub fn new() -> (program: Program)
        ensures
            program.stage == power_on(),
    {
        let boot = Boot::new();
        Program { stage: Phased::Starting(boot.stage) }
    }

    /// Whether this is the operation that is due.
    pub open spec fn is_due(self, action: ProgramAction) -> bool {
        match (self.stage, action) {
            (Phased::Starting(stage), Phased::Starting(action)) => (Boot { stage }).is_due(action),
            (Phased::Working(stage), Phased::Working(action)) => (Fetch { stage }).is_due(action),
            _ => false,
        }
    }

    /// The operation that is due.
    pub fn action(&self) -> (action: ProgramAction)
        ensures
            self.is_due(action),
            self.stage.pause() == (match action {
                Phased::Starting(BootAction::Pause(ms)) => ms as nat,
                Phased::Working(FetchAction::Pause(ms)) => ms as nat,
                _ => 0,
            }),
    {
        match &self.stage {
            Phased::Starting(stage) => Phased::Starting((Boot { stage: *stage }).action()),
            Phased::Working(stage) => Phased::Working((Fetch { stage: *stage }).action()),
        }
    }

    /// Takes the outcome of the operation that was due; hands back the text that is
    /// to be shown.
    pub fn step<'a>(&mut self, event: ProgramEvent<&'a [u8]>) -> (taken: Result<
        Option<&'a str>,
        UnexpectedEvent,
    >)
        ensures
            taken is Ok <==> old(self).stage.after(model(event)) is Some,
            taken is Ok ==> Some(final(self).stage) == old(self).stage.after(model(event)),
            taken is Err ==> final(self).stage == old(self).stage,
            taken matches Ok(shown) ==> match shown {
                Some(text) => old(self).stage.tells(model(event)) == Some(text@),
                None => old(self).stage.tells(model(event)) is None,
            },
    {
        match (&self.stage, event) {
            (Phased::Starting(stage), Phased::Starting(event)) => {
                let mut boot = Boot { stage: *stage };
                match boot.step(event) {
                    Ok(()) => {
                        self.stage = if boot.stage == BootStage::Ready {
                            Phased::Working(FetchStage::Delaying)
                        } else {
                            Phased::Starting(boot.stage)
                        };
                        Ok(None)
                    },
                    Err(error) => Err(error),
                }
            },
            (Phased::Working(stage), Phased::Working(event)) => {
                let mut fetch = Fetch { stage: *stage };
                match fetch.step(event) {
                    Ok(shown) => {
                        self.stage = Phased::Working(fetch.stage);
                        Ok(shown)
                    },
                    Err(error) => Err(error),
                }
            },
            _ => Err(UnexpectedEvent),
        }
    }
}

/// The stage with which the program begins.
pub open spec fn power_on() -> ProgramStage {
    Phased::Starting(BootStage::OpeningBus)
}

impl Ranked for Phased<BootStage, FetchStage> {
    open spec fn rank(self) -> nat {
        match self {
            Phased::Starting(BootStage::OpeningBus) => 0,
            Phased::Starting(BootStage::InitialisingDisplay) => 1,
            Phased::Starting(BootStage::ClearingDisplay) => 2,
            Phased::Starting(BootStage::Settling) => 3,
            Phased::Starting(BootStage::SpawningBlink) => 4,
            Phased::Starting(BootStage::Greeting) => 5,
            Phased::Starting(BootStage::StartingRadio) => 6,
            Phased::Starting(BootStage::DrawingSeed) => 7,
            Phased::Starting(BootStage::StartingStack { .. }) => 8,
            Phased::Starting(BootStage::SpawningConnection) => 9,
            Phased::Starting(BootStage::SpawningNet) => 10,
            Phased::Starting(BootStage::PollingLink)
            | Phased::Starting(BootStage::AwaitingLink) => 11,
            Phased::Starting(BootStage::PollingAddress)
            | Phased::Starting(BootStage::AwaitingAddress) => 12,
            Phased::Starting(BootStage::Halted) | Phased::Working(FetchStage::Halted) => 14,
            _ => 13,
        }
    }

    /// The questions for the link and for the address, and the rounds of the loop.
    open spec fn repeats(self) -> bool {
        11 <= self.rank() <= 13
    }

    open spec fn has_stopped(self) -> bool {
        self.rank() == 14
    }
}

/// The operations come in their order, at every point of the program: the bus, the display,
/// a wait, the light, the greeting, the radio, the seed, the network stack, the two network
/// tasks, the link, the address, and then the sessions. None is begun before all those
/// before it lie behind the board, and none but the questions for the link and for the
/// address and the sessions is begun twice.
pub proof fn law_program_order(events: Seq<ProgramEvent<Seq<u8>>>)
    requires
        run(power_on(), events) is Some,
    ensures
        forall|i: int|
            0 <= i < events.len() ==> {
                let past = (#[trigger] visited(power_on(), events)[i]).rank();
                let now = run(power_on(), events)->0;
                past < now.rank() || past == now.rank() && now.repeats()
            },
        !run(power_on(), events)->0.has_stopped() ==> forall|r: nat|
            r < run(power_on(), events)->0.rank() ==> #[trigger] gone_through(
                visited(power_on(), events),
                r,
            ),
{
    assert(is_orderly::<ProgramStage>());
    lemma_ranks(power_on(), events);
}

/// The board fetches exactly once it has been told of an address, and not before it has
/// been told of a link.
pub proof fn law_program_fetches_with_an_address(events: Seq<ProgramEvent<Seq<u8>>>)
    requires
        run(power_on(), events) is Some,
    ensures
        run(power_on(), events)->0 is Working <==> starts(events).contains(
            BootEvent::Address { known: true },
        ),
        run(power_on(), events)->0 is Working ==> starts(events).contains(
            BootEvent::Link { up: true },
        ),
        !(run(power_on(), events)->0 is Working) ==> works(events).len() == 0,
{
    lemma_phases(BootStage::OpeningBus, events);
    law_boot_ready(starts(events));
}

/// The network stack is started exactly when two words have just been drawn, and they
/// make its seed, the first of them the upper half.
pub proof fn law_program_seeds_the_stack(events: Seq<ProgramEvent<Seq<u8>>>, seed: u64)
    requires
        run(power_on(), events) is Some,
    ensures
        run(power_on(), events) == Some(
            ProgramStage::Starting(BootStage::StartingStack { seed }),
        ) <==> events.len() > 0 && (events.last() matches Phased::Starting(
            BootEvent::Words { first, second },
        ) && seed == seed_of(first, second)),
{
}

/// The waits of a board that fetches: a second while it was set up, half a second for each
/// no of the network stack, a second before each attempt to connect and ten seconds after
/// each session.
pub proof fn law_program_waits(events: Seq<ProgramEvent<Seq<u8>>>)
    requires
        run(power_on(), events) is Some,
    ensures
        run(power_on(), events)->0 matches Phased::Working(stage) ==> slept(power_on(), events)
            == SETTLE_PAUSE_MS + POLL_PAUSE_MS * refusals(starts(events)) + CONNECT_PAUSE_MS * (
        attempts(works(events)) + (if stage is Connecting {
            1nat
        } else {
            0
        })) + SESSION_PAUSE_MS * (sessions_ended(works(events)) - (if stage is Resting {
            1nat
        } else {
            0
        })),
{
    lemma_phases(BootStage::OpeningBus, events);
    law_boot_order(starts(events));
    law_boot_pauses(starts(events));
    law_fetch_pauses(works(events));
}

/// The program never ends but by a stop: at every other point there is an event that
/// answers the operation under way.
pub proof fn law_program_never_ends(events: Seq<ProgramEvent<Seq<u8>>>)
    requires
        run(power_on(), events) is Some,
    ensures
        (exists|event: ProgramEvent<Seq<u8>>| #[trigger]
            run(power_on(), events)->0.after(event) is Some) <==> !run(
            power_on(),
            events,
        )->0.has_stopped(),
{
    lemma_phases(BootStage::OpeningBus, events);
    let now = run(power_on(), events)->0;
    let witness: ProgramEvent<Seq<u8>> = match now {
        Phased::Starting(BootStage::DrawingSeed) => Phased::Starting(
            BootEvent::Words { first: 0, second: 0 },
        ),
        Phased::Starting(BootStage::PollingLink) => Phased::Starting(BootEvent::Link { up: true }),
        Phased::Starting(BootStage::PollingAddress) => Phased::Starting(
            BootEvent::Address { known: true },
        ),
        Phased::Starting(_) => Phased::Starting(BootEvent::Done),
        Phased::Working(FetchStage::Connecting) => Phased::Working(
            FetchEvent::Connect { ok: true },
        ),
        Phased::Working(FetchStage::Writing) => Phased::Working(FetchEvent::Write { ok: true }),
        Phased::Working(FetchStage::Reading) => Phased::Working(FetchEvent::ReadFailed),
        Phased::Working(_) => Phased::Working(FetchEvent::Done),
    };
    assert(now.has_stopped() || now.after(witness) is Some);
}

/// A new program begins with the bus.
pub proof fn law_program_begins(program: Program)
    requires
        call_ensures(Program::new, (), program),
    ensures
        program.stage == Phased::<BootStage, FetchStage>::Starting(BootStage::OpeningBus),
{
}

/// At a stage of the start, the program asks for what the start by itself asks for there.
pub proof fn law_program_asks_as_its_start(
    program: Program,
    action: ProgramAction,
    boot: Boot,
    asked: BootAction,
)
    requires
        program.stage == ProgramStage::Starting(boot.stage),
        call_ensures(Program::action, (&program,), action),
        call_ensures(Boot::action, (&boot,), asked),
    ensures
        action == ProgramAction::Starting(asked),
{
}

/// At a stage of the loop, the program asks for what the loop by itself asks for there.
pub proof fn law_program_asks_as_its_loop(
    program: Program,
    action: ProgramAction,
    fetch: Fetch,
    asked: FetchAction,
)
    requires
        program.stage == ProgramStage::Working(fetch.stage),
        call_ensures(Program::action, (&program,), action),
        call_ensures(Fetch::action, (&fetch,), asked),
    ensures
        match asked {
            FetchAction::Write(bytes) => {
                &&& action matches Phased::Working(FetchAction::Write(same))
                &&& same@ == bytes@
            },
            _ => action == ProgramAction::Working(asked),
        },
{
}

/// Whenever the program asks for a connection, it is one to 142.250.185.115, port 80, with
/// a timeout of ten seconds, and it asks for one whenever the loop is to connect. Whenever
/// it writes, it writes the request for the page.
pub proof fn law_program_talks_to_the_server(program: Program, action: ProgramAction)
    requires
        call_ensures(Program::action, (&program,), action),
    ensures
        action matches Phased::Working(FetchAction::Connect { endpoint, timeout_ms }) ==> {
            &&& endpoint.octets@ == seq![142u8, 250, 185, 115]
            &&& endpoint.port == 80
            &&& timeout_ms == 10_000
        },
        program.stage == ProgramStage::Working(FetchStage::Connecting) ==> action matches
            Phased::Working(FetchAction::Connect { endpoint: _, timeout_ms: _ }),
        action matches Phased::Working(FetchAction::Write(bytes)) ==> bytes@ == encode_utf8(
            "GET / HTTP/1.0\r\nHost: www.mobile-j.de\r\n\r\n"@,
        ),
        program.stage == ProgramStage::Working(FetchStage::Writing) ==> action matches
            Phased::Working(FetchAction::Write(_)),
{
}

/// The board greets once in every run: unless it has stopped, the operation after the fifth
/// outcome is the greeting, that before it sets the light going, that after it starts the
/// radio, and no other operation of any run is one of these.
pub proof fn law_program_greets_once(
    events: Seq<ProgramEvent<Seq<u8>>>,
    program: Program,
    action: ProgramAction,
)
    requires
        run(ProgramStage::Starting(BootStage::OpeningBus), events) == Some(program.stage),
        call_ensures(Program::action, (&program,), action),
    ensures
        action == ProgramAction::Starting(BootAction::Halt) || {
            &&& action == ProgramAction::Starting(BootAction::SpawnBlink) <==> events.len() == 4
            &&& (action matches Phased::Starting(BootAction::Greet(_))) <==> events.len() == 5
            &&& action == ProgramAction::Starting(BootAction::StartRadio) <==> events.len() == 6
        },
        action matches Phased::Starting(BootAction::Greet(text)) ==> text@ == "Hello\nWorld!"@,
{
    lemma_program_pace(events);
}

/// Up to the first question, the board goes through one stage for each outcome.
proof fn lemma_program_pace(events: Seq<ProgramEvent<Seq<u8>>>)
    requires
        run(power_on(), events) is Some,
    ensures
        run(power_on(), events)->0.has_stopped() || (if events.len() < 11 {
            run(power_on(), events)->0.rank() == events.len()
        } else {
            run(power_on(), events)->0.rank() >= 11
        }),
        run(power_on(), events)->0.has_stopped() && events.len() < 11 ==> run(
            power_on(),
            events,
        )->0 == ProgramStage::Starting(BootStage::Halted),
    decreases events.len(),
{
    if events.len() > 0 {
        lemma_program_pace(events.drop_last());
    }
}

/// An outcome of the start leads the program where it leads the start; when it leads the
/// start to its end, the loop begins with its wait. An outcome that the start does not take
/// is not taken by the program, and nothing is shown.
pub proof fn law_program_takes_as_its_start(
    program: &mut Program,
    boot: &mut Boot,
    event: BootEvent,
    taken: Result<Option<&str>, UnexpectedEvent>,
    taken_alone: Result<(), UnexpectedEvent>,
)
    requires
        old(program).stage == ProgramStage::Starting(old(boot).stage),
        call_ensures(Program::step, (program, Phased::Starting(event)), taken),
        call_ensures(Boot::step, (boot, event), taken_alone),
    ensures
        taken is Ok <==> taken_alone is Ok,
        taken matches Ok(shown) ==> shown is None,
        taken is Ok ==> final(program).stage == (if final(boot).stage is Ready {
            ProgramStage::Working(FetchStage::Delaying)
        } else {
            ProgramStage::Starting(final(boot).stage)
        }),
        taken is Err ==> final(program).stage == old(program).stage,
{
}

/// An outcome of the loop leads the program where it leads the loop, and shows the same.
pub proof fn law_program_takes_as_its_loop(
    program: &mut Program,
    fetch: &mut Fetch,
    event: FetchEvent<&[u8]>,
    taken: Result<Option<&str>, UnexpectedEvent>,
    taken_alone: Result<Option<&str>, UnexpectedEvent>,
)
    requires
        old(program).stage == ProgramStage::Working(old(fetch).stage),
        call_ensures(Program::step, (program, Phased::Working(event)), taken),
        call_ensures(Fetch::step, (fetch, event), taken_alone),
    ensures
        match taken_alone {
            Ok(Some(text)) => {
                &&& taken matches Ok(Some(same))
                &&& same@ == text@
            },
            Ok(None) => taken matches Ok(None),
            Err(_) => taken is Err,
        },
        final(program).stage == ProgramStage::Working(final(fetch).stage),
{
}

/// The program takes no outcome of the loop during the start, and none of the start during
/// the loop.
pub proof fn law_program_keeps_its_phases_apart(
    program: &mut Program,
    event: ProgramEvent<&[u8]>,
    taken: Result<Option<&str>, UnexpectedEvent>,
)
    requires
        old(program).stage is Starting <==> event is Working,
        call_ensures(Program::step, (program, event), taken),
    ensures
        taken is Err,
        final(program).stage == old(program).stage,
{
}

/// Every piece of the answer that is text is shown whole, however long it is, and the
/// session goes on; nothing else is ever shown.
pub proof fn law_program_shows_every_text(
    program: &mut Program,
    event: ProgramEvent<&[u8]>,
    taken: Result<Option<&str>, UnexpectedEvent>,
)
    requires
        call_ensures(Program::step, (program, event), taken),
    ensures
        event matches Phased::Working(FetchEvent::Read(bytes)) ==> (old(program).stage
            == ProgramStage::Working(FetchStage::Reading) && bytes@.len() > 0 && valid_utf8(bytes@)
            ==> {
            &&& taken matches Ok(Some(text))
            &&& text@ == decode_utf8(bytes@)
            &&& final(program).stage == ProgramStage::Working(FetchStage::Writing)
        }),
        taken matches Ok(Some(text)) ==> {
            &&& old(program).stage == ProgramStage::Working(FetchStage::Reading)
            &&& event matches Phased::Working(FetchEvent::Read(bytes))
            &&& bytes@.len() > 0
            &&& valid_utf8(bytes@)
            &&& text@ == decode_utf8(bytes@)
        },
{
}

} // verus!

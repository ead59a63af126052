//! The whole program of the board: the start, and then the loop that fetches the page.
use crate::endpoint::remote;
use crate::phases::{lemma_phases, starts, works, Phased};
use crate::picow::boot::{law_boot_ready, Boot, BootAction, BootEvent, BootStage};
use crate::picow::fetch::{Fetch, FetchAction, FetchEvent, FetchStage, Report};
use crate::picow::fetch::{ANSWER_PAUSE_MS, RETRY_PAUSE_MS};
use crate::request::{lemma_url_of_the_server, url_text, URL_BUFFER_LEN};
use crate::steps::{gone_through, is_orderly, pauses_of, run, slept, told, visited};
use crate::steps::{lemma_ranks, Ranked, Steps, UnexpectedEvent};
use vstd::prelude::*;
use vstd::utf8::{decode_utf8, encode_utf8, valid_utf8};

verus! {

/// What the board is about to do.
pub type ProgramStage = Phased<BootStage, FetchStage>;

/// How an operation of the board went. `B` holds the body of an answer.
pub type ProgramEvent<B> = Phased<BootEvent, FetchEvent<B>>;

/// An operation that is asked of the board.
pub type ProgramAction<'a> = Phased<BootAction<'a>, FetchAction<'a>>;

/// The program, with the network that the board is to join and the URL of the page.
#[derive(Debug)]
pub struct Program<'a> {
    pub ssid: &'a str,
    pub psk: &'a str,
    pub url: &'a str,
    pub stage: ProgramStage,
}

/// The event, with the body by its value.
pub open spec fn model(event: ProgramEvent<&[u8]>) -> ProgramEvent<Seq<u8>> {
    match event {
        Phased::Starting(event) => Phased::Starting(event),
        Phased::Working(event) => Phased::Working(event.model()),
    }
}

impl<'a> Program<'a> {
    /// The program after power-on, with the URL put together in `buf`.
    pub fn new(ssid: &'a str, psk: &'a str, buf: &'a mut [u8; URL_BUFFER_LEN]) -> (program:
        Program<'a>)
        ensures
            program.ssid == ssid,
            program.psk == psk,
            program.url@ == url_text(remote()),
            program.stage == power_on(),
    {
        let boot = Boot::new(ssid, psk);
        let fetch = Fetch::new(buf);
        Program { ssid, psk, url: fetch.url, stage: Phased::Starting(boot.stage) }
    }

    /// Whether this is the operation that is due.
    pub open spec fn is_due(self, action: ProgramAction<'a>) -> bool {
        match (self.stage, action) {
            (Phased::Starting(stage), Phased::Starting(action)) => (Boot {
                ssid: self.ssid,
                psk: self.psk,
                stage,
            }).is_due(action),
            (Phased::Working(stage), Phased::Working(action)) => (Fetch {
                url: self.url,
                stage,
            }).is_due(action),
            _ => false,
        }
    }

    /// The operation that is due.
    pub fn action(&self) -> (action: ProgramAction<'a>)
        ensures
            self.is_due(action),
            self.stage.pause() == (match action {
                Phased::Starting(BootAction::Pause(ms)) => ms as nat,
                Phased::Working(FetchAction::Pause(ms)) => ms as nat,
                _ => 0,
            }),
    {
        match &self.stage {
            Phased::Starting(stage) => Phased::Starting(
                (Boot { ssid: self.ssid, psk: self.psk, stage: *stage }).action(),
            ),
            Phased::Working(stage) => Phased::Working(
                (Fetch { url: self.url, stage: *stage }).action(),
            ),
        }
    }

    /// Takes the outcome of the operation that was due; hands back what is to be
    /// reported.
    pub fn step<'b>(&mut self, event: ProgramEvent<&'b [u8]>) -> (taken: Result<
        Option<Report<&'b str>>,
        UnexpectedEvent,
    >)
        ensures
            taken is Ok <==> old(self).stage.after(model(event)) is Some,
            taken is Ok ==> Some(final(self).stage) == old(self).stage.after(model(event)),
            taken is Err ==> final(self).stage == old(self).stage,
            final(self).ssid == old(self).ssid,
            final(self).psk == old(self).psk,
            final(self).url == old(self).url,
            taken matches Ok(outcome) ==> match outcome {
                Some(report) => old(self).stage.tells(model(event)) == Some(report.model()),
                None => old(self).stage.tells(model(event)) is None,
            },
    {
        match (&self.stage, event) {
            (Phased::Starting(stage), Phased::Starting(event)) => {
                let mut boot = Boot { ssid: self.ssid, psk: self.psk, stage: *stage };
                match boot.step(event) {
                    Ok(()) => {
                        self.stage = if boot.stage == BootStage::Ready {
                            Phased::Working(FetchStage::Requesting)
                        } else {
                            Phased::Starting(boot.stage)
                        };
                        Ok(None)
                    },
                    Err(error) => Err(error),
                }
            },
            (Phased::Working(stage), Phased::Working(event)) => {
                let mut fetch = Fetch { url: self.url, stage: *stage };
                match fetch.step(event) {
                    Ok(report) => {
                        self.stage = Phased::Working(fetch.stage);
                        Ok(report)
                    },
                    Err(error) => Err(error),
                }
            },
            _ => Err(UnexpectedEvent),
        }
    }
}

/// The stage with which the program begins.
pub open spec fn power_on() -> ProgramStage {
    Phased::Starting(BootStage::LoadingFirmware)
}

impl Ranked for Phased<BootStage, FetchStage> {
    open spec fn rank(self) -> nat {
        match self {
            Phased::Starting(BootStage::LoadingFirmware) => 0,
            Phased::Starting(BootStage::SpawningDriver) => 1,
            Phased::Starting(BootStage::InitialisingChip) => 2,
            Phased::Starting(BootStage::SavingPower) => 3,
            Phased::Starting(BootStage::DrawingSeed) => 4,
            Phased::Starting(BootStage::StartingStack { .. }) => 5,
            Phased::Starting(BootStage::SpawningNet) => 6,
            Phased::Starting(BootStage::Joining) | Phased::Starting(BootStage::JoinRetry) => 7,
            Phased::Starting(BootStage::AwaitingConfig) => 8,
            Phased::Starting(BootStage::SpawningBlink) => 9,
            Phased::Starting(BootStage::Halted) | Phased::Working(FetchStage::Halted) => 11,
            _ => 10,
        }
    }

    /// The attempts to join and the rounds of the loop.
    open spec fn repeats(self) -> bool {
        self.rank() == 7 || self.rank() == 10
    }

    open spec fn has_stopped(self) -> bool {
        self.rank() == 11
    }
}

/// The operations come in their order, at every point of the program: the firmware, the
/// driver, the chip, the power management, the seed, the network stack and its task, the
/// attempts to join, the address, the light, and then the requests. None is begun before
/// all those before it lie behind the board, and none but the attempts to join and the
/// requests is begun twice.
pub proof fn law_program_order(events: Seq<ProgramEvent<Seq<u8>>>)
    requires
        run(power_on(), events) is Some,
    ensures
        forall|i: int|
            0 <= i < events.len() ==> {
                let past = (#[trigger] visited(power_on(), events)[i]).rank();
                let now = run(power_on(), events)->0;
                past < now.rank() || past == now.rank() && now.repeats()
            },
        !run(power_on(), events)->0.has_stopped() ==> forall|r: nat|
            r < run(power_on(), events)->0.rank() ==> #[trigger] gone_through(
                visited(power_on(), events),
                r,
            ),
{
    assert(is_orderly::<ProgramStage>());
    lemma_ranks(power_on(), events);
}

/// A stage of the request loop is reached exactly when the board has joined, has an
/// address and has set its light going, in this order and at the end of its start. Without
/// a join there is no address, no light and no request.
pub proof fn law_program_requests_in_the_network(events: Seq<ProgramEvent<Seq<u8>>>)
    requires
        run(power_on(), events) is Some,
    ensures
        run(power_on(), events)->0 is Working <==> {
            let begun = starts(events);
            &&& begun.len() > 2
            &&& begun[begun.len() - 3] == BootEvent::Join { ok: true }
            &&& begun[begun.len() - 2] == BootEvent::Done
            &&& begun[begun.len() - 1] == BootEvent::Done
        },
        !(run(power_on(), events)->0 is Working) ==> works(events).len() == 0,
        run(power_on(), events)->0.rank() > 7 ==> events.contains(
            Phased::Starting(BootEvent::Join { ok: true }),
        ),
{
    let begun = starts(events);
    lemma_phases(BootStage::LoadingFirmware, events);
    law_boot_ready(begun);
    let joined = ProgramEvent::<Seq<u8>>::Starting(BootEvent::Join { ok: true });
    if run(power_on(), events)->0.rank() > 7 {
        let back = match run(BootStage::LoadingFirmware, begun)->0 {
            BootStage::AwaitingConfig => 1int,
            BootStage::SpawningBlink => 2,
            _ => 3,
        };
        assert(begun[begun.len() - back] == BootEvent::Join { ok: true });
        assert(events[begun.len() - back] == joined);
    }
}

/// The network stack is started exactly when a number has just been drawn, and that
/// number is its seed.
pub proof fn law_program_seeds_the_stack(events: Seq<ProgramEvent<Seq<u8>>>, seed: u64)
    requires
        run(power_on(), events) is Some,
    ensures
        run(power_on(), events) == Some(
            ProgramStage::Starting(BootStage::StartingStack { seed }),
        ) <==> events.len() > 0 && events.last() == (ProgramEvent::<Seq<u8>>::Starting(
            BootEvent::Seed(seed),
        )),
{
}

/// The calls that lie behind the board.
pub struct Tally {
    pub joins: nat,
    pub failed_joins: nat,
    pub requests: nat,
    pub failed_requests: nat,
    pub sends: nat,
    pub failed_sends: nat,
    pub bodies: nat,
}

/// The calls whose outcomes are in `events`.
pub open spec fn tally(events: Seq<ProgramEvent<Seq<u8>>>) -> Tally
    decreases events.len(),
{
    if events.len() == 0 {
        Tally {
            joins: 0,
            failed_joins: 0,
            requests: 0,
            failed_requests: 0,
            sends: 0,
            failed_sends: 0,
            bodies: 0,
        }
    } else {
        let before = tally(events.drop_last());
        match events.last() {
            Phased::Starting(BootEvent::Join { ok }) => Tally {
                joins: before.joins + 1,
                failed_joins: before.failed_joins + failure(ok),
                ..before
            },
            Phased::Working(FetchEvent::Request { ok }) => Tally {
                requests: before.requests + 1,
                failed_requests: before.failed_requests + failure(ok),
                ..before
            },
            Phased::Working(FetchEvent::Send { ok }) => Tally {
                sends: before.sends + 1,
                failed_sends: before.failed_sends + failure(ok),
                ..before
            },
            Phased::Working(FetchEvent::Body(_)) => Tally { bodies: before.bodies + 1, ..before },
            _ => before,
        }
    }
}

/// One for a failure, and nothing for a success.
pub open spec fn failure(ok: bool) -> nat {
    if ok {
        0
    } else {
        1
    }
}

/// The calls balance at every point of the program. A join succeeds once; each body has
/// had one request and one send that succeeded, and is reported once. Each failure is
/// followed by a wait of five seconds and each report by one of ten, and there are no
/// other waits.
pub proof fn law_program_balance(events: Seq<ProgramEvent<Seq<u8>>>)
    requires
        run(power_on(), events) is Some,
    ensures
        ({
            let now = run(power_on(), events)->0;
            let calls = tally(events);
            let failures = calls.failed_joins + calls.failed_requests + calls.failed_sends;
            let stages = visited(power_on(), events);
            &&& calls.joins == calls.failed_joins + (match now {
                Phased::Working(_) => 1nat,
                Phased::Starting(stage) => match stage {
                    BootStage::AwaitingConfig | BootStage::SpawningBlink | BootStage::Halted => 1,
                    _ => 0,
                },
            })
            &&& calls.requests == calls.failed_requests + calls.bodies + (match now {
                Phased::Working(stage) => match stage {
                    FetchStage::Requesting | FetchStage::RequestRetry | FetchStage::Resting => 0nat,
                    _ => 1,
                },
                _ => 0,
            })
            &&& calls.sends == calls.failed_sends + calls.bodies + (match now {
                Phased::Working(stage) => match stage {
                    FetchStage::ReadingBody | FetchStage::Halted => 1nat,
                    _ => 0,
                },
                _ => 0,
            })
            &&& told(power_on(), events).len() == calls.bodies
            &&& pauses_of(stages.push(now), RETRY_PAUSE_MS as nat) == failures
            &&& pauses_of(stages.push(now), ANSWER_PAUSE_MS as nat) == calls.bodies
            &&& slept(power_on(), events) + now.pause() == RETRY_PAUSE_MS * failures
                + ANSWER_PAUSE_MS * calls.bodies
            &&& now.pause() == 0 || now.pause() == RETRY_PAUSE_MS || now.pause() == ANSWER_PAUSE_MS
            &&& now != ProgramStage::Starting(BootStage::Ready)
        }),
    decreases events.len(),
{
    let now = run(power_on(), events)->0;
    let stages = visited(power_on(), events);
    assert(stages.push(now).drop_last() =~= stages);
    assert(forall|ms: nat| #[trigger]
        pauses_of(stages.push(now), ms) == pauses_of(stages, ms) + (if now.pause() == ms {
            1nat
        } else {
            0
        }));
    if events.len() > 0 {
        let before = events.drop_last();
        law_program_balance(before);
        assert(stages == visited(power_on(), before).push(run(power_on(), before)->0));
    }
}

/// At the beginning of each wait after an answer, when `m` answers have been reported: the
/// board has called join once more than it failed, and request and send `m` times more.
/// It has waited five seconds for each failure and ten seconds after each answer but the
/// last, and not otherwise. The next round follows.
pub proof fn law_program_at_rest(events: Seq<ProgramEvent<Seq<u8>>>)
    requires
        run(power_on(), events) == Some(ProgramStage::Working(FetchStage::Resting)),
    ensures
        ({
            let m = told(power_on(), events).len();
            let calls = tally(events);
            let failures = calls.failed_joins + calls.failed_requests + calls.failed_sends;
            let stages = visited(power_on(), events);
            &&& m >= 1
            &&& calls.bodies == m
            &&& calls.joins == calls.failed_joins + 1
            &&& calls.requests == m + calls.failed_requests
            &&& calls.sends == m + calls.failed_sends
            &&& pauses_of(stages, RETRY_PAUSE_MS as nat) == failures
            &&& pauses_of(stages, ANSWER_PAUSE_MS as nat) == m - 1
            &&& slept(power_on(), events) == RETRY_PAUSE_MS * failures + ANSWER_PAUSE_MS * (m - 1)
            &&& run(power_on(), events.push(Phased::Working(FetchEvent::Done))) == Some(
                ProgramStage::Working(FetchStage::Requesting),
            )
        }),
{
    let stages = visited(power_on(), events);
    let done = ProgramEvent::<Seq<u8>>::Working(FetchEvent::Done);
    law_program_balance(events);
    assert(stages.push(ProgramStage::Working(FetchStage::Resting)).drop_last() =~= stages);
    assert(events.push(done).drop_last() =~= events);
}

/// The program never ends but by a stop: at every other point there is an event that
/// answers the operation under way.
pub proof fn law_program_never_ends(events: Seq<ProgramEvent<Seq<u8>>>)
    requires
        run(power_on(), events) is Some,
    ensures
        (exists|event: ProgramEvent<Seq<u8>>| #[trigger]
            run(power_on(), events)->0.after(event) is Some) <==> !run(
            power_on(),
            events,
        )->0.has_stopped(),
{
    law_program_balance(events);
    let now = run(power_on(), events)->0;
    let witness: ProgramEvent<Seq<u8>> = match now {
        Phased::Starting(BootStage::DrawingSeed) => Phased::Starting(BootEvent::Seed(0)),
        Phased::Starting(BootStage::Joining) => Phased::Starting(BootEvent::Join { ok: true }),
        Phased::Starting(_) => Phased::Starting(BootEvent::Done),
        Phased::Working(FetchStage::Requesting) => Phased::Working(
            FetchEvent::Request { ok: true },
        ),
        Phased::Working(FetchStage::Sending) => Phased::Working(FetchEvent::Send { ok: true }),
        Phased::Working(FetchStage::ReadingBody) => Phased::Working(FetchEvent::BodyFailed),
        Phased::Working(_) => Phased::Working(FetchEvent::Done),
    };
    assert(now.has_stopped() || now.after(witness) is Some);
}

/// A new program has the network that it was given and the URL of the page, and begins with
/// the firmware.
pub proof fn law_program_begins<'a>(
    ssid: &'a str,
    psk: &'a str,
    buf: &'a mut [u8; URL_BUFFER_LEN],
    program: Program<'a>,
)
    requires
        call_ensures(Program::new, (ssid, psk, buf), program),
    ensures
        program.ssid@ == ssid@,
        program.psk@ == psk@,
        program.url@
            == "http://142.250.185.115:80 GET / HTTP/1.0\r\nHost: www.mobile-j.de\r\n\r\n"@,
        program.stage == Phased::<BootStage, FetchStage>::Starting(BootStage::LoadingFirmware),
{
    lemma_url_of_the_server();
}

/// At a stage of the start, the program asks for what a start with its network asks for
/// there.
pub proof fn law_program_asks_as_its_start(
    program: Program,
    action: ProgramAction,
    boot: Boot,
    asked: BootAction,
)
    requires
        program.stage == ProgramStage::Starting(boot.stage),
        program.ssid@ == boot.ssid@,
        program.psk@ == boot.psk@,
        call_ensures(Program::action, (&program,), action),
        call_ensures(Boot::action, (&boot,), asked),
    ensures
        match asked {
            BootAction::Join { ssid, passphrase } => {
                &&& action matches Phased::Starting(
                    BootAction::Join { ssid: same_ssid, passphrase: same_passphrase },
                )
                &&& same_ssid@ == ssid@
                &&& same_passphrase@ == passphrase@
            },
            _ => action == ProgramAction::Starting(asked),
        },
{
}

/// At a stage of the loop, the program asks for what a loop with its URL asks for there.
pub proof fn law_program_asks_as_its_loop(
    program: Program,
    action: ProgramAction,
    fetch: Fetch,
    asked: FetchAction,
)
    requires
        program.stage == ProgramStage::Working(fetch.stage),
        program.url@ == fetch.url@,
        call_ensures(Program::action, (&program,), action),
        call_ensures(Fetch::action, (&fetch,), asked),
    ensures
        match asked {
            FetchAction::Request(url) => {
                &&& action matches Phased::Working(FetchAction::Request(same))
                &&& same@ == url@
            },
            _ => action == ProgramAction::Working(asked),
        },
{
}

/// Whenever the program asks to join, the network is the program's own and the passphrase
/// is the encoding of its key, and it asks to join whenever the board is to join. Whenever
/// it makes a request, the URL is its own.
pub proof fn law_program_uses_its_network(program: Program, action: ProgramAction)
    requires
        call_ensures(Program::action, (&program,), action),
    ensures
        action matches Phased::Starting(BootAction::Join { ssid, passphrase }) ==> {
            &&& ssid@ == program.ssid@
            &&& passphrase@ == encode_utf8(program.psk@)
        },
        program.stage == ProgramStage::Starting(BootStage::Joining) <==> (action matches
            Phased::Starting(BootAction::Join { ssid: _, passphrase: _ })),
        action matches Phased::Working(FetchAction::Request(url)) ==> url@ == program.url@,
        program.stage == ProgramStage::Working(FetchStage::Requesting) <==> (action matches
            Phased::Working(FetchAction::Request(_))),
{
}

/// No outcome changes the network or the URL of the program.
pub proof fn law_program_keeps_its_network(
    program: &mut Program,
    event: ProgramEvent<&[u8]>,
    taken: Result<Option<Report<&str>>, UnexpectedEvent>,
)
    requires
        call_ensures(Program::step, (program, event), taken),
    ensures
        final(program).ssid@ == old(program).ssid@,
        final(program).psk@ == old(program).psk@,
        final(program).url@ == old(program).url@,
{
}

/// An outcome of the start leads the program where it leads the start; when it leads the
/// start to its end, the loop begins with a request. An outcome that the start does not take
/// is not taken by the program, and nothing is reported.
pub proof fn law_program_takes_as_its_start(
    program: &mut Program,
    boot: &mut Boot,
    event: BootEvent,
    taken: Result<Option<Report<&str>>, UnexpectedEvent>,
    taken_alone: Result<(), UnexpectedEvent>,
)
    requires
        old(program).stage == ProgramStage::Starting(old(boot).stage),
        call_ensures(Program::step, (program, Phased::Starting(event)), taken),
        call_ensures(Boot::step, (boot, event), taken_alone),
    ensures
        taken is Ok <==> taken_alone is Ok,
        taken matches Ok(report) ==> report is None,
        taken is Ok ==> final(program).stage == (if final(boot).stage is Ready {
            ProgramStage::Working(FetchStage::Requesting)
        } else {
            ProgramStage::Starting(final(boot).stage)
        }),
        taken is Err ==> final(program).stage == old(program).stage,
{
}

/// An outcome of the loop leads the program where it leads the loop, and is reported alike.
pub proof fn law_program_takes_as_its_loop(
    program: &mut Program,
    fetch: &mut Fetch,
    event: FetchEvent<&[u8]>,
    taken: Result<Option<Report<&str>>, UnexpectedEvent>,
    taken_alone: Result<Option<Report<&str>>, UnexpectedEvent>,
)
    requires
        old(program).stage == ProgramStage::Working(old(fetch).stage),
        call_ensures(Program::step, (program, Phased::Working(event)), taken),
        call_ensures(Fetch::step, (fetch, event), taken_alone),
    ensures
        match taken_alone {
            Ok(Some(Report::Body(text))) => {
                &&& taken matches Ok(Some(Report::Body(same)))
                &&& same@ == text@
            },
            Ok(Some(Report::Unreadable)) => taken matches Ok(Some(Report::Unreadable)),
            Ok(None) => taken matches Ok(None),
            Err(_) => taken is Err,
        },
        final(program).stage == ProgramStage::Working(final(fetch).stage),
{
}

/// The program takes no outcome of the loop during the start, and none of the start during
/// the loop.
pub proof fn law_program_keeps_its_phases_apart(
    program: &mut Program,
    event: ProgramEvent<&[u8]>,
    taken: Result<Option<Report<&str>>, UnexpectedEvent>,
)
    requires
        old(program).stage is Starting <==> event is Working,
        call_ensures(Program::step, (program, event), taken),
    ensures
        taken is Err,
        final(program).stage == old(program).stage,
{
}

/// Every body that is text is reported whole, however long it is, every other body as
/// unreadable, and nothing else is ever reported.
pub proof fn law_program_reports_every_body(
    program: &mut Program,
    event: ProgramEvent<&[u8]>,
    taken: Result<Option<Report<&str>>, UnexpectedEvent>,
)
    requires
        call_ensures(Program::step, (program, event), taken),
    ensures
        event matches Phased::Working(FetchEvent::Body(body)) ==> (old(program).stage
            == ProgramStage::Working(FetchStage::ReadingBody) ==> {
            &&& valid_utf8(body@) ==> {
                &&& taken matches Ok(Some(Report::Body(text)))
                &&& text@ == decode_utf8(body@)
            }
            &&& !valid_utf8(body@) ==> (taken matches Ok(Some(Report::Unreadable)))
            &&& final(program).stage == ProgramStage::Working(FetchStage::Resting)
        }),
        taken matches Ok(Some(_)) ==> {
            &&& old(program).stage == ProgramStage::Working(FetchStage::ReadingBody)
            &&& event matches Phased::Working(FetchEvent::Body(_))
        },
{
}

} // verus!

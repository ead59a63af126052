//! The task that keeps the board connected to the access point.
use crate::steps::{joined, run, slept, visited, Steps, UnexpectedEvent};
use crate::steps::{lemma_halted, lemma_rounds, lemma_run_one, lemma_run_push, lemma_visited};
use vstd::prelude::*;

verus! {

/// The wait after a lost connection and after a failed attempt.
pub const RECONNECT_PAUSE_MS: u64 = 5000;

/// The number of access points that a scan lists.
pub const SCAN_MAX: usize = 10;

/// What the radio reports of its station side.
#[derive(Clone, Copy, Debug, PartialEq, Eq, Structural)]
pub enum StaState {
    Started,
    Connected,
    Disconnected,
    Stopped,
    Invalid,
}

/// What the task is about to do.
#[derive(Clone, Copy, Debug, PartialEq, Eq, Structural)]
pub enum StationStage {
    Checking,
    Watching,
    Settling,
    Probing,
    Configuring,
    Starting,
    Scanning,
    Connecting,
    Retrying,
    /// The radio could not be set up: the board stops.
    Halted,
}

/// How an operation of the task went.
#[derive(Clone, Copy, Debug, PartialEq, Eq, Structural)]
pub enum StationEvent {
    /// The station state was read.
    State(StaState),
    /// The controller was asked whether it is started; none if it could not tell.
    Started(Option<bool>),
    /// The operation is over, and had nothing to tell.
    Done,
    /// The operation could not be done.
    Failed,
    /// The attempt to connect is over.
    Connect { ok: bool },
}

/// An operation that the task asks of the radio or of the timer.
#[derive(Clone, Copy, Debug, PartialEq, Eq)]
pub enum StationAction<'a> {
    ReadState,
    AwaitDisconnect,
    Pause(u64),
    ReadStarted,
    Configure { ssid: &'a str, password: &'a str },
    Start,
    Scan { max: usize },
    Connect,
    /// The end of the program, as after a panic.
    Halt,
}

/// The task, with the network that it is to join.
#[derive(Clone, Copy, Debug)]
pub struct Station<'a> {
    pub ssid: &'a str,
    pub psk: &'a str,
    pub stage: StationStage,
}

impl Steps for StationStage {
    type Event = StationEvent;

    type Told = ();

    open spec fn after(self, event: StationEvent) -> Option<StationStage> {
        match (self, event) {
            (StationStage::Checking, StationEvent::State(StaState::Connected)) => Some(
                StationStage::Watching,
            ),
            (StationStage::Checking, StationEvent::State(_)) => Some(StationStage::Probing),
            (StationStage::Watching, StationEvent::Done) => Some(StationStage::Settling),
            (StationStage::Settling, StationEvent::Done) => Some(StationStage::Probing),
            (StationStage::Probing, StationEvent::Started(Some(true))) => Some(
                StationStage::Connecting,
            ),
            (StationStage::Probing, StationEvent::Started(_)) => Some(StationStage::Configuring),
            (StationStage::Configuring, StationEvent::Done) => Some(StationStage::Starting),
            (StationStage::Starting, StationEvent::Done) => Some(StationStage::Scanning),
            (StationStage::Scanning, StationEvent::Done) => Some(StationStage::Connecting),
            (
                StationStage::Configuring | StationStage::Starting | StationStage::Scanning,
                StationEvent::Failed,
            ) => Some(StationStage::Halted),
            (StationStage::Connecting, StationEvent::Connect { ok: true }) => Some(
                StationStage::Checking,
            ),
            (StationStage::Connecting, StationEvent::Connect { ok: false }) => Some(
                StationStage::Retrying,
            ),
            (StationStage::Retrying, StationEvent::Done) => Some(StationStage::Checking),
            _ => None,
        }
    }

    open spec fn pause(self) -> nat {
        match self {
            StationStage::Settling | StationStage::Retrying => RECONNECT_PAUSE_MS as nat,
            _ => 0,
        }
    }

    open spec fn tells(self, event: StationEvent) -> Option<()> {
        None
    }
}

impl<'a> Station<'a> {
    /// The task at its start: it knows nothing of the radio yet.
    pub fn new(ssid: &'a str, psk: &'a str) -> (station: Station<'a>)
        ensures
            station.ssid == ssid,
            station.psk == psk,
            station.stage == StationStage::Checking,
    {
        Station { ssid, psk, stage: StationStage::Checking }
    }

    /// The operation that is due.
    pub fn action(&self) -> (action: StationAction<'a>)
        ensures
            action == (match self.stage {
                StationStage::Checking => StationAction::ReadState,
                StationStage::Watching => StationAction::AwaitDisconnect,
                StationStage::Settling => StationAction::Pause(RECONNECT_PAUSE_MS),
                StationStage::Probing => StationAction::ReadStarted,
                StationStage::Configuring => StationAction::Configure {
                    ssid: self.ssid,
                    password: self.psk,
                },
                StationStage::Starting => StationAction::Start,
                StationStage::Scanning => StationAction::Scan { max: SCAN_MAX },
                StationStage::Connecting => StationAction::Connect,
                StationStage::Retrying => StationAction::Pause(RECONNECT_PAUSE_MS),
                StationStage::Halted => StationAction::Halt,
            }),
            self.stage.pause() == (match action {
                StationAction::Pause(ms) => ms as nat,
                _ => 0,
            }),
    {
        match self.stage {
            StationStage::Checking => StationAction::ReadState,
            StationStage::Watching => StationAction::AwaitDisconnect,
            StationStage::Probing => StationAction::ReadStarted,
            StationStage::Configuring => StationAction::Configure {
                ssid: self.ssid,
                password: self.psk,
            },
            StationStage::Starting => StationAction::Start,
            StationStage::Scanning => StationAction::Scan { max: SCAN_MAX },
            StationStage::Connecting => StationAction::Connect,
            StationStage::Settling | StationStage::Retrying => StationAction::Pause(
                RECONNECT_PAUSE_MS,
            ),
            StationStage::Halted => StationAction::Halt,
        }
    }

    /// Takes the outcome of the operation that was due.
    pub fn step(&mut self, event: StationEvent) -> (taken: Result<(), UnexpectedEvent>)
        ensures
            taken is Ok <==> old(self).stage.after(event) is Some,
            taken is Ok ==> Some(final(self).stage) == old(self).stage.after(event),
            taken is Err ==> final(self).stage == old(self).stage,
            final(self).ssid == old(self).ssid,
            final(self).psk == old(self).psk,
    {
        let next: StationStage = match (self.stage, event) {
            (StationStage::Checking, StationEvent::State(state)) => match state {
                StaState::Connected => StationStage::Watching,
                _ => StationStage::Probing,
            },
            (StationStage::Watching, StationEvent::Done) => StationStage::Settling,
            (StationStage::Settling, StationEvent::Done) => StationStage::Probing,
            (StationStage::Probing, StationEvent::Started(started)) => match started {
                Some(true) => StationStage::Connecting,
                _ => StationStage::Configuring,
            },
            (StationStage::Configuring, StationEvent::Done) => StationStage::Starting,
            (StationStage::Starting, StationEvent::Done) => StationStage::Scanning,
            (StationStage::Scanning, StationEvent::Done) => StationStage::Connecting,
            (
                StationStage::Configuring | StationStage::Starting | StationStage::Scanning,
                StationEvent::Failed,
            ) => StationStage::Halted,
            (StationStage::Connecting, StationEvent::Connect { ok }) => if ok {
                StationStage::Checking
            } else {
                StationStage::Retrying
            },
            (StationStage::Retrying, StationEvent::Done) => StationStage::Checking,
            _ => {
                return Err(UnexpectedEvent);
            },
        };
        self.stage = next;
        Ok(())
    }
}

/// What the radio reports in one round of the task, in which all that has to be set up
/// can be.
pub struct Round {
    pub state: StaState,
    pub started: Option<bool>,
    pub ok: bool,
}

/// The events of one round of the task.
pub open spec fn round_events(round: Round) -> Seq<StationEvent> {
    seq![StationEvent::State(round.state)] + (if round.state == StaState::Connected {
        seq![StationEvent::Done, StationEvent::Done]
    } else {
        seq![]
    }) + seq![StationEvent::Started(round.started)] + (if round.started == Some(true) {
        seq![]
    } else {
        seq![StationEvent::Done, StationEvent::Done, StationEvent::Done]
    }) + seq![StationEvent::Connect { ok: round.ok }] + (if round.ok {
        seq![]
    } else {
        seq![StationEvent::Done]
    })
}

/// The stages of one round of the task: a connected board waits for the loss of its
/// connection, a controller that is not known to be started is set up and scans, and
/// then the board connects.
pub open spec fn round_stages(round: Round) -> Seq<StationStage> {
    seq![StationStage::Checking] + (if round.state == StaState::Connected {
        seq![StationStage::Watching, StationStage::Settling]
    } else {
        seq![]
    }) + seq![StationStage::Probing] + (if round.started == Some(true) {
        seq![]
    } else {
        seq![StationStage::Configuring, StationStage::Starting, StationStage::Scanning]
    }) + seq![StationStage::Connecting] + (if round.ok {
        seq![]
    } else {
        seq![StationStage::Retrying]
    })
}

/// Every round ends where it began, having gone through the stages of a round and
/// waited once for a lost connection and once for a failed attempt.
pub proof fn law_station_round(round: Round)
    ensures
        run(StationStage::Checking, round_events(round)) == Some(StationStage::Checking),
        visited(StationStage::Checking, round_events(round)) == round_stages(round),
        slept(StationStage::Checking, round_events(round)) == (if round.state
            == StaState::Connected {
            RECONNECT_PAUSE_MS as nat
        } else {
            0
        }) + (if round.ok {
            0
        } else {
            RECONNECT_PAUSE_MS as nat
        }),
{
    let begin = StationStage::Checking;
    let done = StationEvent::Done;
    let e1 = seq![StationEvent::State(round.state)];
    lemma_run_one(begin, StationEvent::State(round.state));
    let e2 = if round.state == StaState::Connected {
        e1.push(done).push(done)
    } else {
        e1
    };
    if round.state == StaState::Connected {
        lemma_run_push(begin, e1, done);
        lemma_run_push(begin, e1.push(done), done);
    }
    let e3 = e2.push(StationEvent::Started(round.started));
    lemma_run_push(begin, e2, StationEvent::Started(round.started));
    let e4 = if round.started == Some(true) {
        e3
    } else {
        e3.push(done).push(done).push(done)
    };
    if round.started != Some(true) {
        lemma_run_push(begin, e3, done);
        lemma_run_push(begin, e3.push(done), done);
        lemma_run_push(begin, e3.push(done).push(done), done);
    }
    let e5 = e4.push(StationEvent::Connect { ok: round.ok });
    lemma_run_push(begin, e4, StationEvent::Connect { ok: round.ok });
    let e6 = if round.ok {
        e5
    } else {
        e5.push(done)
    };
    if !round.ok {
        lemma_run_push(begin, e5, done);
    }
    assert(round_events(round) =~= e6);
    assert(visited(begin, e6) =~= round_stages(round));
}

/// The task is a loop: whatever the radio reports in each round, the stages are those of
/// the first round, then those of the second, and so on.
pub proof fn law_station_repeats(rounds: Seq<Round>)
    ensures
        run(
            StationStage::Checking,
            joined(rounds.map_values(|round: Round| round_events(round))),
        ) == Some(StationStage::Checking),
        visited(
            StationStage::Checking,
            joined(rounds.map_values(|round: Round| round_events(round))),
        ) == joined(rounds.map_values(|round: Round| round_stages(round))),
{
    let events = rounds.map_values(|round: Round| round_events(round));
    let stages = rounds.map_values(|round: Round| round_stages(round));
    let begin = StationStage::Checking;
    assert forall|i: int| 0 <= i < events.len() implies run(begin, #[trigger] events[i]) == Some(
        begin,
    ) && visited(begin, events[i]) == stages[i] by {
        law_station_round(rounds[i]);
    }
    lemma_rounds(begin, events);
    assert(events.map_values(|round: Seq<StationEvent>| visited(begin, round)) =~= stages);
}

/// Whether an attempt to connect failed.
pub open spec fn is_failed_attempt(event: StationEvent) -> bool {
    event == StationEvent::Connect { ok: false }
}

/// Whether a connection was found that can be lost.
pub open spec fn is_found_connected(event: StationEvent) -> bool {
    event == StationEvent::State(StaState::Connected)
}

/// The number of events that call for a pause: a failed attempt calls for one, and so
/// does a connection that was found, once it is lost.
pub open spec fn pauses_called_for(events: Seq<StationEvent>) -> nat
    decreases events.len(),
{
    if events.len() == 0 {
        0
    } else {
        pauses_called_for(events.drop_last()) + (if is_failed_attempt(events.last())
            || is_found_connected(events.last()) {
            1nat
        } else {
            0
        })
    }
}

/// The task waits for five seconds after each failed attempt and after each lost
/// connection, and never otherwise.
pub proof fn law_station_pauses(events: Seq<StationEvent>)
    requires
        run(StationStage::Checking, events) is Some,
    ensures
        slept(StationStage::Checking, events) + (match run(StationStage::Checking, events)->0 {
            StationStage::Watching | StationStage::Settling | StationStage::Retrying =>
                RECONNECT_PAUSE_MS as nat,
            _ => 0,
        }) == RECONNECT_PAUSE_MS * pauses_called_for(events),
    decreases events.len(),
{
    if events.len() > 0 {
        law_station_pauses(events.drop_last());
    }
}

/// The board connects only when the controller has just said that it is started, or
/// has just been set up, started and used for a scan.
pub proof fn law_station_connects_only_when_started(events: Seq<StationEvent>)
    requires
        run(StationStage::Checking, events) == Some(StationStage::Connecting),
    ensures
        events.last() == StationEvent::Started(Some(true)) || {
            &&& events.len() >= 4
            &&& events[events.len() - 4] matches StationEvent::Started(started)
            &&& started != Some(true)
            &&& visited(StationStage::Checking, events).skip(events.len() - 3) == seq![
                StationStage::Configuring,
                StationStage::Starting,
                StationStage::Scanning,
            ]
        },
{
    let begin = StationStage::Checking;
    let e1 = events.drop_last();
    if run(begin, e1) == Some(StationStage::Scanning) {
        let e2 = e1.drop_last();
        let e3 = e2.drop_last();
        let e4 = e3.drop_last();
        assert(run(begin, e2) == Some(StationStage::Starting));
        assert(run(begin, e3) == Some(StationStage::Configuring));
        assert(run(begin, e4) == Some(StationStage::Probing));
        lemma_visited(begin, e3);
        assert(visited(begin, e2) == visited(begin, e3).push(StationStage::Configuring));
        assert(visited(begin, e1) == visited(begin, e2).push(StationStage::Starting));
        assert(visited(begin, events) == visited(begin, e1).push(StationStage::Scanning));
        assert(events[events.len() - 4] == e3.last());
    }
}

/// The number of stages that lie at most between a stage and the next attempt to
/// connect.
spec fn stages_to_connect(stage: StationStage) -> nat {
    match stage {
        StationStage::Connecting | StationStage::Halted => 0,
        StationStage::Scanning => 1,
        StationStage::Starting => 2,
        StationStage::Configuring => 3,
        StationStage::Probing => 4,
        StationStage::Settling => 5,
        StationStage::Watching => 6,
        StationStage::Checking => 7,
        StationStage::Retrying => 8,
    }
}

/// The task never gives up: whatever the radio reports, one of any nine stages that it
/// goes through in a row is an attempt to connect.
pub proof fn law_station_keeps_connecting(start: StationStage, events: Seq<StationEvent>)
    requires
        run(start, events) is Some,
        events.len() >= 9,
    ensures
        visited(start, events).contains(StationStage::Connecting),
{
    if !visited(start, events).contains(StationStage::Connecting) {
        lemma_stages_to_connect(start, events);
    }
}

proof fn lemma_stages_to_connect(start: StationStage, events: Seq<StationEvent>)
    requires
        run(start, events) is Some,
        !visited(start, events).contains(StationStage::Connecting),
    ensures
        stages_to_connect(run(start, events)->0) + events.len() <= stages_to_connect(start),
    decreases events.len(),
{
    if events.len() > 0 {
        let before = events.drop_last();
        let all = visited(start, events);
        assert(all == visited(start, before).push(run(start, before)->0));
        assert(all.last() == run(start, before)->0);
        assert forall|i: int| 0 <= i < visited(start, before).len() implies #[trigger] visited(
            start,
            before,
        )[i] != StationStage::Connecting by {
            assert(all[i] == visited(start, before)[i]);
        }
        lemma_stages_to_connect(start, before);
    }
}

/// Whether the board cannot do without the operation of this stage.
pub open spec fn must_succeed(stage: StationStage) -> bool {
    match stage {
        StationStage::Configuring | StationStage::Starting | StationStage::Scanning => true,
        _ => false,
    }
}

/// The board stops exactly when the radio could not be configured, started or used for
/// a scan; whatever else the radio reports, the task goes on.
pub proof fn law_station_halts(events: Seq<StationEvent>)
    requires
        run(StationStage::Checking, events) is Some,
    ensures
        run(StationStage::Checking, events) == Some(StationStage::Halted) <==> exists|i: int|
            0 <= i < events.len() && must_succeed(
                #[trigger] visited(StationStage::Checking, events)[i],
            ) && events[i] == StationEvent::Failed,
{
    lemma_halted(
        StationStage::Checking,
        events,
        StationStage::Halted,
        |stage: StationStage, event: StationEvent|
            must_succeed(stage) && event == StationEvent::Failed,
    );
}

/// The task never gets stuck: every stage has an event that answers it, but for the one
/// in which the board has stopped.
pub proof fn law_station_never_stuck(stage: StationStage)
    ensures
        (exists|event: StationEvent| #[trigger] stage.after(event) is Some) <==> !(
        stage is Halted),
{
    let witness = match stage {
        StationStage::Checking => StationEvent::State(StaState::Started),
        StationStage::Probing => StationEvent::Started(None),
        StationStage::Connecting => StationEvent::Connect { ok: true },
        _ => StationEvent::Done,
    };
    assert(stage is Halted || stage.after(witness) is Some);
}

/// A new task has the network that it was given, and begins by reading the state.
pub proof fn law_station_begins<'a>(ssid: &'a str, psk: &'a str, station: Station<'a>)
    requires
        call_ensures(Station::new, (ssid, psk), station),
    ensures
        station.ssid@ == ssid@,
        station.psk@ == psk@,
        station.stage is Checking,
{
}

/// What the task asks for: the network that it configures is its own, a scan lists ten
/// access points, and each of the two waits takes five seconds.
pub proof fn law_station_asks(station: Station, action: StationAction)
    requires
        call_ensures(Station::action, (&station,), action),
    ensures
        action is ReadState <==> station.stage is Checking,
        action is AwaitDisconnect <==> station.stage is Watching,
        action is Pause <==> station.stage is Settling || station.stage is Retrying,
        action matches StationAction::Pause(ms) ==> ms == 5000,
        action is ReadStarted <==> station.stage is Probing,
        action is Configure <==> station.stage is Configuring,
        action matches StationAction::Configure { ssid, password } ==> ssid@ == station.ssid@
            && password@ == station.psk@,
        action is Start <==> station.stage is Starting,
        action is Scan <==> station.stage is Scanning,
        action matches StationAction::Scan { max } ==> max == 10,
        action is Connect <==> station.stage is Connecting,
        action is Halt <==> station.stage is Halted,
{
}

/// Where an outcome leads: only a connected board waits for the loss of its connection,
/// only a controller that says that it is started is left alone, only a failed attempt is
/// followed by a wait, and only a failed set-up stops the board. The network never changes.
pub proof fn law_station_takes(
    station: &mut Station,
    event: StationEvent,
    taken: Result<(), UnexpectedEvent>,
)
    requires
        call_ensures(Station::step, (station, event), taken),
    ensures
        final(station).ssid@ == old(station).ssid@,
        final(station).psk@ == old(station).psk@,
        taken is Err ==> final(station).stage == old(station).stage,
        taken is Ok <==> match event {
            StationEvent::State(_) => old(station).stage is Checking,
            StationEvent::Started(_) => old(station).stage is Probing,
            StationEvent::Connect { ok: _ } => old(station).stage is Connecting,
            StationEvent::Failed => old(station).stage is Configuring || old(station).stage
                is Starting || old(station).stage is Scanning,
            StationEvent::Done => old(station).stage is Watching || old(station).stage is Settling
                || old(station).stage is Configuring || old(station).stage is Starting || old(
                station,
            ).stage is Scanning || old(station).stage is Retrying,
        },
        event matches StationEvent::State(state) ==> (taken is Ok ==> (if state is Connected {
            final(station).stage is Watching
        } else {
            final(station).stage is Probing
        })),
        event matches StationEvent::Started(started) ==> (taken is Ok ==> (if started == Some(true) {
            final(station).stage is Connecting
        } else {
            final(station).stage is Configuring
        })),
        event matches StationEvent::Connect { ok } ==> (taken is Ok ==> (if ok {
            final(station).stage is Checking
        } else {
            final(station).stage is Retrying
        })),
        taken is Ok && event is Failed ==> final(station).stage is Halted,
        taken is Ok && event is Done && old(station).stage is Watching ==> final(station).stage
            is Settling,
        taken is Ok && event is Done && old(station).stage is Settling ==> final(station).stage
            is Probing,
        taken is Ok && event is Done && old(station).stage is Configuring ==> final(station).stage
            is Starting,
        taken is Ok && event is Done && old(station).stage is Starting ==> final(station).stage
            is Scanning,
        taken is Ok && event is Done && old(station).stage is Scanning ==> final(station).stage
            is Connecting,
        taken is Ok && event is Done && old(station).stage is Retrying ==> final(station).stage
            is Checking,
{
}

} // verus!

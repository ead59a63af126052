//! The way from power-on to a network with an address.
use crate::phases::Opens;
use crate::picow::fetch::FetchStage;
use crate::picow::flash::{clm_region, firmware_region, FlashRegion};
use crate::picow::flash::{CLM_BASE, CLM_LEN, FIRMWARE_BASE, FIRMWARE_LEN};
use crate::steps::{lemma_halted, lemma_run_push, run, slept, visited, Steps, UnexpectedEvent};
use vstd::prelude::*;
use vstd::utf8::encode_utf8;

verus! {

/// The wait after an attempt to join the network that failed.
pub const JOIN_PAUSE_MS: u64 = 5000;

/// The time for which the first request for an address waits for its answer.
pub const DHCP_REQUEST_TIMEOUT_SECS: u64 = 5;

/// The number of requests for an address before the search starts anew.
pub const DHCP_REQUEST_RETRIES: u16 = 10;

/// The number of sockets that the network stack has room for.
pub const STACK_SOCKETS: usize = 5;

/// How persistently an address is asked for.
#[derive(Clone, Copy, Debug, PartialEq, Eq, Structural)]
pub struct DhcpRetry {
    pub initial_request_timeout_secs: u64,
    pub request_retries: u16,
}

/// What the board is about to do.
#[derive(Clone, Copy, Debug, PartialEq, Eq, Structural)]
pub enum BootStage {
    LoadingFirmware,
    SpawningDriver,
    InitialisingChip,
    SavingPower,
    DrawingSeed,
    StartingStack { seed: u64 },
    SpawningNet,
    Joining,
    JoinRetry,
    AwaitingConfig,
    SpawningBlink,
    /// The board is in the network, with an address.
    Ready,
    /// The light could not be set going: the board stops.
    Halted,
}

/// How an operation of the board went.
#[derive(Clone, Copy, Debug, PartialEq, Eq, Structural)]
pub enum BootEvent {
    /// The operation is over, and had nothing to tell.
    Done,
    /// The operation could not be done.
    Failed,
    /// This number was drawn.
    Seed(u64),
    /// The attempt to join the network is over.
    Join { ok: bool },
}

/// An operation that is asked of the board.
#[derive(Clone, Copy, Debug, PartialEq, Eq)]
pub enum BootAction<'a> {
    /// The driver of the Wi-Fi chip, with the firmware that lies here.
    LoadFirmware(FlashRegion),
    SpawnDriver,
    /// The Wi-Fi chip, with the country locale matrix that lies here.
    InitChip(FlashRegion),
    SavePower,
    /// A random number.
    DrawSeed,
    /// The network stack, with this seed and room for this many sockets, which asks for
    /// its address as persistently as this.
    StartStack { seed: u64, retry: DhcpRetry, sockets: usize },
    SpawnNet,
    Join { ssid: &'a str, passphrase: &'a [u8] },
    Pause(u64),
    AwaitConfig,
    SpawnBlink,
    /// Nothing is left to do.
    Proceed,
    /// The end of the program, as after a panic.
    Halt,
}

/// The board on its way, with the network that it is to join.
#[derive(Clone, Copy, Debug)]
pub struct Boot<'a> {
    pub ssid: &'a str,
    pub psk: &'a str,
    pub stage: BootStage,
}

impl Steps for BootStage {
    type Event = BootEvent;

    type Told = ();

    open spec fn after(self, event: BootEvent) -> Option<BootStage> {
        match (self, event) {
            (BootStage::LoadingFirmware, BootEvent::Done) => Some(BootStage::SpawningDriver),
            (BootStage::SpawningDriver, BootEvent::Done | BootEvent::Failed) => Some(BootStage::InitialisingChip),
            (BootStage::InitialisingChip, BootEvent::Done) => Some(BootStage::SavingPower),
            (BootStage::SavingPower, BootEvent::Done) => Some(BootStage::DrawingSeed),
            (BootStage::DrawingSeed, BootEvent::Seed(seed)) => Some(
                BootStage::StartingStack { seed },
            ),
            (BootStage::StartingStack { .. }, BootEvent::Done) => Some(BootStage::SpawningNet),
            (BootStage::SpawningNet, BootEvent::Done | BootEvent::Failed) => Some(BootStage::Joining),
            (BootStage::Joining, BootEvent::Join { ok: true }) => Some(BootStage::AwaitingConfig),
            (BootStage::Joining, BootEvent::Join { ok: false }) => Some(BootStage::JoinRetry),
            (BootStage::JoinRetry, BootEvent::Done) => Some(BootStage::Joining),
            (BootStage::AwaitingConfig, BootEvent::Done) => Some(BootStage::SpawningBlink),
            (BootStage::SpawningBlink, BootEvent::Done) => Some(BootStage::Ready),
            (BootStage::SpawningBlink, BootEvent::Failed) => Some(BootStage::Halted),
            _ => None,
        }
    }

    open spec fn pause(self) -> nat {
        match self {
            BootStage::JoinRetry => JOIN_PAUSE_MS as nat,
            _ => 0,
        }
    }

    open spec fn tells(self, event: BootEvent) -> Option<()> {
        None
    }
}

impl Opens for BootStage {
    type Work = FetchStage;

    open spec fn is_through(self) -> bool {
        self is Ready
    }

    open spec fn opened() -> FetchStage {
        FetchStage::Requesting
    }
}

impl<'a> Boot<'a> {
    /// Whether this is the operation that is due.
    pub open spec fn is_due(self, action: BootAction<'a>) -> bool {
        match self.stage {
            BootStage::LoadingFirmware => action == (BootAction::LoadFirmware(
                firmware_region(),
            )),
            BootStage::SpawningDriver => action == (BootAction::SpawnDriver),
            BootStage::InitialisingChip => action == (BootAction::InitChip(clm_region())),
            BootStage::SavingPower => action == (BootAction::SavePower),
            BootStage::DrawingSeed => action == (BootAction::DrawSeed),
            BootStage::StartingStack { seed } => action == (BootAction::StartStack {
                seed,
                retry: DhcpRetry {
                    initial_request_timeout_secs: DHCP_REQUEST_TIMEOUT_SECS,
                    request_retries: DHCP_REQUEST_RETRIES,
                },
                sockets: STACK_SOCKETS,
            }),
            BootStage::SpawningNet => action == (BootAction::SpawnNet),
            BootStage::Joining => {
                &&& action matches BootAction::Join { ssid, passphrase }
                &&& ssid == self.ssid
                &&& passphrase@ == encode_utf8(self.psk@)
            },
            BootStage::JoinRetry => action == (BootAction::Pause(JOIN_PAUSE_MS)),
            BootStage::AwaitingConfig => action == (BootAction::AwaitConfig),
            BootStage::SpawningBlink => action == (BootAction::SpawnBlink),
            BootStage::Ready => action == (BootAction::Proceed),
            BootStage::Halted => action == (BootAction::Halt),
        }
    }

    /// The board after power-on.
    pub fn new(ssid: &'a str, psk: &'a str) -> (boot: Boot<'a>)
        ensures
            boot.ssid == ssid,
            boot.psk == psk,
            boot.stage == BootStage::LoadingFirmware,
    {
        Boot { ssid, psk, stage: BootStage::LoadingFirmware }
    }

    /// The operation that is due.
    pub fn action(&self) -> (action: BootAction<'a>)
        ensures
            self.is_due(action),
            self.stage.pause() == (match action {
                BootAction::Pause(ms) => ms as nat,
                _ => 0,
            }),
    {
        match self.stage {
            BootStage::LoadingFirmware => BootAction::LoadFirmware(
                FlashRegion { base: FIRMWARE_BASE, len: FIRMWARE_LEN },
            ),
            BootStage::SpawningDriver => BootAction::SpawnDriver,
            BootStage::InitialisingChip => BootAction::InitChip(
                FlashRegion { base: CLM_BASE, len: CLM_LEN },
            ),
            BootStage::SavingPower => BootAction::SavePower,
            BootStage::DrawingSeed => BootAction::DrawSeed,
            BootStage::StartingStack { seed } => BootAction::StartStack {
                seed,
                retry: DhcpRetry {
                    initial_request_timeout_secs: DHCP_REQUEST_TIMEOUT_SECS,
                    request_retries: DHCP_REQUEST_RETRIES,
                },
                sockets: STACK_SOCKETS,
            },
            BootStage::SpawningNet => BootAction::SpawnNet,
            BootStage::Joining => BootAction::Join {
                ssid: self.ssid,
                passphrase: self.psk.as_bytes(),
            },
            BootStage::JoinRetry => BootAction::Pause(JOIN_PAUSE_MS),
            BootStage::AwaitingConfig => BootAction::AwaitConfig,
            BootStage::SpawningBlink => BootAction::SpawnBlink,
            BootStage::Ready => BootAction::Proceed,
            BootStage::Halted => BootAction::Halt,
        }
    }

    /// Takes the outcome of the operation that was due.
    pub fn step(&mut self, event: BootEvent) -> (taken: Result<(), UnexpectedEvent>)
        ensures
            taken is Ok <==> old(self).stage.after(event) is Some,
            taken is Ok ==> Some(final(self).stage) == old(self).stage.after(event),
            taken is Err ==> final(self).stage == old(self).stage,
            final(self).ssid == old(self).ssid,
            final(self).psk == old(self).psk,
    {
        let next: BootStage = match (self.stage, event) {
            (BootStage::LoadingFirmware, BootEvent::Done) => BootStage::SpawningDriver,
            (BootStage::SpawningDriver, BootEvent::Done | BootEvent::Failed) => BootStage::InitialisingChip,
            (BootStage::InitialisingChip, BootEvent::Done) => BootStage::SavingPower,
            (BootStage::SavingPower, BootEvent::Done) => BootStage::DrawingSeed,
            (BootStage::DrawingSeed, BootEvent::Seed(seed)) => BootStage::StartingStack { seed },
            (BootStage::StartingStack { .. }, BootEvent::Done) => BootStage::SpawningNet,
            (BootStage::SpawningNet, BootEvent::Done | BootEvent::Failed) => BootStage::Joining,
            (BootStage::Joining, BootEvent::Join { ok }) => if ok {
                BootStage::AwaitingConfig
            } else {
                BootStage::JoinRetry
            },
            (BootStage::JoinRetry, BootEvent::Done) => BootStage::Joining,
            (BootStage::AwaitingConfig, BootEvent::Done) => BootStage::SpawningBlink,
            (BootStage::SpawningBlink, BootEvent::Done) => BootStage::Ready,
            (BootStage::SpawningBlink, BootEvent::Failed) => BootStage::Halted,
            _ => {
                return Err(UnexpectedEvent);
            },
        };
        self.stage = next;
        Ok(())
    }
}

/// The number that was drawn in `events`.
pub open spec fn drawn(events: Seq<BootEvent>) -> u64 {
    match events[4] {
        BootEvent::Seed(seed) => seed,
        _ => 0,
    }
}

/// The stages that every start goes through before the board tries to join the network,
/// where `seed` is drawn.
pub open spec fn set_up(seed: u64) -> Seq<BootStage> {
    seq![
        BootStage::LoadingFirmware,
        BootStage::SpawningDriver,
        BootStage::InitialisingChip,
        BootStage::SavingPower,
        BootStage::DrawingSeed,
        BootStage::StartingStack { seed },
        BootStage::SpawningNet,
    ]
}

/// Whether the set-up lies behind the board.
pub open spec fn is_set_up(stage: BootStage) -> bool {
    match stage {
        BootStage::Joining
        | BootStage::JoinRetry
        | BootStage::AwaitingConfig
        | BootStage::SpawningBlink
        | BootStage::Ready
        | BootStage::Halted => true,
        _ => false,
    }
}

/// Every start is the same until the board tries to join: the driver is spawned before
/// the chip is set up, and the network stack is started before the first attempt, with
/// the seed that was drawn.
pub proof fn law_boot_order(events: Seq<BootEvent>)
    requires
        run(BootStage::LoadingFirmware, events) is Some,
    ensures
        events.len() < set_up(drawn(events)).len() ==> run(BootStage::LoadingFirmware, events) == Some(
            set_up(drawn(events))[events.len() as int],
        ),
        events.len() >= set_up(drawn(events)).len() ==> is_set_up(run(BootStage::LoadingFirmware, events)->0),
        visited(BootStage::LoadingFirmware, events).len() == events.len(),
        forall|i: int|
            0 <= i < events.len() && i < set_up(drawn(events)).len() ==> #[trigger] visited(
                BootStage::LoadingFirmware,
                events,
            )[i] == set_up(drawn(events))[i],
    decreases events.len(),
{
    if events.len() > 0 {
        law_boot_order(events.drop_last());
        assert(events.len() > 5 ==> drawn(events) == drawn(events.drop_last()));
        lemma_run_push(BootStage::LoadingFirmware, events.drop_last(), events.last());
        assert(events =~= events.drop_last().push(events.last()));
    }
}

/// `count` attempts to join that failed, each with the wait that follows.
pub open spec fn failed_joins(count: nat) -> Seq<BootEvent>
    decreases count,
{
    if count == 0 {
        Seq::empty()
    } else {
        failed_joins((count - 1) as nat).push(BootEvent::Join { ok: false }).push(BootEvent::Done)
    }
}

/// The events of a start in which `seed` was drawn and the board joined after `count`
/// attempts had failed.
pub open spec fn boot_events(seed: u64, count: nat) -> Seq<BootEvent> {
    seq![
        BootEvent::Done,
        BootEvent::Done,
        BootEvent::Done,
        BootEvent::Done,
        BootEvent::Seed(seed),
        BootEvent::Done,
        BootEvent::Done,
    ] + failed_joins(count) + seq![BootEvent::Join { ok: true }, BootEvent::Done, BootEvent::Done]
}

/// The board persists: however often it fails to join, it is ready once it has joined
/// and has an address, with five seconds of waiting for each failure.
pub proof fn law_boot_persists(seed: u64, count: nat)
    ensures
        run(BootStage::LoadingFirmware, boot_events(seed, count)) == Some(BootStage::Ready),
        slept(BootStage::LoadingFirmware, boot_events(seed, count)) == JOIN_PAUSE_MS * count,
{
    let begin = BootStage::LoadingFirmware;
    let done = BootEvent::Done;
    let e0 = Seq::<BootEvent>::empty();
    let e1 = e0.push(done);
    let e2 = e1.push(done);
    let e3 = e2.push(done);
    let e4 = e3.push(done);
    let e5 = e4.push(BootEvent::Seed(seed));
    let e6 = e5.push(done);
    let e7 = e6.push(done);
    lemma_run_push(begin, e0, done);
    lemma_run_push(begin, e1, done);
    lemma_run_push(begin, e2, done);
    lemma_run_push(begin, e3, done);
    lemma_run_push(begin, e4, BootEvent::Seed(seed));
    lemma_run_push(begin, e5, done);
    lemma_run_push(begin, e6, done);
    lemma_failed_joins(e7, count);
    let e8 = e7 + failed_joins(count);
    let e9 = e8.push(BootEvent::Join { ok: true });
    lemma_run_push(begin, e8, BootEvent::Join { ok: true });
    lemma_run_push(begin, e9, done);
    lemma_run_push(begin, e9.push(done), done);
    assert(boot_events(seed, count) =~= e9.push(done).push(done));
}

/// Failed attempts lead back to the next one, at the price of the waiting.
proof fn lemma_failed_joins(events: Seq<BootEvent>, count: nat)
    requires
        run(BootStage::LoadingFirmware, events) == Some(BootStage::Joining),
    ensures
        run(BootStage::LoadingFirmware, events + failed_joins(count)) == Some(BootStage::Joining),
        slept(BootStage::LoadingFirmware, events + failed_joins(count)) == slept(
            BootStage::LoadingFirmware,
            events,
        ) + JOIN_PAUSE_MS * count,
    decreases count,
{
    if count == 0 {
        assert(events + failed_joins(count) =~= events);
    } else {
        let fewer = (count - 1) as nat;
        let before = events + failed_joins(fewer);
        let failed = before.push(BootEvent::Join { ok: false });
        lemma_failed_joins(events, fewer);
        lemma_run_push(BootStage::LoadingFirmware, before, BootEvent::Join { ok: false });
        lemma_run_push(BootStage::LoadingFirmware, failed, BootEvent::Done);
        assert(events + failed_joins(count) =~= failed.push(BootEvent::Done));
        assert(JOIN_PAUSE_MS * count == JOIN_PAUSE_MS * fewer + JOIN_PAUSE_MS) by (nonlinear_arith)
            requires
                count == fewer + 1,
        ;
    }
}

/// The board waits for an address exactly when it has just joined. Its light is set going
/// only once it has joined and has an address; with that the board is ready, or stops.
pub proof fn law_boot_ready(events: Seq<BootEvent>)
    requires
        run(BootStage::LoadingFirmware, events) is Some,
    ensures
        run(BootStage::LoadingFirmware, events)->0 is AwaitingConfig <==> events.len() > 0
            && events.last() == (BootEvent::Join { ok: true }),
        run(BootStage::LoadingFirmware, events)->0 is SpawningBlink <==> events.len() > 1
            && events[events.len() - 2] == (BootEvent::Join { ok: true }) && events.last()
            == BootEvent::Done,
        run(BootStage::LoadingFirmware, events)->0 is Ready <==> events.len() > 2
            && events[events.len() - 3] == (BootEvent::Join { ok: true }) && events[events.len()
            - 2] == BootEvent::Done && events.last() == BootEvent::Done,
        run(BootStage::LoadingFirmware, events)->0 is Halted <==> events.len() > 2
            && events[events.len() - 3] == (BootEvent::Join { ok: true }) && events[events.len()
            - 2] == BootEvent::Done && events.last() == BootEvent::Failed,
    decreases events.len(),
{
    if events.len() > 0 {
        law_boot_ready(events.drop_last());
    }
}

/// The number of attempts to join that failed in `events`.
pub open spec fn failed(events: Seq<BootEvent>) -> nat
    decreases events.len(),
{
    if events.len() == 0 {
        0
    } else {
        failed(events.drop_last()) + (if events.last() == (BootEvent::Join { ok: false }) {
            1nat
        } else {
            0
        })
    }
}

/// The board waits for five seconds after each attempt to join that failed, and never
/// otherwise.
pub proof fn law_boot_pauses(events: Seq<BootEvent>)
    requires
        run(BootStage::LoadingFirmware, events) is Some,
    ensures
        slept(BootStage::LoadingFirmware, events) + run(
            BootStage::LoadingFirmware,
            events,
        )->0.pause() == JOIN_PAUSE_MS * failed(events),
    decreases events.len(),
{
    if events.len() > 0 {
        law_boot_pauses(events.drop_last());
    }
}

/// Whether the board cannot do without the operation of this stage.
pub open spec fn must_succeed(stage: BootStage) -> bool {
    stage is SpawningBlink
}

/// Whether the board goes on without the operation of this stage, where it fails.
pub open spec fn may_fail(stage: BootStage) -> bool {
    stage is SpawningDriver || stage is SpawningNet
}

/// A light that cannot be set going stops the board. A driver or a network task that
/// cannot be spawned does not: the board goes on as if nothing had happened.
pub proof fn law_boot_failures(stage: BootStage)
    ensures
        stage.after(BootEvent::Failed) == (if must_succeed(stage) {
            Some(BootStage::Halted)
        } else if may_fail(stage) {
            stage.after(BootEvent::Done)
        } else {
            None
        }),
{
}

/// The board stops exactly when something failed that it cannot do without.
pub proof fn law_boot_halts(events: Seq<BootEvent>)
    requires
        run(BootStage::LoadingFirmware, events) is Some,
    ensures
        run(BootStage::LoadingFirmware, events) == Some(BootStage::Halted) <==> exists|i: int|
            0 <= i < events.len() && must_succeed(
                #[trigger] visited(BootStage::LoadingFirmware, events)[i],
            ) && events[i] == BootEvent::Failed,
{
    lemma_halted(
        BootStage::LoadingFirmware,
        events,
        BootStage::Halted,
        |stage: BootStage, event: BootEvent| must_succeed(stage) && event == BootEvent::Failed,
    );
}

/// Until it is ready or has stopped, the board never gets stuck: every stage has an
/// event that answers it.
pub proof fn law_boot_never_stuck(stage: BootStage)
    ensures
        (exists|event: BootEvent| #[trigger] stage.after(event) is Some) <==> !(stage is Ready
            || stage is Halted),
{
    let witness = match stage {
        BootStage::DrawingSeed => BootEvent::Seed(0),
        BootStage::Joining => BootEvent::Join { ok: true },
        _ => BootEvent::Done,
    };
    assert(stage is Ready || stage is Halted || stage.after(witness) is Some);
}

/// A new start has the network that it was given, and begins with the firmware.
pub proof fn law_boot_begins<'a>(ssid: &'a str, psk: &'a str, boot: Boot<'a>)
    requires
        call_ensures(Boot::new, (ssid, psk), boot),
    ensures
        boot.ssid@ == ssid@,
        boot.psk@ == psk@,
        boot.stage is LoadingFirmware,
{
}

/// What the start asks for: it joins its own network with its own key, takes the firmware
/// and the country locale matrix from their places in the flash memory, starts a stack with
/// the seed that was drawn, room for five sockets and ten requests for an address of which
/// the first waits for five seconds, and waits for five seconds between two attempts.
pub proof fn law_boot_asks(boot: Boot, action: BootAction)
    requires
        call_ensures(Boot::action, (&boot,), action),
    ensures
        action is LoadFirmware <==> boot.stage is LoadingFirmware,
        action matches BootAction::LoadFirmware(region) ==> region.base == 0x1010_0000
            && region.len == 231_077,
        action is SpawnDriver <==> boot.stage is SpawningDriver,
        action is InitChip <==> boot.stage is InitialisingChip,
        action matches BootAction::InitChip(region) ==> region.base == 0x1014_0000 && region.len
            == 984,
        action is SavePower <==> boot.stage is SavingPower,
        action is DrawSeed <==> boot.stage is DrawingSeed,
        action is StartStack <==> boot.stage is StartingStack,
        action matches BootAction::StartStack { seed, retry, sockets } ==> boot.stage
            == (BootStage::StartingStack { seed }) && retry.initial_request_timeout_secs == 5
            && retry.request_retries == 10 && sockets == 5,
        action is SpawnNet <==> boot.stage is SpawningNet,
        action is Join <==> boot.stage is Joining,
        action matches BootAction::Join { ssid, passphrase } ==> ssid@ == boot.ssid@ && passphrase@
            == encode_utf8(boot.psk@),
        action is Pause <==> boot.stage is JoinRetry,
        action matches BootAction::Pause(ms) ==> ms == 5000,
        action is AwaitConfig <==> boot.stage is AwaitingConfig,
        action is SpawnBlink <==> boot.stage is SpawningBlink,
        action is Proceed <==> boot.stage is Ready,
        action is Halt <==> boot.stage is Halted,
{
}

/// Where an outcome leads: the number that was drawn is the seed, a failed attempt to join
/// leads to a wait and from there to the next attempt, a light that cannot be set going
/// stops the board, and any other failure makes no difference. The network never changes.
pub proof fn law_boot_takes(boot: &mut Boot, event: BootEvent, taken: Result<(), UnexpectedEvent>)
    requires
        call_ensures(Boot::step, (boot, event), taken),
    ensures
        final(boot).ssid@ == old(boot).ssid@,
        final(boot).psk@ == old(boot).psk@,
        taken is Err ==> final(boot).stage == old(boot).stage,
        taken is Ok <==> match event {
            BootEvent::Seed(_) => old(boot).stage is DrawingSeed,
            BootEvent::Join { ok: _ } => old(boot).stage is Joining,
            BootEvent::Failed => old(boot).stage is SpawningDriver || old(boot).stage
                is SpawningNet || old(boot).stage is SpawningBlink,
            BootEvent::Done => match old(boot).stage {
                BootStage::DrawingSeed
                | BootStage::Joining
                | BootStage::Ready
                | BootStage::Halted => false,
                _ => true,
            },
        },
        event matches BootEvent::Seed(drawn) ==> (taken is Ok ==> final(boot).stage
            == (BootStage::StartingStack { seed: drawn })),
        event matches BootEvent::Join { ok } ==> (taken is Ok ==> (if ok {
            final(boot).stage is AwaitingConfig
        } else {
            final(boot).stage is JoinRetry
        })),
        taken is Ok && (event is Done || event is Failed) ==> match old(boot).stage {
            BootStage::LoadingFirmware => final(boot).stage is SpawningDriver,
            BootStage::SpawningDriver => final(boot).stage is InitialisingChip,
            BootStage::InitialisingChip => final(boot).stage is SavingPower,
            BootStage::SavingPower => final(boot).stage is DrawingSeed,
            BootStage::StartingStack { .. } => final(boot).stage is SpawningNet,
            BootStage::SpawningNet => final(boot).stage is Joining,
            BootStage::JoinRetry => final(boot).stage is Joining,
            BootStage::AwaitingConfig => final(boot).stage is SpawningBlink,
            BootStage::SpawningBlink => if event is Done {
                final(boot).stage is Ready
            } else {
                final(boot).stage is Halted
            },
            _ => false,
        },
{
}

} // verus!

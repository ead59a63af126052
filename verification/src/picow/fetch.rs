//! The loop that fetches the page through an HTTP client.
use crate::endpoint::{remote, remote_endpoint};
use crate::request::{law_every_url_fits_the_buffer, lemma_url_of_the_server};
use crate::request::{request_url, url_text, URL_BUFFER_LEN};
use crate::steps::{joined, run, slept, told, visited, Steps, UnexpectedEvent};
use crate::steps::{lemma_halted, lemma_joined_ones, lemma_rounds, lemma_run_push};
use vstd::prelude::*;
use vstd::utf8::{decode_utf8, decode_utf8_encode_utf8, encode_utf8, valid_utf8};

verus! {

/// The wait after a request that could not be made or sent.
pub const RETRY_PAUSE_MS: u64 = 5000;

/// The wait after an answer.
pub const ANSWER_PAUSE_MS: u64 = 10_000;

/// The number of connections that the client holds at a time.
pub const CLIENT_CONNECTIONS: usize = 1;

/// The bytes that the client buffers for a connection, in each direction.
pub const CLIENT_BUFFER_LEN: usize = 4096;

/// The bytes of the buffer that an answer is read into.
pub const ANSWER_BUFFER_LEN: usize = 4096;

/// What the loop is about to do.
#[derive(Clone, Copy, Debug, PartialEq, Eq, Structural)]
pub enum FetchStage {
    Requesting,
    RequestRetry,
    Sending,
    SendRetry,
    ReadingBody,
    Resting,
    /// The body of an answer could not be read: the board stops.
    Halted,
}

/// How an operation of the loop went. `B` holds the body of the answer.
#[derive(Debug, PartialEq, Eq)]
pub enum FetchEvent<B> {
    /// The wait is over.
    Done,
    /// The request was made, or could not be made.
    Request { ok: bool },
    /// The request was sent and answered, or was not.
    Send { ok: bool },
    /// The body of the answer was read to its end.
    Body(B),
    /// The body of the answer could not be read.
    BodyFailed,
}

/// An operation that the loop asks of the HTTP client or of the timer.
#[derive(Clone, Copy, Debug, PartialEq, Eq)]
pub enum FetchAction<'u> {
    /// A new GET request for this URL.
    Request(&'u str),
    /// The request, as it was made last.
    Send,
    /// The whole body of the answer.
    ReadBody,
    Pause(u64),
    /// The end of the program, as after a panic.
    Halt,
}

/// What the board reports of an answer. `T` is the text of the body.
#[derive(Debug, PartialEq, Eq)]
pub enum Report<T> {
    Body(T),
    /// The body is no text.
    Unreadable,
}

/// The loop, with the URL of the page.
#[derive(Clone, Copy, Debug)]
pub struct Fetch<'u> {
    pub url: &'u str,
    pub stage: FetchStage,
}

impl<'a> FetchEvent<&'a [u8]> {
    /// The event, with the body by its value.
    pub open spec fn model(self) -> FetchEvent<Seq<u8>> {
        match self {
            FetchEvent::Done => FetchEvent::Done,
            FetchEvent::Request { ok } => FetchEvent::Request { ok },
            FetchEvent::Send { ok } => FetchEvent::Send { ok },
            FetchEvent::Body(bytes) => FetchEvent::Body(bytes@),
            FetchEvent::BodyFailed => FetchEvent::BodyFailed,
        }
    }
}

impl<'a> Report<&'a str> {
    /// The report, with the text by its value.
    pub open spec fn model(self) -> Report<Seq<char>> {
        match self {
            Report::Body(text) => Report::Body(text@),
            Report::Unreadable => Report::Unreadable,
        }
    }
}

/// The report on an answer with this body: the body itself, where it is text.
pub open spec fn report_on(body: Seq<u8>) -> Report<Seq<char>> {
    if valid_utf8(body) {
        Report::Body(decode_utf8(body))
    } else {
        Report::Unreadable
    }
}

impl Steps for FetchStage {
    type Event = FetchEvent<Seq<u8>>;

    type Told = Report<Seq<char>>;

    open spec fn after(self, event: FetchEvent<Seq<u8>>) -> Option<FetchStage> {
        match (self, event) {
            (FetchStage::Requesting, FetchEvent::Request { ok: true }) => Some(
                FetchStage::Sending,
            ),
            (FetchStage::Requesting, FetchEvent::Request { ok: false }) => Some(
                FetchStage::RequestRetry,
            ),
            (FetchStage::RequestRetry, FetchEvent::Done) => Some(FetchStage::Requesting),
            (FetchStage::Sending, FetchEvent::Send { ok: true }) => Some(FetchStage::ReadingBody),
            (FetchStage::Sending, FetchEvent::Send { ok: false }) => Some(FetchStage::SendRetry),
            (FetchStage::SendRetry, FetchEvent::Done) => Some(FetchStage::Sending),
            (FetchStage::ReadingBody, FetchEvent::Body(_)) => Some(FetchStage::Resting),
            (FetchStage::ReadingBody, FetchEvent::BodyFailed) => Some(FetchStage::Halted),
            (FetchStage::Resting, FetchEvent::Done) => Some(FetchStage::Requesting),
            _ => None,
        }
    }

    open spec fn pause(self) -> nat {
        match self {
            FetchStage::RequestRetry | FetchStage::SendRetry => RETRY_PAUSE_MS as nat,
            FetchStage::Resting => ANSWER_PAUSE_MS as nat,
            _ => 0,
        }
    }

    /// What the board reports: the answer, once its body was read.
    open spec fn tells(self, event: FetchEvent<Seq<u8>>) -> Option<Report<Seq<char>>> {
        match (self, event) {
            (FetchStage::ReadingBody, FetchEvent::Body(body)) => Some(report_on(body)),
            _ => None,
        }
    }
}

impl<'u> Fetch<'u> {
    /// Whether this is the operation that is due.
    pub open spec fn is_due(self, action: FetchAction<'u>) -> bool {
        action == (match self.stage {
            FetchStage::Requesting => FetchAction::Request(self.url),
            FetchStage::RequestRetry => FetchAction::Pause(RETRY_PAUSE_MS),
            FetchStage::Sending => FetchAction::Send,
            FetchStage::SendRetry => FetchAction::Pause(RETRY_PAUSE_MS),
            FetchStage::ReadingBody => FetchAction::ReadBody,
            FetchStage::Resting => FetchAction::Pause(ANSWER_PAUSE_MS),
            FetchStage::Halted => FetchAction::Halt,
        })
    }

    /// The loop at its start, with the URL put together in `buf`.
    pub fn new(buf: &'u mut [u8; URL_BUFFER_LEN]) -> (fetch: Fetch<'u>)
        ensures
            fetch.url@ == url_text(remote()),
            fetch.stage == FetchStage::Requesting,
    {
        proof {
            law_every_url_fits_the_buffer(remote());
        }
        let url: &'u str = request_url(&remote_endpoint(), buf).unwrap();
        Fetch { url, stage: FetchStage::Requesting }
    }

    /// The operation that is due.
    pub fn action(&self) -> (action: FetchAction<'u>)
        ensures
            self.is_due(action),
            self.stage.pause() == (match action {
                FetchAction::Pause(ms) => ms as nat,
                _ => 0,
            }),
    {
        match self.stage {
            FetchStage::Requesting => FetchAction::Request(self.url),
            FetchStage::Sending => FetchAction::Send,
            FetchStage::ReadingBody => FetchAction::ReadBody,
            FetchStage::RequestRetry | FetchStage::SendRetry => FetchAction::Pause(
                RETRY_PAUSE_MS,
            ),
            FetchStage::Resting => FetchAction::Pause(ANSWER_PAUSE_MS),
            FetchStage::Halted => FetchAction::Halt,
        }
    }

    /// Takes the outcome of the operation that was due; hands back what is to be
    /// reported.
    pub fn step<'a>(&mut self, event: FetchEvent<&'a [u8]>) -> (taken: Result<
        Option<Report<&'a str>>,
        UnexpectedEvent,
    >)
        ensures
            taken is Ok <==> old(self).stage.after(event.model()) is Some,
            taken is Ok ==> Some(final(self).stage) == old(self).stage.after(event.model()),
            taken is Err ==> final(self).stage == old(self).stage,
            final(self).url == old(self).url,
            taken matches Ok(outcome) ==> match outcome {
                Some(report) => old(self).stage.tells(event.model()) == Some(report.model()),
                None => old(self).stage.tells(event.model()) is None,
            },
    {
        let mut report: Option<Report<&'a str>> = None;
        let next: FetchStage = match (self.stage, event) {
            (FetchStage::Requesting, FetchEvent::Request { ok }) => if ok {
                FetchStage::Sending
            } else {
                FetchStage::RequestRetry
            },
            (FetchStage::RequestRetry, FetchEvent::Done) => FetchStage::Requesting,
            (FetchStage::Sending, FetchEvent::Send { ok }) => if ok {
                FetchStage::ReadingBody
            } else {
                FetchStage::SendRetry
            },
            (FetchStage::SendRetry, FetchEvent::Done) => FetchStage::Sending,
            (FetchStage::ReadingBody, FetchEvent::Body(body)) => {
                report = Some(
                    match core::str::from_utf8(body) {
                        Ok(text) => Report::Body(text),
                        Err(_) => Report::Unreadable,
                    },
                );
                FetchStage::Resting
            },
            (FetchStage::ReadingBody, FetchEvent::BodyFailed) => FetchStage::Halted,
            (FetchStage::Resting, FetchEvent::Done) => FetchStage::Requesting,
            _ => {
                return Err(UnexpectedEvent);
            },
        };
        self.stage = next;
        Ok(report)
    }
}

/// An operation that fails `count` times, each time with the wait that follows.
pub open spec fn failures(failure: FetchEvent<Seq<u8>>, count: nat) -> Seq<FetchEvent<Seq<u8>>>
    decreases count,
{
    if count == 0 {
        Seq::empty()
    } else {
        failures(failure, (count - 1) as nat).push(failure).push(FetchEvent::Done)
    }
}

/// What can come of one round of the loop: the request cannot be made for `unmade` times,
/// then it cannot be sent for `unsent` times, and then it is answered.
pub struct Round {
    pub unmade: nat,
    pub unsent: nat,
    pub body: Seq<u8>,
}

/// The events of one round of the loop.
pub open spec fn round_events(round: Round) -> Seq<FetchEvent<Seq<u8>>> {
    failures(FetchEvent::Request { ok: false }, round.unmade).push(
        FetchEvent::Request { ok: true },
    ) + failures(FetchEvent::Send { ok: false }, round.unsent).push(
        FetchEvent::Send { ok: true },
    ).push(FetchEvent::Body(round.body)).push(FetchEvent::Done)
}

/// The loop persists: however often a request cannot be made or sent, the round ends
/// with one report on the answer, and the loop is where it began. Each failure costs
/// five seconds, the answer ten.
pub proof fn law_fetch_round(round: Round)
    ensures
        run(FetchStage::Requesting, round_events(round)) == Some(FetchStage::Requesting),
        told(FetchStage::Requesting, round_events(round)) == seq![report_on(round.body)],
        slept(FetchStage::Requesting, round_events(round)) == RETRY_PAUSE_MS * (round.unmade
            + round.unsent) + ANSWER_PAUSE_MS,
{
    let begin = FetchStage::Requesting;
    let none = Seq::<FetchEvent<Seq<u8>>>::empty();
    let e1 = none + failures(FetchEvent::Request { ok: false }, round.unmade);
    lemma_failures(none, FetchEvent::Request { ok: false }, round.unmade);
    let e2 = e1.push(FetchEvent::Request { ok: true });
    lemma_run_push(begin, e1, FetchEvent::Request { ok: true });
    let e3 = e2 + failures(FetchEvent::Send { ok: false }, round.unsent);
    lemma_failures(e2, FetchEvent::Send { ok: false }, round.unsent);
    let e4 = e3.push(FetchEvent::Send { ok: true });
    lemma_run_push(begin, e3, FetchEvent::Send { ok: true });
    let e5 = e4.push(FetchEvent::Body(round.body));
    lemma_run_push(begin, e4, FetchEvent::Body(round.body));
    lemma_run_push(begin, e5, FetchEvent::Done);
    assert(round_events(round) =~= e5.push(FetchEvent::Done));
    assert(RETRY_PAUSE_MS * (round.unmade + round.unsent) == RETRY_PAUSE_MS * round.unmade
        + RETRY_PAUSE_MS * round.unsent) by (nonlinear_arith);
    assert(told(begin, e5) =~= seq![report_on(round.body)]);
}

/// The loop repeats its rounds: the board reports once in each of them, on the answer
/// of that round.
pub proof fn law_fetch_repeats(rounds: Seq<Round>)
    ensures
        run(
            FetchStage::Requesting,
            joined(rounds.map_values(|round: Round| round_events(round))),
        ) == Some(FetchStage::Requesting),
        told(
            FetchStage::Requesting,
            joined(rounds.map_values(|round: Round| round_events(round))),
        ) == rounds.map_values(|round: Round| report_on(round.body)),
{
    let begin = FetchStage::Requesting;
    let events = rounds.map_values(|round: Round| round_events(round));
    let reports = rounds.map_values(|round: Round| report_on(round.body));
    assert forall|i: int| 0 <= i < events.len() implies run(begin, #[trigger] events[i]) == Some(
        begin,
    ) && told(begin, events[i]) == seq![reports[i]] by {
        law_fetch_round(rounds[i]);
    }
    lemma_rounds(begin, events);
    assert(events.map_values(|round: Seq<FetchEvent<Seq<u8>>>| told(begin, round))
        =~= reports.map_values(|report: Report<Seq<char>>| seq![report]));
    lemma_joined_ones(reports);
}

/// Failures lead back to the operation that failed, at the price of the waiting.
proof fn lemma_failures(
    events: Seq<FetchEvent<Seq<u8>>>,
    failure: FetchEvent<Seq<u8>>,
    count: nat,
)
    requires
        (run(FetchStage::Requesting, events) == Some(FetchStage::Requesting) && failure == (
        FetchEvent::<Seq<u8>>::Request { ok: false })) || (run(FetchStage::Requesting, events)
            == Some(FetchStage::Sending) && failure == (FetchEvent::<Seq<u8>>::Send {
            ok: false,
        })),
    ensures
        run(FetchStage::Requesting, events + failures(failure, count)) == run(
            FetchStage::Requesting,
            events,
        ),
        told(FetchStage::Requesting, events + failures(failure, count)) == told(
            FetchStage::Requesting,
            events,
        ),
        slept(FetchStage::Requesting, events + failures(failure, count)) == slept(
            FetchStage::Requesting,
            events,
        ) + RETRY_PAUSE_MS * count,
    decreases count,
{
    if count == 0 {
        assert(events + failures(failure, count) =~= events);
    } else {
        let fewer = (count - 1) as nat;
        let before = events + failures(failure, fewer);
        lemma_failures(events, failure, fewer);
        lemma_run_push(FetchStage::Requesting, before, failure);
        lemma_run_push(FetchStage::Requesting, before.push(failure), FetchEvent::Done);
        assert(events + failures(failure, count) =~= before.push(failure).push(FetchEvent::Done));
        assert(RETRY_PAUSE_MS * count == RETRY_PAUSE_MS * fewer + RETRY_PAUSE_MS)
            by (nonlinear_arith)
            requires
                count == fewer + 1,
        ;
    }
}

/// Whether `events` leave the board with a request that was made and not yet answered.
pub open spec fn has_request(events: Seq<FetchEvent<Seq<u8>>>) -> bool
    decreases events.len(),
{
    if events.len() == 0 {
        false
    } else {
        match events.last() {
            FetchEvent::Request { ok } => ok,
            FetchEvent::Body(_) | FetchEvent::BodyFailed => false,
            _ => has_request(events.drop_last()),
        }
    }
}

/// The board sends a request only when it has made one, reads an answer only when it
/// has just sent one, and makes no second request before the answer to the first.
pub proof fn law_fetch_order(events: Seq<FetchEvent<Seq<u8>>>)
    requires
        run(FetchStage::Requesting, events) is Some,
    ensures
        has_request(events) <==> match run(FetchStage::Requesting, events)->0 {
            FetchStage::Sending | FetchStage::SendRetry | FetchStage::ReadingBody => true,
            _ => false,
        },
        run(FetchStage::Requesting, events)->0 is ReadingBody ==> events.last() == (
        FetchEvent::<Seq<u8>>::Send { ok: true }),
    decreases events.len(),
{
    if events.len() > 0 {
        law_fetch_order(events.drop_last());
    }
}

/// The number of operations that failed in `events`.
pub open spec fn failed(events: Seq<FetchEvent<Seq<u8>>>) -> nat
    decreases events.len(),
{
    if events.len() == 0 {
        0
    } else {
        failed(events.drop_last()) + (match events.last() {
            FetchEvent::Request { ok: false } | FetchEvent::Send { ok: false } => 1nat,
            _ => 0,
        })
    }
}

/// The loop waits for five seconds after each failure and for ten seconds after each
/// report, and never otherwise.
pub proof fn law_fetch_pauses(events: Seq<FetchEvent<Seq<u8>>>)
    requires
        run(FetchStage::Requesting, events) is Some,
    ensures
        slept(FetchStage::Requesting, events) + run(FetchStage::Requesting, events)->0.pause()
            == RETRY_PAUSE_MS * failed(events) + ANSWER_PAUSE_MS * told(
            FetchStage::Requesting,
            events,
        ).len(),
    decreases events.len(),
{
    if events.len() > 0 {
        law_fetch_pauses(events.drop_last());
    }
}

/// The board stops exactly when the body of an answer could not be read; whatever else
/// fails, and whatever the body holds, the loop goes on.
pub proof fn law_fetch_halts(events: Seq<FetchEvent<Seq<u8>>>)
    requires
        run(FetchStage::Requesting, events) is Some,
    ensures
        run(FetchStage::Requesting, events) == Some(FetchStage::Halted) <==> exists|i: int|
            0 <= i < events.len() && #[trigger] visited(FetchStage::Requesting, events)[i]
                == FetchStage::ReadingBody && events[i] is BodyFailed,
{
    lemma_halted(
        FetchStage::Requesting,
        events,
        FetchStage::Halted,
        |stage: FetchStage, event: FetchEvent<Seq<u8>>|
            stage == FetchStage::ReadingBody && event is BodyFailed,
    );
}

/// The loop goes on for ever, unless the board stops: every other stage has an event
/// that answers it.
pub proof fn law_fetch_never_stuck(stage: FetchStage)
    ensures
        (exists|event: FetchEvent<Seq<u8>>| #[trigger] stage.after(event) is Some) <==> !(
        stage is Halted),
{
    let witness = match stage {
        FetchStage::Requesting => FetchEvent::Request { ok: true },
        FetchStage::Sending => FetchEvent::Send { ok: true },
        FetchStage::ReadingBody => FetchEvent::Body(Seq::<u8>::empty()),
        _ => FetchEvent::Done,
    };
    assert(stage is Halted || stage.after(witness) is Some);
}

/// What the loop asks for: it requests its own URL and no other, and waits for five seconds
/// after a failure and for ten after an answer.
pub proof fn law_fetch_asks(fetch: Fetch, action: FetchAction)
    requires
        call_ensures(Fetch::action, (&fetch,), action),
    ensures
        action is Request <==> fetch.stage is Requesting,
        action matches FetchAction::Request(url) ==> url@ == fetch.url@,
        action is Send <==> fetch.stage is Sending,
        action is ReadBody <==> fetch.stage is ReadingBody,
        action is Pause <==> fetch.stage is RequestRetry || fetch.stage is SendRetry || fetch.stage
            is Resting,
        fetch.stage is RequestRetry ==> action == FetchAction::Pause(5000),
        fetch.stage is SendRetry ==> action == FetchAction::Pause(5000),
        fetch.stage is Resting ==> action == FetchAction::Pause(10_000),
        action is Halt <==> fetch.stage is Halted,
{
}

/// Every body that is text is reported whole, however long it is, and every other body is
/// reported as unreadable; either way the loop goes on to its rest.
pub proof fn law_fetch_reports_every_body(
    fetch: &mut Fetch,
    body: &[u8],
    taken: Result<Option<Report<&str>>, UnexpectedEvent>,
)
    requires
        old(fetch).stage is ReadingBody,
        call_ensures(Fetch::step, (fetch, FetchEvent::Body(body)), taken),
    ensures
        taken matches Ok(Some(_)),
        final(fetch).stage is Resting,
        valid_utf8(body@) ==> {
            &&& taken matches Ok(Some(Report::Body(text)))
            &&& text@ == decode_utf8(body@)
            &&& encode_utf8(text@) == body@
        },
        !valid_utf8(body@) ==> taken matches Ok(Some(Report::Unreadable)),
{
    if valid_utf8(body@) {
        decode_utf8_encode_utf8(body@);
    }
}

/// Where an outcome leads: each operation is answered by its own kind of event, a failure
/// leads to a wait and from there back to the operation that failed, and nothing but a body
/// is reported. The URL never changes.
pub proof fn law_fetch_takes(
    fetch: &mut Fetch,
    event: FetchEvent<&[u8]>,
    taken: Result<Option<Report<&str>>, UnexpectedEvent>,
)
    requires
        call_ensures(Fetch::step, (fetch, event), taken),
    ensures
        final(fetch).url@ == old(fetch).url@,
        taken is Err ==> final(fetch).stage == old(fetch).stage,
        taken is Ok <==> match event {
            FetchEvent::Done => old(fetch).stage is RequestRetry || old(fetch).stage is SendRetry
                || old(fetch).stage is Resting,
            FetchEvent::Request { ok: _ } => old(fetch).stage is Requesting,
            FetchEvent::Send { ok: _ } => old(fetch).stage is Sending,
            FetchEvent::Body(_) => old(fetch).stage is ReadingBody,
            FetchEvent::BodyFailed => old(fetch).stage is ReadingBody,
        },
        taken matches Ok(Some(_)) ==> event is Body,
        taken is Ok && event is Done ==> if old(fetch).stage is SendRetry {
            final(fetch).stage is Sending
        } else {
            final(fetch).stage is Requesting
        },
        event matches FetchEvent::Request { ok } ==> (taken is Ok ==> (if ok {
            final(fetch).stage is Sending
        } else {
            final(fetch).stage is RequestRetry
        })),
        event matches FetchEvent::Send { ok } ==> (taken is Ok ==> (if ok {
            final(fetch).stage is ReadingBody
        } else {
            final(fetch).stage is SendRetry
        })),
        taken is Ok && event is BodyFailed ==> final(fetch).stage is Halted,
{
}

/// A new loop has the URL of the page, whatever its buffer held, and begins with a request.
pub proof fn law_fetch_begins<'u>(buf: &'u mut [u8; URL_BUFFER_LEN], fetch: Fetch<'u>)
    requires
        call_ensures(Fetch::new, (buf,), fetch),
    ensures
        fetch.url@
            == "http://142.250.185.115:80 GET / HTTP/1.0\r\nHost: www.mobile-j.de\r\n\r\n"@,
        fetch.stage is Requesting,
{
    lemma_url_of_the_server();
}

} // verus!

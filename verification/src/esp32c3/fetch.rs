//! The loop that fetches the page over a TCP socket.
use crate::endpoint::{remote, remote_endpoint, Endpoint};
use crate::request::{request_bytes, REQUEST};
use crate::steps::{joined, lemma_rounds, lemma_run_push, run, slept, told, Steps, UnexpectedEvent};
use vstd::prelude::*;
use vstd::utf8::{decode_utf8, decode_utf8_encode_utf8, encode_utf8, valid_utf8};

verus! {

/// The wait before an attempt to connect.
pub const CONNECT_PAUSE_MS: u64 = 1000;

/// The wait after a session that has ended.
pub const SESSION_PAUSE_MS: u64 = 10_000;

/// The time after which a silent socket is given up.
pub const SOCKET_TIMEOUT_MS: u64 = 10_000;

/// The bytes that a socket buffers, in each direction.
pub const SOCKET_BUFFER_LEN: usize = 4096;

/// The bytes that are read at a time, at most.
pub const READ_BUFFER_LEN: usize = 1024;

/// What the loop is about to do.
#[derive(Clone, Copy, Debug, PartialEq, Eq, Structural)]
pub enum FetchStage {
    Delaying,
    Connecting,
    Writing,
    Reading,
    Resting,
    /// What was read is no text: the board stops.
    Halted,
}

/// How an operation of the loop went. `B` holds the bytes that were read.
#[derive(Debug, PartialEq, Eq)]
pub enum FetchEvent<B> {
    /// The wait is over.
    Done,
    /// The attempt to connect is over.
    Connect { ok: bool },
    /// The request was written, or could not be written whole.
    Write { ok: bool },
    /// Bytes were read; no bytes mean that the server has closed the connection.
    Read(B),
    /// Nothing could be read.
    ReadFailed,
}

/// An operation that the loop asks of the socket or of the timer.
#[derive(Clone, Copy, Debug, PartialEq, Eq)]
pub enum FetchAction {
    Pause(u64),
    /// A new socket with this timeout, connected to this endpoint.
    Connect { endpoint: Endpoint, timeout_ms: u64 },
    /// All of these bytes, into the socket.
    Write(&'static [u8]),
    Read,
    /// The end of the program, as after a panic.
    Halt,
}

/// The loop.
#[derive(Clone, Copy, Debug)]
pub struct Fetch {
    pub stage: FetchStage,
}

impl<'a> FetchEvent<&'a [u8]> {
    /// The event, with the bytes by their values.
    pub open spec fn model(self) -> FetchEvent<Seq<u8>> {
        match self {
            FetchEvent::Done => FetchEvent::Done,
            FetchEvent::Connect { ok } => FetchEvent::Connect { ok },
            FetchEvent::Write { ok } => FetchEvent::Write { ok },
            FetchEvent::Read(bytes) => FetchEvent::Read(bytes@),
            FetchEvent::ReadFailed => FetchEvent::ReadFailed,
        }
    }
}

impl Steps for FetchStage {
    type Event = FetchEvent<Seq<u8>>;

    type Told = Seq<char>;

    open spec fn after(self, event: FetchEvent<Seq<u8>>) -> Option<FetchStage> {
        match (self, event) {
            (FetchStage::Delaying, FetchEvent::Done) => Some(FetchStage::Connecting),
            (FetchStage::Connecting, FetchEvent::Connect { ok: true }) => Some(
                FetchStage::Writing,
            ),
            (FetchStage::Connecting, FetchEvent::Connect { ok: false }) => Some(
                FetchStage::Delaying,
            ),
            (FetchStage::Writing, FetchEvent::Write { ok: true }) => Some(FetchStage::Reading),
            (FetchStage::Writing, FetchEvent::Write { ok: false }) => Some(FetchStage::Resting),
            (FetchStage::Reading, FetchEvent::Read(bytes)) => Some(
                if bytes.len() == 0 {
                    FetchStage::Resting
                } else if valid_utf8(bytes) {
                    FetchStage::Writing
                } else {
                    FetchStage::Halted
                },
            ),
            (FetchStage::Reading, FetchEvent::ReadFailed) => Some(FetchStage::Resting),
            (FetchStage::Resting, FetchEvent::Done) => Some(FetchStage::Delaying),
            _ => None,
        }
    }

    open spec fn pause(self) -> nat {
        match self {
            FetchStage::Delaying => CONNECT_PAUSE_MS as nat,
            FetchStage::Resting => SESSION_PAUSE_MS as nat,
            _ => 0,
        }
    }

    /// The text that the board shows: the piece of the answer that was read.
    open spec fn tells(self, event: FetchEvent<Seq<u8>>) -> Option<Seq<char>> {
        match (self, event) {
            (FetchStage::Reading, FetchEvent::Read(bytes)) => if is_text(bytes) {
                Some(decode_utf8(bytes))
            } else {
                None
            },
            _ => None,
        }
    }
}

/// Whether a piece of the answer is text that can be shown.
pub open spec fn is_text(bytes: Seq<u8>) -> bool {
    bytes.len() > 0 && valid_utf8(bytes)
}

impl Fetch {
    /// Whether this is the operation that is due.
    pub open spec fn is_due(self, action: FetchAction) -> bool {
        match self.stage {
            FetchStage::Delaying => action == FetchAction::Pause(CONNECT_PAUSE_MS),
            FetchStage::Connecting => action == (FetchAction::Connect {
                endpoint: remote(),
                timeout_ms: SOCKET_TIMEOUT_MS,
            }),
            FetchStage::Writing => {
                &&& action matches FetchAction::Write(bytes)
                &&& bytes@ == encode_utf8(REQUEST@)
            },
            FetchStage::Reading => action == FetchAction::Read,
            FetchStage::Resting => action == FetchAction::Pause(SESSION_PAUSE_MS),
            FetchStage::Halted => action == FetchAction::Halt,
        }
    }

    /// The loop at its start.
    pub fn new() -> (fetch: Fetch)
        ensures
            fetch.stage == FetchStage::Delaying,
    {
        Fetch { stage: FetchStage::Delaying }
    }

    /// The operation that is due.
    pub fn action(&self) -> (action: FetchAction)
        ensures
            self.is_due(action),
            self.stage.pause() == (match action {
                FetchAction::Pause(ms) => ms as nat,
                _ => 0,
            }),
    {
        match self.stage {
            FetchStage::Delaying => FetchAction::Pause(CONNECT_PAUSE_MS),
            FetchStage::Connecting => FetchAction::Connect {
                endpoint: remote_endpoint(),
                timeout_ms: SOCKET_TIMEOUT_MS,
            },
            FetchStage::Writing => FetchAction::Write(request_bytes()),
            FetchStage::Reading => FetchAction::Read,
            FetchStage::Resting => FetchAction::Pause(SESSION_PAUSE_MS),
            FetchStage::Halted => FetchAction::Halt,
        }
    }

    /// Takes the outcome of the operation that was due; hands back the text that is
    /// to be shown.
    pub fn step<'a>(&mut self, event: FetchEvent<&'a [u8]>) -> (taken: Result<
        Option<&'a str>,
        UnexpectedEvent,
    >)
        ensures
            taken is Ok <==> old(self).stage.after(event.model()) is Some,
            taken is Ok ==> Some(final(self).stage) == old(self).stage.after(event.model()),
            taken is Err ==> final(self).stage == old(self).stage,
            taken matches Ok(shown) ==> match shown {
                Some(text) => old(self).stage.tells(event.model()) == Some(text@),
                None => old(self).stage.tells(event.model()) is None,
            },
    {
        let mut shown: Option<&'a str> = None;
        let next: FetchStage = match (self.stage, event) {
            (FetchStage::Delaying, FetchEvent::Done) => FetchStage::Connecting,
            (FetchStage::Connecting, FetchEvent::Connect { ok }) => if ok {
                FetchStage::Writing
            } else {
                FetchStage::Delaying
            },
            (FetchStage::Writing, FetchEvent::Write { ok }) => if ok {
                FetchStage::Reading
            } else {
                FetchStage::Resting
            },
            (FetchStage::Reading, FetchEvent::Read(bytes)) => if bytes.len() == 0 {
                FetchStage::Resting
            } else {
                match core::str::from_utf8(bytes) {
                    Ok(text) => {
                        shown = Some(text);
                        FetchStage::Writing
                    },
                    Err(_) => FetchStage::Halted,
                }
            },
            (FetchStage::Reading, FetchEvent::ReadFailed) => FetchStage::Resting,
            (FetchStage::Resting, FetchEvent::Done) => FetchStage::Delaying,
            _ => {
                return Err(UnexpectedEvent);
            },
        };
        self.stage = next;
        Ok(shown)
    }
}

/// The ways in which a session ends.
pub enum SessionEnd {
    WriteFailed,
    Closed,
    ReadFailed,
}

/// What can come of one round of the loop.
pub enum Round {
    /// The server could not be reached.
    Refused,
    /// The server has answered with these pieces of text, until the session ended.
    Session { pieces: Seq<Seq<u8>>, end: SessionEnd },
}

/// The events of a session before its end: the request goes out before each piece.
pub open spec fn piece_events(pieces: Seq<Seq<u8>>) -> Seq<FetchEvent<Seq<u8>>>
    decreases pieces.len(),
{
    if pieces.len() == 0 {
        Seq::empty()
    } else {
        piece_events(pieces.drop_last()).push(FetchEvent::Write { ok: true }).push(
            FetchEvent::Read(pieces.last()),
        )
    }
}

/// The events with which a session ends.
pub open spec fn end_events(end: SessionEnd) -> Seq<FetchEvent<Seq<u8>>> {
    match end {
        SessionEnd::WriteFailed => seq![FetchEvent::Write { ok: false }],
        SessionEnd::Closed => seq![
            FetchEvent::Write { ok: true },
            FetchEvent::Read(Seq::empty()),
        ],
        SessionEnd::ReadFailed => seq![FetchEvent::Write { ok: true }, FetchEvent::ReadFailed],
    }
}

/// The events of one round of the loop.
pub open spec fn round_events(round: Round) -> Seq<FetchEvent<Seq<u8>>> {
    match round {
        Round::Refused => seq![FetchEvent::Done, FetchEvent::Connect { ok: false }],
        Round::Session { pieces, end } => seq![
            FetchEvent::Done,
            FetchEvent::Connect { ok: true },
        ] + piece_events(pieces) + end_events(end) + seq![FetchEvent::Done],
    }
}

/// Whether all that the server sends in a round is text.
pub open spec fn sends_text(round: Round) -> bool {
    match round {
        Round::Refused => true,
        Round::Session { pieces, end } => forall|i: int|
            0 <= i < pieces.len() ==> is_text(#[trigger] pieces[i]),
    }
}

/// What the board shows in a round: each piece, as the text that it encodes.
pub open spec fn round_texts(round: Round) -> Seq<Seq<char>> {
    match round {
        Round::Refused => Seq::empty(),
        Round::Session { pieces, end } => pieces.map_values(|piece: Seq<u8>| decode_utf8(piece)),
    }
}

/// Every round ends where it began. A refused attempt costs one second and a session
/// eleven; the board shows the pieces that were read, in order, and nothing else.
pub proof fn law_fetch_round(round: Round)
    requires
        sends_text(round),
    ensures
        run(FetchStage::Delaying, round_events(round)) == Some(FetchStage::Delaying),
        told(FetchStage::Delaying, round_events(round)) == round_texts(round),
        slept(FetchStage::Delaying, round_events(round)) == (match round {
            Round::Refused => CONNECT_PAUSE_MS as nat,
            Round::Session { .. } => (CONNECT_PAUSE_MS + SESSION_PAUSE_MS) as nat,
        }),
{
    let begin = FetchStage::Delaying;
    let connected = match round {
        Round::Refused => false,
        Round::Session { .. } => true,
    };
    let e0 = Seq::<FetchEvent<Seq<u8>>>::empty();
    let e1 = e0.push(FetchEvent::Done);
    let e2 = e1.push(FetchEvent::Connect { ok: connected });
    lemma_run_push(begin, e0, FetchEvent::Done);
    lemma_run_push(begin, e1, FetchEvent::Connect { ok: connected });
    match round {
        Round::Refused => {
            assert(round_events(round) =~= e2);
        },
        Round::Session { pieces, end } => {
            lemma_pieces(e2, pieces);
            let e3 = e2 + piece_events(pieces);
            let e4 = e3 + end_events(end);
            match end {
                SessionEnd::WriteFailed => {
                    lemma_run_push(begin, e3, FetchEvent::Write { ok: false });
                    assert(e4 =~= e3.push(FetchEvent::Write { ok: false }));
                },
                SessionEnd::Closed => {
                    let written = e3.push(FetchEvent::Write { ok: true });
                    lemma_run_push(begin, e3, FetchEvent::Write { ok: true });
                    lemma_run_push(begin, written, FetchEvent::Read(Seq::empty()));
                    assert(e4 =~= written.push(FetchEvent::Read(Seq::empty())));
                },
                SessionEnd::ReadFailed => {
                    let written = e3.push(FetchEvent::Write { ok: true });
                    lemma_run_push(begin, e3, FetchEvent::Write { ok: true });
                    lemma_run_push(begin, written, FetchEvent::ReadFailed);
                    assert(e4 =~= written.push(FetchEvent::ReadFailed));
                },
            }
            lemma_run_push(begin, e4, FetchEvent::Done);
            assert(round_events(round) =~= e4.push(FetchEvent::Done));
            assert(told(begin, round_events(round)) =~= round_texts(round));
        },
    }
}

/// The loop repeats its rounds: what the board shows is what it shows in the first
/// round, then what it shows in the second, and so on.
pub proof fn law_fetch_repeats(rounds: Seq<Round>)
    requires
        forall|i: int| 0 <= i < rounds.len() ==> sends_text(#[trigger] rounds[i]),
    ensures
        run(
            FetchStage::Delaying,
            joined(rounds.map_values(|round: Round| round_events(round))),
        ) == Some(FetchStage::Delaying),
        told(
            FetchStage::Delaying,
            joined(rounds.map_values(|round: Round| round_events(round))),
        ) == joined(rounds.map_values(|round: Round| round_texts(round))),
{
    let begin = FetchStage::Delaying;
    let events = rounds.map_values(|round: Round| round_events(round));
    let texts = rounds.map_values(|round: Round| round_texts(round));
    assert forall|i: int| 0 <= i < events.len() implies run(begin, #[trigger] events[i]) == Some(
        begin,
    ) && told(begin, events[i]) == texts[i] by {
        assert(sends_text(rounds[i]));
        law_fetch_round(rounds[i]);
    }
    lemma_rounds(begin, events);
    assert(events.map_values(|round: Seq<FetchEvent<Seq<u8>>>| told(begin, round)) =~= texts);
}

/// The pieces of a session are shown one by one, and cost no waiting.
proof fn lemma_pieces(events: Seq<FetchEvent<Seq<u8>>>, pieces: Seq<Seq<u8>>)
    requires
        run(FetchStage::Delaying, events) == Some(FetchStage::Writing),
        forall|i: int| 0 <= i < pieces.len() ==> is_text(#[trigger] pieces[i]),
    ensures
        run(FetchStage::Delaying, events + piece_events(pieces)) == Some(FetchStage::Writing),
        slept(FetchStage::Delaying, events + piece_events(pieces)) == slept(
            FetchStage::Delaying,
            events,
        ),
        told(FetchStage::Delaying, events + piece_events(pieces)) == told(
            FetchStage::Delaying,
            events,
        ) + pieces.map_values(|piece: Seq<u8>| decode_utf8(piece)),
    decreases pieces.len(),
{
    let begin = FetchStage::Delaying;
    let texts = pieces.map_values(|piece: Seq<u8>| decode_utf8(piece));
    if pieces.len() == 0 {
        assert(events + piece_events(pieces) =~= events);
        assert(told(begin, events) + texts =~= told(begin, events));
    } else {
        let before = events + piece_events(pieces.drop_last());
        let written = before.push(FetchEvent::Write { ok: true });
        lemma_pieces(events, pieces.drop_last());
        lemma_run_push(begin, before, FetchEvent::Write { ok: true });
        assert(is_text(pieces.last()));
        lemma_run_push(begin, written, FetchEvent::Read(pieces.last()));
        assert(events + piece_events(pieces) =~= written.push(FetchEvent::Read(pieces.last())));
        assert(texts =~= pieces.drop_last().map_values(|piece: Seq<u8>| decode_utf8(piece)).push(
            decode_utf8(pieces.last()),
        ));
        assert(told(begin, events + piece_events(pieces)) =~= told(begin, events) + texts);
    }
}

/// Whether `events` leave the board with an open session.
pub open spec fn in_session(events: Seq<FetchEvent<Seq<u8>>>) -> bool
    decreases events.len(),
{
    if events.len() == 0 {
        false
    } else {
        match events.last() {
            FetchEvent::Connect { ok } => ok,
            FetchEvent::Write { ok: false } | FetchEvent::ReadFailed => false,
            FetchEvent::Read(bytes) => is_text(bytes) && in_session(events.drop_last()),
            _ => in_session(events.drop_last()),
        }
    }
}

/// The board writes and reads only in a session, and a session is over exactly when
/// the server or the socket has ended it, or what came was no text. Before each read
/// the request has gone out.
pub proof fn law_fetch_uses_open_sockets(events: Seq<FetchEvent<Seq<u8>>>)
    requires
        run(FetchStage::Delaying, events) is Some,
    ensures
        in_session(events) <==> (run(FetchStage::Delaying, events)->0 is Writing || run(
            FetchStage::Delaying,
            events,
        )->0 is Reading),
        run(FetchStage::Delaying, events)->0 is Reading ==> events.last() == (
        FetchEvent::<Seq<u8>>::Write { ok: true }),
    decreases events.len(),
{
    if events.len() > 0 {
        law_fetch_uses_open_sockets(events.drop_last());
    }
}

/// The loop goes on for ever, unless the server sends bytes that are no text: then,
/// and only then, the board stops.
pub proof fn law_fetch_halts_on_garbage_only(events: Seq<FetchEvent<Seq<u8>>>)
    requires
        run(FetchStage::Delaying, events) is Some,
    ensures
        run(FetchStage::Delaying, events)->0 is Halted <==> exists|i: int|
            0 <= i < events.len() && (#[trigger] events[i] matches FetchEvent::Read(bytes)
                && bytes.len() > 0 && !valid_utf8(bytes)),
        !(run(FetchStage::Delaying, events)->0 is Halted) ==> exists|event: FetchEvent<Seq<u8>>|
            #[trigger] run(FetchStage::Delaying, events)->0.after(event) is Some,
    decreases events.len(),
{
    let stage = run(FetchStage::Delaying, events)->0;
    if events.len() > 0 {
        let before = events.drop_last();
        law_fetch_halts_on_garbage_only(before);
        assert(forall|i: int| 0 <= i < before.len() ==> before[i] == #[trigger] events[i]);
        assert(events[events.len() - 1] == events.last());
    }
    let witness = match stage {
        FetchStage::Connecting => FetchEvent::Connect { ok: true },
        FetchStage::Writing => FetchEvent::Write { ok: true },
        FetchStage::Reading => FetchEvent::ReadFailed,
        _ => FetchEvent::<Seq<u8>>::Done,
    };
    assert(stage is Halted || stage.after(witness) is Some);
}

/// The number of attempts to connect in `events`.
pub open spec fn attempts(events: Seq<FetchEvent<Seq<u8>>>) -> nat
    decreases events.len(),
{
    if events.len() == 0 {
        0
    } else {
        attempts(events.drop_last()) + (if events.last() is Connect {
            1nat
        } else {
            0
        })
    }
}

/// The number of sessions that ended in `events`.
pub open spec fn sessions_ended(events: Seq<FetchEvent<Seq<u8>>>) -> nat
    decreases events.len(),
{
    if events.len() == 0 {
        0
    } else {
        sessions_ended(events.drop_last()) + (match events.last() {
            FetchEvent::Write { ok: false } | FetchEvent::ReadFailed => 1nat,
            FetchEvent::Read(bytes) => if bytes.len() == 0 {
                1
            } else {
                0
            },
            _ => 0,
        })
    }
}

/// The loop waits for one second before each attempt to connect and for ten seconds
/// after each session, and never otherwise.
pub proof fn law_fetch_pauses(events: Seq<FetchEvent<Seq<u8>>>)
    requires
        run(FetchStage::Delaying, events) is Some,
    ensures
        slept(FetchStage::Delaying, events) == CONNECT_PAUSE_MS * (attempts(events) + (if run(
            FetchStage::Delaying,
            events,
        )->0 is Connecting {
            1nat
        } else {
            0
        })) + SESSION_PAUSE_MS * (sessions_ended(events) - (if run(
            FetchStage::Delaying,
            events,
        )->0 is Resting {
            1nat
        } else {
            0
        })),
    decreases events.len(),
{
    if events.len() > 0 {
        law_fetch_pauses(events.drop_last());
    }
}

/// A new loop begins with a wait.
pub proof fn law_fetch_begins(fetch: Fetch)
    requires
        call_ensures(Fetch::new, (), fetch),
    ensures
        fetch.stage is Delaying,
{
}

/// What the loop asks for: it connects to one server only, with a timeout of ten seconds,
/// writes one request only, and waits for one second before it connects and for ten after
/// a session.
pub proof fn law_fetch_asks(fetch: Fetch, action: FetchAction)
    requires
        call_ensures(Fetch::action, (&fetch,), action),
    ensures
        action is Pause <==> fetch.stage is Delaying || fetch.stage is Resting,
        fetch.stage is Delaying ==> action == FetchAction::Pause(1000),
        fetch.stage is Resting ==> action == FetchAction::Pause(10_000),
        action is Connect <==> fetch.stage is Connecting,
        action matches FetchAction::Connect { endpoint, timeout_ms } ==> endpoint.octets@ == seq![
            142u8,
            250,
            185,
            115,
        ] && endpoint.port == 80 && timeout_ms == 10_000,
        action is Write <==> fetch.stage is Writing,
        action matches FetchAction::Write(bytes) ==> bytes@ == encode_utf8(
            "GET / HTTP/1.0\r\nHost: www.mobile-j.de\r\n\r\n"@,
        ),
        action is Read <==> fetch.stage is Reading,
        action is Halt <==> fetch.stage is Halted,
{
}

/// Every piece of the answer that is text is shown whole, however long it is, and the
/// session goes on. The end of the answer ends the session, and bytes that are no text
/// stop the board; neither shows anything.
pub proof fn law_fetch_shows_every_text(
    fetch: &mut Fetch,
    bytes: &[u8],
    taken: Result<Option<&str>, UnexpectedEvent>,
)
    requires
        old(fetch).stage is Reading,
        call_ensures(Fetch::step, (fetch, FetchEvent::Read(bytes)), taken),
    ensures
        bytes@.len() > 0 && valid_utf8(bytes@) ==> {
            &&& taken matches Ok(Some(text))
            &&& text@ == decode_utf8(bytes@)
            &&& encode_utf8(text@) == bytes@
            &&& final(fetch).stage is Writing
        },
        bytes@.len() == 0 ==> {
            &&& taken matches Ok(None)
            &&& final(fetch).stage is Resting
        },
        bytes@.len() > 0 && !valid_utf8(bytes@) ==> {
            &&& taken matches Ok(None)
            &&& final(fetch).stage is Halted
        },
{
    if valid_utf8(bytes@) {
        decode_utf8_encode_utf8(bytes@);
    }
}

/// Where an outcome leads: each operation is answered by its own kind of event, only a
/// connection opens a session, only a failure or the end of the answer closes it, and
/// nothing but what was read is shown.
pub proof fn law_fetch_takes(
    fetch: &mut Fetch,
    event: FetchEvent<&[u8]>,
    taken: Result<Option<&str>, UnexpectedEvent>,
)
    requires
        call_ensures(Fetch::step, (fetch, event), taken),
    ensures
        taken is Err ==> final(fetch).stage == old(fetch).stage,
        taken is Ok <==> match event {
            FetchEvent::Done => old(fetch).stage is Delaying || old(fetch).stage is Resting,
            FetchEvent::Connect { ok: _ } => old(fetch).stage is Connecting,
            FetchEvent::Write { ok: _ } => old(fetch).stage is Writing,
            FetchEvent::Read(_) => old(fetch).stage is Reading,
            FetchEvent::ReadFailed => old(fetch).stage is Reading,
        },
        taken matches Ok(Some(_)) ==> event is Read,
        taken is Ok && event is Done ==> if old(fetch).stage is Delaying {
            final(fetch).stage is Connecting
        } else {
            final(fetch).stage is Delaying
        },
        event matches FetchEvent::Connect { ok } ==> (taken is Ok ==> (if ok {
            final(fetch).stage is Writing
        } else {
            final(fetch).stage is Delaying
        })),
        event matches FetchEvent::Write { ok } ==> (taken is Ok ==> (if ok {
            final(fetch).stage is Reading
        } else {
            final(fetch).stage is Resting
        })),
        taken is Ok && event is ReadFailed ==> final(fetch).stage is Resting,
{
}

} // verus!

//! Programs that consist of a start and of the work that follows it.
use crate::steps::{lemma_run_push, run, slept, told, Steps};
use vstd::prelude::*;

verus! {

/// A start, which leads to some work.
pub trait Opens: Steps {
    /// The work.
    type Work: Steps;

    /// Whether the start is through.
    spec fn is_through(self) -> bool;

    /// The stage with which the work begins.
    spec fn opened() -> Self::Work;
}

/// Something of the start, or of the work: a stage, an event or an operation.
#[derive(Debug, PartialEq, Eq)]
pub enum Phased<A, B> {
    Starting(A),
    Working(B),
}

impl<A: Opens> Steps for Phased<A, A::Work> {
    type Event = Phased<A::Event, <A::Work as Steps>::Event>;

    type Told = <A::Work as Steps>::Told;

    /// The work begins as soon as the start is through.
    open spec fn after(self, event: Self::Event) -> Option<Self> {
        match (self, event) {
            (Phased::Starting(stage), Phased::Starting(event)) => match stage.after(event) {
                Some(next) => if next.is_through() {
                    Some(Phased::Working(A::opened()))
                } else {
                    Some(Phased::Starting(next))
                },
                None => None,
            },
            (Phased::Working(stage), Phased::Working(event)) => match stage.after(event) {
                Some(next) => Some(Phased::Working(next)),
                None => None,
            },
            _ => None,
        }
    }

    open spec fn pause(self) -> nat {
        match self {
            Phased::Starting(stage) => stage.pause(),
            Phased::Working(stage) => stage.pause(),
        }
    }

    /// Only the work has something to tell.
    open spec fn tells(self, event: Self::Event) -> Option<Self::Told> {
        match (self, event) {
            (Phased::Working(stage), Phased::Working(event)) => stage.tells(event),
            _ => None,
        }
    }
}

/// The events of the start.
pub open spec fn starts<A, B>(events: Seq<Phased<A, B>>) -> Seq<A>
    decreases events.len(),
{
    if events.len() == 0 {
        Seq::empty()
    } else {
        match events.last() {
            Phased::Starting(event) => starts(events.drop_last()).push(event),
            Phased::Working(_) => starts(events.drop_last()),
        }
    }
}

/// The events of the work.
pub open spec fn works<A, B>(events: Seq<Phased<A, B>>) -> Seq<B>
    decreases events.len(),
{
    if events.len() == 0 {
        Seq::empty()
    } else {
        match events.last() {
            Phased::Starting(_) => works(events.drop_last()),
            Phased::Working(event) => works(events.drop_last()).push(event),
        }
    }
}

/// A program is its start and then its work: no event of the work comes before the start
/// is through, none of the start comes after, and what the program does, waits and tells
/// is what its two parts do.
pub proof fn lemma_phases<A: Opens>(
    begin: A,
    events: Seq<Phased<A::Event, <A::Work as Steps>::Event>>,
)
    requires
        !begin.is_through(),
        run(Phased::<A, A::Work>::Starting(begin), events) is Some,
    ensures
        events.len() == starts(events).len() + works(events).len(),
        forall|i: int|
            0 <= i < starts(events).len() ==> #[trigger] events[i] == (
            Phased::<A::Event, <A::Work as Steps>::Event>::Starting(starts(events)[i])),
        forall|i: int|
            starts(events).len() <= i < events.len() ==> #[trigger] events[i] == (
            Phased::<A::Event, <A::Work as Steps>::Event>::Working(
                works(events)[i - starts(events).len()],
            )),
        run(begin, starts(events)) is Some,
        slept(Phased::<A, A::Work>::Starting(begin), events) == slept(begin, starts(events))
            + slept(A::opened(), works(events)),
        told(Phased::<A, A::Work>::Starting(begin), events) == told(A::opened(), works(events)),
        match run(Phased::<A, A::Work>::Starting(begin), events)->0 {
            Phased::Starting(stage) => {
                &&& run(begin, starts(events)) == Some(stage)
                &&& !stage.is_through()
                &&& works(events).len() == 0
            },
            Phased::Working(stage) => {
                &&& run(begin, starts(events))->0.is_through()
                &&& run(A::opened(), works(events)) == Some(stage)
            },
        },
    decreases events.len(),
{
    if events.len() > 0 {
        let whole = Phased::<A, A::Work>::Starting(begin);
        let before = events.drop_last();
        lemma_phases(begin, before);
        assert(events =~= before.push(events.last()));
        lemma_run_push(whole, before, events.last());
        match events.last() {
            Phased::Starting(event) => {
                lemma_run_push(begin, starts(before), event);
            },
            Phased::Working(event) => {
                lemma_run_push(A::opened(), works(before), event);
            },
        }
        assert forall|i: int| 0 <= i < before.len() implies #[trigger] events[i] == before[i] by {
        }
    }
}

} // verus!

//! Programs as stages and events.
//!
//! A stage stands for one operation that a board is to perform; the event tells how
//! the operation went, and leads to the next stage.
use vstd::prelude::*;

verus! {

/// The event does not answer the operation that the stage stands for.
#[derive(Clone, Copy, Debug, PartialEq, Eq)]
pub struct UnexpectedEvent;

/// A program, seen stage by stage.
pub trait Steps: Sized {
    /// How an operation can go.
    type Event;

    /// What the program has to tell its user.
    type Told;

    /// The stage that follows when `event` answers this one; none if it does not.
    spec fn after(self, event: Self::Event) -> Option<Self>;

    /// The milliseconds for which this stage does nothing but wait.
    spec fn pause(self) -> nat;

    /// What the program tells when `event` answers this stage, if anything.
    spec fn tells(self, event: Self::Event) -> Option<Self::Told>;
}

/// The stage that `events` lead to from `start`; none if one of them is no answer.
pub open spec fn run<S: Steps>(start: S, events: Seq<S::Event>) -> Option<S>
    decreases events.len(),
{
    if events.len() == 0 {
        Some(start)
    } else {
        match run(start, events.drop_last()) {
            Some(stage) => stage.after(events.last()),
            None => None,
        }
    }
}

/// The stages that `events` answer, in order, when they are met from `start` on.
pub open spec fn visited<S: Steps>(start: S, events: Seq<S::Event>) -> Seq<S>
    decreases events.len(),
{
    if events.len() == 0 {
        Seq::empty()
    } else {
        match run(start, events.drop_last()) {
            Some(stage) => visited(start, events.drop_last()).push(stage),
            None => visited(start, events.drop_last()),
        }
    }
}

/// The milliseconds of waiting that lie behind the program after `events`.
pub open spec fn slept<S: Steps>(start: S, events: Seq<S::Event>) -> nat
    decreases events.len(),
{
    if events.len() == 0 {
        0
    } else {
        match run(start, events.drop_last()) {
            Some(stage) => slept(start, events.drop_last()) + stage.pause(),
            None => slept(start, events.drop_last()),
        }
    }
}

/// All that the program tells on `events`, in order.
pub open spec fn told<S: Steps>(start: S, events: Seq<S::Event>) -> Seq<S::Told>
    decreases events.len(),
{
    if events.len() == 0 {
        Seq::empty()
    } else {
        let before = told(start, events.drop_last());
        match run(start, events.drop_last()) {
            Some(stage) => match stage.tells(events.last()) {
                Some(tale) => before.push(tale),
                None => before,
            },
            None => before,
        }
    }
}

/// `events` and then `more` lead where `more` leads from where `events` lead.
pub proof fn lemma_run_in_two_parts<S: Steps>(
    start: S,
    events: Seq<S::Event>,
    middle: S,
    more: Seq<S::Event>,
)
    requires
        run(start, events) == Some(middle),
    ensures
        run(start, events + more) == run(middle, more),
        visited(start, events + more) == visited(start, events) + visited(middle, more),
        slept(start, events + more) == slept(start, events) + slept(middle, more),
        told(start, events + more) == told(start, events) + told(middle, more),
    decreases more.len(),
{
    if more.len() == 0 {
        assert(events + more =~= events);
    } else {
        lemma_run_in_two_parts(start, events, middle, more.drop_last());
        assert((events + more).drop_last() =~= events + more.drop_last());
        assert((events + more).last() == more.last());
    }
}

/// What one more event does.
pub proof fn lemma_run_push<S: Steps>(start: S, events: Seq<S::Event>, event: S::Event)
    requires
        run(start, events) is Some,
    ensures
        run(start, events.push(event)) == run(start, events)->0.after(event),
        visited(start, events.push(event)) == visited(start, events).push(run(start, events)->0),
        slept(start, events.push(event)) == slept(start, events) + run(start, events)->0.pause(),
        told(start, events.push(event)) == (match run(start, events)->0.tells(event) {
            Some(tale) => told(start, events).push(tale),
            None => told(start, events),
        }),
{
    assert(events.push(event).drop_last() =~= events);
}

/// What one event does.
pub proof fn lemma_run_one<S: Steps>(start: S, event: S::Event)
    ensures
        run(start, seq![event]) == start.after(event),
        visited(start, seq![event]) == seq![start],
        slept(start, seq![event]) == start.pause(),
{
    let none = Seq::<S::Event>::empty();
    assert(seq![event] =~= none.push(event));
    lemma_run_push(start, none, event);
}

/// In a run, each event has answered one stage: the one that the events before it
/// had led to.
pub proof fn lemma_visited<S: Steps>(start: S, events: Seq<S::Event>)
    requires
        run(start, events) is Some,
    ensures
        visited(start, events).len() == events.len(),
        forall|i: int|
            0 <= i < events.len() ==> Some(#[trigger] visited(start, events)[i]) == run(
                start,
                events.take(i),
            ),
    decreases events.len(),
{
    if events.len() > 0 {
        let before = events.drop_last();
        lemma_visited(start, before);
        assert forall|i: int| 0 <= i < events.len() implies Some(
            #[trigger] visited(start, events)[i],
        ) == run(start, events.take(i)) by {
            if i < before.len() {
                assert(visited(start, events)[i] == visited(start, before)[i]);
                assert(before.take(i) =~= events.take(i));
            } else {
                assert(events.take(i) =~= before);
            }
        }
    }
}

/// The parts, one behind the other.
pub open spec fn joined<A>(parts: Seq<Seq<A>>) -> Seq<A>
    decreases parts.len(),
{
    if parts.len() == 0 {
        Seq::empty()
    } else {
        joined(parts.drop_last()) + parts.last()
    }
}

/// Parts of one item each make the items.
pub proof fn lemma_joined_ones<A>(items: Seq<A>)
    ensures
        joined(items.map_values(|item: A| seq![item])) == items,
    decreases items.len(),
{
    let parts = items.map_values(|item: A| seq![item]);
    if items.len() > 0 {
        lemma_joined_ones(items.drop_last());
        assert(parts.drop_last() =~= items.drop_last().map_values(|item: A| seq![item]));
        assert(joined(parts) =~= items);
    } else {
        assert(joined(parts) =~= items);
    }
}

/// Rounds that each lead back to their start do so one behind the other too. The program
/// goes through the stages of the first, then those of the second, and so on, and tells
/// what it tells in the first, then in the second.
pub proof fn lemma_rounds<S: Steps>(start: S, rounds: Seq<Seq<S::Event>>)
    requires
        forall|i: int|
            0 <= i < rounds.len() ==> run(start, #[trigger] rounds[i]) == Some(start),
    ensures
        run(start, joined(rounds)) == Some(start),
        visited(start, joined(rounds)) == joined(
            rounds.map_values(|round: Seq<S::Event>| visited(start, round)),
        ),
        told(start, joined(rounds)) == joined(
            rounds.map_values(|round: Seq<S::Event>| told(start, round)),
        ),
    decreases rounds.len(),
{
    let stages = rounds.map_values(|round: Seq<S::Event>| visited(start, round));
    let tales = rounds.map_values(|round: Seq<S::Event>| told(start, round));
    if rounds.len() > 0 {
        let before = rounds.drop_last();
        assert forall|i: int| 0 <= i < before.len() implies run(start, #[trigger] before[i])
            == Some(start) by {
            assert(before[i] == rounds[i]);
        }
        lemma_rounds(start, before);
        assert(rounds.last() == rounds[rounds.len() - 1]);
        lemma_run_in_two_parts(start, joined(before), start, rounds.last());
        assert(stages.drop_last() =~= before.map_values(
            |round: Seq<S::Event>| visited(start, round),
        ));
        assert(tales.drop_last() =~= before.map_values(
            |round: Seq<S::Event>| told(start, round),
        ));
    }
}

/// Where some events end the program, a run has ended exactly when one of them was met.
pub proof fn lemma_halted<S: Steps>(
    start: S,
    events: Seq<S::Event>,
    halted: S,
    ends: spec_fn(S, S::Event) -> bool,
)
    requires
        start != halted,
        forall|stage: S, event: S::Event| #[trigger]
            stage.after(event) == Some(halted) <==> ends(stage, event),
        forall|event: S::Event| (#[trigger] halted.after(event)) is None,
        run(start, events) is Some,
    ensures
        run(start, events) == Some(halted) <==> exists|i: int|
            0 <= i < events.len() && ends(#[trigger] visited(start, events)[i], events[i]),
    decreases events.len(),
{
    if events.len() > 0 {
        let before = events.drop_last();
        let all = visited(start, events);
        lemma_halted(start, before, halted, ends);
        lemma_visited(start, before);
        lemma_visited(start, events);
        assert(all == visited(start, before).push(run(start, before)->0));
        assert forall|i: int| 0 <= i < before.len() implies !ends(#[trigger] all[i], events[i]) by {
            assert(all[i] == visited(start, before)[i]);
            assert(events[i] == before[i]);
        }
        assert(ends(all[events.len() - 1], events[events.len() - 1]) <==> run(start, events)
            == Some(halted));
    }
}

/// A program whose stages have an order.
pub trait Ranked: Steps {
    /// The place of this stage in the order.
    spec fn rank(self) -> nat;

    /// Whether the program can stay at the rank of this stage.
    spec fn repeats(self) -> bool;

    /// Whether the program has stopped.
    spec fn has_stopped(self) -> bool;
}

/// Whether a stage of rank `r` is among `stages`.
pub open spec fn gone_through<S: Ranked>(stages: Seq<S>, r: nat) -> bool {
    exists|i: int| 0 <= i < stages.len() && (#[trigger] stages[i]).rank() == r
}

/// Whether every step that does not stop the program goes on to the next rank, or stays
/// at a rank that can repeat.
pub open spec fn is_orderly<S: Ranked>() -> bool {
    forall|stage: S, event: S::Event|
        (#[trigger] stage.after(event)) matches Some(next) ==> {
            &&& !stage.has_stopped()
            &&& if next.has_stopped() {
                stage.rank() < next.rank()
            } else {
                ||| next.rank() == stage.rank() + 1
                ||| next.rank() == stage.rank() && next.repeats()
            }
        }
}

/// An orderly program goes through all ranks in their order, and through one that cannot
/// repeat only once.
pub proof fn lemma_ranks<S: Ranked>(start: S, events: Seq<S::Event>)
    requires
        start.rank() == 0,
        is_orderly::<S>(),
        run(start, events) is Some,
    ensures
        forall|i: int|
            0 <= i < events.len() ==> {
                let past = (#[trigger] visited(start, events)[i]).rank();
                let now = run(start, events)->0;
                past < now.rank() || past == now.rank() && now.repeats()
            },
        !run(start, events)->0.has_stopped() ==> forall|r: nat|
            r < run(start, events)->0.rank() ==> #[trigger] gone_through(
                visited(start, events),
                r,
            ),
    decreases events.len(),
{
    if events.len() > 0 {
        let before = events.drop_last();
        let all = visited(start, events);
        let last = run(start, before)->0;
        let now = run(start, events)->0;
        lemma_ranks(start, before);
        lemma_visited(start, before);
        assert(last.after(events.last()) == Some(now));
        assert(all == visited(start, before).push(last));
        assert(all[events.len() - 1] == last);
        assert forall|i: int| 0 <= i < events.len() implies (#[trigger] all[i]).rank() < now.rank()
            || all[i].rank() == now.rank() && now.repeats() by {
            if i < before.len() {
                assert(all[i] == visited(start, before)[i]);
            }
        }
        if !now.has_stopped() {
            assert forall|r: nat| r < now.rank() implies #[trigger] gone_through(all, r) by {
                if r < last.rank() {
                    let past = visited(start, before);
                    assert(gone_through(past, r));
                    let i = choose|i: int| 0 <= i < past.len() && (#[trigger] past[i]).rank() == r;
                    assert(all[i] == past[i]);
                }
            }
        }
    }
}

/// The number of stages that wait for `ms` milliseconds.
pub open spec fn pauses_of<S: Steps>(stages: Seq<S>, ms: nat) -> nat
    decreases stages.len(),
{
    if stages.len() == 0 {
        0
    } else {
        pauses_of(stages.drop_last(), ms) + (if stages.last().pause() == ms {
            1nat
        } else {
            0
        })
    }
}

} // verus!

//! The schedule of one engine: which event of the timeline is next, and what has to happen
//! before it is delivered.

use crate::clock::{
    advanced, lemma_total_grows, lemma_total_step, paced, total, ClockState, Pacer, Step,
};
use crate::event::TimelineEvent;
use vstd::prelude::*;

verus! {

/// The deltas of the events, in their order.
pub open spec fn deltas(events: Seq<TimelineEvent>) -> Seq<u64> {
    Seq::new(events.len(), |n: int| events[n].delta_of())
}

/// A timeline can be played where every event is well formed, the whole of it is no longer
/// than the clock can count, and it has no more events than can be indexed.
pub open spec fn playable(events: Seq<TimelineEvent>) -> bool {
    &&& forall|n: int| 0 <= n < events.len() ==> (#[trigger] events[n]).well_formed()
    &&& total(deltas(events)) <= u64::MAX
    &&& events.len() <= usize::MAX
}

/// Whether the timeline can be played.
pub fn is_playable(events: &Vec<TimelineEvent>) -> (ok: bool)
    ensures
        ok == playable(events@),
{
    let mut length: u64 = 0;
    let mut n: usize = 0;
    while n < events.len()
        invariant
            n <= events.len(),
            length == total(deltas(events@).take(n as int)),
            forall|m: int| 0 <= m < n ==> (#[trigger] events@[m]).well_formed(),
        decreases events.len() - n,
    {
        if !events[n].is_well_formed() {
            return false;
        }
        proof {
            lemma_total_step(deltas(events@), n as int);
            lemma_total_grows(deltas(events@), n + 1);
        }
        let delta = events[n].delta();
        if delta > u64::MAX - length {
            return false;
        }
        length = length + delta;
        n += 1;
    }
    assert(deltas(events@).take(n as int) == deltas(events@));
    true
}

/// What comes next in the playback.
#[derive(Clone, Copy, Debug, PartialEq, Eq, Structural)]
pub enum Turn {
    /// The playback is paused: sleep one poll interval and ask again.
    Poll,
    /// The engine is ahead: sleep this many nanoseconds, precisely, and ask again.
    Sleep(u128),
    /// The event with this index is due: deliver it.
    Deliver(usize),
    /// The timeline is exhausted.
    Finished,
}

/// Where one engine is in the timeline.
#[derive(Clone, Copy, Debug, PartialEq, Eq, Structural)]
pub struct Schedule {
    /// The timeline time consumed so far.
    pub pacer: Pacer,
    /// The index of the next event to deliver.
    pub next: usize,
    /// Whether that event has been paced already, so that only its delivery is left.
    pub due: bool,
}

impl Schedule {
    /// How many events have been paced: those delivered, and the one that is due.
    pub open spec fn paced_events(self) -> int {
        if self.due {
            self.next + 1
        } else {
            self.next as int
        }
    }

    /// The schedule belongs to a playable timeline, and its position in time is the sum of
    /// the deltas of the events that it has paced.
    pub open spec fn wf(self, events: Seq<TimelineEvent>) -> bool {
        &&& playable(events)
        &&& self.paced_events() <= events.len()
        &&& self.pacer.cursor == total(deltas(events).take(self.paced_events()))
    }

    /// The schedule after one turn, and the turn.
    pub open spec fn turned(
        self,
        events: Seq<TimelineEvent>,
        clock: ClockState,
        wall_elapsed: u64,
    ) -> (Schedule, Turn) {
        if self.next >= events.len() {
            (self, Turn::Finished)
        } else if self.due {
            (
                Schedule { pacer: self.pacer, next: (self.next + 1) as usize, due: false },
                Turn::Deliver(self.next),
            )
        } else {
            let delta = events[self.next as int].delta_of();
            let pacer = Pacer { cursor: advanced(self.pacer.cursor as int, delta, clock) as u64 };
            match paced(self.pacer.cursor as int, delta, clock, wall_elapsed) {
                Step::Poll => (self, Turn::Poll),
                Step::Sleep(wait) => (
                    Schedule { pacer, next: self.next, due: true },
                    Turn::Sleep(wait),
                ),
                Step::Deliver => (
                    Schedule { pacer, next: (self.next + 1) as usize, due: false },
                    Turn::Deliver(self.next),
                ),
            }
        }
    }

    /// The schedule at the start of the timeline.
    pub fn new() -> (schedule: Schedule)
        ensures
            schedule == (Schedule { pacer: Pacer { cursor: 0 }, next: 0, due: false }),
            forall|events: Seq<TimelineEvent>| playable(events) ==> #[trigger] schedule.wf(events),
    {
        let schedule = Schedule { pacer: Pacer::new(), next: 0, due: false };
        assert forall|events: Seq<TimelineEvent>| playable(events) implies #[trigger] schedule.wf(
            events,
        ) by {
            assert(deltas(events).take(0) == Seq::<u64>::empty());
        }
        schedule
    }

    /// Takes one turn. The events come in their order, each exactly once: an event is
    /// delivered at once where it has no delta or the engine is not ahead of the clock, and
    /// after one precise sleep where it is; a paused playback holds an event with a delta
    /// back. `wall_elapsed` is the time since the start of the playback.
    pub fn turn(
        &mut self,
        events: &Vec<TimelineEvent>,
        clock: &ClockState,
        wall_elapsed: u64,
    ) -> (turn: Turn)
        requires
            old(self).wf(events@),
        ensures
            (*final(self), turn) == old(self).turned(events@, *clock, wall_elapsed),
            final(self).wf(events@),
            turn matches Turn::Deliver(index) ==> index == old(self).next && index < events@.len()
                && final(self).next == index + 1,
            !(turn is Deliver) ==> final(self).next == old(self).next,
    {
        if self.next >= events.len() {
            return Turn::Finished;
        }
        let index = self.next;
        if self.due {
            self.due = false;
            self.next = index + 1;
            return Turn::Deliver(index);
        }
        let delta = events[index].delta();
        proof {
            lemma_total_step(deltas(events@), index as int);
            lemma_total_grows(deltas(events@), index + 1);
        }
        match self.pacer.begin(delta, clock, wall_elapsed) {
            Step::Poll => Turn::Poll,
            Step::Sleep(wait) => {
                self.due = true;
                Turn::Sleep(wait)
            },
            Step::Deliver => {
                self.next = index + 1;
                Turn::Deliver(index)
            },
        }
    }
}

/// The indices of the events that are delivered in a run of turns, the n-th turn under the
/// n-th clock state and at the n-th reading of the wall clock.
pub open spec fn deliveries(
    schedule: Schedule,
    events: Seq<TimelineEvent>,
    clocks: Seq<ClockState>,
    walls: Seq<u64>,
) -> Seq<usize>
    decreases clocks.len(),
{
    if clocks.len() == 0 {
        Seq::empty()
    } else {
        let (next, turn) = schedule.turned(events, clocks[0], walls[0]);
        let rest = deliveries(next, events, clocks.drop_first(), walls.drop_first());
        match turn {
            Turn::Deliver(index) => seq![index] + rest,
            _ => rest,
        }
    }
}

/// The schedule after a run of turns.
pub open spec fn after_turns(
    schedule: Schedule,
    events: Seq<TimelineEvent>,
    clocks: Seq<ClockState>,
    walls: Seq<u64>,
) -> Schedule
    decreases clocks.len(),
{
    if clocks.len() == 0 {
        schedule
    } else {
        after_turns(
            schedule.turned(events, clocks[0], walls[0]).0,
            events,
            clocks.drop_first(),
            walls.drop_first(),
        )
    }
}

/// A turn keeps the schedule in order: its position in time stays the sum of the deltas of
/// the events that it has paced.
pub proof fn lemma_turn_keeps_wf(
    schedule: Schedule,
    events: Seq<TimelineEvent>,
    clock: ClockState,
    wall_elapsed: u64,
)
    requires
        schedule.wf(events),
    ensures
        schedule.turned(events, clock, wall_elapsed).0.wf(events),
{
    if schedule.next < events.len() && !schedule.due {
        lemma_total_step(deltas(events), schedule.next as int);
        lemma_total_grows(deltas(events), schedule.next + 1);
    }
}

/// The events are delivered strictly in their order, each once: whatever the clock does
/// during a run of turns, the events delivered in it are the next ones of the timeline, one
/// after the other, and the schedule has moved on by as many.
pub proof fn lemma_deliveries_in_order(
    schedule: Schedule,
    events: Seq<TimelineEvent>,
    clocks: Seq<ClockState>,
    walls: Seq<u64>,
)
    requires
        schedule.wf(events),
        walls.len() == clocks.len(),
    ensures
        forall|k: int|
            0 <= k < deliveries(schedule, events, clocks, walls).len() ==> #[trigger] deliveries(
                schedule,
                events,
                clocks,
                walls,
            )[k] == schedule.next + k,
        after_turns(schedule, events, clocks, walls).next == schedule.next + deliveries(
            schedule,
            events,
            clocks,
            walls,
        ).len(),
        after_turns(schedule, events, clocks, walls).wf(events),
    decreases clocks.len(),
{
    if clocks.len() > 0 {
        let (next, turn) = schedule.turned(events, clocks[0], walls[0]);
        lemma_turn_keeps_wf(schedule, events, clocks[0], walls[0]);
        lemma_deliveries_in_order(next, events, clocks.drop_first(), walls.drop_first());
        let rest = deliveries(next, events, clocks.drop_first(), walls.drop_first());
        let all = deliveries(schedule, events, clocks, walls);
        assert(next.next == if turn is Deliver {
            schedule.next + 1
        } else {
            schedule.next as int
        });
        assert(turn matches Turn::Deliver(index) ==> index == schedule.next);
        assert forall|k: int| 0 <= k < all.len() implies #[trigger] all[k] == schedule.next + k by {
            if turn is Deliver {
                if k > 0 {
                    assert(all[k] == rest[k - 1]);
                }
            } else {
                assert(all[k] == rest[k]);
            }
        }
    }
}

} // verus!

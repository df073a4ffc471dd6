//! The clock model: the shared clock state, the required time, and the pacing of one engine.

use vstd::prelude::*;

verus! {

/// Length of one pause poll, in nanoseconds: a paused engine sleeps this long before it looks
/// at the pause flag again.
pub const POLL_INTERVAL: u64 = 100_000_000;

/// How far one skip-ahead moves the playback, in nanoseconds.
pub const SKIP_STEP: u64 = 3_000_000_000;

/// The clock state that the engines, the renderer and the input listener share. All times
/// are in nanoseconds.
#[derive(Clone, Copy, Debug, PartialEq, Eq, Structural)]
pub struct ClockState {
    /// Whether the playback is paused.
    pub paused: bool,
    /// The time spent paused so far, which the required time leaves out.
    pub skip_accumulated: u64,
    /// The time that the user has skipped ahead.
    pub offset: u64,
}

/// A key pressed while the playback runs.
#[derive(Clone, Copy, Debug, PartialEq, Eq, Structural)]
pub enum PlaybackKey {
    /// The key that pauses and resumes.
    TogglePause,
    /// The key that skips ahead.
    SkipAhead,
    Other,
}

/// How far an engine that has consumed the timeline up to `cursor` is ahead of the time it is
/// required to have reached: the time it has to wait before it emits. An engine that is
/// behind does not wait.
pub open spec fn wait_time(cursor: int, required: int) -> int {
    if cursor > required {
        cursor - required
    } else {
        0
    }
}

impl ClockState {
    /// The timeline time that should have elapsed once `wall_elapsed` has passed on the wall
    /// clock since the start.
    pub open spec fn required_time(self, wall_elapsed: int) -> int {
        (wall_elapsed + self.offset) - self.skip_accumulated
    }

    /// A clock that runs, with nothing skipped.
    pub fn new() -> (clock: ClockState)
        ensures
            clock == (ClockState { paused: false, skip_accumulated: 0, offset: 0 }),
    {
        ClockState { paused: false, skip_accumulated: 0, offset: 0 }
    }

    pub fn is_paused(&self) -> (paused: bool)
        ensures
            paused == self.paused,
    {
        self.paused
    }

    /// The required time at `wall_elapsed`. It is negative while more time has been spent
    /// paused than has passed and been skipped.
    pub fn required(&self, wall_elapsed: u64) -> (required: i128)
        ensures
            required == self.required_time(wall_elapsed as int),
    {
        (wall_elapsed as i128 + self.offset as i128) - self.skip_accumulated as i128
    }

    /// Pauses a running playback and resumes a paused one.
    pub fn toggle_pause(&mut self)
        ensures
            final(self).paused == !old(self).paused,
            final(self).skip_accumulated == old(self).skip_accumulated,
            final(self).offset == old(self).offset,
    {
        self.paused = !self.paused;
    }

    /// Skips ahead by one step: the required time grows by it at once, so that the engines
    /// catch up without sleeping.
    pub fn skip_ahead(&mut self)
        requires
            old(self).offset + SKIP_STEP <= u64::MAX,
        ensures
            final(self).offset == old(self).offset + SKIP_STEP,
            final(self).skip_accumulated == old(self).skip_accumulated,
            final(self).paused == old(self).paused,
    {
        self.offset = self.offset + SKIP_STEP;
    }

    /// Takes one pause poll out of the required time. The display engine calls this after
    /// each poll that it has slept while paused.
    pub fn absorb_poll(&mut self)
        requires
            old(self).skip_accumulated + POLL_INTERVAL <= u64::MAX,
        ensures
            final(self).skip_accumulated == old(self).skip_accumulated + POLL_INTERVAL,
            final(self).offset == old(self).offset,
            final(self).paused == old(self).paused,
    {
        self.skip_accumulated = self.skip_accumulated + POLL_INTERVAL;
    }

    /// Applies a key of the input listener to the clock: the pause key toggles the pause,
    /// the skip key skips one step ahead, and any other key changes nothing.
    pub fn press(&mut self, key: PlaybackKey)
        requires
            key is SkipAhead ==> old(self).offset + SKIP_STEP <= u64::MAX,
        ensures
            final(self).skip_accumulated == old(self).skip_accumulated,
            final(self).paused == if key is TogglePause {
                !old(self).paused
            } else {
                old(self).paused
            },
            final(self).offset == if key is SkipAhead {
                old(self).offset + SKIP_STEP
            } else {
                old(self).offset as int
            },
    {
        match key {
            PlaybackKey::TogglePause => self.toggle_pause(),
            PlaybackKey::SkipAhead => self.skip_ahead(),
            PlaybackKey::Other => {},
        }
    }
}

/// What the driver of an engine has to do before it hands the pending event to the sink.
#[derive(Clone, Copy, Debug, PartialEq, Eq, Structural)]
pub enum Step {
    /// The playback is paused: sleep one poll interval and ask again for the same event.
    Poll,
    /// The engine is ahead: sleep this many nanoseconds, precisely, then deliver.
    Sleep(u128),
    /// The engine is on time or behind: deliver at once.
    Deliver,
}

/// The timeline position after an event with `delta` has been taken up under `clock`. An
/// event without delta is never paced, and a paused clock holds the position.
pub open spec fn advanced(cursor: int, delta: u64, clock: ClockState) -> int {
    if delta != 0 && !clock.paused {
        cursor + delta
    } else {
        cursor
    }
}

/// What is to be done for an event with `delta` at the position `cursor`, when `wall_elapsed`
/// has passed since the start.
pub open spec fn paced(cursor: int, delta: u64, clock: ClockState, wall_elapsed: u64) -> Step {
    if delta == 0 {
        Step::Deliver
    } else if clock.paused {
        Step::Poll
    } else {
        let wait = wait_time(cursor + delta, clock.required_time(wall_elapsed as int));
        if wait > 0 {
            Step::Sleep(wait as u128)
        } else {
            Step::Deliver
        }
    }
}

/// The pacing state of one engine: how much timeline time it has consumed, in nanoseconds.
#[derive(Clone, Copy, Debug, PartialEq, Eq, Structural)]
pub struct Pacer {
    pub cursor: u64,
}

impl Pacer {
    /// A pacer at the start of the timeline.
    pub fn new() -> (pacer: Pacer)
        ensures
            pacer.cursor == 0,
    {
        Pacer { cursor: 0 }
    }

    /// Takes up the event that comes `delta` after the last one and says what has to happen
    /// before it is delivered. `wall_elapsed` is the time since the start of the playback.
    pub fn begin(&mut self, delta: u64, clock: &ClockState, wall_elapsed: u64) -> (step: Step)
        requires
            delta != 0 && !clock.paused ==> old(self).cursor + delta <= u64::MAX,
        ensures
            final(self).cursor == advanced(old(self).cursor as int, delta, *clock),
            step == paced(old(self).cursor as int, delta, *clock, wall_elapsed),
    {
        if delta == 0 {
            return Step::Deliver;
        }
        if clock.paused {
            return Step::Poll;
        }
        self.cursor = self.cursor + delta;
        let ahead: i128 = self.cursor as i128 - clock.required(wall_elapsed);
        if ahead > 0 {
            Step::Sleep(ahead as u128)
        } else {
            Step::Deliver
        }
    }
}

/// The sum of the deltas.
pub open spec fn total(deltas: Seq<u64>) -> int
    decreases deltas.len(),
{
    if deltas.len() == 0 {
        0
    } else {
        total(deltas.drop_last()) + deltas.last()
    }
}

/// The sum of the first `n + 1` deltas is the sum of the first `n` and the one after them.
pub proof fn lemma_total_step(deltas: Seq<u64>, n: int)
    requires
        0 <= n < deltas.len(),
    ensures
        total(deltas.take(n + 1)) == total(deltas.take(n)) + deltas[n],
{
    assert(deltas.take(n + 1).drop_last() == deltas.take(n));
}

/// The sum of the first deltas is at most the sum of all.
pub proof fn lemma_total_grows(deltas: Seq<u64>, n: int)
    requires
        0 <= n <= deltas.len(),
    ensures
        0 <= total(deltas.take(n)) <= total(deltas),
    decreases deltas.len() - n,
{
    if n == deltas.len() {
        assert(deltas.take(n) == deltas);
        lemma_total_not_negative(deltas);
    } else {
        lemma_total_step(deltas, n);
        lemma_total_grows(deltas, n + 1);
        lemma_total_not_negative(deltas.take(n));
    }
}

proof fn lemma_total_not_negative(deltas: Seq<u64>)
    ensures
        0 <= total(deltas),
    decreases deltas.len(),
{
    if deltas.len() > 0 {
        lemma_total_not_negative(deltas.drop_last());
    }
}

/// The timeline position after the events with these deltas have been taken up one after the
/// other, the n-th of them under the n-th clock state.
pub open spec fn cursor_after(cursor: int, deltas: Seq<u64>, clocks: Seq<ClockState>) -> int
    decreases deltas.len(),
{
    if deltas.len() == 0 {
        cursor
    } else {
        advanced(
            cursor_after(cursor, deltas.drop_last(), clocks.drop_last()),
            deltas.last(),
            clocks.last(),
        )
    }
}

/// The position of an engine is the sum of the deltas of the events it has taken up, exactly:
/// neither the offset, nor the time spent paused, nor how late the engine runs enters into it.
pub proof fn lemma_cursor_is_sum_of_deltas(deltas: Seq<u64>, clocks: Seq<ClockState>)
    requires
        clocks.len() == deltas.len(),
        forall|n: int| 0 <= n < clocks.len() ==> !(#[trigger] clocks[n]).paused,
    ensures
        cursor_after(0, deltas, clocks) == total(deltas),
    decreases deltas.len(),
{
    if deltas.len() > 0 {
        lemma_cursor_is_sum_of_deltas(deltas.drop_last(), clocks.drop_last());
        assert(!clocks[clocks.len() - 1].paused);
    }
}

/// A pause is left out of the required time. Where the display engine has sat out `polls`
/// polls between two readings of the wall clock, the required time has grown by the wall time
/// that passed less the length of those polls, and so by less than the wall time.
pub proof fn lemma_pause_is_left_out(
    before: ClockState,
    after: ClockState,
    polls: nat,
    wall_before: int,
    wall_after: int,
)
    requires
        after.offset == before.offset,
        after.skip_accumulated == before.skip_accumulated + polls * POLL_INTERVAL,
    ensures
        after.required_time(wall_after) - before.required_time(wall_before) == (wall_after
            - wall_before) - polls * POLL_INTERVAL,
        polls > 0 ==> after.required_time(wall_after) - before.required_time(wall_before)
            < wall_after - wall_before,
{
    assert(polls > 0 ==> polls * POLL_INTERVAL > 0) by (nonlinear_arith);
}

/// No event is delivered early. An engine that is told to sleep has, once it has slept,
/// reached exactly the position that is required by then; one that is told to deliver at
/// once is at or behind the required time.
pub proof fn lemma_delivery_is_never_early(
    cursor: u64,
    delta: u64,
    clock: ClockState,
    wall_elapsed: u64,
)
    requires
        delta != 0,
        !clock.paused,
        cursor + delta <= u64::MAX,
    ensures
        match paced(cursor as int, delta, clock, wall_elapsed) {
            Step::Sleep(wait) => wait > 0 && clock.required_time(wall_elapsed + wait) == cursor
                + delta,
            Step::Deliver => clock.required_time(wall_elapsed as int) >= cursor + delta,
            Step::Poll => false,
        },
{
}

/// A skip-ahead moves the required time forward by one step at once.
pub proof fn lemma_skip_moves_required_time(before: ClockState, after: ClockState, wall: int)
    requires
        after.offset == before.offset + SKIP_STEP,
        after.skip_accumulated == before.skip_accumulated,
    ensures
        after.required_time(wall) == before.required_time(wall) + SKIP_STEP,
{
}

} // verus!

//! The fixed-timestep clock of the frame loop, on integer nanoseconds.
//!
//! The embedding program reads the wall clock and hands each reading in; the
//! timer decides how many simulation steps fall into the frame.

use std::collections::VecDeque;
use vstd::prelude::*;

verus! {

/// How many frame times the timer averages over.
pub const NUM_FRAME_TIMES: usize = 64;

/// The longest frame that is accounted for, a quarter of a second. A longer
/// one counts as this long, so that a stall cannot ask for ever more steps.
pub const MAX_FRAME_NANOS: u64 = 250_000_000;

/// Nanoseconds in a second.
pub const NANOS_PER_SECOND: u64 = 1_000_000_000;

/// The sum of a sequence of durations.
pub open spec fn total_nanos(times: Seq<u64>) -> int
    decreases times.len(),
{
    if times.len() == 0 {
        0
    } else {
        total_nanos(times.drop_last()) + times.last()
    }
}

/// The length that a frame is accounted with: the time since the last
/// reading, nothing if the clock went backwards, at most the maximum.
pub open spec fn frame_nanos(last: u64, now: u64) -> u64 {
    if now <= last {
        0
    } else if now - last > MAX_FRAME_NANOS {
        MAX_FRAME_NANOS
    } else {
        (now - last) as u64
    }
}

/// Frames per second for a frame time, rounded down; zero for no time.
pub open spec fn rate_of(frame: u64) -> u64 {
    if frame > 0 {
        NANOS_PER_SECOND / frame
    } else {
        0
    }
}

/// What a timer is: its readings, its accumulator and its recent frames.
pub struct TimerState {
    /// The reading at which the timer was made or last reset.
    pub start: u64,
    /// The latest reading.
    pub last: u64,
    /// Time not yet consumed by a simulation step; below the timestep.
    pub accumulator: u64,
    /// The length of one simulation step.
    pub timestep: u64,
    /// The accounted lengths of the latest frames, oldest first.
    pub history: Seq<u64>,
    /// The mean of the history, rounded down.
    pub averaged: u64,
}

impl TimerState {
    /// The state after a reading `now`: the frame is accounted for, whole
    /// timesteps leave the accumulator, the frame enters the history.
    pub open spec fn ticked(self, now: u64) -> TimerState {
        let frame = frame_nanos(self.last, now);
        let history = self.history.skip(1).push(frame);
        TimerState {
            start: self.start,
            last: now,
            accumulator: ((self.accumulator + frame) % (self.timestep as int)) as u64,
            timestep: self.timestep,
            history,
            averaged: (total_nanos(history) / (NUM_FRAME_TIMES as int)) as u64,
        }
    }

    /// How many simulation steps a reading `now` asks for.
    pub open spec fn updates_due(self, now: u64) -> int {
        (self.accumulator + frame_nanos(self.last, now)) / (self.timestep as int)
    }
}

/// Accumulates frame time and drains it in whole timesteps.
#[derive(Debug)]
pub struct InterpolatingTimer {
    start: u64,
    last: u64,
    accumulator: u64,
    timestep: u64,
    frame_time_history: VecDeque<u64>,
    averaged_frame_time: u64,
}

impl View for InterpolatingTimer {
    type V = TimerState;

    closed spec fn view(&self) -> TimerState {
        TimerState {
            start: self.start,
            last: self.last,
            accumulator: self.accumulator,
            timestep: self.timestep,
            history: self.frame_time_history@,
            averaged: self.averaged_frame_time,
        }
    }
}

/// The sum of bounded durations is bounded by their number times the bound.
pub proof fn lemma_total_bounded(times: Seq<u64>, bound: u64)
    requires
        forall|i: int| 0 <= i < times.len() ==> times[i] <= bound,
    ensures
        0 <= total_nanos(times) <= times.len() * bound,
    decreases times.len(),
{
    if times.len() > 0 {
        lemma_total_bounded(times.drop_last(), bound);
        assert(times.last() <= bound);
        assert((times.len() - 1) * bound + bound == times.len() * bound) by (nonlinear_arith);
    } else {
        assert(times.len() * bound == 0) by (nonlinear_arith)
            requires
                times.len() == 0,
        ;
    }
}

impl InterpolatingTimer {
    /// Well-formedness: a positive timestep, an accumulator below it, and a
    /// full history of accounted frames with its mean.
    pub open spec fn wf(&self) -> bool {
        &&& self@.timestep > 0
        &&& self@.accumulator < self@.timestep
        &&& self@.history.len() == NUM_FRAME_TIMES
        &&& forall|i: int| 0 <= i < self@.history.len() ==> self@.history[i] <= MAX_FRAME_NANOS
        &&& self@.averaged == total_nanos(self@.history) / (NUM_FRAME_TIMES as int)
    }

    /// A timer with the given timestep, made at the reading `now`: nothing
    /// accumulated, a history of empty frames.
    pub fn new(timestep: u64, now: u64) -> (timer: InterpolatingTimer)
        requires
            timestep > 0,
        ensures
            timer.wf(),
            timer@.start == now,
            timer@.last == now,
            timer@.accumulator == 0,
            timer@.timestep == timestep,
            timer@.history == Seq::new(NUM_FRAME_TIMES as nat, |i: int| 0u64),
            timer@.averaged == 0,
    {
        let mut frame_time_history: VecDeque<u64> = VecDeque::new();
        let mut n: usize = 0;
        while n < NUM_FRAME_TIMES
            invariant
                n <= NUM_FRAME_TIMES,
                frame_time_history@ == Seq::new(n as nat, |i: int| 0u64),
                total_nanos(frame_time_history@) == 0,
            decreases NUM_FRAME_TIMES - n,
        {
            let ghost before = frame_time_history@;
            frame_time_history.push_back(0);
            n += 1;
            proof {
                assert(frame_time_history@.drop_last() == before);
                assert(frame_time_history@ == Seq::new(n as nat, |i: int| 0u64));
            }
        }
        InterpolatingTimer {
            start: now,
            last: now,
            accumulator: 0,
            timestep,
            frame_time_history,
            averaged_frame_time: 0,
        }
    }

    /// Starts over at the reading `now`: nothing accumulated. The timestep
    /// and the frame history stay.
    pub fn reset(&mut self, now: u64)
        requires
            old(self).wf(),
        ensures
            final(self).wf(),
            final(self)@ == (TimerState { start: now, last: now, accumulator: 0, ..old(self)@ }),
    {
        self.start = now;
        self.last = now;
        self.accumulator = 0;
    }

    /// The time between the start and the latest reading, in nanoseconds;
    /// nothing if the clock went backwards.
    pub fn elapsed(&self) -> (nanos: u64)
        ensures
            nanos == if self@.last >= self@.start {
                self@.last - self@.start
            } else {
                0
            },
    {
        if self.last >= self.start {
            self.last - self.start
        } else {
            0
        }
    }

    /// The length of one simulation step, in nanoseconds.
    pub fn timestep(&self) -> (nanos: u64)
        ensures
            nanos == self@.timestep,
    {
        self.timestep
    }

    /// The time accumulated and not yet consumed by a step, in nanoseconds.
    pub fn accumulator(&self) -> (nanos: u64)
        ensures
            nanos == self@.accumulator,
    {
        self.accumulator
    }

    /// The accounted length of the latest frame, in nanoseconds.
    pub fn latest_frame_time(&self) -> (nanos: u64)
        requires
            self.wf(),
        ensures
            nanos == self@.history.last(),
    {
        self.frame_time_history[NUM_FRAME_TIMES - 1]
    }

    /// The mean accounted length of the recent frames, in nanoseconds.
    pub fn averaged_frame_time(&self) -> (nanos: u64)
        ensures
            nanos == self@.averaged,
    {
        self.averaged_frame_time
    }

    /// Frames per second by the latest frame, rounded down; zero while the
    /// latest frame took no time.
    pub fn latest_frame_rate(&self) -> (rate: u64)
        requires
            self.wf(),
        ensures
            rate == rate_of(self@.history.last()),
    {
        let latest = self.frame_time_history[NUM_FRAME_TIMES - 1];
        if latest > 0 {
            NANOS_PER_SECOND / latest
        } else {
            0
        }
    }

    /// Frames per second by the mean of the recent frames, rounded down; zero
    /// while the mean is zero.
    pub fn average_frame_rate(&self) -> (rate: u64)
        ensures
            rate == rate_of(self@.averaged),
    {
        if self.averaged_frame_time > 0 {
            NANOS_PER_SECOND / self.averaged_frame_time
        } else {
            0
        }
    }

    /// Accounts for the frame that ends at the reading `now` and says how
    /// many simulation steps are due and how much time is left over towards
    /// the next one.
    pub fn tick(&mut self, now: u64) -> (due: (u32, u64))
        requires
            old(self).wf(),
        ensures
            final(self).wf(),
            final(self)@ == old(self)@.ticked(now),
            due.0 == old(self)@.updates_due(now),
            due.1 == final(self)@.accumulator,
            due.0 * old(self)@.timestep + due.1 == old(self)@.accumulator + frame_nanos(
                old(self)@.last,
                now,
            ),
    {
        let elapsed: u64 = if now > self.last {
            now - self.last
        } else {
            0
        };
        let frame: u64 = if elapsed > MAX_FRAME_NANOS {
            MAX_FRAME_NANOS
        } else {
            elapsed
        };
        self.last = now;

        let ghost before = self.frame_time_history@;
        let _ = self.frame_time_history.pop_front();
        self.frame_time_history.push_back(frame);
        let ghost history = self.frame_time_history@;
        proof {
            assert(history == before.skip(1).push(frame));
        }
        let mut sum: u64 = 0;
        let mut i: usize = 0;
        while i < NUM_FRAME_TIMES
            invariant
                i <= NUM_FRAME_TIMES,
                self.frame_time_history@ == history,
                history.len() == NUM_FRAME_TIMES,
                forall|k: int| 0 <= k < history.len() ==> history[k] <= MAX_FRAME_NANOS,
                sum == total_nanos(history.take(i as int)),
            decreases NUM_FRAME_TIMES - i,
        {
            proof {
                lemma_total_bounded(history.take(i as int), MAX_FRAME_NANOS);
                assert(history.take(i as int).len() * MAX_FRAME_NANOS <= 63 * 250_000_000)
                    by (nonlinear_arith)
                    requires
                        history.take(i as int).len() <= 63,
                ;
                assert(history.take(i + 1).drop_last() == history.take(i as int));
            }
            sum = sum + self.frame_time_history[i];
            i += 1;
        }
        proof {
            assert(history.take(NUM_FRAME_TIMES as int) == history);
        }
        self.averaged_frame_time = sum / (NUM_FRAME_TIMES as u64);

        let total: u128 = self.accumulator as u128 + frame as u128;
        let step: u128 = self.timestep as u128;
        let updates: u128 = total / step;
        let rest: u128 = total % step;
        proof {
            assert(updates <= MAX_FRAME_NANOS) by (nonlinear_arith)
                requires
                    updates == total / step,
                    step >= 1,
                    total < step + MAX_FRAME_NANOS,
            ;
            assert(updates * step + rest == total) by (nonlinear_arith)
                requires
                    updates == total / step,
                    rest == total % step,
                    step >= 1,
            ;
        }
        self.accumulator = rest as u64;
        (updates as u32, self.accumulator)
    }
}

/// A frame step count never exceeds what the accounted frame and the
/// accumulator hold: the steps taken fit in that time, and one more would
/// not. With the frame capped, so is the count.
pub proof fn lemma_updates_bounded(state: TimerState, now: u64)
    requires
        state.timestep > 0,
        state.accumulator < state.timestep,
    ensures
        0 <= state.updates_due(now),
        state.updates_due(now) * state.timestep <= state.accumulator + MAX_FRAME_NANOS,
        state.updates_due(now) <= (MAX_FRAME_NANOS as int) / (state.timestep as int) + 1,
        state.ticked(now).accumulator < state.timestep,
{
    let total = state.accumulator + frame_nanos(state.last, now);
    let step = state.timestep as int;
    assert(0 <= total / step && (total / step) * step <= total && 0 <= total % step < step)
        by (nonlinear_arith)
        requires
            step > 0,
            total >= 0,
    ;
    assert(total / step <= (MAX_FRAME_NANOS as int) / step + 1) by (nonlinear_arith)
        requires
            step > 0,
            0 <= total < step + MAX_FRAME_NANOS,
    ;
}

} // verus!

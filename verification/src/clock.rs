//! Fixed-timestep gate between the frame rate and the simulation rate.

use vstd::prelude::*;

verus! {

/// Accumulated time, in nanoseconds, that a tick is due after: 16.67 ms, one
/// sixtieth of a second to four digits.
pub const TICK_THRESHOLD_NANOS: u64 = 16_670_000;

/// True when a frame of `dt` on top of `accumulated` exceeds `threshold`.
pub open spec fn tick_due(accumulated: int, dt: int, threshold: int) -> bool {
    accumulated + dt > threshold
}

/// The debt that a frame of `dt` leaves behind: nothing if it fires, else
/// the debt so far and the frame's own time.
pub open spec fn debt_after_frame(accumulated: int, dt: int, threshold: int) -> int {
    if tick_due(accumulated, dt, threshold) {
        0
    } else {
        accumulated + dt
    }
}

/// The debt after a run of frames, the first of which meets the debt
/// `accumulated`.
pub open spec fn debt_after(accumulated: int, threshold: int, frames: Seq<int>) -> int
    decreases frames.len(),
{
    if frames.len() == 0 {
        accumulated
    } else {
        debt_after_frame(
            debt_after(accumulated, threshold, frames.drop_last()),
            frames.last(),
            threshold,
        )
    }
}

/// Number of ticks that fire in a run of frames.
pub open spec fn ticks_in(accumulated: int, threshold: int, frames: Seq<int>) -> nat
    decreases frames.len(),
{
    if frames.len() == 0 {
        0
    } else {
        ticks_in(accumulated, threshold, frames.drop_last()) + if tick_due(
            debt_after(accumulated, threshold, frames.drop_last()),
            frames.last(),
            threshold,
        ) {
            1nat
        } else {
            0nat
        }
    }
}

/// The time that a run of frames took.
pub open spec fn elapsed(frames: Seq<int>) -> int
    decreases frames.len(),
{
    if frames.len() == 0 {
        0
    } else {
        elapsed(frames.drop_last()) + frames.last()
    }
}

/// The simulation never runs ahead of the clock. A run of frames fires at
/// most one tick a frame, and every tick uses up more than a threshold of
/// the time that went by: long frames are not made up for by extra ticks,
/// and the rate of ticks stays below one per threshold.
pub proof fn lemma_rate_capped(accumulated: int, threshold: int, frames: Seq<int>)
    requires
        0 <= accumulated <= threshold,
        forall|i: int| 0 <= i < frames.len() ==> frames[i] >= 0,
    ensures
        ticks_in(accumulated, threshold, frames) <= frames.len(),
        0 <= debt_after(accumulated, threshold, frames) <= threshold,
        ticks_in(accumulated, threshold, frames) * threshold + debt_after(
            accumulated,
            threshold,
            frames,
        ) <= accumulated + elapsed(frames),
        ticks_in(accumulated, threshold, frames) > 0 ==> ticks_in(accumulated, threshold, frames)
            * threshold < accumulated + elapsed(frames),
    decreases frames.len(),
{
    if frames.len() > 0 {
        let before = frames.drop_last();
        lemma_rate_capped(accumulated, threshold, before);
        let ticks = ticks_in(accumulated, threshold, before) as int;
        assert((ticks + 1) * threshold == ticks * threshold + threshold) by (nonlinear_arith);
    }
}

/// A time debt that fires at most one tick per frame.
///
/// All times are whole nanoseconds. The accumulator never exceeds the
/// threshold: a frame either stays at or below it, or fires and clears it.
pub struct SimulationClock {
    accumulator: u64,
    threshold: u64,
}

impl SimulationClock {
    /// The debt does not exceed the threshold.
    #[verifier::type_invariant]
    pub closed spec fn wf(&self) -> bool {
        self.accumulator <= self.threshold
    }

    /// The time debt carried into the next frame.
    pub closed spec fn spec_accumulator(&self) -> u64 {
        self.accumulator
    }

    /// The debt that a frame must exceed for a tick to fire.
    pub closed spec fn spec_threshold(&self) -> u64 {
        self.threshold
    }

    /// The debt of a well-formed clock never exceeds its threshold.
    pub proof fn lemma_debt_bounded(&self)
        requires
            self.wf(),
        ensures
            self.accumulator() <= self.threshold(),
    {
    }

    /// A clock with the standard threshold and no debt.
    pub fn new() -> (clock: SimulationClock)
        ensures
            clock.wf(),
            clock.accumulator() == 0,
            clock.threshold() == TICK_THRESHOLD_NANOS,
    {
        SimulationClock { accumulator: 0, threshold: TICK_THRESHOLD_NANOS }
    }

    /// A clock with the given threshold and no debt.
    pub fn with_threshold(threshold: u64) -> (clock: SimulationClock)
        ensures
            clock.wf(),
            clock.accumulator() == 0,
            clock.threshold() == threshold,
    {
        SimulationClock { accumulator: 0, threshold }
    }

    #[verifier::when_used_as_spec(spec_accumulator)]
    pub fn accumulator(&self) -> (nanos: u64)
        ensures
            nanos == self.spec_accumulator(),
    {
        self.accumulator
    }

    #[verifier::when_used_as_spec(spec_threshold)]
    pub fn threshold(&self) -> (nanos: u64)
        ensures
            nanos == self.spec_threshold(),
    {
        self.threshold
    }

    /// Adds the frame's elapsed time to the debt and says whether a tick
    /// fires.
    ///
    /// A tick fires exactly when the debt then exceeds the threshold. Firing
    /// clears the debt: what went beyond the threshold is dropped, so one
    /// frame fires at most one tick however long it took.
    pub fn advance(&mut self, dt: u64) -> (fired: bool)
        ensures
            final(self).wf(),
            final(self).threshold() == old(self).threshold(),
            fired == tick_due(
                old(self).accumulator() as int,
                dt as int,
                old(self).threshold() as int,
            ),
            fired ==> final(self).accumulator() == 0,
            !fired ==> final(self).accumulator() == old(self).accumulator() + dt,
            final(self).accumulator() == debt_after_frame(
                old(self).accumulator() as int,
                dt as int,
                old(self).threshold() as int,
            ),
        no_unwind
    {
        proof {
            use_type_invariant(&*self);
        }
        if dt > self.threshold - self.accumulator {
            self.accumulator = 0;
            true
        } else {
            self.accumulator = self.accumulator + dt;
            false
        }
    }
}

} // verus!

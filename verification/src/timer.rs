use vstd::prelude::*;

verus! {

/// A countdown / repeating duration tracker, advanced by explicit
/// elapsed-time ticks. Time is measured in whole milliseconds.
///
/// A non-repeating timer clamps its elapsed time at the duration and stays
/// finished; a repeating timer wraps its elapsed time modulo the duration.
/// `just_finished` is edge-triggered: it is true only for the tick on which
/// the duration was reached or exceeded.
#[derive(Debug, Clone, Copy, PartialEq, Eq, Structural)]
pub struct Timer {
    pub duration_ms: u32,
    pub elapsed_ms: u32,
    pub repeating: bool,
    pub finished: bool,
    pub just_finished: bool,
}

impl Timer {
    /// A timer is well formed when its duration is positive and its elapsed
    /// time never exceeds the duration: strictly less for repeating timers,
    /// whose elapsed time wraps, and for unfinished one-shot timers, whose
    /// elapsed time only reaches the duration on finishing.
    pub open spec fn wf(self) -> bool {
        &&& self.duration_ms >= 1
        &&& if self.repeating {
                self.elapsed_ms < self.duration_ms
            } else {
                self.elapsed_ms <= self.duration_ms && (!self.finished ==> self.elapsed_ms
                    < self.duration_ms)
            }
    }

    /// The timer state after one tick of `dt` milliseconds.
    pub open spec fn tick_spec(self, dt: u32) -> Timer {
        if !self.repeating && self.finished {
            Timer { just_finished: false, ..self }
        } else {
            let total = self.elapsed_ms + dt;
            if total >= self.duration_ms {
                if self.repeating {
                    Timer {
                        elapsed_ms: (total % (self.duration_ms as int)) as u32,
                        finished: true,
                        just_finished: true,
                        ..self
                    }
                } else {
                    Timer {
                        elapsed_ms: self.duration_ms,
                        finished: true,
                        just_finished: true,
                        ..self
                    }
                }
            } else {
                Timer { elapsed_ms: total as u32, finished: false, just_finished: false, ..self }
            }
        }
    }

    /// Fresh timer with the given duration.
    pub fn new(duration_ms: u32, repeating: bool) -> (t: Timer)
        requires
            duration_ms >= 1,
        ensures
            t == (Timer {
                duration_ms,
                elapsed_ms: 0,
                repeating,
                finished: false,
                just_finished: false,
            }),
            t.wf(),
    {
        Timer { duration_ms, elapsed_ms: 0, repeating, finished: false, just_finished: false }
    }

    /// Advance the timer by `dt` milliseconds.
    pub fn tick(&mut self, dt: u32)
        requires
            old(self).wf(),
        ensures
            *final(self) == old(self).tick_spec(dt),
            final(self).wf(),
    {
        if !self.repeating && self.finished {
            self.just_finished = false;
            return;
        }
        let total: u64 = self.elapsed_ms as u64 + dt as u64;
        if total >= self.duration_ms as u64 {
            if self.repeating {
                self.elapsed_ms = (total % self.duration_ms as u64) as u32;
            } else {
                self.elapsed_ms = self.duration_ms;
            }
            self.finished = true;
            self.just_finished = true;
        } else {
            self.elapsed_ms = total as u32;
            self.finished = false;
            self.just_finished = false;
        }
    }
}

/// Total of a sequence of frame deltas, in milliseconds.
pub open spec fn total_ms(dts: Seq<u32>) -> int
    decreases dts.len(),
{
    if dts.len() == 0 {
        0
    } else {
        dts[0] + total_ms(dts.drop_first())
    }
}

/// The timer after being ticked once per frame delta, oldest first.
pub open spec fn tick_seq_spec(t: Timer, dts: Seq<u32>) -> Timer
    decreases dts.len(),
{
    if dts.len() == 0 {
        t
    } else {
        tick_seq_spec(t.tick_spec(dts[0]), dts.drop_first())
    }
}

/// A total of frame deltas is never negative.
pub proof fn lemma_total_nonneg(dts: Seq<u32>)
    ensures
        total_ms(dts) >= 0,
    decreases dts.len(),
{
    if dts.len() > 0 {
        lemma_total_nonneg(dts.drop_first());
    }
}

/// However a span of time is split into frames, a one-shot timer has
/// finished after those frames exactly when the total elapsed time has
/// reached its duration.
pub proof fn lemma_one_shot_split(t: Timer, dts: Seq<u32>)
    requires
        t.wf(),
        !t.repeating,
    ensures
        tick_seq_spec(t, dts).wf(),
        !tick_seq_spec(t, dts).repeating,
        tick_seq_spec(t, dts).finished == (t.finished || t.elapsed_ms + total_ms(dts)
            >= t.duration_ms),
    decreases dts.len(),
{
    if dts.len() > 0 {
        let t1 = t.tick_spec(dts[0]);
        assert(t1.wf() && !t1.repeating);
        lemma_one_shot_split(t1, dts.drop_first());
        lemma_total_nonneg(dts.drop_first());
        assert(tick_seq_spec(t, dts) == tick_seq_spec(t1, dts.drop_first()));
        assert(total_ms(dts) == dts[0] + total_ms(dts.drop_first()));
        assert(t1.finished == (t.finished || t.elapsed_ms + dts[0] >= t.duration_ms));
        if !t1.finished {
            assert(t1.elapsed_ms == t.elapsed_ms + dts[0]);
        }
    }
}

} // verus!

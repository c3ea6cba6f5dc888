//! Elapsed-time gate: a countdown accumulates frame deltas against a fixed
//! duration and reports `true` exactly once, on the call that first reaches
//! the duration. It does not auto-reset; every later call reports `false`.

use vstd::prelude::*;

verus! {

/// A single-use countdown over milliseconds.
#[derive(Clone, Copy, PartialEq, Eq, Structural, Debug)]
pub struct Countdown {
    /// Accumulated time, capped at `duration`.
    pub elapsed: u64,
    /// The fixed target duration.
    pub duration: u64,
    /// Whether the countdown has already fired.
    pub fired: bool,
}

/// Whether a tick of `delta` milliseconds makes `t` fire: the target is
/// reached for the first time.
pub open spec fn tick_fires(t: Countdown, delta: u64) -> bool {
    !t.fired && t.elapsed + delta >= t.duration
}

/// The countdown after a tick of `delta` milliseconds.
pub open spec fn ticked(t: Countdown, delta: u64) -> Countdown {
    Countdown {
        elapsed: if t.elapsed + delta >= t.duration {
            t.duration
        } else {
            (t.elapsed + delta) as u64
        },
        duration: t.duration,
        fired: t.fired || tick_fires(t, delta),
    }
}

impl Countdown {
    /// Accumulated time never exceeds the duration.
    pub open spec fn wf(self) -> bool {
        self.elapsed <= self.duration
    }

    /// A fresh countdown for the given duration.
    pub fn new(duration_ms: u64) -> (t: Countdown)
        ensures
            t == (Countdown { elapsed: 0u64, duration: duration_ms, fired: false }),
            t.wf(),
    {
        Countdown { elapsed: 0, duration: duration_ms, fired: false }
    }

    /// Advance by `delta_ms`. True exactly on the call whose accumulated time
    /// first reaches the duration, false on every other call.
    pub fn tick(&mut self, delta_ms: u64) -> (fired: bool)
        requires
            old(self).wf(),
        ensures
            fired == tick_fires(*old(self), delta_ms),
            *final(self) == ticked(*old(self), delta_ms),
            final(self).wf(),
    {
        let remaining = self.duration - self.elapsed;
        if delta_ms >= remaining {
            self.elapsed = self.duration;
            let fired = !self.fired;
            self.fired = true;
            fired
        } else {
            self.elapsed = self.elapsed + delta_ms;
            false
        }
    }
}

/// Advance a shared countdown by the frame's delta time; true exactly once,
/// when the accumulated time first reaches the duration.
pub fn countdown(timer: &mut Countdown, delta_ms: u64) -> (fired: bool)
    requires
        old(timer).wf(),
    ensures
        fired == tick_fires(*old(timer), delta_ms),
        *final(timer) == ticked(*old(timer), delta_ms),
        final(timer).wf(),
{
    timer.tick(delta_ms)
}

/// Total of a sequence of delta times.
pub open spec fn sum_deltas(ds: Seq<u64>) -> int
    decreases ds.len(),
{
    if ds.len() == 0 {
        0
    } else {
        ds[0] + sum_deltas(ds.drop_first())
    }
}

/// The countdown after a whole sequence of ticks.
pub open spec fn run_ticks(t: Countdown, ds: Seq<u64>) -> Countdown
    decreases ds.len(),
{
    if ds.len() == 0 {
        t
    } else {
        run_ticks(ticked(t, ds[0]), ds.drop_first())
    }
}

/// How many ticks of the sequence fire.
pub open spec fn count_fires(t: Countdown, ds: Seq<u64>) -> int
    decreases ds.len(),
{
    if ds.len() == 0 {
        0
    } else {
        (if tick_fires(t, ds[0]) {
            1int
        } else {
            0int
        }) + count_fires(ticked(t, ds[0]), ds.drop_first())
    }
}

proof fn lemma_sum_deltas_nonneg(ds: Seq<u64>)
    ensures
        sum_deltas(ds) >= 0,
    decreases ds.len(),
{
    if ds.len() > 0 {
        lemma_sum_deltas_nonneg(ds.drop_first());
    }
}

/// Once the countdown has fired, no later tick fires again.
pub proof fn lemma_fired_stays(t: Countdown, ds: Seq<u64>)
    requires
        t.fired,
    ensures
        count_fires(t, ds) == 0,
        run_ticks(t, ds).fired,
    decreases ds.len(),
{
    if ds.len() > 0 {
        lemma_fired_stays(ticked(t, ds[0]), ds.drop_first());
    }
}

/// A fresh countdown fed any sequence of delta times fires exactly once if
/// the deltas accumulate to the duration, and never otherwise: one tick
/// reports true (the one crossing the duration), every other tick reports
/// false.
pub proof fn lemma_countdown_fires_exactly_once(t: Countdown, ds: Seq<u64>)
    requires
        t.wf(),
        !t.fired,
    ensures
        count_fires(t, ds) == if ds.len() > 0 && t.elapsed + sum_deltas(ds) >= t.duration {
            1int
        } else {
            0int
        },
    decreases ds.len(),
{
    if ds.len() > 0 {
        let d = ds[0];
        let rest = ds.drop_first();
        lemma_sum_deltas_nonneg(rest);
        if tick_fires(t, d) {
            lemma_fired_stays(ticked(t, d), rest);
        } else {
            lemma_countdown_fires_exactly_once(ticked(t, d), rest);
        }
    }
}

} // verus!

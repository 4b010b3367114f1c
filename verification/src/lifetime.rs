//! Countdown timers that drive despawn-on-expiry and the idle delay.

use vstd::prelude::*;

verus! {

/// A countdown over a fixed duration, advanced by the frame time.
///
/// Elapsed time saturates at the duration, so `finished` means the
/// countdown has fully run down.
#[derive(Clone, Copy, PartialEq, Eq, Structural, Debug)]
pub struct ParticleLifetime {
    pub duration_ms: u32,
    pub elapsed_ms: u32,
}

/// `t1` is `t0` advanced by `dt_ms` milliseconds, saturating at the
/// duration.
pub open spec fn spec_ticked(t0: ParticleLifetime, t1: ParticleLifetime, dt_ms: u32) -> bool {
    &&& t1.duration_ms == t0.duration_ms
    &&& t1.elapsed_ms == if t0.elapsed_ms + dt_ms <= t0.duration_ms {
        t0.elapsed_ms + dt_ms
    } else {
        t0.duration_ms as int
    }
}

impl ParticleLifetime {
    /// Elapsed time never runs past the duration.
    pub open spec fn wf(self) -> bool {
        self.elapsed_ms <= self.duration_ms
    }

    /// The countdown has fully run down.
    pub open spec fn spec_finished(self) -> bool {
        self.elapsed_ms >= self.duration_ms
    }

    /// A fresh countdown over `duration_ms` milliseconds.
    pub fn new(duration_ms: u32) -> (t: ParticleLifetime)
        ensures
            t.duration_ms == duration_ms,
            t.elapsed_ms == 0,
            t.wf(),
    {
        ParticleLifetime { duration_ms, elapsed_ms: 0 }
    }

    pub fn finished(&self) -> (r: bool)
        ensures
            r == self.spec_finished(),
    {
        self.elapsed_ms >= self.duration_ms
    }

    /// Advances the countdown by `dt_ms`, saturating at the duration.
    pub fn tick(&mut self, dt_ms: u32)
        ensures
            spec_ticked(*old(self), *final(self), dt_ms),
            final(self).wf(),
    {
        match self.elapsed_ms.checked_add(dt_ms) {
            Some(sum) if sum <= self.duration_ms => {
                self.elapsed_ms = sum;
            }
            _ => {
                self.elapsed_ms = self.duration_ms;
            }
        }
    }

    /// Starts the countdown over.
    pub fn reset(&mut self)
        ensures
            final(self).duration_ms == old(self).duration_ms,
            final(self).elapsed_ms == 0,
            final(self).wf(),
    {
        self.elapsed_ms = 0;
    }
}

} // verus!

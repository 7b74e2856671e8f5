//! Continuous parameter smoother: a linear ramp toward a target value.
//!
//! `set` retargets and keeps gliding, `reset` jumps with no glide,
//! `set_speed_ms` configures how many samples a glide takes, and
//! `process_one` advances one sample.  Used for portamento between note
//! delay lengths and for pitch-bend smoothing.

use vstd::prelude::*;

verus! {

use crate::envelope::MAX_ENV_MS;
use crate::envelope::MAX_SAMPLE_RATE;

/// Hard bound on the magnitude of smoothed values; keeps every ramp step
/// product inside `i64`.
pub const MAX_SMOOTH_VALUE: i64 = 0x100_0000_0000;

/// Hard bound on the configured ramp length, in samples.
pub const MAX_RAMP_SAMPLES: u64 = 0x4000_0000;

pub struct Smoother {
    /// The readable per-sample output.
    pub current: i64,
    /// The value the output is gliding toward.
    pub target: i64,
    /// How many samples a freshly retargeted glide takes; `0` jumps at the
    /// next step.
    pub ramp_samples: u64,
    /// Samples left in the glide under way.
    pub steps_left: u64,
}

impl Smoother {
    pub open spec fn wf(self) -> bool {
        &&& -MAX_SMOOTH_VALUE <= self.current <= MAX_SMOOTH_VALUE
        &&& -MAX_SMOOTH_VALUE <= self.target <= MAX_SMOOTH_VALUE
        &&& self.ramp_samples <= MAX_RAMP_SAMPLES
        &&& self.steps_left <= MAX_RAMP_SAMPLES
    }

    /// The smoother after one `process_one` step: with no glide under way the
    /// output jumps to the target; otherwise it moves an even share of the
    /// remaining distance, which lands it exactly on the target at the
    /// glide's last step.
    pub open spec fn stepped(self) -> Smoother {
        if self.steps_left == 0 {
            Smoother { current: self.target, ..self }
        } else {
            let step = if self.target >= self.current {
                (self.target - self.current) / (self.steps_left as int)
            } else {
                -((self.current - self.target) / (self.steps_left as int))
            };
            Smoother {
                current: (self.current + step) as i64,
                steps_left: (self.steps_left - 1) as u64,
                ..self
            }
        }
    }

    /// A new smoother resting at `value`, jumping on retargets until a speed
    /// is configured.
    pub fn new(value: i64) -> (s: Smoother)
        requires
            -MAX_SMOOTH_VALUE <= value <= MAX_SMOOTH_VALUE,
        ensures
            s.wf(),
            s.current == value,
            s.target == value,
            s.ramp_samples == 0,
            s.steps_left == 0,
    {
        Smoother { current: value, target: value, ramp_samples: 0, steps_left: 0 }
    }

    /// Retarget and glide there over the configured ramp length.
    pub fn set(&mut self, target: i64)
        requires
            old(self).wf(),
            -MAX_SMOOTH_VALUE <= target <= MAX_SMOOTH_VALUE,
        ensures
            final(self).wf(),
            *final(self) == (Smoother {
                target,
                steps_left: old(self).ramp_samples,
                ..*old(self)
            }),
    {
        self.target = target;
        self.steps_left = self.ramp_samples;
    }

    /// Jump to `value` immediately: no glide.
    pub fn reset(&mut self, value: i64)
        requires
            old(self).wf(),
            -MAX_SMOOTH_VALUE <= value <= MAX_SMOOTH_VALUE,
        ensures
            final(self).wf(),
            *final(self) == (Smoother {
                current: value,
                target: value,
                steps_left: 0u64,
                ..*old(self)
            }),
    {
        self.current = value;
        self.target = value;
        self.steps_left = 0;
    }

    /// Configure the glide duration: `time_ms` milliseconds at `sample_rate`
    /// hertz, rounded up to whole samples.  Takes effect at the next `set`.
    pub fn set_speed_ms(&mut self, sample_rate: u32, time_ms: u32)
        requires
            old(self).wf(),
            time_ms <= MAX_ENV_MS,
            sample_rate <= MAX_SAMPLE_RATE,
        ensures
            final(self).wf(),
            *final(self) == (Smoother {
                ramp_samples: final(self).ramp_samples,
                ..*old(self)
            }),
            final(self).ramp_samples == (time_ms * sample_rate + 999) / 1000,
    {
        proof {
            assert((time_ms as u64) * (sample_rate as u64) <= 600_000_000_000u64)
                by (nonlinear_arith)
                requires
                    time_ms <= 600_000,
                    sample_rate <= 1_000_000,
            ;
        }
        let product: u64 = (time_ms as u64) * (sample_rate as u64);
        proof {
            vstd::arithmetic::div_mod::lemma_div_is_ordered(
                product + 999,
                600_000_000_999,
                1000,
            );
        }
        self.ramp_samples = (product + 999) / 1000;
    }

    /// Advance the glide by one sample.
    pub fn process_one(&mut self)
        requires
            old(self).wf(),
        ensures
            final(self).wf(),
            *final(self) == old(self).stepped(),
            final(self).current <= old(self).current || final(self).current
                <= old(self).target,
            final(self).current >= old(self).current || final(self).current
                >= old(self).target,
    {
        if self.steps_left == 0 {
            self.current = self.target;
        } else {
            let steps: u64 = self.steps_left;
            if self.target >= self.current {
                let dist: u64 = (self.target - self.current) as u64;
                let step: u64 = dist / steps;
                proof {
                    vstd::arithmetic::div_mod::lemma_div_is_ordered(
                        0,
                        dist as int,
                        steps as int,
                    );
                    vstd::arithmetic::div_mod::lemma_div_nonincreasing(
                        dist as int,
                        steps as int,
                    );
                }
                self.current = self.current + (step as i64);
            } else {
                let dist: u64 = (self.current - self.target) as u64;
                let step: u64 = dist / steps;
                proof {
                    vstd::arithmetic::div_mod::lemma_div_is_ordered(
                        0,
                        dist as int,
                        steps as int,
                    );
                    vstd::arithmetic::div_mod::lemma_div_nonincreasing(
                        dist as int,
                        steps as int,
                    );
                }
                self.current = self.current - (step as i64);
            }
            self.steps_left = steps - 1;
        }
    }

    /// The per-sample readable output.
    pub fn output(&self) -> (value: i64)
        ensures
            value == self.current,
    {
        self.current
    }
}

} // verus!

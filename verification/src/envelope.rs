//! Attack/sustain/release/off amplitude state machine.
//!
//! The envelope shapes a note's onset and decay: `attack` arms a rising ramp,
//! `release` a falling one, and `next_sample` advances the machine by one
//! audio sample and yields the current amplitude.  Amplitudes are Q16.16
//! fixed point: `FP_ONE` is full level, `0` is silence.

use vstd::prelude::*;

verus! {

use crate::FP_ONE;

/// Largest ramp length `attack` or `release` will ever produce, in samples.
/// Keeps every intermediate product of `next_sample` far below `u64::MAX`.
pub const MAX_ENV_SIZE: u64 = 0x4000_0000;

/// Longest ramp duration accepted, in milliseconds.
pub const MAX_ENV_MS: u32 = 600_000;

/// Highest sample rate accepted, in hertz.
pub const MAX_SAMPLE_RATE: u32 = 1_000_000;

#[derive(Clone, Copy, PartialEq, Eq, Structural)]
pub enum EnvelopeState {
    Attack,
    Sustain,
    Release,
    Off,
}

pub struct Envelope {
    pub state: EnvelopeState,
    /// Total number of samples in the current ramp.
    pub env_size: u64,
    /// Samples of the current ramp not yet played.
    pub samples_left: u64,
}

/// Number of samples in a ramp of `time_ms` milliseconds at `sample_rate`
/// hertz: the duration rounded up to whole samples, and at least one sample,
/// so that the amplitude formula never divides by zero.
pub open spec fn spec_ramp_samples(time_ms: u32, sample_rate: u32) -> int {
    let n = (time_ms * sample_rate + 999) / 1000;
    if n < 1 {
        1
    } else {
        n
    }
}

/// Amplitude of an attack ramp of `env_size` samples with `samples_left`
/// still to play: `(env_size - samples_left) / env_size`, in Q16.16.
pub open spec fn spec_attack_amp(env_size: int, samples_left: int) -> int {
    (env_size - samples_left) * FP_ONE / env_size
}

/// Compute the ramp length in samples: `ceil(time_ms / 1000 * sample_rate)`,
/// and at least one sample.
fn ramp_samples(time_ms: u32, sample_rate: u32) -> (size: u64)
    requires
        time_ms <= MAX_ENV_MS,
        sample_rate <= MAX_SAMPLE_RATE,
    ensures
        size == spec_ramp_samples(time_ms, sample_rate),
        1 <= size <= MAX_ENV_SIZE,
{
    proof {
        assert((time_ms as u64) * (sample_rate as u64) <= 600_000_000_000u64)
            by (nonlinear_arith)
            requires
                time_ms <= 600_000,
                sample_rate <= 1_000_000,
        ;
    }
    let product: u64 = (time_ms as u64) * (sample_rate as u64);
    proof {
        vstd::arithmetic::div_mod::lemma_div_is_ordered(
            product + 999,
            600_000_000_999,
            1000,
        );
    }
    let mut size: u64 = (product + 999) / 1000;
    if size < 1 {
        size = 1;
    }
    size
}

/// The envelope after one `next_sample` step.
pub open spec fn spec_env_stepped(e: Envelope) -> Envelope {
    match e.state {
        EnvelopeState::Attack => Envelope {
            state: if e.samples_left == 1 {
                EnvelopeState::Sustain
            } else {
                EnvelopeState::Attack
            },
            samples_left: (e.samples_left - 1) as u64,
            ..e
        },
        EnvelopeState::Release => Envelope {
            state: if e.samples_left == 1 {
                EnvelopeState::Off
            } else {
                EnvelopeState::Release
            },
            samples_left: (e.samples_left - 1) as u64,
            ..e
        },
        EnvelopeState::Sustain => e,
        EnvelopeState::Off => e,
    }
}

/// The amplitude one `next_sample` step yields: a rising share of `FP_ONE`
/// during attack, its falling mirror during release, full level in sustain
/// and silence when off.
pub open spec fn spec_env_amp(e: Envelope) -> int {
    match e.state {
        EnvelopeState::Attack => spec_attack_amp(e.env_size as int, e.samples_left - 1),
        EnvelopeState::Release => FP_ONE - spec_attack_amp(
            e.env_size as int,
            e.samples_left - 1,
        ),
        EnvelopeState::Sustain => FP_ONE as int,
        EnvelopeState::Off => 0,
    }
}

impl Envelope {
    /// Well-formedness: a running ramp always has between one and `env_size`
    /// samples left, and ramps are bounded so the amplitude arithmetic fits.
    pub open spec fn wf(self) -> bool {
        &&& self.env_size <= MAX_ENV_SIZE
        &&& self.samples_left <= self.env_size
        &&& (self.state is Attack || self.state is Release) ==> {
            &&& 1 <= self.samples_left
            &&& 1 <= self.env_size
        }
    }

    /// A fresh envelope: silent, with no timer running.
    pub fn new() -> (env: Envelope)
        ensures
            env.state is Off,
            env.env_size == 0,
            env.samples_left == 0,
            env.wf(),
    {
        Envelope { state: EnvelopeState::Off, env_size: 0, samples_left: 0 }
    }

    /// Arm a rising ramp of `time_ms` milliseconds, whatever the prior state.
    pub fn attack(&mut self, time_ms: u32, sample_rate: u32)
        requires
            time_ms <= MAX_ENV_MS,
            sample_rate <= MAX_SAMPLE_RATE,
        ensures
            final(self).state is Attack,
            final(self).env_size == spec_ramp_samples(time_ms, sample_rate),
            final(self).samples_left == final(self).env_size,
            final(self).wf(),
    {
        self.state = EnvelopeState::Attack;
        let size: u64 = ramp_samples(time_ms, sample_rate);
        self.env_size = size;
        self.samples_left = size;
    }

    /// Arm a falling ramp of `time_ms` milliseconds.  Inert while already
    /// releasing or off: a redundant release changes no field.
    pub fn release(&mut self, time_ms: u32, sample_rate: u32)
        requires
            old(self).wf(),
            time_ms <= MAX_ENV_MS,
            sample_rate <= MAX_SAMPLE_RATE,
        ensures
            (old(self).state is Release || old(self).state is Off) ==> *final(self)
                == *old(self),
            (old(self).state is Attack || old(self).state is Sustain) ==> {
                &&& final(self).state is Release
                &&& final(self).env_size == spec_ramp_samples(time_ms, sample_rate)
                &&& final(self).samples_left == final(self).env_size
            },
            final(self).wf(),
    {
        match self.state {
            EnvelopeState::Release => (),
            EnvelopeState::Off => (),
            _ => {
                self.state = EnvelopeState::Release;
                let size: u64 = ramp_samples(time_ms, sample_rate);
                self.env_size = size;
                self.samples_left = size;
            },
        }
    }

    /// Advance one sample and return the amplitude, in Q16.16.
    ///
    /// An attack ramp climbs toward `FP_ONE` and hands over to `Sustain` the
    /// moment its last sample (of exact amplitude `FP_ONE`) plays; a release
    /// ramp descends toward `0` and hands over to `Off` the moment its last
    /// sample (of exact amplitude `0`) plays.
    pub fn next_sample(&mut self) -> (amp: u64)
        requires
            old(self).wf(),
        ensures
            final(self).wf(),
            amp <= FP_ONE,
            *final(self) == spec_env_stepped(*old(self)),
            amp == spec_env_amp(*old(self)),
    {
        match self.state {
            EnvelopeState::Attack => {
                self.samples_left = self.samples_left - 1;
                if self.samples_left == 0 {
                    self.state = EnvelopeState::Sustain;
                }
                let played: u64 = self.env_size - self.samples_left;
                let amp: u64 = played * FP_ONE / self.env_size;
                proof {
                    lemma_amp_le_one(self.env_size as int, self.samples_left as int);
                }
                amp
            },
            EnvelopeState::Sustain => FP_ONE,
            EnvelopeState::Release => {
                self.samples_left = self.samples_left - 1;
                if self.samples_left == 0 {
                    self.state = EnvelopeState::Off;
                }
                let played: u64 = self.env_size - self.samples_left;
                let amp: u64 = played * FP_ONE / self.env_size;
                proof {
                    lemma_amp_le_one(self.env_size as int, self.samples_left as int);
                }
                FP_ONE - amp
            },
            EnvelopeState::Off => 0,
        }
    }

    /// The envelope is audible in every state but `Off`.
    pub fn is_playing(&self) -> (playing: bool)
        ensures
            playing == !(self.state is Off),
    {
        match self.state {
            EnvelopeState::Off => false,
            _ => true,
        }
    }

    /// Jump straight to `Sustain`, bypassing any running ramp.  Used when
    /// gliding between notes on a held voice, to avoid re-triggering attack.
    pub fn legato(&mut self)
        ensures
            final(self).state is Sustain,
            final(self).env_size == old(self).env_size,
            final(self).samples_left == old(self).samples_left,
            old(self).wf() ==> final(self).wf(),
    {
        self.state = EnvelopeState::Sustain;
    }
}

/// An attack amplitude never exceeds full level.
proof fn lemma_amp_le_one(env_size: int, samples_left: int)
    requires
        1 <= env_size,
        0 <= samples_left <= env_size,
    ensures
        0 <= spec_attack_amp(env_size, samples_left) <= FP_ONE,
{
    let played = env_size - samples_left;
    vstd::arithmetic::div_mod::lemma_div_is_ordered(
        played * FP_ONE,
        env_size * FP_ONE,
        env_size,
    );
    vstd::arithmetic::div_mod::lemma_div_multiples_vanish(FP_ONE as int, env_size);
    vstd::arithmetic::div_mod::lemma_div_pos_is_pos(played * FP_ONE, env_size);
    assert(played * FP_ONE >= 0) by (nonlinear_arith)
        requires
            played >= 0,
    ;
    assert(played * FP_ONE <= env_size * FP_ONE) by (nonlinear_arith)
        requires
            played <= env_size,
    ;
}

/// Law: within one attack ramp, consecutive amplitudes never decrease.  The
/// amplitude with `samples_left - 1` samples still to play is at least the
/// amplitude one sample earlier, with `samples_left` still to play.
pub proof fn lemma_attack_ramp_non_decreasing(env_size: int, samples_left: int)
    requires
        1 <= env_size,
        1 <= samples_left <= env_size,
    ensures
        spec_attack_amp(env_size, samples_left) <= spec_attack_amp(
            env_size,
            samples_left - 1,
        ),
{
    vstd::arithmetic::div_mod::lemma_div_is_ordered(
        (env_size - samples_left) * FP_ONE,
        (env_size - (samples_left - 1)) * FP_ONE,
        env_size,
    );
    assert((env_size - samples_left) * FP_ONE <= (env_size - (samples_left - 1))
        * FP_ONE) by (nonlinear_arith);
}

/// Law: an attack ramp ends exactly at full level.  The amplitude of the last
/// ramp sample (no samples left to play) is exactly `FP_ONE`; together with
/// `next_sample`'s contract, `env_size` calls after `attack` the output is
/// `FP_ONE` and the state is `Sustain`, whose output is also `FP_ONE`.
pub proof fn lemma_attack_ramp_ends_at_one(env_size: int)
    requires
        1 <= env_size,
    ensures
        spec_attack_amp(env_size, 0) == FP_ONE,
{
    vstd::arithmetic::div_mod::lemma_div_multiples_vanish(FP_ONE as int, env_size);
}

/// Law: within one release ramp, consecutive amplitudes never increase, and
/// the last ramp sample is exactly silent.  Together with `next_sample`'s
/// contract, a release from `Sustain` ramps from full level to `0` over
/// `env_size` calls, and `is_playing` turns false exactly at the call that
/// plays the last sample.
pub proof fn lemma_release_ramp_non_increasing(env_size: int, samples_left: int)
    requires
        1 <= env_size,
        1 <= samples_left <= env_size,
    ensures
        FP_ONE - spec_attack_amp(env_size, samples_left - 1) <= FP_ONE
            - spec_attack_amp(env_size, samples_left),
        FP_ONE - spec_attack_amp(env_size, 0) == 0,
{
    lemma_attack_ramp_non_decreasing(env_size, samples_left);
    lemma_attack_ramp_ends_at_one(env_size);
}

} // verus!

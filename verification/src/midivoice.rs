//! One polyphonic voice: a note number turned into a target delay length,
//! driven through two resampling delay lines (left/right) under one
//! amplitude envelope, with a smoother gliding the delay for portamento.
//!
//! Pitch lives in the delay length: a note `n` maps to a delay of
//! `2^((69 - n) / 12) / 440` seconds, so that reading the history back at
//! that offset transposes the regenerated signal to the note's pitch, with
//! note 69 the 440 Hz reference.  Delay lengths in seconds are carried as
//! integers scaled by `440 * 65536`, which makes the reference note's length
//! exactly representable; pitch ratios are Q16.16.

use vstd::prelude::*;

verus! {

use crate::FP_ONE;
use crate::delayline::DelayLine;
use crate::delayline::MAX_LENGTH_FP;
use crate::delayline::spec_evict;
use crate::delayline::spec_pop_last;
use crate::delayline::spec_pop_out;
use crate::envelope::Envelope;
use crate::envelope::EnvelopeState;
use crate::envelope::MAX_ENV_MS;
use crate::envelope::MAX_SAMPLE_RATE;
use crate::envelope::spec_env_amp;
use crate::envelope::spec_env_stepped;
use crate::envelope::spec_ramp_samples;
use crate::ring::MAX_RING_CAPACITY;
use crate::smoother::Smoother;

/// Upper bound on a note's delay length in scaled seconds: the lowest note
/// (five octaves under the reference) stays below it.
pub const MAX_DELAY_UNITS: u64 = 4_000_000;

/// Largest pitch-bend magnitude the voice accepts, in Q16.16 semitones.
pub const MAX_BEND_FP: i64 = 36 * 65536;

/// Upper bound on the Q16.16 pitch-bend factor: `2^3` for a bend of minus
/// three octaves, with interpolation slack.
pub const MAX_BEND_FACTOR: u64 = 0x10_0000;

/// Two raised to the power `e`.
pub open spec fn spec_pow2(e: nat) -> nat
    decreases e,
{
    if e == 0 {
        1
    } else {
        2 * spec_pow2((e - 1) as nat)
    }
}

/// The Q16.16 ratio of semitone step `r` within one octave: `2^(r/12)`,
/// rounded to the nearest Q16.16 value.
pub open spec fn spec_semitone_ratio(r: int) -> int {
    if r == 0 {
        65536
    } else if r == 1 {
        69433
    } else if r == 2 {
        73562
    } else if r == 3 {
        77936
    } else if r == 4 {
        82570
    } else if r == 5 {
        87480
    } else if r == 6 {
        92682
    } else if r == 7 {
        98193
    } else if r == 8 {
        104032
    } else if r == 9 {
        110218
    } else if r == 10 {
        116772
    } else {
        123715
    }
}

/// The delay length of note `note`, in seconds scaled by `440 * 65536`:
/// `2^((69 - note) / 12) / 440` seconds, computed from the semitone table
/// with the exponent shifted by ten octaves so it stays non-negative.
pub open spec fn spec_midi_to_seconds(note: int) -> int {
    let kp = 189 - note;
    spec_semitone_ratio(kp % 12) * spec_pow2((kp / 12) as nat) / 1024
}

/// The pitch ratio at the shifted whole semitone `s`, in Q16.16 scaled
/// eight times too high: `s` counts semitones from 36 below the centre, so
/// the true ratio at `s` is `2^((s - 36) / 12) == spec_bend_base(s) / 8`
/// within the table's rounding.
pub open spec fn spec_bend_base(s: int) -> int {
    spec_semitone_ratio(s % 12) * spec_pow2((s / 12) as nat)
}

/// The Q16.16 factor a pitch bend of `bend` (Q16.16 semitones) applies to a
/// delay length: `2^(-bend / 12)`, negated because a shorter delay path reads
/// newer history and so sounds higher.  Between whole semitones the factor is
/// interpolated linearly over the semitone table.
pub open spec fn spec_bend_factor(bend: int) -> int {
    let e = 36 * 65536 - bend;
    let s = e / 65536;
    let frac = e % 65536;
    let b0 = spec_bend_base(s);
    let b1 = spec_bend_base(s + 1);
    if b1 >= b0 {
        (b0 + (b1 - b0) * frac / 65536) / 8
    } else {
        (b0 - (b0 - b1) * frac / 65536) / 8
    }
}

/// The Q16.16 delay-line length of a smoothed delay of `units` scaled
/// seconds, bent by `bend` Q16.16 semitones, at `sr` hertz.
pub open spec fn spec_bent_length(units: int, bend: int, sr: int) -> int {
    (units * spec_bend_factor(bend) / 65536) * sr / 440
}

/// A sample scaled by a Q16.16 envelope amplitude, rounded toward zero.
pub open spec fn spec_apply_amp(s: int, amp: int) -> int {
    if s >= 0 {
        s * amp / (FP_ONE as int)
    } else {
        -((-s) * amp / (FP_ONE as int))
    }
}

/// `spec_pow2` is positive and grows with its exponent.
proof fn lemma_pow2_mono(a: nat, b: nat)
    requires
        a <= b,
    ensures
        1 <= spec_pow2(a) <= spec_pow2(b),
    decreases b,
{
    if a == b {
        lemma_pow2_pos(a);
    } else {
        lemma_pow2_mono(a, (b - 1) as nat);
    }
}

proof fn lemma_pow2_pos(e: nat)
    ensures
        spec_pow2(e) >= 1,
    decreases e,
{
    if e > 0 {
        lemma_pow2_pos((e - 1) as nat);
    }
}

/// `spec_pow2` on arguments up to sixteen, bounded by its value there.
proof fn lemma_pow2_small(e: nat)
    requires
        e <= 16,
    ensures
        spec_pow2(e) <= 65536,
        e <= 6 ==> spec_pow2(e) <= 64,
        e <= 15 ==> spec_pow2(e) <= 32768,
{
    assert(spec_pow2(6) == 64 && spec_pow2(15) == 32768 && spec_pow2(16) == 65536) by {
        reveal_with_fuel(spec_pow2, 17);
    }
    lemma_pow2_mono(e, 16);
    if e <= 6 {
        lemma_pow2_mono(e, 6);
    }
    if e <= 15 {
        lemma_pow2_mono(e, 15);
    }
}

/// Table lookup for `spec_semitone_ratio`.
fn semitone_ratio(r: u32) -> (ratio: u64)
    requires
        r < 12,
    ensures
        ratio == spec_semitone_ratio(r as int),
        65536 <= ratio <= 123715,
{
    if r == 0 {
        65536
    } else if r == 1 {
        69433
    } else if r == 2 {
        73562
    } else if r == 3 {
        77936
    } else if r == 4 {
        82570
    } else if r == 5 {
        87480
    } else if r == 6 {
        92682
    } else if r == 7 {
        98193
    } else if r == 8 {
        104032
    } else if r == 9 {
        110218
    } else if r == 10 {
        116772
    } else {
        123715
    }
}

/// Two to the power `e`, for the small exponents the pitch table needs.
fn pow2_u64(e: u32) -> (r: u64)
    requires
        e <= 16,
    ensures
        r == spec_pow2(e as nat),
        r <= 65536,
{
    let mut r: u64 = 1;
    let mut i: u32 = 0;
    while i < e
        invariant
            i <= e <= 16,
            r == spec_pow2(i as nat),
            r <= 65536,
        decreases e - i,
    {
        proof {
            lemma_pow2_small((i + 1) as nat);
        }
        r = r * 2;
        i = i + 1;
    }
    r
}

/// A share `d * frac / 65536` of a distance `d`, with `frac` at most a whole
/// Q16.16 unit, never exceeds the distance itself.
proof fn lemma_frac_share_le(d: int, frac: int)
    requires
        0 <= d,
        0 <= frac <= 65536,
    ensures
        0 <= d * frac / 65536 <= d,
{
    vstd::arithmetic::mul::lemma_mul_upper_bound(d, d, frac, 65536);
    vstd::arithmetic::div_mod::lemma_div_is_ordered(d * frac, d * 65536, 65536);
    vstd::arithmetic::div_mod::lemma_div_multiples_vanish(d, 65536);
    assert(d * frac >= 0) by (nonlinear_arith)
        requires
            d >= 0,
            frac >= 0,
    ;
    vstd::arithmetic::div_mod::lemma_div_pos_is_pos(d * frac, 65536);
}

/// The Q16.16 pitch-bend factor `2^(-bend / 12)`.
fn bend_factor(bend: i64) -> (factor: u64)
    requires
        -MAX_BEND_FP <= bend <= MAX_BEND_FP,
    ensures
        factor == spec_bend_factor(bend as int),
        factor <= MAX_BEND_FACTOR,
{
    let e: u64 = ((36 * 65536) - bend) as u64;
    let s: u32 = (e / 65536) as u32;
    let frac: u64 = e % 65536;
    proof {
        assert(e / 65536 <= 72) by {
            vstd::arithmetic::div_mod::lemma_div_is_ordered(
                e as int,
                72 * 65536int,
                65536,
            );
        }
        vstd::arithmetic::div_mod::lemma_mod_division_less_than_divisor(
            e as int,
            65536,
        );
        vstd::arithmetic::div_mod::lemma_fundamental_div_mod(e as int, 65536);
        lemma_pow2_small(((s as int) / 12) as nat);
        lemma_pow2_small((((s + 1) as int) / 12) as nat);
    }
    let r0: u64 = semitone_ratio(s % 12);
    let p0: u64 = pow2_u64(s / 12);
    let r1: u64 = semitone_ratio((s + 1) % 12);
    let p1: u64 = pow2_u64((s + 1) / 12);
    proof {
        assert((s as int) / 12 <= 6 && ((s + 1) as int) / 12 <= 6) by {
            vstd::arithmetic::div_mod::lemma_div_is_ordered(s as int, 72, 12);
            vstd::arithmetic::div_mod::lemma_div_is_ordered(s + 1, 73, 12);
        }
        vstd::arithmetic::mul::lemma_mul_upper_bound(r0 as int, 123715, p0 as int, 64);
        vstd::arithmetic::mul::lemma_mul_upper_bound(r1 as int, 123715, p1 as int, 64);
    }
    let b0: u64 = r0 * p0;
    let b1: u64 = r1 * p1;
    let interp: u64 = if b1 >= b0 {
        proof {
            lemma_frac_share_le(b1 - b0, frac as int);
        }
        b0 + (b1 - b0) * frac / 65536
    } else {
        proof {
            lemma_frac_share_le(b0 - b1, frac as int);
        }
        b0 - (b0 - b1) * frac / 65536
    };
    interp / 8
}

pub struct MidiVoice {
    /// The fixed sample rate of the processing session, in hertz.
    pub sample_rate: u32,
    /// Current note number.
    pub note: u8,
    /// Current note velocity (raw, 0 to 127).
    pub velocity: u8,
    /// Smoothed target delay, in seconds scaled by `440 * 65536`; the glide
    /// of this smoother is the portamento.
    pub target_delay: Smoother,
    /// Left-channel history.
    pub delay_l: DelayLine,
    /// Right-channel history.
    pub delay_r: DelayLine,
    /// Shared amplitude envelope, advanced once per `read`, not per channel.
    pub env: Envelope,
}

/// The voice after `stop`: the envelope armed for release, everything else
/// untouched; a voice already releasing or off is left exactly as it is.
pub open spec fn spec_released(v: MidiVoice, release_ms: u32) -> MidiVoice {
    if v.env.state is Release || v.env.state is Off {
        v
    } else {
        let ramp = spec_ramp_samples(release_ms, v.sample_rate);
        MidiVoice {
            env: Envelope {
                state: EnvelopeState::Release,
                env_size: ramp as u64,
                samples_left: ramp as u64,
            },
            ..v
        }
    }
}

/// The voice after `change_note`: new note and velocity, envelope forced to
/// `Sustain`, and the delay smoother retargeted so the pitch glides.
pub open spec fn spec_note_changed(v: MidiVoice, note: u8, velocity: u8) -> MidiVoice {
    MidiVoice {
        note,
        velocity,
        env: Envelope { state: EnvelopeState::Sustain, ..v.env },
        target_delay: Smoother {
            target: spec_midi_to_seconds(note as int) as i64,
            steps_left: v.target_delay.ramp_samples,
            ..v.target_delay
        },
        ..v
    }
}

/// How a voice before and after `play` relate: note and velocity taken, the
/// smoothed delay snapped to the note's length, both histories discarded,
/// and the attack ramp armed.
pub open spec fn spec_play_rel(
    pre: MidiVoice,
    post: MidiVoice,
    note: u8,
    velocity: u8,
    attack_ms: u32,
) -> bool {
    &&& post.sample_rate == pre.sample_rate
    &&& post.note == note
    &&& post.velocity == velocity
    &&& post.target_delay == (Smoother {
        current: spec_midi_to_seconds(note as int) as i64,
        target: spec_midi_to_seconds(note as int) as i64,
        steps_left: 0u64,
        ..pre.target_delay
    })
    &&& post.delay_l.window() == Seq::<i32>::empty()
    &&& post.delay_r.window() == Seq::<i32>::empty()
    &&& post.delay_l.last_length == 0
    &&& post.delay_r.last_length == 0
    &&& post.delay_l.cap() == pre.delay_l.cap()
    &&& post.delay_r.cap() == pre.delay_r.cap()
    &&& post.delay_l.max_speed == pre.delay_l.max_speed
    &&& post.delay_r.max_speed == pre.delay_r.max_speed
    &&& post.env.state is Attack
    &&& post.env.env_size == spec_ramp_samples(attack_ms, pre.sample_rate)
    &&& post.env.samples_left == post.env.env_size
}

impl MidiVoice {
    pub open spec fn wf(self) -> bool {
        &&& 1 <= self.sample_rate <= MAX_SAMPLE_RATE
        &&& self.env.wf()
        &&& self.delay_l.wf()
        &&& self.delay_r.wf()
        &&& self.target_delay.wf()
        &&& 0 <= self.target_delay.current <= MAX_DELAY_UNITS
        &&& 0 <= self.target_delay.target <= MAX_DELAY_UNITS
    }

    /// A fresh idle voice whose delay lines can hold `max_delay_samples` of
    /// history (plus one guard sample) and slew at most `max_speed` Q16.16
    /// samples of delay per processed sample.
    pub fn new(max_delay_samples: usize, sample_rate: u32, max_speed: u64) -> (voice:
        MidiVoice)
        requires
            max_delay_samples < MAX_RING_CAPACITY,
            1 <= sample_rate <= MAX_SAMPLE_RATE,
            max_speed <= MAX_LENGTH_FP,
        ensures
            voice.wf(),
            voice.sample_rate == sample_rate,
            voice.env.state is Off,
            voice.note == 0,
            voice.velocity == 0,
            voice.target_delay.current == 0,
            voice.target_delay.target == 0,
            voice.target_delay.ramp_samples == 0,
            voice.target_delay.steps_left == 0,
            voice.delay_l.cap() == max_delay_samples + 1,
            voice.delay_r.cap() == max_delay_samples + 1,
            voice.delay_l.window() == Seq::<i32>::empty(),
            voice.delay_r.window() == Seq::<i32>::empty(),
            voice.delay_l.max_speed == max_speed,
            voice.delay_r.max_speed == max_speed,
    {
        MidiVoice {
            sample_rate,
            note: 0,
            velocity: 0,
            target_delay: Smoother::new(0),
            delay_l: DelayLine::new(max_delay_samples, max_speed),
            delay_r: DelayLine::new(max_delay_samples, max_speed),
            env: Envelope::new(),
        }
    }

    /// The voice is audible while its envelope has not reached `Off`.
    pub fn is_playing(&self) -> (playing: bool)
        ensures
            playing == !(self.env.state is Off),
    {
        self.env.is_playing()
    }

    /// The delay length of note `note`, in seconds scaled by `440 * 65536`.
    /// Note 69 maps to exactly `1/440` of a second.
    pub fn midi_to_seconds(note: u8) -> (units: u64)
        requires
            note < 128,
        ensures
            units == spec_midi_to_seconds(note as int),
            1 <= units <= MAX_DELAY_UNITS,
    {
        let kp: u32 = 189 - (note as u32);
        proof {
            assert(5 <= kp / 12 <= 15) by {
                vstd::arithmetic::div_mod::lemma_div_is_ordered(62, kp as int, 12);
                vstd::arithmetic::div_mod::lemma_div_is_ordered(kp as int, 189, 12);
            }
            vstd::arithmetic::div_mod::lemma_mod_division_less_than_divisor(
                kp as int,
                12,
            );
            lemma_pow2_small(((kp as int) / 12) as nat);
            lemma_pow2_ge_32(((kp as int) / 12) as nat);
        }
        let ratio: u64 = semitone_ratio(kp % 12);
        let pow: u64 = pow2_u64(kp / 12);
        proof {
            vstd::arithmetic::mul::lemma_mul_upper_bound(
                ratio as int,
                123715,
                pow as int,
                32768,
            );
            vstd::arithmetic::mul::lemma_mul_inequality(65536, ratio as int, pow as int);
            vstd::arithmetic::mul::lemma_mul_inequality(32, pow as int, 65536);
        }
        let product: u64 = ratio * pow;
        let units: u64 = product / 1024;
        proof {
            vstd::arithmetic::div_mod::lemma_div_is_ordered(
                65536 * 32int,
                product as int,
                1024,
            );
            vstd::arithmetic::div_mod::lemma_div_is_ordered(
                product as int,
                123715 * 32768int,
                1024,
            );
        }
        units
    }

    /// Start a new note: set note and velocity, jump the smoothed target
    /// delay straight to the note's length (no glide), discard both delay
    /// histories so the previous note cannot bleed through, and arm the
    /// attack ramp.
    pub fn play(&mut self, note: u8, velocity: u8, attack_ms: u32)
        requires
            old(self).wf(),
            note < 128,
            attack_ms <= MAX_ENV_MS,
        ensures
            final(self).wf(),
            spec_play_rel(*old(self), *final(self), note, velocity, attack_ms),
    {
        self.note = note;
        self.velocity = velocity;
        let units: u64 = Self::midi_to_seconds(note);
        self.target_delay.reset(units as i64);
        self.delay_l.clear();
        self.delay_r.clear();
        self.env.attack(attack_ms, self.sample_rate);
    }

    /// Arm the release ramp; inert if the envelope is already releasing or
    /// off, per the envelope's own rules.
    pub fn stop(&mut self, release_ms: u32)
        requires
            old(self).wf(),
            release_ms <= MAX_ENV_MS,
        ensures
            final(self).wf(),
            *final(self) == spec_released(*old(self), release_ms),
    {
        self.env.release(release_ms, self.sample_rate);
    }

    /// The note this voice is sounding.
    pub fn get_midi_note(&self) -> (note: u8)
        ensures
            note == self.note,
    {
        self.note
    }

    /// Glide to a new note on a held voice: update note and velocity, force
    /// the envelope to `Sustain` without re-triggering the attack, and
    /// retarget the delay smoother so the pitch glides instead of jumping.
    pub fn change_note(&mut self, note: u8, velocity: u8)
        requires
            old(self).wf(),
            note < 128,
        ensures
            final(self).wf(),
            *final(self) == spec_note_changed(*old(self), note, velocity),
    {
        self.note = note;
        self.velocity = velocity;
        self.env.legato();
        let units: u64 = Self::midi_to_seconds(note);
        self.target_delay.set(units as i64);
    }

    /// Configure the portamento glide time of the delay smoother.
    pub fn set_portamento(&mut self, sample_rate: u32, portamento_ms: u32)
        requires
            old(self).wf(),
            sample_rate <= MAX_SAMPLE_RATE,
            portamento_ms <= MAX_ENV_MS,
        ensures
            final(self).wf(),
            *final(self) == (MidiVoice {
                target_delay: final(self).target_delay,
                ..*old(self)
            }),
            final(self).target_delay == (Smoother {
                ramp_samples: final(self).target_delay.ramp_samples,
                ..old(self).target_delay
            }),
            final(self).target_delay.ramp_samples == (portamento_ms * sample_rate + 999)
                / 1000,
    {
        self.target_delay.set_speed_ms(sample_rate, portamento_ms);
    }

    /// Append one feedback-mixed sample to each channel's history.
    pub fn push(&mut self, l: i32, r: i32)
        requires
            old(self).wf(),
        ensures
            final(self).wf(),
            *final(self) == (MidiVoice {
                delay_l: final(self).delay_l,
                delay_r: final(self).delay_r,
                ..*old(self)
            }),
            final(self).delay_l == (DelayLine {
                ring: final(self).delay_l.ring,
                ..old(self).delay_l
            }),
            final(self).delay_r == (DelayLine {
                ring: final(self).delay_r.ring,
                ..old(self).delay_r
            }),
            final(self).delay_l.window() == spec_evict(
                old(self).delay_l.window(),
                old(self).delay_l.cap(),
            ).push(l),
            final(self).delay_r.window() == spec_evict(
                old(self).delay_r.window(),
                old(self).delay_r.cap(),
            ).push(r),
            final(self).delay_l.cap() == old(self).delay_l.cap(),
            final(self).delay_r.cap() == old(self).delay_r.cap(),
    {
        self.delay_l.push(l);
        self.delay_r.push(r);
    }

    /// Produce one stereo output sample: advance the portamento smoother,
    /// bend the smoothed delay by the pitch bend, pop both delay lines at
    /// the bent length, and scale both channels by one envelope sample.
    pub fn read(&mut self, pitch_bend: i64) -> (out: (i32, i32))
        requires
            old(self).wf(),
            -MAX_BEND_FP <= pitch_bend <= MAX_BEND_FP,
        ensures
            final(self).wf(),
            final(self).sample_rate == old(self).sample_rate,
            final(self).note == old(self).note,
            final(self).velocity == old(self).velocity,
            final(self).target_delay == old(self).target_delay.stepped(),
            final(self).env == spec_env_stepped(old(self).env),
            ({
                let length = spec_bent_length(
                    old(self).target_delay.stepped().current as int,
                    pitch_bend as int,
                    old(self).sample_rate as int,
                );
                let amp = spec_env_amp(old(self).env);
                &&& final(self).delay_l.window() == spec_evict(
                    old(self).delay_l.window(),
                    old(self).delay_l.cap(),
                )
                &&& final(self).delay_r.window() == spec_evict(
                    old(self).delay_r.window(),
                    old(self).delay_r.cap(),
                )
                &&& final(self).delay_l.cap() == old(self).delay_l.cap()
                &&& final(self).delay_r.cap() == old(self).delay_r.cap()
                &&& final(self).delay_l.max_speed == old(self).delay_l.max_speed
                &&& final(self).delay_r.max_speed == old(self).delay_r.max_speed
                &&& final(self).delay_l.last_length == spec_pop_last(
                    old(self).delay_l.window(),
                    old(self).delay_l.cap(),
                    old(self).delay_l.last_length as int,
                    old(self).delay_l.max_speed as int,
                    length,
                )
                &&& final(self).delay_r.last_length == spec_pop_last(
                    old(self).delay_r.window(),
                    old(self).delay_r.cap(),
                    old(self).delay_r.last_length as int,
                    old(self).delay_r.max_speed as int,
                    length,
                )
                &&& out.0 == spec_apply_amp(
                    spec_pop_out(
                        old(self).delay_l.window(),
                        old(self).delay_l.cap(),
                        old(self).delay_l.last_length as int,
                        old(self).delay_l.max_speed as int,
                        length,
                    ),
                    amp,
                )
                &&& out.1 == spec_apply_amp(
                    spec_pop_out(
                        old(self).delay_r.window(),
                        old(self).delay_r.cap(),
                        old(self).delay_r.last_length as int,
                        old(self).delay_r.max_speed as int,
                        length,
                    ),
                    amp,
                )
            }),
    {
        self.target_delay.process_one();
        let units: i64 = self.target_delay.output();
        let factor: u64 = bend_factor(pitch_bend);
        proof {
            vstd::arithmetic::mul::lemma_mul_upper_bound(
                units as int,
                MAX_DELAY_UNITS as int,
                factor as int,
                MAX_BEND_FACTOR as int,
            );
            vstd::arithmetic::div_mod::lemma_div_pos_is_pos(
                units * factor,
                65536,
            );
            vstd::arithmetic::div_mod::lemma_div_is_ordered(
                units * factor,
                MAX_DELAY_UNITS * MAX_BEND_FACTOR,
                65536,
            );
        }
        let scaled: u64 = (units as u64) * factor / 65536;
        proof {
            vstd::arithmetic::mul::lemma_mul_upper_bound(
                scaled as int,
                (MAX_DELAY_UNITS * MAX_BEND_FACTOR / 65536) as int,
                self.sample_rate as int,
                MAX_SAMPLE_RATE as int,
            );
            vstd::arithmetic::div_mod::lemma_div_is_ordered(
                scaled * self.sample_rate,
                (MAX_DELAY_UNITS * MAX_BEND_FACTOR / 65536) * MAX_SAMPLE_RATE,
                440,
            );
        }
        let length: u64 = scaled * (self.sample_rate as u64) / 440;
        let l: i32 = self.delay_l.pop(length);
        let r: i32 = self.delay_r.pop(length);
        let amp: u64 = self.env.next_sample();
        (apply_amp(l, amp), apply_amp(r, amp))
    }

    /// Feed one stereo input sample into the histories, then produce one
    /// output sample: the combined per-sample step of a free-running tap.
    pub fn tick(&mut self, l: i32, r: i32, pitch_bend: i64) -> (out: (i32, i32))
        requires
            old(self).wf(),
            -MAX_BEND_FP <= pitch_bend <= MAX_BEND_FP,
        ensures
            final(self).wf(),
            final(self).sample_rate == old(self).sample_rate,
            final(self).note == old(self).note,
            final(self).velocity == old(self).velocity,
            final(self).target_delay == old(self).target_delay.stepped(),
            final(self).env == spec_env_stepped(old(self).env),
            ({
                let w_l = spec_evict(old(self).delay_l.window(), old(self).delay_l.cap()).push(
                    l,
                );
                let w_r = spec_evict(old(self).delay_r.window(), old(self).delay_r.cap()).push(
                    r,
                );
                let length = spec_bent_length(
                    old(self).target_delay.stepped().current as int,
                    pitch_bend as int,
                    old(self).sample_rate as int,
                );
                let amp = spec_env_amp(old(self).env);
                &&& final(self).delay_l.window() == spec_evict(w_l, old(self).delay_l.cap())
                &&& final(self).delay_r.window() == spec_evict(w_r, old(self).delay_r.cap())
                &&& out.0 == spec_apply_amp(
                    spec_pop_out(
                        w_l,
                        old(self).delay_l.cap(),
                        old(self).delay_l.last_length as int,
                        old(self).delay_l.max_speed as int,
                        length,
                    ),
                    amp,
                )
                &&& out.1 == spec_apply_amp(
                    spec_pop_out(
                        w_r,
                        old(self).delay_r.cap(),
                        old(self).delay_r.last_length as int,
                        old(self).delay_r.max_speed as int,
                        length,
                    ),
                    amp,
                )
            }),
    {
        self.push(l, r);
        self.read(pitch_bend)
    }
}

/// Scale a sample by a Q16.16 envelope amplitude, rounding toward zero.
fn apply_amp(s: i32, amp: u64) -> (out: i32)
    requires
        amp <= FP_ONE,
    ensures
        out == spec_apply_amp(s as int, amp as int),
{
    if s >= 0 {
        proof {
            lemma_frac_share_le(s as int, amp as int);
        }
        ((s as u64) * amp / FP_ONE) as i32
    } else {
        let mag: u64 = (-(s as i64)) as u64;
        proof {
            lemma_frac_share_le(mag as int, amp as int);
        }
        let scaled: u64 = mag * amp / FP_ONE;
        (-(scaled as i64)) as i32
    }
}

/// `spec_pow2` of an exponent of at least five is at least thirty-two.
proof fn lemma_pow2_ge_32(e: nat)
    requires
        5 <= e,
    ensures
        spec_pow2(e) >= 32,
{
    assert(spec_pow2(5) == 32) by {
        reveal_with_fuel(spec_pow2, 6);
    }
    lemma_pow2_mono(5, e);
}

/// Law: the reference pitch.  Note 69 maps to a delay of exactly `1/440` of
/// a second: its scaled length times 440 is exactly one second's scale.
pub proof fn lemma_reference_pitch()
    ensures
        spec_midi_to_seconds(69) == 65536,
        spec_midi_to_seconds(69) * 440 == 440 * 65536,
{
    assert((189 - 69int) % 12 == 0);
    assert((189 - 69int) / 12 == 10);
    assert(spec_pow2(10) == 1024) by {
        reveal_with_fuel(spec_pow2, 11);
    }
    vstd::arithmetic::div_mod::lemma_div_multiples_vanish(65536, 1024);
    assert(65536int * 1024 / 1024 == 65536);
}

} // verus!

//! The polyphonic voice bank: a fixed array of voices, shared pitch-bend
//! smoothing, the sustain pedal, and the note routing and allocation policy.
//!
//! Note-on picks a voice (the first idle one in poly mode, a glide on the
//! first playing one in mono mode), note-off releases every voice sounding
//! the note unless the sustain pedal defers it, and the per-sample mix step
//! drives every playing voice, sums the wet signal and closes the feedback
//! loop.

use vstd::prelude::*;

verus! {

use crate::FP_ONE;
use crate::delayline::spec_evict;
use crate::delayline::spec_pop_last;
use crate::delayline::spec_pop_out;
use crate::envelope::MAX_ENV_MS;
use crate::envelope::MAX_SAMPLE_RATE;
use crate::envelope::spec_env_amp;
use crate::envelope::spec_env_stepped;
use crate::midivoice::MidiVoice;
use crate::midivoice::MAX_BEND_FP;
use crate::midivoice::spec_apply_amp;
use crate::midivoice::spec_bent_length;
use crate::midivoice::spec_note_changed;
use crate::midivoice::spec_play_rel;
use crate::midivoice::spec_released;
use crate::smoother::Smoother;

/// Fixed number of voices: the maximum polyphony.
pub const MAX_POLYPHONY: usize = 16;

/// Longest delay a voice can be asked for, in milliseconds; sizes the
/// per-voice history buffers at construction.
pub const MAX_DELAY_MS: u32 = 500;

/// Glide time of the shared pitch-bend smoother, in milliseconds.
pub const PITCH_BEND_SMOOTHING_MS: u32 = 50;

/// Rate limit handed to every voice delay line: at most two Q16.16 samples
/// of delay change per processed sample.
pub const DELAY_SLEW: u64 = 2 * 65536;

/// Largest accepted pitch-bend range, in Q16.16 semitones (two octaves).
pub const MAX_BEND_RANGE_FP: u32 = 24 * 65536;

/// The parameter set the host samples once per frame.
pub struct Params {
    /// Dry gain, Q16.16 in zero to one.
    pub dry: u32,
    /// Wet gain, Q16.16 in zero to one.
    pub wet: u32,
    /// Attack ramp duration, milliseconds.
    pub attack_ms: u32,
    /// Release ramp duration, milliseconds.
    pub release_ms: u32,
    /// Pitch-bend range, Q16.16 semitones.
    pub pitch_bend_range: u32,
    /// Feedback gain, Q16.16 in zero to one.
    pub feedback: u32,
    /// Polyphonic when set, monophonic with glide when clear.
    pub poly_mode: bool,
    /// Portamento glide time, milliseconds.
    pub portamento_ms: u32,
}

impl Params {
    pub open spec fn wf(self) -> bool {
        &&& self.dry <= FP_ONE
        &&& self.wet <= FP_ONE
        &&& self.feedback <= FP_ONE
        &&& self.pitch_bend_range <= MAX_BEND_RANGE_FP
        &&& self.attack_ms <= MAX_ENV_MS
        &&& self.release_ms <= MAX_ENV_MS
        &&& self.portamento_ms <= MAX_ENV_MS
    }
}

impl Default for Params {
    /// Full dry signal, half wet, five-millisecond ramps, a two-semitone
    /// bend range, a fifth of feedback, polyphonic, no portamento.
    fn default() -> (params: Params)
        ensures
            params.wf(),
            params.dry == FP_ONE,
            params.wet == 32768,
            params.attack_ms == 5,
            params.release_ms == 5,
            params.pitch_bend_range == 2 * 65536,
            params.feedback == 13107,
            params.poly_mode == true,
            params.portamento_ms == 0,
    {
        Params {
            dry: 65536,
            wet: 32768,
            attack_ms: 5,
            release_ms: 5,
            pitch_bend_range: 2 * 65536,
            feedback: 13107,
            poly_mode: true,
            portamento_ms: 0,
        }
    }
}

/// The smallest index at or after `k` whose voice's playing state equals
/// `playing`, or the sequence length when there is none.
pub open spec fn spec_scan(voices: Seq<MidiVoice>, k: int, playing: bool) -> int
    decreases voices.len() - k,
{
    if k < 0 || k >= voices.len() {
        voices.len() as int
    } else if !(voices[k].env.state is Off) == playing {
        k
    } else {
        spec_scan(voices, k + 1, playing)
    }
}

/// How the bank before and after `note_on` relate.  In poly mode the first
/// idle voice starts the note, and with every voice busy nothing at all
/// changes: the note is dropped, no error raised.  In mono mode the first
/// playing voice glides to the note, or voice zero starts it.
pub open spec fn spec_note_on_rel(
    pre: VoiceBank,
    post: VoiceBank,
    note: u8,
    velocity: u8,
    attack_ms: u32,
    poly_mode: bool,
) -> bool {
    let n = pre.voices@.len() as int;
    &&& post.damper == pre.damper
    &&& post.damper_stop_queue@ == pre.damper_stop_queue@
    &&& post.pitch_bend == pre.pitch_bend
    &&& post.sample_rate == pre.sample_rate
    &&& post.voices@.len() == n
    &&& if poly_mode {
        let i = spec_scan(pre.voices@, 0, false);
        if i < n {
            &&& spec_play_rel(pre.voices@[i], post.voices@[i], note, velocity, attack_ms)
            &&& forall|j: int| 0 <= j < n && j != i ==> post.voices@[j] == pre.voices@[j]
        } else {
            post.voices@ == pre.voices@
        }
    } else {
        let i = spec_scan(pre.voices@, 0, true);
        if i < n {
            &&& post.voices@[i] == spec_note_changed(pre.voices@[i], note, velocity)
            &&& forall|j: int| 0 <= j < n && j != i ==> post.voices@[j] == pre.voices@[j]
        } else {
            &&& spec_play_rel(pre.voices@[0], post.voices@[0], note, velocity, attack_ms)
            &&& forall|j: int| 1 <= j < n ==> post.voices@[j] == pre.voices@[j]
        }
    }
}

/// How the bank before and after `note_off` relate.  While the sustain pedal
/// is held no voice is touched: the note only joins the deferred set, once.
/// Otherwise every playing voice sounding the note is released.
pub open spec fn spec_note_off_rel(
    pre: VoiceBank,
    post: VoiceBank,
    note: u8,
    release_ms: u32,
) -> bool {
    let n = pre.voices@.len() as int;
    &&& post.damper == pre.damper
    &&& post.pitch_bend == pre.pitch_bend
    &&& post.sample_rate == pre.sample_rate
    &&& post.voices@.len() == n
    &&& if pre.damper {
        &&& post.voices@ == pre.voices@
        &&& post.damper_stop_queue@ == (if pre.damper_stop_queue@.contains(note) {
            pre.damper_stop_queue@
        } else {
            pre.damper_stop_queue@.push(note)
        })
    } else {
        &&& post.damper_stop_queue@ == pre.damper_stop_queue@
        &&& forall|i: int|
            0 <= i < n ==> post.voices@[i] == (if !(pre.voices@[i].env.state is Off)
                && pre.voices@[i].note == note {
                spec_released(pre.voices@[i], release_ms)
            } else {
                pre.voices@[i]
            })
    }
}

/// How the bank before and after `sustain` relate.  Pressing only sets the
/// pedal flag.  Releasing stops, exactly once each, every playing voice
/// whose note waits in the deferred set, and leaves the set empty.
pub open spec fn spec_sustain_rel(
    pre: VoiceBank,
    post: VoiceBank,
    pressed: bool,
    release_ms: u32,
) -> bool {
    let n = pre.voices@.len() as int;
    &&& post.pitch_bend == pre.pitch_bend
    &&& post.sample_rate == pre.sample_rate
    &&& post.voices@.len() == n
    &&& if pressed {
        &&& post.damper == true
        &&& post.voices@ == pre.voices@
        &&& post.damper_stop_queue@ == pre.damper_stop_queue@
    } else {
        &&& post.damper == false
        &&& post.damper_stop_queue@ == Seq::<u8>::empty()
        &&& forall|i: int|
            0 <= i < n ==> post.voices@[i] == (if !(pre.voices@[i].env.state is Off)
                && pre.damper_stop_queue@.contains(pre.voices@[i].note) {
                spec_released(pre.voices@[i], release_ms)
            } else {
                pre.voices@[i]
            })
    }
}

/// How the bank before and after `pitch_bend` relate: the shared smoother is
/// retargeted to the 14-bit bend normalized to Q16.16 in minus one to one.
pub open spec fn spec_pitch_bend_rel(
    pre: VoiceBank,
    post: VoiceBank,
    fine: u8,
    coarse: u8,
) -> bool {
    &&& post.damper == pre.damper
    &&& post.damper_stop_queue@ == pre.damper_stop_queue@
    &&& post.sample_rate == pre.sample_rate
    &&& post.voices@ == pre.voices@
    &&& post.pitch_bend == (Smoother {
        target: (coarse * 1024 + fine * 8 - 65536) as i64,
        steps_left: pre.pitch_bend.ramp_samples,
        ..pre.pitch_bend
    })
}

/// An `i64` mix clamped to the `i32` sample range.
pub open spec fn spec_sat_i32(x: int) -> int {
    if x > i32::MAX as int {
        i32::MAX as int
    } else if x < i32::MIN as int {
        i32::MIN as int
    } else {
        x
    }
}

/// The portamento ramp length `set_portamento` configures, in samples.
pub open spec fn spec_porta_ramp(portamento_ms: u32, sr: u32) -> int {
    (portamento_ms * sr + 999) / 1000
}

/// The stereo sample one playing voice contributes to the wet sum of a mix
/// step under pitch bend `bend` (Q16.16 semitones).
pub open spec fn spec_voice_out(v: MidiVoice, bend: int) -> (int, int) {
    let length = spec_bent_length(
        v.target_delay.stepped().current as int,
        bend,
        v.sample_rate as int,
    );
    let amp = spec_env_amp(v.env);
    (
        spec_apply_amp(
            spec_pop_out(
                v.delay_l.window(),
                v.delay_l.cap(),
                v.delay_l.last_length as int,
                v.delay_l.max_speed as int,
                length,
            ),
            amp,
        ),
        spec_apply_amp(
            spec_pop_out(
                v.delay_r.window(),
                v.delay_r.cap(),
                v.delay_r.last_length as int,
                v.delay_r.max_speed as int,
                length,
            ),
            amp,
        ),
    )
}

/// The running wet stereo sum over the playing voices among the first `k`.
pub open spec fn spec_wet_prefix(voices: Seq<MidiVoice>, k: int, bend: int) -> (int, int)
    decreases k,
{
    if k <= 0 {
        (0, 0)
    } else {
        let p = spec_wet_prefix(voices, k - 1, bend);
        if !(voices[k - 1].env.state is Off) {
            (
                p.0 + spec_voice_out(voices[k - 1], bend).0,
                p.1 + spec_voice_out(voices[k - 1], bend).1,
            )
        } else {
            p
        }
    }
}

/// How one playing voice before and after a mix step relate: its portamento
/// rate set, the smoother and envelope advanced one sample, both delay lines
/// popped at the bent length, and the feedback-scaled running wet sum mixed
/// with the input pushed back into its histories.
pub open spec fn spec_voice_processed(
    v: MidiVoice,
    bend: int,
    porta_ramp: int,
    in_l: int,
    in_r: int,
    wet_l: int,
    wet_r: int,
    feedback: int,
    post: MidiVoice,
) -> bool {
    let smoother0 = Smoother { ramp_samples: porta_ramp as u64, ..v.target_delay };
    let length = spec_bent_length(
        smoother0.stepped().current as int,
        bend,
        v.sample_rate as int,
    );
    let push_l = spec_sat_i32(in_l + spec_apply_amp(wet_l, feedback));
    let push_r = spec_sat_i32(in_r + spec_apply_amp(wet_r, feedback));
    &&& post.sample_rate == v.sample_rate
    &&& post.note == v.note
    &&& post.velocity == v.velocity
    &&& post.target_delay == smoother0.stepped()
    &&& post.env == spec_env_stepped(v.env)
    &&& post.delay_l.cap() == v.delay_l.cap()
    &&& post.delay_r.cap() == v.delay_r.cap()
    &&& post.delay_l.max_speed == v.delay_l.max_speed
    &&& post.delay_r.max_speed == v.delay_r.max_speed
    &&& post.delay_l.window() == spec_evict(v.delay_l.window(), v.delay_l.cap()).push(
        push_l as i32,
    )
    &&& post.delay_r.window() == spec_evict(v.delay_r.window(), v.delay_r.cap()).push(
        push_r as i32,
    )
    &&& post.delay_l.last_length == spec_pop_last(
        v.delay_l.window(),
        v.delay_l.cap(),
        v.delay_l.last_length as int,
        v.delay_l.max_speed as int,
        length,
    )
    &&& post.delay_r.last_length == spec_pop_last(
        v.delay_r.window(),
        v.delay_r.cap(),
        v.delay_r.last_length as int,
        v.delay_r.max_speed as int,
        length,
    )
}

/// A sample scaled by a Q16.16 gain, rounding toward zero.
fn scale_q16(x: i64, gain: u32) -> (out: i64)
    requires
        -0x10_0000_0000 <= x <= 0x10_0000_0000,
        gain <= 0x0200_0000,
    ensures
        out == spec_apply_amp(x as int, gain as int),
        x >= 0 ==> out >= 0,
        x < 0 ==> out <= 0,
        gain <= FP_ONE ==> (if x >= 0 {
            out <= x
        } else {
            x <= out
        }),
        -65536 <= x <= 65536 ==> -(gain as int) <= out <= gain as int,
{
    let mag: u64 = if x >= 0 {
        x as u64
    } else {
        (-x) as u64
    };
    proof {
        vstd::arithmetic::mul::lemma_mul_upper_bound(
            mag as int,
            0x10_0000_0000,
            gain as int,
            0x0200_0000,
        );
        assert(mag * gain >= 0) by (nonlinear_arith)
            requires
                mag >= 0,
                gain >= 0,
        ;
        vstd::arithmetic::div_mod::lemma_div_pos_is_pos(mag * gain, 65536);
        vstd::arithmetic::div_mod::lemma_div_is_ordered(
            mag * gain,
            0x10_0000_0000int * 0x0200_0000,
            65536,
        );
        if gain <= FP_ONE {
            lemma_gain_share_le(mag as int, gain as int);
        }
        if mag <= 65536 {
            vstd::arithmetic::mul::lemma_mul_upper_bound(
                mag as int,
                65536,
                gain as int,
                gain as int,
            );
            vstd::arithmetic::div_mod::lemma_div_is_ordered(
                mag * gain,
                65536 * (gain as int),
                65536,
            );
            vstd::arithmetic::div_mod::lemma_div_multiples_vanish(gain as int, 65536);
        }
    }
    let scaled: u64 = mag * (gain as u64) / 65536;
    if x >= 0 {
        scaled as i64
    } else {
        -(scaled as i64)
    }
}

/// A share `mag * gain / 65536` with `gain` at most one whole Q16.16 unit
/// never exceeds `mag`.
proof fn lemma_gain_share_le(mag: int, gain: int)
    requires
        0 <= mag,
        0 <= gain <= 65536,
    ensures
        0 <= mag * gain / 65536 <= mag,
{
    vstd::arithmetic::mul::lemma_mul_upper_bound(mag, mag, gain, 65536);
    vstd::arithmetic::div_mod::lemma_div_is_ordered(mag * gain, mag * 65536, 65536);
    vstd::arithmetic::div_mod::lemma_div_multiples_vanish(mag, 65536);
    assert(mag * gain >= 0) by (nonlinear_arith)
        requires
            mag >= 0,
            gain >= 0,
    ;
    vstd::arithmetic::div_mod::lemma_div_pos_is_pos(mag * gain, 65536);
}

/// Clamp an `i64` mix to the `i32` sample range.
fn sat_i32(x: i64) -> (out: i32)
    ensures
        out as int == spec_sat_i32(x as int),
{
    if x > 0x7FFF_FFFF {
        0x7FFF_FFFF
    } else if x < -0x8000_0000 {
        (-0x8000_0000) as i32
    } else {
        x as i32
    }
}

pub struct VoiceBank {
    /// The fixed-capacity voice pool, scanned in order on note-on.
    pub voices: Vec<MidiVoice>,
    /// Whether the sustain (damper) pedal is held.
    pub damper: bool,
    /// Distinct notes whose note-off arrived while the pedal was held.
    pub damper_stop_queue: Vec<u8>,
    /// Shared pitch-bend smoother, Q16.16 normalized to minus one to one.
    pub pitch_bend: Smoother,
    /// The fixed sample rate of the processing session, in hertz.
    pub sample_rate: u32,
}

impl VoiceBank {
    pub open spec fn wf(self) -> bool {
        &&& self.voices@.len() == MAX_POLYPHONY
        &&& forall|i: int|
            0 <= i < self.voices@.len() ==> (#[trigger] self.voices@[i]).wf()
        &&& forall|i: int|
            0 <= i < self.voices@.len() ==> (#[trigger] self.voices@[i]).sample_rate
                == self.sample_rate
        &&& self.pitch_bend.wf()
        &&& -(FP_ONE as int) <= self.pitch_bend.current <= FP_ONE
        &&& -(FP_ONE as int) <= self.pitch_bend.target <= FP_ONE
        &&& forall|i: int|
            0 <= i < self.damper_stop_queue@.len() ==> #[trigger] self.damper_stop_queue@[i]
                < 128
        &&& forall|i: int, j: int|
            0 <= i < j < self.damper_stop_queue@.len() ==> self.damper_stop_queue@[i]
                != self.damper_stop_queue@[j]
        &&& 1 <= self.sample_rate <= MAX_SAMPLE_RATE
    }

    /// A new bank of `MAX_POLYPHONY` idle voices at the given sample rate,
    /// each sized for half a second of delay, pedal up, nothing deferred,
    /// pitch bend centred and smoothed over `PITCH_BEND_SMOOTHING_MS`.
    pub fn new(sample_rate: u32) -> (bank: VoiceBank)
        requires
            1 <= sample_rate <= MAX_SAMPLE_RATE,
        ensures
            bank.wf(),
            bank.sample_rate == sample_rate,
            bank.damper == false,
            bank.damper_stop_queue@ == Seq::<u8>::empty(),
            bank.pitch_bend.current == 0,
            bank.pitch_bend.target == 0,
            bank.pitch_bend.ramp_samples == (PITCH_BEND_SMOOTHING_MS * sample_rate + 999)
                / 1000,
            forall|i: int|
                0 <= i < bank.voices@.len() ==> (#[trigger] bank.voices@[i]).env.state
                    is Off,
            forall|i: int|
                0 <= i < bank.voices@.len() ==> (#[trigger] bank.voices@[i]).delay_l.cap()
                    == sample_rate * MAX_DELAY_MS / 1000 + 1,
            forall|i: int|
                0 <= i < bank.voices@.len() ==> (#[trigger] bank.voices@[i]).delay_r.cap()
                    == sample_rate * MAX_DELAY_MS / 1000 + 1,
            forall|i: int|
                0 <= i < bank.voices@.len() ==> (#[trigger] bank.voices@[i]).delay_l.max_speed
                    == DELAY_SLEW,
            forall|i: int|
                0 <= i < bank.voices@.len() ==> (#[trigger] bank.voices@[i]).delay_r.max_speed
                    == DELAY_SLEW,
    {
        proof {
            assert((sample_rate as u64) * (MAX_DELAY_MS as u64) <= 500_000_000)
                by (nonlinear_arith)
                requires
                    sample_rate <= 1_000_000,
                    MAX_DELAY_MS == 500,
            ;
        }
        let product: u64 = (sample_rate as u64) * (MAX_DELAY_MS as u64);
        proof {
            vstd::arithmetic::div_mod::lemma_div_is_ordered(
                product as int,
                500_000_000,
                1000,
            );
        }
        let max_delay_samples: usize = (product / 1000) as usize;
        let mut voices: Vec<MidiVoice> = Vec::new();
        let mut i: usize = 0;
        while i < MAX_POLYPHONY
            invariant
                i <= MAX_POLYPHONY,
                voices@.len() == i,
                1 <= sample_rate <= MAX_SAMPLE_RATE,
                max_delay_samples < crate::ring::MAX_RING_CAPACITY,
                max_delay_samples == sample_rate * MAX_DELAY_MS / 1000,
                forall|j: int| 0 <= j < i ==> (#[trigger] voices@[j]).wf(),
                forall|j: int|
                    0 <= j < i ==> (#[trigger] voices@[j]).sample_rate == sample_rate,
                forall|j: int| 0 <= j < i ==> (#[trigger] voices@[j]).env.state is Off,
                forall|j: int|
                    0 <= j < i ==> (#[trigger] voices@[j]).delay_l.cap()
                        == max_delay_samples + 1,
                forall|j: int|
                    0 <= j < i ==> (#[trigger] voices@[j]).delay_r.cap()
                        == max_delay_samples + 1,
                forall|j: int|
                    0 <= j < i ==> (#[trigger] voices@[j]).delay_l.max_speed == DELAY_SLEW,
                forall|j: int|
                    0 <= j < i ==> (#[trigger] voices@[j]).delay_r.max_speed == DELAY_SLEW,
            decreases MAX_POLYPHONY - i,
        {
            voices.push(MidiVoice::new(max_delay_samples, sample_rate, DELAY_SLEW));
            i = i + 1;
        }
        let mut pitch_bend = Smoother::new(0);
        pitch_bend.set_speed_ms(sample_rate, PITCH_BEND_SMOOTHING_MS);
        VoiceBank { voices, damper: false, damper_stop_queue: Vec::new(), pitch_bend, sample_rate }
    }

    /// The smallest voice index whose playing state equals `playing`, or the
    /// pool size when there is none.
    fn find_voice(&self, playing: bool) -> (idx: usize)
        ensures
            idx == spec_scan(self.voices@, 0, playing),
            idx <= self.voices@.len(),
    {
        let n: usize = self.voices.len();
        let mut i: usize = 0;
        while i < n
            invariant
                i <= n,
                n == self.voices@.len(),
                spec_scan(self.voices@, 0, playing) == spec_scan(
                    self.voices@,
                    i as int,
                    playing,
                ),
            decreases n - i,
        {
            if self.voices[i].is_playing() == playing {
                return i;
            }
            i = i + 1;
        }
        n
    }

    /// Route a note-on.  Poly mode starts the note on the first idle voice,
    /// and silently drops it when every voice is busy: no voice is stolen,
    /// no state mutated, no error raised.  Mono mode glides the first
    /// playing voice to the note, or starts it on voice zero.
    pub fn note_on(&mut self, note: u8, velocity: u8, attack_ms: u32, poly_mode: bool)
        requires
            old(self).wf(),
            note < 128,
            attack_ms <= MAX_ENV_MS,
        ensures
            final(self).wf(),
            spec_note_on_rel(*old(self), *final(self), note, velocity, attack_ms, poly_mode),
    {
        let n: usize = self.voices.len();
        if !poly_mode {
            let i: usize = self.find_voice(true);
            if i < n {
                let voice = &mut self.voices[i];
                voice.change_note(note, velocity);
            } else {
                let voice = &mut self.voices[0];
                voice.play(note, velocity, attack_ms);
            }
        } else {
            let i: usize = self.find_voice(false);
            if i < n {
                let voice = &mut self.voices[i];
                voice.play(note, velocity, attack_ms);
            }
        }
    }

    /// Release every playing voice whose note equals `note`; a voice already
    /// releasing or off is left untouched.
    fn stop_matching(&mut self, note: u8, release_ms: u32)
        requires
            old(self).wf(),
            release_ms <= MAX_ENV_MS,
        ensures
            final(self).wf(),
            final(self).damper == old(self).damper,
            final(self).damper_stop_queue@ == old(self).damper_stop_queue@,
            final(self).pitch_bend == old(self).pitch_bend,
            final(self).sample_rate == old(self).sample_rate,
            final(self).voices@.len() == old(self).voices@.len(),
            forall|i: int|
                0 <= i < old(self).voices@.len() ==> final(self).voices@[i] == (if !(old(
                    self,
                ).voices@[i].env.state is Off) && old(self).voices@[i].note == note {
                    spec_released(old(self).voices@[i], release_ms)
                } else {
                    old(self).voices@[i]
                }),
    {
        let n: usize = self.voices.len();
        let mut i: usize = 0;
        while i < n
            invariant
                i <= n,
                release_ms <= MAX_ENV_MS,
                n == self.voices@.len() == old(self).voices@.len(),
                self.damper == old(self).damper,
                self.damper_stop_queue@ == old(self).damper_stop_queue@,
                self.pitch_bend == old(self).pitch_bend,
                self.sample_rate == old(self).sample_rate,
                old(self).wf(),
                forall|j: int|
                    0 <= j < self.voices@.len() ==> (#[trigger] self.voices@[j]).wf(),
                forall|j: int|
                    0 <= j < self.voices@.len() ==> (#[trigger] self.voices@[j]).sample_rate
                        == self.sample_rate,
                forall|j: int| i <= j < n ==> self.voices@[j] == old(self).voices@[j],
                forall|j: int|
                    0 <= j < i ==> self.voices@[j] == (if !(old(self).voices@[j].env.state
                        is Off) && old(self).voices@[j].note == note {
                        spec_released(old(self).voices@[j], release_ms)
                    } else {
                        old(self).voices@[j]
                    }),
            decreases n - i,
        {
            let voice = &mut self.voices[i];
            if voice.is_playing() && voice.get_midi_note() == note {
                voice.stop(release_ms);
            }
            i = i + 1;
        }
    }

    /// Route a note-off.  While the sustain pedal is held the note joins the
    /// deferred set (once) and no voice is touched; otherwise every playing
    /// voice sounding the note is released.
    pub fn note_off(&mut self, note: u8, release_ms: u32)
        requires
            old(self).wf(),
            note < 128,
            release_ms <= MAX_ENV_MS,
        ensures
            final(self).wf(),
            spec_note_off_rel(*old(self), *final(self), note, release_ms),
    {
        if self.damper {
            let qn: usize = self.damper_stop_queue.len();
            let mut found: bool = false;
            let mut j: usize = 0;
            while j < qn
                invariant
                    j <= qn,
                    qn == self.damper_stop_queue@.len(),
                    found == exists|k: int| 0 <= k < j && self.damper_stop_queue@[k] == note,
                decreases qn - j,
            {
                if self.damper_stop_queue[j] == note {
                    found = true;
                }
                j = j + 1;
            }
            if !found {
                self.damper_stop_queue.push(note);
            }
        } else {
            self.stop_matching(note, release_ms);
        }
    }

    /// Apply the sustain pedal.  Pressing holds future note-offs; releasing
    /// stops, exactly once for each distinct deferred note, every playing
    /// voice sounding it, and empties the deferred set.
    pub fn sustain(&mut self, pressed: bool, release_ms: u32)
        requires
            old(self).wf(),
            release_ms <= MAX_ENV_MS,
        ensures
            final(self).wf(),
            spec_sustain_rel(*old(self), *final(self), pressed, release_ms),
    {
        if pressed {
            self.damper = true;
        } else {
            self.damper = false;
            let qn: usize = self.damper_stop_queue.len();
            let mut qi: usize = 0;
            while qi < qn
                invariant
                    qi <= qn,
                    release_ms <= MAX_ENV_MS,
                    qn == self.damper_stop_queue@.len(),
                    self.damper_stop_queue@ == old(self).damper_stop_queue@,
                    self.damper == false,
                    self.pitch_bend == old(self).pitch_bend,
                    self.sample_rate == old(self).sample_rate,
                    self.voices@.len() == old(self).voices@.len(),
                    old(self).wf(),
                    forall|j: int|
                        0 <= j < self.voices@.len() ==> (#[trigger] self.voices@[j]).wf(),
                    forall|j: int|
                        0 <= j < self.voices@.len() ==> (#[trigger] self.voices@[j]).sample_rate
                            == self.sample_rate,
                    forall|i: int|
                        0 <= i < self.voices@.len() ==> self.voices@[i] == (if !(old(
                            self,
                        ).voices@[i].env.state is Off) && (exists|k: int|
                            0 <= k < qi && old(self).damper_stop_queue@[k] == old(
                                self,
                            ).voices@[i].note) {
                            spec_released(old(self).voices@[i], release_ms)
                        } else {
                            old(self).voices@[i]
                        }),
                decreases qn - qi,
            {
                let queued_note: u8 = self.damper_stop_queue[qi];
                let ghost voices_before = self.voices@;
                self.stop_matching(queued_note, release_ms);
                proof {
                    assert forall|i: int| 0 <= i < self.voices@.len() implies self.voices@[i]
                        == (if !(old(self).voices@[i].env.state is Off) && (exists|k: int|
                        0 <= k < qi + 1 && old(self).damper_stop_queue@[k] == old(
                            self,
                        ).voices@[i].note) {
                        spec_released(old(self).voices@[i], release_ms)
                    } else {
                        old(self).voices@[i]
                    }) by {
                        let orig = old(self).voices@[i];
                        if !(orig.env.state is Off) && orig.note == queued_note {
                            assert(old(self).damper_stop_queue@[qi as int] == orig.note);
                        }
                    }
                }
                qi = qi + 1;
            }
            self.damper_stop_queue.clear();
        }
    }

    /// Retarget the shared pitch-bend smoother from a 14-bit coarse and fine
    /// pair, normalized to Q16.16 in minus one to one.
    pub fn pitch_bend(&mut self, fine: u8, coarse: u8)
        requires
            old(self).wf(),
            fine < 128,
            coarse < 128,
        ensures
            final(self).wf(),
            spec_pitch_bend_rel(*old(self), *final(self), fine, coarse),
    {
        let value: i64 = (coarse as i64) * 1024 + (fine as i64) * 8 - 65536;
        self.pitch_bend.set(value);
    }

    /// Route one raw three-byte channel-voice message: note-on, note-off,
    /// pitch bend, or the sustain-pedal control change.  Anything else is
    /// ignored.
    pub fn midi_input(&mut self, status: u8, data1: u8, data2: u8, params: &Params)
        requires
            old(self).wf(),
            params.wf(),
            data1 < 128,
            data2 < 128,
        ensures
            final(self).wf(),
            status == 0x90 ==> spec_note_on_rel(
                *old(self),
                *final(self),
                data1,
                data2,
                params.attack_ms,
                params.poly_mode,
            ),
            status == 0x80 ==> spec_note_off_rel(
                *old(self),
                *final(self),
                data1,
                params.release_ms,
            ),
            status == 0xE0 ==> spec_pitch_bend_rel(*old(self), *final(self), data1, data2),
            status == 0xB0 && data1 == 0x40 ==> spec_sustain_rel(
                *old(self),
                *final(self),
                data2 >= 0x40,
                params.release_ms,
            ),
            !(status == 0x90 || status == 0x80 || status == 0xE0 || (status == 0xB0
                && data1 == 0x40)) ==> *final(self) == *old(self),
    {
        if status == 0x90 {
            self.note_on(data1, data2, params.attack_ms, params.poly_mode);
        } else if status == 0x80 {
            self.note_off(data1, params.release_ms);
        } else if status == 0xE0 {
            self.pitch_bend(data1, data2);
        } else if status == 0xB0 {
            if data1 == 0x40 {
                self.sustain(data2 >= 0x40, params.release_ms);
            }
        }
    }

    /// One mix step: advance the shared pitch-bend smoother, drive every
    /// playing voice (portamento rate, one `read` at the bent delay length),
    /// sum the wet stereo signal, push `input + wet-so-far * feedback` back
    /// into each playing voice's histories, and return
    /// `input * dry + wet * wet` clamped to the sample range.
    pub fn process_sample(&mut self, in_l: i32, in_r: i32, params: &Params) -> (out: (
        i32,
        i32,
    ))
        requires
            old(self).wf(),
            params.wf(),
        ensures
            final(self).wf(),
            final(self).sample_rate == old(self).sample_rate,
            final(self).damper == old(self).damper,
            final(self).damper_stop_queue@ == old(self).damper_stop_queue@,
            final(self).pitch_bend == old(self).pitch_bend.stepped(),
            final(self).voices@.len() == old(self).voices@.len(),
            ({
                let bend = spec_apply_amp(
                    old(self).pitch_bend.stepped().current as int,
                    params.pitch_bend_range as int,
                );
                let n = old(self).voices@.len() as int;
                let ramp = spec_porta_ramp(params.portamento_ms, old(self).sample_rate);
                &&& forall|j: int|
                    0 <= j < n && old(self).voices@[j].env.state is Off
                        ==> final(self).voices@[j] == old(self).voices@[j]
                &&& forall|j: int|
                    0 <= j < n && !(old(self).voices@[j].env.state is Off)
                        ==> spec_voice_processed(
                        old(self).voices@[j],
                        bend,
                        ramp,
                        in_l as int,
                        in_r as int,
                        spec_wet_prefix(old(self).voices@, j + 1, bend).0,
                        spec_wet_prefix(old(self).voices@, j + 1, bend).1,
                        params.feedback as int,
                        final(self).voices@[j],
                    )
                &&& out.0 == spec_sat_i32(
                    spec_apply_amp(in_l as int, params.dry as int) + spec_apply_amp(
                        spec_wet_prefix(old(self).voices@, n, bend).0,
                        params.wet as int,
                    ),
                )
                &&& out.1 == spec_sat_i32(
                    spec_apply_amp(in_r as int, params.dry as int) + spec_apply_amp(
                        spec_wet_prefix(old(self).voices@, n, bend).1,
                        params.wet as int,
                    ),
                )
            }),
    {
        let sr: u32 = self.sample_rate;
        self.pitch_bend.process_one();
        let bend_val: i64 = self.pitch_bend.output();
        let bend_semis: i64 = scale_q16(bend_val, params.pitch_bend_range);
        let n: usize = self.voices.len();
        let mut wet_l: i64 = 0;
        let mut wet_r: i64 = 0;
        let mut i: usize = 0;
        while i < n
            invariant
                i <= n,
                n == self.voices@.len() == old(self).voices@.len(),
                n <= MAX_POLYPHONY,
                params.wf(),
                self.sample_rate == old(self).sample_rate,
                sr == self.sample_rate,
                1 <= sr <= MAX_SAMPLE_RATE,
                self.damper == old(self).damper,
                self.damper_stop_queue@ == old(self).damper_stop_queue@,
                self.pitch_bend == old(self).pitch_bend.stepped(),
                self.pitch_bend.wf(),
                -(FP_ONE as int) <= self.pitch_bend.current <= FP_ONE,
                -(FP_ONE as int) <= self.pitch_bend.target <= FP_ONE,
                forall|k: int, j: int|
                    0 <= k < j < self.damper_stop_queue@.len()
                        ==> self.damper_stop_queue@[k] != self.damper_stop_queue@[j],
                forall|k: int|
                    0 <= k < self.damper_stop_queue@.len()
                        ==> #[trigger] self.damper_stop_queue@[k] < 128,
                bend_semis == spec_apply_amp(
                    old(self).pitch_bend.stepped().current as int,
                    params.pitch_bend_range as int,
                ),
                -MAX_BEND_FP <= bend_semis <= MAX_BEND_FP,
                forall|j: int| i <= j < n ==> self.voices@[j] == old(self).voices@[j],
                forall|j: int| 0 <= j < n ==> (#[trigger] self.voices@[j]).wf(),
                forall|j: int|
                    0 <= j < n ==> (#[trigger] self.voices@[j]).sample_rate == sr,
                forall|j: int|
                    0 <= j < i && old(self).voices@[j].env.state is Off ==> self.voices@[j]
                        == old(self).voices@[j],
                forall|j: int|
                    0 <= j < i && !(old(self).voices@[j].env.state is Off)
                        ==> spec_voice_processed(
                        old(self).voices@[j],
                        bend_semis as int,
                        spec_porta_ramp(params.portamento_ms, sr),
                        in_l as int,
                        in_r as int,
                        spec_wet_prefix(old(self).voices@, j + 1, bend_semis as int).0,
                        spec_wet_prefix(old(self).voices@, j + 1, bend_semis as int).1,
                        params.feedback as int,
                        self.voices@[j],
                    ),
                wet_l == spec_wet_prefix(old(self).voices@, i as int, bend_semis as int).0,
                wet_r == spec_wet_prefix(old(self).voices@, i as int, bend_semis as int).1,
                -0x8000_0000 * (i as int) <= wet_l <= 0x8000_0000 * (i as int),
                -0x8000_0000 * (i as int) <= wet_r <= 0x8000_0000 * (i as int),
            decreases n - i,
        {
            let ghost pre_voice = self.voices@[i as int];
            let voice = &mut self.voices[i];
            if voice.is_playing() {
                voice.set_portamento(sr, params.portamento_ms);
                let t: (i32, i32) = voice.read(bend_semis);
                proof {
                    assert(t.0 == spec_voice_out(pre_voice, bend_semis as int).0);
                    assert(t.1 == spec_voice_out(pre_voice, bend_semis as int).1);
                }
                wet_l = wet_l + (t.0 as i64);
                wet_r = wet_r + (t.1 as i64);
                let fb_l: i64 = scale_q16(wet_l, params.feedback);
                let fb_r: i64 = scale_q16(wet_r, params.feedback);
                let push_l: i32 = sat_i32((in_l as i64) + fb_l);
                let push_r: i32 = sat_i32((in_r as i64) + fb_r);
                voice.push(push_l, push_r);
            }
            i = i + 1;
        }
        let dry_l: i64 = scale_q16(in_l as i64, params.dry);
        let dry_r: i64 = scale_q16(in_r as i64, params.dry);
        let wout_l: i64 = scale_q16(wet_l, params.wet);
        let wout_r: i64 = scale_q16(wet_r, params.wet);
        (sat_i32(dry_l + wout_l), sat_i32(dry_r + wout_r))
    }
}

} // verus!

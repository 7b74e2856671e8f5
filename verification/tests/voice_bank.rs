use phasey::envelope::EnvelopeState;
use phasey::midivoice::MidiVoice;
use phasey::voicebank::Params;
use phasey::voicebank::VoiceBank;

/// The reference pitch: note 69 maps to a delay of exactly 1/440 of a
/// second.  Lengths are in seconds scaled by 440 * 65536, so the value times
/// 440 is exactly one second's scale; octaves around it halve and double.
#[test]
fn reference_pitch_is_exact() {
    let a4 = MidiVoice::midi_to_seconds(69);
    assert_eq!(a4, 65536);
    assert_eq!(a4 * 440, 440 * 65536);
    assert_eq!(MidiVoice::midi_to_seconds(57), 2 * 65536);
    assert_eq!(MidiVoice::midi_to_seconds(81), 32768);
    assert_eq!(MidiVoice::midi_to_seconds(45), 4 * 65536);
}

/// A fresh voice is idle; `play` makes it audible on its note, and `stop`
/// then `next_sample` run the envelope out.
#[test]
fn voice_lifecycle() {
    let mut voice = MidiVoice::new(1000, 44100, 0);
    assert!(!voice.is_playing());
    voice.play(69, 100, 0);
    assert!(voice.is_playing());
    assert_eq!(voice.get_midi_note(), 69);
    assert_eq!(voice.velocity, 100);
}

/// A playing voice whose histories are still priming reads silence.
#[test]
fn fresh_voice_reads_silence() {
    let mut voice = MidiVoice::new(44100, 44100, 0);
    voice.play(69, 100, 5);
    let (l, r) = voice.read(0);
    assert_eq!((l, r), (0, 0));
}

/// At a 440 Hz sample rate the reference note's delay is exactly one sample,
/// so `tick` echoes back the sample pushed that very call, at full envelope
/// level after a one-sample attack.
#[test]
fn tick_echoes_at_one_sample_delay() {
    let mut voice = MidiVoice::new(1000, 440, 0);
    voice.play(69, 100, 0);
    assert_eq!(voice.tick(100, 200, 0), (100, 200));
    assert_eq!(voice.tick(7, -8, 0), (7, -8));
    assert_eq!(voice.tick(-31, 12, 0), (-31, 12));
}

/// `change_note` keeps the envelope running (legato) and only retargets the
/// delay smoother.
#[test]
fn change_note_is_legato() {
    let mut voice = MidiVoice::new(1000, 44100, 0);
    voice.play(69, 100, 5);
    let size_before = voice.env.env_size;
    voice.change_note(57, 90);
    assert_eq!(voice.get_midi_note(), 57);
    assert!(matches!(voice.env.state, EnvelopeState::Sustain));
    assert_eq!(voice.env.env_size, size_before);
    assert_eq!(voice.target_delay.target, 2 * 65536);
}

/// Poly mode with every voice busy: the incoming note is dropped and no
/// voice state changes.
#[test]
fn poly_overflow_drops_note() {
    let mut bank = VoiceBank::new(44100);
    let params = Params::default();
    for i in 0..16 {
        bank.note_on(10 + i, 100, params.attack_ms, true);
    }
    let notes_before: Vec<u8> = bank.voices.iter().map(|v| v.note).collect();
    bank.note_on(99, 100, params.attack_ms, true);
    let notes_after: Vec<u8> = bank.voices.iter().map(|v| v.note).collect();
    assert_eq!(notes_before, notes_after);
    assert!(bank.voices.iter().all(|v| v.is_playing()));
    assert!(bank.voices.iter().all(|v| v.note != 99));
}

/// Poly mode takes the first idle voice in scan order.
#[test]
fn poly_takes_first_idle_voice() {
    let mut bank = VoiceBank::new(44100);
    bank.note_on(60, 100, 5, true);
    bank.note_on(64, 100, 5, true);
    assert_eq!(bank.voices[0].note, 60);
    assert_eq!(bank.voices[1].note, 64);
    assert!(!bank.voices[2].is_playing());
}

/// Mono mode glides the first playing voice and starts on voice zero when
/// none plays.
#[test]
fn mono_mode_glides_on_slot_zero() {
    let mut bank = VoiceBank::new(44100);
    bank.note_on(60, 100, 5, false);
    assert_eq!(bank.voices[0].note, 60);
    assert!(matches!(bank.voices[0].env.state, EnvelopeState::Attack));
    bank.note_on(67, 90, 5, false);
    assert_eq!(bank.voices[0].note, 67);
    assert!(matches!(bank.voices[0].env.state, EnvelopeState::Sustain));
    assert!(!bank.voices[1].is_playing());
}

/// Note-offs under a held sustain pedal touch no voice and queue each note
/// once; releasing the pedal stops every queued note and empties the queue.
#[test]
fn sustain_defers_note_offs() {
    let mut bank = VoiceBank::new(44100);
    bank.note_on(60, 100, 5, true);
    bank.note_on(61, 100, 5, true);
    bank.sustain(true, 5);
    bank.note_off(60, 5);
    bank.note_off(60, 5);
    bank.note_off(61, 5);
    assert!(matches!(bank.voices[0].env.state, EnvelopeState::Attack));
    assert!(matches!(bank.voices[1].env.state, EnvelopeState::Attack));
    assert_eq!(bank.damper_stop_queue, vec![60, 61]);
    bank.sustain(false, 5);
    assert!(matches!(bank.voices[0].env.state, EnvelopeState::Release));
    assert!(matches!(bank.voices[1].env.state, EnvelopeState::Release));
    assert!(bank.damper_stop_queue.is_empty());
    assert!(!bank.damper);
}

/// Without the pedal, a note-off releases exactly the voices sounding that
/// note, a doubled note included.
#[test]
fn note_off_stops_matching_voices() {
    let mut bank = VoiceBank::new(44100);
    bank.note_on(60, 100, 5, true);
    bank.note_on(64, 100, 5, true);
    bank.note_on(60, 100, 5, true);
    bank.note_off(60, 5);
    assert!(matches!(bank.voices[0].env.state, EnvelopeState::Release));
    assert!(matches!(bank.voices[1].env.state, EnvelopeState::Attack));
    assert!(matches!(bank.voices[2].env.state, EnvelopeState::Release));
}

/// The 14-bit pitch bend is normalized exactly: centre maps to zero, the
/// extremes to just under plus and minus one in Q16.16.
#[test]
fn pitch_bend_normalization() {
    let mut bank = VoiceBank::new(44100);
    bank.pitch_bend(0, 64);
    assert_eq!(bank.pitch_bend.target, 0);
    bank.pitch_bend(127, 127);
    assert_eq!(bank.pitch_bend.target, 65528);
    bank.pitch_bend(0, 0);
    assert_eq!(bank.pitch_bend.target, -65536);
}

/// The raw three-byte router dispatches note-on, note-off, bend and the
/// sustain controller, and ignores anything else.
#[test]
fn midi_router_dispatches() {
    let mut bank = VoiceBank::new(44100);
    let params = Params::default();
    bank.midi_input(0x90, 60, 100, &params);
    assert!(bank.voices[0].is_playing());
    bank.midi_input(0xB0, 0x40, 0x7F, &params);
    assert!(bank.damper);
    bank.midi_input(0x80, 60, 0, &params);
    assert_eq!(bank.damper_stop_queue, vec![60]);
    bank.midi_input(0xB0, 0x40, 0, &params);
    assert!(!bank.damper);
    assert!(matches!(bank.voices[0].env.state, EnvelopeState::Release));
    bank.midi_input(0xE0, 0, 0, &params);
    assert_eq!(bank.pitch_bend.target, -65536);
    bank.midi_input(0xA5, 1, 2, &params);
    assert_eq!(bank.pitch_bend.target, -65536);
}

/// With no voice playing, a mix step passes the dry signal through at the
/// dry gain and adds nothing wet.
#[test]
fn mix_step_dry_passthrough() {
    let mut bank = VoiceBank::new(44100);
    let params = Params::default();
    let (l, r) = bank.process_sample(1000, -500, &params);
    assert_eq!((l, r), (1000, -500));
    let half_dry = Params { dry: 32768, ..Params::default() };
    let (l2, r2) = bank.process_sample(1000, -501, &half_dry);
    assert_eq!((l2, r2), (500, -250));
}

/// A playing voice still priming contributes silence, so the mix equals the
/// dry path while its delay lines fill.
#[test]
fn mix_step_priming_voice_is_silent() {
    let mut bank = VoiceBank::new(44100);
    let params = Params::default();
    bank.note_on(69, 100, 0, true);
    for _ in 0..10 {
        let (l, r) = bank.process_sample(200, 200, &params);
        assert_eq!((l, r), (200, 200));
    }
}

/// The wet path and the regeneration loop: at a 440 Hz sample rate the
/// reference note delays by exactly one sample, so with full feedback each
/// step echoes the previous step's input plus everything fed back so far.
#[test]
fn mix_step_feedback_regenerates() {
    let mut bank = VoiceBank::new(440);
    bank.note_on(69, 100, 0, true);
    let p = Params {
        dry: 0,
        wet: 65536,
        feedback: 65536,
        ..Params::default()
    };
    // First step: the one-sample history is still filling, output is silent.
    assert_eq!(bank.process_sample(1000, -2000, &p), (0, 0));
    // From here each step reads back what the previous step pushed:
    // input plus the fed-back wet signal.
    assert_eq!(bank.process_sample(1000, -2000, &p), (1000, -2000));
    assert_eq!(bank.process_sample(1000, -2000, &p), (2000, -4000));
    assert_eq!(bank.process_sample(1000, -2000, &p), (3000, -6000));
}

/// A fresh bank is fully configured: sixteen idle voices, each sized for
/// half a second of history plus the guard sample and rate-limited to two
/// samples of delay change per sample, pedal up, nothing deferred, and the
/// pitch-bend smoother centred with its 50 ms glide (2205 samples at 44100).
#[test]
fn fresh_bank_is_configured() {
    let bank = VoiceBank::new(44100);
    assert_eq!(bank.voices.len(), 16);
    assert!(bank.voices.iter().all(|v| !v.is_playing()));
    assert!(!bank.damper);
    assert!(bank.damper_stop_queue.is_empty());
    assert_eq!(bank.pitch_bend.output(), 0);
    assert_eq!(bank.pitch_bend.ramp_samples, 2205);
    for v in bank.voices.iter() {
        assert_eq!(v.delay_l.max_speed, 2 * 65536);
        assert_eq!(v.delay_r.max_speed, 2 * 65536);
    }
}

/// Default parameters match the published defaults.
#[test]
fn default_params() {
    let p = Params::default();
    assert_eq!(p.dry, 65536);
    assert_eq!(p.wet, 32768);
    assert_eq!(p.attack_ms, 5);
    assert_eq!(p.release_ms, 5);
    assert_eq!(p.pitch_bend_range, 2 * 65536);
    assert_eq!(p.feedback, 13107);
    assert!(p.poly_mode);
    assert_eq!(p.portamento_ms, 0);
}

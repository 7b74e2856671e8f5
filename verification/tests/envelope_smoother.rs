use phasey::envelope::Envelope;
use phasey::envelope::EnvelopeState;
use phasey::smoother::Smoother;

const FP: u64 = 65536;

/// Attack over four samples is non-decreasing, follows the exact formula
/// `(env_size - samples_left) / env_size`, ends exactly at full level, and
/// the following sustain sample is full level too.
#[test]
fn attack_ramp_is_exact() {
    let mut env = Envelope::new();
    env.attack(4, 1000);
    assert_eq!(env.env_size, 4);
    assert_eq!(env.next_sample(), 16384);
    assert_eq!(env.next_sample(), 32768);
    assert_eq!(env.next_sample(), 49152);
    assert_eq!(env.next_sample(), FP);
    assert!(matches!(env.state, EnvelopeState::Sustain));
    assert_eq!(env.next_sample(), FP);
}

/// Release from sustain ramps from full level down to exactly zero over
/// `env_size` samples, and `is_playing` turns false exactly at the call that
/// plays the last ramp sample, not before.
#[test]
fn release_ramp_is_exact() {
    let mut env = Envelope::new();
    env.attack(1, 1000);
    assert_eq!(env.next_sample(), FP);
    env.release(4, 1000);
    assert_eq!(env.next_sample(), 49152);
    assert!(env.is_playing());
    assert_eq!(env.next_sample(), 32768);
    assert!(env.is_playing());
    assert_eq!(env.next_sample(), 16384);
    assert!(env.is_playing());
    assert_eq!(env.next_sample(), 0);
    assert!(!env.is_playing());
    assert_eq!(env.next_sample(), 0);
}

/// A redundant release while already releasing or off changes no field.
#[test]
fn redundant_release_is_inert() {
    let mut env = Envelope::new();
    env.attack(10, 1000);
    env.release(5, 1000);
    assert_eq!(env.env_size, 5);
    assert_eq!(env.samples_left, 5);
    env.release(7, 1000);
    assert!(matches!(env.state, EnvelopeState::Release));
    assert_eq!(env.env_size, 5);
    assert_eq!(env.samples_left, 5);

    let mut off = Envelope::new();
    off.release(9, 1000);
    assert!(matches!(off.state, EnvelopeState::Off));
    assert_eq!(off.env_size, 0);
    assert_eq!(off.samples_left, 0);
}

/// A degenerate zero-millisecond ramp is guarded to one sample, so the very
/// next sample reaches full level with no division by zero.
#[test]
fn zero_duration_ramp_is_one_sample() {
    let mut env = Envelope::new();
    env.attack(0, 44100);
    assert_eq!(env.env_size, 1);
    assert_eq!(env.next_sample(), FP);
    assert!(matches!(env.state, EnvelopeState::Sustain));
}

/// `legato` jumps straight to sustain without re-triggering the attack.
#[test]
fn legato_forces_sustain() {
    let mut env = Envelope::new();
    env.attack(100, 44100);
    env.legato();
    assert!(matches!(env.state, EnvelopeState::Sustain));
    assert_eq!(env.next_sample(), FP);
}

/// Ramp sizing rounds the duration up to whole samples:
/// 4 ms at 44100 Hz is ceil(176.4) = 177 samples.
#[test]
fn ramp_size_rounds_up() {
    let mut env = Envelope::new();
    env.attack(4, 44100);
    assert_eq!(env.env_size, 177);
}

/// The smoother glides linearly to the target over the configured samples
/// and lands on it exactly.
#[test]
fn smoother_glides_and_lands() {
    let mut s = Smoother::new(0);
    s.set_speed_ms(4, 1000);
    s.set(100);
    s.process_one();
    assert_eq!(s.output(), 25);
    s.process_one();
    assert_eq!(s.output(), 50);
    s.process_one();
    assert_eq!(s.output(), 75);
    s.process_one();
    assert_eq!(s.output(), 100);
    s.process_one();
    assert_eq!(s.output(), 100);
}

/// `reset` jumps immediately, with no glide.
#[test]
fn smoother_reset_jumps() {
    let mut s = Smoother::new(10);
    s.set_speed_ms(1000, 1000);
    s.reset(-7);
    assert_eq!(s.output(), -7);
    s.process_one();
    assert_eq!(s.output(), -7);
}

/// With no speed configured, a retarget takes effect at the next step.
#[test]
fn smoother_unconfigured_jumps() {
    let mut s = Smoother::new(3);
    s.set(42);
    s.process_one();
    assert_eq!(s.output(), 42);
}

use phasey::delayline::DelayLine;

const FP: u64 = 65536;

/// Priming law: while the line is unprimed and the buffered history is
/// shorter than the rounded-up target length, every pop returns exactly zero.
#[test]
fn priming_returns_silence() {
    let mut line = DelayLine::new(200, 2 * FP);
    for i in 0..10 {
        line.push(i + 1);
    }
    for _ in 0..20 {
        assert_eq!(line.pop(50 * FP), 0);
    }
}

/// Capacity 200, max speed two samples per call, samples 0..=99 pushed, then
/// a fixed target of 50: the output is the sample 49 places behind the write
/// position, and stays there while the target holds.
#[test]
fn scenario_fixed_target_converges() {
    let mut line = DelayLine::new(200, 2 * FP);
    for i in 0..100 {
        line.push(i);
    }
    for _ in 0..10 {
        assert_eq!(line.pop(50 * FP), 51);
    }
}

/// Rate limit: with max speed one sample per call, a target jump of ten
/// samples is chased one sample per pop, never faster.
#[test]
fn slew_limits_target_jumps() {
    let mut line = DelayLine::new(100, FP);
    for i in 0..60 {
        line.push(i);
    }
    // First non-priming call snaps straight to the target.
    assert_eq!(line.pop(10 * FP), 51);
    // The target jumps to 20; the effective length moves 1.0 per call.
    assert_eq!(line.pop(20 * FP), 50);
    assert_eq!(line.pop(20 * FP), 49);
    assert_eq!(line.pop(20 * FP), 48);
}

/// Convergence: after the slew catches up with a constant integer target,
/// the output holds the exact sample value from that offset.
#[test]
fn convergence_after_slew() {
    let mut line = DelayLine::new(100, 2 * FP);
    for i in 0..60 {
        line.push(i * 10);
    }
    assert_eq!(line.pop(10 * FP), 510);
    assert_eq!(line.pop(14 * FP), 490);
    assert_eq!(line.pop(14 * FP), 470);
    // Caught up: from here the output is pinned to the target offset.
    assert_eq!(line.pop(14 * FP), 470);
    assert_eq!(line.pop(14 * FP), 470);
}

/// A fractional target length interpolates linearly between the two
/// neighbouring samples: one and a half samples of delay between 10 and 20
/// reads their midpoint.
#[test]
fn fractional_length_interpolates() {
    let mut line = DelayLine::new(10, 0);
    line.push(10);
    line.push(20);
    assert_eq!(line.pop(3 * FP / 2), 15);
}

/// `clear` discards history and returns the line to the unprimed state.
#[test]
fn clear_unprimes() {
    let mut line = DelayLine::new(50, 0);
    for i in 0..50 {
        line.push(i + 100);
    }
    assert_ne!(line.pop(10 * FP), 0);
    line.clear();
    assert_eq!(line.pop(10 * FP), 0);
}

/// Pushing into a full line overwrites the oldest sample: the window slides.
#[test]
fn full_line_slides_window() {
    let mut line = DelayLine::new(2, 0);
    line.push(1);
    line.push(2);
    line.push(3);
    line.push(4);
    // A length of one sample reads the newest sample.
    assert_eq!(line.pop(FP), 4);
}

/// The rate limit zero means unlimited: a big jump is followed at once
/// (within the buffered history).
#[test]
fn zero_max_speed_is_unlimited() {
    let mut line = DelayLine::new(100, 0);
    for i in 0..60 {
        line.push(i);
    }
    assert_eq!(line.pop(10 * FP), 51);
    assert_eq!(line.pop(40 * FP), 21);
}

//! Variable-rate interpolated playback over a bounded circular history.
//!
//! `push` records one sample; `pop` returns one output sample read
//! `target_length` samples behind the write position, where `target_length`
//! is a Q16.16 fixed-point count of samples.  The effective length glides
//! toward the target at no more than `max_speed` per call: reading history at
//! a continuously changing offset is a variable-speed tape head, so the glide
//! is the pitch-shift mechanism, and the rate limit is what turns a jump in
//! delay into a smooth pitch bend instead of a click.

use vstd::prelude::*;

verus! {

use crate::FP_ONE;
use crate::ring::Ring;
use crate::ring::MAX_RING_CAPACITY;

/// Largest delay length, in Q16.16 samples, that a line can be asked for:
/// the largest capacity times one whole unit.
pub const MAX_LENGTH_FP: u64 = 0x0100_0000 * 65536;

/// Offset that maps an `i32` sample onto a non-negative value, so that the
/// interpolation arithmetic stays unsigned.
pub const SAMPLE_OFFSET: i64 = 0x8000_0000;

pub struct DelayLine {
    /// Buffered history, oldest first.
    pub ring: Ring,
    /// Last effective delay length used, Q16.16; `0` means unprimed.
    pub last_length: u64,
    /// Largest permitted change of the delay length per `pop`, Q16.16;
    /// `0` means unlimited.
    pub max_speed: u64,
}

/// Ceiling of a Q16.16 length, in whole samples.
pub open spec fn spec_fp_ceil(x: int) -> int {
    (x + FP_ONE - 1) / (FP_ONE as int)
}

/// The delay length one `pop` call slews to before the history clamp: the
/// target itself, unless it is further than `max_speed` away from the last
/// length, in which case the length moves by exactly `max_speed` toward it
/// (`max_speed == 0` meaning no limit).
pub open spec fn spec_slewed(last: int, target: int, max_speed: int) -> int {
    if target >= last {
        if max_speed > 0 && target - last > max_speed {
            last + max_speed
        } else {
            target
        }
    } else {
        if max_speed > 0 && last - target > max_speed {
            last - max_speed
        } else {
            target
        }
    }
}

/// The delay length after one `pop` over `len` buffered samples: the slewed
/// length, except that a length asking for samples not yet buffered falls
/// back to one whole sample of growth, held inside the buffered history.
pub open spec fn spec_next_length(len: int, last: int, target: int, max_speed: int) -> int {
    let slewed = spec_slewed(last, target, max_speed);
    if slewed > len * FP_ONE {
        if last + FP_ONE > len * FP_ONE {
            len * FP_ONE
        } else {
            last + FP_ONE
        }
    } else {
        slewed
    }
}

/// Linear interpolation between two samples: weight `t` (Q16.16, below one)
/// on `s0` and the rest on `s1`, rounded down after mapping both onto
/// non-negative values.
pub open spec fn spec_lerp(s0: int, s1: int, t: int) -> int {
    ((s1 + SAMPLE_OFFSET) * (FP_ONE - t) + (s0 + SAMPLE_OFFSET) * t) / (FP_ONE as int)
        - SAMPLE_OFFSET
}

/// The interpolated output of a read of length `next` (Q16.16) over the
/// window `w`: the fractional-delay tap between the sample `ceil(next)`
/// places behind the write position and its newer neighbour.
pub open spec fn spec_tap(w: Seq<i32>, next: int) -> int {
    let nceil = spec_fp_ceil(next);
    let ri = w.len() - nceil;
    let t = nceil * FP_ONE - next;
    let s0 = w[ri];
    let s1 = if ri + 1 < w.len() {
        w[ri + 1]
    } else {
        w[ri]
    };
    spec_lerp(s0 as int, s1 as int, t)
}

/// The window left once a full line makes room for the next push.
pub open spec fn spec_evict(w: Seq<i32>, cap: int) -> Seq<i32> {
    if w.len() == cap {
        w.subrange(1, w.len() as int)
    } else {
        w
    }
}

/// Whether a `pop` at `target` over the pre-call state (`w0` buffered, `last`
/// effective length) is still priming: unprimed with too little history.
pub open spec fn spec_pop_priming(w0: Seq<i32>, cap: int, last: int, target: int) -> bool {
    last == 0 && (spec_evict(w0, cap).len() as int) < spec_fp_ceil(target)
}

/// The effective delay length after a `pop` at `target` over the pre-call
/// state: unchanged while priming, snapped to the target on the first
/// non-priming call, then rate-limited and held inside the history.
pub open spec fn spec_pop_last(
    w0: Seq<i32>,
    cap: int,
    last: int,
    max_speed: int,
    target: int,
) -> int {
    if spec_pop_priming(w0, cap, last, target) {
        0
    } else {
        let len = spec_evict(w0, cap).len() as int;
        let last0 = if last == 0 {
            target
        } else {
            last
        };
        spec_next_length(len, last0, target, max_speed)
    }
}

/// The sample a `pop` at `target` returns over the pre-call state: silence
/// while priming or at zero length, otherwise the interpolated tap at the new
/// effective length.
pub open spec fn spec_pop_out(
    w0: Seq<i32>,
    cap: int,
    last: int,
    max_speed: int,
    target: int,
) -> int {
    let next = spec_pop_last(w0, cap, last, max_speed, target);
    if next == 0 {
        0
    } else {
        spec_tap(spec_evict(w0, cap), next)
    }
}

/// Characterisation of `spec_fp_ceil` over a window of `len` samples.
proof fn lemma_fp_ceil_range(x: int, len: int)
    requires
        1 <= x,
        x <= len * FP_ONE,
    ensures
        1 <= spec_fp_ceil(x) <= len,
        spec_fp_ceil(x) * FP_ONE >= x,
        spec_fp_ceil(x) * FP_ONE < x + FP_ONE,
{
    let f = FP_ONE as int;
    let c = spec_fp_ceil(x);
    vstd::arithmetic::div_mod::lemma_fundamental_div_mod(x + f - 1, f);
    vstd::arithmetic::div_mod::lemma_mod_division_less_than_divisor(x + f - 1, f);
    assert(c * f >= x);
    assert(c * f < x + f);
    assert(c >= 1) by (nonlinear_arith)
        requires
            c * f >= x,
            x >= 1,
            f > 0,
    ;
    assert(c <= len) by (nonlinear_arith)
        requires
            c * f < x + f,
            x <= len * f,
            f > 0,
    ;
}

/// Weight `t` of a read of length `next` is a proper Q16.16 fraction.
proof fn lemma_tap_weight(x: int)
    requires
        1 <= x,
    ensures
        0 <= spec_fp_ceil(x) * FP_ONE - x < FP_ONE,
{
    let f = FP_ONE as int;
    vstd::arithmetic::div_mod::lemma_fundamental_div_mod(x + f - 1, f);
    vstd::arithmetic::div_mod::lemma_mod_division_less_than_divisor(x + f - 1, f);
}

/// Linear interpolation of two samples, with the weight `t` (Q16.16, below
/// one) on `y` and the rest on `x`: the fractional-delay tap between two
/// neighbouring samples.  The result never leaves the interval they span.
fn lerp(x: i32, y: i32, t: u64) -> (out: i32)
    requires
        t < FP_ONE,
    ensures
        out == spec_lerp(y as int, x as int, t as int),
        out >= x || out >= y,
        out <= x || out <= y,
{
    let a: u64 = ((x as i64) + SAMPLE_OFFSET) as u64;
    let b: u64 = ((y as i64) + SAMPLE_OFFSET) as u64;
    proof {
        let f = FP_ONE as int;
        assert(a * (FP_ONE - t) + b * t <= 0xFFFF_FFFF * f) by (nonlinear_arith)
            requires
                a <= 0xFFFF_FFFF,
                b <= 0xFFFF_FFFF,
                0 <= t < f,
                f == 65536,
        ;
    }
    let num: u64 = a * (FP_ONE - t) + b * t;
    let q: u64 = num / FP_ONE;
    proof {
        let f = FP_ONE as int;
        let lo = if a <= b {
            a as int
        } else {
            b as int
        };
        let hi = if a <= b {
            b as int
        } else {
            a as int
        };
        assert(lo * f <= num <= hi * f) by (nonlinear_arith)
            requires
                0 <= t < f,
                lo <= a <= hi,
                lo <= b <= hi,
                num == a * (f - t) + b * t,
        ;
        vstd::arithmetic::div_mod::lemma_div_is_ordered(lo * f, num as int, f);
        vstd::arithmetic::div_mod::lemma_div_is_ordered(num as int, hi * f, f);
        vstd::arithmetic::div_mod::lemma_div_multiples_vanish(lo, f);
        vstd::arithmetic::div_mod::lemma_div_multiples_vanish(hi, f);
    }
    ((q as i64) - SAMPLE_OFFSET) as i32
}

impl DelayLine {
    /// The buffered history, oldest sample first.
    pub open spec fn window(self) -> Seq<i32> {
        self.ring.contents()
    }

    /// The fixed total capacity of the history buffer.
    pub open spec fn cap(self) -> int {
        self.ring.cap()
    }

    /// Well-formedness: the effective length always resolves inside the
    /// buffered history, and stays a strict sample short of the capacity so
    /// that the eviction made for each push cannot strand it.
    pub open spec fn wf(self) -> bool {
        &&& self.ring.wf()
        &&& self.last_length <= self.window().len() * FP_ONE
        &&& self.last_length <= (self.cap() - 1) * FP_ONE
        &&& self.max_speed <= MAX_LENGTH_FP
    }

    /// A new line able to represent delays up to `bufsize` whole samples
    /// (one guard sample is added), unprimed, with the given rate limit.
    pub fn new(bufsize: usize, max_speed: u64) -> (line: DelayLine)
        requires
            bufsize < MAX_RING_CAPACITY,
            max_speed <= MAX_LENGTH_FP,
        ensures
            line.wf(),
            line.cap() == bufsize + 1,
            line.window() == Seq::<i32>::empty(),
            line.last_length == 0,
            line.max_speed == max_speed,
    {
        DelayLine { ring: Ring::new(bufsize + 1), last_length: 0, max_speed }
    }

    /// Append one sample at the write position; when the buffer is at
    /// capacity the oldest sample is overwritten, keeping a sliding window
    /// of the most recent `cap` samples.
    pub fn push(&mut self, x: i32)
        requires
            old(self).wf(),
        ensures
            final(self).wf(),
            final(self).cap() == old(self).cap(),
            final(self).last_length == old(self).last_length,
            final(self).max_speed == old(self).max_speed,
            final(self).window() == spec_evict(old(self).window(), old(self).cap()).push(x),
    {
        proof {
            self.ring.lemma_bounds();
        }
        if self.ring.len() == self.ring.capacity() {
            let _ = self.ring.pop_front();
        }
        self.ring.push_back(x);
    }

    /// Discard the buffered history and return to the unprimed state.
    pub fn clear(&mut self)
        requires
            old(self).wf(),
        ensures
            final(self).wf(),
            final(self).cap() == old(self).cap(),
            final(self).max_speed == old(self).max_speed,
            final(self).window() == Seq::<i32>::empty(),
            final(self).last_length == 0,
    {
        self.ring.clear();
        self.last_length = 0;
    }

    /// Read one interpolated sample `target_length` (Q16.16 samples) behind
    /// the write position, advancing the rate-limited effective length.
    ///
    /// While the line is unprimed and the history is still shorter than
    /// `ceil(target_length)`, the output is exactly `0` and the line stays
    /// unprimed.  The first non-priming call snaps the effective length to
    /// the target with no slew; after that each call moves it by at most
    /// `max_speed`, with the fallback of one whole sample of growth when the
    /// slewed length would outrun the buffered history.
    pub fn pop(&mut self, target_length: u64) -> (out: i32)
        requires
            old(self).wf(),
            target_length <= MAX_LENGTH_FP,
        ensures
            final(self).wf(),
            final(self).cap() == old(self).cap(),
            final(self).max_speed == old(self).max_speed,
            final(self).window() == spec_evict(old(self).window(), old(self).cap()),
            final(self).last_length == spec_pop_last(
                old(self).window(),
                old(self).cap(),
                old(self).last_length as int,
                old(self).max_speed as int,
                target_length as int,
            ),
            out == spec_pop_out(
                old(self).window(),
                old(self).cap(),
                old(self).last_length as int,
                old(self).max_speed as int,
                target_length as int,
            ),
    {
        proof {
            self.ring.lemma_bounds();
        }
        // Make room so the caller's matching push cannot drop a sample.
        if self.ring.len() == self.ring.capacity() {
            let _ = self.ring.pop_front();
        }
        proof {
            self.ring.lemma_bounds();
        }
        let len: usize = self.ring.len();
        let len_fp: u64 = (len as u64) * FP_ONE;
        let target_ceil: u64 = (target_length + FP_ONE - 1) / FP_ONE;

        // Priming: not enough history yet, the output stays silent.
        if self.last_length == 0 && (len as u64) < target_ceil {
            return 0;
        }
        // First non-priming call: snap straight to the target, no slew.
        if self.last_length == 0 {
            self.last_length = target_length;
        }
        let last: u64 = self.last_length;

        // Rate-limited step toward the target.
        let mut next: u64;
        if target_length >= last {
            let d: u64 = target_length - last;
            if self.max_speed > 0 && d > self.max_speed {
                next = last + self.max_speed;
            } else {
                next = target_length;
            }
        } else {
            let d: u64 = last - target_length;
            if self.max_speed > 0 && d > self.max_speed {
                next = last - self.max_speed;
            } else {
                next = target_length;
            }
        }
        // History clamp: never read samples not yet buffered.
        if next > len_fp {
            next = last + FP_ONE;
            if next > len_fp {
                next = len_fp;
            }
        }
        self.last_length = next;
        if next == 0 {
            return 0;
        }

        proof {
            lemma_fp_ceil_range(next as int, len as int);
            lemma_tap_weight(next as int);
        }
        let nceil: u64 = (next + FP_ONE - 1) / FP_ONE;
        let ri: usize = len - (nceil as usize);
        let t: u64 = nceil * FP_ONE - next;
        let s0: i32 = self.ring.get(ri);
        let s1: i32 = if ri + 1 < len {
            self.ring.get(ri + 1)
        } else {
            s0
        };
        lerp(s1, s0, t)
    }
}

/// Law: once primed and rate-limited, one `pop` moves the effective delay
/// length by at most `max_speed` whenever the slewed length stays within the
/// buffered history; and in every case, the history clamp included, it never
/// moves down by more than `max_speed` nor up by more than the larger of
/// `max_speed` and one whole sample.  (With `max_speed` below one sample the
/// clamp's forced one-sample step can exceed it: that is the one exception.)
pub proof fn lemma_pop_slew_bounded(
    w0: Seq<i32>,
    cap: int,
    last: int,
    max_speed: int,
    target: int,
)
    requires
        0 < max_speed,
        0 <= target,
        0 < last <= spec_evict(w0, cap).len() * FP_ONE,
    ensures
        ({
            let next = spec_pop_last(w0, cap, last, max_speed, target);
            &&& (spec_slewed(last, target, max_speed) <= spec_evict(w0, cap).len()
                * FP_ONE ==> -max_speed <= next - last <= max_speed)
            &&& -max_speed <= next - last
            &&& next - last <= (if max_speed > FP_ONE {
                max_speed as int
            } else {
                FP_ONE as int
            })
        }),
{
}

/// Law: while a constant target stays within the buffered history, each pop
/// of a primed, rate-limited line closes the gap between the effective
/// length and the target by exactly `max_speed`, until the gap is gone: the
/// slew always catches up after finitely many calls.
pub proof fn lemma_pop_closes_gap(
    w0: Seq<i32>,
    cap: int,
    last: int,
    max_speed: int,
    target: int,
)
    requires
        0 < max_speed,
        0 < last <= spec_evict(w0, cap).len() * FP_ONE,
        0 <= target <= spec_evict(w0, cap).len() * FP_ONE,
    ensures
        ({
            let next = spec_pop_last(w0, cap, last, max_speed, target);
            let gap = if target >= last {
                target - last
            } else {
                last - target
            };
            let new_gap = if target >= next {
                target - next
            } else {
                next - target
            };
            new_gap == (if gap <= max_speed {
                0
            } else {
                gap - max_speed
            })
        }),
{
}

/// Law: a pop whose target the effective length has already caught up with,
/// at a whole number `n` of samples, leaves the length unchanged and returns
/// exactly the buffered sample `n` places behind the write position (its
/// newest sample when `n` is one).
pub proof fn lemma_converged_tap(w: Seq<i32>, n: int, max_speed: int)
    requires
        1 <= n <= w.len(),
        0 <= max_speed,
    ensures
        spec_next_length(w.len() as int, n * FP_ONE, n * FP_ONE, max_speed) == n * FP_ONE,
        spec_tap(w, n * FP_ONE) == (if n >= 2 {
            w[w.len() - n + 1]
        } else {
            w[w.len() - 1]
        }),
{
    let f = FP_ONE as int;
    let x = n * f;
    assert(n * f <= w.len() * f) by (nonlinear_arith)
        requires
            n <= w.len(),
            f > 0,
    ;
    assert(n * f >= f) by (nonlinear_arith)
        requires
            n >= 1,
            f > 0,
    ;
    assert(spec_fp_ceil(x) == n) by {
        assert((n * f + f - 1) / f == n) by {
            vstd::arithmetic::div_mod::lemma_fundamental_div_mod_converse(
                n * f + f - 1,
                f,
                n,
                f - 1,
            );
        }
    }
    let s1 = if w.len() - n + 1 < w.len() {
        w[w.len() - n + 1]
    } else {
        w[w.len() - n]
    };
    assert(spec_lerp(w[w.len() - n] as int, s1 as int, 0) == s1) by {
        vstd::arithmetic::div_mod::lemma_div_multiples_vanish(
            s1 + SAMPLE_OFFSET,
            FP_ONE as int,
        );
    }
}

} // verus!

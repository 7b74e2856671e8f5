//! Fixed-capacity circular queue of audio samples.
//!
//! One producer and one consumer on the same thread alternate `push_back` and
//! `pop_front`, so a plain array with a head index and a length counter is
//! enough: no channel, no atomics.  The storage is allocated once at
//! construction and never grows.

use vstd::prelude::*;

verus! {

/// Hard cap on the queue capacity: keeps `capacity * FP_ONE` and every index
/// product comfortably inside `u64`.
pub const MAX_RING_CAPACITY: usize = 0x0100_0000;

pub struct Ring {
    data: Vec<i32>,
    head: usize,
    len: usize,
}

impl Ring {
    /// The buffered samples, oldest first.
    pub closed spec fn contents(self) -> Seq<i32> {
        Seq::new(self.len as nat, |i: int| self.data@[(self.head + i) % (self.data@.len() as int)])
    }

    /// The fixed capacity chosen at construction.
    pub closed spec fn cap(self) -> int {
        self.data@.len() as int
    }

    pub closed spec fn wf(self) -> bool {
        &&& 1 <= self.data@.len() <= MAX_RING_CAPACITY
        &&& self.head < self.data@.len()
        &&& self.len <= self.data@.len()
    }

    /// Bounds that every well-formed queue obeys: the capacity is fixed
    /// between one and `MAX_RING_CAPACITY`, and never exceeded.
    pub proof fn lemma_bounds(&self)
        requires
            self.wf(),
        ensures
            1 <= self.cap() <= MAX_RING_CAPACITY,
            self.contents().len() <= self.cap(),
    {
    }

    /// A new empty queue of the given capacity.
    pub fn new(capacity: usize) -> (ring: Ring)
        requires
            1 <= capacity <= MAX_RING_CAPACITY,
        ensures
            ring.wf(),
            ring.cap() == capacity,
            ring.contents() == Seq::<i32>::empty(),
    {
        let mut data: Vec<i32> = Vec::new();
        let mut i: usize = 0;
        while i < capacity
            invariant
                i <= capacity,
                data@.len() == i,
            decreases capacity - i,
        {
            data.push(0);
            i = i + 1;
        }
        let ring = Ring { data, head: 0, len: 0 };
        proof {
            assert(ring.contents() =~= Seq::<i32>::empty());
        }
        ring
    }

    pub fn len(&self) -> (n: usize)
        ensures
            n == self.contents().len(),
    {
        self.len
    }

    pub fn capacity(&self) -> (n: usize)
        ensures
            n == self.cap(),
    {
        self.data.len()
    }

    /// The buffered sample `i` places after the oldest one.
    pub fn get(&self, i: usize) -> (sample: i32)
        requires
            self.wf(),
            i < self.contents().len(),
        ensures
            sample == self.contents()[i as int],
    {
        let cap: usize = self.data.len();
        let raw: usize = self.head + i;
        let idx: usize = if raw >= cap {
            raw - cap
        } else {
            raw
        };
        proof {
            lemma_wrapped_index(raw as int, cap as int);
        }
        self.data[idx]
    }

    /// Append one sample at the tail.  The queue must not be full.
    pub fn push_back(&mut self, sample: i32)
        requires
            old(self).wf(),
            old(self).contents().len() < old(self).cap(),
        ensures
            final(self).wf(),
            final(self).cap() == old(self).cap(),
            final(self).contents() == old(self).contents().push(sample),
    {
        let cap: usize = self.data.len();
        let raw: usize = self.head + self.len;
        let idx: usize = if raw >= cap {
            raw - cap
        } else {
            raw
        };
        proof {
            lemma_wrapped_index(raw as int, cap as int);
        }
        self.data[idx] = sample;
        self.len = self.len + 1;
        proof {
            let capi = self.data@.len() as int;
            assert forall|i: int| 0 <= i < self.len - 1 implies #[trigger] ((self.head + i)
                % capi) != idx as int by {
                lemma_wrapped_index(self.head + i, capi);
            }
            assert(self.contents() =~= old(self).contents().push(sample)) by {
                assert forall|i: int| 0 <= i < self.len implies self.contents()[i] == old(
                    self,
                ).contents().push(sample)[i] by {
                    lemma_wrapped_index(self.head + i, capi);
                }
            }
        }
    }

    /// Remove and return the oldest sample.  The queue must not be empty.
    pub fn pop_front(&mut self) -> (sample: i32)
        requires
            old(self).wf(),
            old(self).contents().len() > 0,
        ensures
            final(self).wf(),
            final(self).cap() == old(self).cap(),
            sample == old(self).contents()[0],
            final(self).contents() == old(self).contents().subrange(
                1,
                old(self).contents().len() as int,
            ),
    {
        let cap: usize = self.data.len();
        let sample: i32 = self.data[self.head];
        let raw: usize = self.head + 1;
        self.head = if raw >= cap {
            raw - cap
        } else {
            raw
        };
        self.len = self.len - 1;
        proof {
            let capi = self.data@.len() as int;
            lemma_wrapped_index(old(self).head + 1, capi);
            vstd::arithmetic::div_mod::lemma_small_mod(old(self).head as nat, capi as nat);
            assert(self.contents() =~= old(self).contents().subrange(
                1,
                old(self).contents().len() as int,
            )) by {
                assert forall|i: int| 0 <= i < self.len implies self.contents()[i] == old(
                    self,
                ).contents()[i + 1] by {
                    lemma_wrapped_index(self.head + i, capi);
                    lemma_wrapped_index(old(self).head + (i + 1), capi);
                }
            }
        }
        sample
    }

    /// Discard every buffered sample.
    pub fn clear(&mut self)
        requires
            old(self).wf(),
        ensures
            final(self).wf(),
            final(self).cap() == old(self).cap(),
            final(self).contents() == Seq::<i32>::empty(),
    {
        self.len = 0;
        proof {
            assert(self.contents() =~= Seq::<i32>::empty());
        }
    }
}

/// A raw position `head + i` that is less than twice the capacity wraps to
/// `raw - cap` when it passes the end of the storage.
proof fn lemma_wrapped_index(raw: int, cap: int)
    requires
        0 < cap,
        0 <= raw < 2 * cap,
    ensures
        raw % cap == if raw < cap {
            raw
        } else {
            raw - cap
        },
{
    if raw < cap {
        vstd::arithmetic::div_mod::lemma_small_mod(raw as nat, cap as nat);
    } else {
        vstd::arithmetic::div_mod::lemma_mod_add_multiples_vanish(raw - cap, cap);
        vstd::arithmetic::div_mod::lemma_small_mod((raw - cap) as nat, cap as nat);
    }
}

} // verus!

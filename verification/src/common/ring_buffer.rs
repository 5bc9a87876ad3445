//! A fixed-capacity FIFO queue stored in a circular buffer.

use vstd::prelude::*;
use crate::common::queue::{Queue, filter_by};

verus! {

/// Position of the `i`-th element after `head` in a ring of `n` slots.
pub open spec fn ring_index(head: int, i: int, n: int) -> int {
    if head + i < n { head + i } else { head + i - n }
}

/// The number of elements between `head` (inclusive) and `tail`
/// (exclusive) in a ring of `n` slots.
pub open spec fn ring_count(head: int, tail: int, n: int) -> int {
    if head <= tail { tail - head } else { n - head + tail }
}

/// A circular buffer of `T` used as a queue. One slot always stays free,
/// so a ring of `n` slots holds at most `n - 1` elements.
pub struct RingBuffer<T> {
    ring: Vec<T>,
    head: usize,
    tail: usize,
}

impl<T> RingBuffer<T> {
    /// The buffer's indices are inside the ring (both zero for an empty ring).
    pub closed spec fn wf(&self) -> bool {
        if self.ring.len() == 0 {
            self.head == 0 && self.tail == 0
        } else {
            self.head < self.ring.len() && self.tail < self.ring.len()
        }
    }

    /// The number of slots in the ring.
    pub closed spec fn capacity(&self) -> nat {
        self.ring@.len()
    }

    /// How many of the queued elements lie in one contiguous run starting
    /// at the front of the queue.
    pub closed spec fn first_run_len(&self) -> nat {
        if self.head <= self.tail {
            (self.tail - self.head) as nat
        } else {
            (self.ring@.len() - self.head) as nat
        }
    }
}

impl<T> View for RingBuffer<T> {
    type V = Seq<T>;

    /// The queued elements, front first.
    closed spec fn view(&self) -> Seq<T> {
        Seq::new(
            ring_count(self.head as int, self.tail as int, self.ring@.len() as int) as nat,
            |i: int| self.ring@[ring_index(self.head as int, i, self.ring@.len() as int)],
        )
    }
}

/// Exactly `available_len()` more elements fit: with `len` elements queued
/// in a ring of `capacity` slots, the `i`-th further `enqueue` (counting
/// from 0) succeeds exactly when `i` is below the room `available_len`
/// reports.
pub proof fn law_room_is_available_len(capacity: nat, len: nat, i: nat)
    requires
        capacity > 0,
        len + 1 <= capacity,
    ensures
        (len + i + 1 < capacity) <==> (i < capacity - 1 - len),
{
}

/// A queue is first in, first out: after `x` is queued behind the
/// elements `q`, the next dequeue gives the front of `q` (or `x` if `q` is
/// empty), and `x` comes out after all of `q`.
pub proof fn law_queue_fifo<T>(q: Seq<T>, x: T)
    ensures
        q.push(x)[0] == if q.len() > 0 { q[0] } else { x },
        q.len() > 0 ==> q.push(x).drop_first() == q.drop_first().push(x),
        q.push(x).skip(q.len() as int) == seq![x],
{
    assert(q.push(x).skip(q.len() as int) =~= seq![x]);
    if q.len() > 0 {
        assert(q.push(x).drop_first() =~= q.drop_first().push(x));
    }
}

proof fn lemma_ring_index_facts(h: int, t: int, n: int)
    requires
        0 <= h < n,
        0 <= t < n,
    ensures
        ring_index(h, ring_count(h, t, n), n) == t,
        forall|i: int| 0 <= i < ring_count(h, t, n) ==> ring_index(h, i, n) != t,
        forall|i: int| #![trigger ring_index(h, i, n)] 0 <= i < n ==> 0 <= ring_index(h, i, n) < n,
{
}

proof fn lemma_ring_index_distinct(h: int, n: int)
    requires
        0 <= h < n,
    ensures
        forall|a: int, b: int|
            #![trigger ring_index(h, a, n), ring_index(h, b, n)]
            0 <= a < n && 0 <= b < n && a != b ==> ring_index(h, a, n) != ring_index(h, b, n),
        forall|j: int| #![trigger ring_index(h, j, n)] 0 <= j < n ==> ring_count(h, ring_index(h, j, n), n) == j,
{
}

proof fn lemma_mod_step(t: usize, n: usize)
    requires
        t < n,
    ensures
        (t + 1) as usize % n == if t + 1 < n { t + 1 } else { 0 },
{
    if t + 1 < n {
        vstd::arithmetic::div_mod::lemma_small_mod((t + 1) as nat, n as nat);
    } else {
        vstd::arithmetic::div_mod::lemma_mod_self_0(n as int);
    }
}

impl<T: Copy> RingBuffer<T> {
    /// Creates a queue over the slots of `ring`; it starts empty.
    pub fn new(ring: Vec<T>) -> (r: RingBuffer<T>)
        ensures
            r.wf(),
            r@ == Seq::<T>::empty(),
            r.capacity() == ring@.len(),
    {
        RingBuffer { head: 0, tail: 0, ring: ring }
    }

    /// How many more elements the queue can take.
    pub fn available_len(&self) -> (r: usize)
        requires
            self.wf(),
        ensures
            r == if self.capacity() >= 1 + self@.len() { self.capacity() - 1 - self@.len() } else { 0 },
            self.capacity() > 0 ==> r + self@.len() + 1 == self.capacity(),
    {
        let l = self.len();
        self.ring.len().saturating_sub(1 + l)
    }

    /// The queued elements as at most two contiguous slices of the ring,
    /// front first; both are `None` when the queue is empty.
    pub fn as_slices(&self) -> (r: (Option<&[T]>, Option<&[T]>))
        requires
            self.wf(),
        ensures
            self@.len() == 0 <==> r.0.is_none(),
            r.0.is_none() ==> r.1.is_none(),
            r.0 matches Some(a) ==> a@ == self@.take(self.first_run_len() as int) && a@.len() > 0,
            r.1 matches Some(b) ==> b@ == self@.skip(self.first_run_len() as int) && b@.len() > 0,
            r.0.is_some() && r.1.is_none() ==> self.first_run_len() == self@.len(),
            self.first_run_len() <= self@.len(),
            r.0 matches Some(a) ==> a@ + (match r.1 {
                Some(b) => b@,
                None => Seq::<T>::empty(),
            }) == self@,
    {
        if self.head < self.tail {
            let s = self.ring.as_slice();
            let a = &s[self.head..self.tail];
            assert(a@ =~= self@.take(self.first_run_len() as int));
            (Some(a), None)
        } else if self.head > self.tail {
            let (left, right) = self.ring.as_slice().split_at(self.head);
            assert(right@ =~= self@.take(self.first_run_len() as int));
            if self.tail == 0 {
                assert(self@.len() == self.first_run_len());
                (Some(right), None)
            } else {
                let b = &left[0..self.tail];
                assert(b@ =~= self@.skip(self.first_run_len() as int));
                (Some(right), Some(b))
            }
        } else {
            (None, None)
        }
    }
}

impl<T: Copy> Queue<T> for RingBuffer<T> {
    fn has_elements(&self) -> (r: bool)
        ensures
            self.wf() ==> r == (self@.len() > 0),
    {
        self.head != self.tail
    }

    fn is_full(&self) -> (r: bool)
        ensures
            self.wf() && self.capacity() > 0 ==> r == (self@.len() + 1 == self.capacity()),
    {
        if self.ring.len() == 0 || self.tail >= self.ring.len() {
            // Out of the queue's valid states; the answer carries no meaning.
            return self.head == 0;
        }
        proof { lemma_mod_step(self.tail, self.ring.len()); }
        self.head == ((self.tail + 1) % self.ring.len())
    }

    fn len(&self) -> (r: usize)
        ensures
            self.wf() ==> r == self@.len(),
    {
        if self.tail > self.head {
            self.tail - self.head
        } else if self.tail < self.head {
            if self.head > self.ring.len() {
                return 0;
            }
            (self.ring.len() - self.head) + self.tail
        } else {
            0
        }
    }

    fn enqueue(&mut self, val: T) -> (r: bool)
        ensures
            old(self).wf() && old(self).capacity() > 0 ==> {
                &&& final(self).wf()
                &&& final(self).capacity() == old(self).capacity()
                &&& r == (old(self)@.len() + 1 < old(self).capacity())
                &&& r ==> final(self)@ == old(self)@.push(val)
                &&& !r ==> final(self)@ == old(self)@
            },
    {
        if self.head >= self.ring.len() || self.tail >= self.ring.len() {
            return false;
        }
        proof { lemma_mod_step(self.tail, self.ring.len()); }
        if ((self.tail + 1) % self.ring.len()) == self.head {
            false
        } else {
            let ghost old_view = self@;
            proof { lemma_ring_index_facts(self.head as int, self.tail as int, self.ring@.len() as int); }
            let ghost t0 = self.tail;
            self.ring.set(self.tail, val);
            self.tail = (self.tail + 1) % self.ring.len();
            let ghost n = self.ring@.len() as int;
            assert(ring_count(self.head as int, self.tail as int, n)
                == ring_count(self.head as int, t0 as int, n) + 1);
            assert forall|i: int| 0 <= i < self@.len() implies self@[i] == old_view.push(val)[i] by {
                if i < old_view.len() {
                    assert(ring_index(self.head as int, i, n) != t0);
                }
            }
            assert(self@ =~= old_view.push(val));
            true
        }
    }

    fn dequeue(&mut self) -> (r: Option<T>)
        ensures
            old(self).wf() ==> {
                &&& final(self).wf()
                &&& final(self).capacity() == old(self).capacity()
                &&& old(self)@.len() == 0 ==> r.is_none() && *final(self) == *old(self)
                &&& old(self)@.len() > 0 ==> r == Some(old(self)@[0])
                    && final(self)@ == old(self)@.drop_first()
            },
    {
        if self.has_elements() {
            if self.head >= self.ring.len() || self.tail >= self.ring.len() {
                return None;
            }
            let ghost old_view = self@;
            let ghost h0 = self.head;
            let val = self.ring[self.head];
            proof { lemma_mod_step(self.head, self.ring.len()); }
            self.head = (self.head + 1) % self.ring.len();
            let ghost n = self.ring@.len() as int;
            assert(ring_count(self.head as int, self.tail as int, n)
                == ring_count(h0 as int, self.tail as int, n) - 1);
            assert forall|i: int| 0 <= i < self@.len() implies self@[i] == old_view.drop_first()[i] by {
                assert(ring_index(self.head as int, i, n) == ring_index(h0 as int, i + 1, n));
            }
            assert(self@ =~= old_view.drop_first());
            Some(val)
        } else {
            None
        }
    }

    fn retain<F>(&mut self, f: F)
        where
            F: Fn(&T) -> bool,
        ensures
            old(self).wf() ==> {
                &&& final(self).wf()
                &&& final(self).capacity() == old(self).capacity()
                &&& exists|keep: Seq<bool>| {
                    &&& keep.len() == old(self)@.len()
                    &&& forall|i: int| 0 <= i < keep.len() ==> f.ensures((&old(self)@[i],), #[trigger] keep[i])
                    &&& final(self)@ == filter_by(old(self)@, keep)
                }
            },
    {
        let len = self.ring.len();
        if self.head >= len || self.tail >= len {
            proof {
                if old(self).wf() {
                    assert(filter_by(self@, Seq::<bool>::empty()) =~= self@);
                }
            }
            return;
        }
        let ghost n = len as int;
        let ghost h = self.head as int;
        let ghost old_view = self@;
        let ghost old_ring = self.ring@;
        let ghost count = old_view.len() as int;
        let ghost mut keep: Seq<bool> = Seq::empty();
        let ghost mut i: int = 0;
        let ghost mut j: int = 0;
        proof {
            lemma_ring_index_distinct(h, n);
            lemma_ring_index_facts(h, self.tail as int, n);
        }
        let mut src = self.head;
        let mut dst = self.head;
        while src != self.tail
            invariant
                len == self.ring@.len(),
                n == len,
                0 < n,
                h == self.head,
                0 <= h < n,
                self.tail < n,
                old_view.len() == count,
                count == ring_count(h, self.tail as int, n),
                count < n,
                old_ring.len() == n,
                forall|m: int| 0 <= m < count ==> old_view[m] == #[trigger] old_ring[ring_index(h, m, n)],
                forall|a: int, b: int|
                    #![trigger ring_index(h, a, n), ring_index(h, b, n)]
                    0 <= a < n && 0 <= b < n && a != b ==> ring_index(h, a, n) != ring_index(h, b, n),
                forall|q: int| #![trigger ring_index(h, q, n)] 0 <= q < n ==> ring_count(h, ring_index(h, q, n), n) == q,
                forall|q: int| #![trigger ring_index(h, q, n)] 0 <= q < n ==> 0 <= ring_index(h, q, n) < n,
                ring_index(h, count, n) == self.tail,
                0 <= j <= i <= count,
                src == ring_index(h, i, n),
                dst == ring_index(h, j, n),
                keep.len() == i,
                forall|q: int| 0 <= q < i ==> f.ensures((&old_view[q],), #[trigger] keep[q]),
                filter_by(old_view, keep).len() == j,
                forall|m: int| i <= m < count ==> #[trigger] self.ring@[ring_index(h, m, n)] == old_ring[ring_index(h, m, n)],
                forall|m: int| 0 <= m < j ==> #[trigger] self.ring@[ring_index(h, m, n)] == filter_by(old_view, keep)[m],
                forall|x: &T| f.requires((x,)),
            decreases count - i,
        {
            assert(i < count) by {
                if i >= count {
                    assert(i == count);
                }
            }
            let elem = self.ring[src];
            assert(elem == old_view[i]);
            let b = f(&self.ring[src]);
            let ghost prev = filter_by(old_view, keep);
            proof {
                let nk = keep.push(b);
                assert(nk.take(i) =~= keep);
            }
            if b {
                if src != dst {
                    self.ring.set(dst, elem);
                }
                proof { lemma_mod_step(dst, len); }
                dst = (dst + 1) % len;
                proof {
                    j = j + 1;
                }
            }
            proof {
                lemma_mod_step(src, len);
                keep = keep.push(b);
                i = i + 1;
                assert(filter_by(old_view, keep) == if b { prev.push(old_view[i - 1]) } else { prev });
                assert forall|m: int| 0 <= m < j implies #[trigger] self.ring@[ring_index(h, m, n)]
                    == filter_by(old_view, keep)[m] by {
                    if b && m != j - 1 {
                        assert(ring_index(h, m, n) != ring_index(h, j - 1, n));
                    }
                }
                assert forall|m: int| i <= m < count implies #[trigger] self.ring@[ring_index(h, m, n)]
                    == old_ring[ring_index(h, m, n)] by {
                    if b {
                        assert(ring_index(h, m, n) != ring_index(h, j - 1, n));
                    }
                }
            }
            src = (src + 1) % len;
        }
        proof {
            if i < count {
                assert(ring_index(h, i, n) != ring_index(h, count, n));
            }
            assert(i == count);
        }
        self.tail = dst;
        proof {
            assert(keep.len() == old_view.len());
            assert(self@ =~= filter_by(old_view, keep));
        }
    }

    fn empty(&mut self)
        ensures
            old(self).wf() ==> final(self).wf() && final(self)@ == Seq::<T>::empty()
                && final(self).capacity() == old(self).capacity(),
    {
        self.head = 0;
        self.tail = 0;
    }
}

} // verus!

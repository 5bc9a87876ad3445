//! Deferred call mechanism.
//!
//! This is a tool to allow chip peripherals to schedule "interrupts" in the
//! chip scheduler if the hardware doesn't support interrupts where they are
//! needed. The pending calls are the bits of a `DeferredCallState`, one bit
//! for each task.

use vstd::prelude::*;
use core::convert::TryFrom;

verus! {

/// The lowest set bit of a non-zero word.
pub open spec fn lowest_set_bit(v: usize) -> u32 {
    vstd::std_specs::bits::u64_trailing_zeros(v as u64)
}

/// Setting a call makes a call pending: after `set` of task `v`, there
/// are pending tasks.
pub proof fn law_set_makes_tasks_pending(bits: usize, v: usize)
    requires
        v < usize::BITS,
    ensures
        (bits | (1usize << v)) != 0,
{
    assert((bits | (1usize << v)) != 0) by (bit_vector)
        requires
            v < usize::BITS;
}

/// Pending calls come out lowest first: with the calls of tasks `a` and
/// `b > a` pending and nothing else, `next_pending` takes `a` and leaves
/// `b`; taking `b` then leaves nothing pending.
pub proof fn law_lowest_pending_first(a: usize, b: usize)
    requires
        a < b < usize::BITS,
    ensures
        lowest_set_bit((1usize << a) | (1usize << b)) == a,
        ((1usize << a) | (1usize << b)) & !(1usize << a) == (1usize << b),
        lowest_set_bit(1usize << b) == b,
        (1usize << b) & !(1usize << b) == 0,
{
    let x: usize = (1usize << a) | (1usize << b);
    assert(x & !(1usize << a) == (1usize << b)) by (bit_vector)
        requires
            a < b < usize::BITS,
            x == (1usize << a) | (1usize << b);
    assert((1usize << b) & !(1usize << b) == 0) by (bit_vector);
    assert((x >> a) & 1 == 1) by (bit_vector)
        requires
            a < b < usize::BITS,
            x == (1usize << a) | (1usize << b);
    assert forall|j: usize| j < a implies #[trigger] ((x >> j) & 1) == 0 by {
        assert((x >> j) & 1 == 0) by (bit_vector)
            requires
                j < a < b < usize::BITS,
                x == (1usize << a) | (1usize << b);
    }
    lemma_lowest_of_bit(x, a);
    let y: usize = 1usize << b;
    assert((y >> b) & 1 == 1) by (bit_vector)
        requires
            b < usize::BITS,
            y == 1usize << b;
    assert forall|j: usize| j < b implies #[trigger] ((y >> j) & 1) == 0 by {
        assert((y >> j) & 1 == 0) by (bit_vector)
            requires
                j < b < usize::BITS,
                y == 1usize << b;
    }
    lemma_lowest_of_bit(y, b);
}

/// The lowest set bit of a word whose bit `k` is set and whose lower bits
/// are clear is `k`.
proof fn lemma_lowest_of_bit(x: usize, k: usize)
    requires
        k < usize::BITS,
        ((x >> k) & 1) == 1,
        forall|j: usize| j < k ==> #[trigger] ((x >> j) & 1) == 0,
    ensures
        lowest_set_bit(x) == k,
{
    let y = x as u64;
    vstd::std_specs::bits::axiom_u64_trailing_zeros(y);
    let t = vstd::std_specs::bits::u64_trailing_zeros(y);
    assert(y >> (k as u64) & 1 == 1) by (bit_vector)
        requires
            k < usize::BITS,
            ((x >> k) & 1) == 1,
            y == x as u64;
    if t < k {
        let tt = t as usize;
        assert((x >> tt) & 1 == 0);
        assert(y >> (t as u64) & 1 == 0) by (bit_vector)
            requires
                (x >> tt) & 1 == 0,
                tt == t,
                t < 64,
                y == x as u64;
    } else if t > k {
        assert((y >> (k as u64)) & 1u64 == 0u64);
    }
}

/// The pending deferred calls: bit `i` is set if task `i` has a call
/// pending.
pub struct DeferredCallState {
    bits: usize,
}

impl DeferredCallState {
    pub closed spec fn spec_bits(&self) -> usize {
        self.bits
    }

    /// No calls pending.
    pub fn new() -> (r: DeferredCallState)
        ensures
            r.spec_bits() == 0,
    {
        DeferredCallState { bits: 0 }
    }
}

/// Are there any pending `DeferredCall`s?
pub fn has_tasks(state: &DeferredCallState) -> (r: bool)
    ensures
        r == (state.spec_bits() != 0),
{
    state.bits != 0
}

/// Represents a way to generate an asynchronous call without a hardware
/// interrupt. Supports up to as many possible deferred tasks as a `usize`
/// has bits.
pub struct DeferredCall<T>(pub T);

impl<T: Into<usize> + TryFrom<usize> + Copy> DeferredCall<T> {
    /// Creates a new DeferredCall.
    pub fn new(task: T) -> (r: Self)
        ensures
            r.0 == task,
    {
        DeferredCall(task)
    }

    /// Set the `DeferredCall` as pending. The task's number must be less
    /// than the number of bits of a `usize`.
    pub fn set(&self, state: &mut DeferredCallState)
        requires
            forall|v: usize| #[trigger] call_ensures(<T as Into<usize>>::into, (self.0,), v) ==> v < usize::BITS,
        ensures
            exists|v: usize| #[trigger] call_ensures(<T as Into<usize>>::into, (self.0,), v)
                && final(state).spec_bits() == old(state).spec_bits() | (1usize << v),
    {
        let bit: usize = self.0.into();
        state.bits = state.bits | (1usize << bit);
    }

    /// Gets and clears the next pending `DeferredCall`: the one with the
    /// lowest number.
    pub fn next_pending(state: &mut DeferredCallState) -> (r: Option<T>)
        ensures
            old(state).spec_bits() == 0 ==> r is None && final(state).spec_bits() == 0,
            old(state).spec_bits() != 0 ==> {
                &&& lowest_set_bit(old(state).spec_bits()) < usize::BITS
                &&& final(state).spec_bits() == old(state).spec_bits()
                    & !(1usize << lowest_set_bit(old(state).spec_bits()))
                &&& exists|x: Result<T, <T as TryFrom<usize>>::Error>| {
                    &&& #[trigger] call_ensures(<T as TryFrom<usize>>::try_from,
                        (lowest_set_bit(old(state).spec_bits()) as usize,), x)
                    &&& r == match x {
                        Ok(t) => Some(t),
                        Err(_) => None::<T>,
                    }
                }
            },
    {
        let val = state.bits;
        if val == 0 {
            None
        } else {
            let bit = (val as u64).trailing_zeros();
            proof {
                vstd::std_specs::bits::axiom_u64_trailing_zeros(val as u64);
                assert(val as u64 != 0) by (bit_vector)
                    requires
                        val != 0;
                assert((val as u64) < (1u64 << usize::BITS) || usize::BITS == 64) by (bit_vector);
                assert(bit < 64);
                assert(((val as u64) >> (bit as u64)) & 1u64 == 1u64);
                if bit >= usize::BITS {
                    assert(usize::BITS == 32);
                    assert((val as u64) >> (bit as u64) == 0) by (bit_vector)
                        requires
                            bit >= 32,
                            (val as u64) < (1u64 << 32),
                            bit < 64;
                    assert(((val as u64) >> (bit as u64)) & 1u64 == 0u64) by (bit_vector)
                        requires
                            (val as u64) >> (bit as u64) == 0;
                    assert(false);
                }
            }
            let new_val = val & !(1usize << bit);
            state.bits = new_val;
            let res = T::try_from(bit as usize);
            let r = match res {
                Ok(t) => Some(t),
                Err(_) => None,
            };
            proof {
                assert(call_ensures(<T as TryFrom<usize>>::try_from, (bit as usize,), res));
                assert(bit as usize == lowest_set_bit(old(state).spec_bits()) as usize);
                assert(r == match res {
                    Ok(t) => Some(t),
                    Err(_) => None::<T>,
                });
            }
            r
        }
    }
}

} // verus!

use vstd::prelude::*;

verus! {

/// A power of two: a nonzero value with a single bit set.
pub open spec fn is_power_of_two_u32(x: u32) -> bool {
    x != 0 && x & ((x - 1) as u32) == 0
}

/// The value that `closest_power_of_two` computes by smearing the highest
/// bit of `num - 1` into every lower position and adding one.
pub open spec fn smear_u32(n: u32) -> u32 {
    let b: u32 = n | (n >> 1u32);
    let c: u32 = b | (b >> 2u32);
    let d: u32 = c | (c >> 4u32);
    let e: u32 = d | (d >> 8u32);
    e | (e >> 16u32)
}

proof fn lemma_smear_rounds_up(num: u32)
    by (bit_vector)
    requires
        1 <= num <= 0x8000_0000,
    ensures
        smear_u32((num - 1) as u32) < 0xffff_ffff,
        is_power_of_two_u32((smear_u32((num - 1) as u32) + 1) as u32),
        num <= smear_u32((num - 1) as u32) + 1,
        (smear_u32((num - 1) as u32) + 1) / 2 < num,
{
}

/// Rounds `num` up to the nearest power of two.
pub fn closest_power_of_two(num: u32) -> (r: u32)
    requires
        1 <= num <= 0x8000_0000,
    ensures
        is_power_of_two_u32(r),
        num <= r,
        r / 2 < num,
{
    proof { lemma_smear_rounds_up(num); }
    let mut n: u32 = num - 1;
    n = n | (n >> 1);
    n = n | (n >> 2);
    n = n | (n >> 4);
    n = n | (n >> 8);
    n = n | (n >> 16);
    n + 1
}

} // verus!

verus! {

/// The base-two logarithm of `num` rounded down (`num >> r == 1`), and 0
/// for 0.
pub open spec fn floor_log2_u32(num: u32, r: u32) -> bool {
    if num == 0 { r == 0 } else { r < 32 && num >> r == 1 }
}

/// As [`floor_log2_u32`], for 64-bit values.
pub open spec fn floor_log2_u64(num: u64, r: u32) -> bool {
    if num == 0 { r == 0 } else { r < 64 && num >> (r as u64) == 1 }
}

proof fn lemma_top_bit_u32(x: u32, s: u32)
    by (bit_vector)
    requires
        s < 32,
        (x >> s) & 1u32 != 0u32,
        x >> ((s + 1) as u32) == 0,
    ensures
        x >> s == 1,
{
}

proof fn lemma_top_bit_u64(x: u64, s: u64)
    by (bit_vector)
    requires
        s < 64,
        (x >> s) & 1u64 != 0u64,
        x >> ((s + 1) as u64) == 0,
    ensures
        x >> s == 1,
{
}

/// Get log base 2 of a number, rounded down; 0 for 0.
pub fn log_base_two(num: u32) -> (r: u32)
    ensures
        floor_log2_u32(num, r),
{
    if num == 0 {
        0
    } else {
        let lz = num.leading_zeros();
        proof {
            vstd::std_specs::bits::axiom_u32_leading_zeros(num);
            lemma_top_bit_u32(num, (31 - lz) as u32);
        }
        31 - lz
    }
}

/// Log base 2 of 64 bit unsigned integers, rounded down; 0 for 0.
pub fn log_base_two_u64(num: u64) -> (r: u32)
    ensures
        floor_log2_u64(num, r),
{
    if num == 0 {
        0
    } else {
        let lz = num.leading_zeros();
        proof {
            vstd::std_specs::bits::axiom_u64_leading_zeros(num);
            reveal(vstd::std_specs::bits::u64_leading_zeros);
            lemma_top_bit_u64(num, (63 - lz) as u64);
        }
        63 - lz
    }
}

/// A power of two, stored as its exponent.
#[derive(Clone, Copy, Debug, PartialEq, Eq, PartialOrd, Ord)]
pub struct PowerOfTwo(u32);

impl PowerOfTwo {
    /// The exponent.
    pub closed spec fn exponent(self) -> u32 {
        self.0
    }

    /// Returns the exponent converted to `R`.
    pub fn exp<R>(self) -> (r: R)
        where
            R: From<u32>,
        ensures
            call_ensures(R::from, (self.exponent(),), r),
    {
        From::from(self.0)
    }

    /// The largest power of two not greater than `f` (the power zero for 0).
    pub fn floor<F: Into<u32>>(f: F) -> (r: PowerOfTwo)
        ensures
            exists|v: u32| #[trigger] call_ensures(<F as Into<u32>>::into, (f,), v)
                && floor_log2_u32(v, r.exponent()),
    {
        let v: u32 = f.into();
        PowerOfTwo(log_base_two(v))
    }

    /// The smallest power of two not less than `f`.
    pub fn ceiling<F: Into<u32>>(f: F) -> (r: PowerOfTwo)
        requires
            forall|v: u32| #[trigger] call_ensures(<F as Into<u32>>::into, (f,), v)
                ==> 1 <= v <= 0x8000_0000,
        ensures
            exists|v: u32| #[trigger] call_ensures(<F as Into<u32>>::into, (f,), v)
                && v <= (1u32 << r.exponent()) && (1u32 << r.exponent()) / 2 < v
                && r.exponent() < 32,
    {
        let v: u32 = f.into();
        let p = closest_power_of_two(v);
        let e = log_base_two(p);
        proof { lemma_pow2_shift(p, e); }
        PowerOfTwo(e)
    }

    /// The power two to the zero, that is one.
    pub fn zero() -> (r: PowerOfTwo)
        ensures
            r.exponent() == 0,
    {
        PowerOfTwo(0)
    }

    /// The power's value converted to `F`.
    pub fn as_num<F: From<u32>>(self) -> (r: F)
        requires
            self.exponent() < 32,
        ensures
            call_ensures(F::from, (1u32 << self.exponent(),), r),
    {
        let v: u32 = 1u32 << self.0;
        F::from(v)
    }
}

/// A power of two comes back as itself: for `1 << e`, what `floor` and
/// `ceiling` make of it (`fl` and `ce`, as their contracts describe them)
/// both have the exponent `e`, so `as_num` gives back `1 << e`.
pub proof fn law_power_of_two_round_trip(e: u32, fl: PowerOfTwo, ce: PowerOfTwo)
    requires
        e < 32,
        floor_log2_u32(1u32 << e, fl.exponent()),
        ce.exponent() < 32,
        (1u32 << e) <= (1u32 << ce.exponent()),
        (1u32 << ce.exponent()) / 2 < (1u32 << e),
    ensures
        fl.exponent() == e,
        ce.exponent() == e,
        1u32 << fl.exponent() == 1u32 << e,
        1u32 << ce.exponent() == 1u32 << e,
{
    let f = fl.exponent();
    let c = ce.exponent();
    assert(1u32 << e != 0) by (bit_vector)
        requires
            e < 32;
    assert(f == e) by (bit_vector)
        requires
            e < 32,
            f < 32,
            (1u32 << e) >> f == 1;
    assert(c == e) by (bit_vector)
        requires
            e < 32,
            c < 32,
            (1u32 << e) <= (1u32 << c),
            (1u32 << c) / 2 < (1u32 << e);
}

proof fn lemma_pow2_shift(p: u32, e: u32)
    by (bit_vector)
    requires
        p != 0,
        p & ((p - 1) as u32) == 0,
        e < 32,
        p >> e == 1,
    ensures
        (1u32 << e) == p,
{
}

} // verus!

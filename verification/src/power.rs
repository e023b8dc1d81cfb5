//! Power readings in milliwatts, as the bits of an IEEE 754 single.
//!
//! A reading is carried by its bits and compared by them, so that which of two
//! readings is the larger is decided here, exactly. Arithmetic on readings is not.

use vstd::arithmetic::power2::*;
use vstd::prelude::*;

verus! {

/// A reading in milliwatts: the bits of a single-precision number.
#[derive(Clone, Copy, Debug, PartialEq, Eq, Structural)]
pub struct Power {
    pub bits: u32,
}

impl Power {
    /// The bits without the sign.
    pub open spec fn magnitude(self) -> nat {
        if self.bits < 0x8000_0000 {
            self.bits as nat
        } else {
            (self.bits - 0x8000_0000) as nat
        }
    }

    /// Not a number: neither below, above nor equal to anything.
    pub open spec fn is_nan(self) -> bool {
        self.magnitude() > 0x7f80_0000
    }

    /// The place of the reading in the order of all numbers.
    pub open spec fn rank(self) -> int {
        if self.bits < 0x8000_0000 {
            self.magnitude() as int
        } else {
            -(self.magnitude() as int)
        }
    }

    pub open spec fn below(self, other: Power) -> bool {
        !self.is_nan() && !other.is_nan() && self.rank() < other.rank()
    }

    pub open spec fn at_most(self, other: Power) -> bool {
        !self.is_nan() && !other.is_nan() && self.rank() <= other.rank()
    }

    /// The value of the reading, counted in steps of two to the power of -149
    /// milliwatts. Infinity counts as two to the power of 128.
    pub open spec fn steps(self) -> int {
        if self.bits < 0x8000_0000 {
            magnitude_steps(self.magnitude()) as int
        } else {
            -(magnitude_steps(self.magnitude()) as int)
        }
    }

    fn order_key(self) -> (r: i64)
        ensures
            r == self.rank(),
    {
        if self.bits < 0x8000_0000 {
            self.bits as i64
        } else {
            -((self.bits - 0x8000_0000) as i64)
        }
    }

    pub fn nan(self) -> (r: bool)
        ensures
            r == self.is_nan(),
    {
        if self.bits < 0x8000_0000 {
            self.bits > 0x7f80_0000
        } else {
            self.bits - 0x8000_0000 > 0x7f80_0000
        }
    }

    /// `self < other`
    pub fn lt(self, other: Power) -> (r: bool)
        ensures
            r == self.below(other),
    {
        !self.nan() && !other.nan() && self.order_key() < other.order_key()
    }

    /// `self <= other`
    pub fn le(self, other: Power) -> (r: bool)
        ensures
            r == self.at_most(other),
    {
        !self.nan() && !other.nan() && self.order_key() <= other.order_key()
    }

    /// A whole number of milliwatts, which a single holds exactly.
    pub open spec fn of_mw(mw: u16) -> Power {
        choose|p: Power| p.bits < 0x8000_0000 && !p.is_nan() && p.steps() == mw * pow2(149)
    }

    pub fn from_mw(mw: u16) -> (r: Power)
        ensures
            r == Power::of_mw(mw),
            r.steps() == mw * pow2(149),
            r.bits < 0x8000_0000,
            !r.is_nan(),
    {
        if mw == 0 {
            let r = Power { bits: 0 };
            proof {
                assert(magnitude_steps(0) == 0);
                assert(0 * pow2(149) == 0);
                lemma_of_mw_is(r, mw);
            }
            return r;
        }
        let mut k: u32 = 0;
        let mut p: u32 = 1;
        proof {
            lemma2_to64();
        }
        while p * 2 <= mw as u32
            invariant
                1 <= p <= mw <= 0xffff,
                p == pow2(k as nat),
                k <= 15,
            decreases mw - p,
        {
            proof {
                lemma_pow2_unfold((k + 1) as nat);
                if k == 15 {
                    lemma2_to64();
                }
            }
            p = p * 2;
            k = k + 1;
        }
        proof {
            lemma2_to64();
            lemma_pow2_adds(k as nat, (23 - k) as nat);
            assert(0x80_0000int / (p as int) == pow2((23 - k) as nat)) by (nonlinear_arith)
                requires
                    p * pow2((23 - k) as nat) == 0x80_0000,
                    p > 0,
            ;
        }
        let q: u32 = 0x80_0000 / p;
        assert(0 <= (mw - p) * q < 0x80_0000) by (nonlinear_arith)
            requires
                p * q == 0x80_0000,
                p <= mw < 2 * p,
                q >= 0,
        ;
        let fraction: u32 = (mw as u32 - p) * q;
        let r = Power { bits: (127 + k) * 0x80_0000 + fraction };
        proof {
            lemma_whole(mw, k as nat, r);
            lemma_of_mw_is(r, mw);
        }
        r
    }
}

/// The value that the bits `m` write, without a sign, in the unit of [`Power::steps`].
pub open spec fn magnitude_steps(m: nat) -> nat {
    let e = m / 0x80_0000;
    let f = m % 0x80_0000;
    if e == 0 {
        f
    } else {
        (0x80_0000 + f) * pow2((e - 1) as nat)
    }
}

proof fn lemma_steps_grow(m: nat)
    ensures
        magnitude_steps(m) < magnitude_steps(m + 1),
{
    let e = m / 0x80_0000;
    let f = m % 0x80_0000;
    let (e2, f2) = ((m + 1) / 0x80_0000, (m + 1) % 0x80_0000);
    lemma2_to64();
    if f + 1 < 0x80_0000 {
        assert(e2 == e && f2 == f + 1);
        if e > 0 {
            lemma_pow2_pos((e - 1) as nat);
            assert((0x80_0000 + f) * pow2((e - 1) as nat) < (0x80_0000 + f + 1) * pow2(
                (e - 1) as nat,
            )) by (nonlinear_arith)
                requires
                    pow2((e - 1) as nat) > 0,
            ;
        }
    } else {
        assert(e2 == e + 1 && f2 == 0);
        if e > 0 {
            lemma_pow2_pos((e - 1) as nat);
            lemma_pow2_unfold(e);
            assert((0x80_0000 + f) * pow2((e - 1) as nat) < 0x80_0000 * pow2(e)) by (nonlinear_arith)
                requires
                    pow2((e - 1) as nat) > 0,
                    pow2(e) == 2 * pow2((e - 1) as nat),
                    f < 0x80_0000,
            ;
        } else {
            assert(0x80_0000 * pow2(0) == 0x80_0000);
        }
    }
}

proof fn lemma_steps_increase(a: nat, b: nat)
    requires
        a < b,
    ensures
        magnitude_steps(a) < magnitude_steps(b),
    decreases b - a,
{
    lemma_steps_grow((b - 1) as nat);
    if a + 1 < b {
        lemma_steps_increase(a, (b - 1) as nat);
    }
}

proof fn lemma_of_mw_is(p: Power, mw: u16)
    requires
        p.bits < 0x8000_0000,
        !p.is_nan(),
        p.steps() == mw * pow2(149),
    ensures
        p == Power::of_mw(mw),
{
    let q = Power::of_mw(mw);
    assert(q.bits < 0x8000_0000 && !q.is_nan() && q.steps() == mw * pow2(149));
    if p.bits < q.bits {
        lemma_steps_increase(p.bits as nat, q.bits as nat);
    } else if q.bits < p.bits {
        lemma_steps_increase(q.bits as nat, p.bits as nat);
    }
}

/// Comparing readings by their bits compares their values.
pub proof fn law_order_is_the_order_of_values(a: Power, b: Power)
    requires
        !a.is_nan(),
        !b.is_nan(),
    ensures
        a.below(b) <==> a.steps() < b.steps(),
        a.at_most(b) <==> a.steps() <= b.steps(),
{
    let (x, y) = (a.magnitude(), b.magnitude());
    assert(magnitude_steps(0) == 0);
    if x < y {
        lemma_steps_increase(x, y);
    }
    if y < x {
        lemma_steps_increase(y, x);
    }
    if x > 0 {
        lemma_steps_increase(0, x);
    }
    if y > 0 {
        lemma_steps_increase(0, y);
    }
}

/// A reading of a whole number of milliwatts is compared as that number.
pub proof fn law_whole_milliwatts_compare_as_numbers(a: u16, b: u16, r: Power)
    requires
        !r.is_nan(),
    ensures
        Power::of_mw(a).below(Power::of_mw(b)) <==> a < b,
        r.below(Power::of_mw(a)) <==> r.steps() < a * pow2(149),
        Power::of_mw(a).at_most(r) <==> a * pow2(149) <= r.steps(),
{
    lemma_of_mw_exists(a);
    lemma_of_mw_exists(b);
    law_order_is_the_order_of_values(Power::of_mw(a), Power::of_mw(b));
    law_order_is_the_order_of_values(r, Power::of_mw(a));
    law_order_is_the_order_of_values(Power::of_mw(a), r);
    lemma_pow2_pos(149);
    assert(a * pow2(149) < b * pow2(149) <==> a < b) by (nonlinear_arith)
        requires
            pow2(149) > 0,
    ;
}

proof fn lemma_whole(mw: u16, k: nat, r: Power)
    requires
        k <= 15,
        pow2(k) <= mw < 2 * pow2(k),
        r.bits == (127 + k) * 0x80_0000 + (mw - pow2(k)) * pow2((23 - k) as nat),
    ensures
        r.bits < 0x8000_0000,
        !r.is_nan(),
        r.steps() == mw * pow2(149),
{
    let p = pow2(k);
    let q = pow2((23 - k) as nat);
    lemma2_to64();
    lemma_pow2_adds(k, (23 - k) as nat);
    assert(0 <= (mw - p) * q < 0x80_0000) by (nonlinear_arith)
        requires
            p * q == 0x80_0000,
            p <= mw < 2 * p,
            q >= 0,
    ;
    let fraction = ((mw - p) * q) as nat;
    let e = (127 + k) as nat;
    let bits = r.bits as nat;
    assert(bits / 0x80_0000 == e && bits % 0x80_0000 == fraction);
    assert(magnitude_steps(bits) == (0x80_0000 + fraction) * pow2((e - 1) as nat));
    assert(0x80_0000 + fraction == mw * q) by (nonlinear_arith)
        requires
            p * q == 0x80_0000,
            fraction == (mw - p) * q,
    ;
    lemma_pow2_adds((23 - k) as nat, (126 + k) as nat);
    assert((mw * q) * pow2((126 + k) as nat) == mw * (q * pow2((126 + k) as nat)))
        by (nonlinear_arith);
}

proof fn lemma_top_bit(mw: u16, k: nat) -> (r: nat)
    requires
        k <= 15,
        pow2(k) <= mw,
    ensures
        r <= 15,
        pow2(r) <= mw < 2 * pow2(r),
    decreases 15 - k,
{
    lemma2_to64();
    lemma_pow2_unfold(k + 1);
    if mw < 2 * pow2(k) {
        k
    } else {
        lemma_top_bit(mw, k + 1)
    }
}

proof fn lemma_of_mw_exists(mw: u16)
    ensures
        Power::of_mw(mw).bits < 0x8000_0000,
        !Power::of_mw(mw).is_nan(),
        Power::of_mw(mw).steps() == mw * pow2(149),
{
    lemma2_to64();
    let w = if mw == 0 {
        assert(magnitude_steps(0) == 0);
        assert(0 * pow2(149) == 0);
        Power { bits: 0 }
    } else {
        let k = lemma_top_bit(mw, 0);
        let p = pow2(k);
        let q = pow2((23 - k) as nat);
        lemma_pow2_adds(k, (23 - k) as nat);
        assert(0 <= (mw - p) * q < 0x80_0000) by (nonlinear_arith)
            requires
                p * q == 0x80_0000,
                p <= mw < 2 * p,
                q >= 0,
        ;
        let w = Power { bits: ((127 + k) * 0x80_0000 + (mw - p) * q) as u32 };
        lemma_whole(mw, k, w);
        w
    };
    assert(w.bits < 0x8000_0000 && !w.is_nan() && w.steps() == mw * pow2(149));
}

} // verus!

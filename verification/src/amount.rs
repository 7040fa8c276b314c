//! Unsigned 256-bit amounts, the unit every monetary quantity is carried in.
//!
//! An amount is four 64-bit limbs, least significant first. Arithmetic is
//! checked: additions report overflow and subtractions report underflow
//! instead of wrapping, as a balance difference that would wrap indicates a
//! modeling error and must surface as one.

use vstd::prelude::*;

verus! {

/// One past the largest value an amount can hold, 2^256.
pub open spec fn bound256() -> nat {
    0x1_0000_0000_0000_0000_0000_0000_0000_0000_0000_0000_0000_0000_0000_0000_0000_0000nat
}

/// An unsigned 256-bit integer: `w0` is the least significant 64-bit limb.
#[derive(Clone, Copy, PartialEq, Eq, Structural, Debug)]
pub struct Uint256 {
    pub w0: u64,
    pub w1: u64,
    pub w2: u64,
    pub w3: u64,
}

impl Uint256 {
    /// The mathematical value of the four limbs.
    pub open spec fn val(&self) -> nat {
        (self.w0 + self.w1 * 0x1_0000_0000_0000_0000int + self.w2
            * 0x1_0000_0000_0000_0000_0000_0000_0000_0000int + self.w3
            * 0x1_0000_0000_0000_0000_0000_0000_0000_0000_0000_0000_0000_0000int) as nat
    }

    pub fn zero() -> (r: Uint256)
        ensures
            r.val() == 0,
    {
        Uint256 { w0: 0, w1: 0, w2: 0, w3: 0 }
    }

    pub fn from_u64(x: u64) -> (r: Uint256)
        ensures
            r.val() == x,
    {
        Uint256 { w0: x, w1: 0, w2: 0, w3: 0 }
    }

    pub fn from_u128(x: u128) -> (r: Uint256)
        ensures
            r.val() == x,
    {
        let lo: u64 = (x % 0x1_0000_0000_0000_0000u128) as u64;
        let hi: u64 = (x / 0x1_0000_0000_0000_0000u128) as u64;
        proof {
            vstd::arithmetic::div_mod::lemma_fundamental_div_mod(
                x as int,
                0x1_0000_0000_0000_0000,
            );
        }
        Uint256 { w0: lo, w1: hi, w2: 0, w3: 0 }
    }

    pub fn is_zero(&self) -> (r: bool)
        ensures
            r <==> self.val() == 0,
    {
        self.w0 == 0 && self.w1 == 0 && self.w2 == 0 && self.w3 == 0
    }

    /// Sum, or `None` when the mathematical sum does not fit in 256 bits.
    pub fn checked_add(&self, other: &Uint256) -> (r: Option<Uint256>)
        ensures
            match r {
                Some(s) => s.val() == self.val() + other.val(),
                None => self.val() + other.val() >= bound256(),
            },
            r is Some <==> self.val() + other.val() < bound256(),
    {
        let (s0, c0) = add_limb(self.w0, other.w0, 0);
        let (s1, c1) = add_limb(self.w1, other.w1, c0);
        let (s2, c2) = add_limb(self.w2, other.w2, c1);
        let (s3, c3) = add_limb(self.w3, other.w3, c2);
        let s = Uint256 { w0: s0, w1: s1, w2: s2, w3: s3 };
        proof {
            assert(self.val() + other.val() == s.val() + c3
                * 0x1_0000_0000_0000_0000_0000_0000_0000_0000_0000_0000_0000_0000_0000_0000_0000_0000int);
        }
        if c3 == 0 {
            Some(s)
        } else {
            None
        }
    }

    /// Difference, or `None` when `other` exceeds `self`: balances must never
    /// wrap below zero.
    pub fn checked_sub(&self, other: &Uint256) -> (r: Option<Uint256>)
        ensures
            match r {
                Some(d) => self.val() >= other.val() && d.val() == self.val() - other.val(),
                None => self.val() < other.val(),
            },
            r is Some <==> self.val() >= other.val(),
    {
        let (d0, b0) = sub_limb(self.w0, other.w0, 0);
        let (d1, b1) = sub_limb(self.w1, other.w1, b0);
        let (d2, b2) = sub_limb(self.w2, other.w2, b1);
        let (d3, b3) = sub_limb(self.w3, other.w3, b2);
        let d = Uint256 { w0: d0, w1: d1, w2: d2, w3: d3 };
        proof {
            assert(self.val() - other.val() == d.val() - b3
                * 0x1_0000_0000_0000_0000_0000_0000_0000_0000_0000_0000_0000_0000_0000_0000_0000_0000int);
        }
        if b3 == 0 {
            Some(d)
        } else {
            None
        }
    }

    /// Quotient and remainder by a small (64-bit, nonzero) divisor.
    pub fn divmod_small(&self, d: u64) -> (r: (Uint256, u64))
        requires
            d >= 1,
        ensures
            r.0.val() == self.val() / d as nat,
            r.1 == self.val() % d as nat,
            r.1 < d,
    {
        let (q3, r3) = divmod_limb(0, self.w3, d);
        let (q2, r2) = divmod_limb(r3, self.w2, d);
        let (q1, r1) = divmod_limb(r2, self.w1, d);
        let (q0, r0) = divmod_limb(r1, self.w0, d);
        let q = Uint256 { w0: q0, w1: q1, w2: q2, w3: q3 };
        proof {
            let b: int = 0x1_0000_0000_0000_0000int;
            let b2: int = 0x1_0000_0000_0000_0000_0000_0000_0000_0000int;
            let b3: int = 0x1_0000_0000_0000_0000_0000_0000_0000_0000_0000_0000_0000_0000int;
            assert((q0 + q1 * b + q2 * b2 + q3 * b3) * d + r0 == self.w0 + self.w1 * b
                + self.w2 * b2 + self.w3 * b3) by (nonlinear_arith)
                requires
                    b == 0x1_0000_0000_0000_0000int,
                    b2 == 0x1_0000_0000_0000_0000_0000_0000_0000_0000int,
                    b3 == 0x1_0000_0000_0000_0000_0000_0000_0000_0000_0000_0000_0000_0000int,
                    q3 * d + r3 == self.w3,
                    q2 * d + r2 == r3 * b + self.w2,
                    q1 * d + r1 == r2 * b + self.w1,
                    q0 * d + r0 == r1 * b + self.w0,
            ;
            vstd::arithmetic::div_mod::lemma_fundamental_div_mod_converse(
                self.val() as int,
                d as int,
                q.val() as int,
                r0 as int,
            );
        }
        (q, r0)
    }

    /// Product with a small (64-bit) factor, or `None` when it does not fit
    /// in 256 bits.
    pub fn mul_small(&self, m: u64) -> (r: Option<Uint256>)
        ensures
            match r {
                Some(p) => p.val() == self.val() * m,
                None => self.val() * m >= bound256(),
            },
            r is Some <==> self.val() * m < bound256(),
    {
        let (p0, c0) = mul_limb(self.w0, m, 0);
        let (p1, c1) = mul_limb(self.w1, m, c0);
        let (p2, c2) = mul_limb(self.w2, m, c1);
        let (p3, c3) = mul_limb(self.w3, m, c2);
        let p = Uint256 { w0: p0, w1: p1, w2: p2, w3: p3 };
        proof {
            let b: int = 0x1_0000_0000_0000_0000int;
            let b2: int = 0x1_0000_0000_0000_0000_0000_0000_0000_0000int;
            let b3: int = 0x1_0000_0000_0000_0000_0000_0000_0000_0000_0000_0000_0000_0000int;
            let b4: int =
                0x1_0000_0000_0000_0000_0000_0000_0000_0000_0000_0000_0000_0000_0000_0000_0000_0000int;
            assert((self.w0 + self.w1 * b + self.w2 * b2 + self.w3 * b3) * m == p0 + p1 * b
                + p2 * b2 + p3 * b3 + c3 * b4) by (nonlinear_arith)
                requires
                    b == 0x1_0000_0000_0000_0000int,
                    b2 == 0x1_0000_0000_0000_0000_0000_0000_0000_0000int,
                    b3 == 0x1_0000_0000_0000_0000_0000_0000_0000_0000_0000_0000_0000_0000int,
                    b4
                        == 0x1_0000_0000_0000_0000_0000_0000_0000_0000_0000_0000_0000_0000_0000_0000_0000_0000int,
                    self.w0 * m + 0 == p0 + c0 * b,
                    self.w1 * m + c0 == p1 + c1 * b,
                    self.w2 * m + c1 == p2 + c2 * b,
                    self.w3 * m + c2 == p3 + c3 * b,
            ;
        }
        if c3 == 0 {
            Some(p)
        } else {
            None
        }
    }
}

/// One limb of a full subtraction: `x - y - borrow_in` as a low limb and a
/// borrow of at most one.
fn sub_limb(x: u64, y: u64, b: u64) -> (r: (u64, u64))
    requires
        b <= 1,
    ensures
        x - y - b == r.0 - r.1 * 0x1_0000_0000_0000_0000int,
        r.1 <= 1,
{
    let t: u128 = 0x1_0000_0000_0000_0000u128 + x as u128 - y as u128 - b as u128;
    let lo: u64 = (t % 0x1_0000_0000_0000_0000u128) as u64;
    let hi: u64 = (t / 0x1_0000_0000_0000_0000u128) as u64;
    proof {
        vstd::arithmetic::div_mod::lemma_fundamental_div_mod(
            t as int,
            0x1_0000_0000_0000_0000,
        );
    }
    (lo, 1 - hi)
}

/// One step of base-2^64 long division: divides `rem_in * 2^64 + limb` by
/// `d`, where `rem_in` is the remainder carried down from the limb above.
fn divmod_limb(rem_in: u64, limb: u64, d: u64) -> (r: (u64, u64))
    requires
        d >= 1,
        rem_in < d,
    ensures
        r.0 * d + r.1 == rem_in * 0x1_0000_0000_0000_0000int + limb,
        r.1 < d,
{
    let cur: u128 = (rem_in as u128) * 0x1_0000_0000_0000_0000u128 + limb as u128;
    proof {
        assert(cur < (d as int) * 0x1_0000_0000_0000_0000int) by (nonlinear_arith)
            requires
                cur == rem_in * 0x1_0000_0000_0000_0000int + limb,
                rem_in < d,
                limb < 0x1_0000_0000_0000_0000int,
        ;
        vstd::arithmetic::div_mod::lemma_multiply_divide_lt(
            cur as int,
            d as int,
            0x1_0000_0000_0000_0000,
        );
        vstd::arithmetic::div_mod::lemma_fundamental_div_mod(cur as int, d as int);
    }
    let q: u64 = (cur / d as u128) as u64;
    let rem: u64 = (cur % d as u128) as u64;
    proof {
        vstd::arithmetic::mul::lemma_mul_is_commutative(q as int, d as int);
    }
    (q, rem)
}

/// One limb of a multiplication by a 64-bit factor: `limb * m + carry_in`
/// split into a low limb and a carry.
fn mul_limb(limb: u64, m: u64, c: u64) -> (r: (u64, u64))
    ensures
        limb * m + c == r.0 + r.1 * 0x1_0000_0000_0000_0000int,
{
    proof {
        assert((limb as int) * (m as int) + c < 0x1_0000_0000_0000_0000_0000_0000_0000_0000int)
            by (nonlinear_arith)
            requires
                limb <= 0xFFFF_FFFF_FFFF_FFFFu64,
                m <= 0xFFFF_FFFF_FFFF_FFFFu64,
                c <= 0xFFFF_FFFF_FFFF_FFFFu64,
        ;
    }
    let t: u128 = (limb as u128) * (m as u128) + c as u128;
    let lo: u64 = (t % 0x1_0000_0000_0000_0000u128) as u64;
    let hi: u64 = (t / 0x1_0000_0000_0000_0000u128) as u64;
    proof {
        vstd::arithmetic::div_mod::lemma_fundamental_div_mod(
            t as int,
            0x1_0000_0000_0000_0000,
        );
    }
    (lo, hi)
}

/// One limb of a full addition: `x + y + carry_in` split into a low limb and
/// a carry of at most one.
fn add_limb(x: u64, y: u64, c: u64) -> (r: (u64, u64))
    requires
        c <= 1,
    ensures
        x + y + c == r.0 + r.1 * 0x1_0000_0000_0000_0000int,
        r.1 <= 1,
{
    let t: u128 = x as u128 + y as u128 + c as u128;
    let lo: u64 = (t % 0x1_0000_0000_0000_0000u128) as u64;
    let hi: u64 = (t / 0x1_0000_0000_0000_0000u128) as u64;
    proof {
        vstd::arithmetic::div_mod::lemma_fundamental_div_mod(
            t as int,
            0x1_0000_0000_0000_0000,
        );
    }
    (lo, hi)
}

} // verus!

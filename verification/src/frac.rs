//! Exact rational parameter values.
//!
//! Curve parameters are rational numbers `num / den` with a positive
//! denominator. Two values are compared by cross-multiplication, so a
//! parameter has many representations; the relations `veq`, `vle` and `vlt`
//! speak of the represented value, not of the representation.

use vstd::prelude::*;

verus! {

/// A rational number `num / den` with `den > 0`.
#[derive(Clone, Copy, Debug)]
pub struct Frac {
    /// Numerator.
    pub num: i64,
    /// Denominator; positive whenever the value is well formed.
    pub den: i64,
}

impl Frac {
    /// Well-formed: the denominator is positive.
    pub open spec fn wf(self) -> bool {
        self.den > 0
    }

    /// Value equality: `self` and `other` denote the same rational.
    pub open spec fn veq(self, other: Frac) -> bool {
        self.num * other.den == other.num * self.den
    }

    /// Value order: `self <= other` as rationals.
    pub open spec fn vle(self, other: Frac) -> bool {
        self.num * other.den <= other.num * self.den
    }

    /// Strict value order: `self < other` as rationals.
    pub open spec fn vlt(self, other: Frac) -> bool {
        self.num * other.den < other.num * self.den
    }

    /// The rational zero.
    pub open spec fn spec_zero() -> Frac {
        Frac { num: 0, den: 1 }
    }

    /// The rational one.
    pub open spec fn spec_one() -> Frac {
        Frac { num: 1, den: 1 }
    }

    /// Builds the rational `num / den`.
    pub fn new(num: i64, den: i64) -> (r: Frac)
        requires
            den > 0,
        ensures
            r == (Frac { num, den }),
            r.wf(),
    {
        Frac { num, den }
    }

    /// The rational zero, as a value.
    pub fn zero() -> (r: Frac)
        ensures
            r == Frac::spec_zero(),
            r.wf(),
    {
        Frac { num: 0, den: 1 }
    }

    /// The rational one, as a value.
    pub fn one() -> (r: Frac)
        ensures
            r == Frac::spec_one(),
            r.wf(),
    {
        Frac { num: 1, den: 1 }
    }

    /// Decides value equality by cross-multiplication.
    pub fn eq_val(&self, other: &Frac) -> (r: bool)
        requires
            self.wf(),
            other.wf(),
        ensures
            r == self.veq(*other),
    {
        proof {
            lemma_i64_products_fit(self.num as int, other.den as int);
            lemma_i64_products_fit(other.num as int, self.den as int);
        }
        (self.num as i128) * (other.den as i128) == (other.num as i128) * (self.den as i128)
    }

    /// Decides the value order `self <= other`.
    pub fn le_val(&self, other: &Frac) -> (r: bool)
        requires
            self.wf(),
            other.wf(),
        ensures
            r == self.vle(*other),
    {
        proof {
            lemma_i64_products_fit(self.num as int, other.den as int);
            lemma_i64_products_fit(other.num as int, self.den as int);
        }
        (self.num as i128) * (other.den as i128) <= (other.num as i128) * (self.den as i128)
    }

    /// Decides the strict value order `self < other`.
    pub fn lt_val(&self, other: &Frac) -> (r: bool)
        requires
            self.wf(),
            other.wf(),
        ensures
            r == self.vlt(*other),
    {
        proof {
            lemma_i64_products_fit(self.num as int, other.den as int);
            lemma_i64_products_fit(other.num as int, self.den as int);
        }
        (self.num as i128) * (other.den as i128) < (other.num as i128) * (self.den as i128)
    }

    /// The difference `self - other`.
    pub fn sub(&self, other: &Frac) -> (r: Frac)
        requires
            self.wf(),
            other.wf(),
            i64::MIN <= self.num * other.den - other.num * self.den <= i64::MAX,
            self.den * other.den <= i64::MAX,
        ensures
            r.wf(),
            r.num == self.num * other.den - other.num * self.den,
            r.den == self.den * other.den,
    {
        proof {
            lemma_pos_mul_pos(self.den as int, other.den as int);
            lemma_i64_products_fit(self.num as int, other.den as int);
            lemma_i64_products_fit(other.num as int, self.den as int);
            lemma_i64_products_fit(self.den as int, other.den as int);
        }
        Frac {
            num: (((self.num as i128) * (other.den as i128)
                - (other.num as i128) * (self.den as i128)) as i64),
            den: (((self.den as i128) * (other.den as i128)) as i64),
        }
    }

    /// The product `self * other`.
    pub fn mul(&self, other: &Frac) -> (r: Frac)
        requires
            self.wf(),
            other.wf(),
            i64::MIN <= self.num * other.num <= i64::MAX,
            self.den * other.den <= i64::MAX,
        ensures
            r.wf(),
            r.num == self.num * other.num,
            r.den == self.den * other.den,
    {
        proof {
            lemma_pos_mul_pos(self.den as int, other.den as int);
        }
        Frac {
            num: (((self.num as i128) * (other.num as i128)) as i64),
            den: (((self.den as i128) * (other.den as i128)) as i64),
        }
    }

    /// The additive inverse `-self`.
    pub fn neg(&self) -> (r: Frac)
        requires
            self.wf(),
            self.num > i64::MIN,
        ensures
            r.wf(),
            r.num == -self.num,
            r.den == self.den,
    {
        Frac { num: -self.num, den: self.den }
    }

    /// The multiplicative inverse `1 / self`, for a nonzero value.
    pub fn recip(&self) -> (r: Frac)
        requires
            self.wf(),
            self.num != 0,
            self.num > i64::MIN,
        ensures
            r.wf(),
            r.num * self.num == self.den * r.den,
            r.num != 0,
            self.num > 0 ==> r.num == self.den && r.den == self.num,
            self.num < 0 ==> r.num == -self.den && r.den == -self.num,
    {
        if self.num > 0 {
            let r = Frac { num: self.den, den: self.num };
            proof {
                assert(r.num * self.num == self.den * r.den) by (nonlinear_arith)
                    requires
                        r.num == self.den,
                        r.den == self.num,
                ;
            }
            r
        } else {
            let r = Frac { num: -self.den, den: -self.num };
            proof {
                assert(r.num * self.num == self.den * r.den) by (nonlinear_arith)
                    requires
                        r.num == -self.den,
                        r.den == -self.num,
                ;
            }
            r
        }
    }
}

/// Relates `s` to the affine image `a * t + b`: holds exactly when
/// `s == a * t + b` as rationals.
pub open spec fn affine_rel(a: Frac, b: Frac, t: Frac, s: Frac) -> bool {
    s.num * (a.den * t.den * b.den) == (a.num * t.num * b.den + b.num * a.den * t.den) * s.den
}

/// The arithmetic of `a * t + b` stays within the 64-bit range.
pub open spec fn can_affine(a: Frac, b: Frac, t: Frac) -> bool {
    &&& i64::MIN <= a.num * t.num * b.den + b.num * a.den * t.den <= i64::MAX
    &&& i64::MIN <= a.num * t.num * b.den <= i64::MAX
    &&& i64::MIN <= b.num * a.den * t.den <= i64::MAX
    &&& a.den * t.den * b.den <= i64::MAX
}

/// Computes `a * t + b` exactly.
pub fn affine_apply(a: &Frac, b: &Frac, t: &Frac) -> (r: Frac)
    requires
        a.wf(),
        b.wf(),
        t.wf(),
        can_affine(*a, *b, *t),
    ensures
        r.wf(),
        r.num == a.num * t.num * b.den + b.num * a.den * t.den,
        r.den == a.den * t.den * b.den,
        affine_rel(*a, *b, *t, r),
{
    proof {
        lemma_i64_products_fit(a.num as int, t.num as int);
        lemma_i64_products_fit(b.num as int, a.den as int);
        lemma_i64_products_fit(a.den as int, t.den as int);
        lemma_pos_mul_pos(a.den as int, t.den as int);
        lemma_pos_mul_pos(a.den * t.den, b.den as int);
        lemma_i128_scale_fits(a.num * t.num, b.den as int);
        lemma_i128_scale_fits(b.num * a.den, t.den as int);
        lemma_i128_scale_fits(a.den * t.den, b.den as int);
    }
    let n1: i128 = (a.num as i128) * (t.num as i128) * (b.den as i128);
    let n2: i128 = (b.num as i128) * (a.den as i128) * (t.den as i128);
    let d: i128 = (a.den as i128) * (t.den as i128) * (b.den as i128);
    let r = Frac { num: ((n1 + n2) as i64), den: (d as i64) };
    proof {
        lemma_affine_rel_of_exact(*a, *b, *t, r);
    }
    r
}

/// An affine image with the result's exact numerator and denominator
/// satisfies the affine relation.
proof fn lemma_affine_rel_of_exact(a: Frac, b: Frac, t: Frac, r: Frac)
    requires
        r.num == a.num * t.num * b.den + b.num * a.den * t.den,
        r.den == a.den * t.den * b.den,
    ensures
        affine_rel(a, b, t, r),
{
    assert(r.num * (a.den * t.den * b.den) == (a.num * t.num * b.den + b.num * a.den * t.den)
        * r.den) by (nonlinear_arith)
        requires
            r.num == a.num * t.num * b.den + b.num * a.den * t.den,
            r.den == a.den * t.den * b.den,
    ;
}

/// Components small enough for the trial harness's interpolation and affine
/// arithmetic.
pub open spec fn small(x: Frac) -> bool {
    -0x1000 <= x.num <= 0x1000 && 0 < x.den <= 0x1000
}

/// Two results of the same affine image denote the same value.
pub proof fn lemma_affine_rel_unique(a: Frac, b: Frac, t: Frac, s1: Frac, s2: Frac)
    requires
        a.wf(),
        b.wf(),
        t.wf(),
        s1.wf(),
        s2.wf(),
        affine_rel(a, b, t, s1),
        affine_rel(a, b, t, s2),
    ensures
        s1.veq(s2),
{
    lemma_pos_mul_pos(a.den as int, t.den as int);
    lemma_pos_mul_pos(a.den * t.den, b.den as int);
    assert(s1.num * s2.den * (a.den * t.den * b.den) == s2.num * s1.den * (a.den * t.den * b.den))
        by (nonlinear_arith)
        requires
            affine_rel(a, b, t, s1),
            affine_rel(a, b, t, s2),
    ;
    assert(s1.num * s2.den == s2.num * s1.den) by (nonlinear_arith)
        requires
            s1.num * s2.den * (a.den * t.den * b.den) == s2.num * s1.den * (a.den * t.den
                * b.den),
            a.den * t.den * b.den > 0,
    ;
}

/// The interpolation `t0 + (k / 1000) * (t1 - t0)`, computed exactly.
pub fn interp(t0: &Frac, t1: &Frac, k: u64) -> (r: Frac)
    requires
        small(*t0),
        small(*t1),
        k <= 1000,
    ensures
        r.wf(),
        r.num == t0.num * t1.den * (1000 - k) + t1.num * t0.den * k,
        r.den == t0.den * t1.den * 1000,
        -0x8_0000_0000 <= r.num <= 0x8_0000_0000,
        0 < r.den <= 0x4_0000_0000,
        t0.vle(*t1) ==> t0.vle(r) && r.vle(*t1),
{
    let km: i64 = k as i64;
    proof {
        lemma_mul_bound(t0.num as int, t1.den as int, 0x1000, 0x1000);
        lemma_mul_bound(t0.num * t1.den, 1000 - km as int, 0x100_0000, 1000);
        lemma_mul_bound(t1.num as int, t0.den as int, 0x1000, 0x1000);
        lemma_mul_bound(t1.num * t0.den, km as int, 0x100_0000, 1000);
        lemma_mul_bound(t0.den as int, t1.den as int, 0x1000, 0x1000);
        lemma_mul_bound(t0.den * t1.den, 1000, 0x100_0000, 1000);
        lemma_pos_mul_pos(t0.den as int, t1.den as int);
        lemma_pos_mul_pos(t0.den * t1.den, 1000);
    }
    let num: i64 = t0.num * t1.den * (1000 - km) + t1.num * t0.den * km;
    let den: i64 = t0.den * t1.den * 1000;
    let r = Frac { num, den };
    proof {
        if t0.vle(*t1) {
            assert(t0.num * r.den <= r.num * t0.den) by (nonlinear_arith)
                requires
                    r.num == t0.num * t1.den * (1000 - km) + t1.num * t0.den * km,
                    r.den == t0.den * t1.den * 1000,
                    t0.num * t1.den <= t1.num * t0.den,
                    0 <= km <= 1000,
                    t0.den > 0,
                    t1.den > 0,
            ;
            assert(r.num * t1.den <= t1.num * r.den) by (nonlinear_arith)
                requires
                    r.num == t0.num * t1.den * (1000 - km) + t1.num * t0.den * km,
                    r.den == t0.den * t1.den * 1000,
                    t0.num * t1.den <= t1.num * t0.den,
                    0 <= km <= 1000,
                    t0.den > 0,
                    t1.den > 0,
            ;
        }
    }
    r
}

/// Interpolation is monotone in its weight.
pub proof fn lemma_interp_monotone(t0: Frac, t1: Frac, k1: int, k2: int, r1: Frac, r2: Frac)
    requires
        t0.wf(),
        t1.wf(),
        t0.vle(t1),
        0 <= k1 <= k2 <= 1000,
        r1.num == t0.num * t1.den * (1000 - k1) + t1.num * t0.den * k1,
        r1.den == t0.den * t1.den * 1000,
        r2.num == t0.num * t1.den * (1000 - k2) + t1.num * t0.den * k2,
        r2.den == t0.den * t1.den * 1000,
    ensures
        r1.vle(r2),
{
    assert(r1.num * r2.den <= r2.num * r1.den) by (nonlinear_arith)
        requires
            r1.num == t0.num * t1.den * (1000 - k1) + t1.num * t0.den * k1,
            r1.den == t0.den * t1.den * 1000,
            r2.num == t0.num * t1.den * (1000 - k2) + t1.num * t0.den * k2,
            r2.den == t0.den * t1.den * 1000,
            t0.num * t1.den <= t1.num * t0.den,
            0 <= k1 <= k2 <= 1000,
            t0.den > 0,
            t1.den > 0,
    ;
}

/// A product of two 64-bit integers fits into 128 bits.
pub proof fn lemma_i64_products_fit(x: int, y: int)
    requires
        -0x8000_0000_0000_0000 <= x <= 0x7fff_ffff_ffff_ffff,
        -0x8000_0000_0000_0000 <= y <= 0x7fff_ffff_ffff_ffff,
    ensures
        -0x4000_0000_0000_0000_0000_0000_0000_0000 <= x * y
            <= 0x4000_0000_0000_0000_0000_0000_0000_0000,
{
    assert(-0x4000_0000_0000_0000_0000_0000_0000_0000 <= x * y
        <= 0x4000_0000_0000_0000_0000_0000_0000_0000) by (nonlinear_arith)
        requires
            -0x8000_0000_0000_0000 <= x <= 0x7fff_ffff_ffff_ffff,
            -0x8000_0000_0000_0000 <= y <= 0x7fff_ffff_ffff_ffff,
    ;
}

/// A 64-bit value scaled by a 64-bit value stays within 128 bits.
proof fn lemma_i128_scale_fits(x: int, y: int)
    requires
        -0x8000_0000_0000_0000_0000_0000_0000_0000 <= x * y,
        x * y <= 0x7fff_ffff_ffff_ffff_ffff_ffff_ffff_ffff,
    ensures
        -0x8000_0000_0000_0000_0000_0000_0000_0000 <= x * y
            <= 0x7fff_ffff_ffff_ffff_ffff_ffff_ffff_ffff,
{
}

/// A product's magnitude is bounded by the product of the factors' bounds.
pub proof fn lemma_mul_bound(x: int, y: int, bx: int, by: int)
    requires
        -bx <= x <= bx,
        -by <= y <= by,
        0 <= bx,
        0 <= by,
    ensures
        -(bx * by) <= x * y <= bx * by,
{
    assert(-(bx * by) <= x * y <= bx * by) by (nonlinear_arith)
        requires
            -bx <= x <= bx,
            -by <= y <= by,
            0 <= bx,
            0 <= by,
    ;
}

/// The product of two positive integers is positive.
pub proof fn lemma_pos_mul_pos(x: int, y: int)
    requires
        x > 0,
        y > 0,
    ensures
        x * y > 0,
{
    assert(x * y > 0) by (nonlinear_arith)
        requires
            x > 0,
            y > 0,
    ;
}

/// Value equality is transitive.
pub proof fn lemma_veq_trans(a: Frac, b: Frac, c: Frac)
    requires
        a.wf(),
        b.wf(),
        c.wf(),
        a.veq(b),
        b.veq(c),
    ensures
        a.veq(c),
{
    assert(a.num * c.den == c.num * a.den) by (nonlinear_arith)
        requires
            a.den > 0,
            b.den > 0,
            c.den > 0,
            a.num * b.den == b.num * a.den,
            b.num * c.den == c.num * b.den,
    ;
}

/// Equal values compare equal under the order.
pub proof fn lemma_veq_vle(a: Frac, b: Frac)
    requires
        a.veq(b),
    ensures
        a.vle(b),
        b.vle(a),
{
}

/// The value order is transitive.
pub proof fn lemma_vle_trans(a: Frac, b: Frac, c: Frac)
    requires
        a.wf(),
        b.wf(),
        c.wf(),
        a.vle(b),
        b.vle(c),
    ensures
        a.vle(c),
{
    assert(a.num * c.den <= c.num * a.den) by (nonlinear_arith)
        requires
            a.den > 0,
            b.den > 0,
            c.den > 0,
            a.num * b.den <= b.num * a.den,
            b.num * c.den <= c.num * b.den,
    ;
}

/// A value equal to a lower bound is itself a lower bound.
pub proof fn lemma_veq_vle_compat(a: Frac, a2: Frac, b: Frac)
    requires
        a.wf(),
        a2.wf(),
        b.wf(),
        a.veq(a2),
    ensures
        a.vle(b) == a2.vle(b),
        b.vle(a) == b.vle(a2),
        a.vlt(b) == a2.vlt(b),
        b.vlt(a) == b.vlt(a2),
{
    assert((a.num * b.den <= b.num * a.den) == (a2.num * b.den <= b.num * a2.den)
        && (b.num * a.den <= a.num * b.den) == (b.num * a2.den <= a2.num * b.den)
        && (a.num * b.den < b.num * a.den) == (a2.num * b.den < b.num * a2.den)
        && (b.num * a.den < a.num * b.den) == (b.num * a2.den < a2.num * b.den))
        by (nonlinear_arith)
        requires
            a.den > 0,
            a2.den > 0,
            b.den > 0,
            a.num * a2.den == a2.num * a.den,
    ;
}

} // verus!

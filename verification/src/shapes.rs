//! Reference implementations of the curve contract.
//!
//! Three trivial curves serve as self-tests of the contract itself: the unit
//! curve `()`, the two-point step curve `(usize, usize)`, and a constant
//! curve that carries its own domain and implements every capability.

use vstd::prelude::*;
use crate::frac::{Frac, affine_apply, affine_rel, can_affine, lemma_mul_bound, lemma_veq_vle_compat};
use crate::curve::{
    Concat, ConcatError, Cut, ParameterDivision1D, ParameterTransform, ParametricCurve, ToCurve,
};

verus! {

/// Implementation for the test of topological methods: the unit curve, a
/// single featureless point over the domain `(0, 1)`.
impl ParametricCurve for () {
    type Point = ();

    type Vector = ();

    open spec fn inv(&self) -> bool {
        true
    }

    open spec fn spec_subs(&self, t: Frac) -> () {
        ()
    }

    open spec fn spec_der(&self, t: Frac) -> () {
        ()
    }

    open spec fn spec_der2(&self, t: Frac) -> () {
        ()
    }

    open spec fn spec_range(&self) -> (Frac, Frac) {
        (Frac { num: 0, den: 1 }, Frac { num: 1, den: 1 })
    }

    proof fn lemma_range_wf(&self) {
    }

    proof fn lemma_congruence(&self, t: Frac, s: Frac) {
    }

    fn subs(&self, t: Frac) -> () {
        ()
    }

    fn der(&self, t: Frac) -> () {
        ()
    }

    fn der2(&self, t: Frac) -> () {
        ()
    }

    fn parameter_range(&self) -> (r: (Frac, Frac)) {
        (Frac::zero(), Frac::one())
    }

    fn dup(&self) -> (r: ()) {
        ()
    }

    fn front(&self) -> () {
        ()
    }

    fn back(&self) -> () {
        ()
    }
}

/// The two-point step curve over the domain `(0, 1)`: the first coordinate
/// before the parameter one half, the second from there on. Both derivative
/// orders are the constant difference of the two points, so the pair must be
/// nondecreasing.
impl ParametricCurve for (usize, usize) {
    type Point = usize;

    type Vector = usize;

    open spec fn inv(&self) -> bool {
        self.0 <= self.1
    }

    open spec fn spec_subs(&self, t: Frac) -> usize {
        if t.vlt(Frac { num: 1, den: 2 }) {
            self.0
        } else {
            self.1
        }
    }

    open spec fn spec_der(&self, t: Frac) -> usize {
        (self.1 - self.0) as usize
    }

    open spec fn spec_der2(&self, t: Frac) -> usize {
        (self.1 - self.0) as usize
    }

    open spec fn spec_range(&self) -> (Frac, Frac) {
        (Frac { num: 0, den: 1 }, Frac { num: 1, den: 1 })
    }

    proof fn lemma_range_wf(&self) {
    }

    proof fn lemma_congruence(&self, t: Frac, s: Frac) {
        lemma_veq_vle_compat(t, s, Frac { num: 1, den: 2 });
    }

    fn subs(&self, t: Frac) -> (p: usize) {
        let half = Frac::new(1, 2);
        if t.lt_val(&half) {
            self.0
        } else {
            self.1
        }
    }

    fn der(&self, t: Frac) -> (v: usize) {
        self.1 - self.0
    }

    fn der2(&self, t: Frac) -> (v: usize) {
        self.1 - self.0
    }

    fn parameter_range(&self) -> (r: (Frac, Frac)) {
        (Frac::zero(), Frac::one())
    }

    fn dup(&self) -> (r: (usize, usize)) {
        (self.0, self.1)
    }

    fn front(&self) -> (p: usize) {
        self.0
    }

    fn back(&self) -> (p: usize) {
        self.1
    }
}

/// A constant curve: one point over an explicit rational domain. It
/// implements every capability, and is closed under concatenation and
/// cutting, which makes it the collector's natural element type.
#[derive(Clone, Copy, Debug)]
pub struct ConstCurve {
    /// The single position the curve takes.
    pub point: i64,
    /// The domain's start.
    pub t0: Frac,
    /// The domain's end.
    pub t1: Frac,
}

impl ParametricCurve for ConstCurve {
    type Point = i64;

    type Vector = i64;

    open spec fn inv(&self) -> bool {
        self.t0.wf() && self.t1.wf()
    }

    open spec fn spec_subs(&self, t: Frac) -> i64 {
        self.point
    }

    open spec fn spec_der(&self, t: Frac) -> i64 {
        0
    }

    open spec fn spec_der2(&self, t: Frac) -> i64 {
        0
    }

    open spec fn spec_range(&self) -> (Frac, Frac) {
        (self.t0, self.t1)
    }

    proof fn lemma_range_wf(&self) {
    }

    proof fn lemma_congruence(&self, t: Frac, s: Frac) {
    }

    fn subs(&self, t: Frac) -> (p: i64) {
        self.point
    }

    fn der(&self, t: Frac) -> (v: i64) {
        0
    }

    fn der2(&self, t: Frac) -> (v: i64) {
        0
    }

    fn parameter_range(&self) -> (r: (Frac, Frac)) {
        (self.t0, self.t1)
    }

    fn dup(&self) -> (r: ConstCurve) {
        *self
    }

    fn front(&self) -> (p: i64) {
        self.point
    }

    fn back(&self) -> (p: i64) {
        self.point
    }
}

impl ParameterDivision1D for ConstCurve {
    fn parameter_division(&self, range: (Frac, Frac), tol: Frac) -> (r: Vec<Frac>) {
        let mut r: Vec<Frac> = Vec::new();
        r.push(range.0);
        r.push(range.1);
        r
    }
}

impl ParameterTransform for ConstCurve {
    open spec fn can_transform(&self, scalar: Frac, shift: Frac) -> bool {
        can_affine(scalar, shift, self.t0) && can_affine(scalar, shift, self.t1)
    }

    open spec fn can_normalize(&self) -> bool {
        &&& -0x100 <= self.t0.num <= 0x100
        &&& 0 < self.t0.den <= 0x100
        &&& -0x100 <= self.t1.num <= 0x100
        &&& 0 < self.t1.den <= 0x100
    }

    fn parameter_transform(&mut self, scalar: Frac, shift: Frac) {
        let nt0 = affine_apply(&scalar, &shift, &self.t0);
        let nt1 = affine_apply(&scalar, &shift, &self.t1);
        self.t0 = nt0;
        self.t1 = nt1;
    }

    fn parameter_transformed(&self, scalar: Frac, shift: Frac) -> (r: ConstCurve) {
        let nt0 = affine_apply(&scalar, &shift, &self.t0);
        let nt1 = affine_apply(&scalar, &shift, &self.t1);
        ConstCurve { point: self.point, t0: nt0, t1: nt1 }
    }

    fn parameter_normalization(&mut self) {
        let t0 = self.t0;
        let t1 = self.t1;
        proof {
            lemma_mul_bound(t1.num as int, t0.den as int, 0x100, 0x100);
            lemma_mul_bound(t0.num as int, t1.den as int, 0x100, 0x100);
            lemma_mul_bound(t1.den as int, t0.den as int, 0x100, 0x100);
        }
        let delta = t1.sub(&t0);
        let a = delta.recip();
        let negt0 = t0.neg();
        proof {
            lemma_mul_bound(negt0.num as int, a.num as int, 0x100, 0x1_0000);
            lemma_mul_bound(negt0.den as int, a.den as int, 0x100, 0x2_0000);
        }
        let b = negt0.mul(&a);
        proof {
            assert(b.num == -t0.num * a.num) by (nonlinear_arith)
                requires
                    b.num == negt0.num * a.num,
                    negt0.num == -t0.num,
            ;
            lemma_norm_args_fit(t0, a, b);
            lemma_norm_args_fit(t1, a, b);
        }
        self.parameter_transform(a, b);
        proof {
            lemma_norm_range_ends(t0, t1, delta, a, b, self.t0, self.t1);
        }
    }
}

/// The affine arguments derived during normalization keep the affine
/// arithmetic of a small parameter within 64-bit bounds.
proof fn lemma_norm_args_fit(t: Frac, a: Frac, b: Frac)
    requires
        -0x100 <= t.num <= 0x100,
        0 < t.den <= 0x100,
        -0x1_0000 <= a.num <= 0x1_0000,
        0 < a.den <= 0x2_0000,
        -0x100_0000 <= b.num <= 0x100_0000,
        0 < b.den <= 0x200_0000,
    ensures
        can_affine(a, b, t),
{
    lemma_mul_bound(a.num as int, t.num as int, 0x1_0000, 0x100);
    lemma_mul_bound(a.num * t.num, b.den as int, 0x100_0000, 0x200_0000);
    lemma_mul_bound(b.num as int, a.den as int, 0x100_0000, 0x2_0000);
    lemma_mul_bound(b.num * a.den, t.den as int, 0x200_0000_0000, 0x100);
    lemma_mul_bound(a.den as int, t.den as int, 0x2_0000, 0x100);
    lemma_mul_bound(a.den * t.den, b.den as int, 0x200_0000, 0x200_0000);
}

/// After the normalizing transform, the domain's ends denote zero and one.
#[verifier::rlimit(60)]
proof fn lemma_norm_range_ends(t0: Frac, t1: Frac, delta: Frac, a: Frac, b: Frac, nt0: Frac, nt1: Frac)
    requires
        t0.wf(),
        t1.wf(),
        delta.num == t1.num * t0.den - t0.num * t1.den,
        delta.den == t1.den * t0.den,
        delta.num != 0,
        a.wf(),
        a.num * delta.num == delta.den * a.den,
        b.num == -t0.num * a.num,
        b.den == t0.den * a.den,
        nt0.wf(),
        nt1.wf(),
        affine_rel(a, b, t0, nt0),
        affine_rel(a, b, t1, nt1),
    ensures
        nt0.veq(Frac { num: 0, den: 1 }),
        nt1.veq(Frac { num: 1, den: 1 }),
{
    assert(a.num * t0.num * b.den + b.num * a.den * t0.den == 0) by (nonlinear_arith)
        requires
            b.num == -t0.num * a.num,
            b.den == t0.den * a.den,
    ;
    assert(nt0.num * (a.den * t0.den * b.den) == 0) by (nonlinear_arith)
        requires
            affine_rel(a, b, t0, nt0),
            a.num * t0.num * b.den + b.num * a.den * t0.den == 0,
    ;
    assert(a.den * t0.den * b.den > 0) by (nonlinear_arith)
        requires
            a.den > 0,
            t0.den > 0,
            b.den == t0.den * a.den,
    ;
    assert(nt0.num == 0) by (nonlinear_arith)
        requires
            nt0.num * (a.den * t0.den * b.den) == 0,
            a.den * t0.den * b.den > 0,
    ;
    let an: int = a.num as int;
    let ad: int = a.den as int;
    let t0n: int = t0.num as int;
    let t0d: int = t0.den as int;
    let t1n: int = t1.num as int;
    let t1d: int = t1.den as int;
    assert(an * t1n * (t0d * ad) == an * ad * (t1n * t0d)) by (nonlinear_arith);
    assert((-t0n * an) * ad * t1d == -(an * ad * (t0n * t1d))) by (nonlinear_arith);
    assert(an * ad * (t1n * t0d - t0n * t1d) == an * ad * (t1n * t0d) - an * ad * (t0n * t1d))
        by (nonlinear_arith);
    assert(a.num * t1.num * b.den + b.num * a.den * t1.den == a.num * a.den * delta.num);
    assert(a.num * a.den * delta.num == a.den * a.den * delta.den) by (nonlinear_arith)
        requires
            a.num * delta.num == delta.den * a.den,
    ;
    assert(a.den * t1.den * b.den == a.den * a.den * delta.den) by (nonlinear_arith)
        requires
            b.den == t0.den * a.den,
            delta.den == t1.den * t0.den,
    ;
    assert(nt1.num * (a.den * a.den * delta.den) == nt1.den * (a.den * a.den * delta.den))
        by (nonlinear_arith)
        requires
            affine_rel(a, b, t1, nt1),
            a.num * t1.num * b.den + b.num * a.den * t1.den == a.den * a.den * delta.den,
            a.den * t1.den * b.den == a.den * a.den * delta.den,
    ;
    assert(a.den * a.den * delta.den > 0) by (nonlinear_arith)
        requires
            a.den > 0,
            delta.den == t1.den * t0.den,
            t0.den > 0,
            t1.den > 0,
    ;
    assert(nt1.num == nt1.den) by (nonlinear_arith)
        requires
            nt1.num * (a.den * a.den * delta.den) == nt1.den * (a.den * a.den * delta.den),
            a.den * a.den * delta.den > 0,
    ;
}

impl Concat<ConstCurve> for ConstCurve {
    type Output = ConstCurve;

    fn try_concat(&self, rhs: &ConstCurve) -> (r: Result<ConstCurve, ConcatError<i64>>) {
        if !self.t1.eq_val(&rhs.t0) {
            Err(ConcatError::DisconnectedParameters(self.t1, rhs.t0))
        } else if self.point != rhs.point {
            Err(ConcatError::DisconnectedPoints(self.point, rhs.point))
        } else {
            Ok(ConstCurve { point: self.point, t0: self.t0, t1: rhs.t1 })
        }
    }

    fn concat(&self, rhs: &ConstCurve) -> (out: ConstCurve) {
        ConstCurve { point: self.point, t0: self.t0, t1: rhs.t1 }
    }
}

impl ToCurve<ConstCurve> for ConstCurve {
    fn to_curve(&self) -> (r: ConstCurve) {
        *self
    }
}

impl Cut for ConstCurve {
    fn cut(&mut self, t: Frac) -> (r: ConstCurve) {
        let r = ConstCurve { point: self.point, t0: t, t1: self.t1 };
        self.t1 = t;
        r
    }
}

} // verus!

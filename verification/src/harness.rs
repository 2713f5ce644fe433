//! Randomized trial harness for the capability laws.
//!
//! Each trial draws an affine map, a parameter, or a cut point at random,
//! runs the capability under test, and compares what came back against the
//! original curve. The drawn values are bounded so every comparison stays
//! within machine arithmetic; the checks themselves are exact.

use vstd::prelude::*;
use vstd::std_specs::cmp::PartialEqSpec;
use crate::frac::{
    Frac, affine_apply, can_affine, interp, lemma_affine_rel_unique, lemma_interp_monotone,
    lemma_mul_bound, lemma_veq_vle, lemma_veq_vle_compat, small,
};
use crate::curve::{Concat, Cut, ParameterTransform, ParametricCurve};

verus! {

/// Relies on rand::random: an arbitrary value of the drawn type; nothing is
/// promised of it.
pub assume_specification<T>[ rand::random::<T> ]() -> (r: T)
    where rand::distributions::Standard: rand::distributions::Distribution<T>,
;

/// The executable equality of `T` agrees with equality in specifications.
pub open spec fn eq_reflects<T: PartialEq>() -> bool {
    &&& T::obeys_eq_spec()
    &&& forall|x: T, y: T| #[trigger] x.eq_spec(&y) <==> x == y
}

/// The shape of a drawn scale: magnitude in `[0.5, 1.5)`, either sign,
/// never zero.
pub open spec fn drawn_scale(a: Frac) -> bool {
    a.den == 1000 && (500 <= a.num <= 1499 || -1499 <= a.num <= -500)
}

/// The shape of a drawn shift: a value in `[0, 2)`.
pub open spec fn drawn_shift(b: Frac) -> bool {
    b.den == 1000 && 0 <= b.num <= 1999
}

/// Draws a nonzero scale with random sign and magnitude in `[0.5, 1.5)`.
fn draw_scale() -> (a: Frac)
    ensures
        a.wf(),
        drawn_scale(a),
        a.num != 0,
{
    let k: u64 = rand::random::<u64>();
    let neg: bool = rand::random::<bool>();
    let mag: i64 = 500 + ((k % 1000) as i64);
    if neg {
        Frac::new(-mag, 1000)
    } else {
        Frac::new(mag, 1000)
    }
}

/// Draws a shift in `[0, 2)`.
fn draw_shift() -> (b: Frac)
    ensures
        b.wf(),
        drawn_shift(b),
{
    let k: u64 = rand::random::<u64>();
    Frac::new(((k % 2000) as i64), 1000)
}

/// Draws an interpolation weight, in thousandths.
fn draw_unit() -> (k: u64)
    ensures
        k <= 1000,
{
    let k: u64 = rand::random::<u64>();
    k % 1001
}

/// A drawn affine map applied to a harness-sized parameter stays within
/// machine bounds.
proof fn lemma_trial_affine_fits(a: Frac, b: Frac, t: Frac)
    requires
        -0x800 <= a.num <= 0x800,
        0 < a.den <= 0x400,
        -0x800 <= b.num <= 0x800,
        0 < b.den <= 0x400,
        -0x8_0000_0000 <= t.num <= 0x8_0000_0000,
        0 < t.den <= 0x4_0000_0000,
    ensures
        can_affine(a, b, t),
{
    lemma_mul_bound(a.num as int, t.num as int, 0x800, 0x8_0000_0000);
    lemma_mul_bound(a.num * t.num, b.den as int, 0x4000_0000_0000, 0x400);
    lemma_mul_bound(b.num as int, a.den as int, 0x800, 0x400);
    lemma_mul_bound(b.num * a.den, t.den as int, 0x20_0000, 0x4_0000_0000);
    lemma_mul_bound(a.den as int, t.den as int, 0x400, 0x4_0000_0000);
    lemma_mul_bound(a.den * t.den, b.den as int, 0x1000_0000_0000, 0x400);
}

/// One trial of the reparametrization laws: draws an affine map and a
/// parameter, transforms, and checks the transformed domain, the position
/// and both derivatives at the corresponding parameter, and both end
/// points. The checks cannot fail on a conforming implementation.
pub fn exec_parameter_transform_random_test<C: ParameterTransform>(curve: &C) -> (ok: bool) where
    C::Point: PartialEq,
    C::Vector: PartialEq,

    requires
        curve.inv(),
        small(curve.spec_range().0),
        small(curve.spec_range().1),
        forall|a: Frac, b: Frac|
            drawn_scale(a) && drawn_shift(b) ==> curve.can_transform(a, b),
        eq_reflects::<C::Point>(),
        eq_reflects::<C::Vector>(),
    ensures
        ok,
{
    let a = draw_scale();
    let b = draw_shift();
    let k = draw_unit();
    let transformed = curve.parameter_transformed(a, b);

    let (t0, t1) = curve.parameter_range();
    proof {
        lemma_trial_affine_fits(a, b, t0);
        lemma_trial_affine_fits(a, b, t1);
    }
    let expected0 = affine_apply(&a, &b, &t0);
    let expected1 = affine_apply(&a, &b, &t1);
    let (r0, r1) = transformed.parameter_range();
    proof {
        lemma_affine_rel_unique(a, b, t0, r0, expected0);
        lemma_affine_rel_unique(a, b, t1, r1, expected1);
    }
    let ok_range = r0.eq_val(&expected0) && r1.eq_val(&expected1);

    let t = interp(&t0, &t1, k);
    proof {
        lemma_trial_affine_fits(a, b, t);
    }
    let s = affine_apply(&a, &b, &t);
    let ok_subs = transformed.subs(s) == curve.subs(t);
    let ok_der = transformed.der(s) == curve.der(t);
    let ok_der2 = transformed.der2(s) == curve.der2(t);
    let ok_front = transformed.front() == curve.front();
    let ok_back = transformed.back() == curve.back();
    ok_range && ok_subs && ok_der && ok_der2 && ok_front && ok_back
}

/// Positive trials of the reparametrization laws, repeated independently.
pub fn parameter_transform_random_test<C: ParameterTransform>(curve: &C, trials: usize) -> (ok:
    bool) where C::Point: PartialEq, C::Vector: PartialEq
    requires
        curve.inv(),
        small(curve.spec_range().0),
        small(curve.spec_range().1),
        forall|a: Frac, b: Frac|
            drawn_scale(a) && drawn_shift(b) ==> curve.can_transform(a, b),
        eq_reflects::<C::Point>(),
        eq_reflects::<C::Vector>(),
    ensures
        ok,
{
    let mut i: usize = 0;
    let mut ok: bool = true;
    while i < trials
        invariant
            ok,
            curve.inv(),
            small(curve.spec_range().0),
            small(curve.spec_range().1),
            forall|a: Frac, b: Frac|
                drawn_scale(a) && drawn_shift(b) ==> curve.can_transform(a, b),
            eq_reflects::<C::Point>(),
            eq_reflects::<C::Vector>(),
        decreases trials - i,
    {
        ok = ok && exec_parameter_transform_random_test(curve);
        i = i + 1;
    }
    ok
}

/// One trial of the concatenation laws on two adjacent curves: checks the
/// concatenated domain, agreement with the first curve on its domain and
/// with the second on its own, and the outer end points.
pub fn exec_concat_random_test<C0: Concat<C1>, C1: ParametricCurve<
    Point = C0::Point,
    Vector = C0::Vector,
>>(curve0: &C0, curve1: &C1) -> (ok: bool) where C0::Point: PartialEq, C0::Vector: PartialEq
    requires
        curve0.inv(),
        curve1.inv(),
        small(curve0.spec_range().0),
        small(curve0.spec_range().1),
        small(curve1.spec_range().0),
        small(curve1.spec_range().1),
        curve0.spec_range().0.vle(curve0.spec_range().1),
        curve1.spec_range().0.vle(curve1.spec_range().1),
        curve0.spec_range().1.veq(curve1.spec_range().0),
        curve0.spec_subs(curve0.spec_range().1) == curve1.spec_subs(curve1.spec_range().0),
        eq_reflects::<C0::Point>(),
        eq_reflects::<C0::Vector>(),
    ensures
        ok,
{
    let concatted = curve0.concat(curve1);
    let (t0, t1) = curve0.parameter_range();
    let (s0, s1) = curve1.parameter_range();
    let (r0, r1) = concatted.parameter_range();
    proof {
        concatted.lemma_range_wf();
    }
    let ok_range = r0.eq_val(&t0) && r1.eq_val(&s1);

    let k = draw_unit();
    let t = interp(&t0, &t1, k);
    let ok_left = concatted.subs(t) == curve0.subs(t) && concatted.der(t) == curve0.der(t)
        && concatted.der2(t) == curve0.der2(t);
    proof {
        lemma_veq_vle_compat(r0, t0, t1);
        lemma_veq_vle(r0, t0);
    }
    let ok_front = concatted.front() == curve0.front();
    proof {
        if !(concatted.spec_subs(concatted.spec_range().0) == curve0.spec_subs(
            curve0.spec_range().0,
        )) {
            lemma_veq_vle(concatted.spec_range().0, curve0.spec_range().0);
            lemma_veq_vle_compat(concatted.spec_range().0, curve0.spec_range().0, curve0.spec_range().1);
            assert(concatted.spec_subs(concatted.spec_range().0) == curve0.spec_subs(
                concatted.spec_range().0,
            ));
            curve0.lemma_congruence(concatted.spec_range().0, curve0.spec_range().0);
            assert(false);
        }
    }

    let k2 = draw_unit();
    let s = interp(&s0, &s1, k2);
    let ok_right = concatted.subs(s) == curve1.subs(s) && concatted.der(s) == curve1.der(s)
        && concatted.der2(s) == curve1.der2(s);
    let ok_back = concatted.back() == curve1.back();
    proof {
        if !(concatted.spec_subs(concatted.spec_range().1) == curve1.spec_subs(
            curve1.spec_range().1,
        )) {
            lemma_veq_vle(concatted.spec_range().1, curve1.spec_range().1);
            lemma_veq_vle_compat(concatted.spec_range().1, curve1.spec_range().1, curve1.spec_range().0);
            assert(concatted.spec_subs(concatted.spec_range().1) == curve1.spec_subs(
                concatted.spec_range().1,
            ));
            curve1.lemma_congruence(concatted.spec_range().1, curve1.spec_range().1);
            assert(false);
        }
    }
    ok_range && ok_left && ok_front && ok_right && ok_back
}

/// Positive trials of the concatenation laws, repeated independently.
pub fn concat_random_test<C0: Concat<C1>, C1: ParametricCurve<
    Point = C0::Point,
    Vector = C0::Vector,
>>(curve0: &C0, curve1: &C1, trials: usize) -> (ok: bool) where
    C0::Point: PartialEq,
    C0::Vector: PartialEq,

    requires
        curve0.inv(),
        curve1.inv(),
        small(curve0.spec_range().0),
        small(curve0.spec_range().1),
        small(curve1.spec_range().0),
        small(curve1.spec_range().1),
        curve0.spec_range().0.vle(curve0.spec_range().1),
        curve1.spec_range().0.vle(curve1.spec_range().1),
        curve0.spec_range().1.veq(curve1.spec_range().0),
        curve0.spec_subs(curve0.spec_range().1) == curve1.spec_subs(curve1.spec_range().0),
        eq_reflects::<C0::Point>(),
        eq_reflects::<C0::Vector>(),
    ensures
        ok,
{
    let mut i: usize = 0;
    let mut ok: bool = true;
    while i < trials
        invariant
            ok,
            curve0.inv(),
            curve1.inv(),
            small(curve0.spec_range().0),
            small(curve0.spec_range().1),
            small(curve1.spec_range().0),
            small(curve1.spec_range().1),
            curve0.spec_range().0.vle(curve0.spec_range().1),
            curve1.spec_range().0.vle(curve1.spec_range().1),
            curve0.spec_range().1.veq(curve1.spec_range().0),
            curve0.spec_subs(curve0.spec_range().1) == curve1.spec_subs(curve1.spec_range().0),
            eq_reflects::<C0::Point>(),
            eq_reflects::<C0::Vector>(),
        decreases trials - i,
    {
        ok = ok && exec_concat_random_test(curve0, curve1);
        i = i + 1;
    }
    ok
}

/// One trial of the cut laws: cuts a duplicate at a drawn interior
/// parameter and checks that the two halves partition the domain, agree
/// with the original on their sub-domains, and share the cut point.
pub fn exec_cut_random_test<C: Cut>(curve: &C) -> (ok: bool) where
    C::Point: PartialEq,
    C::Vector: PartialEq,

    requires
        curve.inv(),
        small(curve.spec_range().0),
        small(curve.spec_range().1),
        curve.spec_range().0.vle(curve.spec_range().1),
        eq_reflects::<C::Point>(),
        eq_reflects::<C::Vector>(),
    ensures
        ok,
{
    let mut part0 = curve.dup();
    let (t0, t1) = curve.parameter_range();
    let k = draw_unit();
    let t = interp(&t0, &t1, k);
    let part1 = part0.cut(t);
    let (p00, p01) = part0.parameter_range();
    let (p10, p11) = part1.parameter_range();
    proof {
        part0.lemma_range_wf();
        part1.lemma_range_wf();
    }
    let ok_range = p00.eq_val(&t0) && p01.eq_val(&t) && p10.eq_val(&t) && p11.eq_val(&t1);

    let j = draw_unit();
    let jlo = if j <= k {
        j
    } else {
        k
    };
    let s0 = interp(&t0, &t1, jlo);
    proof {
        lemma_interp_monotone(t0, t1, jlo as int, k as int, s0, t);
    }
    let ok_low = part0.subs(s0) == curve.subs(s0) && part0.der(s0) == curve.der(s0) && part0.der2(
        s0,
    ) == curve.der2(s0);
    proof {
        lemma_veq_vle(p00, t0);
        lemma_veq_vle_compat(p00, t0, t);
        lemma_veq_vle(p01, t);
        lemma_veq_vle_compat(p01, t, t0);
        if !(part0.spec_subs(p00) == curve.spec_subs(t0)) {
            assert(part0.spec_subs(p00) == curve.spec_subs(p00));
            curve.lemma_congruence(p00, t0);
            assert(false);
        }
        if !(part0.spec_subs(p01) == curve.spec_subs(t)) {
            assert(part0.spec_subs(p01) == curve.spec_subs(p01));
            curve.lemma_congruence(p01, t);
            assert(false);
        }
    }
    let ok_front0 = part0.front() == curve.front();
    let cut_point = curve.subs(t);
    let ok_back0 = part0.back() == cut_point;

    let j2 = draw_unit();
    let jhi = if j2 >= k {
        j2
    } else {
        k
    };
    let s1 = interp(&t0, &t1, jhi);
    proof {
        lemma_interp_monotone(t0, t1, k as int, jhi as int, t, s1);
    }
    let ok_high = part1.subs(s1) == curve.subs(s1) && part1.der(s1) == curve.der(s1) && part1.der2(
        s1,
    ) == curve.der2(s1);
    proof {
        lemma_veq_vle(p10, t);
        lemma_veq_vle_compat(p10, t, t1);
        lemma_veq_vle(p11, t1);
        lemma_veq_vle_compat(p11, t1, t);
        if !(part1.spec_subs(p10) == curve.spec_subs(t)) {
            assert(part1.spec_subs(p10) == curve.spec_subs(p10));
            curve.lemma_congruence(p10, t);
            assert(false);
        }
        if !(part1.spec_subs(p11) == curve.spec_subs(t1)) {
            assert(part1.spec_subs(p11) == curve.spec_subs(p11));
            curve.lemma_congruence(p11, t1);
            assert(false);
        }
    }
    let ok_front1 = part1.front() == cut_point;
    let ok_back1 = part1.back() == curve.back();
    ok_range && ok_low && ok_front0 && ok_back0 && ok_high && ok_front1 && ok_back1
}

/// Positive trials of the cut laws, repeated independently.
pub fn cut_random_test<C: Cut>(curve: &C, trials: usize) -> (ok: bool) where
    C::Point: PartialEq,
    C::Vector: PartialEq,

    requires
        curve.inv(),
        small(curve.spec_range().0),
        small(curve.spec_range().1),
        curve.spec_range().0.vle(curve.spec_range().1),
        eq_reflects::<C::Point>(),
        eq_reflects::<C::Vector>(),
    ensures
        ok,
{
    let mut i: usize = 0;
    let mut ok: bool = true;
    while i < trials
        invariant
            ok,
            curve.inv(),
            small(curve.spec_range().0),
            small(curve.spec_range().1),
            curve.spec_range().0.vle(curve.spec_range().1),
            eq_reflects::<C::Point>(),
            eq_reflects::<C::Vector>(),
        decreases trials - i,
    {
        ok = ok && exec_cut_random_test(curve);
        i = i + 1;
    }
    ok
}

} // verus!

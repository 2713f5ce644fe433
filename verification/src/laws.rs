//! Laws of the curve algebra, stated once over the contracts and proved for
//! every conforming implementation.
//!
//! The affine-invariance and concatenation laws live in the `ensures` of
//! `ParameterTransform` and `Concat`; here stand the laws that relate
//! several operations.

use vstd::prelude::*;
use crate::frac::{Frac, lemma_veq_trans, lemma_veq_vle, lemma_veq_vle_compat, lemma_vle_trans};
use crate::curve::{ParametricCurve, is_concat_of, norm_rel};

verus! {

/// Normalization idempotence: on a domain already denoting `(0, 1)`, the
/// normalizing map is the identity — the normalized image of a parameter is
/// the parameter itself, so normalizing such a curve is a no-op up to the
/// identity transform.
pub proof fn lemma_normalization_identity(t0: Frac, t1: Frac, t: Frac, s: Frac)
    requires
        t0.wf(),
        t1.wf(),
        t.wf(),
        s.wf(),
        t0.veq(Frac::spec_zero()),
        t1.veq(Frac::spec_one()),
        norm_rel(t0, t1, t, s),
    ensures
        s.veq(t),
{
    assert(t0.num == 0);
    assert(t1.num == t1.den);
    assert(s.num * t.den == t.num * s.den) by (nonlinear_arith)
        requires
            s.num * (t1.num * t0.den - t0.num * t1.den) * (t.den * t0.den) == (t.num * t0.den
                - t0.num * t.den) * s.den * (t1.den * t0.den),
            t0.num == 0,
            t1.num == t1.den,
            t0.den > 0,
            t1.den > 0,
    ;
}

/// Cut partition, at the boundary: after a cut at `t`, the mutated curve's
/// back point, the returned curve's front point, and the original curve's
/// position at `t` all agree.
pub proof fn lemma_cut_boundary<C: ParametricCurve>(pre: C, post0: C, post1: C, t: Frac)
    requires
        pre.inv(),
        post0.inv(),
        post1.inv(),
        t.wf(),
        pre.spec_range().0.vle(t),
        t.vle(pre.spec_range().1),
        post0.spec_range().0.veq(pre.spec_range().0),
        post0.spec_range().1.veq(t),
        post1.spec_range().0.veq(t),
        post1.spec_range().1.veq(pre.spec_range().1),
        forall|s: Frac|
            s.wf() && pre.spec_range().0.vle(s) && s.vle(t) ==> #[trigger] post0.spec_subs(s)
                == pre.spec_subs(s),
        forall|s: Frac|
            s.wf() && t.vle(s) && s.vle(pre.spec_range().1) ==> #[trigger] post1.spec_subs(s)
                == pre.spec_subs(s),
    ensures
        post0.spec_subs(post0.spec_range().1) == pre.spec_subs(t),
        post1.spec_subs(post1.spec_range().0) == pre.spec_subs(t),
{
    pre.lemma_range_wf();
    post0.lemma_range_wf();
    post1.lemma_range_wf();
    let s0 = post0.spec_range().1;
    lemma_veq_vle(s0, t);
    lemma_veq_vle_compat(s0, t, pre.spec_range().0);
    assert(post0.spec_subs(s0) == pre.spec_subs(s0));
    pre.lemma_congruence(s0, t);
    let s1 = post1.spec_range().0;
    lemma_veq_vle(s1, t);
    lemma_veq_vle_compat(s1, t, pre.spec_range().1);
    assert(post1.spec_subs(s1) == pre.spec_subs(s1));
    pre.lemma_congruence(s1, t);
}

/// Collector fold: concatenating three adjacent segments pairwise, left to
/// right — as the collector does — yields a curve that spans from the first
/// segment's start to the last one's end and agrees with each segment on
/// its own domain: the fold equals the direct concatenation of all
/// segments.
pub proof fn lemma_concat_fold_flatten<
    A: ParametricCurve,
    B: ParametricCurve<Point = A::Point, Vector = A::Vector>,
    C: ParametricCurve<Point = A::Point, Vector = A::Vector>,
    D: ParametricCurve<Point = A::Point, Vector = A::Vector>,
    E: ParametricCurve<Point = A::Point, Vector = A::Vector>,
>(a: A, b: B, c: C, d: D, e: E)
    requires
        a.inv(),
        b.inv(),
        c.inv(),
        a.spec_range().0.vle(a.spec_range().1),
        b.spec_range().0.vle(b.spec_range().1),
        c.spec_range().0.vle(c.spec_range().1),
        a.spec_range().1.veq(b.spec_range().0),
        b.spec_range().1.veq(c.spec_range().0),
        is_concat_of(d, a, b),
        is_concat_of(e, d, c),
    ensures
        e.spec_range().0.veq(a.spec_range().0),
        e.spec_range().1.veq(c.spec_range().1),
        forall|t: Frac|
            t.wf() && a.spec_range().0.vle(t) && t.vle(a.spec_range().1) ==> #[trigger] e.spec_subs(
                t,
            ) == a.spec_subs(t) && e.spec_der(t) == a.spec_der(t) && e.spec_der2(t) == a.spec_der2(
                t,
            ),
        forall|t: Frac|
            t.wf() && b.spec_range().0.vle(t) && t.vle(b.spec_range().1) ==> #[trigger] e.spec_subs(
                t,
            ) == b.spec_subs(t) && e.spec_der(t) == b.spec_der(t) && e.spec_der2(t) == b.spec_der2(
                t,
            ),
        forall|t: Frac|
            t.wf() && c.spec_range().0.vle(t) && t.vle(c.spec_range().1) ==> #[trigger] e.spec_subs(
                t,
            ) == c.spec_subs(t) && e.spec_der(t) == c.spec_der(t) && e.spec_der2(t) == c.spec_der2(
                t,
            ),
    {
    a.lemma_range_wf();
    b.lemma_range_wf();
    c.lemma_range_wf();
    let a0 = a.spec_range().0;
    let a1 = a.spec_range().1;
    let b0 = b.spec_range().0;
    let b1 = b.spec_range().1;
    let d0 = d.spec_range().0;
    let d1 = d.spec_range().1;
    d.lemma_range_wf();
    e.lemma_range_wf();
    lemma_veq_trans(e.spec_range().0, d0, a0);
    lemma_veq_trans(e.spec_range().1, c.spec_range().1, c.spec_range().1);
    assert forall|t: Frac|
        t.wf() && a0.vle(t) && t.vle(a1) implies #[trigger] e.spec_subs(t) == a.spec_subs(t)
        && e.spec_der(t) == a.spec_der(t) && e.spec_der2(t) == a.spec_der2(t) by {
        lemma_veq_vle_compat(d0, a0, t);
        lemma_veq_vle_compat(a1, b0, t);
        lemma_vle_trans(t, b0, b1);
        lemma_veq_vle_compat(d1, b1, t);
        assert(d.spec_subs(t) == a.spec_subs(t));
        assert(e.spec_subs(t) == d.spec_subs(t));
    }
    assert forall|t: Frac|
        t.wf() && b0.vle(t) && t.vle(b1) implies #[trigger] e.spec_subs(t) == b.spec_subs(t)
        && e.spec_der(t) == b.spec_der(t) && e.spec_der2(t) == b.spec_der2(t) by {
        lemma_veq_vle_compat(a1, b0, t);
        lemma_vle_trans(a0, a1, t);
        lemma_veq_vle_compat(d0, a0, t);
        lemma_veq_vle_compat(d1, b1, t);
        assert(d.spec_subs(t) == b.spec_subs(t));
        assert(e.spec_subs(t) == d.spec_subs(t));
    }
    assert forall|t: Frac|
        t.wf() && c.spec_range().0.vle(t) && t.vle(c.spec_range().1) implies #[trigger] e.spec_subs(
        t,
    ) == c.spec_subs(t) && e.spec_der(t) == c.spec_der(t) && e.spec_der2(t) == c.spec_der2(t) by {
        assert(e.spec_subs(t) == c.spec_subs(t));
    }
}

} // verus!

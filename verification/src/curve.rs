//! The curve contract and its capabilities.
//!
//! A parametric curve maps a rational parameter inside a bounded domain to a
//! point, with first and second derivatives. Capabilities extend the
//! contract: affine reparametrization, concatenation with continuity
//! validation, and cutting a curve in two at a parameter.

use vstd::prelude::*;
use crate::frac::Frac;
use crate::frac::affine_rel;

verus! {

/// Relates `s` to the normalized image of `t`: holds exactly when
/// `s == (t - t0) / (t1 - t0)` as rationals.
pub open spec fn norm_rel(t0: Frac, t1: Frac, t: Frac, s: Frac) -> bool {
    s.num * (t1.num * t0.den - t0.num * t1.den) * (t.den * t0.den) == (t.num * t0.den - t0.num
        * t.den) * s.den * (t1.den * t0.den)
}

/// A parametric curve: evaluation, two derivative orders, and a parameter
/// domain. `spec_subs`, `spec_der`, `spec_der2` and `spec_range` are the
/// mathematical model that the executable operations are held to.
pub trait ParametricCurve: Sized {
    /// The ambient space the curve lives in.
    type Point;

    /// The tangent and derivative space of the curve.
    type Vector;

    /// The implementation's internal invariant.
    spec fn inv(&self) -> bool;

    /// The position at parameter `t`.
    spec fn spec_subs(&self, t: Frac) -> Self::Point;

    /// The first derivative at parameter `t`.
    spec fn spec_der(&self, t: Frac) -> Self::Vector;

    /// The second derivative at parameter `t`.
    spec fn spec_der2(&self, t: Frac) -> Self::Vector;

    /// The parameter domain, as its two endpoints.
    spec fn spec_range(&self) -> (Frac, Frac);

    /// Both endpoints of the domain are well formed.
    proof fn lemma_range_wf(&self)
        requires
            self.inv(),
        ensures
            self.spec_range().0.wf(),
            self.spec_range().1.wf(),
    ;

    /// Evaluation depends on the parameter's value, not its representation.
    proof fn lemma_congruence(&self, t: Frac, s: Frac)
        requires
            self.inv(),
            t.wf(),
            s.wf(),
            t.veq(s),
        ensures
            self.spec_subs(t) == self.spec_subs(s),
            self.spec_der(t) == self.spec_der(s),
            self.spec_der2(t) == self.spec_der2(s),
    ;

    /// Substitutes the parameter `t`.
    fn subs(&self, t: Frac) -> (p: Self::Point)
        requires
            self.inv(),
            t.wf(),
        ensures
            p == self.spec_subs(t),
    ;

    /// Returns the derivative at `t`.
    fn der(&self, t: Frac) -> (v: Self::Vector)
        requires
            self.inv(),
            t.wf(),
        ensures
            v == self.spec_der(t),
    ;

    /// Returns the second-order derivative at `t`.
    fn der2(&self, t: Frac) -> (v: Self::Vector)
        requires
            self.inv(),
            t.wf(),
        ensures
            v == self.spec_der2(t),
    ;

    /// The range of the parameter of the curve.
    fn parameter_range(&self) -> (r: (Frac, Frac))
        requires
            self.inv(),
        ensures
            r == self.spec_range(),
    ;

    /// An owned duplicate of the curve.
    fn dup(&self) -> (r: Self)
        requires
            self.inv(),
        ensures
            r == *self,
    ;

    /// The front end point of the curve: the position at the domain's start.
    fn front(&self) -> (p: Self::Point)
        requires
            self.inv(),
        ensures
            p == self.spec_subs(self.spec_range().0),
    ;

    /// The back end point of the curve: the position at the domain's end.
    fn back(&self) -> (p: Self::Point)
        requires
            self.inv(),
        ensures
            p == self.spec_subs(self.spec_range().1),
    ;
}

/// Two curves denote the same map: their domains are equal in value and they
/// agree pointwise, for position and both derivative orders, on that domain.
pub open spec fn same_curve<A: ParametricCurve, B: ParametricCurve<
    Point = A::Point,
    Vector = A::Vector,
>>(a: A, b: B) -> bool {
    &&& a.spec_range().0.veq(b.spec_range().0)
    &&& a.spec_range().1.veq(b.spec_range().1)
    &&& forall|t: Frac|
        t.wf() && a.spec_range().0.vle(t) && t.vle(a.spec_range().1) ==> #[trigger] a.spec_subs(t)
            == b.spec_subs(t) && a.spec_der(t) == b.spec_der(t) && a.spec_der2(t) == b.spec_der2(t)
}

/// `out` is the concatenation of `left` then `right`: its domain spans from
/// `left`'s start to `right`'s end, it agrees with `left` on `left`'s domain
/// and with `right` on `right`'s domain, for position and both derivatives.
pub open spec fn is_concat_of<A: ParametricCurve, B: ParametricCurve<
    Point = A::Point,
    Vector = A::Vector,
>, O: ParametricCurve<Point = A::Point, Vector = A::Vector>>(out: O, left: A, right: B) -> bool {
    &&& out.inv()
    &&& out.spec_range().0.veq(left.spec_range().0)
    &&& out.spec_range().1.veq(right.spec_range().1)
    &&& forall|t: Frac|
        t.wf() && left.spec_range().0.vle(t) && t.vle(left.spec_range().1)
            ==> #[trigger] out.spec_subs(t) == left.spec_subs(t) && out.spec_der(t)
            == left.spec_der(t) && out.spec_der2(t) == left.spec_der2(t)
    &&& forall|t: Frac|
        t.wf() && right.spec_range().0.vle(t) && t.vle(right.spec_range().1)
            ==> #[trigger] out.spec_subs(t) == right.spec_subs(t) && out.spec_der(t)
            == right.spec_der(t) && out.spec_der2(t) == right.spec_der2(t)
}

/// Dividable curve: produces an ordered parameter sampling of a range, dense
/// enough for the implementation's tolerance policy. Only the interface is
/// fixed here; the subdivision algorithm belongs to each implementation.
pub trait ParameterDivision1D {
    /// Creates the curve division: an ascending sampling of `range` that
    /// starts at `range.0` and ends at `range.1`.
    fn parameter_division(&self, range: (Frac, Frac), tol: Frac) -> (r: Vec<Frac>)
        requires
            range.0.wf(),
            range.1.wf(),
            range.0.vle(range.1),
            tol.wf(),
            Frac::spec_zero().vlt(tol),
        ensures
            r@.len() >= 2,
            forall|i: int| 0 <= i < r@.len() ==> (#[trigger] r@[i]).wf(),
            r@[0].veq(range.0),
            r@[r@.len() - 1].veq(range.1),
            forall|i: int| 0 <= i < r@.len() - 1 ==> (#[trigger] r@[i]).vle(r@[i + 1]),
    ;
}

/// Affine reparametrization: replaces the parametrization `t` with
/// `scalar * t + shift`, leaving positions and derivative values unchanged
/// at corresponding parameters.
pub trait ParameterTransform: ParametricCurve {
    /// The arguments for which the implementation's arithmetic stays within
    /// machine bounds.
    spec fn can_transform(&self, scalar: Frac, shift: Frac) -> bool;

    /// The curves on which `parameter_normalization`'s derived arguments
    /// stay within machine bounds.
    spec fn can_normalize(&self) -> bool;

    /// Moves the parameter range by the affine map `t ↦ scalar * t + shift`,
    /// in place.
    fn parameter_transform(&mut self, scalar: Frac, shift: Frac)
        requires
            old(self).inv(),
            scalar.wf(),
            shift.wf(),
            scalar.num != 0,
            old(self).can_transform(scalar, shift),
        ensures
            final(self).inv(),
            affine_rel(scalar, shift, old(self).spec_range().0, final(self).spec_range().0),
            affine_rel(scalar, shift, old(self).spec_range().1, final(self).spec_range().1),
            final(self).spec_range().0.wf(),
            final(self).spec_range().1.wf(),
            forall|t: Frac, s: Frac|
                t.wf() && s.wf() && #[trigger] affine_rel(scalar, shift, t, s) ==> final(self).spec_subs(s) == old(self).spec_subs(t) && final(self).spec_der(s) == old(self).spec_der(t) && final(self).spec_der2(s) == old(self).spec_der2(t),
    ;

    /// The value-returning counterpart of `parameter_transform`; the receiver
    /// is left untouched and the transformed duplicate is returned.
    fn parameter_transformed(&self, scalar: Frac, shift: Frac) -> (r: Self)
        requires
            self.inv(),
            scalar.wf(),
            shift.wf(),
            scalar.num != 0,
            self.can_transform(scalar, shift),
        ensures
            r.inv(),
            affine_rel(scalar, shift, self.spec_range().0, r.spec_range().0),
            affine_rel(scalar, shift, self.spec_range().1, r.spec_range().1),
            r.spec_range().0.wf(),
            r.spec_range().1.wf(),
            forall|t: Frac, s: Frac|
                t.wf() && s.wf() && #[trigger] affine_rel(scalar, shift, t, s) ==> r.spec_subs(s)
                    == self.spec_subs(t) && r.spec_der(s) == self.spec_der(t) && r.spec_der2(s)
                    == self.spec_der2(t),
    ;

    /// Makes the parameter range `(0, 1)` by the affine map with
    /// `scalar = 1 / (t1 - t0)` and `shift = -t0 / (t1 - t0)`. The domain
    /// must not be a single point.
    fn parameter_normalization(&mut self)
        requires
            old(self).inv(),
            !old(self).spec_range().0.veq(old(self).spec_range().1),
            old(self).can_normalize(),
        ensures
            final(self).inv(),
            final(self).spec_range().0.wf(),
            final(self).spec_range().1.wf(),
            final(self).spec_range().0.veq(Frac::spec_zero()),
            final(self).spec_range().1.veq(Frac::spec_one()),
            forall|t: Frac, s: Frac|
                t.wf() && s.wf() && #[trigger] norm_rel(
                    old(self).spec_range().0,
                    old(self).spec_range().1,
                    t,
                    s,
                ) ==> final(self).spec_subs(s) == old(self).spec_subs(t) && final(self).spec_der(s)
                    == old(self).spec_der(t) && final(self).spec_der2(s) == old(self).spec_der2(t),
    ;
}

/// Error for concatenating curves.
#[derive(Clone, Debug)]
pub enum ConcatError<Point> {
    /// The end parameter of the first curve differs from the start parameter
    /// of the second curve; carries the two parameter values.
    DisconnectedParameters(Frac, Frac),
    /// The end point of the first curve differs from the start point of the
    /// second curve; carries the two points.
    DisconnectedPoints(Point, Point),
}

impl<T> ConcatError<T> {
    /// Maps the carried points under `f`, preserving the variant. Used when
    /// an error bubbles up through a wrapping curve type whose points have
    /// another representation.
    pub fn point_map<U, F: Fn(T) -> U>(self, f: F) -> (r: ConcatError<U>)
        requires
            self matches ConcatError::DisconnectedPoints(p, q) ==> f.requires((p,))
                && f.requires((q,)),
        ensures
            match self {
                ConcatError::DisconnectedParameters(x, y) => r
                    == ConcatError::<U>::DisconnectedParameters(x, y),
                ConcatError::DisconnectedPoints(p, q) => r matches ConcatError::DisconnectedPoints(
                    p2,
                    q2,
                ) && f.ensures((p,), p2) && f.ensures((q,), q2),
            },
    {
        match self {
            ConcatError::DisconnectedParameters(a, b) => ConcatError::DisconnectedParameters(a, b),
            ConcatError::DisconnectedPoints(p, q) => ConcatError::DisconnectedPoints(f(p), f(q)),
        }
    }
}

/// Concatenation of two curves of possibly different concrete types that
/// share point and vector spaces.
pub trait Concat<Rhs: ParametricCurve<Point = Self::Point, Vector = Self::Vector>>:
    ParametricCurve {
    /// The type of the concatenated curve.
    type Output: ParametricCurve<Point = Self::Point, Vector = Self::Vector>;

    /// Tries to concatenate two curves. Succeeds exactly when the receiver's
    /// domain end equals `rhs`'s domain start and the receiver's back point
    /// equals `rhs`'s front point; otherwise reports which check failed,
    /// with the offending values.
    fn try_concat(&self, rhs: &Rhs) -> (r: Result<Self::Output, ConcatError<Self::Point>>)
        requires
            self.inv(),
            rhs.inv(),
        ensures
            match r {
                Ok(out) => self.spec_range().1.veq(rhs.spec_range().0) && self.spec_subs(
                    self.spec_range().1,
                ) == rhs.spec_subs(rhs.spec_range().0) && is_concat_of(out, *self, *rhs),
                Err(e) => match e {
                    ConcatError::DisconnectedParameters(x, y) => !self.spec_range().1.veq(
                        rhs.spec_range().0,
                    ) && x == self.spec_range().1 && y == rhs.spec_range().0,
                    ConcatError::DisconnectedPoints(p, q) => self.spec_range().1.veq(
                        rhs.spec_range().0,
                    ) && p != q && p == self.spec_subs(self.spec_range().1) && q == rhs.spec_subs(
                        rhs.spec_range().0,
                    ),
                },
            },
    ;

    /// Concatenates two curves whose adjacency the caller has already
    /// established by construction; the checks of `try_concat` are
    /// preconditions here, not runtime failures.
    fn concat(&self, rhs: &Rhs) -> (out: Self::Output)
        requires
            self.inv(),
            rhs.inv(),
            self.spec_range().1.veq(rhs.spec_range().0),
            self.spec_subs(self.spec_range().1) == rhs.spec_subs(rhs.spec_range().0),
        ensures
            is_concat_of(out, *self, *rhs),
    ;
}

/// Conversion of a curve into another concrete representation that denotes
/// the same map.
pub trait ToCurve<C: ParametricCurve>: ParametricCurve<
    Point = C::Point,
    Vector = C::Vector,
> {
    /// Rebuilds the curve in the representation `C`.
    fn to_curve(&self) -> (r: C)
        requires
            self.inv(),
        ensures
            r.inv(),
            same_curve(r, *self),
            same_curve(*self, r),
    ;
}

/// Cuts one curve into two curves at a parameter inside its domain.
pub trait Cut: ParametricCurve {
    /// Cuts the curve at `t`: the receiver keeps the sub-domain before `t`,
    /// unchanged in value there, and the returned curve covers the
    /// sub-domain after `t`, unchanged in value there.
    fn cut(&mut self, t: Frac) -> (r: Self)
        requires
            old(self).inv(),
            t.wf(),
            old(self).spec_range().0.vle(t),
            t.vle(old(self).spec_range().1),
        ensures
            final(self).inv(),
            r.inv(),
            final(self).spec_range().0.veq(old(self).spec_range().0),
            final(self).spec_range().1.veq(t),
            r.spec_range().0.veq(t),
            r.spec_range().1.veq(old(self).spec_range().1),
            forall|s: Frac|
                s.wf() && old(self).spec_range().0.vle(s) && s.vle(t) ==> #[trigger] final(self).spec_subs(s) == old(self).spec_subs(s) && final(self).spec_der(s) == old(self).spec_der(s) && final(self).spec_der2(s) == old(self).spec_der2(s),
            forall|s: Frac|
                s.wf() && t.vle(s) && s.vle(old(self).spec_range().1) ==> #[trigger] r.spec_subs(s)
                    == old(self).spec_subs(s) && r.spec_der(s) == old(self).spec_der(s)
                    && r.spec_der2(s) == old(self).spec_der2(s),
    ;
}

} // verus!

//! A fold accumulator for concatenating curve segments.
//!
//! The collector starts empty and accepts segments one by one: the first
//! segment seeds it, each later one is concatenated onto the held curve. It
//! spares callers a special case for the first segment, since many curve
//! representations have no sensible empty value.

use vstd::prelude::*;
use crate::curve::{Concat, ConcatError, ParametricCurve, ToCurve, is_concat_of, same_curve};

verus! {

/// Curve accumulator for recursive concatenation: either still empty
/// (`Singleton`) or holding the curve accumulated so far.
#[derive(Clone, Debug)]
pub enum CurveCollector<C> {
    /// The empty collector; no segment accepted yet.
    Singleton,
    /// A non-empty accumulated curve.
    Curve(C),
}

impl<C: ParametricCurve> CurveCollector<C> {
    /// The held curve, when there is one, satisfies its invariant.
    pub open spec fn inv(&self) -> bool {
        self matches CurveCollector::Curve(c) ==> c.inv()
    }

    /// Accepts one segment: seeds an empty collector with it, or
    /// concatenates it onto the held curve. On failure the collector is
    /// left unchanged and the continuity error is returned.
    pub fn try_concat<Rhs: ParametricCurve<Point = C::Point, Vector = C::Vector> + ToCurve<C>>(
        &mut self,
        curve: &Rhs,
    ) -> (r: Result<(), ConcatError<C::Point>>) where C: Concat<Rhs, Output = C>
        requires
            old(self).inv(),
            curve.inv(),
        ensures
            final(self).inv(),
            *old(self) is Singleton ==> r is Ok && (*final(self) matches CurveCollector::Curve(c)
                && same_curve(c, *curve) && same_curve(*curve, c)),
            *old(self) matches CurveCollector::Curve(c0) ==> match r {
                Ok(u) => c0.spec_range().1.veq(curve.spec_range().0) && c0.spec_subs(
                    c0.spec_range().1,
                ) == curve.spec_subs(curve.spec_range().0) && (*final(self)
                    matches CurveCollector::Curve(c1) && is_concat_of(c1, c0, *curve)),
                Err(e) => *final(self) == *old(self) && match e {
                    ConcatError::DisconnectedParameters(x, y) => !c0.spec_range().1.veq(
                        curve.spec_range().0,
                    ) && x == c0.spec_range().1 && y == curve.spec_range().0,
                    ConcatError::DisconnectedPoints(p, q) => c0.spec_range().1.veq(
                        curve.spec_range().0,
                    ) && p != q && p == c0.spec_subs(c0.spec_range().1) && q == curve.spec_subs(
                        curve.spec_range().0,
                    ),
                },
            },
    {
        let mut tmp = CurveCollector::Singleton;
        core::mem::swap(self, &mut tmp);
        match tmp {
            CurveCollector::Singleton => {
                *self = CurveCollector::Curve(curve.to_curve());
                Ok(())
            },
            CurveCollector::Curve(curve0) => {
                match curve0.try_concat(curve) {
                    Ok(c) => {
                        *self = CurveCollector::Curve(c);
                        Ok(())
                    },
                    Err(e) => {
                        *self = CurveCollector::Curve(curve0);
                        Err(e)
                    },
                }
            },
        }
    }

    /// Accepts one segment whose adjacency the caller has established by
    /// construction; the continuity checks are preconditions here.
    pub fn concat<Rhs: ParametricCurve<Point = C::Point, Vector = C::Vector> + ToCurve<C>>(
        &mut self,
        curve: &Rhs,
    ) where C: Concat<Rhs, Output = C>
        requires
            old(self).inv(),
            curve.inv(),
            *old(self) matches CurveCollector::Curve(c0) ==> c0.spec_range().1.veq(
                curve.spec_range().0,
            ) && c0.spec_subs(c0.spec_range().1) == curve.spec_subs(curve.spec_range().0),
        ensures
            final(self).inv(),
            *old(self) is Singleton ==> (*final(self) matches CurveCollector::Curve(c)
                && same_curve(c, *curve) && same_curve(*curve, c)),
            *old(self) matches CurveCollector::Curve(c0) ==> (*final(self)
                matches CurveCollector::Curve(c1) && is_concat_of(c1, c0, *curve)),
    {
        let r = self.try_concat(curve);
        match r {
            Ok(u) => (),
            Err(e) => vstd::pervasive::unreached(),
        }
    }

    /// Whether `self` is still the empty collector.
    pub fn is_singleton(&self) -> (r: bool)
        ensures
            r == (self is Singleton),
    {
        match self {
            CurveCollector::Singleton => true,
            CurveCollector::Curve(c) => false,
        }
    }

    /// Returns the accumulated curve; the collector must not be empty.
    pub fn unwrap(self) -> (r: C)
        requires
            self is Curve,
        ensures
            self matches CurveCollector::Curve(c) && r == c,
    {
        match self {
            CurveCollector::Curve(curve) => curve,
            CurveCollector::Singleton => vstd::pervasive::unreached(),
        }
    }

    /// The accumulated curve as an optional value: an empty collector is
    /// absent, a non-empty one is present.
    pub fn into_option(self) -> (r: Option<C>)
        ensures
            match self {
                CurveCollector::Singleton => r is None,
                CurveCollector::Curve(c) => r == Some(c),
            },
    {
        match self {
            CurveCollector::Singleton => None,
            CurveCollector::Curve(curve) => Some(curve),
        }
    }
}

} // verus!

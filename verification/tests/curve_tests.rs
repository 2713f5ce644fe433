use geotrait::collector::CurveCollector;
use geotrait::curve::{Concat, ConcatError, Cut, ParameterDivision1D, ParameterTransform, ParametricCurve};
use geotrait::descriptor::{BindingLayout, InstanceDescriptor, Material, STAGE_FRAGMENT, STAGE_VERTEX};
use geotrait::frac::{affine_apply, Frac};
use geotrait::harness::{
    concat_random_test, cut_random_test, exec_concat_random_test, exec_cut_random_test,
    exec_parameter_transform_random_test, parameter_transform_random_test,
};
use geotrait::shapes::ConstCurve;

fn frac(num: i64, den: i64) -> Frac {
    Frac::new(num, den)
}

fn const_curve(point: i64, t0: i64, t1: i64) -> ConstCurve {
    ConstCurve { point, t0: frac(t0, 1), t1: frac(t1, 1) }
}

#[test]
fn frac_value_equality_ignores_representation() {
    assert!(frac(1, 2).eq_val(&frac(2, 4)));
    assert!(!frac(1, 2).eq_val(&frac(2, 3)));
    assert!(frac(1, 3).lt_val(&frac(1, 2)));
    assert!(frac(2, 4).le_val(&frac(1, 2)));
}

#[test]
fn affine_apply_is_exact() {
    // 2 * (1/2) + 3 == 4
    let r = affine_apply(&frac(2, 1), &frac(3, 1), &frac(1, 2));
    assert!(r.eq_val(&frac(4, 1)));
}

#[test]
fn step_curve_end_to_end() {
    // Point = usize, Vector = usize, domain (0, 1); both derivatives are
    // the constant difference of the two points, wherever they are taken.
    let curve: (usize, usize) = (3, 7);
    let (t0, t1) = curve.parameter_range();
    assert!(t0.eq_val(&frac(0, 1)));
    assert!(t1.eq_val(&frac(1, 1)));
    assert_eq!(curve.front(), curve.subs(frac(0, 1)));
    assert_eq!(curve.back(), curve.subs(frac(1, 1)));
    assert_eq!(curve.front(), 3);
    assert_eq!(curve.back(), 7);
    assert_eq!(curve.subs(frac(1, 4)), 3);
    assert_eq!(curve.subs(frac(3, 4)), 7);
    assert_eq!(curve.der(frac(1, 4)), 4);
    assert_eq!(curve.der(frac(9, 10)), 4);
    assert_eq!(curve.der2(frac(1, 3)), 4);
    assert_eq!(curve.der2(frac(2, 3)), 4);
}

#[test]
fn unit_curve_is_featureless() {
    let curve: () = ();
    let (t0, t1) = curve.parameter_range();
    assert!(t0.eq_val(&frac(0, 1)));
    assert!(t1.eq_val(&frac(1, 1)));
    assert_eq!(curve.subs(frac(1, 2)), ());
    assert_eq!(curve.front(), ());
}

#[test]
fn transform_moves_the_domain() {
    // Affine invariance on a concrete curve: domain [0, 1] under
    // t -> 2 t + 3 becomes [3, 5]; evaluation at corresponding parameters
    // is unchanged.
    let curve = const_curve(9, 0, 1);
    let moved = curve.parameter_transformed(frac(2, 1), frac(3, 1));
    let (m0, m1) = moved.parameter_range();
    assert!(m0.eq_val(&frac(3, 1)));
    assert!(m1.eq_val(&frac(5, 1)));
    let t = frac(1, 2);
    let s = affine_apply(&frac(2, 1), &frac(3, 1), &t);
    assert_eq!(moved.subs(s), curve.subs(t));
    assert_eq!(moved.der(s), curve.der(t));
    assert_eq!(moved.der2(s), curve.der2(t));
    assert_eq!(moved.front(), curve.front());
    assert_eq!(moved.back(), curve.back());
    // The value-returning form left the receiver untouched.
    let (t0, t1) = curve.parameter_range();
    assert!(t0.eq_val(&frac(0, 1)));
    assert!(t1.eq_val(&frac(1, 1)));
}

#[test]
fn transform_with_negative_scale_flips_the_domain() {
    let curve = const_curve(4, 0, 1);
    let moved = curve.parameter_transformed(frac(-1, 1), frac(0, 1));
    let (m0, m1) = moved.parameter_range();
    assert!(m0.eq_val(&frac(0, 1)));
    assert!(m1.eq_val(&frac(-1, 1)));
}

#[test]
fn normalization_rescales_to_the_unit_interval() {
    let mut curve = const_curve(5, 2, 4);
    curve.parameter_normalization();
    let (t0, t1) = curve.parameter_range();
    assert!(t0.eq_val(&frac(0, 1)));
    assert!(t1.eq_val(&frac(1, 1)));
}

#[test]
fn normalization_of_unit_domain_is_identity() {
    // A curve already on [0, 1] is unchanged up to the identity transform.
    let mut curve = const_curve(5, 0, 1);
    curve.parameter_normalization();
    let (t0, t1) = curve.parameter_range();
    assert!(t0.eq_val(&frac(0, 1)));
    assert!(t1.eq_val(&frac(1, 1)));
    assert_eq!(curve.subs(frac(1, 2)), 5);
}

#[test]
fn concat_spans_both_domains() {
    // Restriction: the concatenation of [0,1] and [1,2] has domain [0,2]
    // and agrees with each operand on its own domain.
    let left = const_curve(5, 0, 1);
    let right = const_curve(5, 1, 2);
    let joined = left.try_concat(&right).unwrap();
    let (t0, t1) = joined.parameter_range();
    assert!(t0.eq_val(&frac(0, 1)));
    assert!(t1.eq_val(&frac(2, 1)));
    assert_eq!(joined.subs(frac(1, 2)), left.subs(frac(1, 2)));
    assert_eq!(joined.subs(frac(3, 2)), right.subs(frac(3, 2)));
    assert_eq!(joined.front(), left.front());
    assert_eq!(joined.back(), right.back());
}

#[test]
fn concat_rejects_disconnected_parameters() {
    let left = const_curve(5, 0, 1);
    let right = const_curve(5, 3, 4);
    match left.try_concat(&right) {
        Err(ConcatError::DisconnectedParameters(x, y)) => {
            assert!(x.eq_val(&frac(1, 1)));
            assert!(y.eq_val(&frac(3, 1)));
        }
        _ => panic!("expected disconnected parameters"),
    }
}

#[test]
fn concat_rejects_disconnected_points() {
    let left = const_curve(5, 0, 1);
    let right = const_curve(6, 1, 2);
    match left.try_concat(&right) {
        Err(ConcatError::DisconnectedPoints(p, q)) => {
            assert_eq!(p, 5);
            assert_eq!(q, 6);
        }
        _ => panic!("expected disconnected points"),
    }
}

#[test]
fn point_map_keeps_the_variant() {
    let e: ConcatError<i64> = ConcatError::DisconnectedPoints(1, 2);
    match e.point_map(|p| p * 10) {
        ConcatError::DisconnectedPoints(p, q) => {
            assert_eq!(p, 10);
            assert_eq!(q, 20);
        }
        _ => panic!("variant changed"),
    }
    let e: ConcatError<i64> = ConcatError::DisconnectedParameters(frac(1, 1), frac(2, 1));
    match e.point_map(|p| p * 10) {
        ConcatError::DisconnectedParameters(x, y) => {
            assert!(x.eq_val(&frac(1, 1)));
            assert!(y.eq_val(&frac(2, 1)));
        }
        _ => panic!("variant changed"),
    }
}

#[test]
fn cut_partitions_the_domain() {
    // Partition: cutting [0,2] at 1 leaves [0,1] in place and returns
    // [1,2]; both halves agree with the original, and the boundary point
    // is shared.
    let original = const_curve(7, 0, 2);
    let mut part0 = original;
    let part1 = part0.cut(frac(1, 1));
    let (a0, a1) = part0.parameter_range();
    let (b0, b1) = part1.parameter_range();
    assert!(a0.eq_val(&frac(0, 1)));
    assert!(a1.eq_val(&frac(1, 1)));
    assert!(b0.eq_val(&frac(1, 1)));
    assert!(b1.eq_val(&frac(2, 1)));
    assert_eq!(part0.subs(frac(1, 2)), original.subs(frac(1, 2)));
    assert_eq!(part1.subs(frac(3, 2)), original.subs(frac(3, 2)));
    assert_eq!(part0.back(), original.subs(frac(1, 1)));
    assert_eq!(part1.front(), original.subs(frac(1, 1)));
}

#[test]
fn collector_folds_adjacent_segments() {
    // Fold: feeding adjacent segments one by one equals concatenating them
    // directly, left to right.
    let s1 = const_curve(2, 0, 1);
    let s2 = const_curve(2, 1, 2);
    let s3 = const_curve(2, 2, 3);
    let mut collector: CurveCollector<ConstCurve> = CurveCollector::Singleton;
    assert!(collector.is_singleton());
    assert!(collector.try_concat(&s1).is_ok());
    assert!(!collector.is_singleton());
    assert!(collector.try_concat(&s2).is_ok());
    assert!(collector.try_concat(&s3).is_ok());
    let folded = collector.unwrap();
    let direct = s1.concat(&s2).concat(&s3);
    let (f0, f1) = folded.parameter_range();
    let (d0, d1) = direct.parameter_range();
    assert!(f0.eq_val(&d0));
    assert!(f1.eq_val(&d1));
    assert!(f0.eq_val(&frac(0, 1)));
    assert!(f1.eq_val(&frac(3, 1)));
    assert_eq!(folded.subs(frac(3, 2)), direct.subs(frac(3, 2)));
}

#[test]
fn collector_failure_leaves_state_unchanged() {
    let s1 = const_curve(2, 0, 1);
    let gap = const_curve(2, 5, 6);
    let mut collector: CurveCollector<ConstCurve> = CurveCollector::Singleton;
    assert!(collector.try_concat(&s1).is_ok());
    assert!(matches!(
        collector.try_concat(&gap),
        Err(ConcatError::DisconnectedParameters(_, _))
    ));
    let held = collector.unwrap();
    let (t0, t1) = held.parameter_range();
    assert!(t0.eq_val(&frac(0, 1)));
    assert!(t1.eq_val(&frac(1, 1)));
}

#[test]
fn empty_collector_converts_to_none() {
    let collector: CurveCollector<ConstCurve> = CurveCollector::Singleton;
    assert!(collector.is_singleton());
    assert!(collector.into_option().is_none());
    let mut collector: CurveCollector<ConstCurve> = CurveCollector::Singleton;
    collector.concat(&const_curve(1, 0, 1));
    assert!(collector.into_option().is_some());
}

#[test]
fn parameter_division_spans_the_range() {
    let curve = const_curve(1, 0, 1);
    let div = curve.parameter_division((frac(0, 1), frac(1, 1)), frac(1, 2));
    assert!(div.len() >= 2);
    assert!(div[0].eq_val(&frac(0, 1)));
    assert!(div[div.len() - 1].eq_val(&frac(1, 1)));
}

#[test]
fn random_transform_trials_pass() {
    let curve = const_curve(9, 0, 1);
    assert!(exec_parameter_transform_random_test(&curve));
    assert!(parameter_transform_random_test(&curve, 25));
}

#[test]
fn random_concat_trials_pass() {
    let left = const_curve(4, -1, 1);
    let right = const_curve(4, 1, 2);
    assert!(exec_concat_random_test(&left, &right));
    assert!(concat_random_test(&left, &right, 25));
}

#[test]
fn random_cut_trials_pass() {
    let curve = const_curve(11, -2, 5);
    assert!(exec_cut_random_test(&curve));
    assert!(cut_random_test(&curve, 25));
}

#[test]
fn bind_group_layout_entries_are_pinned() {
    let m = Material::bgl_entry();
    assert_eq!(m.visibility.bits, STAGE_FRAGMENT);
    assert!(matches!(
        m.ty,
        BindingLayout::UniformBuffer { dynamic: false, has_min_binding_size: false }
    ));
    assert!(!m.has_count);
    let mat = InstanceDescriptor::matrix_bgl_entry();
    assert_eq!(mat.visibility.bits, STAGE_VERTEX | STAGE_FRAGMENT);
    let mm = InstanceDescriptor::material_bgl_entry();
    assert_eq!(mm.visibility.bits, STAGE_FRAGMENT);
    let tv = InstanceDescriptor::textureview_bgl_entry();
    assert!(matches!(tv.ty, BindingLayout::SampledTexture { multisampled: false }));
    let sp = InstanceDescriptor::sampler_bgl_entry();
    assert!(matches!(sp.ty, BindingLayout::Sampler { comparison: false }));
}

use path_kit::coeff;
use path_kit::dash_interval_count_ok;
use path_kit::matrix_type as ty;
use path_kit::point_index_in_range;
use path_kit::{
    Direction, PaintStyle, PathFillType, PathOp, PathVerb, RRectType, RectCorner, ScaleToFit,
    StrokeCap, StrokeJoin, StrokeRecInit, StrokeRecStyleTag,
};

#[test]
fn matrix_type_mask_constants() {
    assert_eq!(ty::IDENTITY, 0);
    assert_eq!(ty::TRANSLATE, 1);
    assert_eq!(ty::SCALE, 2);
    assert_eq!(ty::AFFINE, 4);
    assert_eq!(ty::PERSPECTIVE, 8);
}

#[test]
fn matrix_coeff_indices_follow_get9_order() {
    assert_eq!(coeff::M_SCALE_X, 0);
    assert_eq!(coeff::M_SKEW_X, 1);
    assert_eq!(coeff::M_TRANS_X, 2);
    assert_eq!(coeff::M_SKEW_Y, 3);
    assert_eq!(coeff::M_SCALE_Y, 4);
    assert_eq!(coeff::M_TRANS_Y, 5);
    assert_eq!(coeff::M_PERSP_0, 6);
    assert_eq!(coeff::M_PERSP_1, 7);
    assert_eq!(coeff::M_PERSP_2, 8);
}

#[test]
fn fill_type_to_non_inverse() {
    assert_eq!(PathFillType::InverseWinding.to_non_inverse(), PathFillType::Winding);
    assert_eq!(PathFillType::InverseEvenOdd.to_non_inverse(), PathFillType::EvenOdd);
    assert_eq!(PathFillType::Winding.to_non_inverse(), PathFillType::Winding);
    assert_eq!(PathFillType::EvenOdd.to_non_inverse(), PathFillType::EvenOdd);
}

#[test]
fn fill_type_flags() {
    assert!(PathFillType::EvenOdd.is_even_odd());
    assert!(PathFillType::InverseEvenOdd.is_even_odd());
    assert!(!PathFillType::Winding.is_even_odd());
    assert!(!PathFillType::InverseWinding.is_even_odd());
    assert!(PathFillType::InverseWinding.is_inverse());
    assert!(PathFillType::InverseEvenOdd.is_inverse());
    assert!(!PathFillType::Winding.is_inverse());
    assert!(!PathFillType::EvenOdd.is_inverse());
}

#[test]
fn fill_type_from_sk_bits_keeps_two_low_bits() {
    assert_eq!(PathFillType::from_sk_bits(0), PathFillType::Winding);
    assert_eq!(PathFillType::from_sk_bits(1), PathFillType::EvenOdd);
    assert_eq!(PathFillType::from_sk_bits(2), PathFillType::InverseWinding);
    assert_eq!(PathFillType::from_sk_bits(3), PathFillType::InverseEvenOdd);
    assert_eq!(PathFillType::from_sk_bits(7), PathFillType::InverseEvenOdd);
    assert_eq!(PathFillType::from_sk_bits(0xfe), PathFillType::InverseWinding);
    assert_eq!(PathFillType::from_raw(5), PathFillType::EvenOdd);
}

#[test]
fn fill_type_raw_round_trip() {
    for ft in [
        PathFillType::Winding,
        PathFillType::EvenOdd,
        PathFillType::InverseWinding,
        PathFillType::InverseEvenOdd,
    ] {
        assert_eq!(PathFillType::from_raw(ft.as_raw()), ft);
        assert_eq!(ft.to_non_inverse().to_non_inverse(), ft.to_non_inverse());
        assert!(!ft.to_non_inverse().is_inverse());
        assert_eq!(ft.to_non_inverse().is_even_odd(), ft.is_even_odd());
    }
    assert_eq!(PathFillType::InverseEvenOdd.as_raw(), 3);
}

#[test]
fn path_verb_numbers_match_native_verbs() {
    assert_eq!(PathVerb::Move.to_raw(), 0);
    assert_eq!(PathVerb::Line.to_raw(), 1);
    assert_eq!(PathVerb::Quad.to_raw(), 2);
    assert_eq!(PathVerb::Conic.to_raw(), 3);
    assert_eq!(PathVerb::Cubic.to_raw(), 4);
    assert_eq!(PathVerb::Close.to_raw(), 5);
    assert_eq!(PathVerb::Done.to_raw(), 6);
    assert_eq!(PathVerb::from_raw(5), Some(PathVerb::Close));
    assert_eq!(PathVerb::from_raw(6), Some(PathVerb::Done));
    assert_eq!(PathVerb::from_raw(7), None);
}

#[test]
fn path_iter_step_ends_on_done_or_unknown() {
    assert_eq!(PathVerb::step(0), Some(PathVerb::Move));
    assert_eq!(PathVerb::step(4), Some(PathVerb::Cubic));
    assert_eq!(PathVerb::step(5), Some(PathVerb::Close));
    assert_eq!(PathVerb::step(6), None);
    assert_eq!(PathVerb::step(42), None);
}

#[test]
fn path_iter_point_slots() {
    assert_eq!(PathVerb::Move.point_slots(), (0, 1));
    assert_eq!(PathVerb::Line.point_slots(), (0, 2));
    assert_eq!(PathVerb::Quad.point_slots(), (1, 2));
    assert_eq!(PathVerb::Conic.point_slots(), (1, 2));
    assert_eq!(PathVerb::Cubic.point_slots(), (1, 3));
    assert_eq!(PathVerb::Close.point_slots(), (0, 0));
}

#[test]
fn enum_numbers_match_native_layout() {
    assert_eq!(PathOp::Difference.to_raw(), 0);
    assert_eq!(PathOp::Intersect.to_raw(), 1);
    assert_eq!(PathOp::Union.to_raw(), 2);
    assert_eq!(PathOp::Xor.to_raw(), 3);
    assert_eq!(PathOp::ReverseDifference.to_raw(), 4);
    assert_eq!(Direction::Ccw.to_raw(), 1);
    assert_eq!(Direction::from_raw(0), Some(Direction::Cw));
    assert_eq!(Direction::from_raw(2), None);
    assert_eq!(RRectType::Complex.to_raw(), 5);
    assert_eq!(RRectType::from_raw(2), Some(RRectType::Oval));
    assert_eq!(RRectType::from_raw(-1), None);
    assert_eq!(PaintStyle::StrokeAndFill.to_raw(), 2);
    assert_eq!(StrokeCap::Square.to_raw(), 2);
    assert_eq!(StrokeCap::from_raw(1), Some(StrokeCap::Round));
    assert_eq!(StrokeCap::from_raw(3), None);
    assert_eq!(StrokeJoin::Bevel.to_raw(), 2);
    assert_eq!(StrokeJoin::from_raw(0), Some(StrokeJoin::Miter));
    assert_eq!(StrokeJoin::from_raw(9), None);
    assert_eq!(StrokeRecInit::Fill.to_raw(), 1);
    assert_eq!(StrokeRecStyleTag::from_raw(3), Some(StrokeRecStyleTag::StrokeAndFill));
    assert_eq!(StrokeRecStyleTag::from_raw(4), None);
    assert_eq!(ScaleToFit::Center.to_raw(), 2);
}

#[test]
fn defaults() {
    assert_eq!(Direction::default(), Direction::Cw);
    assert_eq!(RectCorner::default(), RectCorner::UpperLeft);
    assert_eq!(PaintStyle::default(), PaintStyle::Fill);
}

#[test]
fn rect_corner_index() {
    assert_eq!(u32::from(RectCorner::UpperLeft), 0);
    assert_eq!(u32::from(RectCorner::UpperRight), 1);
    assert_eq!(u32::from(RectCorner::LowerRight), 2);
    assert_eq!(u32::from(RectCorner::LowerLeft), 3);
    assert_eq!(RectCorner::LowerLeft.to_raw(), 3);
}

#[test]
fn dash_interval_count_rule() {
    assert!(!dash_interval_count_ok(0));
    assert!(!dash_interval_count_ok(1));
    assert!(dash_interval_count_ok(2));
    assert!(!dash_interval_count_ok(3));
    assert!(dash_interval_count_ok(4));
}

#[test]
fn point_index_range() {
    assert!(point_index_in_range(0, 2));
    assert!(point_index_in_range(1, 2));
    assert!(!point_index_in_range(2, 2));
    assert!(!point_index_in_range(-1, 2));
    assert!(!point_index_in_range(0, 0));
}

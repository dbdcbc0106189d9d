use blend2d::gradient::{gradient_kind, GradientKind};

#[test]
fn gradient_kinds_by_number() {
    assert_eq!(gradient_kind(0), Some(GradientKind::Linear));
    assert_eq!(gradient_kind(1), Some(GradientKind::Radial));
    assert_eq!(gradient_kind(2), Some(GradientKind::Conical));
    assert_eq!(gradient_kind(3), None);
    assert_eq!(gradient_kind(u32::MAX), None);
}

#[test]
fn gradient_kind_numbers_round_trip() {
    for k in [GradientKind::Linear, GradientKind::Radial, GradientKind::Conical] {
        assert_eq!(gradient_kind(k.bl_type()), Some(k));
    }
}

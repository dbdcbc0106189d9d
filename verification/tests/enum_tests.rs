use blend2d::{BooleanOp, ExtendMode, StyleType};
use blend2d::geometry::{FillRule, GeometryDirection, GeometryType, HitTest};
use blend2d::context::{ClipMode, CompOp, ContextHint, ContextOpType, ContextType, GradientQuality, PatternQuality, RenderingQuality};
use blend2d::path::{FlattenMode, OffsetMode, PathCommand, PathReverseMode, StrokeCap, StrokeCapPosition, StrokeJoin, StrokeTransformOrder};
use blend2d::region::{RegionType};
use blend2d::matrix::{Matrix2DOp};
use blend2d::image::{ImageFormat};
use blend2d::codec::{ImageCodecFeatures};
use blend2d::runtime::{BuildType, CpuArch};
use blend2d::font_defs::{FontFaceType, FontOutlineType, FontStretch, FontStringId, FontStyle, FontWeight, GlyphPlacementType, TextDirection, TextOrientation};

#[test]
fn boolean_op_values_round_trip() {
    assert_eq!(u32::from(BooleanOp::Copy), 0);
    assert_eq!(BooleanOp::from(0u32), BooleanOp::Copy);
    assert_eq!(u32::from(BooleanOp::And), 1);
    assert_eq!(BooleanOp::from(1u32), BooleanOp::And);
    assert_eq!(u32::from(BooleanOp::Or), 2);
    assert_eq!(BooleanOp::from(2u32), BooleanOp::Or);
    assert_eq!(u32::from(BooleanOp::Xor), 3);
    assert_eq!(BooleanOp::from(3u32), BooleanOp::Xor);
    assert_eq!(u32::from(BooleanOp::Sub), 4);
    assert_eq!(BooleanOp::from(4u32), BooleanOp::Sub);
    assert_eq!(BooleanOp::from(7777u32), BooleanOp::Copy);
    assert_eq!(BooleanOp::default(), BooleanOp::Copy);
}

#[test]
fn extend_mode_values_round_trip() {
    assert_eq!(u32::from(ExtendMode::PadXPadY), 0);
    assert_eq!(ExtendMode::from(0u32), ExtendMode::PadXPadY);
    assert_eq!(u32::from(ExtendMode::RepeatXRepeatY), 1);
    assert_eq!(ExtendMode::from(1u32), ExtendMode::RepeatXRepeatY);
    assert_eq!(u32::from(ExtendMode::ReflectXReflectY), 2);
    assert_eq!(ExtendMode::from(2u32), ExtendMode::ReflectXReflectY);
    assert_eq!(u32::from(ExtendMode::PadXRepeatY), 3);
    assert_eq!(ExtendMode::from(3u32), ExtendMode::PadXRepeatY);
    assert_eq!(u32::from(ExtendMode::PadXReflectY), 4);
    assert_eq!(ExtendMode::from(4u32), ExtendMode::PadXReflectY);
    assert_eq!(u32::from(ExtendMode::RepeatXPadY), 5);
    assert_eq!(ExtendMode::from(5u32), ExtendMode::RepeatXPadY);
    assert_eq!(u32::from(ExtendMode::RepeatXReflectY), 6);
    assert_eq!(ExtendMode::from(6u32), ExtendMode::RepeatXReflectY);
    assert_eq!(u32::from(ExtendMode::ReflectXPadY), 7);
    assert_eq!(ExtendMode::from(7u32), ExtendMode::ReflectXPadY);
    assert_eq!(u32::from(ExtendMode::ReflectXRepeatY), 8);
    assert_eq!(ExtendMode::from(8u32), ExtendMode::ReflectXRepeatY);
    assert_eq!(ExtendMode::from(7777u32), ExtendMode::PadXPadY);
    assert_eq!(ExtendMode::default(), ExtendMode::PadXPadY);
}

#[test]
fn style_type_values_round_trip() {
    assert_eq!(u32::from(StyleType::NoStyle), 0);
    assert_eq!(StyleType::from(0u32), StyleType::NoStyle);
    assert_eq!(u32::from(StyleType::Solid), 1);
    assert_eq!(StyleType::from(1u32), StyleType::Solid);
    assert_eq!(u32::from(StyleType::Pattern), 2);
    assert_eq!(StyleType::from(2u32), StyleType::Pattern);
    assert_eq!(u32::from(StyleType::Gradient), 3);
    assert_eq!(StyleType::from(3u32), StyleType::Gradient);
    assert_eq!(StyleType::from(7777u32), StyleType::NoStyle);
    assert_eq!(StyleType::default(), StyleType::NoStyle);
}

#[test]
fn geometry_direction_values_round_trip() {
    assert_eq!(u32::from(GeometryDirection::NoDirection), 0);
    assert_eq!(GeometryDirection::from(0u32), GeometryDirection::NoDirection);
    assert_eq!(u32::from(GeometryDirection::Clockwise), 1);
    assert_eq!(GeometryDirection::from(1u32), GeometryDirection::Clockwise);
    assert_eq!(u32::from(GeometryDirection::CounterClockwise), 2);
    assert_eq!(GeometryDirection::from(2u32), GeometryDirection::CounterClockwise);
    assert_eq!(GeometryDirection::from(7777u32), GeometryDirection::NoDirection);
    assert_eq!(GeometryDirection::default(), GeometryDirection::NoDirection);
}

#[test]
fn geometry_type_values_round_trip() {
    assert_eq!(u32::from(GeometryType::NoGeometry), 0);
    assert_eq!(GeometryType::from(0u32), GeometryType::NoGeometry);
    assert_eq!(u32::from(GeometryType::BoxI), 1);
    assert_eq!(GeometryType::from(1u32), GeometryType::BoxI);
    assert_eq!(u32::from(GeometryType::BoxD), 2);
    assert_eq!(GeometryType::from(2u32), GeometryType::BoxD);
    assert_eq!(u32::from(GeometryType::RectI), 3);
    assert_eq!(GeometryType::from(3u32), GeometryType::RectI);
    assert_eq!(u32::from(GeometryType::RectD), 4);
    assert_eq!(GeometryType::from(4u32), GeometryType::RectD);
    assert_eq!(u32::from(GeometryType::Circle), 5);
    assert_eq!(GeometryType::from(5u32), GeometryType::Circle);
    assert_eq!(u32::from(GeometryType::Ellipse), 6);
    assert_eq!(GeometryType::from(6u32), GeometryType::Ellipse);
    assert_eq!(u32::from(GeometryType::RoundRect), 7);
    assert_eq!(GeometryType::from(7u32), GeometryType::RoundRect);
    assert_eq!(u32::from(GeometryType::Arc), 8);
    assert_eq!(GeometryType::from(8u32), GeometryType::Arc);
    assert_eq!(u32::from(GeometryType::Chord), 9);
    assert_eq!(GeometryType::from(9u32), GeometryType::Chord);
    assert_eq!(u32::from(GeometryType::Pie), 10);
    assert_eq!(GeometryType::from(10u32), GeometryType::Pie);
    assert_eq!(u32::from(GeometryType::Line), 11);
    assert_eq!(GeometryType::from(11u32), GeometryType::Line);
    assert_eq!(u32::from(GeometryType::Triangle), 12);
    assert_eq!(GeometryType::from(12u32), GeometryType::Triangle);
    assert_eq!(u32::from(GeometryType::PolyLineI), 13);
    assert_eq!(GeometryType::from(13u32), GeometryType::PolyLineI);
    assert_eq!(u32::from(GeometryType::PolyLineD), 14);
    assert_eq!(GeometryType::from(14u32), GeometryType::PolyLineD);
    assert_eq!(u32::from(GeometryType::PolygonI), 15);
    assert_eq!(GeometryType::from(15u32), GeometryType::PolygonI);
    assert_eq!(u32::from(GeometryType::PolygonD), 16);
    assert_eq!(GeometryType::from(16u32), GeometryType::PolygonD);
    assert_eq!(u32::from(GeometryType::ArrayViewBoxI), 17);
    assert_eq!(GeometryType::from(17u32), GeometryType::ArrayViewBoxI);
    assert_eq!(u32::from(GeometryType::ArrayViewBoxD), 18);
    assert_eq!(GeometryType::from(18u32), GeometryType::ArrayViewBoxD);
    assert_eq!(u32::from(GeometryType::ArrayViewRectI), 19);
    assert_eq!(GeometryType::from(19u32), GeometryType::ArrayViewRectI);
    assert_eq!(u32::from(GeometryType::ArrayViewRectD), 20);
    assert_eq!(GeometryType::from(20u32), GeometryType::ArrayViewRectD);
    assert_eq!(u32::from(GeometryType::Path), 21);
    assert_eq!(GeometryType::from(21u32), GeometryType::Path);
    assert_eq!(u32::from(GeometryType::Region), 22);
    assert_eq!(GeometryType::from(22u32), GeometryType::Region);
    assert_eq!(GeometryType::from(7777u32), GeometryType::NoGeometry);
    assert_eq!(GeometryType::default(), GeometryType::NoGeometry);
}

#[test]
fn fill_rule_values_round_trip() {
    assert_eq!(u32::from(FillRule::NonZero), 0);
    assert_eq!(FillRule::from(0u32), FillRule::NonZero);
    assert_eq!(u32::from(FillRule::EvenOdd), 1);
    assert_eq!(FillRule::from(1u32), FillRule::EvenOdd);
    assert_eq!(FillRule::from(7777u32), FillRule::NonZero);
    assert_eq!(FillRule::default(), FillRule::NonZero);
}

#[test]
fn hit_test_values_round_trip() {
    assert_eq!(u32::from(HitTest::In), 0);
    assert_eq!(HitTest::from(0u32), HitTest::In);
    assert_eq!(u32::from(HitTest::Part), 1);
    assert_eq!(HitTest::from(1u32), HitTest::Part);
    assert_eq!(u32::from(HitTest::Out), 2);
    assert_eq!(HitTest::from(2u32), HitTest::Out);
    assert_eq!(HitTest::from(7777u32), HitTest::In);
    assert_eq!(HitTest::default(), HitTest::In);
}

#[test]
fn context_type_values_round_trip() {
    assert_eq!(u32::from(ContextType::NoContext), 0);
    assert_eq!(ContextType::from(0u32), ContextType::NoContext);
    assert_eq!(u32::from(ContextType::Dummy), 1);
    assert_eq!(ContextType::from(1u32), ContextType::Dummy);
    assert_eq!(u32::from(ContextType::Raster), 3);
    assert_eq!(ContextType::from(3u32), ContextType::Raster);
    assert_eq!(ContextType::from(7777u32), ContextType::NoContext);
    assert_eq!(ContextType::default(), ContextType::NoContext);
}

#[test]
fn context_hint_values_round_trip() {
    assert_eq!(u32::from(ContextHint::RenderingQuality), 0);
    assert_eq!(ContextHint::from(0u32), ContextHint::RenderingQuality);
    assert_eq!(u32::from(ContextHint::GradientQuality), 1);
    assert_eq!(ContextHint::from(1u32), ContextHint::GradientQuality);
    assert_eq!(u32::from(ContextHint::PatternQuality), 2);
    assert_eq!(ContextHint::from(2u32), ContextHint::PatternQuality);
    assert_eq!(ContextHint::from(7777u32), ContextHint::RenderingQuality);
    assert_eq!(ContextHint::default(), ContextHint::RenderingQuality);
}

#[test]
fn context_op_type_values_round_trip() {
    assert_eq!(u32::from(ContextOpType::Fill), 0);
    assert_eq!(ContextOpType::from(0u32), ContextOpType::Fill);
    assert_eq!(u32::from(ContextOpType::Stroke), 1);
    assert_eq!(ContextOpType::from(1u32), ContextOpType::Stroke);
    assert_eq!(ContextOpType::from(7777u32), ContextOpType::Fill);
    assert_eq!(ContextOpType::default(), ContextOpType::Fill);
}

#[test]
fn clip_mode_values_round_trip() {
    assert_eq!(u32::from(ClipMode::AlignedRect), 0);
    assert_eq!(ClipMode::from(0u32), ClipMode::AlignedRect);
    assert_eq!(u32::from(ClipMode::UnalignedRect), 1);
    assert_eq!(ClipMode::from(1u32), ClipMode::UnalignedRect);
    assert_eq!(u32::from(ClipMode::Mask), 2);
    assert_eq!(ClipMode::from(2u32), ClipMode::Mask);
    assert_eq!(ClipMode::from(7777u32), ClipMode::AlignedRect);
    assert_eq!(ClipMode::default(), ClipMode::AlignedRect);
}

#[test]
fn comp_op_values_round_trip() {
    assert_eq!(u32::from(CompOp::SrcOver), 0);
    assert_eq!(CompOp::from(0u32), CompOp::SrcOver);
    assert_eq!(u32::from(CompOp::SrcCopy), 1);
    assert_eq!(CompOp::from(1u32), CompOp::SrcCopy);
    assert_eq!(u32::from(CompOp::SrcIn), 2);
    assert_eq!(CompOp::from(2u32), CompOp::SrcIn);
    assert_eq!(u32::from(CompOp::SrcOut), 3);
    assert_eq!(CompOp::from(3u32), CompOp::SrcOut);
    assert_eq!(u32::from(CompOp::SrcAtop), 4);
    assert_eq!(CompOp::from(4u32), CompOp::SrcAtop);
    assert_eq!(u32::from(CompOp::DstOver), 5);
    assert_eq!(CompOp::from(5u32), CompOp::DstOver);
    assert_eq!(u32::from(CompOp::DstCopy), 6);
    assert_eq!(CompOp::from(6u32), CompOp::DstCopy);
    assert_eq!(u32::from(CompOp::DstIn), 7);
    assert_eq!(CompOp::from(7u32), CompOp::DstIn);
    assert_eq!(u32::from(CompOp::DstOut), 8);
    assert_eq!(CompOp::from(8u32), CompOp::DstOut);
    assert_eq!(u32::from(CompOp::DstAtop), 9);
    assert_eq!(CompOp::from(9u32), CompOp::DstAtop);
    assert_eq!(u32::from(CompOp::Xor), 10);
    assert_eq!(CompOp::from(10u32), CompOp::Xor);
    assert_eq!(u32::from(CompOp::Clear), 11);
    assert_eq!(CompOp::from(11u32), CompOp::Clear);
    assert_eq!(u32::from(CompOp::Plus), 12);
    assert_eq!(CompOp::from(12u32), CompOp::Plus);
    assert_eq!(u32::from(CompOp::Minus), 13);
    assert_eq!(CompOp::from(13u32), CompOp::Minus);
    assert_eq!(u32::from(CompOp::Multiply), 14);
    assert_eq!(CompOp::from(14u32), CompOp::Multiply);
    assert_eq!(u32::from(CompOp::Screen), 15);
    assert_eq!(CompOp::from(15u32), CompOp::Screen);
    assert_eq!(u32::from(CompOp::Overlay), 16);
    assert_eq!(CompOp::from(16u32), CompOp::Overlay);
    assert_eq!(u32::from(CompOp::Darken), 17);
    assert_eq!(CompOp::from(17u32), CompOp::Darken);
    assert_eq!(u32::from(CompOp::Lighten), 18);
    assert_eq!(CompOp::from(18u32), CompOp::Lighten);
    assert_eq!(u32::from(CompOp::ColorDodge), 19);
    assert_eq!(CompOp::from(19u32), CompOp::ColorDodge);
    assert_eq!(u32::from(CompOp::ColorBurn), 20);
    assert_eq!(CompOp::from(20u32), CompOp::ColorBurn);
    assert_eq!(u32::from(CompOp::LinearBurn), 21);
    assert_eq!(CompOp::from(21u32), CompOp::LinearBurn);
    assert_eq!(u32::from(CompOp::LinearLight), 22);
    assert_eq!(CompOp::from(22u32), CompOp::LinearLight);
    assert_eq!(u32::from(CompOp::PinLight), 23);
    assert_eq!(CompOp::from(23u32), CompOp::PinLight);
    assert_eq!(u32::from(CompOp::HardLight), 24);
    assert_eq!(CompOp::from(24u32), CompOp::HardLight);
    assert_eq!(u32::from(CompOp::SoftLight), 25);
    assert_eq!(CompOp::from(25u32), CompOp::SoftLight);
    assert_eq!(u32::from(CompOp::Difference), 26);
    assert_eq!(CompOp::from(26u32), CompOp::Difference);
    assert_eq!(u32::from(CompOp::Exclusion), 27);
    assert_eq!(CompOp::from(27u32), CompOp::Exclusion);
    assert_eq!(CompOp::from(7777u32), CompOp::SrcOver);
    assert_eq!(CompOp::default(), CompOp::SrcOver);
}

#[test]
fn gradient_quality_values_round_trip() {
    assert_eq!(u32::from(GradientQuality::Nearest), 0);
    assert_eq!(GradientQuality::from(0u32), GradientQuality::Nearest);
    assert_eq!(GradientQuality::from(7777u32), GradientQuality::Nearest);
    assert_eq!(GradientQuality::default(), GradientQuality::Nearest);
}

#[test]
fn pattern_quality_values_round_trip() {
    assert_eq!(u32::from(PatternQuality::Nearest), 0);
    assert_eq!(PatternQuality::from(0u32), PatternQuality::Nearest);
    assert_eq!(u32::from(PatternQuality::Bilinear), 1);
    assert_eq!(PatternQuality::from(1u32), PatternQuality::Bilinear);
    assert_eq!(PatternQuality::from(7777u32), PatternQuality::Nearest);
    assert_eq!(PatternQuality::default(), PatternQuality::Nearest);
}

#[test]
fn rendering_quality_values_round_trip() {
    assert_eq!(u32::from(RenderingQuality::AntiAliasing), 0);
    assert_eq!(RenderingQuality::from(0u32), RenderingQuality::AntiAliasing);
    assert_eq!(RenderingQuality::from(7777u32), RenderingQuality::AntiAliasing);
    assert_eq!(RenderingQuality::default(), RenderingQuality::AntiAliasing);
}

#[test]
fn path_command_values_round_trip() {
    assert_eq!(u32::from(PathCommand::Move), 0);
    assert_eq!(PathCommand::from(0u32), PathCommand::Move);
    assert_eq!(u32::from(PathCommand::On), 1);
    assert_eq!(PathCommand::from(1u32), PathCommand::On);
    assert_eq!(u32::from(PathCommand::Quad), 2);
    assert_eq!(PathCommand::from(2u32), PathCommand::Quad);
    assert_eq!(u32::from(PathCommand::Cubic), 3);
    assert_eq!(PathCommand::from(3u32), PathCommand::Cubic);
    assert_eq!(u32::from(PathCommand::Close), 4);
    assert_eq!(PathCommand::from(4u32), PathCommand::Close);
    assert_eq!(PathCommand::from(7777u32), PathCommand::Move);
    assert_eq!(PathCommand::default(), PathCommand::Move);
}

#[test]
fn path_reverse_mode_values_round_trip() {
    assert_eq!(u32::from(PathReverseMode::Complete), 0);
    assert_eq!(PathReverseMode::from(0u32), PathReverseMode::Complete);
    assert_eq!(u32::from(PathReverseMode::Separate), 1);
    assert_eq!(PathReverseMode::from(1u32), PathReverseMode::Separate);
    assert_eq!(PathReverseMode::from(7777u32), PathReverseMode::Complete);
    assert_eq!(PathReverseMode::default(), PathReverseMode::Complete);
}

#[test]
fn stroke_join_values_round_trip() {
    assert_eq!(u32::from(StrokeJoin::MiterClip), 0);
    assert_eq!(StrokeJoin::from(0u32), StrokeJoin::MiterClip);
    assert_eq!(u32::from(StrokeJoin::MiterBevel), 1);
    assert_eq!(StrokeJoin::from(1u32), StrokeJoin::MiterBevel);
    assert_eq!(u32::from(StrokeJoin::MiterRound), 2);
    assert_eq!(StrokeJoin::from(2u32), StrokeJoin::MiterRound);
    assert_eq!(u32::from(StrokeJoin::Bevel), 3);
    assert_eq!(StrokeJoin::from(3u32), StrokeJoin::Bevel);
    assert_eq!(u32::from(StrokeJoin::Round), 4);
    assert_eq!(StrokeJoin::from(4u32), StrokeJoin::Round);
    assert_eq!(StrokeJoin::from(7777u32), StrokeJoin::MiterClip);
    assert_eq!(StrokeJoin::default(), StrokeJoin::MiterClip);
}

#[test]
fn stroke_cap_position_values_round_trip() {
    assert_eq!(u32::from(StrokeCapPosition::Start), 0);
    assert_eq!(StrokeCapPosition::from(0u32), StrokeCapPosition::Start);
    assert_eq!(u32::from(StrokeCapPosition::End), 1);
    assert_eq!(StrokeCapPosition::from(1u32), StrokeCapPosition::End);
    assert_eq!(StrokeCapPosition::from(7777u32), StrokeCapPosition::Start);
    assert_eq!(StrokeCapPosition::default(), StrokeCapPosition::Start);
}

#[test]
fn stroke_cap_values_round_trip() {
    assert_eq!(u32::from(StrokeCap::Butt), 0);
    assert_eq!(StrokeCap::from(0u32), StrokeCap::Butt);
    assert_eq!(u32::from(StrokeCap::Square), 1);
    assert_eq!(StrokeCap::from(1u32), StrokeCap::Square);
    assert_eq!(u32::from(StrokeCap::Round), 2);
    assert_eq!(StrokeCap::from(2u32), StrokeCap::Round);
    assert_eq!(u32::from(StrokeCap::RoundRev), 3);
    assert_eq!(StrokeCap::from(3u32), StrokeCap::RoundRev);
    assert_eq!(u32::from(StrokeCap::Triangle), 4);
    assert_eq!(StrokeCap::from(4u32), StrokeCap::Triangle);
    assert_eq!(u32::from(StrokeCap::TriangleRev), 5);
    assert_eq!(StrokeCap::from(5u32), StrokeCap::TriangleRev);
    assert_eq!(StrokeCap::from(7777u32), StrokeCap::Butt);
    assert_eq!(StrokeCap::default(), StrokeCap::Butt);
}

#[test]
fn stroke_transform_order_values_round_trip() {
    assert_eq!(u32::from(StrokeTransformOrder::After), 0);
    assert_eq!(StrokeTransformOrder::from(0u32), StrokeTransformOrder::After);
    assert_eq!(u32::from(StrokeTransformOrder::Before), 1);
    assert_eq!(StrokeTransformOrder::from(1u32), StrokeTransformOrder::Before);
    assert_eq!(StrokeTransformOrder::from(7777u32), StrokeTransformOrder::After);
    assert_eq!(StrokeTransformOrder::default(), StrokeTransformOrder::After);
}

#[test]
fn flatten_mode_values_round_trip() {
    assert_eq!(u32::from(FlattenMode::Default), 0);
    assert_eq!(FlattenMode::from(0u32), FlattenMode::Default);
    assert_eq!(u32::from(FlattenMode::Recursive), 1);
    assert_eq!(FlattenMode::from(1u32), FlattenMode::Recursive);
    assert_eq!(FlattenMode::from(7777u32), FlattenMode::Default);
    assert_eq!(FlattenMode::default(), FlattenMode::Default);
}

#[test]
fn offset_mode_values_round_trip() {
    assert_eq!(u32::from(OffsetMode::Default), 0);
    assert_eq!(OffsetMode::from(0u32), OffsetMode::Default);
    assert_eq!(u32::from(OffsetMode::Iterative), 1);
    assert_eq!(OffsetMode::from(1u32), OffsetMode::Iterative);
    assert_eq!(OffsetMode::from(7777u32), OffsetMode::Default);
    assert_eq!(OffsetMode::default(), OffsetMode::Default);
}

#[test]
fn region_type_values_round_trip() {
    assert_eq!(u32::from(RegionType::Empty), 0);
    assert_eq!(RegionType::from(0u32), RegionType::Empty);
    assert_eq!(u32::from(RegionType::Rect), 1);
    assert_eq!(RegionType::from(1u32), RegionType::Rect);
    assert_eq!(u32::from(RegionType::Complex), 2);
    assert_eq!(RegionType::from(2u32), RegionType::Complex);
    assert_eq!(RegionType::from(7777u32), RegionType::Empty);
    assert_eq!(RegionType::default(), RegionType::Empty);
}

#[test]
fn matrix2_d_op_values_round_trip() {
    assert_eq!(u32::from(Matrix2DOp::Reset), 0);
    assert_eq!(Matrix2DOp::from(0u32), Matrix2DOp::Reset);
    assert_eq!(u32::from(Matrix2DOp::Assign), 1);
    assert_eq!(Matrix2DOp::from(1u32), Matrix2DOp::Assign);
    assert_eq!(u32::from(Matrix2DOp::Translate), 2);
    assert_eq!(Matrix2DOp::from(2u32), Matrix2DOp::Translate);
    assert_eq!(u32::from(Matrix2DOp::Scale), 3);
    assert_eq!(Matrix2DOp::from(3u32), Matrix2DOp::Scale);
    assert_eq!(u32::from(Matrix2DOp::Skew), 4);
    assert_eq!(Matrix2DOp::from(4u32), Matrix2DOp::Skew);
    assert_eq!(u32::from(Matrix2DOp::Rotate), 5);
    assert_eq!(Matrix2DOp::from(5u32), Matrix2DOp::Rotate);
    assert_eq!(u32::from(Matrix2DOp::RotatePoint), 6);
    assert_eq!(Matrix2DOp::from(6u32), Matrix2DOp::RotatePoint);
    assert_eq!(u32::from(Matrix2DOp::Transform), 7);
    assert_eq!(Matrix2DOp::from(7u32), Matrix2DOp::Transform);
    assert_eq!(u32::from(Matrix2DOp::PostTranslate), 8);
    assert_eq!(Matrix2DOp::from(8u32), Matrix2DOp::PostTranslate);
    assert_eq!(u32::from(Matrix2DOp::PostScale), 9);
    assert_eq!(Matrix2DOp::from(9u32), Matrix2DOp::PostScale);
    assert_eq!(u32::from(Matrix2DOp::PostSkew), 10);
    assert_eq!(Matrix2DOp::from(10u32), Matrix2DOp::PostSkew);
    assert_eq!(u32::from(Matrix2DOp::PostRotate), 11);
    assert_eq!(Matrix2DOp::from(11u32), Matrix2DOp::PostRotate);
    assert_eq!(u32::from(Matrix2DOp::PostRotatePoint), 12);
    assert_eq!(Matrix2DOp::from(12u32), Matrix2DOp::PostRotatePoint);
    assert_eq!(u32::from(Matrix2DOp::PostTransform), 13);
    assert_eq!(Matrix2DOp::from(13u32), Matrix2DOp::PostTransform);
    assert_eq!(Matrix2DOp::from(7777u32), Matrix2DOp::Reset);
    assert_eq!(Matrix2DOp::default(), Matrix2DOp::Reset);
}

#[test]
fn image_format_values_round_trip() {
    assert_eq!(u32::from(ImageFormat::PRgb32), 1);
    assert_eq!(ImageFormat::from(1u32), ImageFormat::PRgb32);
    assert_eq!(u32::from(ImageFormat::XRgb32), 2);
    assert_eq!(ImageFormat::from(2u32), ImageFormat::XRgb32);
    assert_eq!(u32::from(ImageFormat::A8), 3);
    assert_eq!(ImageFormat::from(3u32), ImageFormat::A8);
    assert_eq!(ImageFormat::from(7777u32), ImageFormat::PRgb32);
    assert_eq!(ImageFormat::default(), ImageFormat::PRgb32);
}

#[test]
fn image_codec_features_values_round_trip() {
    assert_eq!(u32::from(ImageCodecFeatures::Read), 0x01);
    assert_eq!(ImageCodecFeatures::from(0x01u32), ImageCodecFeatures::Read);
    assert_eq!(u32::from(ImageCodecFeatures::Write), 0x02);
    assert_eq!(ImageCodecFeatures::from(0x02u32), ImageCodecFeatures::Write);
    assert_eq!(u32::from(ImageCodecFeatures::Lossless), 0x04);
    assert_eq!(ImageCodecFeatures::from(0x04u32), ImageCodecFeatures::Lossless);
    assert_eq!(u32::from(ImageCodecFeatures::Lossy), 0x08);
    assert_eq!(ImageCodecFeatures::from(0x08u32), ImageCodecFeatures::Lossy);
    assert_eq!(u32::from(ImageCodecFeatures::MultiFrame), 0x10);
    assert_eq!(ImageCodecFeatures::from(0x10u32), ImageCodecFeatures::MultiFrame);
    assert_eq!(u32::from(ImageCodecFeatures::Iptc), 0x1000_0000);
    assert_eq!(ImageCodecFeatures::from(0x1000_0000u32), ImageCodecFeatures::Iptc);
    assert_eq!(u32::from(ImageCodecFeatures::Exif), 0x2000_0000);
    assert_eq!(ImageCodecFeatures::from(0x2000_0000u32), ImageCodecFeatures::Exif);
    assert_eq!(u32::from(ImageCodecFeatures::Xmp), 0x4000_0000);
    assert_eq!(ImageCodecFeatures::from(0x4000_0000u32), ImageCodecFeatures::Xmp);
    assert_eq!(ImageCodecFeatures::from(7777u32), ImageCodecFeatures::Read);
    assert_eq!(ImageCodecFeatures::default(), ImageCodecFeatures::Read);
}

#[test]
fn build_type_values_round_trip() {
    assert_eq!(u32::from(BuildType::Debug), 0);
    assert_eq!(BuildType::from(0u32), BuildType::Debug);
    assert_eq!(u32::from(BuildType::Release), 1);
    assert_eq!(BuildType::from(1u32), BuildType::Release);
    assert_eq!(BuildType::from(7777u32), BuildType::Debug);
    assert_eq!(BuildType::default(), BuildType::Debug);
}

#[test]
fn cpu_arch_values_round_trip() {
    assert_eq!(u32::from(CpuArch::Unknown), 0);
    assert_eq!(CpuArch::from(0u32), CpuArch::Unknown);
    assert_eq!(u32::from(CpuArch::X86), 1);
    assert_eq!(CpuArch::from(1u32), CpuArch::X86);
    assert_eq!(u32::from(CpuArch::Arm), 2);
    assert_eq!(CpuArch::from(2u32), CpuArch::Arm);
    assert_eq!(u32::from(CpuArch::Mips), 3);
    assert_eq!(CpuArch::from(3u32), CpuArch::Mips);
    assert_eq!(CpuArch::from(7777u32), CpuArch::Unknown);
    assert_eq!(CpuArch::default(), CpuArch::Unknown);
}

#[test]
fn glyph_placement_type_values_round_trip() {
    assert_eq!(u32::from(GlyphPlacementType::NoPlacement), 0);
    assert_eq!(GlyphPlacementType::from(0u32), GlyphPlacementType::NoPlacement);
    assert_eq!(u32::from(GlyphPlacementType::AdvanceOffset), 1);
    assert_eq!(GlyphPlacementType::from(1u32), GlyphPlacementType::AdvanceOffset);
    assert_eq!(u32::from(GlyphPlacementType::DesignUnits), 2);
    assert_eq!(GlyphPlacementType::from(2u32), GlyphPlacementType::DesignUnits);
    assert_eq!(u32::from(GlyphPlacementType::UserUnits), 3);
    assert_eq!(GlyphPlacementType::from(3u32), GlyphPlacementType::UserUnits);
    assert_eq!(u32::from(GlyphPlacementType::AbsoluteUnits), 4);
    assert_eq!(GlyphPlacementType::from(4u32), GlyphPlacementType::AbsoluteUnits);
    assert_eq!(GlyphPlacementType::from(7777u32), GlyphPlacementType::NoPlacement);
    assert_eq!(GlyphPlacementType::default(), GlyphPlacementType::NoPlacement);
}

#[test]
fn font_face_type_values_round_trip() {
    assert_eq!(u32::from(FontFaceType::NoFace), 0);
    assert_eq!(FontFaceType::from(0u32), FontFaceType::NoFace);
    assert_eq!(u32::from(FontFaceType::OpenType), 1);
    assert_eq!(FontFaceType::from(1u32), FontFaceType::OpenType);
    assert_eq!(FontFaceType::from(7777u32), FontFaceType::NoFace);
    assert_eq!(FontFaceType::default(), FontFaceType::NoFace);
}

#[test]
fn font_outline_type_values_round_trip() {
    assert_eq!(u32::from(FontOutlineType::NoOutline), 0);
    assert_eq!(FontOutlineType::from(0u32), FontOutlineType::NoOutline);
    assert_eq!(u32::from(FontOutlineType::TrueType), 1);
    assert_eq!(FontOutlineType::from(1u32), FontOutlineType::TrueType);
    assert_eq!(u32::from(FontOutlineType::Cff), 2);
    assert_eq!(FontOutlineType::from(2u32), FontOutlineType::Cff);
    assert_eq!(u32::from(FontOutlineType::Cff2), 3);
    assert_eq!(FontOutlineType::from(3u32), FontOutlineType::Cff2);
    assert_eq!(FontOutlineType::from(7777u32), FontOutlineType::NoOutline);
    assert_eq!(FontOutlineType::default(), FontOutlineType::NoOutline);
}

#[test]
fn font_stretch_values_round_trip() {
    assert_eq!(u32::from(FontStretch::UltraCondensed), 1);
    assert_eq!(FontStretch::from(1u32), FontStretch::UltraCondensed);
    assert_eq!(u32::from(FontStretch::ExtraCondensed), 2);
    assert_eq!(FontStretch::from(2u32), FontStretch::ExtraCondensed);
    assert_eq!(u32::from(FontStretch::Condensed), 3);
    assert_eq!(FontStretch::from(3u32), FontStretch::Condensed);
    assert_eq!(u32::from(FontStretch::SemiCondensed), 4);
    assert_eq!(FontStretch::from(4u32), FontStretch::SemiCondensed);
    assert_eq!(u32::from(FontStretch::Normal), 5);
    assert_eq!(FontStretch::from(5u32), FontStretch::Normal);
    assert_eq!(u32::from(FontStretch::SemiExpanded), 6);
    assert_eq!(FontStretch::from(6u32), FontStretch::SemiExpanded);
    assert_eq!(u32::from(FontStretch::Expanded), 7);
    assert_eq!(FontStretch::from(7u32), FontStretch::Expanded);
    assert_eq!(u32::from(FontStretch::ExtraExpanded), 8);
    assert_eq!(FontStretch::from(8u32), FontStretch::ExtraExpanded);
    assert_eq!(u32::from(FontStretch::UltraExpanded), 9);
    assert_eq!(FontStretch::from(9u32), FontStretch::UltraExpanded);
    assert_eq!(FontStretch::from(7777u32), FontStretch::Normal);
    assert_eq!(FontStretch::default(), FontStretch::Normal);
}

#[test]
fn font_style_values_round_trip() {
    assert_eq!(u32::from(FontStyle::Normal), 0);
    assert_eq!(FontStyle::from(0u32), FontStyle::Normal);
    assert_eq!(u32::from(FontStyle::Oblique), 1);
    assert_eq!(FontStyle::from(1u32), FontStyle::Oblique);
    assert_eq!(u32::from(FontStyle::Italic), 2);
    assert_eq!(FontStyle::from(2u32), FontStyle::Italic);
    assert_eq!(FontStyle::from(7777u32), FontStyle::Normal);
    assert_eq!(FontStyle::default(), FontStyle::Normal);
}

#[test]
fn font_weight_values_round_trip() {
    assert_eq!(u32::from(FontWeight::Thin), 100);
    assert_eq!(FontWeight::from(100u32), FontWeight::Thin);
    assert_eq!(u32::from(FontWeight::ExtraLight), 200);
    assert_eq!(FontWeight::from(200u32), FontWeight::ExtraLight);
    assert_eq!(u32::from(FontWeight::Light), 300);
    assert_eq!(FontWeight::from(300u32), FontWeight::Light);
    assert_eq!(u32::from(FontWeight::SemiLight), 350);
    assert_eq!(FontWeight::from(350u32), FontWeight::SemiLight);
    assert_eq!(u32::from(FontWeight::Normal), 400);
    assert_eq!(FontWeight::from(400u32), FontWeight::Normal);
    assert_eq!(u32::from(FontWeight::Medium), 500);
    assert_eq!(FontWeight::from(500u32), FontWeight::Medium);
    assert_eq!(u32::from(FontWeight::SemiBold), 600);
    assert_eq!(FontWeight::from(600u32), FontWeight::SemiBold);
    assert_eq!(u32::from(FontWeight::Bold), 700);
    assert_eq!(FontWeight::from(700u32), FontWeight::Bold);
    assert_eq!(u32::from(FontWeight::ExtraBold), 800);
    assert_eq!(FontWeight::from(800u32), FontWeight::ExtraBold);
    assert_eq!(u32::from(FontWeight::Black), 900);
    assert_eq!(FontWeight::from(900u32), FontWeight::Black);
    assert_eq!(u32::from(FontWeight::ExtraBlack), 950);
    assert_eq!(FontWeight::from(950u32), FontWeight::ExtraBlack);
    assert_eq!(FontWeight::from(7777u32), FontWeight::Normal);
    assert_eq!(FontWeight::default(), FontWeight::Normal);
}

#[test]
fn font_string_id_values_round_trip() {
    assert_eq!(u32::from(FontStringId::CopyrightNotice), 0);
    assert_eq!(FontStringId::from(0u32), FontStringId::CopyrightNotice);
    assert_eq!(u32::from(FontStringId::FamilyName), 1);
    assert_eq!(FontStringId::from(1u32), FontStringId::FamilyName);
    assert_eq!(u32::from(FontStringId::SubfamilyName), 2);
    assert_eq!(FontStringId::from(2u32), FontStringId::SubfamilyName);
    assert_eq!(u32::from(FontStringId::UniqueIdentifier), 3);
    assert_eq!(FontStringId::from(3u32), FontStringId::UniqueIdentifier);
    assert_eq!(u32::from(FontStringId::FullName), 4);
    assert_eq!(FontStringId::from(4u32), FontStringId::FullName);
    assert_eq!(u32::from(FontStringId::VersionString), 5);
    assert_eq!(FontStringId::from(5u32), FontStringId::VersionString);
    assert_eq!(u32::from(FontStringId::PostScriptName), 6);
    assert_eq!(FontStringId::from(6u32), FontStringId::PostScriptName);
    assert_eq!(u32::from(FontStringId::Trademark), 7);
    assert_eq!(FontStringId::from(7u32), FontStringId::Trademark);
    assert_eq!(u32::from(FontStringId::ManufacturerName), 8);
    assert_eq!(FontStringId::from(8u32), FontStringId::ManufacturerName);
    assert_eq!(u32::from(FontStringId::DesignerName), 9);
    assert_eq!(FontStringId::from(9u32), FontStringId::DesignerName);
    assert_eq!(u32::from(FontStringId::Description), 10);
    assert_eq!(FontStringId::from(10u32), FontStringId::Description);
    assert_eq!(u32::from(FontStringId::VendorUrl), 11);
    assert_eq!(FontStringId::from(11u32), FontStringId::VendorUrl);
    assert_eq!(u32::from(FontStringId::DesignerUrl), 12);
    assert_eq!(FontStringId::from(12u32), FontStringId::DesignerUrl);
    assert_eq!(u32::from(FontStringId::LicenseDescription), 13);
    assert_eq!(FontStringId::from(13u32), FontStringId::LicenseDescription);
    assert_eq!(u32::from(FontStringId::LicenseInfoUrl), 14);
    assert_eq!(FontStringId::from(14u32), FontStringId::LicenseInfoUrl);
    assert_eq!(u32::from(FontStringId::Reserved), 15);
    assert_eq!(FontStringId::from(15u32), FontStringId::Reserved);
    assert_eq!(u32::from(FontStringId::TypographicsFamilyName), 16);
    assert_eq!(FontStringId::from(16u32), FontStringId::TypographicsFamilyName);
    assert_eq!(u32::from(FontStringId::TypographicsSubfamilyName), 17);
    assert_eq!(FontStringId::from(17u32), FontStringId::TypographicsSubfamilyName);
    assert_eq!(u32::from(FontStringId::CompatibleFullname), 18);
    assert_eq!(FontStringId::from(18u32), FontStringId::CompatibleFullname);
    assert_eq!(u32::from(FontStringId::SampleText), 19);
    assert_eq!(FontStringId::from(19u32), FontStringId::SampleText);
    assert_eq!(u32::from(FontStringId::PostScriptCidName), 20);
    assert_eq!(FontStringId::from(20u32), FontStringId::PostScriptCidName);
    assert_eq!(u32::from(FontStringId::WwsFamilyName), 21);
    assert_eq!(FontStringId::from(21u32), FontStringId::WwsFamilyName);
    assert_eq!(u32::from(FontStringId::WwsSubfamilyName), 22);
    assert_eq!(FontStringId::from(22u32), FontStringId::WwsSubfamilyName);
    assert_eq!(u32::from(FontStringId::LightBackgroundPalette), 23);
    assert_eq!(FontStringId::from(23u32), FontStringId::LightBackgroundPalette);
    assert_eq!(u32::from(FontStringId::DarkBackgroundPalette), 24);
    assert_eq!(FontStringId::from(24u32), FontStringId::DarkBackgroundPalette);
    assert_eq!(u32::from(FontStringId::VariationsPostScriptPrefix), 25);
    assert_eq!(FontStringId::from(25u32), FontStringId::VariationsPostScriptPrefix);
    assert_eq!(u32::from(FontStringId::CommonCount), 26);
    assert_eq!(FontStringId::from(26u32), FontStringId::CommonCount);
    assert_eq!(u32::from(FontStringId::CustomStartIndex), 255);
    assert_eq!(FontStringId::from(255u32), FontStringId::CustomStartIndex);
    assert_eq!(FontStringId::from(7777u32), FontStringId::Reserved);
    assert_eq!(FontStringId::default(), FontStringId::Reserved);
}

#[test]
fn text_direction_values_round_trip() {
    assert_eq!(u32::from(TextDirection::Ltr), 0);
    assert_eq!(TextDirection::from(0u32), TextDirection::Ltr);
    assert_eq!(u32::from(TextDirection::Rtl), 1);
    assert_eq!(TextDirection::from(1u32), TextDirection::Rtl);
    assert_eq!(TextDirection::from(7777u32), TextDirection::Ltr);
    assert_eq!(TextDirection::default(), TextDirection::Ltr);
}

#[test]
fn text_orientation_values_round_trip() {
    assert_eq!(u32::from(TextOrientation::Horizontal), 0);
    assert_eq!(TextOrientation::from(0u32), TextOrientation::Horizontal);
    assert_eq!(u32::from(TextOrientation::Vertical), 1);
    assert_eq!(TextOrientation::from(1u32), TextOrientation::Vertical);
    assert_eq!(TextOrientation::from(7777u32), TextOrientation::Horizontal);
    assert_eq!(TextOrientation::default(), TextOrientation::Horizontal);
}

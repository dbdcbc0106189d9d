use blend2d::font_defs::GlyphMappingState;
use blend2d::geometry::{BoxI, PointI, RectI, SizeI};
use blend2d::image::{image_data_layout, pixel_data_len};

#[test]
fn layout_of_square_prgb32_image() {
    // A 50x50 image of 4-byte pixels with unpadded rows.
    let (len, pixel) = image_data_layout(50, 50, 200);
    assert_eq!(pixel, 4);
    assert_eq!(len as isize, 50 * 50 * pixel);
}

#[test]
fn layout_with_negative_stride_rounds_toward_zero() {
    assert_eq!(image_data_layout(3, 0, -10), (0, -3));
}

#[test]
fn undefined_first_of_mapping_state() {
    let all_defined = GlyphMappingState { glyph_count: 4, undefined_first: usize::MAX, undefined_count: 0 };
    assert_eq!(all_defined.undefined_first(), None);
    let some_undefined = GlyphMappingState { glyph_count: 4, undefined_first: 2, undefined_count: 1 };
    assert_eq!(some_undefined.undefined_first(), Some(2));
}

#[test]
fn integer_geometry_defaults_to_zero() {
    assert_eq!(PointI::default(), PointI { x: 0, y: 0 });
    assert_eq!(SizeI::default(), SizeI { w: 0, h: 0 });
    assert_eq!(BoxI::default(), BoxI { x0: 0, y0: 0, x1: 0, y1: 0 });
    assert_eq!(RectI::default(), RectI { x: 0, y: 0, w: 0, h: 0 });
}

#[test]
fn pixel_data_of_empty_image_is_empty() {
    assert_eq!(pixel_data_len(0, 0), 0);
    assert_eq!(pixel_data_len(0, 400), 0);
}

#[test]
fn pixel_data_spans_every_row() {
    assert_eq!(pixel_data_len(50, 200), 10000);
    assert_eq!(pixel_data_len(3, 12), 36);
}

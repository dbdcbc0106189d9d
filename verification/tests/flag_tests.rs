use blend2d::{DataAccessFlags};
use blend2d::image::{FormatFlags, ImageInfoFlags};
use blend2d::context::{ContextCreateFlags, ContextFlushFlags};
use blend2d::path::{PathFitFlags, PathFlags};
use blend2d::runtime::{CleanupFlags, CpuFeatures};
use blend2d::font_defs::{FontDataFlags, FontFaceDiagFlags, FontFaceFlags, FontLoaderFlags, GlyphItemFlags, GlyphRunFlags};

#[test]
fn data_access_flags_bits_and_sets() {
    assert_eq!(DataAccessFlags::all().bits(), 0x3);
    assert_eq!(DataAccessFlags::empty().bits(), 0);
    assert!(DataAccessFlags::empty().is_empty());
    assert!(DataAccessFlags::all().is_all());
    assert_eq!(DataAccessFlags::READ, 0x1);
    assert_eq!(DataAccessFlags::WRITE, 0x2);
    assert_eq!(DataAccessFlags::READ_WRITE, 0x3);
    assert_eq!(DataAccessFlags::from_bits_truncate(u32::MAX).bits(), 0x3);
    assert!(DataAccessFlags::from_bits(0x4).is_none());
    assert_eq!(DataAccessFlags::from_bits(0x3), Some(DataAccessFlags::all()));
    let mut f = DataAccessFlags::empty();
    let one = DataAccessFlags::from_bits_truncate(DataAccessFlags::READ);
    f.insert(one);
    assert!(f.contains(one));
    assert!(f.intersects(one));
    f.toggle(one);
    assert!(f.is_empty());
    f.set(one, true);
    assert_eq!(f, one);
    f.remove(one);
    assert!(!f.intersects(one));
    f.set(DataAccessFlags::all(), false);
    assert!(f.is_empty());
}

#[test]
fn format_flags_bits_and_sets() {
    assert_eq!(FormatFlags::all().bits(), 0x30317);
    assert_eq!(FormatFlags::empty().bits(), 0);
    assert!(FormatFlags::empty().is_empty());
    assert!(FormatFlags::all().is_all());
    assert_eq!(FormatFlags::RGB, 0x1);
    assert_eq!(FormatFlags::ALPHA, 0x2);
    assert_eq!(FormatFlags::RGBA, 0x3);
    assert_eq!(FormatFlags::LUM, 0x4);
    assert_eq!(FormatFlags::LUMA, 0x6);
    assert_eq!(FormatFlags::INDEXED, 0x10);
    assert_eq!(FormatFlags::PREMULTIPLIED, 0x100);
    assert_eq!(FormatFlags::BYTE_SWAP, 0x200);
    assert_eq!(FormatFlags::BYTE_ALIGNED, 0x10000);
    assert_eq!(FormatFlags::UNDEFINED_BITS, 0x20000);
    assert_eq!(FormatFlags::FLAG_LE, 0x0);
    assert_eq!(FormatFlags::FLAG_BE, 0x200);
    assert_eq!(FormatFlags::from_bits_truncate(u32::MAX).bits(), 0x30317);
    assert!(FormatFlags::from_bits(0x8).is_none());
    assert_eq!(FormatFlags::from_bits(0x30317), Some(FormatFlags::all()));
    let mut f = FormatFlags::empty();
    let one = FormatFlags::from_bits_truncate(FormatFlags::RGB);
    f.insert(one);
    assert!(f.contains(one));
    assert!(f.intersects(one));
    f.toggle(one);
    assert!(f.is_empty());
    f.set(one, true);
    assert_eq!(f, one);
    f.remove(one);
    assert!(!f.intersects(one));
    f.set(FormatFlags::all(), false);
    assert!(f.is_empty());
}

#[test]
fn image_info_flags_bits_and_sets() {
    assert_eq!(ImageInfoFlags::all().bits(), 0x1);
    assert_eq!(ImageInfoFlags::empty().bits(), 0);
    assert!(ImageInfoFlags::empty().is_empty());
    assert!(ImageInfoFlags::all().is_all());
    assert_eq!(ImageInfoFlags::PROGRESSIVE, 0x1);
    assert_eq!(ImageInfoFlags::from_bits_truncate(u32::MAX).bits(), 0x1);
    assert!(ImageInfoFlags::from_bits(0x2).is_none());
    assert_eq!(ImageInfoFlags::from_bits(0x1), Some(ImageInfoFlags::all()));
    let mut f = ImageInfoFlags::empty();
    let one = ImageInfoFlags::from_bits_truncate(ImageInfoFlags::PROGRESSIVE);
    f.insert(one);
    assert!(f.contains(one));
    assert!(f.intersects(one));
    f.toggle(one);
    assert!(f.is_empty());
    f.set(one, true);
    assert_eq!(f, one);
    f.remove(one);
    assert!(!f.intersects(one));
    f.set(ImageInfoFlags::all(), false);
    assert!(f.is_empty());
}

#[test]
fn context_flush_flags_bits_and_sets() {
    assert_eq!(ContextFlushFlags::all().bits(), 0x80000000);
    assert_eq!(ContextFlushFlags::empty().bits(), 0);
    assert!(ContextFlushFlags::empty().is_empty());
    assert!(ContextFlushFlags::all().is_all());
    assert_eq!(ContextFlushFlags::FLUSH_SYNC, 0x80000000);
    assert_eq!(ContextFlushFlags::from_bits_truncate(u32::MAX).bits(), 0x80000000);
    assert!(ContextFlushFlags::from_bits(0x1).is_none());
    assert_eq!(ContextFlushFlags::from_bits(0x80000000), Some(ContextFlushFlags::all()));
    let mut f = ContextFlushFlags::empty();
    let one = ContextFlushFlags::from_bits_truncate(ContextFlushFlags::FLUSH_SYNC);
    f.insert(one);
    assert!(f.contains(one));
    assert!(f.intersects(one));
    f.toggle(one);
    assert!(f.is_empty());
    f.set(one, true);
    assert_eq!(f, one);
    f.remove(one);
    assert!(!f.intersects(one));
    f.set(ContextFlushFlags::all(), false);
    assert!(f.is_empty());
}

#[test]
fn context_create_flags_bits_and_sets() {
    assert_eq!(ContextCreateFlags::all().bits(), 0x73);
    assert_eq!(ContextCreateFlags::empty().bits(), 0);
    assert!(ContextCreateFlags::empty().is_empty());
    assert!(ContextCreateFlags::all().is_all());
    assert_eq!(ContextCreateFlags::FORCE_THREADS, 0x1);
    assert_eq!(ContextCreateFlags::FALLBACK_TO_SYNC, 0x2);
    assert_eq!(ContextCreateFlags::ISOLATED_THREADS, 0x10);
    assert_eq!(ContextCreateFlags::ISOLATED_JIT, 0x20);
    assert_eq!(ContextCreateFlags::OVERRIDE_CPU_FEATURES, 0x40);
    assert_eq!(ContextCreateFlags::from_bits_truncate(u32::MAX).bits(), 0x73);
    assert!(ContextCreateFlags::from_bits(0x4).is_none());
    assert_eq!(ContextCreateFlags::from_bits(0x73), Some(ContextCreateFlags::all()));
    let mut f = ContextCreateFlags::empty();
    let one = ContextCreateFlags::from_bits_truncate(ContextCreateFlags::FORCE_THREADS);
    f.insert(one);
    assert!(f.contains(one));
    assert!(f.intersects(one));
    f.toggle(one);
    assert!(f.is_empty());
    f.set(one, true);
    assert_eq!(f, one);
    f.remove(one);
    assert!(!f.intersects(one));
    f.set(ContextCreateFlags::all(), false);
    assert!(f.is_empty());
}

#[test]
fn path_flags_bits_and_sets() {
    assert_eq!(PathFlags::all().bits(), 0xC000000F);
    assert_eq!(PathFlags::empty().bits(), 0);
    assert!(PathFlags::empty().is_empty());
    assert!(PathFlags::all().is_all());
    assert_eq!(PathFlags::EMPTY, 0x1);
    assert_eq!(PathFlags::MULTIPLE, 0x2);
    assert_eq!(PathFlags::QUADS, 0x4);
    assert_eq!(PathFlags::CUBICS, 0x8);
    assert_eq!(PathFlags::INVALID, 0x40000000);
    assert_eq!(PathFlags::DIRTY, 0x80000000);
    assert_eq!(PathFlags::from_bits_truncate(u32::MAX).bits(), 0xC000000F);
    assert!(PathFlags::from_bits(0x10).is_none());
    assert_eq!(PathFlags::from_bits(0xC000000F), Some(PathFlags::all()));
    let mut f = PathFlags::empty();
    let one = PathFlags::from_bits_truncate(PathFlags::EMPTY);
    f.insert(one);
    assert!(f.contains(one));
    assert!(f.intersects(one));
    f.toggle(one);
    assert!(f.is_empty());
    f.set(one, true);
    assert_eq!(f, one);
    f.remove(one);
    assert!(!f.intersects(one));
    f.set(PathFlags::all(), false);
    assert!(f.is_empty());
}

#[test]
fn path_fit_flags_bits_and_sets() {
    assert_eq!(PathFitFlags::all().bits(), 0x0);
    assert_eq!(PathFitFlags::empty().bits(), 0);
    assert!(PathFitFlags::empty().is_empty());
    assert!(PathFitFlags::all().is_all());
    assert_eq!(PathFitFlags::PLACEHOLDER, 0x0);
    assert_eq!(PathFitFlags::from_bits_truncate(u32::MAX).bits(), 0x0);
    assert!(PathFitFlags::from_bits(0x1).is_none());
    assert_eq!(PathFitFlags::from_bits(0x0), Some(PathFitFlags::all()));
}

#[test]
fn cpu_features_bits_and_sets() {
    assert_eq!(CpuFeatures::all().bits(), 0x7F);
    assert_eq!(CpuFeatures::empty().bits(), 0);
    assert!(CpuFeatures::empty().is_empty());
    assert!(CpuFeatures::all().is_all());
    assert_eq!(CpuFeatures::X86_SSE2, 0x1);
    assert_eq!(CpuFeatures::X86_SSE3, 0x2);
    assert_eq!(CpuFeatures::X86_SSSE3, 0x4);
    assert_eq!(CpuFeatures::X86_SSE4_1, 0x8);
    assert_eq!(CpuFeatures::X86_SSE4_2, 0x10);
    assert_eq!(CpuFeatures::X86_AVX, 0x20);
    assert_eq!(CpuFeatures::X86_AVX2, 0x40);
    assert_eq!(CpuFeatures::from_bits_truncate(u32::MAX).bits(), 0x7F);
    assert!(CpuFeatures::from_bits(0x80).is_none());
    assert_eq!(CpuFeatures::from_bits(0x7F), Some(CpuFeatures::all()));
    let mut f = CpuFeatures::empty();
    let one = CpuFeatures::from_bits_truncate(CpuFeatures::X86_SSE2);
    f.insert(one);
    assert!(f.contains(one));
    assert!(f.intersects(one));
    f.toggle(one);
    assert!(f.is_empty());
    f.set(one, true);
    assert_eq!(f, one);
    f.remove(one);
    assert!(!f.intersects(one));
    f.set(CpuFeatures::all(), false);
    assert!(f.is_empty());
    assert!(CpuFeatures::default().is_empty());
}

#[test]
fn cleanup_flags_bits_and_sets() {
    assert_eq!(CleanupFlags::all().bits(), 0x10003);
    assert_eq!(CleanupFlags::empty().bits(), 0);
    assert!(CleanupFlags::empty().is_empty());
    assert!(CleanupFlags::all().is_all());
    assert_eq!(CleanupFlags::OBJECT_POOL, 0x1);
    assert_eq!(CleanupFlags::ZEROED_POOL, 0x2);
    assert_eq!(CleanupFlags::THREAD_POOL, 0x10000);
    assert_eq!(CleanupFlags::from_bits_truncate(u32::MAX).bits(), 0x10003);
    assert!(CleanupFlags::from_bits(0x4).is_none());
    assert_eq!(CleanupFlags::from_bits(0x10003), Some(CleanupFlags::all()));
    let mut f = CleanupFlags::empty();
    let one = CleanupFlags::from_bits_truncate(CleanupFlags::OBJECT_POOL);
    f.insert(one);
    assert!(f.contains(one));
    assert!(f.intersects(one));
    f.toggle(one);
    assert!(f.is_empty());
    f.set(one, true);
    assert_eq!(f, one);
    f.remove(one);
    assert!(!f.intersects(one));
    f.set(CleanupFlags::all(), false);
    assert!(f.is_empty());
    assert!(CleanupFlags::default().is_empty());
}

#[test]
fn glyph_item_flags_bits_and_sets() {
    assert_eq!(GlyphItemFlags::all().bits(), 0x80000000);
    assert_eq!(GlyphItemFlags::empty().bits(), 0);
    assert!(GlyphItemFlags::empty().is_empty());
    assert!(GlyphItemFlags::all().is_all());
    assert_eq!(GlyphItemFlags::MARK, 0x80000000);
    assert_eq!(GlyphItemFlags::from_bits_truncate(u32::MAX).bits(), 0x80000000);
    assert!(GlyphItemFlags::from_bits(0x1).is_none());
    assert_eq!(GlyphItemFlags::from_bits(0x80000000), Some(GlyphItemFlags::all()));
    let mut f = GlyphItemFlags::empty();
    let one = GlyphItemFlags::from_bits_truncate(GlyphItemFlags::MARK);
    f.insert(one);
    assert!(f.contains(one));
    assert!(f.intersects(one));
    f.toggle(one);
    assert!(f.is_empty());
    f.set(one, true);
    assert_eq!(f, one);
    f.remove(one);
    assert!(!f.intersects(one));
    f.set(GlyphItemFlags::all(), false);
    assert!(f.is_empty());
}

#[test]
fn glyph_run_flags_bits_and_sets() {
    assert_eq!(GlyphRunFlags::all().bits(), 0xF0000000);
    assert_eq!(GlyphRunFlags::empty().bits(), 0);
    assert!(GlyphRunFlags::empty().is_empty());
    assert!(GlyphRunFlags::all().is_all());
    assert_eq!(GlyphRunFlags::UCS4_CONTENT, 0x10000000);
    assert_eq!(GlyphRunFlags::INVALID_TEXT, 0x20000000);
    assert_eq!(GlyphRunFlags::UNDEFINED_GLYPHS, 0x40000000);
    assert_eq!(GlyphRunFlags::INVALID_FONT_DATA, 0x80000000);
    assert_eq!(GlyphRunFlags::from_bits_truncate(u32::MAX).bits(), 0xF0000000);
    assert!(GlyphRunFlags::from_bits(0x1).is_none());
    assert_eq!(GlyphRunFlags::from_bits(0xF0000000), Some(GlyphRunFlags::all()));
    let mut f = GlyphRunFlags::empty();
    let one = GlyphRunFlags::from_bits_truncate(GlyphRunFlags::UCS4_CONTENT);
    f.insert(one);
    assert!(f.contains(one));
    assert!(f.intersects(one));
    f.toggle(one);
    assert!(f.is_empty());
    f.set(one, true);
    assert_eq!(f, one);
    f.remove(one);
    assert!(!f.intersects(one));
    f.set(GlyphRunFlags::all(), false);
    assert!(f.is_empty());
}

#[test]
fn font_face_flags_bits_and_sets() {
    assert_eq!(FontFaceFlags::all().bits(), 0xF00037F7);
    assert_eq!(FontFaceFlags::empty().bits(), 0);
    assert!(FontFaceFlags::empty().is_empty());
    assert!(FontFaceFlags::all().is_all());
    assert_eq!(FontFaceFlags::TYPOGRAPHIC_NAMES, 0x1);
    assert_eq!(FontFaceFlags::TYPOGRAPHIC_METRICS, 0x2);
    assert_eq!(FontFaceFlags::CHAR_TO_GLYPH_MAPPING, 0x4);
    assert_eq!(FontFaceFlags::HORIZONTAL_METIRCS, 0x10);
    assert_eq!(FontFaceFlags::VERTICAL_METRICS, 0x20);
    assert_eq!(FontFaceFlags::HORIZONTAL_KERNING, 0x40);
    assert_eq!(FontFaceFlags::VERTICAL_KERNING, 0x80);
    assert_eq!(FontFaceFlags::OPENTYPE_FEATURES, 0x100);
    assert_eq!(FontFaceFlags::PANOSE_DATA, 0x200);
    assert_eq!(FontFaceFlags::UNICODE_COVERAGE, 0x400);
    assert_eq!(FontFaceFlags::BASELINE_Y_EQUALS_0, 0x1000);
    assert_eq!(FontFaceFlags::LSB_POINT_X_EQUALS_0, 0x2000);
    assert_eq!(FontFaceFlags::VARIATION_SEQUENCES, 0x10000000);
    assert_eq!(FontFaceFlags::OPENTYPE_VARIATIONS, 0x20000000);
    assert_eq!(FontFaceFlags::SYMBOL_FONT, 0x40000000);
    assert_eq!(FontFaceFlags::LAST_RESORT_FONT, 0x80000000);
    assert_eq!(FontFaceFlags::from_bits_truncate(u32::MAX).bits(), 0xF00037F7);
    assert!(FontFaceFlags::from_bits(0x8).is_none());
    assert_eq!(FontFaceFlags::from_bits(0xF00037F7), Some(FontFaceFlags::all()));
    let mut f = FontFaceFlags::empty();
    let one = FontFaceFlags::from_bits_truncate(FontFaceFlags::TYPOGRAPHIC_NAMES);
    f.insert(one);
    assert!(f.contains(one));
    assert!(f.intersects(one));
    f.toggle(one);
    assert!(f.is_empty());
    f.set(one, true);
    assert_eq!(f, one);
    f.remove(one);
    assert!(!f.intersects(one));
    f.set(FontFaceFlags::all(), false);
    assert!(f.is_empty());
}

#[test]
fn font_face_diag_flags_bits_and_sets() {
    assert_eq!(FontFaceDiagFlags::all().bits(), 0x153F);
    assert_eq!(FontFaceDiagFlags::empty().bits(), 0);
    assert!(FontFaceDiagFlags::empty().is_empty());
    assert!(FontFaceDiagFlags::all().is_all());
    assert_eq!(FontFaceDiagFlags::WRONG_NAME_DATA, 0x1);
    assert_eq!(FontFaceDiagFlags::FIXED_NAME_DATA, 0x2);
    assert_eq!(FontFaceDiagFlags::WRONG_KERN_DATA, 0x4);
    assert_eq!(FontFaceDiagFlags::FIXED_KERN_DATA, 0x8);
    assert_eq!(FontFaceDiagFlags::WRONG_CMAP_DATA, 0x10);
    assert_eq!(FontFaceDiagFlags::WRONG_CMAP_FORMAT, 0x20);
    assert_eq!(FontFaceDiagFlags::WRONG_GDEF_DATA, 0x100);
    assert_eq!(FontFaceDiagFlags::WRONG_GPOS_DATA, 0x400);
    assert_eq!(FontFaceDiagFlags::WRONG_GSUB_DATA, 0x1000);
    assert_eq!(FontFaceDiagFlags::from_bits_truncate(u32::MAX).bits(), 0x153F);
    assert!(FontFaceDiagFlags::from_bits(0x40).is_none());
    assert_eq!(FontFaceDiagFlags::from_bits(0x153F), Some(FontFaceDiagFlags::all()));
    let mut f = FontFaceDiagFlags::empty();
    let one = FontFaceDiagFlags::from_bits_truncate(FontFaceDiagFlags::WRONG_NAME_DATA);
    f.insert(one);
    assert!(f.contains(one));
    assert!(f.intersects(one));
    f.toggle(one);
    assert!(f.is_empty());
    f.set(one, true);
    assert_eq!(f, one);
    f.remove(one);
    assert!(!f.intersects(one));
    f.set(FontFaceDiagFlags::all(), false);
    assert!(f.is_empty());
}

#[test]
fn font_loader_flags_bits_and_sets() {
    assert_eq!(FontLoaderFlags::all().bits(), 0x1);
    assert_eq!(FontLoaderFlags::empty().bits(), 0);
    assert!(FontLoaderFlags::empty().is_empty());
    assert!(FontLoaderFlags::all().is_all());
    assert_eq!(FontLoaderFlags::COLLECTION, 0x1);
    assert_eq!(FontLoaderFlags::from_bits_truncate(u32::MAX).bits(), 0x1);
    assert!(FontLoaderFlags::from_bits(0x2).is_none());
    assert_eq!(FontLoaderFlags::from_bits(0x1), Some(FontLoaderFlags::all()));
    let mut f = FontLoaderFlags::empty();
    let one = FontLoaderFlags::from_bits_truncate(FontLoaderFlags::COLLECTION);
    f.insert(one);
    assert!(f.contains(one));
    assert!(f.intersects(one));
    f.toggle(one);
    assert!(f.is_empty());
    f.set(one, true);
    assert_eq!(f, one);
    f.remove(one);
    assert!(!f.intersects(one));
    f.set(FontLoaderFlags::all(), false);
    assert!(f.is_empty());
}

#[test]
fn font_data_flags_bits_and_sets() {
    assert_eq!(FontDataFlags::all().bits(), 0x1);
    assert_eq!(FontDataFlags::empty().bits(), 0);
    assert!(FontDataFlags::empty().is_empty());
    assert!(FontDataFlags::all().is_all());
    assert_eq!(FontDataFlags::COLLECTION, 0x1);
    assert_eq!(FontDataFlags::from_bits_truncate(u32::MAX).bits(), 0x1);
    assert!(FontDataFlags::from_bits(0x2).is_none());
    assert_eq!(FontDataFlags::from_bits(0x1), Some(FontDataFlags::all()));
    let mut f = FontDataFlags::empty();
    let one = FontDataFlags::from_bits_truncate(FontDataFlags::COLLECTION);
    f.insert(one);
    assert!(f.contains(one));
    assert!(f.intersects(one));
    f.toggle(one);
    assert!(f.is_empty());
    f.set(one, true);
    assert_eq!(f, one);
    f.remove(one);
    assert!(!f.intersects(one));
    f.set(FontDataFlags::all(), false);
    assert!(f.is_empty());
}

#[test]
fn flag_set_operators() {
    let read = DataAccessFlags::from_bits_truncate(DataAccessFlags::READ);
    let write = DataAccessFlags::from_bits_truncate(DataAccessFlags::WRITE);
    let both = DataAccessFlags::from_bits_truncate(DataAccessFlags::READ_WRITE);
    assert_eq!(read | write, both);
    assert_eq!(both & write, write);
    assert_eq!((read & write).bits(), 0);
    assert_eq!(both ^ read, write);
    assert_eq!(both - read, write);
    assert_eq!(!read, write);
    assert_eq!(!DataAccessFlags::empty(), DataAccessFlags::all());
    assert_eq!(!DataAccessFlags::all(), DataAccessFlags::empty());
}

#[test]
fn complement_keeps_to_known_flags() {
    let rgb = FormatFlags::from_bits_truncate(FormatFlags::RGB);
    assert_eq!((!rgb).bits(), 0x30317 & !0x1);
    let pool = CleanupFlags::from_bits_truncate(CleanupFlags::OBJECT_POOL);
    let zeroed = CleanupFlags::from_bits_truncate(CleanupFlags::ZEROED_POOL);
    assert_eq!((pool | zeroed).bits(), 0x3);
    assert_eq!(((pool | zeroed) - pool), zeroed);
}

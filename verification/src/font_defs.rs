//! Font and glyph definitions.
use vstd::prelude::*;

use crate::geometry::PointI;
use crate::Tag;
use crate::flags::{
    lemma_and_not_within, lemma_and_within, lemma_mask_within, lemma_or_within, lemma_self_within, lemma_xor_within,
    lemma_zero_within,
};

verus! {

/// How glyph placements are expressed.
#[derive(Clone, Copy, Debug, PartialEq, Eq, PartialOrd)]
pub enum GlyphPlacementType {
    NoPlacement,
    AdvanceOffset,
    DesignUnits,
    UserUnits,
    AbsoluteUnits,
}

impl GlyphPlacementType {
    /// The value blend2d uses for this variant.
    pub open spec fn bl_value(self) -> u32 {
        match self {
            GlyphPlacementType::NoPlacement => 0,
            GlyphPlacementType::AdvanceOffset => 1,
            GlyphPlacementType::DesignUnits => 2,
            GlyphPlacementType::UserUnits => 3,
            GlyphPlacementType::AbsoluteUnits => 4,
        }
    }

    /// Looks a blend2d value up: the variant that has it, or the default
    /// variant for a value that no variant has.
    pub open spec fn from_bl_value(value: u32) -> GlyphPlacementType {
        if value == 0 {
            GlyphPlacementType::NoPlacement
        } else if value == 1 {
            GlyphPlacementType::AdvanceOffset
        } else if value == 2 {
            GlyphPlacementType::DesignUnits
        } else if value == 3 {
            GlyphPlacementType::UserUnits
        } else if value == 4 {
            GlyphPlacementType::AbsoluteUnits
        } else {
            GlyphPlacementType::NoPlacement
        }
    }

    /// Distinct variants have distinct blend2d values.
    pub proof fn lemma_bl_value_injective(a: GlyphPlacementType, b: GlyphPlacementType)
        requires
            a.bl_value() == b.bl_value(),
        ensures
            a == b,
    {
    }

    /// Converting a variant to its blend2d value and back gives the same variant.
    pub proof fn lemma_value_roundtrip(self)
        ensures
            GlyphPlacementType::from_bl_value(self.bl_value()) == self,
    {
    }

    /// Looking a value up gives the variant that has it, and the default
    /// variant exactly where no variant has it.
    pub proof fn lemma_from_bl_value(value: u32)
        ensures
            (exists|v: GlyphPlacementType| v.bl_value() == value) ==> GlyphPlacementType::from_bl_value(value).bl_value() == value,
            (forall|v: GlyphPlacementType| v.bl_value() != value) ==> GlyphPlacementType::from_bl_value(value) == GlyphPlacementType::NoPlacement,
    {
        if forall|v: GlyphPlacementType| v.bl_value() != value {
            assert(GlyphPlacementType::NoPlacement.bl_value() != value);
            assert(GlyphPlacementType::AdvanceOffset.bl_value() != value);
            assert(GlyphPlacementType::DesignUnits.bl_value() != value);
            assert(GlyphPlacementType::UserUnits.bl_value() != value);
            assert(GlyphPlacementType::AbsoluteUnits.bl_value() != value);
        }
    }
}

impl From<u32> for GlyphPlacementType {
    fn from(val: u32) -> (r: GlyphPlacementType) {
        if val == 0 {
            GlyphPlacementType::NoPlacement
        } else if val == 1 {
            GlyphPlacementType::AdvanceOffset
        } else if val == 2 {
            GlyphPlacementType::DesignUnits
        } else if val == 3 {
            GlyphPlacementType::UserUnits
        } else if val == 4 {
            GlyphPlacementType::AbsoluteUnits
        } else {
            GlyphPlacementType::NoPlacement
        }
    }
}

impl vstd::std_specs::convert::FromSpecImpl<u32> for GlyphPlacementType {
    open spec fn obeys_from_spec() -> bool {
        true
    }

    open spec fn from_spec(val: u32) -> GlyphPlacementType {
        GlyphPlacementType::from_bl_value(val)
    }
}

impl From<GlyphPlacementType> for u32 {
    fn from(val: GlyphPlacementType) -> (r: u32) {
        match val {
            GlyphPlacementType::NoPlacement => 0,
            GlyphPlacementType::AdvanceOffset => 1,
            GlyphPlacementType::DesignUnits => 2,
            GlyphPlacementType::UserUnits => 3,
            GlyphPlacementType::AbsoluteUnits => 4,
        }
    }
}

impl vstd::std_specs::convert::FromSpecImpl<GlyphPlacementType> for u32 {
    open spec fn obeys_from_spec() -> bool {
        true
    }

    open spec fn from_spec(val: GlyphPlacementType) -> u32 {
        val.bl_value()
    }
}

impl Default for GlyphPlacementType {
    fn default() -> (r: GlyphPlacementType)
        ensures
            r == GlyphPlacementType::NoPlacement,
    {
        GlyphPlacementType::NoPlacement
    }
}

/// The type of a font face.
#[derive(Clone, Copy, Debug, PartialEq, Eq, PartialOrd)]
pub enum FontFaceType {
    NoFace,
    OpenType,
}

impl FontFaceType {
    /// The value blend2d uses for this variant.
    pub open spec fn bl_value(self) -> u32 {
        match self {
            FontFaceType::NoFace => 0,
            FontFaceType::OpenType => 1,
        }
    }

    /// Looks a blend2d value up: the variant that has it, or the default
    /// variant for a value that no variant has.
    pub open spec fn from_bl_value(value: u32) -> FontFaceType {
        if value == 0 {
            FontFaceType::NoFace
        } else if value == 1 {
            FontFaceType::OpenType
        } else {
            FontFaceType::NoFace
        }
    }

    /// Distinct variants have distinct blend2d values.
    pub proof fn lemma_bl_value_injective(a: FontFaceType, b: FontFaceType)
        requires
            a.bl_value() == b.bl_value(),
        ensures
            a == b,
    {
    }

    /// Converting a variant to its blend2d value and back gives the same variant.
    pub proof fn lemma_value_roundtrip(self)
        ensures
            FontFaceType::from_bl_value(self.bl_value()) == self,
    {
    }

    /// Looking a value up gives the variant that has it, and the default
    /// variant exactly where no variant has it.
    pub proof fn lemma_from_bl_value(value: u32)
        ensures
            (exists|v: FontFaceType| v.bl_value() == value) ==> FontFaceType::from_bl_value(value).bl_value() == value,
            (forall|v: FontFaceType| v.bl_value() != value) ==> FontFaceType::from_bl_value(value) == FontFaceType::NoFace,
    {
        if forall|v: FontFaceType| v.bl_value() != value {
            assert(FontFaceType::NoFace.bl_value() != value);
            assert(FontFaceType::OpenType.bl_value() != value);
        }
    }
}

impl From<u32> for FontFaceType {
    fn from(val: u32) -> (r: FontFaceType) {
        if val == 0 {
            FontFaceType::NoFace
        } else if val == 1 {
            FontFaceType::OpenType
        } else {
            FontFaceType::NoFace
        }
    }
}

impl vstd::std_specs::convert::FromSpecImpl<u32> for FontFaceType {
    open spec fn obeys_from_spec() -> bool {
        true
    }

    open spec fn from_spec(val: u32) -> FontFaceType {
        FontFaceType::from_bl_value(val)
    }
}

impl From<FontFaceType> for u32 {
    fn from(val: FontFaceType) -> (r: u32) {
        match val {
            FontFaceType::NoFace => 0,
            FontFaceType::OpenType => 1,
        }
    }
}

impl vstd::std_specs::convert::FromSpecImpl<FontFaceType> for u32 {
    open spec fn obeys_from_spec() -> bool {
        true
    }

    open spec fn from_spec(val: FontFaceType) -> u32 {
        val.bl_value()
    }
}

impl Default for FontFaceType {
    fn default() -> (r: FontFaceType)
        ensures
            r == FontFaceType::NoFace,
    {
        FontFaceType::NoFace
    }
}

/// The outline format of a font face.
#[derive(Clone, Copy, Debug, PartialEq, Eq, PartialOrd)]
pub enum FontOutlineType {
    NoOutline,
    TrueType,
    Cff,
    Cff2,
}

impl FontOutlineType {
    /// The value blend2d uses for this variant.
    pub open spec fn bl_value(self) -> u32 {
        match self {
            FontOutlineType::NoOutline => 0,
            FontOutlineType::TrueType => 1,
            FontOutlineType::Cff => 2,
            FontOutlineType::Cff2 => 3,
        }
    }

    /// Looks a blend2d value up: the variant that has it, or the default
    /// variant for a value that no variant has.
    pub open spec fn from_bl_value(value: u32) -> FontOutlineType {
        if value == 0 {
            FontOutlineType::NoOutline
        } else if value == 1 {
            FontOutlineType::TrueType
        } else if value == 2 {
            FontOutlineType::Cff
        } else if value == 3 {
            FontOutlineType::Cff2
        } else {
            FontOutlineType::NoOutline
        }
    }

    /// Distinct variants have distinct blend2d values.
    pub proof fn lemma_bl_value_injective(a: FontOutlineType, b: FontOutlineType)
        requires
            a.bl_value() == b.bl_value(),
        ensures
            a == b,
    {
    }

    /// Converting a variant to its blend2d value and back gives the same variant.
    pub proof fn lemma_value_roundtrip(self)
        ensures
            FontOutlineType::from_bl_value(self.bl_value()) == self,
    {
    }

    /// Looking a value up gives the variant that has it, and the default
    /// variant exactly where no variant has it.
    pub proof fn lemma_from_bl_value(value: u32)
        ensures
            (exists|v: FontOutlineType| v.bl_value() == value) ==> FontOutlineType::from_bl_value(value).bl_value() == value,
            (forall|v: FontOutlineType| v.bl_value() != value) ==> FontOutlineType::from_bl_value(value) == FontOutlineType::NoOutline,
    {
        if forall|v: FontOutlineType| v.bl_value() != value {
            assert(FontOutlineType::NoOutline.bl_value() != value);
            assert(FontOutlineType::TrueType.bl_value() != value);
            assert(FontOutlineType::Cff.bl_value() != value);
            assert(FontOutlineType::Cff2.bl_value() != value);
        }
    }
}

impl From<u32> for FontOutlineType {
    fn from(val: u32) -> (r: FontOutlineType) {
        if val == 0 {
            FontOutlineType::NoOutline
        } else if val == 1 {
            FontOutlineType::TrueType
        } else if val == 2 {
            FontOutlineType::Cff
        } else if val == 3 {
            FontOutlineType::Cff2
        } else {
            FontOutlineType::NoOutline
        }
    }
}

impl vstd::std_specs::convert::FromSpecImpl<u32> for FontOutlineType {
    open spec fn obeys_from_spec() -> bool {
        true
    }

    open spec fn from_spec(val: u32) -> FontOutlineType {
        FontOutlineType::from_bl_value(val)
    }
}

impl From<FontOutlineType> for u32 {
    fn from(val: FontOutlineType) -> (r: u32) {
        match val {
            FontOutlineType::NoOutline => 0,
            FontOutlineType::TrueType => 1,
            FontOutlineType::Cff => 2,
            FontOutlineType::Cff2 => 3,
        }
    }
}

impl vstd::std_specs::convert::FromSpecImpl<FontOutlineType> for u32 {
    open spec fn obeys_from_spec() -> bool {
        true
    }

    open spec fn from_spec(val: FontOutlineType) -> u32 {
        val.bl_value()
    }
}

impl Default for FontOutlineType {
    fn default() -> (r: FontOutlineType)
        ensures
            r == FontOutlineType::NoOutline,
    {
        FontOutlineType::NoOutline
    }
}

/// Font stretch.
#[derive(Clone, Copy, Debug, PartialEq, Eq, PartialOrd)]
pub enum FontStretch {
    UltraCondensed,
    ExtraCondensed,
    Condensed,
    SemiCondensed,
    Normal,
    SemiExpanded,
    Expanded,
    ExtraExpanded,
    UltraExpanded,
}

impl FontStretch {
    /// The value blend2d uses for this variant.
    pub open spec fn bl_value(self) -> u32 {
        match self {
            FontStretch::UltraCondensed => 1,
            FontStretch::ExtraCondensed => 2,
            FontStretch::Condensed => 3,
            FontStretch::SemiCondensed => 4,
            FontStretch::Normal => 5,
            FontStretch::SemiExpanded => 6,
            FontStretch::Expanded => 7,
            FontStretch::ExtraExpanded => 8,
            FontStretch::UltraExpanded => 9,
        }
    }

    /// Looks a blend2d value up: the variant that has it, or the default
    /// variant for a value that no variant has.
    pub open spec fn from_bl_value(value: u32) -> FontStretch {
        if value == 1 {
            FontStretch::UltraCondensed
        } else if value == 2 {
            FontStretch::ExtraCondensed
        } else if value == 3 {
            FontStretch::Condensed
        } else if value == 4 {
            FontStretch::SemiCondensed
        } else if value == 5 {
            FontStretch::Normal
        } else if value == 6 {
            FontStretch::SemiExpanded
        } else if value == 7 {
            FontStretch::Expanded
        } else if value == 8 {
            FontStretch::ExtraExpanded
        } else if value == 9 {
            FontStretch::UltraExpanded
        } else {
            FontStretch::Normal
        }
    }

    /// Distinct variants have distinct blend2d values.
    pub proof fn lemma_bl_value_injective(a: FontStretch, b: FontStretch)
        requires
            a.bl_value() == b.bl_value(),
        ensures
            a == b,
    {
    }

    /// Converting a variant to its blend2d value and back gives the same variant.
    pub proof fn lemma_value_roundtrip(self)
        ensures
            FontStretch::from_bl_value(self.bl_value()) == self,
    {
    }

    /// Looking a value up gives the variant that has it, and the default
    /// variant exactly where no variant has it.
    pub proof fn lemma_from_bl_value(value: u32)
        ensures
            (exists|v: FontStretch| v.bl_value() == value) ==> FontStretch::from_bl_value(value).bl_value() == value,
            (forall|v: FontStretch| v.bl_value() != value) ==> FontStretch::from_bl_value(value) == FontStretch::Normal,
    {
        if forall|v: FontStretch| v.bl_value() != value {
            assert(FontStretch::UltraCondensed.bl_value() != value);
            assert(FontStretch::ExtraCondensed.bl_value() != value);
            assert(FontStretch::Condensed.bl_value() != value);
            assert(FontStretch::SemiCondensed.bl_value() != value);
            assert(FontStretch::Normal.bl_value() != value);
            assert(FontStretch::SemiExpanded.bl_value() != value);
            assert(FontStretch::Expanded.bl_value() != value);
            assert(FontStretch::ExtraExpanded.bl_value() != value);
            assert(FontStretch::UltraExpanded.bl_value() != value);
        }
    }
}

impl From<u32> for FontStretch {
    fn from(val: u32) -> (r: FontStretch) {
        if val == 1 {
            FontStretch::UltraCondensed
        } else if val == 2 {
            FontStretch::ExtraCondensed
        } else if val == 3 {
            FontStretch::Condensed
        } else if val == 4 {
            FontStretch::SemiCondensed
        } else if val == 5 {
            FontStretch::Normal
        } else if val == 6 {
            FontStretch::SemiExpanded
        } else if val == 7 {
            FontStretch::Expanded
        } else if val == 8 {
            FontStretch::ExtraExpanded
        } else if val == 9 {
            FontStretch::UltraExpanded
        } else {
            FontStretch::Normal
        }
    }
}

impl vstd::std_specs::convert::FromSpecImpl<u32> for FontStretch {
    open spec fn obeys_from_spec() -> bool {
        true
    }

    open spec fn from_spec(val: u32) -> FontStretch {
        FontStretch::from_bl_value(val)
    }
}

impl From<FontStretch> for u32 {
    fn from(val: FontStretch) -> (r: u32) {
        match val {
            FontStretch::UltraCondensed => 1,
            FontStretch::ExtraCondensed => 2,
            FontStretch::Condensed => 3,
            FontStretch::SemiCondensed => 4,
            FontStretch::Normal => 5,
            FontStretch::SemiExpanded => 6,
            FontStretch::Expanded => 7,
            FontStretch::ExtraExpanded => 8,
            FontStretch::UltraExpanded => 9,
        }
    }
}

impl vstd::std_specs::convert::FromSpecImpl<FontStretch> for u32 {
    open spec fn obeys_from_spec() -> bool {
        true
    }

    open spec fn from_spec(val: FontStretch) -> u32 {
        val.bl_value()
    }
}

impl Default for FontStretch {
    fn default() -> (r: FontStretch)
        ensures
            r == FontStretch::Normal,
    {
        FontStretch::Normal
    }
}

/// Font style.
#[derive(Clone, Copy, Debug, PartialEq, Eq, PartialOrd)]
pub enum FontStyle {
    Normal,
    Oblique,
    Italic,
}

impl FontStyle {
    /// The value blend2d uses for this variant.
    pub open spec fn bl_value(self) -> u32 {
        match self {
            FontStyle::Normal => 0,
            FontStyle::Oblique => 1,
            FontStyle::Italic => 2,
        }
    }

    /// Looks a blend2d value up: the variant that has it, or the default
    /// variant for a value that no variant has.
    pub open spec fn from_bl_value(value: u32) -> FontStyle {
        if value == 0 {
            FontStyle::Normal
        } else if value == 1 {
            FontStyle::Oblique
        } else if value == 2 {
            FontStyle::Italic
        } else {
            FontStyle::Normal
        }
    }

    /// Distinct variants have distinct blend2d values.
    pub proof fn lemma_bl_value_injective(a: FontStyle, b: FontStyle)
        requires
            a.bl_value() == b.bl_value(),
        ensures
            a == b,
    {
    }

    /// Converting a variant to its blend2d value and back gives the same variant.
    pub proof fn lemma_value_roundtrip(self)
        ensures
            FontStyle::from_bl_value(self.bl_value()) == self,
    {
    }

    /// Looking a value up gives the variant that has it, and the default
    /// variant exactly where no variant has it.
    pub proof fn lemma_from_bl_value(value: u32)
        ensures
            (exists|v: FontStyle| v.bl_value() == value) ==> FontStyle::from_bl_value(value).bl_value() == value,
            (forall|v: FontStyle| v.bl_value() != value) ==> FontStyle::from_bl_value(value) == FontStyle::Normal,
    {
        if forall|v: FontStyle| v.bl_value() != value {
            assert(FontStyle::Normal.bl_value() != value);
            assert(FontStyle::Oblique.bl_value() != value);
            assert(FontStyle::Italic.bl_value() != value);
        }
    }
}

impl From<u32> for FontStyle {
    fn from(val: u32) -> (r: FontStyle) {
        if val == 0 {
            FontStyle::Normal
        } else if val == 1 {
            FontStyle::Oblique
        } else if val == 2 {
            FontStyle::Italic
        } else {
            FontStyle::Normal
        }
    }
}

impl vstd::std_specs::convert::FromSpecImpl<u32> for FontStyle {
    open spec fn obeys_from_spec() -> bool {
        true
    }

    open spec fn from_spec(val: u32) -> FontStyle {
        FontStyle::from_bl_value(val)
    }
}

impl From<FontStyle> for u32 {
    fn from(val: FontStyle) -> (r: u32) {
        match val {
            FontStyle::Normal => 0,
            FontStyle::Oblique => 1,
            FontStyle::Italic => 2,
        }
    }
}

impl vstd::std_specs::convert::FromSpecImpl<FontStyle> for u32 {
    open spec fn obeys_from_spec() -> bool {
        true
    }

    open spec fn from_spec(val: FontStyle) -> u32 {
        val.bl_value()
    }
}

impl Default for FontStyle {
    fn default() -> (r: FontStyle)
        ensures
            r == FontStyle::Normal,
    {
        FontStyle::Normal
    }
}

/// Font weight.
#[derive(Clone, Copy, Debug, PartialEq, Eq, PartialOrd)]
pub enum FontWeight {
    Thin,
    ExtraLight,
    Light,
    SemiLight,
    Normal,
    Medium,
    SemiBold,
    Bold,
    ExtraBold,
    Black,
    ExtraBlack,
}

impl FontWeight {
    /// The value blend2d uses for this variant.
    pub open spec fn bl_value(self) -> u32 {
        match self {
            FontWeight::Thin => 100,
            FontWeight::ExtraLight => 200,
            FontWeight::Light => 300,
            FontWeight::SemiLight => 350,
            FontWeight::Normal => 400,
            FontWeight::Medium => 500,
            FontWeight::SemiBold => 600,
            FontWeight::Bold => 700,
            FontWeight::ExtraBold => 800,
            FontWeight::Black => 900,
            FontWeight::ExtraBlack => 950,
        }
    }

    /// Looks a blend2d value up: the variant that has it, or the default
    /// variant for a value that no variant has.
    pub open spec fn from_bl_value(value: u32) -> FontWeight {
        if value == 100 {
            FontWeight::Thin
        } else if value == 200 {
            FontWeight::ExtraLight
        } else if value == 300 {
            FontWeight::Light
        } else if value == 350 {
            FontWeight::SemiLight
        } else if value == 400 {
            FontWeight::Normal
        } else if value == 500 {
            FontWeight::Medium
        } else if value == 600 {
            FontWeight::SemiBold
        } else if value == 700 {
            FontWeight::Bold
        } else if value == 800 {
            FontWeight::ExtraBold
        } else if value == 900 {
            FontWeight::Black
        } else if value == 950 {
            FontWeight::ExtraBlack
        } else {
            FontWeight::Normal
        }
    }

    /// Distinct variants have distinct blend2d values.
    pub proof fn lemma_bl_value_injective(a: FontWeight, b: FontWeight)
        requires
            a.bl_value() == b.bl_value(),
        ensures
            a == b,
    {
    }

    /// Converting a variant to its blend2d value and back gives the same variant.
    pub proof fn lemma_value_roundtrip(self)
        ensures
            FontWeight::from_bl_value(self.bl_value()) == self,
    {
    }

    /// Looking a value up gives the variant that has it, and the default
    /// variant exactly where no variant has it.
    pub proof fn lemma_from_bl_value(value: u32)
        ensures
            (exists|v: FontWeight| v.bl_value() == value) ==> FontWeight::from_bl_value(value).bl_value() == value,
            (forall|v: FontWeight| v.bl_value() != value) ==> FontWeight::from_bl_value(value) == FontWeight::Normal,
    {
        if forall|v: FontWeight| v.bl_value() != value {
            assert(FontWeight::Thin.bl_value() != value);
            assert(FontWeight::ExtraLight.bl_value() != value);
            assert(FontWeight::Light.bl_value() != value);
            assert(FontWeight::SemiLight.bl_value() != value);
            assert(FontWeight::Normal.bl_value() != value);
            assert(FontWeight::Medium.bl_value() != value);
            assert(FontWeight::SemiBold.bl_value() != value);
            assert(FontWeight::Bold.bl_value() != value);
            assert(FontWeight::ExtraBold.bl_value() != value);
            assert(FontWeight::Black.bl_value() != value);
            assert(FontWeight::ExtraBlack.bl_value() != value);
        }
    }
}

impl From<u32> for FontWeight {
    fn from(val: u32) -> (r: FontWeight) {
        if val == 100 {
            FontWeight::Thin
        } else if val == 200 {
            FontWeight::ExtraLight
        } else if val == 300 {
            FontWeight::Light
        } else if val == 350 {
            FontWeight::SemiLight
        } else if val == 400 {
            FontWeight::Normal
        } else if val == 500 {
            FontWeight::Medium
        } else if val == 600 {
            FontWeight::SemiBold
        } else if val == 700 {
            FontWeight::Bold
        } else if val == 800 {
            FontWeight::ExtraBold
        } else if val == 900 {
            FontWeight::Black
        } else if val == 950 {
            FontWeight::ExtraBlack
        } else {
            FontWeight::Normal
        }
    }
}

impl vstd::std_specs::convert::FromSpecImpl<u32> for FontWeight {
    open spec fn obeys_from_spec() -> bool {
        true
    }

    open spec fn from_spec(val: u32) -> FontWeight {
        FontWeight::from_bl_value(val)
    }
}

impl From<FontWeight> for u32 {
    fn from(val: FontWeight) -> (r: u32) {
        match val {
            FontWeight::Thin => 100,
            FontWeight::ExtraLight => 200,
            FontWeight::Light => 300,
            FontWeight::SemiLight => 350,
            FontWeight::Normal => 400,
            FontWeight::Medium => 500,
            FontWeight::SemiBold => 600,
            FontWeight::Bold => 700,
            FontWeight::ExtraBold => 800,
            FontWeight::Black => 900,
            FontWeight::ExtraBlack => 950,
        }
    }
}

impl vstd::std_specs::convert::FromSpecImpl<FontWeight> for u32 {
    open spec fn obeys_from_spec() -> bool {
        true
    }

    open spec fn from_spec(val: FontWeight) -> u32 {
        val.bl_value()
    }
}

impl Default for FontWeight {
    fn default() -> (r: FontWeight)
        ensures
            r == FontWeight::Normal,
    {
        FontWeight::Normal
    }
}

/// The identifier of a string of a font.
#[derive(Clone, Copy, Debug, PartialEq, Eq, PartialOrd)]
pub enum FontStringId {
    CopyrightNotice,
    FamilyName,
    SubfamilyName,
    UniqueIdentifier,
    FullName,
    VersionString,
    PostScriptName,
    Trademark,
    ManufacturerName,
    DesignerName,
    Description,
    VendorUrl,
    DesignerUrl,
    LicenseDescription,
    LicenseInfoUrl,
    Reserved,
    TypographicsFamilyName,
    TypographicsSubfamilyName,
    CompatibleFullname,
    SampleText,
    PostScriptCidName,
    WwsFamilyName,
    WwsSubfamilyName,
    LightBackgroundPalette,
    DarkBackgroundPalette,
    VariationsPostScriptPrefix,
    CommonCount,
    CustomStartIndex,
}

impl FontStringId {
    /// The value blend2d uses for this variant.
    pub open spec fn bl_value(self) -> u32 {
        match self {
            FontStringId::CopyrightNotice => 0,
            FontStringId::FamilyName => 1,
            FontStringId::SubfamilyName => 2,
            FontStringId::UniqueIdentifier => 3,
            FontStringId::FullName => 4,
            FontStringId::VersionString => 5,
            FontStringId::PostScriptName => 6,
            FontStringId::Trademark => 7,
            FontStringId::ManufacturerName => 8,
            FontStringId::DesignerName => 9,
            FontStringId::Description => 10,
            FontStringId::VendorUrl => 11,
            FontStringId::DesignerUrl => 12,
            FontStringId::LicenseDescription => 13,
            FontStringId::LicenseInfoUrl => 14,
            FontStringId::Reserved => 15,
            FontStringId::TypographicsFamilyName => 16,
            FontStringId::TypographicsSubfamilyName => 17,
            FontStringId::CompatibleFullname => 18,
            FontStringId::SampleText => 19,
            FontStringId::PostScriptCidName => 20,
            FontStringId::WwsFamilyName => 21,
            FontStringId::WwsSubfamilyName => 22,
            FontStringId::LightBackgroundPalette => 23,
            FontStringId::DarkBackgroundPalette => 24,
            FontStringId::VariationsPostScriptPrefix => 25,
            FontStringId::CommonCount => 26,
            FontStringId::CustomStartIndex => 255,
        }
    }

    /// Looks a blend2d value up: the variant that has it, or the default
    /// variant for a value that no variant has.
    pub open spec fn from_bl_value(value: u32) -> FontStringId {
        if value == 0 {
            FontStringId::CopyrightNotice
        } else if value == 1 {
            FontStringId::FamilyName
        } else if value == 2 {
            FontStringId::SubfamilyName
        } else if value == 3 {
            FontStringId::UniqueIdentifier
        } else if value == 4 {
            FontStringId::FullName
        } else if value == 5 {
            FontStringId::VersionString
        } else if value == 6 {
            FontStringId::PostScriptName
        } else if value == 7 {
            FontStringId::Trademark
        } else if value == 8 {
            FontStringId::ManufacturerName
        } else if value == 9 {
            FontStringId::DesignerName
        } else if value == 10 {
            FontStringId::Description
        } else if value == 11 {
            FontStringId::VendorUrl
        } else if value == 12 {
            FontStringId::DesignerUrl
        } else if value == 13 {
            FontStringId::LicenseDescription
        } else if value == 14 {
            FontStringId::LicenseInfoUrl
        } else if value == 15 {
            FontStringId::Reserved
        } else if value == 16 {
            FontStringId::TypographicsFamilyName
        } else if value == 17 {
            FontStringId::TypographicsSubfamilyName
        } else if value == 18 {
            FontStringId::CompatibleFullname
        } else if value == 19 {
            FontStringId::SampleText
        } else if value == 20 {
            FontStringId::PostScriptCidName
        } else if value == 21 {
            FontStringId::WwsFamilyName
        } else if value == 22 {
            FontStringId::WwsSubfamilyName
        } else if value == 23 {
            FontStringId::LightBackgroundPalette
        } else if value == 24 {
            FontStringId::DarkBackgroundPalette
        } else if value == 25 {
            FontStringId::VariationsPostScriptPrefix
        } else if value == 26 {
            FontStringId::CommonCount
        } else if value == 255 {
            FontStringId::CustomStartIndex
        } else {
            FontStringId::Reserved
        }
    }

    /// Distinct variants have distinct blend2d values.
    pub proof fn lemma_bl_value_injective(a: FontStringId, b: FontStringId)
        requires
            a.bl_value() == b.bl_value(),
        ensures
            a == b,
    {
    }

    /// Converting a variant to its blend2d value and back gives the same variant.
    pub proof fn lemma_value_roundtrip(self)
        ensures
            FontStringId::from_bl_value(self.bl_value()) == self,
    {
    }

    /// Looking a value up gives the variant that has it, and the default
    /// variant exactly where no variant has it.
    pub proof fn lemma_from_bl_value(value: u32)
        ensures
            (exists|v: FontStringId| v.bl_value() == value) ==> FontStringId::from_bl_value(value).bl_value() == value,
            (forall|v: FontStringId| v.bl_value() != value) ==> FontStringId::from_bl_value(value) == FontStringId::Reserved,
    {
        if forall|v: FontStringId| v.bl_value() != value {
            assert(FontStringId::CopyrightNotice.bl_value() != value);
            assert(FontStringId::FamilyName.bl_value() != value);
            assert(FontStringId::SubfamilyName.bl_value() != value);
            assert(FontStringId::UniqueIdentifier.bl_value() != value);
            assert(FontStringId::FullName.bl_value() != value);
            assert(FontStringId::VersionString.bl_value() != value);
            assert(FontStringId::PostScriptName.bl_value() != value);
            assert(FontStringId::Trademark.bl_value() != value);
            assert(FontStringId::ManufacturerName.bl_value() != value);
            assert(FontStringId::DesignerName.bl_value() != value);
            assert(FontStringId::Description.bl_value() != value);
            assert(FontStringId::VendorUrl.bl_value() != value);
            assert(FontStringId::DesignerUrl.bl_value() != value);
            assert(FontStringId::LicenseDescription.bl_value() != value);
            assert(FontStringId::LicenseInfoUrl.bl_value() != value);
            assert(FontStringId::Reserved.bl_value() != value);
            assert(FontStringId::TypographicsFamilyName.bl_value() != value);
            assert(FontStringId::TypographicsSubfamilyName.bl_value() != value);
            assert(FontStringId::CompatibleFullname.bl_value() != value);
            assert(FontStringId::SampleText.bl_value() != value);
            assert(FontStringId::PostScriptCidName.bl_value() != value);
            assert(FontStringId::WwsFamilyName.bl_value() != value);
            assert(FontStringId::WwsSubfamilyName.bl_value() != value);
            assert(FontStringId::LightBackgroundPalette.bl_value() != value);
            assert(FontStringId::DarkBackgroundPalette.bl_value() != value);
            assert(FontStringId::VariationsPostScriptPrefix.bl_value() != value);
            assert(FontStringId::CommonCount.bl_value() != value);
            assert(FontStringId::CustomStartIndex.bl_value() != value);
        }
    }
}

impl From<u32> for FontStringId {
    fn from(val: u32) -> (r: FontStringId) {
        if val == 0 {
            FontStringId::CopyrightNotice
        } else if val == 1 {
            FontStringId::FamilyName
        } else if val == 2 {
            FontStringId::SubfamilyName
        } else if val == 3 {
            FontStringId::UniqueIdentifier
        } else if val == 4 {
            FontStringId::FullName
        } else if val == 5 {
            FontStringId::VersionString
        } else if val == 6 {
            FontStringId::PostScriptName
        } else if val == 7 {
            FontStringId::Trademark
        } else if val == 8 {
            FontStringId::ManufacturerName
        } else if val == 9 {
            FontStringId::DesignerName
        } else if val == 10 {
            FontStringId::Description
        } else if val == 11 {
            FontStringId::VendorUrl
        } else if val == 12 {
            FontStringId::DesignerUrl
        } else if val == 13 {
            FontStringId::LicenseDescription
        } else if val == 14 {
            FontStringId::LicenseInfoUrl
        } else if val == 15 {
            FontStringId::Reserved
        } else if val == 16 {
            FontStringId::TypographicsFamilyName
        } else if val == 17 {
            FontStringId::TypographicsSubfamilyName
        } else if val == 18 {
            FontStringId::CompatibleFullname
        } else if val == 19 {
            FontStringId::SampleText
        } else if val == 20 {
            FontStringId::PostScriptCidName
        } else if val == 21 {
            FontStringId::WwsFamilyName
        } else if val == 22 {
            FontStringId::WwsSubfamilyName
        } else if val == 23 {
            FontStringId::LightBackgroundPalette
        } else if val == 24 {
            FontStringId::DarkBackgroundPalette
        } else if val == 25 {
            FontStringId::VariationsPostScriptPrefix
        } else if val == 26 {
            FontStringId::CommonCount
        } else if val == 255 {
            FontStringId::CustomStartIndex
        } else {
            FontStringId::Reserved
        }
    }
}

impl vstd::std_specs::convert::FromSpecImpl<u32> for FontStringId {
    open spec fn obeys_from_spec() -> bool {
        true
    }

    open spec fn from_spec(val: u32) -> FontStringId {
        FontStringId::from_bl_value(val)
    }
}

impl From<FontStringId> for u32 {
    fn from(val: FontStringId) -> (r: u32) {
        match val {
            FontStringId::CopyrightNotice => 0,
            FontStringId::FamilyName => 1,
            FontStringId::SubfamilyName => 2,
            FontStringId::UniqueIdentifier => 3,
            FontStringId::FullName => 4,
            FontStringId::VersionString => 5,
            FontStringId::PostScriptName => 6,
            FontStringId::Trademark => 7,
            FontStringId::ManufacturerName => 8,
            FontStringId::DesignerName => 9,
            FontStringId::Description => 10,
            FontStringId::VendorUrl => 11,
            FontStringId::DesignerUrl => 12,
            FontStringId::LicenseDescription => 13,
            FontStringId::LicenseInfoUrl => 14,
            FontStringId::Reserved => 15,
            FontStringId::TypographicsFamilyName => 16,
            FontStringId::TypographicsSubfamilyName => 17,
            FontStringId::CompatibleFullname => 18,
            FontStringId::SampleText => 19,
            FontStringId::PostScriptCidName => 20,
            FontStringId::WwsFamilyName => 21,
            FontStringId::WwsSubfamilyName => 22,
            FontStringId::LightBackgroundPalette => 23,
            FontStringId::DarkBackgroundPalette => 24,
            FontStringId::VariationsPostScriptPrefix => 25,
            FontStringId::CommonCount => 26,
            FontStringId::CustomStartIndex => 255,
        }
    }
}

impl vstd::std_specs::convert::FromSpecImpl<FontStringId> for u32 {
    open spec fn obeys_from_spec() -> bool {
        true
    }

    open spec fn from_spec(val: FontStringId) -> u32 {
        val.bl_value()
    }
}

impl Default for FontStringId {
    fn default() -> (r: FontStringId)
        ensures
            r == FontStringId::Reserved,
    {
        FontStringId::Reserved
    }
}

/// Text direction.
#[derive(Clone, Copy, Debug, PartialEq, Eq, PartialOrd)]
pub enum TextDirection {
    Ltr,
    Rtl,
}

impl TextDirection {
    /// The value blend2d uses for this variant.
    pub open spec fn bl_value(self) -> u32 {
        match self {
            TextDirection::Ltr => 0,
            TextDirection::Rtl => 1,
        }
    }

    /// Looks a blend2d value up: the variant that has it, or the default
    /// variant for a value that no variant has.
    pub open spec fn from_bl_value(value: u32) -> TextDirection {
        if value == 0 {
            TextDirection::Ltr
        } else if value == 1 {
            TextDirection::Rtl
        } else {
            TextDirection::Ltr
        }
    }

    /// Distinct variants have distinct blend2d values.
    pub proof fn lemma_bl_value_injective(a: TextDirection, b: TextDirection)
        requires
            a.bl_value() == b.bl_value(),
        ensures
            a == b,
    {
    }

    /// Converting a variant to its blend2d value and back gives the same variant.
    pub proof fn lemma_value_roundtrip(self)
        ensures
            TextDirection::from_bl_value(self.bl_value()) == self,
    {
    }

    /// Looking a value up gives the variant that has it, and the default
    /// variant exactly where no variant has it.
    pub proof fn lemma_from_bl_value(value: u32)
        ensures
            (exists|v: TextDirection| v.bl_value() == value) ==> TextDirection::from_bl_value(value).bl_value() == value,
            (forall|v: TextDirection| v.bl_value() != value) ==> TextDirection::from_bl_value(value) == TextDirection::Ltr,
    {
        if forall|v: TextDirection| v.bl_value() != value {
            assert(TextDirection::Ltr.bl_value() != value);
            assert(TextDirection::Rtl.bl_value() != value);
        }
    }
}

impl From<u32> for TextDirection {
    fn from(val: u32) -> (r: TextDirection) {
        if val == 0 {
            TextDirection::Ltr
        } else if val == 1 {
            TextDirection::Rtl
        } else {
            TextDirection::Ltr
        }
    }
}

impl vstd::std_specs::convert::FromSpecImpl<u32> for TextDirection {
    open spec fn obeys_from_spec() -> bool {
        true
    }

    open spec fn from_spec(val: u32) -> TextDirection {
        TextDirection::from_bl_value(val)
    }
}

impl From<TextDirection> for u32 {
    fn from(val: TextDirection) -> (r: u32) {
        match val {
            TextDirection::Ltr => 0,
            TextDirection::Rtl => 1,
        }
    }
}

impl vstd::std_specs::convert::FromSpecImpl<TextDirection> for u32 {
    open spec fn obeys_from_spec() -> bool {
        true
    }

    open spec fn from_spec(val: TextDirection) -> u32 {
        val.bl_value()
    }
}

impl Default for TextDirection {
    fn default() -> (r: TextDirection)
        ensures
            r == TextDirection::Ltr,
    {
        TextDirection::Ltr
    }
}

/// Text orientation.
#[derive(Clone, Copy, Debug, PartialEq, Eq, PartialOrd)]
pub enum TextOrientation {
    Horizontal,
    Vertical,
}

impl TextOrientation {
    /// The value blend2d uses for this variant.
    pub open spec fn bl_value(self) -> u32 {
        match self {
            TextOrientation::Horizontal => 0,
            TextOrientation::Vertical => 1,
        }
    }

    /// Looks a blend2d value up: the variant that has it, or the default
    /// variant for a value that no variant has.
    pub open spec fn from_bl_value(value: u32) -> TextOrientation {
        if value == 0 {
            TextOrientation::Horizontal
        } else if value == 1 {
            TextOrientation::Vertical
        } else {
            TextOrientation::Horizontal
        }
    }

    /// Distinct variants have distinct blend2d values.
    pub proof fn lemma_bl_value_injective(a: TextOrientation, b: TextOrientation)
        requires
            a.bl_value() == b.bl_value(),
        ensures
            a == b,
    {
    }

    /// Converting a variant to its blend2d value and back gives the same variant.
    pub proof fn lemma_value_roundtrip(self)
        ensures
            TextOrientation::from_bl_value(self.bl_value()) == self,
    {
    }

    /// Looking a value up gives the variant that has it, and the default
    /// variant exactly where no variant has it.
    pub proof fn lemma_from_bl_value(value: u32)
        ensures
            (exists|v: TextOrientation| v.bl_value() == value) ==> TextOrientation::from_bl_value(value).bl_value() == value,
            (forall|v: TextOrientation| v.bl_value() != value) ==> TextOrientation::from_bl_value(value) == TextOrientation::Horizontal,
    {
        if forall|v: TextOrientation| v.bl_value() != value {
            assert(TextOrientation::Horizontal.bl_value() != value);
            assert(TextOrientation::Vertical.bl_value() != value);
        }
    }
}

impl From<u32> for TextOrientation {
    fn from(val: u32) -> (r: TextOrientation) {
        if val == 0 {
            TextOrientation::Horizontal
        } else if val == 1 {
            TextOrientation::Vertical
        } else {
            TextOrientation::Horizontal
        }
    }
}

impl vstd::std_specs::convert::FromSpecImpl<u32> for TextOrientation {
    open spec fn obeys_from_spec() -> bool {
        true
    }

    open spec fn from_spec(val: u32) -> TextOrientation {
        TextOrientation::from_bl_value(val)
    }
}

impl From<TextOrientation> for u32 {
    fn from(val: TextOrientation) -> (r: u32) {
        match val {
            TextOrientation::Horizontal => 0,
            TextOrientation::Vertical => 1,
        }
    }
}

impl vstd::std_specs::convert::FromSpecImpl<TextOrientation> for u32 {
    open spec fn obeys_from_spec() -> bool {
        true
    }

    open spec fn from_spec(val: TextOrientation) -> u32 {
        val.bl_value()
    }
}

impl Default for TextOrientation {
    fn default() -> (r: TextOrientation)
        ensures
            r == TextOrientation::Horizontal,
    {
        TextOrientation::Horizontal
    }
}

/// Flags of a glyph item.
#[derive(Clone, Copy, Debug, PartialEq, Eq, PartialOrd, Ord, Hash)]
pub struct GlyphItemFlags {
    bits: u32,
}

impl View for GlyphItemFlags {
    type V = u32;

    /// The bits of the flag set.
    closed spec fn view(&self) -> u32 {
        self.bits
    }
}

impl GlyphItemFlags {
    pub const MARK: u32 = 0x8000_0000;

    /// The bits of all flags of this set.
    pub open spec fn all_bits() -> u32 {
        0x8000_0000
    }

    /// A flag set holds no bit that names no flag.
    #[verifier::type_invariant]
    spec fn holds_known_bits(self) -> bool {
        self.bits & !Self::all_bits() == 0
    }

    /// Two flag sets with the same bits are the same set.
    pub proof fn lemma_view_injective(a: Self, b: Self)
        requires
            a@ == b@,
        ensures
            a == b,
    {
    }

    /// The empty flag set.
    pub fn empty() -> (r: Self)
        ensures
            r@ == 0,
    {
        proof {
            lemma_zero_within(Self::all_bits());
        }
        GlyphItemFlags { bits: 0 }
    }

    /// The flag set holding every flag.
    pub fn all() -> (r: Self)
        ensures
            r@ == Self::all_bits(),
    {
        proof {
            lemma_self_within(Self::all_bits());
        }
        GlyphItemFlags { bits: 0x8000_0000 }
    }

    /// The raw bits of the flag set; they name known flags only.
    pub fn bits(&self) -> (r: u32)
        ensures
            r == self@,
            r & !Self::all_bits() == 0,
    {
        proof {
            use_type_invariant(self);
        }
        self.bits
    }

    /// The flag set with the given bits, or `None` where a bit names no flag.
    pub fn from_bits(bits: u32) -> (r: Option<Self>)
        ensures
            r is Some <==> bits & !Self::all_bits() == 0,
            r matches Some(f) ==> f@ == bits,
    {
        if bits & !0x8000_0000 == 0 {
            Some(GlyphItemFlags { bits })
        } else {
            None
        }
    }

    /// The flag set with the given bits, dropping bits that name no flag.
    pub fn from_bits_truncate(bits: u32) -> (r: Self)
        ensures
            r@ == bits & Self::all_bits(),
    {
        proof {
            lemma_mask_within(bits, Self::all_bits());
        }
        GlyphItemFlags { bits: bits & 0x8000_0000 }
    }

    /// Whether no flag is set.
    pub fn is_empty(&self) -> (r: bool)
        ensures
            r == (self@ == 0),
    {
        self.bits == 0
    }

    /// Whether every flag is set.
    pub fn is_all(&self) -> (r: bool)
        ensures
            r == (self@ == Self::all_bits()),
    {
        self.bits == 0x8000_0000
    }

    /// Whether the two sets share a flag.
    pub fn intersects(&self, other: Self) -> (r: bool)
        ensures
            r == (self@ & other@ != 0),
    {
        self.bits & other.bits != 0
    }

    /// Whether every flag of `other` is set here.
    pub fn contains(&self, other: Self) -> (r: bool)
        ensures
            r == (self@ & other@ == other@),
    {
        self.bits & other.bits == other.bits
    }

    /// Sets the flags of `other`.
    pub fn insert(&mut self, other: Self)
        ensures
            final(self)@ == old(self)@ | other@,
    {
        proof {
            use_type_invariant(&*self);
            use_type_invariant(&other);
            lemma_or_within(self.bits, other.bits, Self::all_bits());
        }
        self.bits = self.bits | other.bits;
    }

    /// Clears the flags of `other`.
    pub fn remove(&mut self, other: Self)
        ensures
            final(self)@ == old(self)@ & !other@,
    {
        proof {
            use_type_invariant(&*self);
            lemma_and_not_within(self.bits, other.bits, Self::all_bits());
        }
        self.bits = self.bits & !other.bits;
    }

    /// Flips the flags of `other`.
    pub fn toggle(&mut self, other: Self)
        ensures
            final(self)@ == old(self)@ ^ other@,
    {
        proof {
            use_type_invariant(&*self);
            use_type_invariant(&other);
            lemma_xor_within(self.bits, other.bits, Self::all_bits());
        }
        self.bits = self.bits ^ other.bits;
    }

    /// Sets the flags of `other` where `value` holds and clears them otherwise.
    pub fn set(&mut self, other: Self, value: bool)
        ensures
            value ==> final(self)@ == old(self)@ | other@,
            !value ==> final(self)@ == old(self)@ & !other@,
    {
        if value {
            self.insert(other);
        } else {
            self.remove(other);
        }
    }
}

impl core::ops::BitOr for GlyphItemFlags {
    type Output = Self;

    /// The flags set in either set.
    fn bitor(self, rhs: Self) -> (r: Self)
        ensures
            r@ == self@ | rhs@,
    {
        proof {
            use_type_invariant(&self);
            use_type_invariant(&rhs);
            lemma_or_within(self.bits, rhs.bits, Self::all_bits());
        }
        GlyphItemFlags { bits: self.bits | rhs.bits }
    }
}

impl vstd::std_specs::ops::BitOrSpecImpl for GlyphItemFlags {
    open spec fn obeys_bitor_spec() -> bool {
        true
    }

    open spec fn bitor_req(self, rhs: Self) -> bool {
        true
    }

    closed spec fn bitor_spec(self, rhs: Self) -> Self {
        GlyphItemFlags { bits: self.bits | rhs.bits }
    }
}

impl core::ops::BitAnd for GlyphItemFlags {
    type Output = Self;

    /// The flags set in both sets.
    fn bitand(self, rhs: Self) -> (r: Self)
        ensures
            r@ == self@ & rhs@,
    {
        proof {
            use_type_invariant(&self);
            lemma_and_within(self.bits, rhs.bits, Self::all_bits());
        }
        GlyphItemFlags { bits: self.bits & rhs.bits }
    }
}

impl vstd::std_specs::ops::BitAndSpecImpl for GlyphItemFlags {
    open spec fn obeys_bitand_spec() -> bool {
        true
    }

    open spec fn bitand_req(self, rhs: Self) -> bool {
        true
    }

    closed spec fn bitand_spec(self, rhs: Self) -> Self {
        GlyphItemFlags { bits: self.bits & rhs.bits }
    }
}

impl core::ops::BitXor for GlyphItemFlags {
    type Output = Self;

    /// The flags set in exactly one of the sets.
    fn bitxor(self, rhs: Self) -> (r: Self)
        ensures
            r@ == self@ ^ rhs@,
    {
        proof {
            use_type_invariant(&self);
            use_type_invariant(&rhs);
            lemma_xor_within(self.bits, rhs.bits, Self::all_bits());
        }
        GlyphItemFlags { bits: self.bits ^ rhs.bits }
    }
}

impl vstd::std_specs::ops::BitXorSpecImpl for GlyphItemFlags {
    open spec fn obeys_bitxor_spec() -> bool {
        true
    }

    open spec fn bitxor_req(self, rhs: Self) -> bool {
        true
    }

    closed spec fn bitxor_spec(self, rhs: Self) -> Self {
        GlyphItemFlags { bits: self.bits ^ rhs.bits }
    }
}

impl core::ops::Sub for GlyphItemFlags {
    type Output = Self;

    /// The flags set here and not in `rhs`.
    fn sub(self, rhs: Self) -> (r: Self)
        ensures
            r@ == self@ & !rhs@,
    {
        proof {
            use_type_invariant(&self);
            lemma_and_not_within(self.bits, rhs.bits, Self::all_bits());
        }
        GlyphItemFlags { bits: self.bits & !rhs.bits }
    }
}

impl vstd::std_specs::ops::SubSpecImpl for GlyphItemFlags {
    open spec fn obeys_sub_spec() -> bool {
        true
    }

    open spec fn sub_req(self, rhs: Self) -> bool {
        true
    }

    closed spec fn sub_spec(self, rhs: Self) -> Self {
        GlyphItemFlags { bits: self.bits & !rhs.bits }
    }
}

impl core::ops::Not for GlyphItemFlags {
    type Output = Self;

    /// The known flags that are not set here.
    fn not(self) -> (r: Self)
        ensures
            r@ == !self@ & Self::all_bits(),
    {
        proof {
            lemma_mask_within(!self.bits, Self::all_bits());
        }
        GlyphItemFlags { bits: !self.bits & 0x8000_0000 }
    }
}

impl vstd::std_specs::ops::NotSpecImpl for GlyphItemFlags {
    open spec fn obeys_not_spec() -> bool {
        true
    }

    open spec fn not_req(self) -> bool {
        true
    }

    closed spec fn not_spec(self) -> Self {
        GlyphItemFlags { bits: !self.bits & Self::all_bits() }
    }
}

/// Flags of a glyph run.
#[derive(Clone, Copy, Debug, PartialEq, Eq, PartialOrd, Ord, Hash)]
pub struct GlyphRunFlags {
    bits: u32,
}

impl View for GlyphRunFlags {
    type V = u32;

    /// The bits of the flag set.
    closed spec fn view(&self) -> u32 {
        self.bits
    }
}

impl GlyphRunFlags {
    pub const UCS4_CONTENT: u32 = 0x1000_0000;
    pub const INVALID_TEXT: u32 = 0x2000_0000;
    pub const UNDEFINED_GLYPHS: u32 = 0x4000_0000;
    pub const INVALID_FONT_DATA: u32 = 0x8000_0000;

    /// The bits of all flags of this set.
    pub open spec fn all_bits() -> u32 {
        0xF000_0000
    }

    /// A flag set holds no bit that names no flag.
    #[verifier::type_invariant]
    spec fn holds_known_bits(self) -> bool {
        self.bits & !Self::all_bits() == 0
    }

    /// Two flag sets with the same bits are the same set.
    pub proof fn lemma_view_injective(a: Self, b: Self)
        requires
            a@ == b@,
        ensures
            a == b,
    {
    }

    /// The empty flag set.
    pub fn empty() -> (r: Self)
        ensures
            r@ == 0,
    {
        proof {
            lemma_zero_within(Self::all_bits());
        }
        GlyphRunFlags { bits: 0 }
    }

    /// The flag set holding every flag.
    pub fn all() -> (r: Self)
        ensures
            r@ == Self::all_bits(),
    {
        proof {
            lemma_self_within(Self::all_bits());
        }
        GlyphRunFlags { bits: 0xF000_0000 }
    }

    /// The raw bits of the flag set; they name known flags only.
    pub fn bits(&self) -> (r: u32)
        ensures
            r == self@,
            r & !Self::all_bits() == 0,
    {
        proof {
            use_type_invariant(self);
        }
        self.bits
    }

    /// The flag set with the given bits, or `None` where a bit names no flag.
    pub fn from_bits(bits: u32) -> (r: Option<Self>)
        ensures
            r is Some <==> bits & !Self::all_bits() == 0,
            r matches Some(f) ==> f@ == bits,
    {
        if bits & !0xF000_0000 == 0 {
            Some(GlyphRunFlags { bits })
        } else {
            None
        }
    }

    /// The flag set with the given bits, dropping bits that name no flag.
    pub fn from_bits_truncate(bits: u32) -> (r: Self)
        ensures
            r@ == bits & Self::all_bits(),
    {
        proof {
            lemma_mask_within(bits, Self::all_bits());
        }
        GlyphRunFlags { bits: bits & 0xF000_0000 }
    }

    /// Whether no flag is set.
    pub fn is_empty(&self) -> (r: bool)
        ensures
            r == (self@ == 0),
    {
        self.bits == 0
    }

    /// Whether every flag is set.
    pub fn is_all(&self) -> (r: bool)
        ensures
            r == (self@ == Self::all_bits()),
    {
        self.bits == 0xF000_0000
    }

    /// Whether the two sets share a flag.
    pub fn intersects(&self, other: Self) -> (r: bool)
        ensures
            r == (self@ & other@ != 0),
    {
        self.bits & other.bits != 0
    }

    /// Whether every flag of `other` is set here.
    pub fn contains(&self, other: Self) -> (r: bool)
        ensures
            r == (self@ & other@ == other@),
    {
        self.bits & other.bits == other.bits
    }

    /// Sets the flags of `other`.
    pub fn insert(&mut self, other: Self)
        ensures
            final(self)@ == old(self)@ | other@,
    {
        proof {
            use_type_invariant(&*self);
            use_type_invariant(&other);
            lemma_or_within(self.bits, other.bits, Self::all_bits());
        }
        self.bits = self.bits | other.bits;
    }

    /// Clears the flags of `other`.
    pub fn remove(&mut self, other: Self)
        ensures
            final(self)@ == old(self)@ & !other@,
    {
        proof {
            use_type_invariant(&*self);
            lemma_and_not_within(self.bits, other.bits, Self::all_bits());
        }
        self.bits = self.bits & !other.bits;
    }

    /// Flips the flags of `other`.
    pub fn toggle(&mut self, other: Self)
        ensures
            final(self)@ == old(self)@ ^ other@,
    {
        proof {
            use_type_invariant(&*self);
            use_type_invariant(&other);
            lemma_xor_within(self.bits, other.bits, Self::all_bits());
        }
        self.bits = self.bits ^ other.bits;
    }

    /// Sets the flags of `other` where `value` holds and clears them otherwise.
    pub fn set(&mut self, other: Self, value: bool)
        ensures
            value ==> final(self)@ == old(self)@ | other@,
            !value ==> final(self)@ == old(self)@ & !other@,
    {
        if value {
            self.insert(other);
        } else {
            self.remove(other);
        }
    }
}

impl core::ops::BitOr for GlyphRunFlags {
    type Output = Self;

    /// The flags set in either set.
    fn bitor(self, rhs: Self) -> (r: Self)
        ensures
            r@ == self@ | rhs@,
    {
        proof {
            use_type_invariant(&self);
            use_type_invariant(&rhs);
            lemma_or_within(self.bits, rhs.bits, Self::all_bits());
        }
        GlyphRunFlags { bits: self.bits | rhs.bits }
    }
}

impl vstd::std_specs::ops::BitOrSpecImpl for GlyphRunFlags {
    open spec fn obeys_bitor_spec() -> bool {
        true
    }

    open spec fn bitor_req(self, rhs: Self) -> bool {
        true
    }

    closed spec fn bitor_spec(self, rhs: Self) -> Self {
        GlyphRunFlags { bits: self.bits | rhs.bits }
    }
}

impl core::ops::BitAnd for GlyphRunFlags {
    type Output = Self;

    /// The flags set in both sets.
    fn bitand(self, rhs: Self) -> (r: Self)
        ensures
            r@ == self@ & rhs@,
    {
        proof {
            use_type_invariant(&self);
            lemma_and_within(self.bits, rhs.bits, Self::all_bits());
        }
        GlyphRunFlags { bits: self.bits & rhs.bits }
    }
}

impl vstd::std_specs::ops::BitAndSpecImpl for GlyphRunFlags {
    open spec fn obeys_bitand_spec() -> bool {
        true
    }

    open spec fn bitand_req(self, rhs: Self) -> bool {
        true
    }

    closed spec fn bitand_spec(self, rhs: Self) -> Self {
        GlyphRunFlags { bits: self.bits & rhs.bits }
    }
}

impl core::ops::BitXor for GlyphRunFlags {
    type Output = Self;

    /// The flags set in exactly one of the sets.
    fn bitxor(self, rhs: Self) -> (r: Self)
        ensures
            r@ == self@ ^ rhs@,
    {
        proof {
            use_type_invariant(&self);
            use_type_invariant(&rhs);
            lemma_xor_within(self.bits, rhs.bits, Self::all_bits());
        }
        GlyphRunFlags { bits: self.bits ^ rhs.bits }
    }
}

impl vstd::std_specs::ops::BitXorSpecImpl for GlyphRunFlags {
    open spec fn obeys_bitxor_spec() -> bool {
        true
    }

    open spec fn bitxor_req(self, rhs: Self) -> bool {
        true
    }

    closed spec fn bitxor_spec(self, rhs: Self) -> Self {
        GlyphRunFlags { bits: self.bits ^ rhs.bits }
    }
}

impl core::ops::Sub for GlyphRunFlags {
    type Output = Self;

    /// The flags set here and not in `rhs`.
    fn sub(self, rhs: Self) -> (r: Self)
        ensures
            r@ == self@ & !rhs@,
    {
        proof {
            use_type_invariant(&self);
            lemma_and_not_within(self.bits, rhs.bits, Self::all_bits());
        }
        GlyphRunFlags { bits: self.bits & !rhs.bits }
    }
}

impl vstd::std_specs::ops::SubSpecImpl for GlyphRunFlags {
    open spec fn obeys_sub_spec() -> bool {
        true
    }

    open spec fn sub_req(self, rhs: Self) -> bool {
        true
    }

    closed spec fn sub_spec(self, rhs: Self) -> Self {
        GlyphRunFlags { bits: self.bits & !rhs.bits }
    }
}

impl core::ops::Not for GlyphRunFlags {
    type Output = Self;

    /// The known flags that are not set here.
    fn not(self) -> (r: Self)
        ensures
            r@ == !self@ & Self::all_bits(),
    {
        proof {
            lemma_mask_within(!self.bits, Self::all_bits());
        }
        GlyphRunFlags { bits: !self.bits & 0xF000_0000 }
    }
}

impl vstd::std_specs::ops::NotSpecImpl for GlyphRunFlags {
    open spec fn obeys_not_spec() -> bool {
        true
    }

    open spec fn not_req(self) -> bool {
        true
    }

    closed spec fn not_spec(self) -> Self {
        GlyphRunFlags { bits: !self.bits & Self::all_bits() }
    }
}

/// Flags of a font face.
#[derive(Clone, Copy, Debug, PartialEq, Eq, PartialOrd, Ord, Hash)]
pub struct FontFaceFlags {
    bits: u32,
}

impl View for FontFaceFlags {
    type V = u32;

    /// The bits of the flag set.
    closed spec fn view(&self) -> u32 {
        self.bits
    }
}

impl FontFaceFlags {
    pub const TYPOGRAPHIC_NAMES: u32 = 1;
    pub const TYPOGRAPHIC_METRICS: u32 = 2;
    pub const CHAR_TO_GLYPH_MAPPING: u32 = 4;
    pub const HORIZONTAL_METIRCS: u32 = 0x10;
    pub const VERTICAL_METRICS: u32 = 0x20;
    pub const HORIZONTAL_KERNING: u32 = 0x40;
    pub const VERTICAL_KERNING: u32 = 0x80;
    pub const OPENTYPE_FEATURES: u32 = 0x100;
    pub const PANOSE_DATA: u32 = 0x200;
    pub const UNICODE_COVERAGE: u32 = 0x400;
    pub const BASELINE_Y_EQUALS_0: u32 = 0x1000;
    pub const LSB_POINT_X_EQUALS_0: u32 = 0x2000;
    pub const VARIATION_SEQUENCES: u32 = 0x1000_0000;
    pub const OPENTYPE_VARIATIONS: u32 = 0x2000_0000;
    pub const SYMBOL_FONT: u32 = 0x4000_0000;
    pub const LAST_RESORT_FONT: u32 = 0x8000_0000;

    /// The bits of all flags of this set.
    pub open spec fn all_bits() -> u32 {
        0xF000_37F7
    }

    /// A flag set holds no bit that names no flag.
    #[verifier::type_invariant]
    spec fn holds_known_bits(self) -> bool {
        self.bits & !Self::all_bits() == 0
    }

    /// Two flag sets with the same bits are the same set.
    pub proof fn lemma_view_injective(a: Self, b: Self)
        requires
            a@ == b@,
        ensures
            a == b,
    {
    }

    /// The empty flag set.
    pub fn empty() -> (r: Self)
        ensures
            r@ == 0,
    {
        proof {
            lemma_zero_within(Self::all_bits());
        }
        FontFaceFlags { bits: 0 }
    }

    /// The flag set holding every flag.
    pub fn all() -> (r: Self)
        ensures
            r@ == Self::all_bits(),
    {
        proof {
            lemma_self_within(Self::all_bits());
        }
        FontFaceFlags { bits: 0xF000_37F7 }
    }

    /// The raw bits of the flag set; they name known flags only.
    pub fn bits(&self) -> (r: u32)
        ensures
            r == self@,
            r & !Self::all_bits() == 0,
    {
        proof {
            use_type_invariant(self);
        }
        self.bits
    }

    /// The flag set with the given bits, or `None` where a bit names no flag.
    pub fn from_bits(bits: u32) -> (r: Option<Self>)
        ensures
            r is Some <==> bits & !Self::all_bits() == 0,
            r matches Some(f) ==> f@ == bits,
    {
        if bits & !0xF000_37F7 == 0 {
            Some(FontFaceFlags { bits })
        } else {
            None
        }
    }

    /// The flag set with the given bits, dropping bits that name no flag.
    pub fn from_bits_truncate(bits: u32) -> (r: Self)
        ensures
            r@ == bits & Self::all_bits(),
    {
        proof {
            lemma_mask_within(bits, Self::all_bits());
        }
        FontFaceFlags { bits: bits & 0xF000_37F7 }
    }

    /// Whether no flag is set.
    pub fn is_empty(&self) -> (r: bool)
        ensures
            r == (self@ == 0),
    {
        self.bits == 0
    }

    /// Whether every flag is set.
    pub fn is_all(&self) -> (r: bool)
        ensures
            r == (self@ == Self::all_bits()),
    {
        self.bits == 0xF000_37F7
    }

    /// Whether the two sets share a flag.
    pub fn intersects(&self, other: Self) -> (r: bool)
        ensures
            r == (self@ & other@ != 0),
    {
        self.bits & other.bits != 0
    }

    /// Whether every flag of `other` is set here.
    pub fn contains(&self, other: Self) -> (r: bool)
        ensures
            r == (self@ & other@ == other@),
    {
        self.bits & other.bits == other.bits
    }

    /// Sets the flags of `other`.
    pub fn insert(&mut self, other: Self)
        ensures
            final(self)@ == old(self)@ | other@,
    {
        proof {
            use_type_invariant(&*self);
            use_type_invariant(&other);
            lemma_or_within(self.bits, other.bits, Self::all_bits());
        }
        self.bits = self.bits | other.bits;
    }

    /// Clears the flags of `other`.
    pub fn remove(&mut self, other: Self)
        ensures
            final(self)@ == old(self)@ & !other@,
    {
        proof {
            use_type_invariant(&*self);
            lemma_and_not_within(self.bits, other.bits, Self::all_bits());
        }
        self.bits = self.bits & !other.bits;
    }

    /// Flips the flags of `other`.
    pub fn toggle(&mut self, other: Self)
        ensures
            final(self)@ == old(self)@ ^ other@,
    {
        proof {
            use_type_invariant(&*self);
            use_type_invariant(&other);
            lemma_xor_within(self.bits, other.bits, Self::all_bits());
        }
        self.bits = self.bits ^ other.bits;
    }

    /// Sets the flags of `other` where `value` holds and clears them otherwise.
    pub fn set(&mut self, other: Self, value: bool)
        ensures
            value ==> final(self)@ == old(self)@ | other@,
            !value ==> final(self)@ == old(self)@ & !other@,
    {
        if value {
            self.insert(other);
        } else {
            self.remove(other);
        }
    }
}

impl core::ops::BitOr for FontFaceFlags {
    type Output = Self;

    /// The flags set in either set.
    fn bitor(self, rhs: Self) -> (r: Self)
        ensures
            r@ == self@ | rhs@,
    {
        proof {
            use_type_invariant(&self);
            use_type_invariant(&rhs);
            lemma_or_within(self.bits, rhs.bits, Self::all_bits());
        }
        FontFaceFlags { bits: self.bits | rhs.bits }
    }
}

impl vstd::std_specs::ops::BitOrSpecImpl for FontFaceFlags {
    open spec fn obeys_bitor_spec() -> bool {
        true
    }

    open spec fn bitor_req(self, rhs: Self) -> bool {
        true
    }

    closed spec fn bitor_spec(self, rhs: Self) -> Self {
        FontFaceFlags { bits: self.bits | rhs.bits }
    }
}

impl core::ops::BitAnd for FontFaceFlags {
    type Output = Self;

    /// The flags set in both sets.
    fn bitand(self, rhs: Self) -> (r: Self)
        ensures
            r@ == self@ & rhs@,
    {
        proof {
            use_type_invariant(&self);
            lemma_and_within(self.bits, rhs.bits, Self::all_bits());
        }
        FontFaceFlags { bits: self.bits & rhs.bits }
    }
}

impl vstd::std_specs::ops::BitAndSpecImpl for FontFaceFlags {
    open spec fn obeys_bitand_spec() -> bool {
        true
    }

    open spec fn bitand_req(self, rhs: Self) -> bool {
        true
    }

    closed spec fn bitand_spec(self, rhs: Self) -> Self {
        FontFaceFlags { bits: self.bits & rhs.bits }
    }
}

impl core::ops::BitXor for FontFaceFlags {
    type Output = Self;

    /// The flags set in exactly one of the sets.
    fn bitxor(self, rhs: Self) -> (r: Self)
        ensures
            r@ == self@ ^ rhs@,
    {
        proof {
            use_type_invariant(&self);
            use_type_invariant(&rhs);
            lemma_xor_within(self.bits, rhs.bits, Self::all_bits());
        }
        FontFaceFlags { bits: self.bits ^ rhs.bits }
    }
}

impl vstd::std_specs::ops::BitXorSpecImpl for FontFaceFlags {
    open spec fn obeys_bitxor_spec() -> bool {
        true
    }

    open spec fn bitxor_req(self, rhs: Self) -> bool {
        true
    }

    closed spec fn bitxor_spec(self, rhs: Self) -> Self {
        FontFaceFlags { bits: self.bits ^ rhs.bits }
    }
}

impl core::ops::Sub for FontFaceFlags {
    type Output = Self;

    /// The flags set here and not in `rhs`.
    fn sub(self, rhs: Self) -> (r: Self)
        ensures
            r@ == self@ & !rhs@,
    {
        proof {
            use_type_invariant(&self);
            lemma_and_not_within(self.bits, rhs.bits, Self::all_bits());
        }
        FontFaceFlags { bits: self.bits & !rhs.bits }
    }
}

impl vstd::std_specs::ops::SubSpecImpl for FontFaceFlags {
    open spec fn obeys_sub_spec() -> bool {
        true
    }

    open spec fn sub_req(self, rhs: Self) -> bool {
        true
    }

    closed spec fn sub_spec(self, rhs: Self) -> Self {
        FontFaceFlags { bits: self.bits & !rhs.bits }
    }
}

impl core::ops::Not for FontFaceFlags {
    type Output = Self;

    /// The known flags that are not set here.
    fn not(self) -> (r: Self)
        ensures
            r@ == !self@ & Self::all_bits(),
    {
        proof {
            lemma_mask_within(!self.bits, Self::all_bits());
        }
        FontFaceFlags { bits: !self.bits & 0xF000_37F7 }
    }
}

impl vstd::std_specs::ops::NotSpecImpl for FontFaceFlags {
    open spec fn obeys_not_spec() -> bool {
        true
    }

    open spec fn not_req(self) -> bool {
        true
    }

    closed spec fn not_spec(self) -> Self {
        FontFaceFlags { bits: !self.bits & Self::all_bits() }
    }
}

/// Diagnostic flags of a font face.
#[derive(Clone, Copy, Debug, PartialEq, Eq, PartialOrd, Ord, Hash)]
pub struct FontFaceDiagFlags {
    bits: u32,
}

impl View for FontFaceDiagFlags {
    type V = u32;

    /// The bits of the flag set.
    closed spec fn view(&self) -> u32 {
        self.bits
    }
}

impl FontFaceDiagFlags {
    pub const WRONG_NAME_DATA: u32 = 1;
    pub const FIXED_NAME_DATA: u32 = 2;
    pub const WRONG_KERN_DATA: u32 = 4;
    pub const FIXED_KERN_DATA: u32 = 8;
    pub const WRONG_CMAP_DATA: u32 = 0x10;
    pub const WRONG_CMAP_FORMAT: u32 = 0x20;
    pub const WRONG_GDEF_DATA: u32 = 0x100;
    pub const WRONG_GPOS_DATA: u32 = 0x400;
    pub const WRONG_GSUB_DATA: u32 = 0x1000;

    /// The bits of all flags of this set.
    pub open spec fn all_bits() -> u32 {
        0x153F
    }

    /// A flag set holds no bit that names no flag.
    #[verifier::type_invariant]
    spec fn holds_known_bits(self) -> bool {
        self.bits & !Self::all_bits() == 0
    }

    /// Two flag sets with the same bits are the same set.
    pub proof fn lemma_view_injective(a: Self, b: Self)
        requires
            a@ == b@,
        ensures
            a == b,
    {
    }

    /// The empty flag set.
    pub fn empty() -> (r: Self)
        ensures
            r@ == 0,
    {
        proof {
            lemma_zero_within(Self::all_bits());
        }
        FontFaceDiagFlags { bits: 0 }
    }

    /// The flag set holding every flag.
    pub fn all() -> (r: Self)
        ensures
            r@ == Self::all_bits(),
    {
        proof {
            lemma_self_within(Self::all_bits());
        }
        FontFaceDiagFlags { bits: 0x153F }
    }

    /// The raw bits of the flag set; they name known flags only.
    pub fn bits(&self) -> (r: u32)
        ensures
            r == self@,
            r & !Self::all_bits() == 0,
    {
        proof {
            use_type_invariant(self);
        }
        self.bits
    }

    /// The flag set with the given bits, or `None` where a bit names no flag.
    pub fn from_bits(bits: u32) -> (r: Option<Self>)
        ensures
            r is Some <==> bits & !Self::all_bits() == 0,
            r matches Some(f) ==> f@ == bits,
    {
        if bits & !0x153F == 0 {
            Some(FontFaceDiagFlags { bits })
        } else {
            None
        }
    }

    /// The flag set with the given bits, dropping bits that name no flag.
    pub fn from_bits_truncate(bits: u32) -> (r: Self)
        ensures
            r@ == bits & Self::all_bits(),
    {
        proof {
            lemma_mask_within(bits, Self::all_bits());
        }
        FontFaceDiagFlags { bits: bits & 0x153F }
    }

    /// Whether no flag is set.
    pub fn is_empty(&self) -> (r: bool)
        ensures
            r == (self@ == 0),
    {
        self.bits == 0
    }

    /// Whether every flag is set.
    pub fn is_all(&self) -> (r: bool)
        ensures
            r == (self@ == Self::all_bits()),
    {
        self.bits == 0x153F
    }

    /// Whether the two sets share a flag.
    pub fn intersects(&self, other: Self) -> (r: bool)
        ensures
            r == (self@ & other@ != 0),
    {
        self.bits & other.bits != 0
    }

    /// Whether every flag of `other` is set here.
    pub fn contains(&self, other: Self) -> (r: bool)
        ensures
            r == (self@ & other@ == other@),
    {
        self.bits & other.bits == other.bits
    }

    /// Sets the flags of `other`.
    pub fn insert(&mut self, other: Self)
        ensures
            final(self)@ == old(self)@ | other@,
    {
        proof {
            use_type_invariant(&*self);
            use_type_invariant(&other);
            lemma_or_within(self.bits, other.bits, Self::all_bits());
        }
        self.bits = self.bits | other.bits;
    }

    /// Clears the flags of `other`.
    pub fn remove(&mut self, other: Self)
        ensures
            final(self)@ == old(self)@ & !other@,
    {
        proof {
            use_type_invariant(&*self);
            lemma_and_not_within(self.bits, other.bits, Self::all_bits());
        }
        self.bits = self.bits & !other.bits;
    }

    /// Flips the flags of `other`.
    pub fn toggle(&mut self, other: Self)
        ensures
            final(self)@ == old(self)@ ^ other@,
    {
        proof {
            use_type_invariant(&*self);
            use_type_invariant(&other);
            lemma_xor_within(self.bits, other.bits, Self::all_bits());
        }
        self.bits = self.bits ^ other.bits;
    }

    /// Sets the flags of `other` where `value` holds and clears them otherwise.
    pub fn set(&mut self, other: Self, value: bool)
        ensures
            value ==> final(self)@ == old(self)@ | other@,
            !value ==> final(self)@ == old(self)@ & !other@,
    {
        if value {
            self.insert(other);
        } else {
            self.remove(other);
        }
    }
}

impl core::ops::BitOr for FontFaceDiagFlags {
    type Output = Self;

    /// The flags set in either set.
    fn bitor(self, rhs: Self) -> (r: Self)
        ensures
            r@ == self@ | rhs@,
    {
        proof {
            use_type_invariant(&self);
            use_type_invariant(&rhs);
            lemma_or_within(self.bits, rhs.bits, Self::all_bits());
        }
        FontFaceDiagFlags { bits: self.bits | rhs.bits }
    }
}

impl vstd::std_specs::ops::BitOrSpecImpl for FontFaceDiagFlags {
    open spec fn obeys_bitor_spec() -> bool {
        true
    }

    open spec fn bitor_req(self, rhs: Self) -> bool {
        true
    }

    closed spec fn bitor_spec(self, rhs: Self) -> Self {
        FontFaceDiagFlags { bits: self.bits | rhs.bits }
    }
}

impl core::ops::BitAnd for FontFaceDiagFlags {
    type Output = Self;

    /// The flags set in both sets.
    fn bitand(self, rhs: Self) -> (r: Self)
        ensures
            r@ == self@ & rhs@,
    {
        proof {
            use_type_invariant(&self);
            lemma_and_within(self.bits, rhs.bits, Self::all_bits());
        }
        FontFaceDiagFlags { bits: self.bits & rhs.bits }
    }
}

impl vstd::std_specs::ops::BitAndSpecImpl for FontFaceDiagFlags {
    open spec fn obeys_bitand_spec() -> bool {
        true
    }

    open spec fn bitand_req(self, rhs: Self) -> bool {
        true
    }

    closed spec fn bitand_spec(self, rhs: Self) -> Self {
        FontFaceDiagFlags { bits: self.bits & rhs.bits }
    }
}

impl core::ops::BitXor for FontFaceDiagFlags {
    type Output = Self;

    /// The flags set in exactly one of the sets.
    fn bitxor(self, rhs: Self) -> (r: Self)
        ensures
            r@ == self@ ^ rhs@,
    {
        proof {
            use_type_invariant(&self);
            use_type_invariant(&rhs);
            lemma_xor_within(self.bits, rhs.bits, Self::all_bits());
        }
        FontFaceDiagFlags { bits: self.bits ^ rhs.bits }
    }
}

impl vstd::std_specs::ops::BitXorSpecImpl for FontFaceDiagFlags {
    open spec fn obeys_bitxor_spec() -> bool {
        true
    }

    open spec fn bitxor_req(self, rhs: Self) -> bool {
        true
    }

    closed spec fn bitxor_spec(self, rhs: Self) -> Self {
        FontFaceDiagFlags { bits: self.bits ^ rhs.bits }
    }
}

impl core::ops::Sub for FontFaceDiagFlags {
    type Output = Self;

    /// The flags set here and not in `rhs`.
    fn sub(self, rhs: Self) -> (r: Self)
        ensures
            r@ == self@ & !rhs@,
    {
        proof {
            use_type_invariant(&self);
            lemma_and_not_within(self.bits, rhs.bits, Self::all_bits());
        }
        FontFaceDiagFlags { bits: self.bits & !rhs.bits }
    }
}

impl vstd::std_specs::ops::SubSpecImpl for FontFaceDiagFlags {
    open spec fn obeys_sub_spec() -> bool {
        true
    }

    open spec fn sub_req(self, rhs: Self) -> bool {
        true
    }

    closed spec fn sub_spec(self, rhs: Self) -> Self {
        FontFaceDiagFlags { bits: self.bits & !rhs.bits }
    }
}

impl core::ops::Not for FontFaceDiagFlags {
    type Output = Self;

    /// The known flags that are not set here.
    fn not(self) -> (r: Self)
        ensures
            r@ == !self@ & Self::all_bits(),
    {
        proof {
            lemma_mask_within(!self.bits, Self::all_bits());
        }
        FontFaceDiagFlags { bits: !self.bits & 0x153F }
    }
}

impl vstd::std_specs::ops::NotSpecImpl for FontFaceDiagFlags {
    open spec fn obeys_not_spec() -> bool {
        true
    }

    open spec fn not_req(self) -> bool {
        true
    }

    closed spec fn not_spec(self) -> Self {
        FontFaceDiagFlags { bits: !self.bits & Self::all_bits() }
    }
}

/// Flags of a font loader.
#[derive(Clone, Copy, Debug, PartialEq, Eq, PartialOrd, Ord, Hash)]
pub struct FontLoaderFlags {
    bits: u32,
}

impl View for FontLoaderFlags {
    type V = u32;

    /// The bits of the flag set.
    closed spec fn view(&self) -> u32 {
        self.bits
    }
}

impl FontLoaderFlags {
    pub const COLLECTION: u32 = 1;

    /// The bits of all flags of this set.
    pub open spec fn all_bits() -> u32 {
        1
    }

    /// A flag set holds no bit that names no flag.
    #[verifier::type_invariant]
    spec fn holds_known_bits(self) -> bool {
        self.bits & !Self::all_bits() == 0
    }

    /// Two flag sets with the same bits are the same set.
    pub proof fn lemma_view_injective(a: Self, b: Self)
        requires
            a@ == b@,
        ensures
            a == b,
    {
    }

    /// The empty flag set.
    pub fn empty() -> (r: Self)
        ensures
            r@ == 0,
    {
        proof {
            lemma_zero_within(Self::all_bits());
        }
        FontLoaderFlags { bits: 0 }
    }

    /// The flag set holding every flag.
    pub fn all() -> (r: Self)
        ensures
            r@ == Self::all_bits(),
    {
        proof {
            lemma_self_within(Self::all_bits());
        }
        FontLoaderFlags { bits: 1 }
    }

    /// The raw bits of the flag set; they name known flags only.
    pub fn bits(&self) -> (r: u32)
        ensures
            r == self@,
            r & !Self::all_bits() == 0,
    {
        proof {
            use_type_invariant(self);
        }
        self.bits
    }

    /// The flag set with the given bits, or `None` where a bit names no flag.
    pub fn from_bits(bits: u32) -> (r: Option<Self>)
        ensures
            r is Some <==> bits & !Self::all_bits() == 0,
            r matches Some(f) ==> f@ == bits,
    {
        if bits & !1 == 0 {
            Some(FontLoaderFlags { bits })
        } else {
            None
        }
    }

    /// The flag set with the given bits, dropping bits that name no flag.
    pub fn from_bits_truncate(bits: u32) -> (r: Self)
        ensures
            r@ == bits & Self::all_bits(),
    {
        proof {
            lemma_mask_within(bits, Self::all_bits());
        }
        FontLoaderFlags { bits: bits & 1 }
    }

    /// Whether no flag is set.
    pub fn is_empty(&self) -> (r: bool)
        ensures
            r == (self@ == 0),
    {
        self.bits == 0
    }

    /// Whether every flag is set.
    pub fn is_all(&self) -> (r: bool)
        ensures
            r == (self@ == Self::all_bits()),
    {
        self.bits == 1
    }

    /// Whether the two sets share a flag.
    pub fn intersects(&self, other: Self) -> (r: bool)
        ensures
            r == (self@ & other@ != 0),
    {
        self.bits & other.bits != 0
    }

    /// Whether every flag of `other` is set here.
    pub fn contains(&self, other: Self) -> (r: bool)
        ensures
            r == (self@ & other@ == other@),
    {
        self.bits & other.bits == other.bits
    }

    /// Sets the flags of `other`.
    pub fn insert(&mut self, other: Self)
        ensures
            final(self)@ == old(self)@ | other@,
    {
        proof {
            use_type_invariant(&*self);
            use_type_invariant(&other);
            lemma_or_within(self.bits, other.bits, Self::all_bits());
        }
        self.bits = self.bits | other.bits;
    }

    /// Clears the flags of `other`.
    pub fn remove(&mut self, other: Self)
        ensures
            final(self)@ == old(self)@ & !other@,
    {
        proof {
            use_type_invariant(&*self);
            lemma_and_not_within(self.bits, other.bits, Self::all_bits());
        }
        self.bits = self.bits & !other.bits;
    }

    /// Flips the flags of `other`.
    pub fn toggle(&mut self, other: Self)
        ensures
            final(self)@ == old(self)@ ^ other@,
    {
        proof {
            use_type_invariant(&*self);
            use_type_invariant(&other);
            lemma_xor_within(self.bits, other.bits, Self::all_bits());
        }
        self.bits = self.bits ^ other.bits;
    }

    /// Sets the flags of `other` where `value` holds and clears them otherwise.
    pub fn set(&mut self, other: Self, value: bool)
        ensures
            value ==> final(self)@ == old(self)@ | other@,
            !value ==> final(self)@ == old(self)@ & !other@,
    {
        if value {
            self.insert(other);
        } else {
            self.remove(other);
        }
    }
}

impl core::ops::BitOr for FontLoaderFlags {
    type Output = Self;

    /// The flags set in either set.
    fn bitor(self, rhs: Self) -> (r: Self)
        ensures
            r@ == self@ | rhs@,
    {
        proof {
            use_type_invariant(&self);
            use_type_invariant(&rhs);
            lemma_or_within(self.bits, rhs.bits, Self::all_bits());
        }
        FontLoaderFlags { bits: self.bits | rhs.bits }
    }
}

impl vstd::std_specs::ops::BitOrSpecImpl for FontLoaderFlags {
    open spec fn obeys_bitor_spec() -> bool {
        true
    }

    open spec fn bitor_req(self, rhs: Self) -> bool {
        true
    }

    closed spec fn bitor_spec(self, rhs: Self) -> Self {
        FontLoaderFlags { bits: self.bits | rhs.bits }
    }
}

impl core::ops::BitAnd for FontLoaderFlags {
    type Output = Self;

    /// The flags set in both sets.
    fn bitand(self, rhs: Self) -> (r: Self)
        ensures
            r@ == self@ & rhs@,
    {
        proof {
            use_type_invariant(&self);
            lemma_and_within(self.bits, rhs.bits, Self::all_bits());
        }
        FontLoaderFlags { bits: self.bits & rhs.bits }
    }
}

impl vstd::std_specs::ops::BitAndSpecImpl for FontLoaderFlags {
    open spec fn obeys_bitand_spec() -> bool {
        true
    }

    open spec fn bitand_req(self, rhs: Self) -> bool {
        true
    }

    closed spec fn bitand_spec(self, rhs: Self) -> Self {
        FontLoaderFlags { bits: self.bits & rhs.bits }
    }
}

impl core::ops::BitXor for FontLoaderFlags {
    type Output = Self;

    /// The flags set in exactly one of the sets.
    fn bitxor(self, rhs: Self) -> (r: Self)
        ensures
            r@ == self@ ^ rhs@,
    {
        proof {
            use_type_invariant(&self);
            use_type_invariant(&rhs);
            lemma_xor_within(self.bits, rhs.bits, Self::all_bits());
        }
        FontLoaderFlags { bits: self.bits ^ rhs.bits }
    }
}

impl vstd::std_specs::ops::BitXorSpecImpl for FontLoaderFlags {
    open spec fn obeys_bitxor_spec() -> bool {
        true
    }

    open spec fn bitxor_req(self, rhs: Self) -> bool {
        true
    }

    closed spec fn bitxor_spec(self, rhs: Self) -> Self {
        FontLoaderFlags { bits: self.bits ^ rhs.bits }
    }
}

impl core::ops::Sub for FontLoaderFlags {
    type Output = Self;

    /// The flags set here and not in `rhs`.
    fn sub(self, rhs: Self) -> (r: Self)
        ensures
            r@ == self@ & !rhs@,
    {
        proof {
            use_type_invariant(&self);
            lemma_and_not_within(self.bits, rhs.bits, Self::all_bits());
        }
        FontLoaderFlags { bits: self.bits & !rhs.bits }
    }
}

impl vstd::std_specs::ops::SubSpecImpl for FontLoaderFlags {
    open spec fn obeys_sub_spec() -> bool {
        true
    }

    open spec fn sub_req(self, rhs: Self) -> bool {
        true
    }

    closed spec fn sub_spec(self, rhs: Self) -> Self {
        FontLoaderFlags { bits: self.bits & !rhs.bits }
    }
}

impl core::ops::Not for FontLoaderFlags {
    type Output = Self;

    /// The known flags that are not set here.
    fn not(self) -> (r: Self)
        ensures
            r@ == !self@ & Self::all_bits(),
    {
        proof {
            lemma_mask_within(!self.bits, Self::all_bits());
        }
        FontLoaderFlags { bits: !self.bits & 1 }
    }
}

impl vstd::std_specs::ops::NotSpecImpl for FontLoaderFlags {
    open spec fn obeys_not_spec() -> bool {
        true
    }

    open spec fn not_req(self) -> bool {
        true
    }

    closed spec fn not_spec(self) -> Self {
        FontLoaderFlags { bits: !self.bits & Self::all_bits() }
    }
}

/// Flags of font data.
#[derive(Clone, Copy, Debug, PartialEq, Eq, PartialOrd, Ord, Hash)]
pub struct FontDataFlags {
    bits: u32,
}

impl View for FontDataFlags {
    type V = u32;

    /// The bits of the flag set.
    closed spec fn view(&self) -> u32 {
        self.bits
    }
}

impl FontDataFlags {
    pub const COLLECTION: u32 = 1;

    /// The bits of all flags of this set.
    pub open spec fn all_bits() -> u32 {
        1
    }

    /// A flag set holds no bit that names no flag.
    #[verifier::type_invariant]
    spec fn holds_known_bits(self) -> bool {
        self.bits & !Self::all_bits() == 0
    }

    /// Two flag sets with the same bits are the same set.
    pub proof fn lemma_view_injective(a: Self, b: Self)
        requires
            a@ == b@,
        ensures
            a == b,
    {
    }

    /// The empty flag set.
    pub fn empty() -> (r: Self)
        ensures
            r@ == 0,
    {
        proof {
            lemma_zero_within(Self::all_bits());
        }
        FontDataFlags { bits: 0 }
    }

    /// The flag set holding every flag.
    pub fn all() -> (r: Self)
        ensures
            r@ == Self::all_bits(),
    {
        proof {
            lemma_self_within(Self::all_bits());
        }
        FontDataFlags { bits: 1 }
    }

    /// The raw bits of the flag set; they name known flags only.
    pub fn bits(&self) -> (r: u32)
        ensures
            r == self@,
            r & !Self::all_bits() == 0,
    {
        proof {
            use_type_invariant(self);
        }
        self.bits
    }

    /// The flag set with the given bits, or `None` where a bit names no flag.
    pub fn from_bits(bits: u32) -> (r: Option<Self>)
        ensures
            r is Some <==> bits & !Self::all_bits() == 0,
            r matches Some(f) ==> f@ == bits,
    {
        if bits & !1 == 0 {
            Some(FontDataFlags { bits })
        } else {
            None
        }
    }

    /// The flag set with the given bits, dropping bits that name no flag.
    pub fn from_bits_truncate(bits: u32) -> (r: Self)
        ensures
            r@ == bits & Self::all_bits(),
    {
        proof {
            lemma_mask_within(bits, Self::all_bits());
        }
        FontDataFlags { bits: bits & 1 }
    }

    /// Whether no flag is set.
    pub fn is_empty(&self) -> (r: bool)
        ensures
            r == (self@ == 0),
    {
        self.bits == 0
    }

    /// Whether every flag is set.
    pub fn is_all(&self) -> (r: bool)
        ensures
            r == (self@ == Self::all_bits()),
    {
        self.bits == 1
    }

    /// Whether the two sets share a flag.
    pub fn intersects(&self, other: Self) -> (r: bool)
        ensures
            r == (self@ & other@ != 0),
    {
        self.bits & other.bits != 0
    }

    /// Whether every flag of `other` is set here.
    pub fn contains(&self, other: Self) -> (r: bool)
        ensures
            r == (self@ & other@ == other@),
    {
        self.bits & other.bits == other.bits
    }

    /// Sets the flags of `other`.
    pub fn insert(&mut self, other: Self)
        ensures
            final(self)@ == old(self)@ | other@,
    {
        proof {
            use_type_invariant(&*self);
            use_type_invariant(&other);
            lemma_or_within(self.bits, other.bits, Self::all_bits());
        }
        self.bits = self.bits | other.bits;
    }

    /// Clears the flags of `other`.
    pub fn remove(&mut self, other: Self)
        ensures
            final(self)@ == old(self)@ & !other@,
    {
        proof {
            use_type_invariant(&*self);
            lemma_and_not_within(self.bits, other.bits, Self::all_bits());
        }
        self.bits = self.bits & !other.bits;
    }

    /// Flips the flags of `other`.
    pub fn toggle(&mut self, other: Self)
        ensures
            final(self)@ == old(self)@ ^ other@,
    {
        proof {
            use_type_invariant(&*self);
            use_type_invariant(&other);
            lemma_xor_within(self.bits, other.bits, Self::all_bits());
        }
        self.bits = self.bits ^ other.bits;
    }

    /// Sets the flags of `other` where `value` holds and clears them otherwise.
    pub fn set(&mut self, other: Self, value: bool)
        ensures
            value ==> final(self)@ == old(self)@ | other@,
            !value ==> final(self)@ == old(self)@ & !other@,
    {
        if value {
            self.insert(other);
        } else {
            self.remove(other);
        }
    }
}

impl core::ops::BitOr for FontDataFlags {
    type Output = Self;

    /// The flags set in either set.
    fn bitor(self, rhs: Self) -> (r: Self)
        ensures
            r@ == self@ | rhs@,
    {
        proof {
            use_type_invariant(&self);
            use_type_invariant(&rhs);
            lemma_or_within(self.bits, rhs.bits, Self::all_bits());
        }
        FontDataFlags { bits: self.bits | rhs.bits }
    }
}

impl vstd::std_specs::ops::BitOrSpecImpl for FontDataFlags {
    open spec fn obeys_bitor_spec() -> bool {
        true
    }

    open spec fn bitor_req(self, rhs: Self) -> bool {
        true
    }

    closed spec fn bitor_spec(self, rhs: Self) -> Self {
        FontDataFlags { bits: self.bits | rhs.bits }
    }
}

impl core::ops::BitAnd for FontDataFlags {
    type Output = Self;

    /// The flags set in both sets.
    fn bitand(self, rhs: Self) -> (r: Self)
        ensures
            r@ == self@ & rhs@,
    {
        proof {
            use_type_invariant(&self);
            lemma_and_within(self.bits, rhs.bits, Self::all_bits());
        }
        FontDataFlags { bits: self.bits & rhs.bits }
    }
}

impl vstd::std_specs::ops::BitAndSpecImpl for FontDataFlags {
    open spec fn obeys_bitand_spec() -> bool {
        true
    }

    open spec fn bitand_req(self, rhs: Self) -> bool {
        true
    }

    closed spec fn bitand_spec(self, rhs: Self) -> Self {
        FontDataFlags { bits: self.bits & rhs.bits }
    }
}

impl core::ops::BitXor for FontDataFlags {
    type Output = Self;

    /// The flags set in exactly one of the sets.
    fn bitxor(self, rhs: Self) -> (r: Self)
        ensures
            r@ == self@ ^ rhs@,
    {
        proof {
            use_type_invariant(&self);
            use_type_invariant(&rhs);
            lemma_xor_within(self.bits, rhs.bits, Self::all_bits());
        }
        FontDataFlags { bits: self.bits ^ rhs.bits }
    }
}

impl vstd::std_specs::ops::BitXorSpecImpl for FontDataFlags {
    open spec fn obeys_bitxor_spec() -> bool {
        true
    }

    open spec fn bitxor_req(self, rhs: Self) -> bool {
        true
    }

    closed spec fn bitxor_spec(self, rhs: Self) -> Self {
        FontDataFlags { bits: self.bits ^ rhs.bits }
    }
}

impl core::ops::Sub for FontDataFlags {
    type Output = Self;

    /// The flags set here and not in `rhs`.
    fn sub(self, rhs: Self) -> (r: Self)
        ensures
            r@ == self@ & !rhs@,
    {
        proof {
            use_type_invariant(&self);
            lemma_and_not_within(self.bits, rhs.bits, Self::all_bits());
        }
        FontDataFlags { bits: self.bits & !rhs.bits }
    }
}

impl vstd::std_specs::ops::SubSpecImpl for FontDataFlags {
    open spec fn obeys_sub_spec() -> bool {
        true
    }

    open spec fn sub_req(self, rhs: Self) -> bool {
        true
    }

    closed spec fn sub_spec(self, rhs: Self) -> Self {
        FontDataFlags { bits: self.bits & !rhs.bits }
    }
}

impl core::ops::Not for FontDataFlags {
    type Output = Self;

    /// The known flags that are not set here.
    fn not(self) -> (r: Self)
        ensures
            r@ == !self@ & Self::all_bits(),
    {
        proof {
            lemma_mask_within(!self.bits, Self::all_bits());
        }
        FontDataFlags { bits: !self.bits & 1 }
    }
}

impl vstd::std_specs::ops::NotSpecImpl for FontDataFlags {
    open spec fn obeys_not_spec() -> bool {
        true
    }

    open spec fn not_req(self) -> bool {
        true
    }

    closed spec fn not_spec(self) -> Self {
        FontDataFlags { bits: !self.bits & Self::all_bits() }
    }
}

/// The placement and advance of a glyph.
#[derive(Debug)]
pub struct GlyphPlacement {
    pub placement: PointI,
    pub advance: PointI,
}

/// The state of mapping text to glyphs.
#[derive(Debug)]
pub struct GlyphMappingState {
    pub glyph_count: usize,
    pub undefined_first: usize,
    pub undefined_count: usize,
}

impl GlyphMappingState {
    /// The index of the first undefined glyph, or `None` where every glyph is
    /// defined (blend2d marks that with all bits set).
    pub fn undefined_first(&self) -> (r: Option<usize>)
        ensures
            r == (if self.undefined_first == usize::MAX {
                None
            } else {
                Some(self.undefined_first)
            }),
    {
        crate::util::found_index(self.undefined_first)
    }
}

/// Information about the glyph an outline sink receives.
#[derive(Debug)]
pub struct GlyphOutlineSinkInfo {
    pub glyph_index: usize,
    pub contour_count: usize,
}

/// Information about a font face.
#[derive(Debug)]
pub struct FontFaceInfo {
    pub face_type: FontFaceType,
    pub outline_type: FontOutlineType,
    pub glyph_count: u32,
    pub face_index: u32,
    pub face_flags: FontFaceFlags,
    pub diag_flags: FontFaceDiagFlags,
}

/// A font feature and its value.
#[derive(Debug)]
pub struct FontFeature {
    pub tag: Tag,
    pub value: u32,
}

/// A font variation and its value.
#[derive(Debug)]
pub struct FontVariation {
    pub tag: Tag,
    pub value: u32,
}

/// The unicode ranges a font covers, one bit per range.
#[derive(Debug)]
pub struct FontUnicodeCoverage {
    pub data: [u32; 4],
}

/// The design metrics of a font face, in font units.
#[derive(Debug)]
pub struct FontDesignMetrics {
    pub units_per_em: i32,
    pub line_gap: i32,
    pub x_height: i32,
    pub cap_height: i32,
    pub horizontal_ascent: i32,
    pub vertical_ascent: i32,
    pub horizontal_descent: i32,
    pub vertical_descent: i32,
    pub horizontal_min_lsb: i32,
    pub vertical_min_lsb: i32,
    pub horizontal_min_tsb: i32,
    pub vertical_min_tsb: i32,
    pub horizontal_max_advance: i32,
    pub vertical_max_advance: i32,
    pub underline_position: i32,
    pub underline_thickness: i32,
    pub strikethrough_position: i32,
    pub strikethrough_thickness: i32,
}

} // verus!

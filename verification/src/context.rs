//! Rendering context settings.
use vstd::prelude::*;
use crate::flags::{
    lemma_and_not_within, lemma_and_within, lemma_mask_within, lemma_or_within, lemma_self_within, lemma_xor_within,
    lemma_zero_within,
};

verus! {

/// The kind of a rendering context.
#[derive(Clone, Copy, Debug, PartialEq, Eq, PartialOrd)]
pub enum ContextType {
    NoContext,
    Dummy,
    Raster,
}

impl ContextType {
    /// The value blend2d uses for this variant.
    pub open spec fn bl_value(self) -> u32 {
        match self {
            ContextType::NoContext => 0,
            ContextType::Dummy => 1,
            ContextType::Raster => 3,
        }
    }

    /// Looks a blend2d value up: the variant that has it, or the default
    /// variant for a value that no variant has.
    pub open spec fn from_bl_value(value: u32) -> ContextType {
        if value == 0 {
            ContextType::NoContext
        } else if value == 1 {
            ContextType::Dummy
        } else if value == 3 {
            ContextType::Raster
        } else {
            ContextType::NoContext
        }
    }

    /// Distinct variants have distinct blend2d values.
    pub proof fn lemma_bl_value_injective(a: ContextType, b: ContextType)
        requires
            a.bl_value() == b.bl_value(),
        ensures
            a == b,
    {
    }

    /// Converting a variant to its blend2d value and back gives the same variant.
    pub proof fn lemma_value_roundtrip(self)
        ensures
            ContextType::from_bl_value(self.bl_value()) == self,
    {
    }

    /// Looking a value up gives the variant that has it, and the default
    /// variant exactly where no variant has it.
    pub proof fn lemma_from_bl_value(value: u32)
        ensures
            (exists|v: ContextType| v.bl_value() == value) ==> ContextType::from_bl_value(value).bl_value() == value,
            (forall|v: ContextType| v.bl_value() != value) ==> ContextType::from_bl_value(value) == ContextType::NoContext,
    {
        if forall|v: ContextType| v.bl_value() != value {
            assert(ContextType::NoContext.bl_value() != value);
            assert(ContextType::Dummy.bl_value() != value);
            assert(ContextType::Raster.bl_value() != value);
        }
    }
}

impl From<u32> for ContextType {
    fn from(val: u32) -> (r: ContextType) {
        if val == 0 {
            ContextType::NoContext
        } else if val == 1 {
            ContextType::Dummy
        } else if val == 3 {
            ContextType::Raster
        } else {
            ContextType::NoContext
        }
    }
}

impl vstd::std_specs::convert::FromSpecImpl<u32> for ContextType {
    open spec fn obeys_from_spec() -> bool {
        true
    }

    open spec fn from_spec(val: u32) -> ContextType {
        ContextType::from_bl_value(val)
    }
}

impl From<ContextType> for u32 {
    fn from(val: ContextType) -> (r: u32) {
        match val {
            ContextType::NoContext => 0,
            ContextType::Dummy => 1,
            ContextType::Raster => 3,
        }
    }
}

impl vstd::std_specs::convert::FromSpecImpl<ContextType> for u32 {
    open spec fn obeys_from_spec() -> bool {
        true
    }

    open spec fn from_spec(val: ContextType) -> u32 {
        val.bl_value()
    }
}

impl Default for ContextType {
    fn default() -> (r: ContextType)
        ensures
            r == ContextType::NoContext,
    {
        ContextType::NoContext
    }
}

/// A rendering hint of a context.
#[derive(Clone, Copy, Debug, PartialEq, Eq, PartialOrd)]
pub enum ContextHint {
    RenderingQuality,
    GradientQuality,
    PatternQuality,
}

impl ContextHint {
    /// The value blend2d uses for this variant.
    pub open spec fn bl_value(self) -> u32 {
        match self {
            ContextHint::RenderingQuality => 0,
            ContextHint::GradientQuality => 1,
            ContextHint::PatternQuality => 2,
        }
    }

    /// Looks a blend2d value up: the variant that has it, or the default
    /// variant for a value that no variant has.
    pub open spec fn from_bl_value(value: u32) -> ContextHint {
        if value == 0 {
            ContextHint::RenderingQuality
        } else if value == 1 {
            ContextHint::GradientQuality
        } else if value == 2 {
            ContextHint::PatternQuality
        } else {
            ContextHint::RenderingQuality
        }
    }

    /// Distinct variants have distinct blend2d values.
    pub proof fn lemma_bl_value_injective(a: ContextHint, b: ContextHint)
        requires
            a.bl_value() == b.bl_value(),
        ensures
            a == b,
    {
    }

    /// Converting a variant to its blend2d value and back gives the same variant.
    pub proof fn lemma_value_roundtrip(self)
        ensures
            ContextHint::from_bl_value(self.bl_value()) == self,
    {
    }

    /// Looking a value up gives the variant that has it, and the default
    /// variant exactly where no variant has it.
    pub proof fn lemma_from_bl_value(value: u32)
        ensures
            (exists|v: ContextHint| v.bl_value() == value) ==> ContextHint::from_bl_value(value).bl_value() == value,
            (forall|v: ContextHint| v.bl_value() != value) ==> ContextHint::from_bl_value(value) == ContextHint::RenderingQuality,
    {
        if forall|v: ContextHint| v.bl_value() != value {
            assert(ContextHint::RenderingQuality.bl_value() != value);
            assert(ContextHint::GradientQuality.bl_value() != value);
            assert(ContextHint::PatternQuality.bl_value() != value);
        }
    }
}

impl From<u32> for ContextHint {
    fn from(val: u32) -> (r: ContextHint) {
        if val == 0 {
            ContextHint::RenderingQuality
        } else if val == 1 {
            ContextHint::GradientQuality
        } else if val == 2 {
            ContextHint::PatternQuality
        } else {
            ContextHint::RenderingQuality
        }
    }
}

impl vstd::std_specs::convert::FromSpecImpl<u32> for ContextHint {
    open spec fn obeys_from_spec() -> bool {
        true
    }

    open spec fn from_spec(val: u32) -> ContextHint {
        ContextHint::from_bl_value(val)
    }
}

impl From<ContextHint> for u32 {
    fn from(val: ContextHint) -> (r: u32) {
        match val {
            ContextHint::RenderingQuality => 0,
            ContextHint::GradientQuality => 1,
            ContextHint::PatternQuality => 2,
        }
    }
}

impl vstd::std_specs::convert::FromSpecImpl<ContextHint> for u32 {
    open spec fn obeys_from_spec() -> bool {
        true
    }

    open spec fn from_spec(val: ContextHint) -> u32 {
        val.bl_value()
    }
}

impl Default for ContextHint {
    fn default() -> (r: ContextHint)
        ensures
            r == ContextHint::RenderingQuality,
    {
        ContextHint::RenderingQuality
    }
}

/// The kind of a context operation.
#[derive(Clone, Copy, Debug, PartialEq, Eq, PartialOrd)]
pub enum ContextOpType {
    Fill,
    Stroke,
}

impl ContextOpType {
    /// The value blend2d uses for this variant.
    pub open spec fn bl_value(self) -> u32 {
        match self {
            ContextOpType::Fill => 0,
            ContextOpType::Stroke => 1,
        }
    }

    /// Looks a blend2d value up: the variant that has it, or the default
    /// variant for a value that no variant has.
    pub open spec fn from_bl_value(value: u32) -> ContextOpType {
        if value == 0 {
            ContextOpType::Fill
        } else if value == 1 {
            ContextOpType::Stroke
        } else {
            ContextOpType::Fill
        }
    }

    /// Distinct variants have distinct blend2d values.
    pub proof fn lemma_bl_value_injective(a: ContextOpType, b: ContextOpType)
        requires
            a.bl_value() == b.bl_value(),
        ensures
            a == b,
    {
    }

    /// Converting a variant to its blend2d value and back gives the same variant.
    pub proof fn lemma_value_roundtrip(self)
        ensures
            ContextOpType::from_bl_value(self.bl_value()) == self,
    {
    }

    /// Looking a value up gives the variant that has it, and the default
    /// variant exactly where no variant has it.
    pub proof fn lemma_from_bl_value(value: u32)
        ensures
            (exists|v: ContextOpType| v.bl_value() == value) ==> ContextOpType::from_bl_value(value).bl_value() == value,
            (forall|v: ContextOpType| v.bl_value() != value) ==> ContextOpType::from_bl_value(value) == ContextOpType::Fill,
    {
        if forall|v: ContextOpType| v.bl_value() != value {
            assert(ContextOpType::Fill.bl_value() != value);
            assert(ContextOpType::Stroke.bl_value() != value);
        }
    }
}

impl From<u32> for ContextOpType {
    fn from(val: u32) -> (r: ContextOpType) {
        if val == 0 {
            ContextOpType::Fill
        } else if val == 1 {
            ContextOpType::Stroke
        } else {
            ContextOpType::Fill
        }
    }
}

impl vstd::std_specs::convert::FromSpecImpl<u32> for ContextOpType {
    open spec fn obeys_from_spec() -> bool {
        true
    }

    open spec fn from_spec(val: u32) -> ContextOpType {
        ContextOpType::from_bl_value(val)
    }
}

impl From<ContextOpType> for u32 {
    fn from(val: ContextOpType) -> (r: u32) {
        match val {
            ContextOpType::Fill => 0,
            ContextOpType::Stroke => 1,
        }
    }
}

impl vstd::std_specs::convert::FromSpecImpl<ContextOpType> for u32 {
    open spec fn obeys_from_spec() -> bool {
        true
    }

    open spec fn from_spec(val: ContextOpType) -> u32 {
        val.bl_value()
    }
}

impl Default for ContextOpType {
    fn default() -> (r: ContextOpType)
        ensures
            r == ContextOpType::Fill,
    {
        ContextOpType::Fill
    }
}

/// The clipping mode of a context.
#[derive(Clone, Copy, Debug, PartialEq, Eq, PartialOrd)]
pub enum ClipMode {
    AlignedRect,
    UnalignedRect,
    Mask,
}

impl ClipMode {
    /// The value blend2d uses for this variant.
    pub open spec fn bl_value(self) -> u32 {
        match self {
            ClipMode::AlignedRect => 0,
            ClipMode::UnalignedRect => 1,
            ClipMode::Mask => 2,
        }
    }

    /// Looks a blend2d value up: the variant that has it, or the default
    /// variant for a value that no variant has.
    pub open spec fn from_bl_value(value: u32) -> ClipMode {
        if value == 0 {
            ClipMode::AlignedRect
        } else if value == 1 {
            ClipMode::UnalignedRect
        } else if value == 2 {
            ClipMode::Mask
        } else {
            ClipMode::AlignedRect
        }
    }

    /// Distinct variants have distinct blend2d values.
    pub proof fn lemma_bl_value_injective(a: ClipMode, b: ClipMode)
        requires
            a.bl_value() == b.bl_value(),
        ensures
            a == b,
    {
    }

    /// Converting a variant to its blend2d value and back gives the same variant.
    pub proof fn lemma_value_roundtrip(self)
        ensures
            ClipMode::from_bl_value(self.bl_value()) == self,
    {
    }

    /// Looking a value up gives the variant that has it, and the default
    /// variant exactly where no variant has it.
    pub proof fn lemma_from_bl_value(value: u32)
        ensures
            (exists|v: ClipMode| v.bl_value() == value) ==> ClipMode::from_bl_value(value).bl_value() == value,
            (forall|v: ClipMode| v.bl_value() != value) ==> ClipMode::from_bl_value(value) == ClipMode::AlignedRect,
    {
        if forall|v: ClipMode| v.bl_value() != value {
            assert(ClipMode::AlignedRect.bl_value() != value);
            assert(ClipMode::UnalignedRect.bl_value() != value);
            assert(ClipMode::Mask.bl_value() != value);
        }
    }
}

impl From<u32> for ClipMode {
    fn from(val: u32) -> (r: ClipMode) {
        if val == 0 {
            ClipMode::AlignedRect
        } else if val == 1 {
            ClipMode::UnalignedRect
        } else if val == 2 {
            ClipMode::Mask
        } else {
            ClipMode::AlignedRect
        }
    }
}

impl vstd::std_specs::convert::FromSpecImpl<u32> for ClipMode {
    open spec fn obeys_from_spec() -> bool {
        true
    }

    open spec fn from_spec(val: u32) -> ClipMode {
        ClipMode::from_bl_value(val)
    }
}

impl From<ClipMode> for u32 {
    fn from(val: ClipMode) -> (r: u32) {
        match val {
            ClipMode::AlignedRect => 0,
            ClipMode::UnalignedRect => 1,
            ClipMode::Mask => 2,
        }
    }
}

impl vstd::std_specs::convert::FromSpecImpl<ClipMode> for u32 {
    open spec fn obeys_from_spec() -> bool {
        true
    }

    open spec fn from_spec(val: ClipMode) -> u32 {
        val.bl_value()
    }
}

impl Default for ClipMode {
    fn default() -> (r: ClipMode)
        ensures
            r == ClipMode::AlignedRect,
    {
        ClipMode::AlignedRect
    }
}

/// A composition operator.
#[derive(Clone, Copy, Debug, PartialEq, Eq, PartialOrd)]
pub enum CompOp {
    SrcOver,
    SrcCopy,
    SrcIn,
    SrcOut,
    SrcAtop,
    DstOver,
    DstCopy,
    DstIn,
    DstOut,
    DstAtop,
    Xor,
    Clear,
    Plus,
    Minus,
    Multiply,
    Screen,
    Overlay,
    Darken,
    Lighten,
    ColorDodge,
    ColorBurn,
    LinearBurn,
    LinearLight,
    PinLight,
    HardLight,
    SoftLight,
    Difference,
    Exclusion,
}

impl CompOp {
    /// The value blend2d uses for this variant.
    pub open spec fn bl_value(self) -> u32 {
        match self {
            CompOp::SrcOver => 0,
            CompOp::SrcCopy => 1,
            CompOp::SrcIn => 2,
            CompOp::SrcOut => 3,
            CompOp::SrcAtop => 4,
            CompOp::DstOver => 5,
            CompOp::DstCopy => 6,
            CompOp::DstIn => 7,
            CompOp::DstOut => 8,
            CompOp::DstAtop => 9,
            CompOp::Xor => 10,
            CompOp::Clear => 11,
            CompOp::Plus => 12,
            CompOp::Minus => 13,
            CompOp::Multiply => 14,
            CompOp::Screen => 15,
            CompOp::Overlay => 16,
            CompOp::Darken => 17,
            CompOp::Lighten => 18,
            CompOp::ColorDodge => 19,
            CompOp::ColorBurn => 20,
            CompOp::LinearBurn => 21,
            CompOp::LinearLight => 22,
            CompOp::PinLight => 23,
            CompOp::HardLight => 24,
            CompOp::SoftLight => 25,
            CompOp::Difference => 26,
            CompOp::Exclusion => 27,
        }
    }

    /// Looks a blend2d value up: the variant that has it, or the default
    /// variant for a value that no variant has.
    pub open spec fn from_bl_value(value: u32) -> CompOp {
        if value == 0 {
            CompOp::SrcOver
        } else if value == 1 {
            CompOp::SrcCopy
        } else if value == 2 {
            CompOp::SrcIn
        } else if value == 3 {
            CompOp::SrcOut
        } else if value == 4 {
            CompOp::SrcAtop
        } else if value == 5 {
            CompOp::DstOver
        } else if value == 6 {
            CompOp::DstCopy
        } else if value == 7 {
            CompOp::DstIn
        } else if value == 8 {
            CompOp::DstOut
        } else if value == 9 {
            CompOp::DstAtop
        } else if value == 10 {
            CompOp::Xor
        } else if value == 11 {
            CompOp::Clear
        } else if value == 12 {
            CompOp::Plus
        } else if value == 13 {
            CompOp::Minus
        } else if value == 14 {
            CompOp::Multiply
        } else if value == 15 {
            CompOp::Screen
        } else if value == 16 {
            CompOp::Overlay
        } else if value == 17 {
            CompOp::Darken
        } else if value == 18 {
            CompOp::Lighten
        } else if value == 19 {
            CompOp::ColorDodge
        } else if value == 20 {
            CompOp::ColorBurn
        } else if value == 21 {
            CompOp::LinearBurn
        } else if value == 22 {
            CompOp::LinearLight
        } else if value == 23 {
            CompOp::PinLight
        } else if value == 24 {
            CompOp::HardLight
        } else if value == 25 {
            CompOp::SoftLight
        } else if value == 26 {
            CompOp::Difference
        } else if value == 27 {
            CompOp::Exclusion
        } else {
            CompOp::SrcOver
        }
    }

    /// Distinct variants have distinct blend2d values.
    pub proof fn lemma_bl_value_injective(a: CompOp, b: CompOp)
        requires
            a.bl_value() == b.bl_value(),
        ensures
            a == b,
    {
    }

    /// Converting a variant to its blend2d value and back gives the same variant.
    pub proof fn lemma_value_roundtrip(self)
        ensures
            CompOp::from_bl_value(self.bl_value()) == self,
    {
    }

    /// Looking a value up gives the variant that has it, and the default
    /// variant exactly where no variant has it.
    pub proof fn lemma_from_bl_value(value: u32)
        ensures
            (exists|v: CompOp| v.bl_value() == value) ==> CompOp::from_bl_value(value).bl_value() == value,
            (forall|v: CompOp| v.bl_value() != value) ==> CompOp::from_bl_value(value) == CompOp::SrcOver,
    {
        if forall|v: CompOp| v.bl_value() != value {
            assert(CompOp::SrcOver.bl_value() != value);
            assert(CompOp::SrcCopy.bl_value() != value);
            assert(CompOp::SrcIn.bl_value() != value);
            assert(CompOp::SrcOut.bl_value() != value);
            assert(CompOp::SrcAtop.bl_value() != value);
            assert(CompOp::DstOver.bl_value() != value);
            assert(CompOp::DstCopy.bl_value() != value);
            assert(CompOp::DstIn.bl_value() != value);
            assert(CompOp::DstOut.bl_value() != value);
            assert(CompOp::DstAtop.bl_value() != value);
            assert(CompOp::Xor.bl_value() != value);
            assert(CompOp::Clear.bl_value() != value);
            assert(CompOp::Plus.bl_value() != value);
            assert(CompOp::Minus.bl_value() != value);
            assert(CompOp::Multiply.bl_value() != value);
            assert(CompOp::Screen.bl_value() != value);
            assert(CompOp::Overlay.bl_value() != value);
            assert(CompOp::Darken.bl_value() != value);
            assert(CompOp::Lighten.bl_value() != value);
            assert(CompOp::ColorDodge.bl_value() != value);
            assert(CompOp::ColorBurn.bl_value() != value);
            assert(CompOp::LinearBurn.bl_value() != value);
            assert(CompOp::LinearLight.bl_value() != value);
            assert(CompOp::PinLight.bl_value() != value);
            assert(CompOp::HardLight.bl_value() != value);
            assert(CompOp::SoftLight.bl_value() != value);
            assert(CompOp::Difference.bl_value() != value);
            assert(CompOp::Exclusion.bl_value() != value);
        }
    }
}

impl From<u32> for CompOp {
    fn from(val: u32) -> (r: CompOp) {
        if val == 0 {
            CompOp::SrcOver
        } else if val == 1 {
            CompOp::SrcCopy
        } else if val == 2 {
            CompOp::SrcIn
        } else if val == 3 {
            CompOp::SrcOut
        } else if val == 4 {
            CompOp::SrcAtop
        } else if val == 5 {
            CompOp::DstOver
        } else if val == 6 {
            CompOp::DstCopy
        } else if val == 7 {
            CompOp::DstIn
        } else if val == 8 {
            CompOp::DstOut
        } else if val == 9 {
            CompOp::DstAtop
        } else if val == 10 {
            CompOp::Xor
        } else if val == 11 {
            CompOp::Clear
        } else if val == 12 {
            CompOp::Plus
        } else if val == 13 {
            CompOp::Minus
        } else if val == 14 {
            CompOp::Multiply
        } else if val == 15 {
            CompOp::Screen
        } else if val == 16 {
            CompOp::Overlay
        } else if val == 17 {
            CompOp::Darken
        } else if val == 18 {
            CompOp::Lighten
        } else if val == 19 {
            CompOp::ColorDodge
        } else if val == 20 {
            CompOp::ColorBurn
        } else if val == 21 {
            CompOp::LinearBurn
        } else if val == 22 {
            CompOp::LinearLight
        } else if val == 23 {
            CompOp::PinLight
        } else if val == 24 {
            CompOp::HardLight
        } else if val == 25 {
            CompOp::SoftLight
        } else if val == 26 {
            CompOp::Difference
        } else if val == 27 {
            CompOp::Exclusion
        } else {
            CompOp::SrcOver
        }
    }
}

impl vstd::std_specs::convert::FromSpecImpl<u32> for CompOp {
    open spec fn obeys_from_spec() -> bool {
        true
    }

    open spec fn from_spec(val: u32) -> CompOp {
        CompOp::from_bl_value(val)
    }
}

impl From<CompOp> for u32 {
    fn from(val: CompOp) -> (r: u32) {
        match val {
            CompOp::SrcOver => 0,
            CompOp::SrcCopy => 1,
            CompOp::SrcIn => 2,
            CompOp::SrcOut => 3,
            CompOp::SrcAtop => 4,
            CompOp::DstOver => 5,
            CompOp::DstCopy => 6,
            CompOp::DstIn => 7,
            CompOp::DstOut => 8,
            CompOp::DstAtop => 9,
            CompOp::Xor => 10,
            CompOp::Clear => 11,
            CompOp::Plus => 12,
            CompOp::Minus => 13,
            CompOp::Multiply => 14,
            CompOp::Screen => 15,
            CompOp::Overlay => 16,
            CompOp::Darken => 17,
            CompOp::Lighten => 18,
            CompOp::ColorDodge => 19,
            CompOp::ColorBurn => 20,
            CompOp::LinearBurn => 21,
            CompOp::LinearLight => 22,
            CompOp::PinLight => 23,
            CompOp::HardLight => 24,
            CompOp::SoftLight => 25,
            CompOp::Difference => 26,
            CompOp::Exclusion => 27,
        }
    }
}

impl vstd::std_specs::convert::FromSpecImpl<CompOp> for u32 {
    open spec fn obeys_from_spec() -> bool {
        true
    }

    open spec fn from_spec(val: CompOp) -> u32 {
        val.bl_value()
    }
}

impl Default for CompOp {
    fn default() -> (r: CompOp)
        ensures
            r == CompOp::SrcOver,
    {
        CompOp::SrcOver
    }
}

/// Gradient rendering quality.
#[derive(Clone, Copy, Debug, PartialEq, Eq, PartialOrd)]
pub enum GradientQuality {
    Nearest,
}

impl GradientQuality {
    /// The value blend2d uses for this variant.
    pub open spec fn bl_value(self) -> u32 {
        match self {
            GradientQuality::Nearest => 0,
        }
    }

    /// Looks a blend2d value up: the variant that has it, or the default
    /// variant for a value that no variant has.
    pub open spec fn from_bl_value(value: u32) -> GradientQuality {
        if value == 0 {
            GradientQuality::Nearest
        } else {
            GradientQuality::Nearest
        }
    }

    /// Distinct variants have distinct blend2d values.
    pub proof fn lemma_bl_value_injective(a: GradientQuality, b: GradientQuality)
        requires
            a.bl_value() == b.bl_value(),
        ensures
            a == b,
    {
    }

    /// Converting a variant to its blend2d value and back gives the same variant.
    pub proof fn lemma_value_roundtrip(self)
        ensures
            GradientQuality::from_bl_value(self.bl_value()) == self,
    {
    }

    /// Looking a value up gives the variant that has it, and the default
    /// variant exactly where no variant has it.
    pub proof fn lemma_from_bl_value(value: u32)
        ensures
            (exists|v: GradientQuality| v.bl_value() == value) ==> GradientQuality::from_bl_value(value).bl_value() == value,
            (forall|v: GradientQuality| v.bl_value() != value) ==> GradientQuality::from_bl_value(value) == GradientQuality::Nearest,
    {
        if forall|v: GradientQuality| v.bl_value() != value {
            assert(GradientQuality::Nearest.bl_value() != value);
        }
    }
}

impl From<u32> for GradientQuality {
    fn from(val: u32) -> (r: GradientQuality) {
        if val == 0 {
            GradientQuality::Nearest
        } else {
            GradientQuality::Nearest
        }
    }
}

impl vstd::std_specs::convert::FromSpecImpl<u32> for GradientQuality {
    open spec fn obeys_from_spec() -> bool {
        true
    }

    open spec fn from_spec(val: u32) -> GradientQuality {
        GradientQuality::from_bl_value(val)
    }
}

impl From<GradientQuality> for u32 {
    fn from(val: GradientQuality) -> (r: u32) {
        match val {
            GradientQuality::Nearest => 0,
        }
    }
}

impl vstd::std_specs::convert::FromSpecImpl<GradientQuality> for u32 {
    open spec fn obeys_from_spec() -> bool {
        true
    }

    open spec fn from_spec(val: GradientQuality) -> u32 {
        val.bl_value()
    }
}

impl Default for GradientQuality {
    fn default() -> (r: GradientQuality)
        ensures
            r == GradientQuality::Nearest,
    {
        GradientQuality::Nearest
    }
}

/// Pattern rendering quality.
#[derive(Clone, Copy, Debug, PartialEq, Eq, PartialOrd)]
pub enum PatternQuality {
    Nearest,
    Bilinear,
}

impl PatternQuality {
    /// The value blend2d uses for this variant.
    pub open spec fn bl_value(self) -> u32 {
        match self {
            PatternQuality::Nearest => 0,
            PatternQuality::Bilinear => 1,
        }
    }

    /// Looks a blend2d value up: the variant that has it, or the default
    /// variant for a value that no variant has.
    pub open spec fn from_bl_value(value: u32) -> PatternQuality {
        if value == 0 {
            PatternQuality::Nearest
        } else if value == 1 {
            PatternQuality::Bilinear
        } else {
            PatternQuality::Nearest
        }
    }

    /// Distinct variants have distinct blend2d values.
    pub proof fn lemma_bl_value_injective(a: PatternQuality, b: PatternQuality)
        requires
            a.bl_value() == b.bl_value(),
        ensures
            a == b,
    {
    }

    /// Converting a variant to its blend2d value and back gives the same variant.
    pub proof fn lemma_value_roundtrip(self)
        ensures
            PatternQuality::from_bl_value(self.bl_value()) == self,
    {
    }

    /// Looking a value up gives the variant that has it, and the default
    /// variant exactly where no variant has it.
    pub proof fn lemma_from_bl_value(value: u32)
        ensures
            (exists|v: PatternQuality| v.bl_value() == value) ==> PatternQuality::from_bl_value(value).bl_value() == value,
            (forall|v: PatternQuality| v.bl_value() != value) ==> PatternQuality::from_bl_value(value) == PatternQuality::Nearest,
    {
        if forall|v: PatternQuality| v.bl_value() != value {
            assert(PatternQuality::Nearest.bl_value() != value);
            assert(PatternQuality::Bilinear.bl_value() != value);
        }
    }
}

impl From<u32> for PatternQuality {
    fn from(val: u32) -> (r: PatternQuality) {
        if val == 0 {
            PatternQuality::Nearest
        } else if val == 1 {
            PatternQuality::Bilinear
        } else {
            PatternQuality::Nearest
        }
    }
}

impl vstd::std_specs::convert::FromSpecImpl<u32> for PatternQuality {
    open spec fn obeys_from_spec() -> bool {
        true
    }

    open spec fn from_spec(val: u32) -> PatternQuality {
        PatternQuality::from_bl_value(val)
    }
}

impl From<PatternQuality> for u32 {
    fn from(val: PatternQuality) -> (r: u32) {
        match val {
            PatternQuality::Nearest => 0,
            PatternQuality::Bilinear => 1,
        }
    }
}

impl vstd::std_specs::convert::FromSpecImpl<PatternQuality> for u32 {
    open spec fn obeys_from_spec() -> bool {
        true
    }

    open spec fn from_spec(val: PatternQuality) -> u32 {
        val.bl_value()
    }
}

impl Default for PatternQuality {
    fn default() -> (r: PatternQuality)
        ensures
            r == PatternQuality::Nearest,
    {
        PatternQuality::Nearest
    }
}

/// Rendering quality.
#[derive(Clone, Copy, Debug, PartialEq, Eq, PartialOrd)]
pub enum RenderingQuality {
    AntiAliasing,
}

impl RenderingQuality {
    /// The value blend2d uses for this variant.
    pub open spec fn bl_value(self) -> u32 {
        match self {
            RenderingQuality::AntiAliasing => 0,
        }
    }

    /// Looks a blend2d value up: the variant that has it, or the default
    /// variant for a value that no variant has.
    pub open spec fn from_bl_value(value: u32) -> RenderingQuality {
        if value == 0 {
            RenderingQuality::AntiAliasing
        } else {
            RenderingQuality::AntiAliasing
        }
    }

    /// Distinct variants have distinct blend2d values.
    pub proof fn lemma_bl_value_injective(a: RenderingQuality, b: RenderingQuality)
        requires
            a.bl_value() == b.bl_value(),
        ensures
            a == b,
    {
    }

    /// Converting a variant to its blend2d value and back gives the same variant.
    pub proof fn lemma_value_roundtrip(self)
        ensures
            RenderingQuality::from_bl_value(self.bl_value()) == self,
    {
    }

    /// Looking a value up gives the variant that has it, and the default
    /// variant exactly where no variant has it.
    pub proof fn lemma_from_bl_value(value: u32)
        ensures
            (exists|v: RenderingQuality| v.bl_value() == value) ==> RenderingQuality::from_bl_value(value).bl_value() == value,
            (forall|v: RenderingQuality| v.bl_value() != value) ==> RenderingQuality::from_bl_value(value) == RenderingQuality::AntiAliasing,
    {
        if forall|v: RenderingQuality| v.bl_value() != value {
            assert(RenderingQuality::AntiAliasing.bl_value() != value);
        }
    }
}

impl From<u32> for RenderingQuality {
    fn from(val: u32) -> (r: RenderingQuality) {
        if val == 0 {
            RenderingQuality::AntiAliasing
        } else {
            RenderingQuality::AntiAliasing
        }
    }
}

impl vstd::std_specs::convert::FromSpecImpl<u32> for RenderingQuality {
    open spec fn obeys_from_spec() -> bool {
        true
    }

    open spec fn from_spec(val: u32) -> RenderingQuality {
        RenderingQuality::from_bl_value(val)
    }
}

impl From<RenderingQuality> for u32 {
    fn from(val: RenderingQuality) -> (r: u32) {
        match val {
            RenderingQuality::AntiAliasing => 0,
        }
    }
}

impl vstd::std_specs::convert::FromSpecImpl<RenderingQuality> for u32 {
    open spec fn obeys_from_spec() -> bool {
        true
    }

    open spec fn from_spec(val: RenderingQuality) -> u32 {
        val.bl_value()
    }
}

impl Default for RenderingQuality {
    fn default() -> (r: RenderingQuality)
        ensures
            r == RenderingQuality::AntiAliasing,
    {
        RenderingQuality::AntiAliasing
    }
}

/// Flags of a context flush.
#[derive(Clone, Copy, Debug, PartialEq, Eq, PartialOrd, Ord, Hash)]
pub struct ContextFlushFlags {
    bits: u32,
}

impl View for ContextFlushFlags {
    type V = u32;

    /// The bits of the flag set.
    closed spec fn view(&self) -> u32 {
        self.bits
    }
}

impl ContextFlushFlags {
    pub const FLUSH_SYNC: u32 = 0x8000_0000;

    /// The bits of all flags of this set.
    pub open spec fn all_bits() -> u32 {
        0x8000_0000
    }

    /// A flag set holds no bit that names no flag.
    #[verifier::type_invariant]
    spec fn holds_known_bits(self) -> bool {
        self.bits & !Self::all_bits() == 0
    }

    /// Two flag sets with the same bits are the same set.
    pub proof fn lemma_view_injective(a: Self, b: Self)
        requires
            a@ == b@,
        ensures
            a == b,
    {
    }

    /// The empty flag set.
    pub fn empty() -> (r: Self)
        ensures
            r@ == 0,
    {
        proof {
            lemma_zero_within(Self::all_bits());
        }
        ContextFlushFlags { bits: 0 }
    }

    /// The flag set holding every flag.
    pub fn all() -> (r: Self)
        ensures
            r@ == Self::all_bits(),
    {
        proof {
            lemma_self_within(Self::all_bits());
        }
        ContextFlushFlags { bits: 0x8000_0000 }
    }

    /// The raw bits of the flag set; they name known flags only.
    pub fn bits(&self) -> (r: u32)
        ensures
            r == self@,
            r & !Self::all_bits() == 0,
    {
        proof {
            use_type_invariant(self);
        }
        self.bits
    }

    /// The flag set with the given bits, or `None` where a bit names no flag.
    pub fn from_bits(bits: u32) -> (r: Option<Self>)
        ensures
            r is Some <==> bits & !Self::all_bits() == 0,
            r matches Some(f) ==> f@ == bits,
    {
        if bits & !0x8000_0000 == 0 {
            Some(ContextFlushFlags { bits })
        } else {
            None
        }
    }

    /// The flag set with the given bits, dropping bits that name no flag.
    pub fn from_bits_truncate(bits: u32) -> (r: Self)
        ensures
            r@ == bits & Self::all_bits(),
    {
        proof {
            lemma_mask_within(bits, Self::all_bits());
        }
        ContextFlushFlags { bits: bits & 0x8000_0000 }
    }

    /// Whether no flag is set.
    pub fn is_empty(&self) -> (r: bool)
        ensures
            r == (self@ == 0),
    {
        self.bits == 0
    }

    /// Whether every flag is set.
    pub fn is_all(&self) -> (r: bool)
        ensures
            r == (self@ == Self::all_bits()),
    {
        self.bits == 0x8000_0000
    }

    /// Whether the two sets share a flag.
    pub fn intersects(&self, other: Self) -> (r: bool)
        ensures
            r == (self@ & other@ != 0),
    {
        self.bits & other.bits != 0
    }

    /// Whether every flag of `other` is set here.
    pub fn contains(&self, other: Self) -> (r: bool)
        ensures
            r == (self@ & other@ == other@),
    {
        self.bits & other.bits == other.bits
    }

    /// Sets the flags of `other`.
    pub fn insert(&mut self, other: Self)
        ensures
            final(self)@ == old(self)@ | other@,
    {
        proof {
            use_type_invariant(&*self);
            use_type_invariant(&other);
            lemma_or_within(self.bits, other.bits, Self::all_bits());
        }
        self.bits = self.bits | other.bits;
    }

    /// Clears the flags of `other`.
    pub fn remove(&mut self, other: Self)
        ensures
            final(self)@ == old(self)@ & !other@,
    {
        proof {
            use_type_invariant(&*self);
            lemma_and_not_within(self.bits, other.bits, Self::all_bits());
        }
        self.bits = self.bits & !other.bits;
    }

    /// Flips the flags of `other`.
    pub fn toggle(&mut self, other: Self)
        ensures
            final(self)@ == old(self)@ ^ other@,
    {
        proof {
            use_type_invariant(&*self);
            use_type_invariant(&other);
            lemma_xor_within(self.bits, other.bits, Self::all_bits());
        }
        self.bits = self.bits ^ other.bits;
    }

    /// Sets the flags of `other` where `value` holds and clears them otherwise.
    pub fn set(&mut self, other: Self, value: bool)
        ensures
            value ==> final(self)@ == old(self)@ | other@,
            !value ==> final(self)@ == old(self)@ & !other@,
    {
        if value {
            self.insert(other);
        } else {
            self.remove(other);
        }
    }
}

impl core::ops::BitOr for ContextFlushFlags {
    type Output = Self;

    /// The flags set in either set.
    fn bitor(self, rhs: Self) -> (r: Self)
        ensures
            r@ == self@ | rhs@,
    {
        proof {
            use_type_invariant(&self);
            use_type_invariant(&rhs);
            lemma_or_within(self.bits, rhs.bits, Self::all_bits());
        }
        ContextFlushFlags { bits: self.bits | rhs.bits }
    }
}

impl vstd::std_specs::ops::BitOrSpecImpl for ContextFlushFlags {
    open spec fn obeys_bitor_spec() -> bool {
        true
    }

    open spec fn bitor_req(self, rhs: Self) -> bool {
        true
    }

    closed spec fn bitor_spec(self, rhs: Self) -> Self {
        ContextFlushFlags { bits: self.bits | rhs.bits }
    }
}

impl core::ops::BitAnd for ContextFlushFlags {
    type Output = Self;

    /// The flags set in both sets.
    fn bitand(self, rhs: Self) -> (r: Self)
        ensures
            r@ == self@ & rhs@,
    {
        proof {
            use_type_invariant(&self);
            lemma_and_within(self.bits, rhs.bits, Self::all_bits());
        }
        ContextFlushFlags { bits: self.bits & rhs.bits }
    }
}

impl vstd::std_specs::ops::BitAndSpecImpl for ContextFlushFlags {
    open spec fn obeys_bitand_spec() -> bool {
        true
    }

    open spec fn bitand_req(self, rhs: Self) -> bool {
        true
    }

    closed spec fn bitand_spec(self, rhs: Self) -> Self {
        ContextFlushFlags { bits: self.bits & rhs.bits }
    }
}

impl core::ops::BitXor for ContextFlushFlags {
    type Output = Self;

    /// The flags set in exactly one of the sets.
    fn bitxor(self, rhs: Self) -> (r: Self)
        ensures
            r@ == self@ ^ rhs@,
    {
        proof {
            use_type_invariant(&self);
            use_type_invariant(&rhs);
            lemma_xor_within(self.bits, rhs.bits, Self::all_bits());
        }
        ContextFlushFlags { bits: self.bits ^ rhs.bits }
    }
}

impl vstd::std_specs::ops::BitXorSpecImpl for ContextFlushFlags {
    open spec fn obeys_bitxor_spec() -> bool {
        true
    }

    open spec fn bitxor_req(self, rhs: Self) -> bool {
        true
    }

    closed spec fn bitxor_spec(self, rhs: Self) -> Self {
        ContextFlushFlags { bits: self.bits ^ rhs.bits }
    }
}

impl core::ops::Sub for ContextFlushFlags {
    type Output = Self;

    /// The flags set here and not in `rhs`.
    fn sub(self, rhs: Self) -> (r: Self)
        ensures
            r@ == self@ & !rhs@,
    {
        proof {
            use_type_invariant(&self);
            lemma_and_not_within(self.bits, rhs.bits, Self::all_bits());
        }
        ContextFlushFlags { bits: self.bits & !rhs.bits }
    }
}

impl vstd::std_specs::ops::SubSpecImpl for ContextFlushFlags {
    open spec fn obeys_sub_spec() -> bool {
        true
    }

    open spec fn sub_req(self, rhs: Self) -> bool {
        true
    }

    closed spec fn sub_spec(self, rhs: Self) -> Self {
        ContextFlushFlags { bits: self.bits & !rhs.bits }
    }
}

impl core::ops::Not for ContextFlushFlags {
    type Output = Self;

    /// The known flags that are not set here.
    fn not(self) -> (r: Self)
        ensures
            r@ == !self@ & Self::all_bits(),
    {
        proof {
            lemma_mask_within(!self.bits, Self::all_bits());
        }
        ContextFlushFlags { bits: !self.bits & 0x8000_0000 }
    }
}

impl vstd::std_specs::ops::NotSpecImpl for ContextFlushFlags {
    open spec fn obeys_not_spec() -> bool {
        true
    }

    open spec fn not_req(self) -> bool {
        true
    }

    closed spec fn not_spec(self) -> Self {
        ContextFlushFlags { bits: !self.bits & Self::all_bits() }
    }
}

/// Flags used when a context is created.
#[derive(Clone, Copy, Debug, PartialEq, Eq, PartialOrd, Ord, Hash)]
pub struct ContextCreateFlags {
    bits: u32,
}

impl View for ContextCreateFlags {
    type V = u32;

    /// The bits of the flag set.
    closed spec fn view(&self) -> u32 {
        self.bits
    }
}

impl ContextCreateFlags {
    pub const FORCE_THREADS: u32 = 1;
    pub const FALLBACK_TO_SYNC: u32 = 2;
    pub const ISOLATED_THREADS: u32 = 0x10;
    pub const ISOLATED_JIT: u32 = 0x20;
    pub const OVERRIDE_CPU_FEATURES: u32 = 0x40;

    /// The bits of all flags of this set.
    pub open spec fn all_bits() -> u32 {
        0x73
    }

    /// A flag set holds no bit that names no flag.
    #[verifier::type_invariant]
    spec fn holds_known_bits(self) -> bool {
        self.bits & !Self::all_bits() == 0
    }

    /// Two flag sets with the same bits are the same set.
    pub proof fn lemma_view_injective(a: Self, b: Self)
        requires
            a@ == b@,
        ensures
            a == b,
    {
    }

    /// The empty flag set.
    pub fn empty() -> (r: Self)
        ensures
            r@ == 0,
    {
        proof {
            lemma_zero_within(Self::all_bits());
        }
        ContextCreateFlags { bits: 0 }
    }

    /// The flag set holding every flag.
    pub fn all() -> (r: Self)
        ensures
            r@ == Self::all_bits(),
    {
        proof {
            lemma_self_within(Self::all_bits());
        }
        ContextCreateFlags { bits: 0x73 }
    }

    /// The raw bits of the flag set; they name known flags only.
    pub fn bits(&self) -> (r: u32)
        ensures
            r == self@,
            r & !Self::all_bits() == 0,
    {
        proof {
            use_type_invariant(self);
        }
        self.bits
    }

    /// The flag set with the given bits, or `None` where a bit names no flag.
    pub fn from_bits(bits: u32) -> (r: Option<Self>)
        ensures
            r is Some <==> bits & !Self::all_bits() == 0,
            r matches Some(f) ==> f@ == bits,
    {
        if bits & !0x73 == 0 {
            Some(ContextCreateFlags { bits })
        } else {
            None
        }
    }

    /// The flag set with the given bits, dropping bits that name no flag.
    pub fn from_bits_truncate(bits: u32) -> (r: Self)
        ensures
            r@ == bits & Self::all_bits(),
    {
        proof {
            lemma_mask_within(bits, Self::all_bits());
        }
        ContextCreateFlags { bits: bits & 0x73 }
    }

    /// Whether no flag is set.
    pub fn is_empty(&self) -> (r: bool)
        ensures
            r == (self@ == 0),
    {
        self.bits == 0
    }

    /// Whether every flag is set.
    pub fn is_all(&self) -> (r: bool)
        ensures
            r == (self@ == Self::all_bits()),
    {
        self.bits == 0x73
    }

    /// Whether the two sets share a flag.
    pub fn intersects(&self, other: Self) -> (r: bool)
        ensures
            r == (self@ & other@ != 0),
    {
        self.bits & other.bits != 0
    }

    /// Whether every flag of `other` is set here.
    pub fn contains(&self, other: Self) -> (r: bool)
        ensures
            r == (self@ & other@ == other@),
    {
        self.bits & other.bits == other.bits
    }

    /// Sets the flags of `other`.
    pub fn insert(&mut self, other: Self)
        ensures
            final(self)@ == old(self)@ | other@,
    {
        proof {
            use_type_invariant(&*self);
            use_type_invariant(&other);
            lemma_or_within(self.bits, other.bits, Self::all_bits());
        }
        self.bits = self.bits | other.bits;
    }

    /// Clears the flags of `other`.
    pub fn remove(&mut self, other: Self)
        ensures
            final(self)@ == old(self)@ & !other@,
    {
        proof {
            use_type_invariant(&*self);
            lemma_and_not_within(self.bits, other.bits, Self::all_bits());
        }
        self.bits = self.bits & !other.bits;
    }

    /// Flips the flags of `other`.
    pub fn toggle(&mut self, other: Self)
        ensures
            final(self)@ == old(self)@ ^ other@,
    {
        proof {
            use_type_invariant(&*self);
            use_type_invariant(&other);
            lemma_xor_within(self.bits, other.bits, Self::all_bits());
        }
        self.bits = self.bits ^ other.bits;
    }

    /// Sets the flags of `other` where `value` holds and clears them otherwise.
    pub fn set(&mut self, other: Self, value: bool)
        ensures
            value ==> final(self)@ == old(self)@ | other@,
            !value ==> final(self)@ == old(self)@ & !other@,
    {
        if value {
            self.insert(other);
        } else {
            self.remove(other);
        }
    }
}

impl core::ops::BitOr for ContextCreateFlags {
    type Output = Self;

    /// The flags set in either set.
    fn bitor(self, rhs: Self) -> (r: Self)
        ensures
            r@ == self@ | rhs@,
    {
        proof {
            use_type_invariant(&self);
            use_type_invariant(&rhs);
            lemma_or_within(self.bits, rhs.bits, Self::all_bits());
        }
        ContextCreateFlags { bits: self.bits | rhs.bits }
    }
}

impl vstd::std_specs::ops::BitOrSpecImpl for ContextCreateFlags {
    open spec fn obeys_bitor_spec() -> bool {
        true
    }

    open spec fn bitor_req(self, rhs: Self) -> bool {
        true
    }

    closed spec fn bitor_spec(self, rhs: Self) -> Self {
        ContextCreateFlags { bits: self.bits | rhs.bits }
    }
}

impl core::ops::BitAnd for ContextCreateFlags {
    type Output = Self;

    /// The flags set in both sets.
    fn bitand(self, rhs: Self) -> (r: Self)
        ensures
            r@ == self@ & rhs@,
    {
        proof {
            use_type_invariant(&self);
            lemma_and_within(self.bits, rhs.bits, Self::all_bits());
        }
        ContextCreateFlags { bits: self.bits & rhs.bits }
    }
}

impl vstd::std_specs::ops::BitAndSpecImpl for ContextCreateFlags {
    open spec fn obeys_bitand_spec() -> bool {
        true
    }

    open spec fn bitand_req(self, rhs: Self) -> bool {
        true
    }

    closed spec fn bitand_spec(self, rhs: Self) -> Self {
        ContextCreateFlags { bits: self.bits & rhs.bits }
    }
}

impl core::ops::BitXor for ContextCreateFlags {
    type Output = Self;

    /// The flags set in exactly one of the sets.
    fn bitxor(self, rhs: Self) -> (r: Self)
        ensures
            r@ == self@ ^ rhs@,
    {
        proof {
            use_type_invariant(&self);
            use_type_invariant(&rhs);
            lemma_xor_within(self.bits, rhs.bits, Self::all_bits());
        }
        ContextCreateFlags { bits: self.bits ^ rhs.bits }
    }
}

impl vstd::std_specs::ops::BitXorSpecImpl for ContextCreateFlags {
    open spec fn obeys_bitxor_spec() -> bool {
        true
    }

    open spec fn bitxor_req(self, rhs: Self) -> bool {
        true
    }

    closed spec fn bitxor_spec(self, rhs: Self) -> Self {
        ContextCreateFlags { bits: self.bits ^ rhs.bits }
    }
}

impl core::ops::Sub for ContextCreateFlags {
    type Output = Self;

    /// The flags set here and not in `rhs`.
    fn sub(self, rhs: Self) -> (r: Self)
        ensures
            r@ == self@ & !rhs@,
    {
        proof {
            use_type_invariant(&self);
            lemma_and_not_within(self.bits, rhs.bits, Self::all_bits());
        }
        ContextCreateFlags { bits: self.bits & !rhs.bits }
    }
}

impl vstd::std_specs::ops::SubSpecImpl for ContextCreateFlags {
    open spec fn obeys_sub_spec() -> bool {
        true
    }

    open spec fn sub_req(self, rhs: Self) -> bool {
        true
    }

    closed spec fn sub_spec(self, rhs: Self) -> Self {
        ContextCreateFlags { bits: self.bits & !rhs.bits }
    }
}

impl core::ops::Not for ContextCreateFlags {
    type Output = Self;

    /// The known flags that are not set here.
    fn not(self) -> (r: Self)
        ensures
            r@ == !self@ & Self::all_bits(),
    {
        proof {
            lemma_mask_within(!self.bits, Self::all_bits());
        }
        ContextCreateFlags { bits: !self.bits & 0x73 }
    }
}

impl vstd::std_specs::ops::NotSpecImpl for ContextCreateFlags {
    open spec fn obeys_not_spec() -> bool {
        true
    }

    open spec fn not_req(self) -> bool {
        true
    }

    closed spec fn not_spec(self) -> Self {
        ContextCreateFlags { bits: !self.bits & Self::all_bits() }
    }
}

/// Options used when a context is created.
#[derive(Copy, Clone, Debug, PartialEq)]
pub struct ContextCreateInfo {
    pub flags: ContextCreateFlags,
    pub thread_count: u32,
    pub cpu_features: u32,
}

/// The rendering hints of a context.
#[derive(Copy, Clone, Debug, PartialEq)]
pub struct ContextHints {
    pub rendering_quality: u8,
    pub gradient_quality: u8,
    pub pattern_quality: u8,
}

} // verus!

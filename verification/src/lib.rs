//! Verified core of a binding to the blend2d 2D vector graphics engine: its
//! result codes, enumerations, flag sets, plain value types and the decisions
//! that the engine's callers make on them.
use vstd::prelude::*;

pub mod codec;
pub mod context;
pub mod error;
pub mod flags;
pub mod font_defs;
pub mod format;
pub mod geometry;
pub mod gradient;
pub mod image;
pub mod matrix;
pub mod path;
pub mod region;
pub mod runtime;
pub mod util;

use crate::flags::{
    lemma_and_not_within, lemma_and_within, lemma_mask_within, lemma_or_within, lemma_self_within, lemma_xor_within,
    lemma_zero_within,
};

verus! {

/// A boolean operation used to combine two regions.
#[derive(Clone, Copy, Debug, PartialEq, Eq, PartialOrd)]
pub enum BooleanOp {
    Copy,
    And,
    Or,
    Xor,
    Sub,
}

impl BooleanOp {
    /// The value blend2d uses for this variant.
    pub open spec fn bl_value(self) -> u32 {
        match self {
            BooleanOp::Copy => 0,
            BooleanOp::And => 1,
            BooleanOp::Or => 2,
            BooleanOp::Xor => 3,
            BooleanOp::Sub => 4,
        }
    }

    /// Looks a blend2d value up: the variant that has it, or the default
    /// variant for a value that no variant has.
    pub open spec fn from_bl_value(value: u32) -> BooleanOp {
        if value == 0 {
            BooleanOp::Copy
        } else if value == 1 {
            BooleanOp::And
        } else if value == 2 {
            BooleanOp::Or
        } else if value == 3 {
            BooleanOp::Xor
        } else if value == 4 {
            BooleanOp::Sub
        } else {
            BooleanOp::Copy
        }
    }

    /// Distinct variants have distinct blend2d values.
    pub proof fn lemma_bl_value_injective(a: BooleanOp, b: BooleanOp)
        requires
            a.bl_value() == b.bl_value(),
        ensures
            a == b,
    {
    }

    /// Converting a variant to its blend2d value and back gives the same variant.
    pub proof fn lemma_value_roundtrip(self)
        ensures
            BooleanOp::from_bl_value(self.bl_value()) == self,
    {
    }

    /// Looking a value up gives the variant that has it, and the default
    /// variant exactly where no variant has it.
    pub proof fn lemma_from_bl_value(value: u32)
        ensures
            (exists|v: BooleanOp| v.bl_value() == value) ==> BooleanOp::from_bl_value(value).bl_value() == value,
            (forall|v: BooleanOp| v.bl_value() != value) ==> BooleanOp::from_bl_value(value) == BooleanOp::Copy,
    {
        if forall|v: BooleanOp| v.bl_value() != value {
            assert(BooleanOp::Copy.bl_value() != value);
            assert(BooleanOp::And.bl_value() != value);
            assert(BooleanOp::Or.bl_value() != value);
            assert(BooleanOp::Xor.bl_value() != value);
            assert(BooleanOp::Sub.bl_value() != value);
        }
    }
}

impl From<u32> for BooleanOp {
    fn from(val: u32) -> (r: BooleanOp) {
        if val == 0 {
            BooleanOp::Copy
        } else if val == 1 {
            BooleanOp::And
        } else if val == 2 {
            BooleanOp::Or
        } else if val == 3 {
            BooleanOp::Xor
        } else if val == 4 {
            BooleanOp::Sub
        } else {
            BooleanOp::Copy
        }
    }
}

impl vstd::std_specs::convert::FromSpecImpl<u32> for BooleanOp {
    open spec fn obeys_from_spec() -> bool {
        true
    }

    open spec fn from_spec(val: u32) -> BooleanOp {
        BooleanOp::from_bl_value(val)
    }
}

impl From<BooleanOp> for u32 {
    fn from(val: BooleanOp) -> (r: u32) {
        match val {
            BooleanOp::Copy => 0,
            BooleanOp::And => 1,
            BooleanOp::Or => 2,
            BooleanOp::Xor => 3,
            BooleanOp::Sub => 4,
        }
    }
}

impl vstd::std_specs::convert::FromSpecImpl<BooleanOp> for u32 {
    open spec fn obeys_from_spec() -> bool {
        true
    }

    open spec fn from_spec(val: BooleanOp) -> u32 {
        val.bl_value()
    }
}

impl Default for BooleanOp {
    fn default() -> (r: BooleanOp)
        ensures
            r == BooleanOp::Copy,
    {
        BooleanOp::Copy
    }
}

/// How a pattern or gradient extends beyond its area.
#[derive(Clone, Copy, Debug, PartialEq, Eq, PartialOrd)]
pub enum ExtendMode {
    PadXPadY,
    RepeatXRepeatY,
    ReflectXReflectY,
    PadXRepeatY,
    PadXReflectY,
    RepeatXPadY,
    RepeatXReflectY,
    ReflectXPadY,
    ReflectXRepeatY,
}

impl ExtendMode {
    /// The value blend2d uses for this variant.
    pub open spec fn bl_value(self) -> u32 {
        match self {
            ExtendMode::PadXPadY => 0,
            ExtendMode::RepeatXRepeatY => 1,
            ExtendMode::ReflectXReflectY => 2,
            ExtendMode::PadXRepeatY => 3,
            ExtendMode::PadXReflectY => 4,
            ExtendMode::RepeatXPadY => 5,
            ExtendMode::RepeatXReflectY => 6,
            ExtendMode::ReflectXPadY => 7,
            ExtendMode::ReflectXRepeatY => 8,
        }
    }

    /// Looks a blend2d value up: the variant that has it, or the default
    /// variant for a value that no variant has.
    pub open spec fn from_bl_value(value: u32) -> ExtendMode {
        if value == 0 {
            ExtendMode::PadXPadY
        } else if value == 1 {
            ExtendMode::RepeatXRepeatY
        } else if value == 2 {
            ExtendMode::ReflectXReflectY
        } else if value == 3 {
            ExtendMode::PadXRepeatY
        } else if value == 4 {
            ExtendMode::PadXReflectY
        } else if value == 5 {
            ExtendMode::RepeatXPadY
        } else if value == 6 {
            ExtendMode::RepeatXReflectY
        } else if value == 7 {
            ExtendMode::ReflectXPadY
        } else if value == 8 {
            ExtendMode::ReflectXRepeatY
        } else {
            ExtendMode::PadXPadY
        }
    }

    /// Distinct variants have distinct blend2d values.
    pub proof fn lemma_bl_value_injective(a: ExtendMode, b: ExtendMode)
        requires
            a.bl_value() == b.bl_value(),
        ensures
            a == b,
    {
    }

    /// Converting a variant to its blend2d value and back gives the same variant.
    pub proof fn lemma_value_roundtrip(self)
        ensures
            ExtendMode::from_bl_value(self.bl_value()) == self,
    {
    }

    /// Looking a value up gives the variant that has it, and the default
    /// variant exactly where no variant has it.
    pub proof fn lemma_from_bl_value(value: u32)
        ensures
            (exists|v: ExtendMode| v.bl_value() == value) ==> ExtendMode::from_bl_value(value).bl_value() == value,
            (forall|v: ExtendMode| v.bl_value() != value) ==> ExtendMode::from_bl_value(value) == ExtendMode::PadXPadY,
    {
        if forall|v: ExtendMode| v.bl_value() != value {
            assert(ExtendMode::PadXPadY.bl_value() != value);
            assert(ExtendMode::RepeatXRepeatY.bl_value() != value);
            assert(ExtendMode::ReflectXReflectY.bl_value() != value);
            assert(ExtendMode::PadXRepeatY.bl_value() != value);
            assert(ExtendMode::PadXReflectY.bl_value() != value);
            assert(ExtendMode::RepeatXPadY.bl_value() != value);
            assert(ExtendMode::RepeatXReflectY.bl_value() != value);
            assert(ExtendMode::ReflectXPadY.bl_value() != value);
            assert(ExtendMode::ReflectXRepeatY.bl_value() != value);
        }
    }
}

impl From<u32> for ExtendMode {
    fn from(val: u32) -> (r: ExtendMode) {
        if val == 0 {
            ExtendMode::PadXPadY
        } else if val == 1 {
            ExtendMode::RepeatXRepeatY
        } else if val == 2 {
            ExtendMode::ReflectXReflectY
        } else if val == 3 {
            ExtendMode::PadXRepeatY
        } else if val == 4 {
            ExtendMode::PadXReflectY
        } else if val == 5 {
            ExtendMode::RepeatXPadY
        } else if val == 6 {
            ExtendMode::RepeatXReflectY
        } else if val == 7 {
            ExtendMode::ReflectXPadY
        } else if val == 8 {
            ExtendMode::ReflectXRepeatY
        } else {
            ExtendMode::PadXPadY
        }
    }
}

impl vstd::std_specs::convert::FromSpecImpl<u32> for ExtendMode {
    open spec fn obeys_from_spec() -> bool {
        true
    }

    open spec fn from_spec(val: u32) -> ExtendMode {
        ExtendMode::from_bl_value(val)
    }
}

impl From<ExtendMode> for u32 {
    fn from(val: ExtendMode) -> (r: u32) {
        match val {
            ExtendMode::PadXPadY => 0,
            ExtendMode::RepeatXRepeatY => 1,
            ExtendMode::ReflectXReflectY => 2,
            ExtendMode::PadXRepeatY => 3,
            ExtendMode::PadXReflectY => 4,
            ExtendMode::RepeatXPadY => 5,
            ExtendMode::RepeatXReflectY => 6,
            ExtendMode::ReflectXPadY => 7,
            ExtendMode::ReflectXRepeatY => 8,
        }
    }
}

impl vstd::std_specs::convert::FromSpecImpl<ExtendMode> for u32 {
    open spec fn obeys_from_spec() -> bool {
        true
    }

    open spec fn from_spec(val: ExtendMode) -> u32 {
        val.bl_value()
    }
}

impl Default for ExtendMode {
    fn default() -> (r: ExtendMode)
        ensures
            r == ExtendMode::PadXPadY,
    {
        ExtendMode::PadXPadY
    }
}

/// The kind of style used to fill or stroke.
#[derive(Clone, Copy, Debug, PartialEq, Eq, PartialOrd)]
pub enum StyleType {
    NoStyle,
    Solid,
    Pattern,
    Gradient,
}

impl StyleType {
    /// The value blend2d uses for this variant.
    pub open spec fn bl_value(self) -> u32 {
        match self {
            StyleType::NoStyle => 0,
            StyleType::Solid => 1,
            StyleType::Pattern => 2,
            StyleType::Gradient => 3,
        }
    }

    /// Looks a blend2d value up: the variant that has it, or the default
    /// variant for a value that no variant has.
    pub open spec fn from_bl_value(value: u32) -> StyleType {
        if value == 0 {
            StyleType::NoStyle
        } else if value == 1 {
            StyleType::Solid
        } else if value == 2 {
            StyleType::Pattern
        } else if value == 3 {
            StyleType::Gradient
        } else {
            StyleType::NoStyle
        }
    }

    /// Distinct variants have distinct blend2d values.
    pub proof fn lemma_bl_value_injective(a: StyleType, b: StyleType)
        requires
            a.bl_value() == b.bl_value(),
        ensures
            a == b,
    {
    }

    /// Converting a variant to its blend2d value and back gives the same variant.
    pub proof fn lemma_value_roundtrip(self)
        ensures
            StyleType::from_bl_value(self.bl_value()) == self,
    {
    }

    /// Looking a value up gives the variant that has it, and the default
    /// variant exactly where no variant has it.
    pub proof fn lemma_from_bl_value(value: u32)
        ensures
            (exists|v: StyleType| v.bl_value() == value) ==> StyleType::from_bl_value(value).bl_value() == value,
            (forall|v: StyleType| v.bl_value() != value) ==> StyleType::from_bl_value(value) == StyleType::NoStyle,
    {
        if forall|v: StyleType| v.bl_value() != value {
            assert(StyleType::NoStyle.bl_value() != value);
            assert(StyleType::Solid.bl_value() != value);
            assert(StyleType::Pattern.bl_value() != value);
            assert(StyleType::Gradient.bl_value() != value);
        }
    }
}

impl From<u32> for StyleType {
    fn from(val: u32) -> (r: StyleType) {
        if val == 0 {
            StyleType::NoStyle
        } else if val == 1 {
            StyleType::Solid
        } else if val == 2 {
            StyleType::Pattern
        } else if val == 3 {
            StyleType::Gradient
        } else {
            StyleType::NoStyle
        }
    }
}

impl vstd::std_specs::convert::FromSpecImpl<u32> for StyleType {
    open spec fn obeys_from_spec() -> bool {
        true
    }

    open spec fn from_spec(val: u32) -> StyleType {
        StyleType::from_bl_value(val)
    }
}

impl From<StyleType> for u32 {
    fn from(val: StyleType) -> (r: u32) {
        match val {
            StyleType::NoStyle => 0,
            StyleType::Solid => 1,
            StyleType::Pattern => 2,
            StyleType::Gradient => 3,
        }
    }
}

impl vstd::std_specs::convert::FromSpecImpl<StyleType> for u32 {
    open spec fn obeys_from_spec() -> bool {
        true
    }

    open spec fn from_spec(val: StyleType) -> u32 {
        val.bl_value()
    }
}

impl Default for StyleType {
    fn default() -> (r: StyleType)
        ensures
            r == StyleType::NoStyle,
    {
        StyleType::NoStyle
    }
}

/// Access flags used when reading data.
#[derive(Clone, Copy, Debug, PartialEq, Eq, PartialOrd, Ord, Hash)]
pub struct DataAccessFlags {
    bits: u32,
}

impl View for DataAccessFlags {
    type V = u32;

    /// The bits of the flag set.
    closed spec fn view(&self) -> u32 {
        self.bits
    }
}

impl DataAccessFlags {
    /// The data may be read.
    pub const READ: u32 = 1;
    /// The data may be written.
    pub const WRITE: u32 = 2;
    /// The data may be read and written.
    pub const READ_WRITE: u32 = 3;

    /// The bits of all flags of this set.
    pub open spec fn all_bits() -> u32 {
        3
    }

    /// A flag set holds no bit that names no flag.
    #[verifier::type_invariant]
    spec fn holds_known_bits(self) -> bool {
        self.bits & !Self::all_bits() == 0
    }

    /// Two flag sets with the same bits are the same set.
    pub proof fn lemma_view_injective(a: Self, b: Self)
        requires
            a@ == b@,
        ensures
            a == b,
    {
    }

    /// The empty flag set.
    pub fn empty() -> (r: Self)
        ensures
            r@ == 0,
    {
        proof {
            lemma_zero_within(Self::all_bits());
        }
        DataAccessFlags { bits: 0 }
    }

    /// The flag set holding every flag.
    pub fn all() -> (r: Self)
        ensures
            r@ == Self::all_bits(),
    {
        proof {
            lemma_self_within(Self::all_bits());
        }
        DataAccessFlags { bits: 3 }
    }

    /// The raw bits of the flag set; they name known flags only.
    pub fn bits(&self) -> (r: u32)
        ensures
            r == self@,
            r & !Self::all_bits() == 0,
    {
        proof {
            use_type_invariant(self);
        }
        self.bits
    }

    /// The flag set with the given bits, or `None` where a bit names no flag.
    pub fn from_bits(bits: u32) -> (r: Option<Self>)
        ensures
            r is Some <==> bits & !Self::all_bits() == 0,
            r matches Some(f) ==> f@ == bits,
    {
        if bits & !3 == 0 {
            Some(DataAccessFlags { bits })
        } else {
            None
        }
    }

    /// The flag set with the given bits, dropping bits that name no flag.
    pub fn from_bits_truncate(bits: u32) -> (r: Self)
        ensures
            r@ == bits & Self::all_bits(),
    {
        proof {
            lemma_mask_within(bits, Self::all_bits());
        }
        DataAccessFlags { bits: bits & 3 }
    }

    /// Whether no flag is set.
    pub fn is_empty(&self) -> (r: bool)
        ensures
            r == (self@ == 0),
    {
        self.bits == 0
    }

    /// Whether every flag is set.
    pub fn is_all(&self) -> (r: bool)
        ensures
            r == (self@ == Self::all_bits()),
    {
        self.bits == 3
    }

    /// Whether the two sets share a flag.
    pub fn intersects(&self, other: Self) -> (r: bool)
        ensures
            r == (self@ & other@ != 0),
    {
        self.bits & other.bits != 0
    }

    /// Whether every flag of `other` is set here.
    pub fn contains(&self, other: Self) -> (r: bool)
        ensures
            r == (self@ & other@ == other@),
    {
        self.bits & other.bits == other.bits
    }

    /// Sets the flags of `other`.
    pub fn insert(&mut self, other: Self)
        ensures
            final(self)@ == old(self)@ | other@,
    {
        proof {
            use_type_invariant(&*self);
            use_type_invariant(&other);
            lemma_or_within(self.bits, other.bits, Self::all_bits());
        }
        self.bits = self.bits | other.bits;
    }

    /// Clears the flags of `other`.
    pub fn remove(&mut self, other: Self)
        ensures
            final(self)@ == old(self)@ & !other@,
    {
        proof {
            use_type_invariant(&*self);
            lemma_and_not_within(self.bits, other.bits, Self::all_bits());
        }
        self.bits = self.bits & !other.bits;
    }

    /// Flips the flags of `other`.
    pub fn toggle(&mut self, other: Self)
        ensures
            final(self)@ == old(self)@ ^ other@,
    {
        proof {
            use_type_invariant(&*self);
            use_type_invariant(&other);
            lemma_xor_within(self.bits, other.bits, Self::all_bits());
        }
        self.bits = self.bits ^ other.bits;
    }

    /// Sets the flags of `other` where `value` holds and clears them otherwise.
    pub fn set(&mut self, other: Self, value: bool)
        ensures
            value ==> final(self)@ == old(self)@ | other@,
            !value ==> final(self)@ == old(self)@ & !other@,
    {
        if value {
            self.insert(other);
        } else {
            self.remove(other);
        }
    }
}

impl core::ops::BitOr for DataAccessFlags {
    type Output = Self;

    /// The flags set in either set.
    fn bitor(self, rhs: Self) -> (r: Self)
        ensures
            r@ == self@ | rhs@,
    {
        proof {
            use_type_invariant(&self);
            use_type_invariant(&rhs);
            lemma_or_within(self.bits, rhs.bits, Self::all_bits());
        }
        DataAccessFlags { bits: self.bits | rhs.bits }
    }
}

impl vstd::std_specs::ops::BitOrSpecImpl for DataAccessFlags {
    open spec fn obeys_bitor_spec() -> bool {
        true
    }

    open spec fn bitor_req(self, rhs: Self) -> bool {
        true
    }

    closed spec fn bitor_spec(self, rhs: Self) -> Self {
        DataAccessFlags { bits: self.bits | rhs.bits }
    }
}

impl core::ops::BitAnd for DataAccessFlags {
    type Output = Self;

    /// The flags set in both sets.
    fn bitand(self, rhs: Self) -> (r: Self)
        ensures
            r@ == self@ & rhs@,
    {
        proof {
            use_type_invariant(&self);
            lemma_and_within(self.bits, rhs.bits, Self::all_bits());
        }
        DataAccessFlags { bits: self.bits & rhs.bits }
    }
}

impl vstd::std_specs::ops::BitAndSpecImpl for DataAccessFlags {
    open spec fn obeys_bitand_spec() -> bool {
        true
    }

    open spec fn bitand_req(self, rhs: Self) -> bool {
        true
    }

    closed spec fn bitand_spec(self, rhs: Self) -> Self {
        DataAccessFlags { bits: self.bits & rhs.bits }
    }
}

impl core::ops::BitXor for DataAccessFlags {
    type Output = Self;

    /// The flags set in exactly one of the sets.
    fn bitxor(self, rhs: Self) -> (r: Self)
        ensures
            r@ == self@ ^ rhs@,
    {
        proof {
            use_type_invariant(&self);
            use_type_invariant(&rhs);
            lemma_xor_within(self.bits, rhs.bits, Self::all_bits());
        }
        DataAccessFlags { bits: self.bits ^ rhs.bits }
    }
}

impl vstd::std_specs::ops::BitXorSpecImpl for DataAccessFlags {
    open spec fn obeys_bitxor_spec() -> bool {
        true
    }

    open spec fn bitxor_req(self, rhs: Self) -> bool {
        true
    }

    closed spec fn bitxor_spec(self, rhs: Self) -> Self {
        DataAccessFlags { bits: self.bits ^ rhs.bits }
    }
}

impl core::ops::Sub for DataAccessFlags {
    type Output = Self;

    /// The flags set here and not in `rhs`.
    fn sub(self, rhs: Self) -> (r: Self)
        ensures
            r@ == self@ & !rhs@,
    {
        proof {
            use_type_invariant(&self);
            lemma_and_not_within(self.bits, rhs.bits, Self::all_bits());
        }
        DataAccessFlags { bits: self.bits & !rhs.bits }
    }
}

impl vstd::std_specs::ops::SubSpecImpl for DataAccessFlags {
    open spec fn obeys_sub_spec() -> bool {
        true
    }

    open spec fn sub_req(self, rhs: Self) -> bool {
        true
    }

    closed spec fn sub_spec(self, rhs: Self) -> Self {
        DataAccessFlags { bits: self.bits & !rhs.bits }
    }
}

impl core::ops::Not for DataAccessFlags {
    type Output = Self;

    /// The known flags that are not set here.
    fn not(self) -> (r: Self)
        ensures
            r@ == !self@ & Self::all_bits(),
    {
        proof {
            lemma_mask_within(!self.bits, Self::all_bits());
        }
        DataAccessFlags { bits: !self.bits & 3 }
    }
}

impl vstd::std_specs::ops::NotSpecImpl for DataAccessFlags {
    open spec fn obeys_not_spec() -> bool {
        true
    }

    open spec fn not_req(self) -> bool {
        true
    }

    closed spec fn not_spec(self) -> Self {
        DataAccessFlags { bits: !self.bits & Self::all_bits() }
    }
}

/// A four-byte OpenType tag.
#[derive(Debug, Copy, Clone, PartialEq)]
pub struct Tag(u32);

} // verus!

//! Runtime build, system and memory information.
use vstd::prelude::*;
use crate::flags::{
    lemma_and_not_within, lemma_and_within, lemma_mask_within, lemma_or_within, lemma_self_within, lemma_xor_within,
    lemma_zero_within,
};

verus! {

/// Blend2D runtime build type.
#[derive(Clone, Copy, Debug, PartialEq, Eq, PartialOrd)]
pub enum BuildType {
    /// Describes a Blend2D debug build.
    Debug,
    /// Describes a Blend2D release build.
    Release,
}

impl BuildType {
    /// The value blend2d uses for this variant.
    pub open spec fn bl_value(self) -> u32 {
        match self {
            BuildType::Debug => 0,
            BuildType::Release => 1,
        }
    }

    /// Looks a blend2d value up: the variant that has it, or the default
    /// variant for a value that no variant has.
    pub open spec fn from_bl_value(value: u32) -> BuildType {
        if value == 0 {
            BuildType::Debug
        } else if value == 1 {
            BuildType::Release
        } else {
            BuildType::Debug
        }
    }

    /// Distinct variants have distinct blend2d values.
    pub proof fn lemma_bl_value_injective(a: BuildType, b: BuildType)
        requires
            a.bl_value() == b.bl_value(),
        ensures
            a == b,
    {
    }

    /// Converting a variant to its blend2d value and back gives the same variant.
    pub proof fn lemma_value_roundtrip(self)
        ensures
            BuildType::from_bl_value(self.bl_value()) == self,
    {
    }

    /// Looking a value up gives the variant that has it, and the default
    /// variant exactly where no variant has it.
    pub proof fn lemma_from_bl_value(value: u32)
        ensures
            (exists|v: BuildType| v.bl_value() == value) ==> BuildType::from_bl_value(value).bl_value() == value,
            (forall|v: BuildType| v.bl_value() != value) ==> BuildType::from_bl_value(value) == BuildType::Debug,
    {
        if forall|v: BuildType| v.bl_value() != value {
            assert(BuildType::Debug.bl_value() != value);
            assert(BuildType::Release.bl_value() != value);
        }
    }
}

impl From<u32> for BuildType {
    fn from(val: u32) -> (r: BuildType) {
        if val == 0 {
            BuildType::Debug
        } else if val == 1 {
            BuildType::Release
        } else {
            BuildType::Debug
        }
    }
}

impl vstd::std_specs::convert::FromSpecImpl<u32> for BuildType {
    open spec fn obeys_from_spec() -> bool {
        true
    }

    open spec fn from_spec(val: u32) -> BuildType {
        BuildType::from_bl_value(val)
    }
}

impl From<BuildType> for u32 {
    fn from(val: BuildType) -> (r: u32) {
        match val {
            BuildType::Debug => 0,
            BuildType::Release => 1,
        }
    }
}

impl vstd::std_specs::convert::FromSpecImpl<BuildType> for u32 {
    open spec fn obeys_from_spec() -> bool {
        true
    }

    open spec fn from_spec(val: BuildType) -> u32 {
        val.bl_value()
    }
}

impl Default for BuildType {
    fn default() -> (r: BuildType)
        ensures
            r == BuildType::Debug,
    {
        BuildType::Debug
    }
}

/// CPU architecture that can be queried by `query_system_info`.
#[derive(Clone, Copy, Debug, PartialEq, Eq, PartialOrd)]
pub enum CpuArch {
    /// Unknown architecture.
    Unknown,
    /// 32-bit or 64-bit X86 architecture.
    X86,
    /// 32-bit or 64-bit ARM architecture.
    Arm,
    /// 32-bit or 64-bit MIPS architecture.
    Mips,
}

impl CpuArch {
    /// The value blend2d uses for this variant.
    pub open spec fn bl_value(self) -> u32 {
        match self {
            CpuArch::Unknown => 0,
            CpuArch::X86 => 1,
            CpuArch::Arm => 2,
            CpuArch::Mips => 3,
        }
    }

    /// Looks a blend2d value up: the variant that has it, or the default
    /// variant for a value that no variant has.
    pub open spec fn from_bl_value(value: u32) -> CpuArch {
        if value == 0 {
            CpuArch::Unknown
        } else if value == 1 {
            CpuArch::X86
        } else if value == 2 {
            CpuArch::Arm
        } else if value == 3 {
            CpuArch::Mips
        } else {
            CpuArch::Unknown
        }
    }

    /// Distinct variants have distinct blend2d values.
    pub proof fn lemma_bl_value_injective(a: CpuArch, b: CpuArch)
        requires
            a.bl_value() == b.bl_value(),
        ensures
            a == b,
    {
    }

    /// Converting a variant to its blend2d value and back gives the same variant.
    pub proof fn lemma_value_roundtrip(self)
        ensures
            CpuArch::from_bl_value(self.bl_value()) == self,
    {
    }

    /// Looking a value up gives the variant that has it, and the default
    /// variant exactly where no variant has it.
    pub proof fn lemma_from_bl_value(value: u32)
        ensures
            (exists|v: CpuArch| v.bl_value() == value) ==> CpuArch::from_bl_value(value).bl_value() == value,
            (forall|v: CpuArch| v.bl_value() != value) ==> CpuArch::from_bl_value(value) == CpuArch::Unknown,
    {
        if forall|v: CpuArch| v.bl_value() != value {
            assert(CpuArch::Unknown.bl_value() != value);
            assert(CpuArch::X86.bl_value() != value);
            assert(CpuArch::Arm.bl_value() != value);
            assert(CpuArch::Mips.bl_value() != value);
        }
    }
}

impl From<u32> for CpuArch {
    fn from(val: u32) -> (r: CpuArch) {
        if val == 0 {
            CpuArch::Unknown
        } else if val == 1 {
            CpuArch::X86
        } else if val == 2 {
            CpuArch::Arm
        } else if val == 3 {
            CpuArch::Mips
        } else {
            CpuArch::Unknown
        }
    }
}

impl vstd::std_specs::convert::FromSpecImpl<u32> for CpuArch {
    open spec fn obeys_from_spec() -> bool {
        true
    }

    open spec fn from_spec(val: u32) -> CpuArch {
        CpuArch::from_bl_value(val)
    }
}

impl From<CpuArch> for u32 {
    fn from(val: CpuArch) -> (r: u32) {
        match val {
            CpuArch::Unknown => 0,
            CpuArch::X86 => 1,
            CpuArch::Arm => 2,
            CpuArch::Mips => 3,
        }
    }
}

impl vstd::std_specs::convert::FromSpecImpl<CpuArch> for u32 {
    open spec fn obeys_from_spec() -> bool {
        true
    }

    open spec fn from_spec(val: CpuArch) -> u32 {
        val.bl_value()
    }
}

impl Default for CpuArch {
    fn default() -> (r: CpuArch)
        ensures
            r == CpuArch::Unknown,
    {
        CpuArch::Unknown
    }
}

/// CPU features Blend2D supports.
#[derive(Clone, Copy, Debug, PartialEq, Eq, PartialOrd, Ord, Hash)]
pub struct CpuFeatures {
    bits: u32,
}

impl View for CpuFeatures {
    type V = u32;

    /// The bits of the flag set.
    closed spec fn view(&self) -> u32 {
        self.bits
    }
}

impl CpuFeatures {
    pub const X86_SSE2: u32 = 1;
    pub const X86_SSE3: u32 = 2;
    pub const X86_SSSE3: u32 = 4;
    pub const X86_SSE4_1: u32 = 8;
    pub const X86_SSE4_2: u32 = 0x10;
    pub const X86_AVX: u32 = 0x20;
    pub const X86_AVX2: u32 = 0x40;

    /// The bits of all flags of this set.
    pub open spec fn all_bits() -> u32 {
        0x7F
    }

    /// A flag set holds no bit that names no flag.
    #[verifier::type_invariant]
    spec fn holds_known_bits(self) -> bool {
        self.bits & !Self::all_bits() == 0
    }

    /// Two flag sets with the same bits are the same set.
    pub proof fn lemma_view_injective(a: Self, b: Self)
        requires
            a@ == b@,
        ensures
            a == b,
    {
    }

    /// The empty flag set.
    pub fn empty() -> (r: Self)
        ensures
            r@ == 0,
    {
        proof {
            lemma_zero_within(Self::all_bits());
        }
        CpuFeatures { bits: 0 }
    }

    /// The flag set holding every flag.
    pub fn all() -> (r: Self)
        ensures
            r@ == Self::all_bits(),
    {
        proof {
            lemma_self_within(Self::all_bits());
        }
        CpuFeatures { bits: 0x7F }
    }

    /// The raw bits of the flag set; they name known flags only.
    pub fn bits(&self) -> (r: u32)
        ensures
            r == self@,
            r & !Self::all_bits() == 0,
    {
        proof {
            use_type_invariant(self);
        }
        self.bits
    }

    /// The flag set with the given bits, or `None` where a bit names no flag.
    pub fn from_bits(bits: u32) -> (r: Option<Self>)
        ensures
            r is Some <==> bits & !Self::all_bits() == 0,
            r matches Some(f) ==> f@ == bits,
    {
        if bits & !0x7F == 0 {
            Some(CpuFeatures { bits })
        } else {
            None
        }
    }

    /// The flag set with the given bits, dropping bits that name no flag.
    pub fn from_bits_truncate(bits: u32) -> (r: Self)
        ensures
            r@ == bits & Self::all_bits(),
    {
        proof {
            lemma_mask_within(bits, Self::all_bits());
        }
        CpuFeatures { bits: bits & 0x7F }
    }

    /// Whether no flag is set.
    pub fn is_empty(&self) -> (r: bool)
        ensures
            r == (self@ == 0),
    {
        self.bits == 0
    }

    /// Whether every flag is set.
    pub fn is_all(&self) -> (r: bool)
        ensures
            r == (self@ == Self::all_bits()),
    {
        self.bits == 0x7F
    }

    /// Whether the two sets share a flag.
    pub fn intersects(&self, other: Self) -> (r: bool)
        ensures
            r == (self@ & other@ != 0),
    {
        self.bits & other.bits != 0
    }

    /// Whether every flag of `other` is set here.
    pub fn contains(&self, other: Self) -> (r: bool)
        ensures
            r == (self@ & other@ == other@),
    {
        self.bits & other.bits == other.bits
    }

    /// Sets the flags of `other`.
    pub fn insert(&mut self, other: Self)
        ensures
            final(self)@ == old(self)@ | other@,
    {
        proof {
            use_type_invariant(&*self);
            use_type_invariant(&other);
            lemma_or_within(self.bits, other.bits, Self::all_bits());
        }
        self.bits = self.bits | other.bits;
    }

    /// Clears the flags of `other`.
    pub fn remove(&mut self, other: Self)
        ensures
            final(self)@ == old(self)@ & !other@,
    {
        proof {
            use_type_invariant(&*self);
            lemma_and_not_within(self.bits, other.bits, Self::all_bits());
        }
        self.bits = self.bits & !other.bits;
    }

    /// Flips the flags of `other`.
    pub fn toggle(&mut self, other: Self)
        ensures
            final(self)@ == old(self)@ ^ other@,
    {
        proof {
            use_type_invariant(&*self);
            use_type_invariant(&other);
            lemma_xor_within(self.bits, other.bits, Self::all_bits());
        }
        self.bits = self.bits ^ other.bits;
    }

    /// Sets the flags of `other` where `value` holds and clears them otherwise.
    pub fn set(&mut self, other: Self, value: bool)
        ensures
            value ==> final(self)@ == old(self)@ | other@,
            !value ==> final(self)@ == old(self)@ & !other@,
    {
        if value {
            self.insert(other);
        } else {
            self.remove(other);
        }
    }
}

impl core::ops::BitOr for CpuFeatures {
    type Output = Self;

    /// The flags set in either set.
    fn bitor(self, rhs: Self) -> (r: Self)
        ensures
            r@ == self@ | rhs@,
    {
        proof {
            use_type_invariant(&self);
            use_type_invariant(&rhs);
            lemma_or_within(self.bits, rhs.bits, Self::all_bits());
        }
        CpuFeatures { bits: self.bits | rhs.bits }
    }
}

impl vstd::std_specs::ops::BitOrSpecImpl for CpuFeatures {
    open spec fn obeys_bitor_spec() -> bool {
        true
    }

    open spec fn bitor_req(self, rhs: Self) -> bool {
        true
    }

    closed spec fn bitor_spec(self, rhs: Self) -> Self {
        CpuFeatures { bits: self.bits | rhs.bits }
    }
}

impl core::ops::BitAnd for CpuFeatures {
    type Output = Self;

    /// The flags set in both sets.
    fn bitand(self, rhs: Self) -> (r: Self)
        ensures
            r@ == self@ & rhs@,
    {
        proof {
            use_type_invariant(&self);
            lemma_and_within(self.bits, rhs.bits, Self::all_bits());
        }
        CpuFeatures { bits: self.bits & rhs.bits }
    }
}

impl vstd::std_specs::ops::BitAndSpecImpl for CpuFeatures {
    open spec fn obeys_bitand_spec() -> bool {
        true
    }

    open spec fn bitand_req(self, rhs: Self) -> bool {
        true
    }

    closed spec fn bitand_spec(self, rhs: Self) -> Self {
        CpuFeatures { bits: self.bits & rhs.bits }
    }
}

impl core::ops::BitXor for CpuFeatures {
    type Output = Self;

    /// The flags set in exactly one of the sets.
    fn bitxor(self, rhs: Self) -> (r: Self)
        ensures
            r@ == self@ ^ rhs@,
    {
        proof {
            use_type_invariant(&self);
            use_type_invariant(&rhs);
            lemma_xor_within(self.bits, rhs.bits, Self::all_bits());
        }
        CpuFeatures { bits: self.bits ^ rhs.bits }
    }
}

impl vstd::std_specs::ops::BitXorSpecImpl for CpuFeatures {
    open spec fn obeys_bitxor_spec() -> bool {
        true
    }

    open spec fn bitxor_req(self, rhs: Self) -> bool {
        true
    }

    closed spec fn bitxor_spec(self, rhs: Self) -> Self {
        CpuFeatures { bits: self.bits ^ rhs.bits }
    }
}

impl core::ops::Sub for CpuFeatures {
    type Output = Self;

    /// The flags set here and not in `rhs`.
    fn sub(self, rhs: Self) -> (r: Self)
        ensures
            r@ == self@ & !rhs@,
    {
        proof {
            use_type_invariant(&self);
            lemma_and_not_within(self.bits, rhs.bits, Self::all_bits());
        }
        CpuFeatures { bits: self.bits & !rhs.bits }
    }
}

impl vstd::std_specs::ops::SubSpecImpl for CpuFeatures {
    open spec fn obeys_sub_spec() -> bool {
        true
    }

    open spec fn sub_req(self, rhs: Self) -> bool {
        true
    }

    closed spec fn sub_spec(self, rhs: Self) -> Self {
        CpuFeatures { bits: self.bits & !rhs.bits }
    }
}

impl core::ops::Not for CpuFeatures {
    type Output = Self;

    /// The known flags that are not set here.
    fn not(self) -> (r: Self)
        ensures
            r@ == !self@ & Self::all_bits(),
    {
        proof {
            lemma_mask_within(!self.bits, Self::all_bits());
        }
        CpuFeatures { bits: !self.bits & 0x7F }
    }
}

impl vstd::std_specs::ops::NotSpecImpl for CpuFeatures {
    open spec fn obeys_not_spec() -> bool {
        true
    }

    open spec fn not_req(self) -> bool {
        true
    }

    closed spec fn not_spec(self) -> Self {
        CpuFeatures { bits: !self.bits & Self::all_bits() }
    }
}

impl Default for CpuFeatures {
    fn default() -> (r: CpuFeatures)
        ensures
            r@ == 0,
    {
        CpuFeatures::empty()
    }
}

/// Runtime cleanup flags that can be used through `cleanup`.
#[derive(Clone, Copy, Debug, PartialEq, Eq, PartialOrd, Ord, Hash)]
pub struct CleanupFlags {
    bits: u32,
}

impl View for CleanupFlags {
    type V = u32;

    /// The bits of the flag set.
    closed spec fn view(&self) -> u32 {
        self.bits
    }
}

impl CleanupFlags {
    /// Cleanup object memory pool.
    pub const OBJECT_POOL: u32 = 1;
    /// Cleanup zeroed memory pool.
    pub const ZEROED_POOL: u32 = 2;
    /// Cleanup thread pool (would join unused threads).
    pub const THREAD_POOL: u32 = 0x0001_0000;

    /// The bits of all flags of this set.
    pub open spec fn all_bits() -> u32 {
        0x0001_0003
    }

    /// A flag set holds no bit that names no flag.
    #[verifier::type_invariant]
    spec fn holds_known_bits(self) -> bool {
        self.bits & !Self::all_bits() == 0
    }

    /// Two flag sets with the same bits are the same set.
    pub proof fn lemma_view_injective(a: Self, b: Self)
        requires
            a@ == b@,
        ensures
            a == b,
    {
    }

    /// The empty flag set.
    pub fn empty() -> (r: Self)
        ensures
            r@ == 0,
    {
        proof {
            lemma_zero_within(Self::all_bits());
        }
        CleanupFlags { bits: 0 }
    }

    /// The flag set holding every flag.
    pub fn all() -> (r: Self)
        ensures
            r@ == Self::all_bits(),
    {
        proof {
            lemma_self_within(Self::all_bits());
        }
        CleanupFlags { bits: 0x0001_0003 }
    }

    /// The raw bits of the flag set; they name known flags only.
    pub fn bits(&self) -> (r: u32)
        ensures
            r == self@,
            r & !Self::all_bits() == 0,
    {
        proof {
            use_type_invariant(self);
        }
        self.bits
    }

    /// The flag set with the given bits, or `None` where a bit names no flag.
    pub fn from_bits(bits: u32) -> (r: Option<Self>)
        ensures
            r is Some <==> bits & !Self::all_bits() == 0,
            r matches Some(f) ==> f@ == bits,
    {
        if bits & !0x0001_0003 == 0 {
            Some(CleanupFlags { bits })
        } else {
            None
        }
    }

    /// The flag set with the given bits, dropping bits that name no flag.
    pub fn from_bits_truncate(bits: u32) -> (r: Self)
        ensures
            r@ == bits & Self::all_bits(),
    {
        proof {
            lemma_mask_within(bits, Self::all_bits());
        }
        CleanupFlags { bits: bits & 0x0001_0003 }
    }

    /// Whether no flag is set.
    pub fn is_empty(&self) -> (r: bool)
        ensures
            r == (self@ == 0),
    {
        self.bits == 0
    }

    /// Whether every flag is set.
    pub fn is_all(&self) -> (r: bool)
        ensures
            r == (self@ == Self::all_bits()),
    {
        self.bits == 0x0001_0003
    }

    /// Whether the two sets share a flag.
    pub fn intersects(&self, other: Self) -> (r: bool)
        ensures
            r == (self@ & other@ != 0),
    {
        self.bits & other.bits != 0
    }

    /// Whether every flag of `other` is set here.
    pub fn contains(&self, other: Self) -> (r: bool)
        ensures
            r == (self@ & other@ == other@),
    {
        self.bits & other.bits == other.bits
    }

    /// Sets the flags of `other`.
    pub fn insert(&mut self, other: Self)
        ensures
            final(self)@ == old(self)@ | other@,
    {
        proof {
            use_type_invariant(&*self);
            use_type_invariant(&other);
            lemma_or_within(self.bits, other.bits, Self::all_bits());
        }
        self.bits = self.bits | other.bits;
    }

    /// Clears the flags of `other`.
    pub fn remove(&mut self, other: Self)
        ensures
            final(self)@ == old(self)@ & !other@,
    {
        proof {
            use_type_invariant(&*self);
            lemma_and_not_within(self.bits, other.bits, Self::all_bits());
        }
        self.bits = self.bits & !other.bits;
    }

    /// Flips the flags of `other`.
    pub fn toggle(&mut self, other: Self)
        ensures
            final(self)@ == old(self)@ ^ other@,
    {
        proof {
            use_type_invariant(&*self);
            use_type_invariant(&other);
            lemma_xor_within(self.bits, other.bits, Self::all_bits());
        }
        self.bits = self.bits ^ other.bits;
    }

    /// Sets the flags of `other` where `value` holds and clears them otherwise.
    pub fn set(&mut self, other: Self, value: bool)
        ensures
            value ==> final(self)@ == old(self)@ | other@,
            !value ==> final(self)@ == old(self)@ & !other@,
    {
        if value {
            self.insert(other);
        } else {
            self.remove(other);
        }
    }
}

impl core::ops::BitOr for CleanupFlags {
    type Output = Self;

    /// The flags set in either set.
    fn bitor(self, rhs: Self) -> (r: Self)
        ensures
            r@ == self@ | rhs@,
    {
        proof {
            use_type_invariant(&self);
            use_type_invariant(&rhs);
            lemma_or_within(self.bits, rhs.bits, Self::all_bits());
        }
        CleanupFlags { bits: self.bits | rhs.bits }
    }
}

impl vstd::std_specs::ops::BitOrSpecImpl for CleanupFlags {
    open spec fn obeys_bitor_spec() -> bool {
        true
    }

    open spec fn bitor_req(self, rhs: Self) -> bool {
        true
    }

    closed spec fn bitor_spec(self, rhs: Self) -> Self {
        CleanupFlags { bits: self.bits | rhs.bits }
    }
}

impl core::ops::BitAnd for CleanupFlags {
    type Output = Self;

    /// The flags set in both sets.
    fn bitand(self, rhs: Self) -> (r: Self)
        ensures
            r@ == self@ & rhs@,
    {
        proof {
            use_type_invariant(&self);
            lemma_and_within(self.bits, rhs.bits, Self::all_bits());
        }
        CleanupFlags { bits: self.bits & rhs.bits }
    }
}

impl vstd::std_specs::ops::BitAndSpecImpl for CleanupFlags {
    open spec fn obeys_bitand_spec() -> bool {
        true
    }

    open spec fn bitand_req(self, rhs: Self) -> bool {
        true
    }

    closed spec fn bitand_spec(self, rhs: Self) -> Self {
        CleanupFlags { bits: self.bits & rhs.bits }
    }
}

impl core::ops::BitXor for CleanupFlags {
    type Output = Self;

    /// The flags set in exactly one of the sets.
    fn bitxor(self, rhs: Self) -> (r: Self)
        ensures
            r@ == self@ ^ rhs@,
    {
        proof {
            use_type_invariant(&self);
            use_type_invariant(&rhs);
            lemma_xor_within(self.bits, rhs.bits, Self::all_bits());
        }
        CleanupFlags { bits: self.bits ^ rhs.bits }
    }
}

impl vstd::std_specs::ops::BitXorSpecImpl for CleanupFlags {
    open spec fn obeys_bitxor_spec() -> bool {
        true
    }

    open spec fn bitxor_req(self, rhs: Self) -> bool {
        true
    }

    closed spec fn bitxor_spec(self, rhs: Self) -> Self {
        CleanupFlags { bits: self.bits ^ rhs.bits }
    }
}

impl core::ops::Sub for CleanupFlags {
    type Output = Self;

    /// The flags set here and not in `rhs`.
    fn sub(self, rhs: Self) -> (r: Self)
        ensures
            r@ == self@ & !rhs@,
    {
        proof {
            use_type_invariant(&self);
            lemma_and_not_within(self.bits, rhs.bits, Self::all_bits());
        }
        CleanupFlags { bits: self.bits & !rhs.bits }
    }
}

impl vstd::std_specs::ops::SubSpecImpl for CleanupFlags {
    open spec fn obeys_sub_spec() -> bool {
        true
    }

    open spec fn sub_req(self, rhs: Self) -> bool {
        true
    }

    closed spec fn sub_spec(self, rhs: Self) -> Self {
        CleanupFlags { bits: self.bits & !rhs.bits }
    }
}

impl core::ops::Not for CleanupFlags {
    type Output = Self;

    /// The known flags that are not set here.
    fn not(self) -> (r: Self)
        ensures
            r@ == !self@ & Self::all_bits(),
    {
        proof {
            lemma_mask_within(!self.bits, Self::all_bits());
        }
        CleanupFlags { bits: !self.bits & 0x0001_0003 }
    }
}

impl vstd::std_specs::ops::NotSpecImpl for CleanupFlags {
    open spec fn obeys_not_spec() -> bool {
        true
    }

    open spec fn not_req(self) -> bool {
        true
    }

    closed spec fn not_spec(self) -> Self {
        CleanupFlags { bits: !self.bits & Self::all_bits() }
    }
}

impl Default for CleanupFlags {
    fn default() -> (r: CleanupFlags)
        ensures
            r@ == 0,
    {
        CleanupFlags::empty()
    }
}

/// Blend2D build information.
#[derive(Copy, Clone, Debug, Default)]
pub struct BuildInfo {
    /// Blend2D version stored as `((MAJOR << 16) | (MINOR << 8) | PATCH)`.
    pub version: u32,
    /// Blend2D build type, see `BuildType`.
    pub build_type: BuildType,
    /// Baseline CPU features, see `CpuFeatures`.
    ///
    /// These features describe CPU features that were detected at compile-time.
    /// Baseline features are used to compile all source files so they represent
    /// the minimum feature-set the target CPU must support to run Blend2D.
    pub baseline_cpu_features: CpuFeatures,
    /// Supported CPU features, see `CpuFeatures`.
    ///
    /// These features represent all features that Blend2D can take advantage
    /// of in code that uses instruction intrinsics.
    pub supported_cpu_features: CpuFeatures,
    /// Maximum size of an image (both width and height).
    pub max_image_size: u32,
    /// Maximum number of threads for asynchronous operations, including
    /// rendering.
    pub max_thread_count: u32,
    /// Reserved, must be zero.
    pub reserved: [u32; 2],
    /// Identification of the C++ compiler used to build Blend2D.
    pub compiler_info: [u8; 32],
}

/// System information queried by the runtime.
#[derive(Copy, Clone, Debug, Default)]
pub struct SystemInfo {
    /// Host CPU architecture, see `CpuArch`.
    pub cpu_arch: CpuArch,
    /// Host CPU features, see `CpuFeatures`.
    pub cpu_features: CpuFeatures,
    /// Number of cores of the host CPU/CPUs.
    pub core_count: u32,
    /// Number of threads of the host CPU/CPUs.
    pub thread_count: u32,
    /// Minimum stack size of threads.
    pub min_thread_stack_size: u32,
    /// Minimum stack size of worker threads used by Blend2D.
    pub min_worker_stack_size: u32,
    /// Allocation granularity of virtual memory (includes thread's stack).
    pub allocation_granularity: u32,
    /// Reserved for future use.
    pub reserved: [u32; 5],
}

/// Blend2D memory information that provides how much memory Blend2D allocated
/// and some other details about memory use.
#[derive(Copy, Clone, Debug, Default)]
pub struct MemoryInfo {
    /// Virtual memory used at this time.
    pub vm_used: usize,
    /// Virtual memory reserved (allocated internally).
    pub vm_reserved: usize,
    /// Overhead required to manage virtual memory allocations.
    pub vm_overhead: usize,
    /// Number of blocks of virtual memory allocated.
    pub vm_block_count: usize,
    /// Zeroed memory used at this time.
    pub zm_used: usize,
    /// Zeroed memory reserved (allocated internally).
    pub zm_reserved: usize,
    /// Overhead required to manage zeroed memory allocations.
    pub zm_overhead: usize,
    /// Number of blocks of zeroed memory allocated.
    pub zm_block_count: usize,
    /// Count of dynamic pipelines created and cached.
    pub dynamic_pipeline_count: usize,
}

} // verus!

//! Image formats and pixel layout.
use vstd::prelude::*;
use crate::flags::{
    lemma_and_not_within, lemma_and_within, lemma_mask_within, lemma_or_within, lemma_self_within, lemma_xor_within,
    lemma_zero_within,
};

verus! {

/// Pixel format.
#[derive(Clone, Copy, Debug, PartialEq, Eq, PartialOrd)]
pub enum ImageFormat {
    /// 32-bit premultiplied ARGB pixel format (8-bit components).
    PRgb32,
    /// 32-bit (X)RGB pixel format (8-bit components, alpha ignored).
    XRgb32,
    /// 8-bit alpha-only pixel format.
    A8,
}

impl ImageFormat {
    /// The value blend2d uses for this variant.
    pub open spec fn bl_value(self) -> u32 {
        match self {
            ImageFormat::PRgb32 => 1,
            ImageFormat::XRgb32 => 2,
            ImageFormat::A8 => 3,
        }
    }

    /// Looks a blend2d value up: the variant that has it, or the default
    /// variant for a value that no variant has.
    pub open spec fn from_bl_value(value: u32) -> ImageFormat {
        if value == 1 {
            ImageFormat::PRgb32
        } else if value == 2 {
            ImageFormat::XRgb32
        } else if value == 3 {
            ImageFormat::A8
        } else {
            ImageFormat::PRgb32
        }
    }

    /// Distinct variants have distinct blend2d values.
    pub proof fn lemma_bl_value_injective(a: ImageFormat, b: ImageFormat)
        requires
            a.bl_value() == b.bl_value(),
        ensures
            a == b,
    {
    }

    /// Converting a variant to its blend2d value and back gives the same variant.
    pub proof fn lemma_value_roundtrip(self)
        ensures
            ImageFormat::from_bl_value(self.bl_value()) == self,
    {
    }

    /// Looking a value up gives the variant that has it, and the default
    /// variant exactly where no variant has it.
    pub proof fn lemma_from_bl_value(value: u32)
        ensures
            (exists|v: ImageFormat| v.bl_value() == value) ==> ImageFormat::from_bl_value(value).bl_value() == value,
            (forall|v: ImageFormat| v.bl_value() != value) ==> ImageFormat::from_bl_value(value) == ImageFormat::PRgb32,
    {
        if forall|v: ImageFormat| v.bl_value() != value {
            assert(ImageFormat::PRgb32.bl_value() != value);
            assert(ImageFormat::XRgb32.bl_value() != value);
            assert(ImageFormat::A8.bl_value() != value);
        }
    }
}

impl From<u32> for ImageFormat {
    fn from(val: u32) -> (r: ImageFormat) {
        if val == 1 {
            ImageFormat::PRgb32
        } else if val == 2 {
            ImageFormat::XRgb32
        } else if val == 3 {
            ImageFormat::A8
        } else {
            ImageFormat::PRgb32
        }
    }
}

impl vstd::std_specs::convert::FromSpecImpl<u32> for ImageFormat {
    open spec fn obeys_from_spec() -> bool {
        true
    }

    open spec fn from_spec(val: u32) -> ImageFormat {
        ImageFormat::from_bl_value(val)
    }
}

impl From<ImageFormat> for u32 {
    fn from(val: ImageFormat) -> (r: u32) {
        match val {
            ImageFormat::PRgb32 => 1,
            ImageFormat::XRgb32 => 2,
            ImageFormat::A8 => 3,
        }
    }
}

impl vstd::std_specs::convert::FromSpecImpl<ImageFormat> for u32 {
    open spec fn obeys_from_spec() -> bool {
        true
    }

    open spec fn from_spec(val: ImageFormat) -> u32 {
        val.bl_value()
    }
}

impl Default for ImageFormat {
    fn default() -> (r: ImageFormat)
        ensures
            r == ImageFormat::PRgb32,
    {
        ImageFormat::PRgb32
    }
}

/// Pixel format flags.
#[derive(Clone, Copy, Debug, PartialEq, Eq, PartialOrd, Ord, Hash)]
pub struct FormatFlags {
    bits: u32,
}

impl View for FormatFlags {
    type V = u32;

    /// The bits of the flag set.
    closed spec fn view(&self) -> u32 {
        self.bits
    }
}

impl FormatFlags {
    /// Pixel format provides RGB components.
    pub const RGB: u32 = 1;
    /// Pixel format provides only alpha component.
    pub const ALPHA: u32 = 2;
    /// A combination of RGB | ALPHA.
    pub const RGBA: u32 = 3;
    /// Pixel format provides LUM component (and not RGB components).
    pub const LUM: u32 = 4;
    /// A combination of LUM | ALPHA.
    pub const LUMA: u32 = 6;
    /// Indexed pixel format the requres a palette (I/O only).
    pub const INDEXED: u32 = 0x10;
    /// RGB components are premultiplied by alpha component.
    pub const PREMULTIPLIED: u32 = 0x100;
    /// Pixel format doesn't use native byte-order (I/O only).
    pub const BYTE_SWAP: u32 = 0x200;
    /// Pixel components are byte aligned (all 8bpp).
    pub const BYTE_ALIGNED: u32 = 0x0001_0000;
    /// Pixel has some undefined bits that represent no information.
    pub const UNDEFINED_BITS: u32 = 0x0002_0000;
    /// Zero or `BYTE_SWAP` depending on host byte order; zero on little endian hosts.
    pub const FLAG_LE: u32 = 0;
    /// Zero or `BYTE_SWAP` depending on host byte order; `BYTE_SWAP` on little endian hosts.
    pub const FLAG_BE: u32 = 0x200;

    /// The bits of all flags of this set.
    pub open spec fn all_bits() -> u32 {
        0x0003_0317
    }

    /// A flag set holds no bit that names no flag.
    #[verifier::type_invariant]
    spec fn holds_known_bits(self) -> bool {
        self.bits & !Self::all_bits() == 0
    }

    /// Two flag sets with the same bits are the same set.
    pub proof fn lemma_view_injective(a: Self, b: Self)
        requires
            a@ == b@,
        ensures
            a == b,
    {
    }

    /// The empty flag set.
    pub fn empty() -> (r: Self)
        ensures
            r@ == 0,
    {
        proof {
            lemma_zero_within(Self::all_bits());
        }
        FormatFlags { bits: 0 }
    }

    /// The flag set holding every flag.
    pub fn all() -> (r: Self)
        ensures
            r@ == Self::all_bits(),
    {
        proof {
            lemma_self_within(Self::all_bits());
        }
        FormatFlags { bits: 0x0003_0317 }
    }

    /// The raw bits of the flag set; they name known flags only.
    pub fn bits(&self) -> (r: u32)
        ensures
            r == self@,
            r & !Self::all_bits() == 0,
    {
        proof {
            use_type_invariant(self);
        }
        self.bits
    }

    /// The flag set with the given bits, or `None` where a bit names no flag.
    pub fn from_bits(bits: u32) -> (r: Option<Self>)
        ensures
            r is Some <==> bits & !Self::all_bits() == 0,
            r matches Some(f) ==> f@ == bits,
    {
        if bits & !0x0003_0317 == 0 {
            Some(FormatFlags { bits })
        } else {
            None
        }
    }

    /// The flag set with the given bits, dropping bits that name no flag.
    pub fn from_bits_truncate(bits: u32) -> (r: Self)
        ensures
            r@ == bits & Self::all_bits(),
    {
        proof {
            lemma_mask_within(bits, Self::all_bits());
        }
        FormatFlags { bits: bits & 0x0003_0317 }
    }

    /// Whether no flag is set.
    pub fn is_empty(&self) -> (r: bool)
        ensures
            r == (self@ == 0),
    {
        self.bits == 0
    }

    /// Whether every flag is set.
    pub fn is_all(&self) -> (r: bool)
        ensures
            r == (self@ == Self::all_bits()),
    {
        self.bits == 0x0003_0317
    }

    /// Whether the two sets share a flag.
    pub fn intersects(&self, other: Self) -> (r: bool)
        ensures
            r == (self@ & other@ != 0),
    {
        self.bits & other.bits != 0
    }

    /// Whether every flag of `other` is set here.
    pub fn contains(&self, other: Self) -> (r: bool)
        ensures
            r == (self@ & other@ == other@),
    {
        self.bits & other.bits == other.bits
    }

    /// Sets the flags of `other`.
    pub fn insert(&mut self, other: Self)
        ensures
            final(self)@ == old(self)@ | other@,
    {
        proof {
            use_type_invariant(&*self);
            use_type_invariant(&other);
            lemma_or_within(self.bits, other.bits, Self::all_bits());
        }
        self.bits = self.bits | other.bits;
    }

    /// Clears the flags of `other`.
    pub fn remove(&mut self, other: Self)
        ensures
            final(self)@ == old(self)@ & !other@,
    {
        proof {
            use_type_invariant(&*self);
            lemma_and_not_within(self.bits, other.bits, Self::all_bits());
        }
        self.bits = self.bits & !other.bits;
    }

    /// Flips the flags of `other`.
    pub fn toggle(&mut self, other: Self)
        ensures
            final(self)@ == old(self)@ ^ other@,
    {
        proof {
            use_type_invariant(&*self);
            use_type_invariant(&other);
            lemma_xor_within(self.bits, other.bits, Self::all_bits());
        }
        self.bits = self.bits ^ other.bits;
    }

    /// Sets the flags of `other` where `value` holds and clears them otherwise.
    pub fn set(&mut self, other: Self, value: bool)
        ensures
            value ==> final(self)@ == old(self)@ | other@,
            !value ==> final(self)@ == old(self)@ & !other@,
    {
        if value {
            self.insert(other);
        } else {
            self.remove(other);
        }
    }
}

impl core::ops::BitOr for FormatFlags {
    type Output = Self;

    /// The flags set in either set.
    fn bitor(self, rhs: Self) -> (r: Self)
        ensures
            r@ == self@ | rhs@,
    {
        proof {
            use_type_invariant(&self);
            use_type_invariant(&rhs);
            lemma_or_within(self.bits, rhs.bits, Self::all_bits());
        }
        FormatFlags { bits: self.bits | rhs.bits }
    }
}

impl vstd::std_specs::ops::BitOrSpecImpl for FormatFlags {
    open spec fn obeys_bitor_spec() -> bool {
        true
    }

    open spec fn bitor_req(self, rhs: Self) -> bool {
        true
    }

    closed spec fn bitor_spec(self, rhs: Self) -> Self {
        FormatFlags { bits: self.bits | rhs.bits }
    }
}

impl core::ops::BitAnd for FormatFlags {
    type Output = Self;

    /// The flags set in both sets.
    fn bitand(self, rhs: Self) -> (r: Self)
        ensures
            r@ == self@ & rhs@,
    {
        proof {
            use_type_invariant(&self);
            lemma_and_within(self.bits, rhs.bits, Self::all_bits());
        }
        FormatFlags { bits: self.bits & rhs.bits }
    }
}

impl vstd::std_specs::ops::BitAndSpecImpl for FormatFlags {
    open spec fn obeys_bitand_spec() -> bool {
        true
    }

    open spec fn bitand_req(self, rhs: Self) -> bool {
        true
    }

    closed spec fn bitand_spec(self, rhs: Self) -> Self {
        FormatFlags { bits: self.bits & rhs.bits }
    }
}

impl core::ops::BitXor for FormatFlags {
    type Output = Self;

    /// The flags set in exactly one of the sets.
    fn bitxor(self, rhs: Self) -> (r: Self)
        ensures
            r@ == self@ ^ rhs@,
    {
        proof {
            use_type_invariant(&self);
            use_type_invariant(&rhs);
            lemma_xor_within(self.bits, rhs.bits, Self::all_bits());
        }
        FormatFlags { bits: self.bits ^ rhs.bits }
    }
}

impl vstd::std_specs::ops::BitXorSpecImpl for FormatFlags {
    open spec fn obeys_bitxor_spec() -> bool {
        true
    }

    open spec fn bitxor_req(self, rhs: Self) -> bool {
        true
    }

    closed spec fn bitxor_spec(self, rhs: Self) -> Self {
        FormatFlags { bits: self.bits ^ rhs.bits }
    }
}

impl core::ops::Sub for FormatFlags {
    type Output = Self;

    /// The flags set here and not in `rhs`.
    fn sub(self, rhs: Self) -> (r: Self)
        ensures
            r@ == self@ & !rhs@,
    {
        proof {
            use_type_invariant(&self);
            lemma_and_not_within(self.bits, rhs.bits, Self::all_bits());
        }
        FormatFlags { bits: self.bits & !rhs.bits }
    }
}

impl vstd::std_specs::ops::SubSpecImpl for FormatFlags {
    open spec fn obeys_sub_spec() -> bool {
        true
    }

    open spec fn sub_req(self, rhs: Self) -> bool {
        true
    }

    closed spec fn sub_spec(self, rhs: Self) -> Self {
        FormatFlags { bits: self.bits & !rhs.bits }
    }
}

impl core::ops::Not for FormatFlags {
    type Output = Self;

    /// The known flags that are not set here.
    fn not(self) -> (r: Self)
        ensures
            r@ == !self@ & Self::all_bits(),
    {
        proof {
            lemma_mask_within(!self.bits, Self::all_bits());
        }
        FormatFlags { bits: !self.bits & 0x0003_0317 }
    }
}

impl vstd::std_specs::ops::NotSpecImpl for FormatFlags {
    open spec fn obeys_not_spec() -> bool {
        true
    }

    open spec fn not_req(self) -> bool {
        true
    }

    closed spec fn not_spec(self) -> Self {
        FormatFlags { bits: !self.bits & Self::all_bits() }
    }
}

/// Flags used by `ImageInfo`.
#[derive(Clone, Copy, Debug, PartialEq, Eq, PartialOrd, Ord, Hash)]
pub struct ImageInfoFlags {
    bits: u32,
}

impl View for ImageInfoFlags {
    type V = u32;

    /// The bits of the flag set.
    closed spec fn view(&self) -> u32 {
        self.bits
    }
}

impl ImageInfoFlags {
    /// progressive mode.
    pub const PROGRESSIVE: u32 = 1;

    /// The bits of all flags of this set.
    pub open spec fn all_bits() -> u32 {
        1
    }

    /// A flag set holds no bit that names no flag.
    #[verifier::type_invariant]
    spec fn holds_known_bits(self) -> bool {
        self.bits & !Self::all_bits() == 0
    }

    /// Two flag sets with the same bits are the same set.
    pub proof fn lemma_view_injective(a: Self, b: Self)
        requires
            a@ == b@,
        ensures
            a == b,
    {
    }

    /// The empty flag set.
    pub fn empty() -> (r: Self)
        ensures
            r@ == 0,
    {
        proof {
            lemma_zero_within(Self::all_bits());
        }
        ImageInfoFlags { bits: 0 }
    }

    /// The flag set holding every flag.
    pub fn all() -> (r: Self)
        ensures
            r@ == Self::all_bits(),
    {
        proof {
            lemma_self_within(Self::all_bits());
        }
        ImageInfoFlags { bits: 1 }
    }

    /// The raw bits of the flag set; they name known flags only.
    pub fn bits(&self) -> (r: u32)
        ensures
            r == self@,
            r & !Self::all_bits() == 0,
    {
        proof {
            use_type_invariant(self);
        }
        self.bits
    }

    /// The flag set with the given bits, or `None` where a bit names no flag.
    pub fn from_bits(bits: u32) -> (r: Option<Self>)
        ensures
            r is Some <==> bits & !Self::all_bits() == 0,
            r matches Some(f) ==> f@ == bits,
    {
        if bits & !1 == 0 {
            Some(ImageInfoFlags { bits })
        } else {
            None
        }
    }

    /// The flag set with the given bits, dropping bits that name no flag.
    pub fn from_bits_truncate(bits: u32) -> (r: Self)
        ensures
            r@ == bits & Self::all_bits(),
    {
        proof {
            lemma_mask_within(bits, Self::all_bits());
        }
        ImageInfoFlags { bits: bits & 1 }
    }

    /// Whether no flag is set.
    pub fn is_empty(&self) -> (r: bool)
        ensures
            r == (self@ == 0),
    {
        self.bits == 0
    }

    /// Whether every flag is set.
    pub fn is_all(&self) -> (r: bool)
        ensures
            r == (self@ == Self::all_bits()),
    {
        self.bits == 1
    }

    /// Whether the two sets share a flag.
    pub fn intersects(&self, other: Self) -> (r: bool)
        ensures
            r == (self@ & other@ != 0),
    {
        self.bits & other.bits != 0
    }

    /// Whether every flag of `other` is set here.
    pub fn contains(&self, other: Self) -> (r: bool)
        ensures
            r == (self@ & other@ == other@),
    {
        self.bits & other.bits == other.bits
    }

    /// Sets the flags of `other`.
    pub fn insert(&mut self, other: Self)
        ensures
            final(self)@ == old(self)@ | other@,
    {
        proof {
            use_type_invariant(&*self);
            use_type_invariant(&other);
            lemma_or_within(self.bits, other.bits, Self::all_bits());
        }
        self.bits = self.bits | other.bits;
    }

    /// Clears the flags of `other`.
    pub fn remove(&mut self, other: Self)
        ensures
            final(self)@ == old(self)@ & !other@,
    {
        proof {
            use_type_invariant(&*self);
            lemma_and_not_within(self.bits, other.bits, Self::all_bits());
        }
        self.bits = self.bits & !other.bits;
    }

    /// Flips the flags of `other`.
    pub fn toggle(&mut self, other: Self)
        ensures
            final(self)@ == old(self)@ ^ other@,
    {
        proof {
            use_type_invariant(&*self);
            use_type_invariant(&other);
            lemma_xor_within(self.bits, other.bits, Self::all_bits());
        }
        self.bits = self.bits ^ other.bits;
    }

    /// Sets the flags of `other` where `value` holds and clears them otherwise.
    pub fn set(&mut self, other: Self, value: bool)
        ensures
            value ==> final(self)@ == old(self)@ | other@,
            !value ==> final(self)@ == old(self)@ & !other@,
    {
        if value {
            self.insert(other);
        } else {
            self.remove(other);
        }
    }
}

impl core::ops::BitOr for ImageInfoFlags {
    type Output = Self;

    /// The flags set in either set.
    fn bitor(self, rhs: Self) -> (r: Self)
        ensures
            r@ == self@ | rhs@,
    {
        proof {
            use_type_invariant(&self);
            use_type_invariant(&rhs);
            lemma_or_within(self.bits, rhs.bits, Self::all_bits());
        }
        ImageInfoFlags { bits: self.bits | rhs.bits }
    }
}

impl vstd::std_specs::ops::BitOrSpecImpl for ImageInfoFlags {
    open spec fn obeys_bitor_spec() -> bool {
        true
    }

    open spec fn bitor_req(self, rhs: Self) -> bool {
        true
    }

    closed spec fn bitor_spec(self, rhs: Self) -> Self {
        ImageInfoFlags { bits: self.bits | rhs.bits }
    }
}

impl core::ops::BitAnd for ImageInfoFlags {
    type Output = Self;

    /// The flags set in both sets.
    fn bitand(self, rhs: Self) -> (r: Self)
        ensures
            r@ == self@ & rhs@,
    {
        proof {
            use_type_invariant(&self);
            lemma_and_within(self.bits, rhs.bits, Self::all_bits());
        }
        ImageInfoFlags { bits: self.bits & rhs.bits }
    }
}

impl vstd::std_specs::ops::BitAndSpecImpl for ImageInfoFlags {
    open spec fn obeys_bitand_spec() -> bool {
        true
    }

    open spec fn bitand_req(self, rhs: Self) -> bool {
        true
    }

    closed spec fn bitand_spec(self, rhs: Self) -> Self {
        ImageInfoFlags { bits: self.bits & rhs.bits }
    }
}

impl core::ops::BitXor for ImageInfoFlags {
    type Output = Self;

    /// The flags set in exactly one of the sets.
    fn bitxor(self, rhs: Self) -> (r: Self)
        ensures
            r@ == self@ ^ rhs@,
    {
        proof {
            use_type_invariant(&self);
            use_type_invariant(&rhs);
            lemma_xor_within(self.bits, rhs.bits, Self::all_bits());
        }
        ImageInfoFlags { bits: self.bits ^ rhs.bits }
    }
}

impl vstd::std_specs::ops::BitXorSpecImpl for ImageInfoFlags {
    open spec fn obeys_bitxor_spec() -> bool {
        true
    }

    open spec fn bitxor_req(self, rhs: Self) -> bool {
        true
    }

    closed spec fn bitxor_spec(self, rhs: Self) -> Self {
        ImageInfoFlags { bits: self.bits ^ rhs.bits }
    }
}

impl core::ops::Sub for ImageInfoFlags {
    type Output = Self;

    /// The flags set here and not in `rhs`.
    fn sub(self, rhs: Self) -> (r: Self)
        ensures
            r@ == self@ & !rhs@,
    {
        proof {
            use_type_invariant(&self);
            lemma_and_not_within(self.bits, rhs.bits, Self::all_bits());
        }
        ImageInfoFlags { bits: self.bits & !rhs.bits }
    }
}

impl vstd::std_specs::ops::SubSpecImpl for ImageInfoFlags {
    open spec fn obeys_sub_spec() -> bool {
        true
    }

    open spec fn sub_req(self, rhs: Self) -> bool {
        true
    }

    closed spec fn sub_spec(self, rhs: Self) -> Self {
        ImageInfoFlags { bits: self.bits & !rhs.bits }
    }
}

impl core::ops::Not for ImageInfoFlags {
    type Output = Self;

    /// The known flags that are not set here.
    fn not(self) -> (r: Self)
        ensures
            r@ == !self@ & Self::all_bits(),
    {
        proof {
            lemma_mask_within(!self.bits, Self::all_bits());
        }
        ImageInfoFlags { bits: !self.bits & 1 }
    }
}

impl vstd::std_specs::ops::NotSpecImpl for ImageInfoFlags {
    open spec fn obeys_not_spec() -> bool {
        true
    }

    open spec fn not_req(self) -> bool {
        true
    }

    closed spec fn not_spec(self) -> Self {
        ImageInfoFlags { bits: !self.bits & Self::all_bits() }
    }
}

/// The byte length of `height` rows of `stride` bytes: the length of the
/// pixel data that an image hands out as a slice. The rows never span a
/// negative or unaddressable length.
pub fn pixel_data_len(height: i32, stride: isize) -> (r: usize)
    requires
        0 <= height * stride <= isize::MAX,
    ensures
        r == height * stride,
{
    (height as isize * stride) as usize
}

/// The layout of an image's pixel data as blend2d reports it: the byte length
/// of `height` rows of `stride` bytes, and the stride divided by the width
/// (rounded toward zero), which is the size of a pixel where rows hold no
/// padding.
///
/// An image has a positive width, and the rows of its pixel data never span a
/// negative or unaddressable length.
pub fn image_data_layout(width: i32, height: i32, stride: isize) -> (r: (usize, isize))
    requires
        width > 0,
        0 <= height * stride <= isize::MAX,
    ensures
        r.0 == height * stride,
        stride >= 0 ==> r.1 == (stride as int) / (width as int),
        stride < 0 ==> r.1 == -((-(stride as int)) / (width as int)),
{
    let len = pixel_data_len(height, stride);
    let pixel = stride / (width as isize);
    (len, pixel)
}

} // verus!

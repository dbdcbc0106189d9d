//! Region shapes.
use vstd::prelude::*;

verus! {

/// The shape class of a region.
#[derive(Clone, Copy, Debug, PartialEq, Eq, PartialOrd)]
pub enum RegionType {
    Empty,
    Rect,
    Complex,
}

impl RegionType {
    /// The value blend2d uses for this variant.
    pub open spec fn bl_value(self) -> u32 {
        match self {
            RegionType::Empty => 0,
            RegionType::Rect => 1,
            RegionType::Complex => 2,
        }
    }

    /// Looks a blend2d value up: the variant that has it, or the default
    /// variant for a value that no variant has.
    pub open spec fn from_bl_value(value: u32) -> RegionType {
        if value == 0 {
            RegionType::Empty
        } else if value == 1 {
            RegionType::Rect
        } else if value == 2 {
            RegionType::Complex
        } else {
            RegionType::Empty
        }
    }

    /// Distinct variants have distinct blend2d values.
    pub proof fn lemma_bl_value_injective(a: RegionType, b: RegionType)
        requires
            a.bl_value() == b.bl_value(),
        ensures
            a == b,
    {
    }

    /// Converting a variant to its blend2d value and back gives the same variant.
    pub proof fn lemma_value_roundtrip(self)
        ensures
            RegionType::from_bl_value(self.bl_value()) == self,
    {
    }

    /// Looking a value up gives the variant that has it, and the default
    /// variant exactly where no variant has it.
    pub proof fn lemma_from_bl_value(value: u32)
        ensures
            (exists|v: RegionType| v.bl_value() == value) ==> RegionType::from_bl_value(value).bl_value() == value,
            (forall|v: RegionType| v.bl_value() != value) ==> RegionType::from_bl_value(value) == RegionType::Empty,
    {
        if forall|v: RegionType| v.bl_value() != value {
            assert(RegionType::Empty.bl_value() != value);
            assert(RegionType::Rect.bl_value() != value);
            assert(RegionType::Complex.bl_value() != value);
        }
    }
}

impl From<u32> for RegionType {
    fn from(val: u32) -> (r: RegionType) {
        if val == 0 {
            RegionType::Empty
        } else if val == 1 {
            RegionType::Rect
        } else if val == 2 {
            RegionType::Complex
        } else {
            RegionType::Empty
        }
    }
}

impl vstd::std_specs::convert::FromSpecImpl<u32> for RegionType {
    open spec fn obeys_from_spec() -> bool {
        true
    }

    open spec fn from_spec(val: u32) -> RegionType {
        RegionType::from_bl_value(val)
    }
}

impl From<RegionType> for u32 {
    fn from(val: RegionType) -> (r: u32) {
        match val {
            RegionType::Empty => 0,
            RegionType::Rect => 1,
            RegionType::Complex => 2,
        }
    }
}

impl vstd::std_specs::convert::FromSpecImpl<RegionType> for u32 {
    open spec fn obeys_from_spec() -> bool {
        true
    }

    open spec fn from_spec(val: RegionType) -> u32 {
        val.bl_value()
    }
}

impl Default for RegionType {
    fn default() -> (r: RegionType)
        ensures
            r == RegionType::Empty,
    {
        RegionType::Empty
    }
}

} // verus!

//! 2D matrix operations.
use vstd::prelude::*;

verus! {

/// An operation applied to a 2D matrix.
#[derive(Clone, Copy, Debug, PartialEq, Eq, PartialOrd)]
pub enum Matrix2DOp {
    Reset,
    Assign,
    Translate,
    Scale,
    Skew,
    Rotate,
    RotatePoint,
    Transform,
    PostTranslate,
    PostScale,
    PostSkew,
    PostRotate,
    PostRotatePoint,
    PostTransform,
}

impl Matrix2DOp {
    /// The value blend2d uses for this variant.
    pub open spec fn bl_value(self) -> u32 {
        match self {
            Matrix2DOp::Reset => 0,
            Matrix2DOp::Assign => 1,
            Matrix2DOp::Translate => 2,
            Matrix2DOp::Scale => 3,
            Matrix2DOp::Skew => 4,
            Matrix2DOp::Rotate => 5,
            Matrix2DOp::RotatePoint => 6,
            Matrix2DOp::Transform => 7,
            Matrix2DOp::PostTranslate => 8,
            Matrix2DOp::PostScale => 9,
            Matrix2DOp::PostSkew => 10,
            Matrix2DOp::PostRotate => 11,
            Matrix2DOp::PostRotatePoint => 12,
            Matrix2DOp::PostTransform => 13,
        }
    }

    /// Looks a blend2d value up: the variant that has it, or the default
    /// variant for a value that no variant has.
    pub open spec fn from_bl_value(value: u32) -> Matrix2DOp {
        if value == 0 {
            Matrix2DOp::Reset
        } else if value == 1 {
            Matrix2DOp::Assign
        } else if value == 2 {
            Matrix2DOp::Translate
        } else if value == 3 {
            Matrix2DOp::Scale
        } else if value == 4 {
            Matrix2DOp::Skew
        } else if value == 5 {
            Matrix2DOp::Rotate
        } else if value == 6 {
            Matrix2DOp::RotatePoint
        } else if value == 7 {
            Matrix2DOp::Transform
        } else if value == 8 {
            Matrix2DOp::PostTranslate
        } else if value == 9 {
            Matrix2DOp::PostScale
        } else if value == 10 {
            Matrix2DOp::PostSkew
        } else if value == 11 {
            Matrix2DOp::PostRotate
        } else if value == 12 {
            Matrix2DOp::PostRotatePoint
        } else if value == 13 {
            Matrix2DOp::PostTransform
        } else {
            Matrix2DOp::Reset
        }
    }

    /// Distinct variants have distinct blend2d values.
    pub proof fn lemma_bl_value_injective(a: Matrix2DOp, b: Matrix2DOp)
        requires
            a.bl_value() == b.bl_value(),
        ensures
            a == b,
    {
    }

    /// Converting a variant to its blend2d value and back gives the same variant.
    pub proof fn lemma_value_roundtrip(self)
        ensures
            Matrix2DOp::from_bl_value(self.bl_value()) == self,
    {
    }

    /// Looking a value up gives the variant that has it, and the default
    /// variant exactly where no variant has it.
    pub proof fn lemma_from_bl_value(value: u32)
        ensures
            (exists|v: Matrix2DOp| v.bl_value() == value) ==> Matrix2DOp::from_bl_value(value).bl_value() == value,
            (forall|v: Matrix2DOp| v.bl_value() != value) ==> Matrix2DOp::from_bl_value(value) == Matrix2DOp::Reset,
    {
        if forall|v: Matrix2DOp| v.bl_value() != value {
            assert(Matrix2DOp::Reset.bl_value() != value);
            assert(Matrix2DOp::Assign.bl_value() != value);
            assert(Matrix2DOp::Translate.bl_value() != value);
            assert(Matrix2DOp::Scale.bl_value() != value);
            assert(Matrix2DOp::Skew.bl_value() != value);
            assert(Matrix2DOp::Rotate.bl_value() != value);
            assert(Matrix2DOp::RotatePoint.bl_value() != value);
            assert(Matrix2DOp::Transform.bl_value() != value);
            assert(Matrix2DOp::PostTranslate.bl_value() != value);
            assert(Matrix2DOp::PostScale.bl_value() != value);
            assert(Matrix2DOp::PostSkew.bl_value() != value);
            assert(Matrix2DOp::PostRotate.bl_value() != value);
            assert(Matrix2DOp::PostRotatePoint.bl_value() != value);
            assert(Matrix2DOp::PostTransform.bl_value() != value);
        }
    }
}

impl From<u32> for Matrix2DOp {
    fn from(val: u32) -> (r: Matrix2DOp) {
        if val == 0 {
            Matrix2DOp::Reset
        } else if val == 1 {
            Matrix2DOp::Assign
        } else if val == 2 {
            Matrix2DOp::Translate
        } else if val == 3 {
            Matrix2DOp::Scale
        } else if val == 4 {
            Matrix2DOp::Skew
        } else if val == 5 {
            Matrix2DOp::Rotate
        } else if val == 6 {
            Matrix2DOp::RotatePoint
        } else if val == 7 {
            Matrix2DOp::Transform
        } else if val == 8 {
            Matrix2DOp::PostTranslate
        } else if val == 9 {
            Matrix2DOp::PostScale
        } else if val == 10 {
            Matrix2DOp::PostSkew
        } else if val == 11 {
            Matrix2DOp::PostRotate
        } else if val == 12 {
            Matrix2DOp::PostRotatePoint
        } else if val == 13 {
            Matrix2DOp::PostTransform
        } else {
            Matrix2DOp::Reset
        }
    }
}

impl vstd::std_specs::convert::FromSpecImpl<u32> for Matrix2DOp {
    open spec fn obeys_from_spec() -> bool {
        true
    }

    open spec fn from_spec(val: u32) -> Matrix2DOp {
        Matrix2DOp::from_bl_value(val)
    }
}

impl From<Matrix2DOp> for u32 {
    fn from(val: Matrix2DOp) -> (r: u32) {
        match val {
            Matrix2DOp::Reset => 0,
            Matrix2DOp::Assign => 1,
            Matrix2DOp::Translate => 2,
            Matrix2DOp::Scale => 3,
            Matrix2DOp::Skew => 4,
            Matrix2DOp::Rotate => 5,
            Matrix2DOp::RotatePoint => 6,
            Matrix2DOp::Transform => 7,
            Matrix2DOp::PostTranslate => 8,
            Matrix2DOp::PostScale => 9,
            Matrix2DOp::PostSkew => 10,
            Matrix2DOp::PostRotate => 11,
            Matrix2DOp::PostRotatePoint => 12,
            Matrix2DOp::PostTransform => 13,
        }
    }
}

impl vstd::std_specs::convert::FromSpecImpl<Matrix2DOp> for u32 {
    open spec fn obeys_from_spec() -> bool {
        true
    }

    open spec fn from_spec(val: Matrix2DOp) -> u32 {
        val.bl_value()
    }
}

impl Default for Matrix2DOp {
    fn default() -> (r: Matrix2DOp)
        ensures
            r == Matrix2DOp::Reset,
    {
        Matrix2DOp::Reset
    }
}

} // verus!

//! Geometry kinds and integer geometry values.
use vstd::prelude::*;

verus! {

/// The direction in which a geometry is added.
#[derive(Clone, Copy, Debug, PartialEq, Eq, PartialOrd)]
pub enum GeometryDirection {
    NoDirection,
    Clockwise,
    CounterClockwise,
}

impl GeometryDirection {
    /// The value blend2d uses for this variant.
    pub open spec fn bl_value(self) -> u32 {
        match self {
            GeometryDirection::NoDirection => 0,
            GeometryDirection::Clockwise => 1,
            GeometryDirection::CounterClockwise => 2,
        }
    }

    /// Looks a blend2d value up: the variant that has it, or the default
    /// variant for a value that no variant has.
    pub open spec fn from_bl_value(value: u32) -> GeometryDirection {
        if value == 0 {
            GeometryDirection::NoDirection
        } else if value == 1 {
            GeometryDirection::Clockwise
        } else if value == 2 {
            GeometryDirection::CounterClockwise
        } else {
            GeometryDirection::NoDirection
        }
    }

    /// Distinct variants have distinct blend2d values.
    pub proof fn lemma_bl_value_injective(a: GeometryDirection, b: GeometryDirection)
        requires
            a.bl_value() == b.bl_value(),
        ensures
            a == b,
    {
    }

    /// Converting a variant to its blend2d value and back gives the same variant.
    pub proof fn lemma_value_roundtrip(self)
        ensures
            GeometryDirection::from_bl_value(self.bl_value()) == self,
    {
    }

    /// Looking a value up gives the variant that has it, and the default
    /// variant exactly where no variant has it.
    pub proof fn lemma_from_bl_value(value: u32)
        ensures
            (exists|v: GeometryDirection| v.bl_value() == value) ==> GeometryDirection::from_bl_value(value).bl_value() == value,
            (forall|v: GeometryDirection| v.bl_value() != value) ==> GeometryDirection::from_bl_value(value) == GeometryDirection::NoDirection,
    {
        if forall|v: GeometryDirection| v.bl_value() != value {
            assert(GeometryDirection::NoDirection.bl_value() != value);
            assert(GeometryDirection::Clockwise.bl_value() != value);
            assert(GeometryDirection::CounterClockwise.bl_value() != value);
        }
    }
}

impl From<u32> for GeometryDirection {
    fn from(val: u32) -> (r: GeometryDirection) {
        if val == 0 {
            GeometryDirection::NoDirection
        } else if val == 1 {
            GeometryDirection::Clockwise
        } else if val == 2 {
            GeometryDirection::CounterClockwise
        } else {
            GeometryDirection::NoDirection
        }
    }
}

impl vstd::std_specs::convert::FromSpecImpl<u32> for GeometryDirection {
    open spec fn obeys_from_spec() -> bool {
        true
    }

    open spec fn from_spec(val: u32) -> GeometryDirection {
        GeometryDirection::from_bl_value(val)
    }
}

impl From<GeometryDirection> for u32 {
    fn from(val: GeometryDirection) -> (r: u32) {
        match val {
            GeometryDirection::NoDirection => 0,
            GeometryDirection::Clockwise => 1,
            GeometryDirection::CounterClockwise => 2,
        }
    }
}

impl vstd::std_specs::convert::FromSpecImpl<GeometryDirection> for u32 {
    open spec fn obeys_from_spec() -> bool {
        true
    }

    open spec fn from_spec(val: GeometryDirection) -> u32 {
        val.bl_value()
    }
}

impl Default for GeometryDirection {
    fn default() -> (r: GeometryDirection)
        ensures
            r == GeometryDirection::NoDirection,
    {
        GeometryDirection::NoDirection
    }
}

/// The kind of a geometry handed to blend2d.
#[derive(Clone, Copy, Debug, PartialEq, Eq, PartialOrd)]
pub enum GeometryType {
    NoGeometry,
    BoxI,
    BoxD,
    RectI,
    RectD,
    Circle,
    Ellipse,
    RoundRect,
    Arc,
    Chord,
    Pie,
    Line,
    Triangle,
    PolyLineI,
    PolyLineD,
    PolygonI,
    PolygonD,
    ArrayViewBoxI,
    ArrayViewBoxD,
    ArrayViewRectI,
    ArrayViewRectD,
    Path,
    Region,
}

impl GeometryType {
    /// The value blend2d uses for this variant.
    pub open spec fn bl_value(self) -> u32 {
        match self {
            GeometryType::NoGeometry => 0,
            GeometryType::BoxI => 1,
            GeometryType::BoxD => 2,
            GeometryType::RectI => 3,
            GeometryType::RectD => 4,
            GeometryType::Circle => 5,
            GeometryType::Ellipse => 6,
            GeometryType::RoundRect => 7,
            GeometryType::Arc => 8,
            GeometryType::Chord => 9,
            GeometryType::Pie => 10,
            GeometryType::Line => 11,
            GeometryType::Triangle => 12,
            GeometryType::PolyLineI => 13,
            GeometryType::PolyLineD => 14,
            GeometryType::PolygonI => 15,
            GeometryType::PolygonD => 16,
            GeometryType::ArrayViewBoxI => 17,
            GeometryType::ArrayViewBoxD => 18,
            GeometryType::ArrayViewRectI => 19,
            GeometryType::ArrayViewRectD => 20,
            GeometryType::Path => 21,
            GeometryType::Region => 22,
        }
    }

    /// Looks a blend2d value up: the variant that has it, or the default
    /// variant for a value that no variant has.
    pub open spec fn from_bl_value(value: u32) -> GeometryType {
        if value == 0 {
            GeometryType::NoGeometry
        } else if value == 1 {
            GeometryType::BoxI
        } else if value == 2 {
            GeometryType::BoxD
        } else if value == 3 {
            GeometryType::RectI
        } else if value == 4 {
            GeometryType::RectD
        } else if value == 5 {
            GeometryType::Circle
        } else if value == 6 {
            GeometryType::Ellipse
        } else if value == 7 {
            GeometryType::RoundRect
        } else if value == 8 {
            GeometryType::Arc
        } else if value == 9 {
            GeometryType::Chord
        } else if value == 10 {
            GeometryType::Pie
        } else if value == 11 {
            GeometryType::Line
        } else if value == 12 {
            GeometryType::Triangle
        } else if value == 13 {
            GeometryType::PolyLineI
        } else if value == 14 {
            GeometryType::PolyLineD
        } else if value == 15 {
            GeometryType::PolygonI
        } else if value == 16 {
            GeometryType::PolygonD
        } else if value == 17 {
            GeometryType::ArrayViewBoxI
        } else if value == 18 {
            GeometryType::ArrayViewBoxD
        } else if value == 19 {
            GeometryType::ArrayViewRectI
        } else if value == 20 {
            GeometryType::ArrayViewRectD
        } else if value == 21 {
            GeometryType::Path
        } else if value == 22 {
            GeometryType::Region
        } else {
            GeometryType::NoGeometry
        }
    }

    /// Distinct variants have distinct blend2d values.
    pub proof fn lemma_bl_value_injective(a: GeometryType, b: GeometryType)
        requires
            a.bl_value() == b.bl_value(),
        ensures
            a == b,
    {
    }

    /// Converting a variant to its blend2d value and back gives the same variant.
    pub proof fn lemma_value_roundtrip(self)
        ensures
            GeometryType::from_bl_value(self.bl_value()) == self,
    {
    }

    /// Looking a value up gives the variant that has it, and the default
    /// variant exactly where no variant has it.
    pub proof fn lemma_from_bl_value(value: u32)
        ensures
            (exists|v: GeometryType| v.bl_value() == value) ==> GeometryType::from_bl_value(value).bl_value() == value,
            (forall|v: GeometryType| v.bl_value() != value) ==> GeometryType::from_bl_value(value) == GeometryType::NoGeometry,
    {
        if forall|v: GeometryType| v.bl_value() != value {
            assert(GeometryType::NoGeometry.bl_value() != value);
            assert(GeometryType::BoxI.bl_value() != value);
            assert(GeometryType::BoxD.bl_value() != value);
            assert(GeometryType::RectI.bl_value() != value);
            assert(GeometryType::RectD.bl_value() != value);
            assert(GeometryType::Circle.bl_value() != value);
            assert(GeometryType::Ellipse.bl_value() != value);
            assert(GeometryType::RoundRect.bl_value() != value);
            assert(GeometryType::Arc.bl_value() != value);
            assert(GeometryType::Chord.bl_value() != value);
            assert(GeometryType::Pie.bl_value() != value);
            assert(GeometryType::Line.bl_value() != value);
            assert(GeometryType::Triangle.bl_value() != value);
            assert(GeometryType::PolyLineI.bl_value() != value);
            assert(GeometryType::PolyLineD.bl_value() != value);
            assert(GeometryType::PolygonI.bl_value() != value);
            assert(GeometryType::PolygonD.bl_value() != value);
            assert(GeometryType::ArrayViewBoxI.bl_value() != value);
            assert(GeometryType::ArrayViewBoxD.bl_value() != value);
            assert(GeometryType::ArrayViewRectI.bl_value() != value);
            assert(GeometryType::ArrayViewRectD.bl_value() != value);
            assert(GeometryType::Path.bl_value() != value);
            assert(GeometryType::Region.bl_value() != value);
        }
    }
}

impl From<u32> for GeometryType {
    fn from(val: u32) -> (r: GeometryType) {
        if val == 0 {
            GeometryType::NoGeometry
        } else if val == 1 {
            GeometryType::BoxI
        } else if val == 2 {
            GeometryType::BoxD
        } else if val == 3 {
            GeometryType::RectI
        } else if val == 4 {
            GeometryType::RectD
        } else if val == 5 {
            GeometryType::Circle
        } else if val == 6 {
            GeometryType::Ellipse
        } else if val == 7 {
            GeometryType::RoundRect
        } else if val == 8 {
            GeometryType::Arc
        } else if val == 9 {
            GeometryType::Chord
        } else if val == 10 {
            GeometryType::Pie
        } else if val == 11 {
            GeometryType::Line
        } else if val == 12 {
            GeometryType::Triangle
        } else if val == 13 {
            GeometryType::PolyLineI
        } else if val == 14 {
            GeometryType::PolyLineD
        } else if val == 15 {
            GeometryType::PolygonI
        } else if val == 16 {
            GeometryType::PolygonD
        } else if val == 17 {
            GeometryType::ArrayViewBoxI
        } else if val == 18 {
            GeometryType::ArrayViewBoxD
        } else if val == 19 {
            GeometryType::ArrayViewRectI
        } else if val == 20 {
            GeometryType::ArrayViewRectD
        } else if val == 21 {
            GeometryType::Path
        } else if val == 22 {
            GeometryType::Region
        } else {
            GeometryType::NoGeometry
        }
    }
}

impl vstd::std_specs::convert::FromSpecImpl<u32> for GeometryType {
    open spec fn obeys_from_spec() -> bool {
        true
    }

    open spec fn from_spec(val: u32) -> GeometryType {
        GeometryType::from_bl_value(val)
    }
}

impl From<GeometryType> for u32 {
    fn from(val: GeometryType) -> (r: u32) {
        match val {
            GeometryType::NoGeometry => 0,
            GeometryType::BoxI => 1,
            GeometryType::BoxD => 2,
            GeometryType::RectI => 3,
            GeometryType::RectD => 4,
            GeometryType::Circle => 5,
            GeometryType::Ellipse => 6,
            GeometryType::RoundRect => 7,
            GeometryType::Arc => 8,
            GeometryType::Chord => 9,
            GeometryType::Pie => 10,
            GeometryType::Line => 11,
            GeometryType::Triangle => 12,
            GeometryType::PolyLineI => 13,
            GeometryType::PolyLineD => 14,
            GeometryType::PolygonI => 15,
            GeometryType::PolygonD => 16,
            GeometryType::ArrayViewBoxI => 17,
            GeometryType::ArrayViewBoxD => 18,
            GeometryType::ArrayViewRectI => 19,
            GeometryType::ArrayViewRectD => 20,
            GeometryType::Path => 21,
            GeometryType::Region => 22,
        }
    }
}

impl vstd::std_specs::convert::FromSpecImpl<GeometryType> for u32 {
    open spec fn obeys_from_spec() -> bool {
        true
    }

    open spec fn from_spec(val: GeometryType) -> u32 {
        val.bl_value()
    }
}

impl Default for GeometryType {
    fn default() -> (r: GeometryType)
        ensures
            r == GeometryType::NoGeometry,
    {
        GeometryType::NoGeometry
    }
}

/// The rule that decides which points a shape covers.
#[derive(Clone, Copy, Debug, PartialEq, Eq, PartialOrd)]
pub enum FillRule {
    NonZero,
    EvenOdd,
}

impl FillRule {
    /// The value blend2d uses for this variant.
    pub open spec fn bl_value(self) -> u32 {
        match self {
            FillRule::NonZero => 0,
            FillRule::EvenOdd => 1,
        }
    }

    /// Looks a blend2d value up: the variant that has it, or the default
    /// variant for a value that no variant has.
    pub open spec fn from_bl_value(value: u32) -> FillRule {
        if value == 0 {
            FillRule::NonZero
        } else if value == 1 {
            FillRule::EvenOdd
        } else {
            FillRule::NonZero
        }
    }

    /// Distinct variants have distinct blend2d values.
    pub proof fn lemma_bl_value_injective(a: FillRule, b: FillRule)
        requires
            a.bl_value() == b.bl_value(),
        ensures
            a == b,
    {
    }

    /// Converting a variant to its blend2d value and back gives the same variant.
    pub proof fn lemma_value_roundtrip(self)
        ensures
            FillRule::from_bl_value(self.bl_value()) == self,
    {
    }

    /// Looking a value up gives the variant that has it, and the default
    /// variant exactly where no variant has it.
    pub proof fn lemma_from_bl_value(value: u32)
        ensures
            (exists|v: FillRule| v.bl_value() == value) ==> FillRule::from_bl_value(value).bl_value() == value,
            (forall|v: FillRule| v.bl_value() != value) ==> FillRule::from_bl_value(value) == FillRule::NonZero,
    {
        if forall|v: FillRule| v.bl_value() != value {
            assert(FillRule::NonZero.bl_value() != value);
            assert(FillRule::EvenOdd.bl_value() != value);
        }
    }
}

impl From<u32> for FillRule {
    fn from(val: u32) -> (r: FillRule) {
        if val == 0 {
            FillRule::NonZero
        } else if val == 1 {
            FillRule::EvenOdd
        } else {
            FillRule::NonZero
        }
    }
}

impl vstd::std_specs::convert::FromSpecImpl<u32> for FillRule {
    open spec fn obeys_from_spec() -> bool {
        true
    }

    open spec fn from_spec(val: u32) -> FillRule {
        FillRule::from_bl_value(val)
    }
}

impl From<FillRule> for u32 {
    fn from(val: FillRule) -> (r: u32) {
        match val {
            FillRule::NonZero => 0,
            FillRule::EvenOdd => 1,
        }
    }
}

impl vstd::std_specs::convert::FromSpecImpl<FillRule> for u32 {
    open spec fn obeys_from_spec() -> bool {
        true
    }

    open spec fn from_spec(val: FillRule) -> u32 {
        val.bl_value()
    }
}

impl Default for FillRule {
    fn default() -> (r: FillRule)
        ensures
            r == FillRule::NonZero,
    {
        FillRule::NonZero
    }
}

/// The outcome of a hit test.
#[derive(Clone, Copy, Debug, PartialEq, Eq, PartialOrd)]
pub enum HitTest {
    In,
    Part,
    Out,
}

impl HitTest {
    /// The value blend2d uses for this variant.
    pub open spec fn bl_value(self) -> u32 {
        match self {
            HitTest::In => 0,
            HitTest::Part => 1,
            HitTest::Out => 2,
        }
    }

    /// Looks a blend2d value up: the variant that has it, or the default
    /// variant for a value that no variant has.
    pub open spec fn from_bl_value(value: u32) -> HitTest {
        if value == 0 {
            HitTest::In
        } else if value == 1 {
            HitTest::Part
        } else if value == 2 {
            HitTest::Out
        } else {
            HitTest::In
        }
    }

    /// Distinct variants have distinct blend2d values.
    pub proof fn lemma_bl_value_injective(a: HitTest, b: HitTest)
        requires
            a.bl_value() == b.bl_value(),
        ensures
            a == b,
    {
    }

    /// Converting a variant to its blend2d value and back gives the same variant.
    pub proof fn lemma_value_roundtrip(self)
        ensures
            HitTest::from_bl_value(self.bl_value()) == self,
    {
    }

    /// Looking a value up gives the variant that has it, and the default
    /// variant exactly where no variant has it.
    pub proof fn lemma_from_bl_value(value: u32)
        ensures
            (exists|v: HitTest| v.bl_value() == value) ==> HitTest::from_bl_value(value).bl_value() == value,
            (forall|v: HitTest| v.bl_value() != value) ==> HitTest::from_bl_value(value) == HitTest::In,
    {
        if forall|v: HitTest| v.bl_value() != value {
            assert(HitTest::In.bl_value() != value);
            assert(HitTest::Part.bl_value() != value);
            assert(HitTest::Out.bl_value() != value);
        }
    }
}

impl From<u32> for HitTest {
    fn from(val: u32) -> (r: HitTest) {
        if val == 0 {
            HitTest::In
        } else if val == 1 {
            HitTest::Part
        } else if val == 2 {
            HitTest::Out
        } else {
            HitTest::In
        }
    }
}

impl vstd::std_specs::convert::FromSpecImpl<u32> for HitTest {
    open spec fn obeys_from_spec() -> bool {
        true
    }

    open spec fn from_spec(val: u32) -> HitTest {
        HitTest::from_bl_value(val)
    }
}

impl From<HitTest> for u32 {
    fn from(val: HitTest) -> (r: u32) {
        match val {
            HitTest::In => 0,
            HitTest::Part => 1,
            HitTest::Out => 2,
        }
    }
}

impl vstd::std_specs::convert::FromSpecImpl<HitTest> for u32 {
    open spec fn obeys_from_spec() -> bool {
        true
    }

    open spec fn from_spec(val: HitTest) -> u32 {
        val.bl_value()
    }
}

impl Default for HitTest {
    fn default() -> (r: HitTest)
        ensures
            r == HitTest::In,
    {
        HitTest::In
    }
}

/// A point with integer coordinates.
#[derive(Copy, Clone, Debug, Default, PartialEq, Eq)]
pub struct PointI {
    pub x: i32,
    pub y: i32,
}

/// A size with integer extents.
#[derive(Copy, Clone, Debug, Default, PartialEq, Eq)]
pub struct SizeI {
    pub w: i32,
    pub h: i32,
}

/// A box given by two integer corners.
#[derive(Copy, Clone, Debug, Default, PartialEq, Eq)]
pub struct BoxI {
    pub x0: i32,
    pub y0: i32,
    pub x1: i32,
    pub y1: i32,
}

/// A rectangle given by an integer corner and extents.
#[derive(Copy, Clone, Debug, Default, PartialEq, Eq)]
pub struct RectI {
    pub x: i32,
    pub y: i32,
    pub w: i32,
    pub h: i32,
}

} // verus!

//! Path commands and stroking settings.
use vstd::prelude::*;
use crate::flags::{
    lemma_and_not_within, lemma_and_within, lemma_mask_within, lemma_or_within, lemma_self_within, lemma_xor_within,
    lemma_zero_within,
};

verus! {

/// A command of a path.
#[derive(Clone, Copy, Debug, PartialEq, Eq, PartialOrd)]
pub enum PathCommand {
    Move,
    On,
    Quad,
    Cubic,
    Close,
}

impl PathCommand {
    /// The value blend2d uses for this variant.
    pub open spec fn bl_value(self) -> u32 {
        match self {
            PathCommand::Move => 0,
            PathCommand::On => 1,
            PathCommand::Quad => 2,
            PathCommand::Cubic => 3,
            PathCommand::Close => 4,
        }
    }

    /// Looks a blend2d value up: the variant that has it, or the default
    /// variant for a value that no variant has.
    pub open spec fn from_bl_value(value: u32) -> PathCommand {
        if value == 0 {
            PathCommand::Move
        } else if value == 1 {
            PathCommand::On
        } else if value == 2 {
            PathCommand::Quad
        } else if value == 3 {
            PathCommand::Cubic
        } else if value == 4 {
            PathCommand::Close
        } else {
            PathCommand::Move
        }
    }

    /// Distinct variants have distinct blend2d values.
    pub proof fn lemma_bl_value_injective(a: PathCommand, b: PathCommand)
        requires
            a.bl_value() == b.bl_value(),
        ensures
            a == b,
    {
    }

    /// Converting a variant to its blend2d value and back gives the same variant.
    pub proof fn lemma_value_roundtrip(self)
        ensures
            PathCommand::from_bl_value(self.bl_value()) == self,
    {
    }

    /// Looking a value up gives the variant that has it, and the default
    /// variant exactly where no variant has it.
    pub proof fn lemma_from_bl_value(value: u32)
        ensures
            (exists|v: PathCommand| v.bl_value() == value) ==> PathCommand::from_bl_value(value).bl_value() == value,
            (forall|v: PathCommand| v.bl_value() != value) ==> PathCommand::from_bl_value(value) == PathCommand::Move,
    {
        if forall|v: PathCommand| v.bl_value() != value {
            assert(PathCommand::Move.bl_value() != value);
            assert(PathCommand::On.bl_value() != value);
            assert(PathCommand::Quad.bl_value() != value);
            assert(PathCommand::Cubic.bl_value() != value);
            assert(PathCommand::Close.bl_value() != value);
        }
    }
}

impl From<u32> for PathCommand {
    fn from(val: u32) -> (r: PathCommand) {
        if val == 0 {
            PathCommand::Move
        } else if val == 1 {
            PathCommand::On
        } else if val == 2 {
            PathCommand::Quad
        } else if val == 3 {
            PathCommand::Cubic
        } else if val == 4 {
            PathCommand::Close
        } else {
            PathCommand::Move
        }
    }
}

impl vstd::std_specs::convert::FromSpecImpl<u32> for PathCommand {
    open spec fn obeys_from_spec() -> bool {
        true
    }

    open spec fn from_spec(val: u32) -> PathCommand {
        PathCommand::from_bl_value(val)
    }
}

impl From<PathCommand> for u32 {
    fn from(val: PathCommand) -> (r: u32) {
        match val {
            PathCommand::Move => 0,
            PathCommand::On => 1,
            PathCommand::Quad => 2,
            PathCommand::Cubic => 3,
            PathCommand::Close => 4,
        }
    }
}

impl vstd::std_specs::convert::FromSpecImpl<PathCommand> for u32 {
    open spec fn obeys_from_spec() -> bool {
        true
    }

    open spec fn from_spec(val: PathCommand) -> u32 {
        val.bl_value()
    }
}

impl Default for PathCommand {
    fn default() -> (r: PathCommand)
        ensures
            r == PathCommand::Move,
    {
        PathCommand::Move
    }
}

/// How a path is reversed.
#[derive(Clone, Copy, Debug, PartialEq, Eq, PartialOrd)]
pub enum PathReverseMode {
    Complete,
    Separate,
}

impl PathReverseMode {
    /// The value blend2d uses for this variant.
    pub open spec fn bl_value(self) -> u32 {
        match self {
            PathReverseMode::Complete => 0,
            PathReverseMode::Separate => 1,
        }
    }

    /// Looks a blend2d value up: the variant that has it, or the default
    /// variant for a value that no variant has.
    pub open spec fn from_bl_value(value: u32) -> PathReverseMode {
        if value == 0 {
            PathReverseMode::Complete
        } else if value == 1 {
            PathReverseMode::Separate
        } else {
            PathReverseMode::Complete
        }
    }

    /// Distinct variants have distinct blend2d values.
    pub proof fn lemma_bl_value_injective(a: PathReverseMode, b: PathReverseMode)
        requires
            a.bl_value() == b.bl_value(),
        ensures
            a == b,
    {
    }

    /// Converting a variant to its blend2d value and back gives the same variant.
    pub proof fn lemma_value_roundtrip(self)
        ensures
            PathReverseMode::from_bl_value(self.bl_value()) == self,
    {
    }

    /// Looking a value up gives the variant that has it, and the default
    /// variant exactly where no variant has it.
    pub proof fn lemma_from_bl_value(value: u32)
        ensures
            (exists|v: PathReverseMode| v.bl_value() == value) ==> PathReverseMode::from_bl_value(value).bl_value() == value,
            (forall|v: PathReverseMode| v.bl_value() != value) ==> PathReverseMode::from_bl_value(value) == PathReverseMode::Complete,
    {
        if forall|v: PathReverseMode| v.bl_value() != value {
            assert(PathReverseMode::Complete.bl_value() != value);
            assert(PathReverseMode::Separate.bl_value() != value);
        }
    }
}

impl From<u32> for PathReverseMode {
    fn from(val: u32) -> (r: PathReverseMode) {
        if val == 0 {
            PathReverseMode::Complete
        } else if val == 1 {
            PathReverseMode::Separate
        } else {
            PathReverseMode::Complete
        }
    }
}

impl vstd::std_specs::convert::FromSpecImpl<u32> for PathReverseMode {
    open spec fn obeys_from_spec() -> bool {
        true
    }

    open spec fn from_spec(val: u32) -> PathReverseMode {
        PathReverseMode::from_bl_value(val)
    }
}

impl From<PathReverseMode> for u32 {
    fn from(val: PathReverseMode) -> (r: u32) {
        match val {
            PathReverseMode::Complete => 0,
            PathReverseMode::Separate => 1,
        }
    }
}

impl vstd::std_specs::convert::FromSpecImpl<PathReverseMode> for u32 {
    open spec fn obeys_from_spec() -> bool {
        true
    }

    open spec fn from_spec(val: PathReverseMode) -> u32 {
        val.bl_value()
    }
}

impl Default for PathReverseMode {
    fn default() -> (r: PathReverseMode)
        ensures
            r == PathReverseMode::Complete,
    {
        PathReverseMode::Complete
    }
}

/// How two stroked segments are joined.
#[derive(Clone, Copy, Debug, PartialEq, Eq, PartialOrd)]
pub enum StrokeJoin {
    MiterClip,
    MiterBevel,
    MiterRound,
    Bevel,
    Round,
}

impl StrokeJoin {
    /// The value blend2d uses for this variant.
    pub open spec fn bl_value(self) -> u32 {
        match self {
            StrokeJoin::MiterClip => 0,
            StrokeJoin::MiterBevel => 1,
            StrokeJoin::MiterRound => 2,
            StrokeJoin::Bevel => 3,
            StrokeJoin::Round => 4,
        }
    }

    /// Looks a blend2d value up: the variant that has it, or the default
    /// variant for a value that no variant has.
    pub open spec fn from_bl_value(value: u32) -> StrokeJoin {
        if value == 0 {
            StrokeJoin::MiterClip
        } else if value == 1 {
            StrokeJoin::MiterBevel
        } else if value == 2 {
            StrokeJoin::MiterRound
        } else if value == 3 {
            StrokeJoin::Bevel
        } else if value == 4 {
            StrokeJoin::Round
        } else {
            StrokeJoin::MiterClip
        }
    }

    /// Distinct variants have distinct blend2d values.
    pub proof fn lemma_bl_value_injective(a: StrokeJoin, b: StrokeJoin)
        requires
            a.bl_value() == b.bl_value(),
        ensures
            a == b,
    {
    }

    /// Converting a variant to its blend2d value and back gives the same variant.
    pub proof fn lemma_value_roundtrip(self)
        ensures
            StrokeJoin::from_bl_value(self.bl_value()) == self,
    {
    }

    /// Looking a value up gives the variant that has it, and the default
    /// variant exactly where no variant has it.
    pub proof fn lemma_from_bl_value(value: u32)
        ensures
            (exists|v: StrokeJoin| v.bl_value() == value) ==> StrokeJoin::from_bl_value(value).bl_value() == value,
            (forall|v: StrokeJoin| v.bl_value() != value) ==> StrokeJoin::from_bl_value(value) == StrokeJoin::MiterClip,
    {
        if forall|v: StrokeJoin| v.bl_value() != value {
            assert(StrokeJoin::MiterClip.bl_value() != value);
            assert(StrokeJoin::MiterBevel.bl_value() != value);
            assert(StrokeJoin::MiterRound.bl_value() != value);
            assert(StrokeJoin::Bevel.bl_value() != value);
            assert(StrokeJoin::Round.bl_value() != value);
        }
    }
}

impl From<u32> for StrokeJoin {
    fn from(val: u32) -> (r: StrokeJoin) {
        if val == 0 {
            StrokeJoin::MiterClip
        } else if val == 1 {
            StrokeJoin::MiterBevel
        } else if val == 2 {
            StrokeJoin::MiterRound
        } else if val == 3 {
            StrokeJoin::Bevel
        } else if val == 4 {
            StrokeJoin::Round
        } else {
            StrokeJoin::MiterClip
        }
    }
}

impl vstd::std_specs::convert::FromSpecImpl<u32> for StrokeJoin {
    open spec fn obeys_from_spec() -> bool {
        true
    }

    open spec fn from_spec(val: u32) -> StrokeJoin {
        StrokeJoin::from_bl_value(val)
    }
}

impl From<StrokeJoin> for u32 {
    fn from(val: StrokeJoin) -> (r: u32) {
        match val {
            StrokeJoin::MiterClip => 0,
            StrokeJoin::MiterBevel => 1,
            StrokeJoin::MiterRound => 2,
            StrokeJoin::Bevel => 3,
            StrokeJoin::Round => 4,
        }
    }
}

impl vstd::std_specs::convert::FromSpecImpl<StrokeJoin> for u32 {
    open spec fn obeys_from_spec() -> bool {
        true
    }

    open spec fn from_spec(val: StrokeJoin) -> u32 {
        val.bl_value()
    }
}

impl Default for StrokeJoin {
    fn default() -> (r: StrokeJoin)
        ensures
            r == StrokeJoin::MiterClip,
    {
        StrokeJoin::MiterClip
    }
}

/// The end of a stroke that a cap is placed at.
#[derive(Clone, Copy, Debug, PartialEq, Eq, PartialOrd)]
pub enum StrokeCapPosition {
    Start,
    End,
}

impl StrokeCapPosition {
    /// The value blend2d uses for this variant.
    pub open spec fn bl_value(self) -> u32 {
        match self {
            StrokeCapPosition::Start => 0,
            StrokeCapPosition::End => 1,
        }
    }

    /// Looks a blend2d value up: the variant that has it, or the default
    /// variant for a value that no variant has.
    pub open spec fn from_bl_value(value: u32) -> StrokeCapPosition {
        if value == 0 {
            StrokeCapPosition::Start
        } else if value == 1 {
            StrokeCapPosition::End
        } else {
            StrokeCapPosition::Start
        }
    }

    /// Distinct variants have distinct blend2d values.
    pub proof fn lemma_bl_value_injective(a: StrokeCapPosition, b: StrokeCapPosition)
        requires
            a.bl_value() == b.bl_value(),
        ensures
            a == b,
    {
    }

    /// Converting a variant to its blend2d value and back gives the same variant.
    pub proof fn lemma_value_roundtrip(self)
        ensures
            StrokeCapPosition::from_bl_value(self.bl_value()) == self,
    {
    }

    /// Looking a value up gives the variant that has it, and the default
    /// variant exactly where no variant has it.
    pub proof fn lemma_from_bl_value(value: u32)
        ensures
            (exists|v: StrokeCapPosition| v.bl_value() == value) ==> StrokeCapPosition::from_bl_value(value).bl_value() == value,
            (forall|v: StrokeCapPosition| v.bl_value() != value) ==> StrokeCapPosition::from_bl_value(value) == StrokeCapPosition::Start,
    {
        if forall|v: StrokeCapPosition| v.bl_value() != value {
            assert(StrokeCapPosition::Start.bl_value() != value);
            assert(StrokeCapPosition::End.bl_value() != value);
        }
    }
}

impl From<u32> for StrokeCapPosition {
    fn from(val: u32) -> (r: StrokeCapPosition) {
        if val == 0 {
            StrokeCapPosition::Start
        } else if val == 1 {
            StrokeCapPosition::End
        } else {
            StrokeCapPosition::Start
        }
    }
}

impl vstd::std_specs::convert::FromSpecImpl<u32> for StrokeCapPosition {
    open spec fn obeys_from_spec() -> bool {
        true
    }

    open spec fn from_spec(val: u32) -> StrokeCapPosition {
        StrokeCapPosition::from_bl_value(val)
    }
}

impl From<StrokeCapPosition> for u32 {
    fn from(val: StrokeCapPosition) -> (r: u32) {
        match val {
            StrokeCapPosition::Start => 0,
            StrokeCapPosition::End => 1,
        }
    }
}

impl vstd::std_specs::convert::FromSpecImpl<StrokeCapPosition> for u32 {
    open spec fn obeys_from_spec() -> bool {
        true
    }

    open spec fn from_spec(val: StrokeCapPosition) -> u32 {
        val.bl_value()
    }
}

impl Default for StrokeCapPosition {
    fn default() -> (r: StrokeCapPosition)
        ensures
            r == StrokeCapPosition::Start,
    {
        StrokeCapPosition::Start
    }
}

/// The shape of a stroke's cap.
#[derive(Clone, Copy, Debug, PartialEq, Eq, PartialOrd)]
pub enum StrokeCap {
    Butt,
    Square,
    Round,
    RoundRev,
    Triangle,
    TriangleRev,
}

impl StrokeCap {
    /// The value blend2d uses for this variant.
    pub open spec fn bl_value(self) -> u32 {
        match self {
            StrokeCap::Butt => 0,
            StrokeCap::Square => 1,
            StrokeCap::Round => 2,
            StrokeCap::RoundRev => 3,
            StrokeCap::Triangle => 4,
            StrokeCap::TriangleRev => 5,
        }
    }

    /// Looks a blend2d value up: the variant that has it, or the default
    /// variant for a value that no variant has.
    pub open spec fn from_bl_value(value: u32) -> StrokeCap {
        if value == 0 {
            StrokeCap::Butt
        } else if value == 1 {
            StrokeCap::Square
        } else if value == 2 {
            StrokeCap::Round
        } else if value == 3 {
            StrokeCap::RoundRev
        } else if value == 4 {
            StrokeCap::Triangle
        } else if value == 5 {
            StrokeCap::TriangleRev
        } else {
            StrokeCap::Butt
        }
    }

    /// Distinct variants have distinct blend2d values.
    pub proof fn lemma_bl_value_injective(a: StrokeCap, b: StrokeCap)
        requires
            a.bl_value() == b.bl_value(),
        ensures
            a == b,
    {
    }

    /// Converting a variant to its blend2d value and back gives the same variant.
    pub proof fn lemma_value_roundtrip(self)
        ensures
            StrokeCap::from_bl_value(self.bl_value()) == self,
    {
    }

    /// Looking a value up gives the variant that has it, and the default
    /// variant exactly where no variant has it.
    pub proof fn lemma_from_bl_value(value: u32)
        ensures
            (exists|v: StrokeCap| v.bl_value() == value) ==> StrokeCap::from_bl_value(value).bl_value() == value,
            (forall|v: StrokeCap| v.bl_value() != value) ==> StrokeCap::from_bl_value(value) == StrokeCap::Butt,
    {
        if forall|v: StrokeCap| v.bl_value() != value {
            assert(StrokeCap::Butt.bl_value() != value);
            assert(StrokeCap::Square.bl_value() != value);
            assert(StrokeCap::Round.bl_value() != value);
            assert(StrokeCap::RoundRev.bl_value() != value);
            assert(StrokeCap::Triangle.bl_value() != value);
            assert(StrokeCap::TriangleRev.bl_value() != value);
        }
    }
}

impl From<u32> for StrokeCap {
    fn from(val: u32) -> (r: StrokeCap) {
        if val == 0 {
            StrokeCap::Butt
        } else if val == 1 {
            StrokeCap::Square
        } else if val == 2 {
            StrokeCap::Round
        } else if val == 3 {
            StrokeCap::RoundRev
        } else if val == 4 {
            StrokeCap::Triangle
        } else if val == 5 {
            StrokeCap::TriangleRev
        } else {
            StrokeCap::Butt
        }
    }
}

impl vstd::std_specs::convert::FromSpecImpl<u32> for StrokeCap {
    open spec fn obeys_from_spec() -> bool {
        true
    }

    open spec fn from_spec(val: u32) -> StrokeCap {
        StrokeCap::from_bl_value(val)
    }
}

impl From<StrokeCap> for u32 {
    fn from(val: StrokeCap) -> (r: u32) {
        match val {
            StrokeCap::Butt => 0,
            StrokeCap::Square => 1,
            StrokeCap::Round => 2,
            StrokeCap::RoundRev => 3,
            StrokeCap::Triangle => 4,
            StrokeCap::TriangleRev => 5,
        }
    }
}

impl vstd::std_specs::convert::FromSpecImpl<StrokeCap> for u32 {
    open spec fn obeys_from_spec() -> bool {
        true
    }

    open spec fn from_spec(val: StrokeCap) -> u32 {
        val.bl_value()
    }
}

impl Default for StrokeCap {
    fn default() -> (r: StrokeCap)
        ensures
            r == StrokeCap::Butt,
    {
        StrokeCap::Butt
    }
}

/// When a stroke is transformed.
#[derive(Clone, Copy, Debug, PartialEq, Eq, PartialOrd)]
pub enum StrokeTransformOrder {
    After,
    Before,
}

impl StrokeTransformOrder {
    /// The value blend2d uses for this variant.
    pub open spec fn bl_value(self) -> u32 {
        match self {
            StrokeTransformOrder::After => 0,
            StrokeTransformOrder::Before => 1,
        }
    }

    /// Looks a blend2d value up: the variant that has it, or the default
    /// variant for a value that no variant has.
    pub open spec fn from_bl_value(value: u32) -> StrokeTransformOrder {
        if value == 0 {
            StrokeTransformOrder::After
        } else if value == 1 {
            StrokeTransformOrder::Before
        } else {
            StrokeTransformOrder::After
        }
    }

    /// Distinct variants have distinct blend2d values.
    pub proof fn lemma_bl_value_injective(a: StrokeTransformOrder, b: StrokeTransformOrder)
        requires
            a.bl_value() == b.bl_value(),
        ensures
            a == b,
    {
    }

    /// Converting a variant to its blend2d value and back gives the same variant.
    pub proof fn lemma_value_roundtrip(self)
        ensures
            StrokeTransformOrder::from_bl_value(self.bl_value()) == self,
    {
    }

    /// Looking a value up gives the variant that has it, and the default
    /// variant exactly where no variant has it.
    pub proof fn lemma_from_bl_value(value: u32)
        ensures
            (exists|v: StrokeTransformOrder| v.bl_value() == value) ==> StrokeTransformOrder::from_bl_value(value).bl_value() == value,
            (forall|v: StrokeTransformOrder| v.bl_value() != value) ==> StrokeTransformOrder::from_bl_value(value) == StrokeTransformOrder::After,
    {
        if forall|v: StrokeTransformOrder| v.bl_value() != value {
            assert(StrokeTransformOrder::After.bl_value() != value);
            assert(StrokeTransformOrder::Before.bl_value() != value);
        }
    }
}

impl From<u32> for StrokeTransformOrder {
    fn from(val: u32) -> (r: StrokeTransformOrder) {
        if val == 0 {
            StrokeTransformOrder::After
        } else if val == 1 {
            StrokeTransformOrder::Before
        } else {
            StrokeTransformOrder::After
        }
    }
}

impl vstd::std_specs::convert::FromSpecImpl<u32> for StrokeTransformOrder {
    open spec fn obeys_from_spec() -> bool {
        true
    }

    open spec fn from_spec(val: u32) -> StrokeTransformOrder {
        StrokeTransformOrder::from_bl_value(val)
    }
}

impl From<StrokeTransformOrder> for u32 {
    fn from(val: StrokeTransformOrder) -> (r: u32) {
        match val {
            StrokeTransformOrder::After => 0,
            StrokeTransformOrder::Before => 1,
        }
    }
}

impl vstd::std_specs::convert::FromSpecImpl<StrokeTransformOrder> for u32 {
    open spec fn obeys_from_spec() -> bool {
        true
    }

    open spec fn from_spec(val: StrokeTransformOrder) -> u32 {
        val.bl_value()
    }
}

impl Default for StrokeTransformOrder {
    fn default() -> (r: StrokeTransformOrder)
        ensures
            r == StrokeTransformOrder::After,
    {
        StrokeTransformOrder::After
    }
}

/// How curves are flattened.
#[derive(Clone, Copy, Debug, PartialEq, Eq, PartialOrd)]
pub enum FlattenMode {
    Default,
    Recursive,
}

impl FlattenMode {
    /// The value blend2d uses for this variant.
    pub open spec fn bl_value(self) -> u32 {
        match self {
            FlattenMode::Default => 0,
            FlattenMode::Recursive => 1,
        }
    }

    /// Looks a blend2d value up: the variant that has it, or the default
    /// variant for a value that no variant has.
    pub open spec fn from_bl_value(value: u32) -> FlattenMode {
        if value == 0 {
            FlattenMode::Default
        } else if value == 1 {
            FlattenMode::Recursive
        } else {
            FlattenMode::Default
        }
    }

    /// Distinct variants have distinct blend2d values.
    pub proof fn lemma_bl_value_injective(a: FlattenMode, b: FlattenMode)
        requires
            a.bl_value() == b.bl_value(),
        ensures
            a == b,
    {
    }

    /// Converting a variant to its blend2d value and back gives the same variant.
    pub proof fn lemma_value_roundtrip(self)
        ensures
            FlattenMode::from_bl_value(self.bl_value()) == self,
    {
    }

    /// Looking a value up gives the variant that has it, and the default
    /// variant exactly where no variant has it.
    pub proof fn lemma_from_bl_value(value: u32)
        ensures
            (exists|v: FlattenMode| v.bl_value() == value) ==> FlattenMode::from_bl_value(value).bl_value() == value,
            (forall|v: FlattenMode| v.bl_value() != value) ==> FlattenMode::from_bl_value(value) == FlattenMode::Default,
    {
        if forall|v: FlattenMode| v.bl_value() != value {
            assert(FlattenMode::Default.bl_value() != value);
            assert(FlattenMode::Recursive.bl_value() != value);
        }
    }
}

impl From<u32> for FlattenMode {
    fn from(val: u32) -> (r: FlattenMode) {
        if val == 0 {
            FlattenMode::Default
        } else if val == 1 {
            FlattenMode::Recursive
        } else {
            FlattenMode::Default
        }
    }
}

impl vstd::std_specs::convert::FromSpecImpl<u32> for FlattenMode {
    open spec fn obeys_from_spec() -> bool {
        true
    }

    open spec fn from_spec(val: u32) -> FlattenMode {
        FlattenMode::from_bl_value(val)
    }
}

impl From<FlattenMode> for u32 {
    fn from(val: FlattenMode) -> (r: u32) {
        match val {
            FlattenMode::Default => 0,
            FlattenMode::Recursive => 1,
        }
    }
}

impl vstd::std_specs::convert::FromSpecImpl<FlattenMode> for u32 {
    open spec fn obeys_from_spec() -> bool {
        true
    }

    open spec fn from_spec(val: FlattenMode) -> u32 {
        val.bl_value()
    }
}

impl Default for FlattenMode {
    fn default() -> (r: FlattenMode)
        ensures
            r == FlattenMode::Default,
    {
        FlattenMode::Default
    }
}

/// How curves are offset.
#[derive(Clone, Copy, Debug, PartialEq, Eq, PartialOrd)]
pub enum OffsetMode {
    Default,
    Iterative,
}

impl OffsetMode {
    /// The value blend2d uses for this variant.
    pub open spec fn bl_value(self) -> u32 {
        match self {
            OffsetMode::Default => 0,
            OffsetMode::Iterative => 1,
        }
    }

    /// Looks a blend2d value up: the variant that has it, or the default
    /// variant for a value that no variant has.
    pub open spec fn from_bl_value(value: u32) -> OffsetMode {
        if value == 0 {
            OffsetMode::Default
        } else if value == 1 {
            OffsetMode::Iterative
        } else {
            OffsetMode::Default
        }
    }

    /// Distinct variants have distinct blend2d values.
    pub proof fn lemma_bl_value_injective(a: OffsetMode, b: OffsetMode)
        requires
            a.bl_value() == b.bl_value(),
        ensures
            a == b,
    {
    }

    /// Converting a variant to its blend2d value and back gives the same variant.
    pub proof fn lemma_value_roundtrip(self)
        ensures
            OffsetMode::from_bl_value(self.bl_value()) == self,
    {
    }

    /// Looking a value up gives the variant that has it, and the default
    /// variant exactly where no variant has it.
    pub proof fn lemma_from_bl_value(value: u32)
        ensures
            (exists|v: OffsetMode| v.bl_value() == value) ==> OffsetMode::from_bl_value(value).bl_value() == value,
            (forall|v: OffsetMode| v.bl_value() != value) ==> OffsetMode::from_bl_value(value) == OffsetMode::Default,
    {
        if forall|v: OffsetMode| v.bl_value() != value {
            assert(OffsetMode::Default.bl_value() != value);
            assert(OffsetMode::Iterative.bl_value() != value);
        }
    }
}

impl From<u32> for OffsetMode {
    fn from(val: u32) -> (r: OffsetMode) {
        if val == 0 {
            OffsetMode::Default
        } else if val == 1 {
            OffsetMode::Iterative
        } else {
            OffsetMode::Default
        }
    }
}

impl vstd::std_specs::convert::FromSpecImpl<u32> for OffsetMode {
    open spec fn obeys_from_spec() -> bool {
        true
    }

    open spec fn from_spec(val: u32) -> OffsetMode {
        OffsetMode::from_bl_value(val)
    }
}

impl From<OffsetMode> for u32 {
    fn from(val: OffsetMode) -> (r: u32) {
        match val {
            OffsetMode::Default => 0,
            OffsetMode::Iterative => 1,
        }
    }
}

impl vstd::std_specs::convert::FromSpecImpl<OffsetMode> for u32 {
    open spec fn obeys_from_spec() -> bool {
        true
    }

    open spec fn from_spec(val: OffsetMode) -> u32 {
        val.bl_value()
    }
}

impl Default for OffsetMode {
    fn default() -> (r: OffsetMode)
        ensures
            r == OffsetMode::Default,
    {
        OffsetMode::Default
    }
}

/// Flags that describe a path.
#[derive(Clone, Copy, Debug, PartialEq, Eq, PartialOrd, Ord, Hash)]
pub struct PathFlags {
    bits: u32,
}

impl View for PathFlags {
    type V = u32;

    /// The bits of the flag set.
    closed spec fn view(&self) -> u32 {
        self.bits
    }
}

impl PathFlags {
    pub const EMPTY: u32 = 1;
    pub const MULTIPLE: u32 = 2;
    pub const QUADS: u32 = 4;
    pub const CUBICS: u32 = 8;
    pub const INVALID: u32 = 0x4000_0000;
    pub const DIRTY: u32 = 0x8000_0000;

    /// The bits of all flags of this set.
    pub open spec fn all_bits() -> u32 {
        0xC000_000F
    }

    /// A flag set holds no bit that names no flag.
    #[verifier::type_invariant]
    spec fn holds_known_bits(self) -> bool {
        self.bits & !Self::all_bits() == 0
    }

    /// Two flag sets with the same bits are the same set.
    pub proof fn lemma_view_injective(a: Self, b: Self)
        requires
            a@ == b@,
        ensures
            a == b,
    {
    }

    /// The empty flag set.
    pub fn empty() -> (r: Self)
        ensures
            r@ == 0,
    {
        proof {
            lemma_zero_within(Self::all_bits());
        }
        PathFlags { bits: 0 }
    }

    /// The flag set holding every flag.
    pub fn all() -> (r: Self)
        ensures
            r@ == Self::all_bits(),
    {
        proof {
            lemma_self_within(Self::all_bits());
        }
        PathFlags { bits: 0xC000_000F }
    }

    /// The raw bits of the flag set; they name known flags only.
    pub fn bits(&self) -> (r: u32)
        ensures
            r == self@,
            r & !Self::all_bits() == 0,
    {
        proof {
            use_type_invariant(self);
        }
        self.bits
    }

    /// The flag set with the given bits, or `None` where a bit names no flag.
    pub fn from_bits(bits: u32) -> (r: Option<Self>)
        ensures
            r is Some <==> bits & !Self::all_bits() == 0,
            r matches Some(f) ==> f@ == bits,
    {
        if bits & !0xC000_000F == 0 {
            Some(PathFlags { bits })
        } else {
            None
        }
    }

    /// The flag set with the given bits, dropping bits that name no flag.
    pub fn from_bits_truncate(bits: u32) -> (r: Self)
        ensures
            r@ == bits & Self::all_bits(),
    {
        proof {
            lemma_mask_within(bits, Self::all_bits());
        }
        PathFlags { bits: bits & 0xC000_000F }
    }

    /// Whether no flag is set.
    pub fn is_empty(&self) -> (r: bool)
        ensures
            r == (self@ == 0),
    {
        self.bits == 0
    }

    /// Whether every flag is set.
    pub fn is_all(&self) -> (r: bool)
        ensures
            r == (self@ == Self::all_bits()),
    {
        self.bits == 0xC000_000F
    }

    /// Whether the two sets share a flag.
    pub fn intersects(&self, other: Self) -> (r: bool)
        ensures
            r == (self@ & other@ != 0),
    {
        self.bits & other.bits != 0
    }

    /// Whether every flag of `other` is set here.
    pub fn contains(&self, other: Self) -> (r: bool)
        ensures
            r == (self@ & other@ == other@),
    {
        self.bits & other.bits == other.bits
    }

    /// Sets the flags of `other`.
    pub fn insert(&mut self, other: Self)
        ensures
            final(self)@ == old(self)@ | other@,
    {
        proof {
            use_type_invariant(&*self);
            use_type_invariant(&other);
            lemma_or_within(self.bits, other.bits, Self::all_bits());
        }
        self.bits = self.bits | other.bits;
    }

    /// Clears the flags of `other`.
    pub fn remove(&mut self, other: Self)
        ensures
            final(self)@ == old(self)@ & !other@,
    {
        proof {
            use_type_invariant(&*self);
            lemma_and_not_within(self.bits, other.bits, Self::all_bits());
        }
        self.bits = self.bits & !other.bits;
    }

    /// Flips the flags of `other`.
    pub fn toggle(&mut self, other: Self)
        ensures
            final(self)@ == old(self)@ ^ other@,
    {
        proof {
            use_type_invariant(&*self);
            use_type_invariant(&other);
            lemma_xor_within(self.bits, other.bits, Self::all_bits());
        }
        self.bits = self.bits ^ other.bits;
    }

    /// Sets the flags of `other` where `value` holds and clears them otherwise.
    pub fn set(&mut self, other: Self, value: bool)
        ensures
            value ==> final(self)@ == old(self)@ | other@,
            !value ==> final(self)@ == old(self)@ & !other@,
    {
        if value {
            self.insert(other);
        } else {
            self.remove(other);
        }
    }
}

impl core::ops::BitOr for PathFlags {
    type Output = Self;

    /// The flags set in either set.
    fn bitor(self, rhs: Self) -> (r: Self)
        ensures
            r@ == self@ | rhs@,
    {
        proof {
            use_type_invariant(&self);
            use_type_invariant(&rhs);
            lemma_or_within(self.bits, rhs.bits, Self::all_bits());
        }
        PathFlags { bits: self.bits | rhs.bits }
    }
}

impl vstd::std_specs::ops::BitOrSpecImpl for PathFlags {
    open spec fn obeys_bitor_spec() -> bool {
        true
    }

    open spec fn bitor_req(self, rhs: Self) -> bool {
        true
    }

    closed spec fn bitor_spec(self, rhs: Self) -> Self {
        PathFlags { bits: self.bits | rhs.bits }
    }
}

impl core::ops::BitAnd for PathFlags {
    type Output = Self;

    /// The flags set in both sets.
    fn bitand(self, rhs: Self) -> (r: Self)
        ensures
            r@ == self@ & rhs@,
    {
        proof {
            use_type_invariant(&self);
            lemma_and_within(self.bits, rhs.bits, Self::all_bits());
        }
        PathFlags { bits: self.bits & rhs.bits }
    }
}

impl vstd::std_specs::ops::BitAndSpecImpl for PathFlags {
    open spec fn obeys_bitand_spec() -> bool {
        true
    }

    open spec fn bitand_req(self, rhs: Self) -> bool {
        true
    }

    closed spec fn bitand_spec(self, rhs: Self) -> Self {
        PathFlags { bits: self.bits & rhs.bits }
    }
}

impl core::ops::BitXor for PathFlags {
    type Output = Self;

    /// The flags set in exactly one of the sets.
    fn bitxor(self, rhs: Self) -> (r: Self)
        ensures
            r@ == self@ ^ rhs@,
    {
        proof {
            use_type_invariant(&self);
            use_type_invariant(&rhs);
            lemma_xor_within(self.bits, rhs.bits, Self::all_bits());
        }
        PathFlags { bits: self.bits ^ rhs.bits }
    }
}

impl vstd::std_specs::ops::BitXorSpecImpl for PathFlags {
    open spec fn obeys_bitxor_spec() -> bool {
        true
    }

    open spec fn bitxor_req(self, rhs: Self) -> bool {
        true
    }

    closed spec fn bitxor_spec(self, rhs: Self) -> Self {
        PathFlags { bits: self.bits ^ rhs.bits }
    }
}

impl core::ops::Sub for PathFlags {
    type Output = Self;

    /// The flags set here and not in `rhs`.
    fn sub(self, rhs: Self) -> (r: Self)
        ensures
            r@ == self@ & !rhs@,
    {
        proof {
            use_type_invariant(&self);
            lemma_and_not_within(self.bits, rhs.bits, Self::all_bits());
        }
        PathFlags { bits: self.bits & !rhs.bits }
    }
}

impl vstd::std_specs::ops::SubSpecImpl for PathFlags {
    open spec fn obeys_sub_spec() -> bool {
        true
    }

    open spec fn sub_req(self, rhs: Self) -> bool {
        true
    }

    closed spec fn sub_spec(self, rhs: Self) -> Self {
        PathFlags { bits: self.bits & !rhs.bits }
    }
}

impl core::ops::Not for PathFlags {
    type Output = Self;

    /// The known flags that are not set here.
    fn not(self) -> (r: Self)
        ensures
            r@ == !self@ & Self::all_bits(),
    {
        proof {
            lemma_mask_within(!self.bits, Self::all_bits());
        }
        PathFlags { bits: !self.bits & 0xC000_000F }
    }
}

impl vstd::std_specs::ops::NotSpecImpl for PathFlags {
    open spec fn obeys_not_spec() -> bool {
        true
    }

    open spec fn not_req(self) -> bool {
        true
    }

    closed spec fn not_spec(self) -> Self {
        PathFlags { bits: !self.bits & Self::all_bits() }
    }
}

/// Flags used when a path is fitted to a rectangle.
#[derive(Clone, Copy, Debug, PartialEq, Eq, PartialOrd, Ord, Hash)]
pub struct PathFitFlags {
    bits: u32,
}

impl View for PathFitFlags {
    type V = u32;

    /// The bits of the flag set.
    closed spec fn view(&self) -> u32 {
        self.bits
    }
}

impl PathFitFlags {
    pub const PLACEHOLDER: u32 = 0;

    /// The bits of all flags of this set.
    pub open spec fn all_bits() -> u32 {
        0
    }

    /// A flag set holds no bit that names no flag.
    #[verifier::type_invariant]
    spec fn holds_known_bits(self) -> bool {
        self.bits & !Self::all_bits() == 0
    }

    /// Two flag sets with the same bits are the same set.
    pub proof fn lemma_view_injective(a: Self, b: Self)
        requires
            a@ == b@,
        ensures
            a == b,
    {
    }

    /// The empty flag set.
    pub fn empty() -> (r: Self)
        ensures
            r@ == 0,
    {
        proof {
            lemma_zero_within(Self::all_bits());
        }
        PathFitFlags { bits: 0 }
    }

    /// The flag set holding every flag.
    pub fn all() -> (r: Self)
        ensures
            r@ == Self::all_bits(),
    {
        proof {
            lemma_self_within(Self::all_bits());
        }
        PathFitFlags { bits: 0 }
    }

    /// The raw bits of the flag set; they name known flags only.
    pub fn bits(&self) -> (r: u32)
        ensures
            r == self@,
            r & !Self::all_bits() == 0,
    {
        proof {
            use_type_invariant(self);
        }
        self.bits
    }

    /// The flag set with the given bits, or `None` where a bit names no flag.
    pub fn from_bits(bits: u32) -> (r: Option<Self>)
        ensures
            r is Some <==> bits & !Self::all_bits() == 0,
            r matches Some(f) ==> f@ == bits,
    {
        if bits & !0 == 0 {
            Some(PathFitFlags { bits })
        } else {
            None
        }
    }

    /// The flag set with the given bits, dropping bits that name no flag.
    pub fn from_bits_truncate(bits: u32) -> (r: Self)
        ensures
            r@ == bits & Self::all_bits(),
    {
        proof {
            lemma_mask_within(bits, Self::all_bits());
        }
        PathFitFlags { bits: bits & 0 }
    }

    /// Whether no flag is set.
    pub fn is_empty(&self) -> (r: bool)
        ensures
            r == (self@ == 0),
    {
        self.bits == 0
    }

    /// Whether every flag is set.
    pub fn is_all(&self) -> (r: bool)
        ensures
            r == (self@ == Self::all_bits()),
    {
        self.bits == 0
    }

    /// Whether the two sets share a flag.
    pub fn intersects(&self, other: Self) -> (r: bool)
        ensures
            r == (self@ & other@ != 0),
    {
        self.bits & other.bits != 0
    }

    /// Whether every flag of `other` is set here.
    pub fn contains(&self, other: Self) -> (r: bool)
        ensures
            r == (self@ & other@ == other@),
    {
        self.bits & other.bits == other.bits
    }

    /// Sets the flags of `other`.
    pub fn insert(&mut self, other: Self)
        ensures
            final(self)@ == old(self)@ | other@,
    {
        proof {
            use_type_invariant(&*self);
            use_type_invariant(&other);
            lemma_or_within(self.bits, other.bits, Self::all_bits());
        }
        self.bits = self.bits | other.bits;
    }

    /// Clears the flags of `other`.
    pub fn remove(&mut self, other: Self)
        ensures
            final(self)@ == old(self)@ & !other@,
    {
        proof {
            use_type_invariant(&*self);
            lemma_and_not_within(self.bits, other.bits, Self::all_bits());
        }
        self.bits = self.bits & !other.bits;
    }

    /// Flips the flags of `other`.
    pub fn toggle(&mut self, other: Self)
        ensures
            final(self)@ == old(self)@ ^ other@,
    {
        proof {
            use_type_invariant(&*self);
            use_type_invariant(&other);
            lemma_xor_within(self.bits, other.bits, Self::all_bits());
        }
        self.bits = self.bits ^ other.bits;
    }

    /// Sets the flags of `other` where `value` holds and clears them otherwise.
    pub fn set(&mut self, other: Self, value: bool)
        ensures
            value ==> final(self)@ == old(self)@ | other@,
            !value ==> final(self)@ == old(self)@ & !other@,
    {
        if value {
            self.insert(other);
        } else {
            self.remove(other);
        }
    }
}

impl core::ops::BitOr for PathFitFlags {
    type Output = Self;

    /// The flags set in either set.
    fn bitor(self, rhs: Self) -> (r: Self)
        ensures
            r@ == self@ | rhs@,
    {
        proof {
            use_type_invariant(&self);
            use_type_invariant(&rhs);
            lemma_or_within(self.bits, rhs.bits, Self::all_bits());
        }
        PathFitFlags { bits: self.bits | rhs.bits }
    }
}

impl vstd::std_specs::ops::BitOrSpecImpl for PathFitFlags {
    open spec fn obeys_bitor_spec() -> bool {
        true
    }

    open spec fn bitor_req(self, rhs: Self) -> bool {
        true
    }

    closed spec fn bitor_spec(self, rhs: Self) -> Self {
        PathFitFlags { bits: self.bits | rhs.bits }
    }
}

impl core::ops::BitAnd for PathFitFlags {
    type Output = Self;

    /// The flags set in both sets.
    fn bitand(self, rhs: Self) -> (r: Self)
        ensures
            r@ == self@ & rhs@,
    {
        proof {
            use_type_invariant(&self);
            lemma_and_within(self.bits, rhs.bits, Self::all_bits());
        }
        PathFitFlags { bits: self.bits & rhs.bits }
    }
}

impl vstd::std_specs::ops::BitAndSpecImpl for PathFitFlags {
    open spec fn obeys_bitand_spec() -> bool {
        true
    }

    open spec fn bitand_req(self, rhs: Self) -> bool {
        true
    }

    closed spec fn bitand_spec(self, rhs: Self) -> Self {
        PathFitFlags { bits: self.bits & rhs.bits }
    }
}

impl core::ops::BitXor for PathFitFlags {
    type Output = Self;

    /// The flags set in exactly one of the sets.
    fn bitxor(self, rhs: Self) -> (r: Self)
        ensures
            r@ == self@ ^ rhs@,
    {
        proof {
            use_type_invariant(&self);
            use_type_invariant(&rhs);
            lemma_xor_within(self.bits, rhs.bits, Self::all_bits());
        }
        PathFitFlags { bits: self.bits ^ rhs.bits }
    }
}

impl vstd::std_specs::ops::BitXorSpecImpl for PathFitFlags {
    open spec fn obeys_bitxor_spec() -> bool {
        true
    }

    open spec fn bitxor_req(self, rhs: Self) -> bool {
        true
    }

    closed spec fn bitxor_spec(self, rhs: Self) -> Self {
        PathFitFlags { bits: self.bits ^ rhs.bits }
    }
}

impl core::ops::Sub for PathFitFlags {
    type Output = Self;

    /// The flags set here and not in `rhs`.
    fn sub(self, rhs: Self) -> (r: Self)
        ensures
            r@ == self@ & !rhs@,
    {
        proof {
            use_type_invariant(&self);
            lemma_and_not_within(self.bits, rhs.bits, Self::all_bits());
        }
        PathFitFlags { bits: self.bits & !rhs.bits }
    }
}

impl vstd::std_specs::ops::SubSpecImpl for PathFitFlags {
    open spec fn obeys_sub_spec() -> bool {
        true
    }

    open spec fn sub_req(self, rhs: Self) -> bool {
        true
    }

    closed spec fn sub_spec(self, rhs: Self) -> Self {
        PathFitFlags { bits: self.bits & !rhs.bits }
    }
}

impl core::ops::Not for PathFitFlags {
    type Output = Self;

    /// The known flags that are not set here.
    fn not(self) -> (r: Self)
        ensures
            r@ == !self@ & Self::all_bits(),
    {
        proof {
            lemma_mask_within(!self.bits, Self::all_bits());
        }
        PathFitFlags { bits: !self.bits & 0 }
    }
}

impl vstd::std_specs::ops::NotSpecImpl for PathFitFlags {
    open spec fn obeys_not_spec() -> bool {
        true
    }

    open spec fn not_req(self) -> bool {
        true
    }

    closed spec fn not_spec(self) -> Self {
        PathFitFlags { bits: !self.bits & Self::all_bits() }
    }
}

} // verus!

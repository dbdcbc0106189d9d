//! The kinds of gradient blend2d knows, and how a gradient read back from the
//! engine is told apart by the number it carries.
use vstd::prelude::*;

verus! {

/// The kind of a gradient.
#[derive(Clone, Copy, Debug, PartialEq, Eq)]
pub enum GradientKind {
    /// A gradient along a line.
    Linear,
    /// A gradient between two circles.
    Radial,
    /// A gradient around a point.
    Conical,
}

impl GradientKind {
    /// The number by which blend2d names the kind.
    pub open spec fn bl_value(self) -> u32 {
        match self {
            GradientKind::Linear => 0,
            GradientKind::Radial => 1,
            GradientKind::Conical => 2,
        }
    }

    /// The number by which blend2d names the kind.
    pub fn bl_type(self) -> (r: u32)
        ensures
            r == self.bl_value(),
    {
        match self {
            GradientKind::Linear => 0,
            GradientKind::Radial => 1,
            GradientKind::Conical => 2,
        }
    }
}

/// The kind of gradient that blend2d names by `bl_type`, or `None` where the
/// number names no kind.
pub fn gradient_kind(bl_type: u32) -> (r: Option<GradientKind>)
    ensures
        r matches Some(k) ==> k.bl_value() == bl_type,
        r is None <==> bl_type > 2,
{
    if bl_type == 0 {
        Some(GradientKind::Linear)
    } else if bl_type == 1 {
        Some(GradientKind::Radial)
    } else if bl_type == 2 {
        Some(GradientKind::Conical)
    } else {
        None
    }
}

/// Reading a kind back from its number gives the kind again.
pub proof fn lemma_gradient_kind_roundtrip(k: GradientKind)
    ensures
        k.bl_value() <= 2,
        forall|j: GradientKind| j.bl_value() == k.bl_value() ==> j == k,
{
}

} // verus!

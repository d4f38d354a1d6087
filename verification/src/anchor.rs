//! Anchor points, alignments, and the mirror-anchor fallback mapping.

use vstd::prelude::*;
use crate::geom::{Rect, Size};

verus! {

/// Anchor point on a tooltip's parent where the tooltip should be positioned.
#[derive(Clone, Copy, Debug, PartialEq, Eq, Structural)]
pub enum TooltipAnchor {
    /// Top-right corner of the parent node.
    TopRight,
    /// Top-center point on the parent node.
    TopCenter,
    /// Top-left corner of the parent node.
    TopLeft,
    /// Left-center point on the parent node.
    LeftCenter,
    /// Bottom-left corner of the parent node.
    BottomLeft,
    /// Bottom-center point on the parent node.
    BottomCenter,
    /// Bottom-right corner of the parent node.
    BottomRight,
    /// Right-center point on the parent node.
    RightCenter,
    /// The center of the parent node. The tooltip is aligned on its top edge.
    CenterAlignTop,
    /// The center of the parent node. The tooltip is aligned on its left edge.
    CenterAlignLeft,
    /// The center of the parent node. The tooltip is aligned on its bottom edge.
    CenterAlignBottom,
    /// The center of the parent node. The tooltip is aligned on its right edge.
    CenterAlignRight,
}

/// A tooltip's alignment on its edge facing the parent node. Without any
/// offset, the anchor point and alignment point will overlap.
#[derive(Clone, Copy, Debug, PartialEq, Eq, Structural)]
pub enum TooltipAlignment {
    /// `Top*`/`Bottom*` anchor: left bottom/top corner of the tooltip.
    /// `LeftCenter`/`RightCenter` anchor: top right/left corner of the tooltip.
    Start,
    /// `Top*`/`Bottom*` anchor: center of bottom/top edge of the tooltip.
    /// `LeftCenter`/`RightCenter` anchor: center of right/left edge of the tooltip.
    Center,
    /// `Top*`/`Bottom*` anchor: right bottom/top corner of the tooltip.
    /// `LeftCenter`/`RightCenter` anchor: bottom right/left corner of the tooltip.
    End,
}

/// The anchor on the geometrically opposite side of the parent node. It is
/// the single fallback used when cursor avoidance has no room to slide, and
/// when viewport containment pushes the tooltip back over its parent.
pub open spec fn spec_mirror_anchor(a: TooltipAnchor) -> TooltipAnchor {
    match a {
        TooltipAnchor::TopRight => TooltipAnchor::BottomRight,
        TooltipAnchor::TopCenter => TooltipAnchor::BottomCenter,
        TooltipAnchor::TopLeft => TooltipAnchor::BottomLeft,
        TooltipAnchor::LeftCenter => TooltipAnchor::RightCenter,
        TooltipAnchor::BottomLeft => TooltipAnchor::TopLeft,
        TooltipAnchor::BottomCenter => TooltipAnchor::TopCenter,
        TooltipAnchor::BottomRight => TooltipAnchor::TopRight,
        TooltipAnchor::RightCenter => TooltipAnchor::LeftCenter,
        TooltipAnchor::CenterAlignTop => TooltipAnchor::CenterAlignBottom,
        TooltipAnchor::CenterAlignLeft => TooltipAnchor::CenterAlignRight,
        TooltipAnchor::CenterAlignBottom => TooltipAnchor::CenterAlignTop,
        TooltipAnchor::CenterAlignRight => TooltipAnchor::CenterAlignLeft,
    }
}

/// Computes [`spec_mirror_anchor`].
pub fn mirror_anchor(a: TooltipAnchor) -> (r: TooltipAnchor)
    ensures
        r == spec_mirror_anchor(a),
{
    match a {
        TooltipAnchor::TopRight => TooltipAnchor::BottomRight,
        TooltipAnchor::TopCenter => TooltipAnchor::BottomCenter,
        TooltipAnchor::TopLeft => TooltipAnchor::BottomLeft,
        TooltipAnchor::LeftCenter => TooltipAnchor::RightCenter,
        TooltipAnchor::BottomLeft => TooltipAnchor::TopLeft,
        TooltipAnchor::BottomCenter => TooltipAnchor::TopCenter,
        TooltipAnchor::BottomRight => TooltipAnchor::TopRight,
        TooltipAnchor::RightCenter => TooltipAnchor::LeftCenter,
        TooltipAnchor::CenterAlignTop => TooltipAnchor::CenterAlignBottom,
        TooltipAnchor::CenterAlignLeft => TooltipAnchor::CenterAlignRight,
        TooltipAnchor::CenterAlignBottom => TooltipAnchor::CenterAlignTop,
        TooltipAnchor::CenterAlignRight => TooltipAnchor::CenterAlignLeft,
    }
}

/// Law: the mirror-anchor mapping is an involution. Applying it twice
/// returns the original anchor, for every anchor in the enumeration.
pub proof fn lemma_mirror_involution(a: TooltipAnchor)
    ensures
        spec_mirror_anchor(spec_mirror_anchor(a)) == a,
{
}

/// `x` coordinate of the anchor point on the parent box `p`.
///
/// Center points use the non-negative halving of the parent's size, so the
/// executable computation agrees with this definition.
pub open spec fn anchor_x(p: Rect, a: TooltipAnchor) -> int {
    match a {
        TooltipAnchor::TopLeft => p.x as int,
        TooltipAnchor::BottomLeft => p.x as int,
        TooltipAnchor::LeftCenter => p.x as int,
        TooltipAnchor::TopRight => p.x + p.w,
        TooltipAnchor::BottomRight => p.x + p.w,
        TooltipAnchor::RightCenter => p.x + p.w,
        _ => p.x + p.w / 2,
    }
}

/// `y` coordinate of the anchor point on the parent box `p`.
pub open spec fn anchor_y(p: Rect, a: TooltipAnchor) -> int {
    match a {
        TooltipAnchor::TopLeft => p.y as int,
        TooltipAnchor::TopCenter => p.y as int,
        TooltipAnchor::TopRight => p.y as int,
        TooltipAnchor::BottomLeft => p.y + p.h,
        TooltipAnchor::BottomCenter => p.y + p.h,
        TooltipAnchor::BottomRight => p.y + p.h,
        _ => p.y + p.h / 2,
    }
}

/// Position picked by an alignment along an edge of the given extent:
/// its start, middle, or end.
pub open spec fn align_on_edge(al: TooltipAlignment, extent: int) -> int {
    match al {
        TooltipAlignment::Start => 0,
        TooltipAlignment::Center => extent / 2,
        TooltipAlignment::End => extent,
    }
}

/// `x` coordinate, relative to the tooltip's own top-left corner, of the
/// alignment point `Q` on the tooltip box of size `t`.
///
/// For anchors on the parent's top or bottom (and the center anchors aligned
/// on a horizontal tooltip edge) the alignment runs along that horizontal
/// edge; for the side and vertically-aligned center anchors, `Q` sits on the
/// tooltip edge facing the parent.
pub open spec fn align_rel_x(a: TooltipAnchor, al: TooltipAlignment, t: Size) -> int {
    match a {
        TooltipAnchor::LeftCenter => t.w as int,
        TooltipAnchor::RightCenter => 0,
        TooltipAnchor::CenterAlignLeft => 0,
        TooltipAnchor::CenterAlignRight => t.w as int,
        _ => align_on_edge(al, t.w as int),
    }
}

/// `y` coordinate, relative to the tooltip's own top-left corner, of the
/// alignment point `Q` on the tooltip box of size `t`.
///
/// A `Top*` anchor faces the tooltip's bottom edge; a `Bottom*` anchor its
/// top edge; `CenterAlignTop`/`CenterAlignBottom` pin the tooltip's top or
/// bottom edge to the parent's center; the side anchors align along the
/// tooltip's vertical edge.
pub open spec fn align_rel_y(a: TooltipAnchor, al: TooltipAlignment, t: Size) -> int {
    match a {
        TooltipAnchor::TopLeft => t.h as int,
        TooltipAnchor::TopCenter => t.h as int,
        TooltipAnchor::TopRight => t.h as int,
        TooltipAnchor::BottomLeft => 0,
        TooltipAnchor::BottomCenter => 0,
        TooltipAnchor::BottomRight => 0,
        TooltipAnchor::CenterAlignTop => 0,
        TooltipAnchor::CenterAlignBottom => t.h as int,
        _ => align_on_edge(al, t.h as int),
    }
}

} // verus!

//! The geometry resolver: anchor + alignment + offset to a desired top-left
//! position for the tooltip box, before any correction.

use vstd::prelude::*;
use crate::anchor::{
    align_rel_x,
    align_rel_y,
    anchor_x,
    anchor_y,
    TooltipAlignment,
    TooltipAnchor,
};
use crate::geom::{Rect, Size, Vec2i};

verus! {

/// A computed top-left position for the tooltip box, together with the
/// anchor that produced it. Correction stages may replace the anchor by its
/// mirror, and later stages work with the replaced one.
#[derive(Clone, Copy, Debug, PartialEq, Eq, Structural)]
pub struct Placement {
    pub pos: Vec2i,
    pub anchor: TooltipAnchor,
}

/// Desired `x` coordinate of the tooltip's top-left corner: translate the
/// tooltip so that its alignment point `Q` lands on the anchor point `A`
/// shifted by the configured offset.
pub open spec fn resolve_x(
    p: Rect,
    t: Size,
    a: TooltipAnchor,
    al: TooltipAlignment,
    off: Vec2i,
) -> int {
    anchor_x(p, a) + off.x - align_rel_x(a, al, t)
}

/// Desired `y` coordinate of the tooltip's top-left corner.
pub open spec fn resolve_y(
    p: Rect,
    t: Size,
    a: TooltipAnchor,
    al: TooltipAlignment,
    off: Vec2i,
) -> int {
    anchor_y(p, a) + off.y - align_rel_y(a, al, t)
}

/// Computes the desired top-left position of a tooltip of size `tooltip`
/// relative to the parent box `parent`.
///
/// Pure and total: every well-formed input (degenerate zero sizes included)
/// yields the position given by [`resolve_x`]/[`resolve_y`], within the
/// placement bound.
pub fn resolve_position(
    parent: &Rect,
    tooltip: &Size,
    anchor: TooltipAnchor,
    alignment: TooltipAlignment,
    offset: &Vec2i,
) -> (r: Vec2i)
    requires
        parent.wf(),
        tooltip.wf(),
        offset.wf(),
    ensures
        r.x == resolve_x(*parent, *tooltip, anchor, alignment, *offset),
        r.y == resolve_y(*parent, *tooltip, anchor, alignment, *offset),
        r.placed(),
{
    let ax: i64 = match anchor {
        TooltipAnchor::TopLeft => parent.x,
        TooltipAnchor::BottomLeft => parent.x,
        TooltipAnchor::LeftCenter => parent.x,
        TooltipAnchor::TopRight => parent.x + parent.w,
        TooltipAnchor::BottomRight => parent.x + parent.w,
        TooltipAnchor::RightCenter => parent.x + parent.w,
        _ => parent.x + parent.w / 2,
    };
    let ay: i64 = match anchor {
        TooltipAnchor::TopLeft => parent.y,
        TooltipAnchor::TopCenter => parent.y,
        TooltipAnchor::TopRight => parent.y,
        TooltipAnchor::BottomLeft => parent.y + parent.h,
        TooltipAnchor::BottomCenter => parent.y + parent.h,
        TooltipAnchor::BottomRight => parent.y + parent.h,
        _ => parent.y + parent.h / 2,
    };
    let qx: i64 = match anchor {
        TooltipAnchor::LeftCenter => tooltip.w,
        TooltipAnchor::RightCenter => 0,
        TooltipAnchor::CenterAlignLeft => 0,
        TooltipAnchor::CenterAlignRight => tooltip.w,
        _ => match alignment {
            TooltipAlignment::Start => 0,
            TooltipAlignment::Center => tooltip.w / 2,
            TooltipAlignment::End => tooltip.w,
        },
    };
    let qy: i64 = match anchor {
        TooltipAnchor::TopLeft => tooltip.h,
        TooltipAnchor::TopCenter => tooltip.h,
        TooltipAnchor::TopRight => tooltip.h,
        TooltipAnchor::BottomLeft => 0,
        TooltipAnchor::BottomCenter => 0,
        TooltipAnchor::BottomRight => 0,
        TooltipAnchor::CenterAlignTop => 0,
        TooltipAnchor::CenterAlignBottom => tooltip.h,
        _ => match alignment {
            TooltipAlignment::Start => 0,
            TooltipAlignment::Center => tooltip.h / 2,
            TooltipAlignment::End => tooltip.h,
        },
    };
    Vec2i { x: ax + offset.x - qx, y: ay + offset.y - qy }
}

/// Law: with a zero offset the alignment point coincides with the anchor
/// point. The alignment point of the placed tooltip is its top-left corner
/// plus the in-box alignment coordinate; for every anchor and alignment that
/// sum equals the anchor point exactly.
pub proof fn lemma_zero_offset_alignment(
    p: Rect,
    t: Size,
    a: TooltipAnchor,
    al: TooltipAlignment,
    off: Vec2i,
)
    requires
        off.x == 0,
        off.y == 0,
    ensures
        resolve_x(p, t, a, al, off) + align_rel_x(a, al, t) == anchor_x(p, a),
        resolve_y(p, t, a, al, off) + align_rel_y(a, al, t) == anchor_y(p, a),
{
}

} // verus!

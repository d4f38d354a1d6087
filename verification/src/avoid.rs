//! Cursor avoidance: slide the tooltip along the anchor's natural direction
//! when it would sit under the cursor glyph, or flip to the mirror anchor
//! when there is no room to slide.
//!
//! The correction needs the cursor glyph's size and hotspot, which are only
//! known for custom cursors; when they are unavailable the caller skips this
//! stage entirely.

use vstd::prelude::*;
use crate::anchor::{spec_mirror_anchor, mirror_anchor, TooltipAlignment, TooltipAnchor};
use crate::geom::{Rect, Size, Vec2i};
use crate::place::{resolve_position, resolve_x, resolve_y, Placement};

verus! {

/// A custom cursor's footprint: the pointer position, the glyph size, and
/// the hotspot (the glyph-local point that sits at the pointer position).
#[derive(Clone, Copy, Debug, PartialEq, Eq, Structural)]
pub struct CursorInfo {
    pub pos: Vec2i,
    pub size: Size,
    pub hotspot: Vec2i,
}

impl CursorInfo {
    /// All components are within the input coordinate bound.
    pub open spec fn wf(self) -> bool {
        self.pos.wf() && self.size.wf() && self.hotspot.wf()
    }

    /// `x` of the glyph's top-left corner: pointer position minus hotspot.
    pub open spec fn left(self) -> int {
        self.pos.x - self.hotspot.x
    }

    /// `y` of the glyph's top-left corner.
    pub open spec fn top(self) -> int {
        self.pos.y - self.hotspot.y
    }

    /// Runtime check for [`CursorInfo::wf`], for callers outside verified
    /// code.
    pub fn is_well_formed(&self) -> (b: bool)
        ensures
            b == self.wf(),
    {
        self.pos.is_well_formed() && self.size.is_well_formed() && self.hotspot.is_well_formed()
    }
}

/// Sign of the anchor's natural direction on the `x` axis: the way "away
/// from the parent" points for side anchors, and the way the tooltip extends
/// from the parent's center for horizontally-aligned center anchors.
pub open spec fn slide_dir_x(a: TooltipAnchor) -> int {
    match a {
        TooltipAnchor::LeftCenter => -1,
        TooltipAnchor::RightCenter => 1,
        TooltipAnchor::CenterAlignLeft => 1,
        TooltipAnchor::CenterAlignRight => -1,
        _ => 0,
    }
}

/// Sign of the anchor's natural direction on the `y` axis.
pub open spec fn slide_dir_y(a: TooltipAnchor) -> int {
    match a {
        TooltipAnchor::TopLeft => -1,
        TooltipAnchor::TopCenter => -1,
        TooltipAnchor::TopRight => -1,
        TooltipAnchor::BottomLeft => 1,
        TooltipAnchor::BottomCenter => 1,
        TooltipAnchor::BottomRight => 1,
        TooltipAnchor::CenterAlignTop => 1,
        TooltipAnchor::CenterAlignBottom => -1,
        _ => 0,
    }
}

/// The tooltip box with top-left `(tx, ty)` and size `t` shares interior
/// points with the cursor glyph's box.
pub open spec fn spec_overlaps_cursor(tx: int, ty: int, t: Size, c: CursorInfo) -> bool {
    tx < c.left() + c.size.w && c.left() < tx + t.w && ty < c.top() + c.size.h && c.top() < ty
        + t.h
}

/// `x` after sliding just far enough along the anchor's natural direction to
/// clear the cursor glyph; unchanged on an axis the direction does not use.
pub open spec fn spec_slid_x(tx: int, t: Size, c: CursorInfo, a: TooltipAnchor) -> int {
    if slide_dir_x(a) == -1 {
        c.left() - t.w
    } else if slide_dir_x(a) == 1 {
        c.left() + c.size.w
    } else {
        tx
    }
}

/// `y` after sliding just far enough to clear the cursor glyph.
pub open spec fn spec_slid_y(ty: int, t: Size, c: CursorInfo, a: TooltipAnchor) -> int {
    if slide_dir_y(a) == -1 {
        c.top() - t.h
    } else if slide_dir_y(a) == 1 {
        c.top() + c.size.h
    } else {
        ty
    }
}

/// The slid tooltip box still lies inside the container on the side it slid
/// toward. When it does not, the parent offers no room in that direction and
/// the anchor is flipped instead.
pub open spec fn spec_slide_has_room(
    sx: int,
    sy: int,
    t: Size,
    container: Rect,
    a: TooltipAnchor,
) -> bool {
    if slide_dir_x(a) == -1 {
        container.x <= sx
    } else if slide_dir_x(a) == 1 {
        sx + t.w <= container.right()
    } else if slide_dir_y(a) == -1 {
        container.y <= sy
    } else {
        sy + t.h <= container.bottom()
    }
}

/// The cursor-avoidance correction as a whole: leave a non-overlapping
/// placement alone; otherwise slide along the anchor's natural direction
/// when there is room, and flip to the mirror anchor (re-running the
/// resolver, accepting any remaining overlap) when there is not.
pub open spec fn spec_avoid(
    p: Rect,
    t: Size,
    a: TooltipAnchor,
    al: TooltipAlignment,
    off: Vec2i,
    dx: int,
    dy: int,
    c: CursorInfo,
    container: Rect,
) -> (int, int, TooltipAnchor) {
    if !spec_overlaps_cursor(dx, dy, t, c) {
        (dx, dy, a)
    } else {
        let sx = spec_slid_x(dx, t, c, a);
        let sy = spec_slid_y(dy, t, c, a);
        if spec_slide_has_room(sx, sy, t, container, a) {
            (sx, sy, a)
        } else {
            let m = spec_mirror_anchor(a);
            (resolve_x(p, t, m, al, off), resolve_y(p, t, m, al, off), m)
        }
    }
}

/// Applies the cursor-avoidance correction to the desired position
/// `desired`, computing exactly [`spec_avoid`]. In the sliding case the
/// returned box no longer overlaps the cursor glyph.
pub fn avoid_cursor(
    parent: &Rect,
    tooltip: &Size,
    anchor: TooltipAnchor,
    alignment: TooltipAlignment,
    offset: &Vec2i,
    desired: &Vec2i,
    cursor: &CursorInfo,
    container: &Rect,
) -> (r: Placement)
    requires
        parent.wf(),
        tooltip.wf(),
        offset.wf(),
        desired.placed(),
        cursor.wf(),
        container.wf(),
    ensures
        ({
            let s = spec_avoid(
                *parent,
                *tooltip,
                anchor,
                alignment,
                *offset,
                desired.x as int,
                desired.y as int,
                *cursor,
                *container,
            );
            r.pos.x == s.0 && r.pos.y == s.1 && r.anchor == s.2
        }),
        !spec_overlaps_cursor(desired.x as int, desired.y as int, *tooltip, *cursor) ==> r.pos
            == *desired && r.anchor == anchor,
        spec_overlaps_cursor(desired.x as int, desired.y as int, *tooltip, *cursor)
            && spec_slide_has_room(
            spec_slid_x(desired.x as int, *tooltip, *cursor, anchor),
            spec_slid_y(desired.y as int, *tooltip, *cursor, anchor),
            *tooltip,
            *container,
            anchor,
        ) ==> !spec_overlaps_cursor(r.pos.x as int, r.pos.y as int, *tooltip, *cursor),
        r.pos.placed(),
{
    let cx: i64 = cursor.pos.x - cursor.hotspot.x;
    let cy: i64 = cursor.pos.y - cursor.hotspot.y;
    let overlaps = desired.x < cx + cursor.size.w && cx < desired.x + tooltip.w && desired.y < cy
        + cursor.size.h && cy < desired.y + tooltip.h;
    if !overlaps {
        Placement { pos: *desired, anchor }
    } else {
        let dir_x: i64 = match anchor {
            TooltipAnchor::LeftCenter => -1,
            TooltipAnchor::RightCenter => 1,
            TooltipAnchor::CenterAlignLeft => 1,
            TooltipAnchor::CenterAlignRight => -1,
            _ => 0,
        };
        let dir_y: i64 = match anchor {
            TooltipAnchor::TopLeft => -1,
            TooltipAnchor::TopCenter => -1,
            TooltipAnchor::TopRight => -1,
            TooltipAnchor::BottomLeft => 1,
            TooltipAnchor::BottomCenter => 1,
            TooltipAnchor::BottomRight => 1,
            TooltipAnchor::CenterAlignTop => 1,
            TooltipAnchor::CenterAlignBottom => -1,
            _ => 0,
        };
        let sx: i64 = if dir_x == -1 {
            cx - tooltip.w
        } else if dir_x == 1 {
            cx + cursor.size.w
        } else {
            desired.x
        };
        let sy: i64 = if dir_y == -1 {
            cy - tooltip.h
        } else if dir_y == 1 {
            cy + cursor.size.h
        } else {
            desired.y
        };
        let has_room = if dir_x == -1 {
            container.x <= sx
        } else if dir_x == 1 {
            sx + tooltip.w <= container.x + container.w
        } else if dir_y == -1 {
            container.y <= sy
        } else {
            sy + tooltip.h <= container.y + container.h
        };
        if has_room {
            Placement { pos: Vec2i { x: sx, y: sy }, anchor }
        } else {
            let m = mirror_anchor(anchor);
            let pos = resolve_position(parent, tooltip, m, alignment, offset);
            Placement { pos, anchor: m }
        }
    }
}

} // verus!

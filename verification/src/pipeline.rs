//! The per-frame placement pipeline: resolve, then avoid the cursor, then
//! stay inside the viewport — always in that order.

use vstd::prelude::*;
use crate::avoid::{avoid_cursor, spec_avoid, CursorInfo};
use crate::config::Tooltip;
use crate::contain::{contain_in_viewport, spec_contain};
use crate::geom::{Rect, Size, Vec2i};
use crate::place::{resolve_position, resolve_x, resolve_y, Placement};
use crate::anchor::TooltipAnchor;

verus! {

/// The position and effective anchor the pipeline computes for one frame:
/// the resolver's desired position, corrected for the cursor when enabled
/// and a cursor footprint is known, then corrected for the viewport when
/// enabled.
pub open spec fn spec_compute_position(
    cfg: Tooltip,
    parent: Rect,
    t: Size,
    vp: Rect,
    cursor: Option<CursorInfo>,
) -> (int, int, TooltipAnchor) {
    let dx = resolve_x(parent, t, cfg.anchor, cfg.alignment, cfg.offset);
    let dy = resolve_y(parent, t, cfg.anchor, cfg.alignment, cfg.offset);
    let avoided = if !cfg.avoid_cursor {
        (dx, dy, cfg.anchor)
    } else {
        match cursor {
            Some(c) => spec_avoid(parent, t, cfg.anchor, cfg.alignment, cfg.offset, dx, dy, c, vp),
            None => (dx, dy, cfg.anchor),
        }
    };
    if cfg.stay_in_camera {
        spec_contain(
            parent,
            t,
            avoided.2,
            cfg.alignment,
            cfg.offset,
            avoided.0,
            avoided.1,
            vp,
            cfg.camera_padding as int,
        )
    } else {
        avoided
    }
}

/// Computes the tooltip's position for the current frame from the geometry
/// snapshot: parent box, tooltip size, the viewport of the parent's camera,
/// and the cursor footprint when a custom cursor is active.
///
/// Exactly [`spec_compute_position`]; in addition, whenever the
/// stay-in-camera correction is enabled, the result is inside the viewport
/// on every axis where the tooltip fits and pinned to the viewport's
/// top-left coordinate on every axis where it does not.
pub fn compute_position(
    cfg: &Tooltip,
    parent: &Rect,
    tooltip: &Size,
    viewport: &Rect,
    cursor: &Option<CursorInfo>,
) -> (r: Placement)
    requires
        cfg.wf(),
        parent.wf(),
        tooltip.wf(),
        viewport.wf(),
        (*cursor) matches Some(c) ==> c.wf(),
    ensures
        ({
            let s = spec_compute_position(*cfg, *parent, *tooltip, *viewport, *cursor);
            r.pos.x == s.0 && r.pos.y == s.1 && r.anchor == s.2
        }),
        cfg.stay_in_camera && tooltip.w <= viewport.w ==> viewport.x <= r.pos.x && r.pos.x
            + tooltip.w <= viewport.x + viewport.w,
        cfg.stay_in_camera && tooltip.h <= viewport.h ==> viewport.y <= r.pos.y && r.pos.y
            + tooltip.h <= viewport.y + viewport.h,
        cfg.stay_in_camera && tooltip.w > viewport.w ==> r.pos.x == viewport.x,
        cfg.stay_in_camera && tooltip.h > viewport.h ==> r.pos.y == viewport.y,
        r.pos.placed(),
{
    let desired = resolve_position(parent, tooltip, cfg.anchor, cfg.alignment, &cfg.offset);
    let avoided = if !cfg.avoid_cursor {
        Placement { pos: desired, anchor: cfg.anchor }
    } else {
        match cursor {
            Some(c) => avoid_cursor(
                parent,
                tooltip,
                cfg.anchor,
                cfg.alignment,
                &cfg.offset,
                &desired,
                c,
                viewport,
            ),
            None => Placement { pos: desired, anchor: cfg.anchor },
        }
    };
    if cfg.stay_in_camera {
        contain_in_viewport(
            parent,
            tooltip,
            avoided.anchor,
            cfg.alignment,
            &cfg.offset,
            &avoided.pos,
            viewport,
            cfg.camera_padding,
        )
    } else {
        avoided
    }
}

} // verus!

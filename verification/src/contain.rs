//! Viewport containment: push the tooltip inside the (padded) camera
//! rectangle, flip the anchor if the push lands it back on its parent, and
//! fall back to clamping the top-left corner when the tooltip cannot fit.

use vstd::prelude::*;
use crate::anchor::{spec_mirror_anchor, mirror_anchor, TooltipAlignment, TooltipAnchor};
use crate::geom::{place_in_range, Rect, Size, Vec2i, COORD_LIMIT};
use crate::place::{resolve_position, resolve_x, resolve_y, Placement};

verus! {

/// The smaller of two integers.
pub open spec fn min_int(a: int, b: int) -> int {
    if a <= b {
        a
    } else {
        b
    }
}

/// Half of the slack an outer extent leaves around an inner extent, floored
/// at zero: the largest symmetric padding on that axis that still admits the
/// inner extent.
pub open spec fn half_gap(outer: int, inner: int) -> int {
    if inner <= outer {
        (outer - inner) / 2
    } else {
        0
    }
}

/// The configured camera padding, reduced toward zero (never negative) so
/// that the viewport can admit both the tooltip and the padding on all four
/// sides simultaneously.
pub open spec fn spec_effective_padding(pad: int, t: Size, vp: Rect) -> int {
    min_int(pad, min_int(half_gap(vp.w as int, t.w as int), half_gap(vp.h as int, t.h as int)))
}

/// One axis of the push step. `pos`/`size` describe the tooltip on this
/// axis, `vmin`/`vlen` the viewport, `pad` the effective padding.
///
/// When the tooltip and padding fit, the coordinate is clamped so that the
/// whole extent lies inside the padded viewport; this is the minimum
/// translation that removes the penetration on this axis. Otherwise the
/// top-left coordinate is clamped to the viewport's own top-left (the hard
/// fallback: the near edge stays inside, the far edge may overflow).
pub open spec fn spec_push_axis(pos: int, size: int, vmin: int, vlen: int, pad: int) -> int {
    let lo = vmin + pad;
    let hi = vmin + vlen - pad - size;
    if size + 2 * pad <= vlen {
        if pos < lo {
            lo
        } else if pos > hi {
            hi
        } else {
            pos
        }
    } else {
        vmin
    }
}

/// The tooltip box with top-left `(tx, ty)` and size `t` shares interior
/// points with the zone of width `pad` drawn around the parent box `p`.
pub open spec fn spec_overlaps_padded_zone(tx: int, ty: int, t: Size, p: Rect, pad: int) -> bool {
    tx < p.x + p.w + pad && p.x - pad < tx + t.w && ty < p.y + p.h + pad && p.y - pad < ty + t.h
}

/// The containment correction as a whole: effective padding, push, a single
/// anchor flip when the push newly lands the tooltip on the padded zone
/// around its parent, and a second push after the flip.
///
/// The flip fires only when the push itself caused the overlap: a placement
/// that already overlapped the zone before pushing (as every `CenterAlign*`
/// anchor does by design) is left where the push put it.
pub open spec fn spec_contain(
    p: Rect,
    t: Size,
    a: TooltipAnchor,
    al: TooltipAlignment,
    off: Vec2i,
    dx: int,
    dy: int,
    vp: Rect,
    pad: int,
) -> (int, int, TooltipAnchor) {
    let e = spec_effective_padding(pad, t, vp);
    let px = spec_push_axis(dx, t.w as int, vp.x as int, vp.w as int, e);
    let py = spec_push_axis(dy, t.h as int, vp.y as int, vp.h as int, e);
    if spec_overlaps_padded_zone(px, py, t, p, e) && !spec_overlaps_padded_zone(dx, dy, t, p, e) {
        let m = spec_mirror_anchor(a);
        let fx = resolve_x(p, t, m, al, off);
        let fy = resolve_y(p, t, m, al, off);
        (
            spec_push_axis(fx, t.w as int, vp.x as int, vp.w as int, e),
            spec_push_axis(fy, t.h as int, vp.y as int, vp.h as int, e),
            m,
        )
    } else {
        (px, py, a)
    }
}

/// Computes [`spec_effective_padding`].
pub fn effective_padding(pad: i64, tooltip: &Size, viewport: &Rect) -> (r: i64)
    requires
        0 <= pad <= COORD_LIMIT as int,
        tooltip.wf(),
        viewport.wf(),
    ensures
        r == spec_effective_padding(pad as int, *tooltip, *viewport),
        0 <= r <= pad,
{
    let gx: i64 = if tooltip.w <= viewport.w {
        (viewport.w - tooltip.w) / 2
    } else {
        0
    };
    let gy: i64 = if tooltip.h <= viewport.h {
        (viewport.h - tooltip.h) / 2
    } else {
        0
    };
    let g: i64 = if gx <= gy {
        gx
    } else {
        gy
    };
    if pad <= g {
        pad
    } else {
        g
    }
}

/// Computes [`spec_push_axis`].
pub fn push_axis(pos: i64, size: i64, vmin: i64, vlen: i64, pad: i64) -> (r: i64)
    requires
        place_in_range(pos as int),
        0 <= size <= COORD_LIMIT as int,
        -(COORD_LIMIT as int) <= vmin <= COORD_LIMIT as int,
        0 <= vlen <= COORD_LIMIT as int,
        0 <= pad <= COORD_LIMIT as int,
    ensures
        r == spec_push_axis(pos as int, size as int, vmin as int, vlen as int, pad as int),
        place_in_range(r as int),
{
    let lo: i64 = vmin + pad;
    let hi: i64 = vmin + vlen - pad - size;
    if size + 2 * pad <= vlen {
        if pos < lo {
            lo
        } else if pos > hi {
            hi
        } else {
            pos
        }
    } else {
        vmin
    }
}

/// Decides [`spec_overlaps_padded_zone`].
pub fn overlaps_padded_zone(tx: i64, ty: i64, tooltip: &Size, parent: &Rect, pad: i64) -> (b: bool)
    requires
        place_in_range(tx as int),
        place_in_range(ty as int),
        tooltip.wf(),
        parent.wf(),
        0 <= pad <= COORD_LIMIT as int,
    ensures
        b == spec_overlaps_padded_zone(tx as int, ty as int, *tooltip, *parent, pad as int),
{
    tx < parent.x + parent.w + pad && parent.x - pad < tx + tooltip.w && ty < parent.y + parent.h
        + pad && parent.y - pad < ty + tooltip.h
}

/// Applies the containment correction to the desired position `desired`.
///
/// Besides computing exactly [`spec_contain`], the result is guaranteed to
/// lie inside the viewport on every axis where the tooltip fits, and to sit
/// at the viewport's top-left coordinate on every axis where it does not.
pub fn contain_in_viewport(
    parent: &Rect,
    tooltip: &Size,
    anchor: TooltipAnchor,
    alignment: TooltipAlignment,
    offset: &Vec2i,
    desired: &Vec2i,
    viewport: &Rect,
    camera_padding: i64,
) -> (r: Placement)
    requires
        parent.wf(),
        tooltip.wf(),
        offset.wf(),
        desired.placed(),
        viewport.wf(),
        0 <= camera_padding <= COORD_LIMIT as int,
    ensures
        ({
            let s = spec_contain(
                *parent,
                *tooltip,
                anchor,
                alignment,
                *offset,
                desired.x as int,
                desired.y as int,
                *viewport,
                camera_padding as int,
            );
            r.pos.x == s.0 && r.pos.y == s.1 && r.anchor == s.2
        }),
        tooltip.w <= viewport.w ==> viewport.x <= r.pos.x && r.pos.x + tooltip.w <= viewport.x
            + viewport.w,
        tooltip.h <= viewport.h ==> viewport.y <= r.pos.y && r.pos.y + tooltip.h <= viewport.y
            + viewport.h,
        tooltip.w > viewport.w ==> r.pos.x == viewport.x,
        tooltip.h > viewport.h ==> r.pos.y == viewport.y,
        r.pos.placed(),
{
    proof {
        let e: int = spec_effective_padding(camera_padding as int, *tooltip, *viewport);
        lemma_effective_padding_fits(camera_padding as int, *tooltip, *viewport);
        lemma_push_axis_contains(
            desired.x as int,
            tooltip.w as int,
            viewport.x as int,
            viewport.w as int,
            e,
        );
        lemma_push_axis_contains(
            desired.y as int,
            tooltip.h as int,
            viewport.y as int,
            viewport.h as int,
            e,
        );
    }
    let pad = effective_padding(camera_padding, tooltip, viewport);
    let px = push_axis(desired.x, tooltip.w, viewport.x, viewport.w, pad);
    let py = push_axis(desired.y, tooltip.h, viewport.y, viewport.h, pad);
    let pushed_overlaps = overlaps_padded_zone(px, py, tooltip, parent, pad);
    let desired_overlapped = overlaps_padded_zone(desired.x, desired.y, tooltip, parent, pad);
    if pushed_overlaps && !desired_overlapped {
        let m = mirror_anchor(anchor);
        let flipped = resolve_position(parent, tooltip, m, alignment, offset);
        let fx = push_axis(flipped.x, tooltip.w, viewport.x, viewport.w, pad);
        let fy = push_axis(flipped.y, tooltip.h, viewport.y, viewport.h, pad);
        proof {
            let e: int = spec_effective_padding(camera_padding as int, *tooltip, *viewport);
            lemma_effective_padding_fits(camera_padding as int, *tooltip, *viewport);
            lemma_push_axis_contains(
                flipped.x as int,
                tooltip.w as int,
                viewport.x as int,
                viewport.w as int,
                e,
            );
            lemma_push_axis_contains(
                flipped.y as int,
                tooltip.h as int,
                viewport.y as int,
                viewport.h as int,
                e,
            );
        }
        Placement { pos: Vec2i { x: fx, y: fy }, anchor: m }
    } else {
        Placement { pos: Vec2i { x: px, y: py }, anchor }
    }
}

/// Law: on an axis where the tooltip extent fits in the viewport extent, the
/// pushed coordinate keeps the whole extent inside the viewport; on an axis
/// where it does not fit, the pushed coordinate is the viewport's own.
pub proof fn lemma_push_axis_contains(pos: int, size: int, vmin: int, vlen: int, pad: int)
    requires
        0 <= size,
        0 <= vlen,
        0 <= pad,
        2 * pad <= vlen - size || size > vlen,
    ensures
        size <= vlen ==> vmin <= spec_push_axis(pos, size, vmin, vlen, pad) && spec_push_axis(
            pos,
            size,
            vmin,
            vlen,
            pad,
        ) + size <= vmin + vlen,
        size > vlen ==> spec_push_axis(pos, size, vmin, vlen, pad) == vmin,
{
}

/// Law: the effective padding always admits the tooltip and the padding
/// together on every axis where the tooltip fits at all.
pub proof fn lemma_effective_padding_fits(pad: int, t: Size, vp: Rect)
    requires
        0 <= pad,
    ensures
        0 <= spec_effective_padding(pad, t, vp) <= pad,
        t.w <= vp.w ==> 2 * spec_effective_padding(pad, t, vp) <= vp.w - t.w,
        t.h <= vp.h ==> 2 * spec_effective_padding(pad, t, vp) <= vp.h - t.h,
        t.w > vp.w || t.h > vp.h ==> spec_effective_padding(pad, t, vp) == 0,
{
}

} // verus!

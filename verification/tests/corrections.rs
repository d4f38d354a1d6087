//! Tests of the cursor-avoidance and viewport-containment corrections.

use tooltip::anchor::{TooltipAlignment, TooltipAnchor};
use tooltip::avoid::{avoid_cursor, CursorInfo};
use tooltip::config::Tooltip;
use tooltip::contain::{contain_in_viewport, effective_padding, push_axis};
use tooltip::geom::{Rect, Size, Vec2i};
use tooltip::pipeline::compute_position;

#[test]
fn push_clamps_right_edge_to_viewport() {
    // Viewport {0,0,200,200}, desired box {x:190,y:10,w:40,h:10}: pushing
    // moves x to 160 so the right edge sits at 200; y is unchanged.
    assert_eq!(push_axis(190, 40, 0, 200, 0), 160);
    assert_eq!(push_axis(10, 10, 0, 200, 0), 10);
    let parent = Rect { x: 0, y: 0, w: 10, h: 10 };
    let size = Size { w: 40, h: 10 };
    let offset = Vec2i { x: 0, y: 0 };
    let desired = Vec2i { x: 190, y: 10 };
    let viewport = Rect { x: 0, y: 0, w: 200, h: 200 };
    let r = contain_in_viewport(
        &parent,
        &size,
        TooltipAnchor::TopCenter,
        TooltipAlignment::Center,
        &offset,
        &desired,
        &viewport,
        0,
    );
    assert_eq!(r.pos, Vec2i { x: 160, y: 10 });
    assert_eq!(r.anchor, TooltipAnchor::TopCenter);
}

#[test]
fn fitting_tooltip_ends_inside_viewport() {
    // Wherever the desired position lies, a tooltip no larger than the
    // viewport is fully inside it after the correction.
    let parent = Rect { x: 250, y: 250, w: 20, h: 20 };
    let size = Size { w: 40, h: 10 };
    let offset = Vec2i { x: 0, y: 0 };
    let viewport = Rect { x: 100, y: 100, w: 200, h: 200 };
    for desired in [
        Vec2i { x: -500, y: -500 },
        Vec2i { x: 500, y: 50 },
        Vec2i { x: 120, y: 900 },
        Vec2i { x: 150, y: 150 },
    ] {
        let r = contain_in_viewport(
            &parent,
            &size,
            TooltipAnchor::TopCenter,
            TooltipAlignment::Center,
            &offset,
            &desired,
            &viewport,
            0,
        );
        let result_box = Rect { x: r.pos.x, y: r.pos.y, w: size.w, h: size.h };
        assert!(viewport.contains_rect(&result_box));
    }
}

#[test]
fn oversized_tooltip_clamps_top_left_to_viewport() {
    // Wider than the viewport on x: the top-left x is pinned to the
    // viewport's left edge; y still fits and stays inside.
    let parent = Rect { x: 20, y: 20, w: 10, h: 10 };
    let size = Size { w: 300, h: 10 };
    let offset = Vec2i { x: 0, y: 0 };
    let desired = Vec2i { x: 70, y: 400 };
    let viewport = Rect { x: 5, y: 5, w: 200, h: 200 };
    let r = contain_in_viewport(
        &parent,
        &size,
        TooltipAnchor::TopCenter,
        TooltipAlignment::Center,
        &offset,
        &desired,
        &viewport,
        0,
    );
    assert_eq!(r.pos.x, 5);
    assert!(viewport.y <= r.pos.y && r.pos.y + size.h <= viewport.y + viewport.h);
}

#[test]
fn push_over_parent_flips_anchor() {
    // A tooltip hanging off the parent's right side gets pushed back over
    // the parent by the viewport edge; the anchor flips to the mirror side
    // and the tooltip ends left of the parent.
    let parent = Rect { x: 190, y: 40, w: 10, h: 10 };
    let size = Size { w: 40, h: 10 };
    let offset = Vec2i { x: 0, y: 0 };
    let desired = Vec2i { x: 200, y: 40 };
    let viewport = Rect { x: 0, y: 0, w: 200, h: 100 };
    let r = contain_in_viewport(
        &parent,
        &size,
        TooltipAnchor::RightCenter,
        TooltipAlignment::Center,
        &offset,
        &desired,
        &viewport,
        0,
    );
    assert_eq!(r.anchor, TooltipAnchor::LeftCenter);
    assert_eq!(r.pos, Vec2i { x: 150, y: 40 });
}

#[test]
fn padding_shrinks_to_fit_viewport() {
    // Padding 50 around a 90x90 tooltip in a 100x100 viewport leaves only
    // 5 on each side.
    let size = Size { w: 90, h: 90 };
    let viewport = Rect { x: 0, y: 0, w: 100, h: 100 };
    assert_eq!(effective_padding(50, &size, &viewport), 5);
    assert_eq!(push_axis(0, 90, 0, 100, 5), 5);
    let parent = Rect { x: 0, y: 0, w: 1, h: 1 };
    let offset = Vec2i { x: 0, y: 0 };
    let desired = Vec2i { x: 0, y: 0 };
    let r = contain_in_viewport(
        &parent,
        &size,
        TooltipAnchor::TopCenter,
        TooltipAlignment::Center,
        &offset,
        &desired,
        &viewport,
        50,
    );
    assert_eq!(r.pos, Vec2i { x: 5, y: 5 });
}

#[test]
fn zero_viewport_pins_to_its_corner() {
    // A zero-size viewport cannot contain the tooltip on either axis, so
    // the top-left corner is pinned to the viewport's corner.
    let parent = Rect { x: 50, y: 50, w: 10, h: 10 };
    let size = Size { w: 40, h: 10 };
    let offset = Vec2i { x: 0, y: 0 };
    let desired = Vec2i { x: 120, y: 130 };
    let viewport = Rect { x: 7, y: 9, w: 0, h: 0 };
    let r = contain_in_viewport(
        &parent,
        &size,
        TooltipAnchor::TopCenter,
        TooltipAlignment::Center,
        &offset,
        &desired,
        &viewport,
        25,
    );
    assert_eq!(r.pos, Vec2i { x: 7, y: 9 });
}

#[test]
fn missing_cursor_skips_avoidance() {
    // avoid_cursor is set, but without a cursor footprint the stage is a
    // no-op and the resolver's output passes through.
    let cfg = Tooltip::default();
    let parent = Rect { x: 100, y: 100, w: 50, h: 20 };
    let size = Size { w: 40, h: 10 };
    let viewport = Rect { x: 0, y: 0, w: 400, h: 400 };
    let r = compute_position(&cfg, &parent, &size, &viewport, &None);
    assert_eq!(r.pos, Vec2i { x: 105, y: 90 });
    assert_eq!(r.anchor, TooltipAnchor::TopCenter);
}

#[test]
fn cursor_clear_placement_is_untouched() {
    let parent = Rect { x: 100, y: 100, w: 50, h: 20 };
    let size = Size { w: 40, h: 10 };
    let offset = Vec2i { x: 0, y: 0 };
    let desired = Vec2i { x: 105, y: 85 };
    let cursor = CursorInfo {
        pos: Vec2i { x: 300, y: 300 },
        size: Size { w: 10, h: 10 },
        hotspot: Vec2i { x: 0, y: 0 },
    };
    let container = Rect { x: 0, y: 0, w: 400, h: 400 };
    let r = avoid_cursor(
        &parent,
        &size,
        TooltipAnchor::TopCenter,
        TooltipAlignment::Center,
        &offset,
        &desired,
        &cursor,
        &container,
    );
    assert_eq!(r.pos, desired);
    assert_eq!(r.anchor, TooltipAnchor::TopCenter);
}

#[test]
fn overlapping_cursor_slides_tooltip_away() {
    // A TopCenter tooltip overlapping the cursor glyph slides further up,
    // just far enough that its bottom edge meets the glyph's top edge.
    let parent = Rect { x: 100, y: 100, w: 50, h: 20 };
    let size = Size { w: 40, h: 10 };
    let offset = Vec2i { x: 0, y: 0 };
    let desired = Vec2i { x: 105, y: 85 };
    let cursor = CursorInfo {
        pos: Vec2i { x: 120, y: 90 },
        size: Size { w: 10, h: 10 },
        hotspot: Vec2i { x: 0, y: 0 },
    };
    let container = Rect { x: 0, y: 0, w: 400, h: 400 };
    let r = avoid_cursor(
        &parent,
        &size,
        TooltipAnchor::TopCenter,
        TooltipAlignment::Center,
        &offset,
        &desired,
        &cursor,
        &container,
    );
    assert_eq!(r.pos, Vec2i { x: 105, y: 80 });
    assert_eq!(r.anchor, TooltipAnchor::TopCenter);
    let slid_box = Rect { x: r.pos.x, y: r.pos.y, w: size.w, h: size.h };
    let glyph_box = Rect { x: 120, y: 90, w: 10, h: 10 };
    assert!(!slid_box.overlaps(&glyph_box));
}

#[test]
fn no_room_to_slide_flips_to_mirror_anchor() {
    // The parent sits at the top of the container, so sliding further up
    // would leave it; the anchor flips to BottomCenter and the resolver
    // re-runs there.
    let parent = Rect { x: 100, y: 2, w: 50, h: 20 };
    let size = Size { w: 40, h: 10 };
    let offset = Vec2i { x: 0, y: 0 };
    let desired = Vec2i { x: 105, y: -8 };
    let cursor = CursorInfo {
        pos: Vec2i { x: 105, y: -8 },
        size: Size { w: 10, h: 10 },
        hotspot: Vec2i { x: 0, y: 0 },
    };
    let container = Rect { x: 0, y: 0, w: 400, h: 400 };
    let r = avoid_cursor(
        &parent,
        &size,
        TooltipAnchor::TopCenter,
        TooltipAlignment::Center,
        &offset,
        &desired,
        &cursor,
        &container,
    );
    assert_eq!(r.anchor, TooltipAnchor::BottomCenter);
    assert_eq!(r.pos, Vec2i { x: 105, y: 22 });
}

#[test]
fn pipeline_applies_stages_in_order() {
    // Resolver output (105,85) overlaps the cursor, slides up to (105,80),
    // and already sits inside the viewport, so containment leaves it alone.
    let mut cfg = Tooltip::default();
    cfg.offset = Vec2i { x: 0, y: -5 };
    let parent = Rect { x: 100, y: 100, w: 50, h: 20 };
    let size = Size { w: 40, h: 10 };
    let viewport = Rect { x: 0, y: 0, w: 400, h: 400 };
    let cursor = Some(CursorInfo {
        pos: Vec2i { x: 120, y: 90 },
        size: Size { w: 10, h: 10 },
        hotspot: Vec2i { x: 0, y: 0 },
    });
    let r = compute_position(&cfg, &parent, &size, &viewport, &cursor);
    assert_eq!(r.pos, Vec2i { x: 105, y: 80 });
    assert_eq!(r.anchor, TooltipAnchor::TopCenter);
}

#[test]
fn pipeline_skips_disabled_corrections() {
    let mut cfg = Tooltip::default();
    cfg.avoid_cursor = false;
    cfg.stay_in_camera = false;
    let parent = Rect { x: 100, y: 100, w: 50, h: 20 };
    let size = Size { w: 40, h: 10 };
    let viewport = Rect { x: 0, y: 0, w: 100, h: 100 };
    let cursor = Some(CursorInfo {
        pos: Vec2i { x: 110, y: 92 },
        size: Size { w: 10, h: 10 },
        hotspot: Vec2i { x: 0, y: 0 },
    });
    let r = compute_position(&cfg, &parent, &size, &viewport, &cursor);
    // Untouched resolver output, even though it overlaps the cursor and
    // lies outside the viewport.
    assert_eq!(r.pos, Vec2i { x: 105, y: 90 });
}

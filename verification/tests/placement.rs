//! Tests of the anchor vocabulary and the geometry resolver.

use tooltip::anchor::{mirror_anchor, TooltipAlignment, TooltipAnchor};
use tooltip::geom::{Rect, Size, Vec2i};
use tooltip::place::resolve_position;

const ALL_ANCHORS: [TooltipAnchor; 12] = [
    TooltipAnchor::TopRight,
    TooltipAnchor::TopCenter,
    TooltipAnchor::TopLeft,
    TooltipAnchor::LeftCenter,
    TooltipAnchor::BottomLeft,
    TooltipAnchor::BottomCenter,
    TooltipAnchor::BottomRight,
    TooltipAnchor::RightCenter,
    TooltipAnchor::CenterAlignTop,
    TooltipAnchor::CenterAlignLeft,
    TooltipAnchor::CenterAlignBottom,
    TooltipAnchor::CenterAlignRight,
];

#[test]
fn mirror_is_involution_for_every_anchor() {
    for a in ALL_ANCHORS {
        assert_eq!(mirror_anchor(mirror_anchor(a)), a);
    }
}

#[test]
fn mirror_flips_to_the_opposite_side() {
    assert_eq!(mirror_anchor(TooltipAnchor::TopCenter), TooltipAnchor::BottomCenter);
    assert_eq!(mirror_anchor(TooltipAnchor::TopLeft), TooltipAnchor::BottomLeft);
    assert_eq!(mirror_anchor(TooltipAnchor::LeftCenter), TooltipAnchor::RightCenter);
    assert_eq!(
        mirror_anchor(TooltipAnchor::CenterAlignTop),
        TooltipAnchor::CenterAlignBottom
    );
    assert_eq!(
        mirror_anchor(TooltipAnchor::CenterAlignLeft),
        TooltipAnchor::CenterAlignRight
    );
}

#[test]
fn top_center_center_example() {
    // Parent {x:100, y:100, w:50, h:20}, anchor TopCenter, alignment Center,
    // offset (0,-5), tooltip 40x10: the anchor point is (125,100), the
    // alignment point the center of the tooltip's bottom edge, so the
    // desired top-left corner is (105, 85).
    let parent = Rect { x: 100, y: 100, w: 50, h: 20 };
    let size = Size { w: 40, h: 10 };
    let offset = Vec2i { x: 0, y: -5 };
    let r = resolve_position(
        &parent,
        &size,
        TooltipAnchor::TopCenter,
        TooltipAlignment::Center,
        &offset,
    );
    assert_eq!(r, Vec2i { x: 105, y: 85 });
}

#[test]
fn zero_offset_puts_alignment_point_on_anchor_point() {
    // With a zero offset the alignment point must land exactly on the
    // anchor point, for every anchor/alignment pair. The alignment point is
    // the returned top-left corner plus the in-box alignment coordinate,
    // recomputed here by hand.
    let parent = Rect { x: 10, y: 20, w: 50, h: 30 };
    let size = Size { w: 16, h: 8 };
    let offset = Vec2i { x: 0, y: 0 };
    for a in ALL_ANCHORS {
        for al in [TooltipAlignment::Start, TooltipAlignment::Center, TooltipAlignment::End] {
            let r = resolve_position(&parent, &size, a, al, &offset);
            let (ax, ay) = anchor_point(&parent, a);
            let (qx, qy) = align_point(a, al, &size);
            assert_eq!(r.x + qx, ax, "x mismatch for {:?}/{:?}", a, al);
            assert_eq!(r.y + qy, ay, "y mismatch for {:?}/{:?}", a, al);
        }
    }
}

#[test]
fn degenerate_zero_size_boxes_resolve() {
    let parent = Rect { x: 0, y: 0, w: 0, h: 0 };
    let size = Size { w: 0, h: 0 };
    let offset = Vec2i { x: 0, y: 0 };
    let r = resolve_position(
        &parent,
        &size,
        TooltipAnchor::TopCenter,
        TooltipAlignment::Center,
        &offset,
    );
    assert_eq!(r, Vec2i { x: 0, y: 0 });
}

#[test]
fn side_anchor_aligns_along_vertical_edge() {
    // LeftCenter puts the tooltip's right edge on the parent's left-center
    // point; Start alignment pins the tooltip's top-right corner there.
    let parent = Rect { x: 100, y: 100, w: 50, h: 20 };
    let size = Size { w: 40, h: 10 };
    let offset = Vec2i { x: 0, y: 0 };
    let r = resolve_position(
        &parent,
        &size,
        TooltipAnchor::LeftCenter,
        TooltipAlignment::Start,
        &offset,
    );
    assert_eq!(r, Vec2i { x: 60, y: 110 });
}

#[test]
fn center_align_left_pins_left_edge_to_parent_center() {
    // CenterAlignLeft: anchor point is the parent's center (125,110); the
    // tooltip's left edge aligns there, Center picking its midpoint.
    let parent = Rect { x: 100, y: 100, w: 50, h: 20 };
    let size = Size { w: 40, h: 10 };
    let offset = Vec2i { x: 0, y: 0 };
    let r = resolve_position(
        &parent,
        &size,
        TooltipAnchor::CenterAlignLeft,
        TooltipAlignment::Center,
        &offset,
    );
    assert_eq!(r, Vec2i { x: 125, y: 105 });
}

/// The anchor point on the parent box, recomputed independently.
fn anchor_point(p: &Rect, a: TooltipAnchor) -> (i64, i64) {
    let cx = p.x + p.w / 2;
    let cy = p.y + p.h / 2;
    match a {
        TooltipAnchor::TopLeft => (p.x, p.y),
        TooltipAnchor::TopCenter => (cx, p.y),
        TooltipAnchor::TopRight => (p.x + p.w, p.y),
        TooltipAnchor::LeftCenter => (p.x, cy),
        TooltipAnchor::RightCenter => (p.x + p.w, cy),
        TooltipAnchor::BottomLeft => (p.x, p.y + p.h),
        TooltipAnchor::BottomCenter => (cx, p.y + p.h),
        TooltipAnchor::BottomRight => (p.x + p.w, p.y + p.h),
        _ => (cx, cy),
    }
}

/// The alignment point relative to the tooltip's top-left corner,
/// recomputed independently.
fn align_point(a: TooltipAnchor, al: TooltipAlignment, t: &Size) -> (i64, i64) {
    let along_w = match al {
        TooltipAlignment::Start => 0,
        TooltipAlignment::Center => t.w / 2,
        TooltipAlignment::End => t.w,
    };
    let along_h = match al {
        TooltipAlignment::Start => 0,
        TooltipAlignment::Center => t.h / 2,
        TooltipAlignment::End => t.h,
    };
    match a {
        TooltipAnchor::TopLeft | TooltipAnchor::TopCenter | TooltipAnchor::TopRight => {
            (along_w, t.h)
        }
        TooltipAnchor::BottomLeft | TooltipAnchor::BottomCenter | TooltipAnchor::BottomRight => {
            (along_w, 0)
        }
        TooltipAnchor::LeftCenter => (t.w, along_h),
        TooltipAnchor::RightCenter => (0, along_h),
        TooltipAnchor::CenterAlignTop => (along_w, 0),
        TooltipAnchor::CenterAlignBottom => (along_w, t.h),
        TooltipAnchor::CenterAlignLeft => (0, along_h),
        TooltipAnchor::CenterAlignRight => (t.w, along_h),
    }
}

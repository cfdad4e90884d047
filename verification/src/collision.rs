//! Overlap test for axis-aligned rectangles.

use vstd::prelude::*;
use crate::geometry::Rect;

verus! {

/// The four comparisons of the overlap test: neither rectangle starts beyond
/// the far edge of the other, on either axis. Edges that touch count.
pub open spec fn rectangles_overlap(a: Rect, b: Rect) -> bool {
    &&& a.x <= b.right()
    &&& a.y <= b.bottom()
    &&& b.x <= a.right()
    &&& b.y <= a.bottom()
}

/// Two rectangles intersect when some point lies in the closed region of both.
pub open spec fn rectangles_intersect(a: Rect, b: Rect) -> bool {
    exists|px: int, py: int| #[trigger] a.covers(px, py) && b.covers(px, py)
}

/// Tests whether two rectangles overlap, boundaries included.
pub fn check_collision_rect(rect_a: Rect, rect_b: Rect) -> (hit: bool)
    ensures
        hit == rectangles_overlap(rect_a, rect_b),
{
    let b_br_x: i128 = rect_b.x as i128 + rect_b.width as i128;
    if rect_a.x as i128 > b_br_x {
        return false;
    }
    let b_br_y: i128 = rect_b.y as i128 + rect_b.height as i128;
    if rect_a.y as i128 > b_br_y {
        return false;
    }
    let a_br_x: i128 = rect_a.x as i128 + rect_a.width as i128;
    if rect_b.x as i128 > a_br_x {
        return false;
    }
    let a_br_y: i128 = rect_a.y as i128 + rect_a.height as i128;
    if rect_b.y as i128 > a_br_y {
        return false;
    }
    true
}

/// For well-formed rectangles the overlap test decides exactly whether the
/// two closed regions have a point in common.
pub proof fn lemma_overlap_is_intersection(a: Rect, b: Rect)
    requires
        a.wf(),
        b.wf(),
    ensures
        rectangles_overlap(a, b) == rectangles_intersect(a, b),
{
    if rectangles_overlap(a, b) {
        let px = if a.x >= b.x { a.x as int } else { b.x as int };
        let py = if a.y >= b.y { a.y as int } else { b.y as int };
        assert(a.covers(px, py) && b.covers(px, py));
    }
}

/// The overlap test does not depend on the order of its arguments.
pub proof fn lemma_overlap_symmetric(a: Rect, b: Rect)
    ensures
        rectangles_overlap(a, b) == rectangles_overlap(b, a),
{
}

/// A well-formed rectangle overlaps an identical copy of itself.
pub proof fn lemma_overlap_reflexive(a: Rect)
    requires
        a.wf(),
    ensures
        rectangles_overlap(a, a),
{
}

/// Two rectangles that a positive gap separates on the horizontal or on the
/// vertical axis do not overlap.
pub proof fn lemma_gap_separates(a: Rect, b: Rect)
    requires
        a.right() < b.x || b.right() < a.x || a.bottom() < b.y || b.bottom() < a.y,
    ensures
        !rectangles_overlap(a, b),
        !rectangles_overlap(b, a),
{
}

/// Two well-formed rectangles that share a vertical boundary line, the right
/// edge of one being the left edge of the other, overlap as soon as their
/// vertical extents meet.
pub proof fn lemma_shared_vertical_edge_overlaps(a: Rect, b: Rect)
    requires
        a.wf(),
        b.wf(),
        a.right() == b.x,
        a.y <= b.bottom(),
        b.y <= a.bottom(),
    ensures
        rectangles_overlap(a, b),
        rectangles_overlap(b, a),
{
}

/// Two well-formed rectangles that share a horizontal boundary line, the
/// bottom edge of one being the top edge of the other, overlap as soon as
/// their horizontal extents meet.
pub proof fn lemma_shared_horizontal_edge_overlaps(a: Rect, b: Rect)
    requires
        a.wf(),
        b.wf(),
        a.bottom() == b.y,
        a.x <= b.right(),
        b.x <= a.right(),
    ensures
        rectangles_overlap(a, b),
        rectangles_overlap(b, a),
{
}

} // verus!

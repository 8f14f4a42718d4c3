//! Geometry of capture regions: points, rectangles, mouse coordinates and the
//! bounded circular selection.

use vstd::prelude::*;

verus! {

/// A point in client or screen coordinates.
#[derive(Clone, Copy, Debug, PartialEq, Eq, Structural)]
pub struct Point {
    pub x: i32,
    pub y: i32,
}

/// A rectangle given by its edges; `right` and `bottom` are exclusive.
#[derive(Clone, Copy, Debug, PartialEq, Eq, Structural)]
pub struct Rect {
    pub left: i32,
    pub top: i32,
    pub right: i32,
    pub bottom: i32,
}

pub open spec fn min_i32(a: i32, b: i32) -> i32 {
    if a <= b { a } else { b }
}

pub open spec fn max_i32(a: i32, b: i32) -> i32 {
    if a >= b { a } else { b }
}

/// The rectangle spanned by two points, with ordered edges.
pub open spec fn spec_normalized_rect(a: Point, b: Point) -> Rect {
    Rect {
        left: min_i32(a.x, b.x),
        top: min_i32(a.y, b.y),
        right: max_i32(a.x, b.x),
        bottom: max_i32(a.y, b.y),
    }
}

/// Builds a rectangle whose edges are ordered from two arbitrary points.
pub fn normalized_rect(a: Point, b: Point) -> (r: Rect)
    ensures
        r == spec_normalized_rect(a, b),
        r.left <= r.right && r.top <= r.bottom,
{
    Rect {
        left: if a.x <= b.x { a.x } else { b.x },
        top: if a.y <= b.y { a.y } else { b.y },
        right: if a.x >= b.x { a.x } else { b.x },
        bottom: if a.y >= b.y { a.y } else { b.y },
    }
}

/// The 16-bit word `word` (in `0..=0xFFFF`) read as a signed two's-complement value.
pub open spec fn signed_word(word: int) -> int {
    if word >= 0x8000 { word - 0x10000 } else { word }
}

/// Extracts the signed client coordinates packed into a mouse `lParam`: the
/// low word holds `x`, the next word holds `y`, each a signed 16-bit value.
pub fn lparam_to_point(lparam: isize) -> (p: Point)
    ensures
        p.x == signed_word((lparam & 0xFFFF) as int),
        p.y == signed_word(((lparam >> 16) & 0xFFFF) as int),
        -0x8000 <= p.x < 0x8000,
        -0x8000 <= p.y < 0x8000,
{
    let low: isize = lparam & 0xFFFF;
    let high: isize = (lparam >> 16) & 0xFFFF;
    assert(0 <= lparam & 0xFFFF <= 0xFFFF) by (bit_vector);
    assert(0 <= (lparam >> 16) & 0xFFFF <= 0xFFFF) by (bit_vector);
    let x: i32 = if low >= 0x8000 { (low - 0x10000) as i32 } else { low as i32 };
    let y: i32 = if high >= 0x8000 { (high - 0x10000) as i32 } else { high as i32 };
    Point { x, y }
}

/// `r` is the radius of a circle through a point at squared distance `dist2`
/// from its center, rounded down, and clamped to `max_radius`: the largest
/// whole number up to `max_radius` whose square does not exceed `dist2`.
pub open spec fn is_clamped_radius(r: int, dist2: int, max_radius: int) -> bool {
    &&& 0 <= r <= max_radius
    &&& r * r <= dist2
    &&& (r == max_radius || (r + 1) * (r + 1) > dist2)
}

/// The largest radius that keeps a circle around `center` inside `bounds`, or
/// zero when the center lies outside them.
pub open spec fn max_radius_within(center: Point, bounds: Rect) -> int {
    let m = min_i32(
        min_i32(min_i32((center.x - bounds.left) as i32, (bounds.right - center.x) as i32),
            (center.y - bounds.top) as i32),
        (bounds.bottom - center.y) as i32,
    );
    if m >= 0 { m as int } else { 0 }
}

/// The differences `circle_rect` computes stay within `i32`.
pub open spec fn circle_rect_in_range(center: Point, edge: Point, bounds: Rect) -> bool {
    &&& i32::MIN <= edge.x - center.x <= i32::MAX
    &&& i32::MIN <= edge.y - center.y <= i32::MAX
    &&& i32::MIN <= center.x - bounds.left <= i32::MAX
    &&& i32::MIN <= bounds.right - center.x <= i32::MAX
    &&& i32::MIN <= center.y - bounds.top <= i32::MAX
    &&& i32::MIN <= bounds.bottom - center.y <= i32::MAX
}

/// Whether the differences `circle_rect` computes stay within `i32`.
pub fn circle_fits(center: Point, edge: Point, bounds: &Rect) -> (b: bool)
    ensures
        b == circle_rect_in_range(center, edge, *bounds),
{
    let (cx, cy) = (center.x as i64, center.y as i64);
    let lo = i32::MIN as i64;
    let hi = i32::MAX as i64;
    let a = edge.x as i64 - cx;
    let b = edge.y as i64 - cy;
    let c = cx - bounds.left as i64;
    let d = bounds.right as i64 - cx;
    let e = cy - bounds.top as i64;
    let f = bounds.bottom as i64 - cy;
    lo <= a && a <= hi && lo <= b && b <= hi && lo <= c && c <= hi && lo <= d && d <= hi && lo <= e
        && e <= hi && lo <= f && f <= hi
}

/// Squared euclidean distance between two points.
pub open spec fn dist2(a: Point, b: Point) -> int {
    (b.x - a.x) * (b.x - a.x) + (b.y - a.y) * (b.y - a.y)
}

/// The largest `r <= max_radius` with `r * r <= dist2`.
fn clamped_radius(dist2: u64, max_radius: u64) -> (r: u64)
    requires
        max_radius <= 0x8000_0000,
    ensures
        is_clamped_radius(r as int, dist2 as int, max_radius as int),
{
    let mut lo: u64 = 0;
    let mut hi: u64 = max_radius + 1;
    while hi - lo > 1
        invariant
            lo < hi <= max_radius + 1,
            max_radius <= 0x8000_0000,
            lo * lo <= dist2,
            hi == max_radius + 1 || hi * hi > dist2,
        decreases hi - lo,
    {
        let mid = lo + (hi - lo) / 2;
        assert(mid * mid <= 0x8000_0000 * 0x8000_0000) by (nonlinear_arith)
            requires
                mid <= 0x8000_0000,
        ;
        if mid * mid <= dist2 {
            lo = mid;
        } else {
            hi = mid;
        }
    }
    lo
}

/// The clamped radius for squared distance `dist2` and limit `max_radius`.
pub open spec fn spec_clamped_radius(dist2: int, max_radius: int) -> int {
    choose|r: int| is_clamped_radius(r, dist2, max_radius)
}

/// The bounding square of the circle `circle_rect` builds.
pub open spec fn spec_circle_rect(center: Point, edge: Point, bounds: Rect) -> Rect {
    let r = spec_clamped_radius(dist2(center, edge), max_radius_within(center, bounds));
    Rect {
        left: (center.x - r) as i32,
        top: (center.y - r) as i32,
        right: (center.x + r) as i32,
        bottom: (center.y + r) as i32,
    }
}

/// There is exactly one clamped radius.
pub proof fn lemma_clamped_radius_unique(r: int, dist2: int, max_radius: int)
    requires
        is_clamped_radius(r, dist2, max_radius),
    ensures
        spec_clamped_radius(dist2, max_radius) == r,
{
    let c = spec_clamped_radius(dist2, max_radius);
    assert(is_clamped_radius(c, dist2, max_radius));
    if c < r {
        assert((c + 1) * (c + 1) <= r * r) by (nonlinear_arith)
            requires
                0 <= c < r,
        ;
    } else if r < c {
        assert((r + 1) * (r + 1) <= c * c) by (nonlinear_arith)
            requires
                0 <= r < c,
        ;
    }
}

/// Builds the bounding square of a circle centered at `center` whose radius is
/// the euclidean distance to `edge` (rounded down), clamped so the square stays
/// within `bounds`.
pub fn circle_rect(center: Point, edge: Point, bounds: &Rect) -> (r: Rect)
    requires
        circle_rect_in_range(center, edge, *bounds),
    ensures
        r == spec_circle_rect(center, edge, *bounds),
        r.right - r.left == r.bottom - r.top,
        0 <= r.right - r.left,
        r.right - r.left == 0 || r.right - r.left <= bounds.right - bounds.left,
        bounds.left <= center.x <= bounds.right && bounds.top <= center.y <= bounds.bottom ==> {
            &&& bounds.left <= r.left && r.right <= bounds.right
            &&& bounds.top <= r.top && r.bottom <= bounds.bottom
        },
{
    let dx: i64 = (edge.x - center.x) as i64;
    let dy: i64 = (edge.y - center.y) as i64;
    assert(dx * dx <= 0x4000_0000_0000_0000) by (nonlinear_arith)
        requires
            -0x8000_0000 <= dx <= 0x7fff_ffff,
    ;
    assert(dy * dy <= 0x4000_0000_0000_0000) by (nonlinear_arith)
        requires
            -0x8000_0000 <= dy <= 0x7fff_ffff,
    ;
    assert(0 <= dx * dx && 0 <= dy * dy) by (nonlinear_arith);
    let d2: u64 = (dx * dx) as u64 + (dy * dy) as u64;
    let a = center.x - bounds.left;
    let b = bounds.right - center.x;
    let c = center.y - bounds.top;
    let d = bounds.bottom - center.y;
    let m1 = if a <= b { a } else { b };
    let m2 = if m1 <= c { m1 } else { c };
    let m3 = if m2 <= d { m2 } else { d };
    let max_radius: i32 = if m3 >= 0 { m3 } else { 0 };
    let radius_u = clamped_radius(d2, max_radius as u64);
    let radius: i32 = radius_u as i32;
    proof {
        lemma_clamped_radius_unique(radius as int, dist2(center, edge), max_radius_within(center, *bounds));
    }
    Rect {
        left: center.x - radius,
        top: center.y - radius,
        right: center.x + radius,
        bottom: center.y + radius,
    }
}

} // verus!

//! Points, extents and the axis-aligned hit test.

use vstd::prelude::*;

verus! {

/// Layout units per logical pixel.
pub const UNITS_PER_PIXEL: i32 = 64;

/// Horizontal shift from window coordinates to world coordinates: half the
/// width of the 800 pixel window.
pub const OFFSET_X: i64 = -25600;

/// Vertical shift from window coordinates to world coordinates: half the
/// height of the 600 pixel window.
pub const OFFSET_Y: i64 = -19200;

/// A position in window coordinates, as reported for the cursor and for laid
/// out interface nodes.
#[derive(Clone, Copy, Debug, PartialEq, Eq, Structural)]
pub struct UiPoint {
    pub x: i32,
    pub y: i32,
}

/// A position in world coordinates, the space in which tokens and answer
/// blocks live and are hit-tested.
#[derive(Clone, Copy, Debug, PartialEq, Eq, Structural)]
pub struct Point {
    pub x: i64,
    pub y: i64,
}

/// Full width and height of an axis-aligned box around its centre.
#[derive(Clone, Copy, Debug, PartialEq, Eq, Structural)]
pub struct SideLength {
    pub x_len: i64,
    pub y_len: i64,
}

/// Width and height of a laid out interface node.
#[derive(Clone, Copy, Debug, PartialEq, Eq, Structural)]
pub struct NodeSize {
    pub x: i32,
    pub y: i32,
}

/// World position of a window position.
pub open spec fn world_of(p: UiPoint) -> Point {
    Point { x: (p.x + OFFSET_X) as i64, y: (p.y + OFFSET_Y) as i64 }
}

/// Converts a window position to world coordinates.
pub fn to_world(p: UiPoint) -> (w: Point)
    ensures
        w == world_of(p),
{
    let x: i64 = p.x as i64;
    let y: i64 = p.y as i64;
    Point { x: x + OFFSET_X, y: y + OFFSET_Y }
}

/// Whether `pos` lies strictly inside the box of extent `sides` centred at
/// `center`.
///
/// The box reaches half a side to either side of its centre. All four
/// comparisons are strict, so a point on an edge or a corner is outside. The
/// halves are compared exactly: both sides of each inequality are doubled
/// instead of dividing an odd length.
pub open spec fn inside(pos: Point, sides: SideLength, center: Point) -> bool {
    &&& 2 * pos.x < 2 * center.x + sides.x_len
    &&& 2 * pos.x > 2 * center.x - sides.x_len
    &&& 2 * pos.y < 2 * center.y + sides.y_len
    &&& 2 * pos.y > 2 * center.y - sides.y_len
}

/// Determines if a location is within the bounds of a box.
///
/// Used alike for "the pointer went down on a token" and "the token's centre
/// rests inside an answer block".
pub fn in_bounds(pos: &Point, sides: &SideLength, center: &Point) -> (hit: bool)
    ensures
        hit == inside(*pos, *sides, *center),
{
    let px: i128 = 2 * (pos.x as i128);
    let py: i128 = 2 * (pos.y as i128);
    let cx: i128 = 2 * (center.x as i128);
    let cy: i128 = 2 * (center.y as i128);
    let w: i128 = sides.x_len as i128;
    let h: i128 = sides.y_len as i128;
    px < cx + w && px > cx - w && py < cy + h && py > cy - h
}

/// Whether `point` lies strictly between `center - half` and `center + half`
/// on both axes.
pub open spec fn within(point: Point, center: Point, half: SideLength) -> bool {
    &&& center.x - half.x_len < point.x < center.x + half.x_len
    &&& center.y - half.y_len < point.y < center.y + half.y_len
}

/// Whether a point lies strictly inside the box that reaches `half_extents`
/// to either side of `center`. A point on the boundary is not contained.
pub fn contains(point: &Point, center: &Point, half_extents: &SideLength) -> (hit: bool)
    ensures
        hit == within(*point, *center, *half_extents),
{
    let px: i128 = point.x as i128;
    let py: i128 = point.y as i128;
    let cx: i128 = center.x as i128;
    let cy: i128 = center.y as i128;
    let hx: i128 = half_extents.x_len as i128;
    let hy: i128 = half_extents.y_len as i128;
    cx - hx < px && px < cx + hx && cy - hy < py && py < cy + hy
}

/// Testing against half extents is testing against the box of twice their
/// size.
pub proof fn half_extents_agree(point: Point, center: Point, half: SideLength, sides: SideLength)
    requires
        sides.x_len == 2 * half.x_len,
        sides.y_len == 2 * half.y_len,
    ensures
        within(point, center, half) == inside(point, sides, center),
{
}

/// A point on any edge of a box, corners included, is not inside it.
pub proof fn edge_is_outside(pos: Point, sides: SideLength, center: Point)
    requires
        2 * pos.x == 2 * center.x + sides.x_len || 2 * pos.x == 2 * center.x - sides.x_len || 2
            * pos.y == 2 * center.y + sides.y_len || 2 * pos.y == 2 * center.y - sides.y_len,
    ensures
        !inside(pos, sides, center),
{
}

/// A box whose width or height is not positive contains no point.
pub proof fn empty_box_contains_nothing(pos: Point, sides: SideLength, center: Point)
    requires
        sides.x_len <= 0 || sides.y_len <= 0,
    ensures
        !inside(pos, sides, center),
{
}

/// The centre of a box with positive width and height is inside it.
pub proof fn center_is_inside(sides: SideLength, center: Point)
    requires
        sides.x_len > 0,
        sides.y_len > 0,
    ensures
        inside(center, sides, center),
{
}

} // verus!

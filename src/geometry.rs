use vstd::prelude::*;

verus! {

/// A point or an extent in the plane, in hundredths of a pixel.
#[derive(Clone, Copy, Debug, PartialEq, Eq, Structural)]
pub struct Vec2 {
    pub x: i64,
    pub y: i64,
}

impl Vec2 {
    pub fn new(x: i64, y: i64) -> (r: Vec2)
        ensures
            r.x == x,
            r.y == y,
    {
        Vec2 { x, y }
    }
}

/// Two axis-aligned rectangles share some interior point: each starts before
/// the other ends, on both axes. Rectangles that only touch do not overlap.
pub open spec fn overlap(a_pos: Vec2, a_size: Vec2, b_pos: Vec2, b_size: Vec2) -> bool {
    &&& a_pos.x < b_pos.x + b_size.x
    &&& a_pos.x + a_size.x > b_pos.x
    &&& a_pos.y < b_pos.y + b_size.y
    &&& a_pos.y + a_size.y > b_pos.y
}

/// Every coordinate and extent lies in a range where sums of two of them fit
/// in an `i64`.
pub open spec fn in_plane(v: Vec2) -> bool {
    -0x1_0000_0000_0000 <= v.x <= 0x1_0000_0000_0000 && -0x1_0000_0000_0000 <= v.y
        <= 0x1_0000_0000_0000
}

/// Tests whether the rectangle at `a_pos` of extent `a_size` overlaps the one
/// at `b_pos` of extent `b_size`, with the same comparisons as raylib's
/// `CheckCollisionRecs`.
pub fn rects_overlap(a_pos: Vec2, a_size: Vec2, b_pos: Vec2, b_size: Vec2) -> (r: bool)
    requires
        in_plane(a_pos),
        in_plane(a_size),
        in_plane(b_pos),
        in_plane(b_size),
    ensures
        r == overlap(a_pos, a_size, b_pos, b_size),
{
    a_pos.x < b_pos.x + b_size.x && a_pos.x + a_size.x > b_pos.x && a_pos.y < b_pos.y + b_size.y
        && a_pos.y + a_size.y > b_pos.y
}

} // verus!

//! Hit-testing a drop position against a zone's rectangle.
use vstd::prelude::*;

verus! {

/// A point in layout space, in whole pixels.
#[derive(Clone, Copy, Debug, PartialEq, Eq, Structural)]
pub struct Point {
    pub x: i32,
    pub y: i32,
}

/// Where a dragged panel was released relative to a zone.
#[derive(Clone, Copy, Debug, PartialEq, Eq, Structural)]
pub enum DropArea {
    Unset,
    Center,
    North,
    East,
    South,
    West,
}

impl Default for DropArea {
    fn default() -> (r: Self)
        ensures
            r == DropArea::Unset,
    {
        DropArea::Unset
    }
}

/// The classification of a drop at `position` on a zone centred at `center`
/// with extent `size`. A point further than one sixth of the width from the
/// centre horizontally is East or West; otherwise, further than one sixth of
/// the height vertically is North (above) or South (below); otherwise Center.
/// The comparisons are made exactly, as `6 * offset` against the extent.
pub open spec fn drop_area_of(position: Point, center: Point, size: Point) -> DropArea {
    let dx = position.x - center.x;
    let dy = position.y - center.y;
    if 6 * dx < -(size.x as int) {
        DropArea::West
    } else if 6 * dx > size.x {
        DropArea::East
    } else if 6 * dy < -(size.y as int) {
        DropArea::North
    } else if 6 * dy > size.y {
        DropArea::South
    } else {
        DropArea::Center
    }
}

/// Classifies a drop position against a zone's rectangle.
pub fn calculate_drop_area(position: Point, center: Point, size: Point) -> (r: DropArea)
    ensures
        r == drop_area_of(position, center, size),
        r != DropArea::Unset,
{
    let dx: i64 = position.x as i64 - center.x as i64;
    let dy: i64 = position.y as i64 - center.y as i64;
    let w: i64 = size.x as i64;
    let h: i64 = size.y as i64;
    if 6 * dx < -w {
        DropArea::West
    } else if 6 * dx > w {
        DropArea::East
    } else if 6 * dy < -h {
        DropArea::North
    } else if 6 * dy > h {
        DropArea::South
    } else {
        DropArea::Center
    }
}

/// A drop within one sixth of the width and one sixth of the height of the
/// centre (both offsets measured exactly) is classified as Center.
pub proof fn lemma_central_region_is_center(position: Point, center: Point, size: Point)
    requires
        6 * (position.x - center.x) <= size.x,
        -(size.x as int) <= 6 * (position.x - center.x),
        6 * (position.y - center.y) <= size.y,
        -(size.y as int) <= 6 * (position.y - center.y),
    ensures
        drop_area_of(position, center, size) == DropArea::Center,
{
}

/// A drop further right than one sixth of the width from the centre is East,
/// whatever its vertical offset: the horizontal test comes first. (A zone
/// extent is never negative.)
pub proof fn lemma_right_of_center_is_east(position: Point, center: Point, size: Point)
    requires
        size.x >= 0,
        6 * (position.x - center.x) > size.x,
    ensures
        drop_area_of(position, center, size) == DropArea::East,
{
}

} // verus!

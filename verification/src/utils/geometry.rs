//! Rectangles in logical coordinates, and the transforms of outputs.

use vstd::prelude::*;

verus! {

/// A point in logical coordinates.
#[derive(Debug, Clone, Copy, PartialEq, Eq, Structural)]
pub struct Point {
    pub x: i32,
    pub y: i32,
}

/// A size in logical coordinates.
#[derive(Debug, Clone, Copy, PartialEq, Eq, Structural)]
pub struct Size {
    pub w: i32,
    pub h: i32,
}

/// A rectangle in logical coordinates.
#[derive(Debug, Clone, Copy, PartialEq, Eq, Structural)]
pub struct Rectangle {
    pub loc: Point,
    pub size: Size,
}

/// How the contents of an output are turned before they are shown.
#[derive(Debug, Clone, Copy, PartialEq, Eq, Structural)]
pub enum Transform {
    Normal,
    _90,
    _180,
    _270,
    Flipped,
    Flipped90,
    Flipped180,
    Flipped270,
}

impl Transform {
    /// The transform that undoes this one. Those that flip undo themselves.
    pub open spec fn undoing(self) -> Transform {
        match self {
            Transform::_90 => Transform::_270,
            Transform::_270 => Transform::_90,
            other => other,
        }
    }

    /// Whether width and height change places.
    pub open spec fn swaps(self) -> bool {
        match self {
            Transform::_90 => true,
            Transform::_270 => true,
            Transform::Flipped90 => true,
            Transform::Flipped270 => true,
            _ => false,
        }
    }

    /// The size of something once it is transformed.
    pub open spec fn sized(self, size: Size) -> Size {
        if self.swaps() {
            Size { w: size.h, h: size.w }
        } else {
            size
        }
    }

    /// Where a point of an area of the given size comes to lie once the area is transformed.
    pub open spec fn placed(self, x: int, y: int, area: Size) -> (int, int) {
        match self {
            Transform::Normal => (x, y),
            Transform::_90 => (area.h - y, x),
            Transform::_180 => (area.w - x, area.h - y),
            Transform::_270 => (y, area.w - x),
            Transform::Flipped => (area.w - x, y),
            Transform::Flipped90 => (y, x),
            Transform::Flipped180 => (x, area.h - y),
            Transform::Flipped270 => (area.h - y, area.w - x),
        }
    }

    /// The transform that undoes this one. Those that flip undo themselves.
    pub fn undo(self) -> (undoing: Transform)
        ensures
            undoing == self.undoing(),
    {
        match self {
            Transform::_90 => Transform::_270,
            Transform::_270 => Transform::_90,
            other => other,
        }
    }

    /// The size of something once it is transformed.
    pub fn transform_size(self, size: Size) -> (transformed: Size)
        ensures
            transformed == self.sized(size),
    {
        match self {
            Transform::_90
            | Transform::_270
            | Transform::Flipped90
            | Transform::Flipped270 => Size { w: size.h, h: size.w },
            _ => size,
        }
    }
}

/// Undoing a transform twice gives the transform again, and undoing it gives sizes back.
pub proof fn undoing_gives_sizes_back(transform: Transform, size: Size)
    ensures
        transform.undoing().undoing() == transform,
        transform.sized(transform.undoing().sized(size)) == size,
{
}

/// Transforming a point by what undoes a transform, and then by the transform, gives the point again.
pub proof fn undoing_gives_points_back(transform: Transform, x: int, y: int, area: Size)
    ensures
        ({
            let (a, b) = transform.undoing().placed(x, y, area);
            transform.placed(a, b, transform.undoing().sized(area)) == (x, y)
        }),
{
}

/// A quarter turn takes what is at a distance from the left edge to the same distance from the top
/// edge, and the top edge to the right. Two quarter turns make a half turn, three make a three
/// quarter turn, and four leave everything where it was.
pub proof fn quarter_turns_add_up(x: int, y: int, area: Size)
    ensures
        ({
            let turned = Size { w: area.h, h: area.w };
            let one = Transform::_90.placed(x, y, area);
            let two = Transform::_90.placed(one.0, one.1, turned);
            let three = Transform::_90.placed(two.0, two.1, area);
            let four = Transform::_90.placed(three.0, three.1, turned);
            &&& one.1 == x
            &&& one.0 + y == area.h
            &&& two == Transform::_180.placed(x, y, area)
            &&& three == Transform::_270.placed(x, y, area)
            &&& four == (x, y)
            &&& Transform::Normal.placed(x, y, area) == (x, y)
        }),
{
}

/// Flipping mirrors from left to right; a turn that is flipped is the turn, and then the mirroring
/// of what it gave.
pub proof fn flipping_mirrors_the_turn(x: int, y: int, area: Size)
    ensures
        ({
            let turned = Size { w: area.h, h: area.w };
            let mirrored = Transform::Flipped.placed(x, y, area);
            let one = Transform::_90.placed(x, y, area);
            let two = Transform::_180.placed(x, y, area);
            let three = Transform::_270.placed(x, y, area);
            &&& mirrored.0 + x == area.w
            &&& mirrored.1 == y
            &&& Transform::Flipped90.placed(x, y, area) == Transform::Flipped.placed(
                one.0,
                one.1,
                turned,
            )
            &&& Transform::Flipped180.placed(x, y, area) == Transform::Flipped.placed(
                two.0,
                two.1,
                area,
            )
            &&& Transform::Flipped270.placed(x, y, area) == Transform::Flipped.placed(
                three.0,
                three.1,
                turned,
            )
        }),
{
}

/// What lies in an area lies in the area's new size once it is transformed: a quarter turn or three
/// exchange width and height, and no other transform does.
pub proof fn transformed_points_stay_inside(transform: Transform, x: int, y: int, area: Size)
    requires
        0 <= x <= area.w,
        0 <= y <= area.h,
    ensures
        ({
            let (a, b) = transform.placed(x, y, area);
            let size = transform.sized(area);
            0 <= a <= size.w && 0 <= b <= size.h
        }),
        transform == Transform::_90 || transform == Transform::_270 || transform
            == Transform::Flipped90 || transform == Transform::Flipped270 ==> transform.sized(area)
            == (Size { w: area.h, h: area.w }),
        transform == Transform::Normal || transform == Transform::_180 || transform
            == Transform::Flipped || transform == Transform::Flipped180 ==> transform.sized(area)
            == area,
{
}

/// A transform is undone by the one that takes every point back, in the area as it was transformed.
pub proof fn undoing_takes_points_back(transform: Transform, x: int, y: int, area: Size)
    ensures
        ({
            let (a, b) = transform.placed(x, y, area);
            transform.undoing().placed(a, b, transform.sized(area)) == (x, y)
        }),
        transform.sized(area).w == area.w && transform.sized(area).h == area.h || (transform.sized(
            area,
        ).w == area.h && transform.sized(area).h == area.w),
{
}

/// What undoes a transform gives every size back, and takes every point back.
pub proof fn undone_transforms_give_everything_back(
    transform: Transform,
    undoing: Transform,
    size: Size,
    transformed: Size,
    back: Size,
    x: int,
    y: int,
)
    requires
        call_ensures(Transform::undo, (transform,), undoing),
        call_ensures(Transform::transform_size, (transform, size), transformed),
        call_ensures(Transform::transform_size, (undoing, transformed), back),
    ensures
        back == size,
        ({
            let (a, b) = transform.placed(x, y, size);
            undoing.placed(a, b, transformed) == (x, y)
        }),
        transform == Transform::_90 || transform == Transform::_270 || transform
            == Transform::Flipped90 || transform == Transform::Flipped270 ==> transformed == (Size {
            w: size.h,
            h: size.w,
        }),
        transform == Transform::Normal || transform == Transform::_180 || transform
            == Transform::Flipped || transform == Transform::Flipped180 ==> transformed == size,
{
}

} // verus!

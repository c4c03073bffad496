use vstd::prelude::*;

verus! {

/// A direction or a corner on the arena's grid: each component is -1, 0 or 1.
#[derive(Clone, Copy, Debug, PartialEq, Eq, Structural)]
pub struct Dir {
    pub x: i32,
    pub y: i32,
}

/// The side that the number `k` (taken modulo 4) stands for: 1 right, 2 left,
/// 3 down, 0 up.
pub open spec fn side_of(k: int) -> Dir {
    if k % 4 == 1 {
        Dir { x: 1, y: 0 }
    } else if k % 4 == 2 {
        Dir { x: -1i32, y: 0 }
    } else if k % 4 == 3 {
        Dir { x: 0, y: 1 }
    } else {
        Dir { x: 0, y: -1i32 }
    }
}

/// The corner of the unit square that the number `k` (taken modulo 4) stands
/// for: 1 top left, 2 top right, 3 bottom right, 0 bottom left.
pub open spec fn corner_of(k: int) -> Dir {
    if k % 4 == 1 {
        Dir { x: 0, y: 0 }
    } else if k % 4 == 2 {
        Dir { x: 1, y: 0 }
    } else if k % 4 == 3 {
        Dir { x: 1, y: 1 }
    } else {
        Dir { x: 0, y: 1 }
    }
}

/// One of the four axis directions of unit length.
pub open spec fn is_side(d: Dir) -> bool {
    (d.x == 0 && (d.y == 1 || d.y == -1)) || (d.y == 0 && (d.x == 1 || d.x == -1))
}

/// Maps a number to one of the four corners of the arena, in unit-square
/// coordinates.
pub fn num_to_corner(num: i32) -> (r: Dir)
    requires
        num >= 0,
    ensures
        r == corner_of(num as int),
{
    match num % 4 {
        1 => Dir { x: 0, y: 0 },
        2 => Dir { x: 1, y: 0 },
        3 => Dir { x: 1, y: 1 },
        _ => Dir { x: 0, y: 1 },
    }
}

/// Maps a number to one of the four axis directions.
pub fn num_to_side(num: i32) -> (r: Dir)
    requires
        num >= 0,
    ensures
        r == side_of(num as int),
        is_side(r),
{
    match num % 4 {
        1 => Dir { x: 1, y: 0 },
        2 => Dir { x: -1, y: 0 },
        3 => Dir { x: 0, y: 1 },
        _ => Dir { x: 0, y: -1 },
    }
}

impl Dir {
    /// The opposite direction.
    pub fn negate(self) -> (r: Dir)
        requires
            is_side(self),
        ensures
            r.x == -self.x,
            r.y == -self.y,
            is_side(r),
    {
        Dir { x: -self.x, y: -self.y }
    }
}

} // verus!

use vstd::prelude::*;
use crate::geometry::{normalize_or_zero, unit_of, abs, Vec2i, MAX_COORD};

verus! {

/// One of the eight compass directions used for aiming and walking.
#[derive(PartialEq, Eq, Structural, Clone, Copy, Debug)]
pub enum Direction {
    Top,
    Bottom,
    Left,
    Right,
    TopLeft,
    TopRight,
    BottomLeft,
    BottomRight,
}

/// Rounded-down `1000 / sqrt(2)`: each component of a diagonal unit vector.
pub const DIAGONAL: i64 = 707;

/// Smallest magnitude of a unit component that counts as pointing along an axis.
pub const AXIS_THRESHOLD: i64 = 100;

/// Which side of zero a unit component falls on: `1` at or above the
/// threshold, `-1` at or below its negation, `0` in between.
pub open spec fn axis_sign(c: int) -> int {
    if c >= AXIS_THRESHOLD {
        1
    } else if c <= -AXIS_THRESHOLD {
        -1
    } else {
        0
    }
}

/// The direction named by the signs of a unit vector's components.
pub open spec fn direction_for_signs(sx: int, sy: int) -> Option<Direction> {
    if sx == -1 && sy == 1 {
        Some(Direction::TopLeft)
    } else if sx == 1 && sy == 1 {
        Some(Direction::TopRight)
    } else if sx == -1 && sy == -1 {
        Some(Direction::BottomLeft)
    } else if sx == 1 && sy == -1 {
        Some(Direction::BottomRight)
    } else if sx == 0 && sy == 1 {
        Some(Direction::Top)
    } else if sx == 0 && sy == -1 {
        Some(Direction::Bottom)
    } else if sx == -1 && sy == 0 {
        Some(Direction::Left)
    } else if sx == 1 && sy == 0 {
        Some(Direction::Right)
    } else {
        None
    }
}

/// The direction an input axis pair points in, judged on its unit vector.
pub open spec fn direction_of(x: int, y: int) -> Option<Direction> {
    let u = unit_of(x, y);
    direction_for_signs(axis_sign(u.0), axis_sign(u.1))
}

/// The unit vector of a direction, in thousandths.
pub open spec fn direction_vec(d: Direction) -> (int, int) {
    match d {
        Direction::Top => (0, 1000),
        Direction::Bottom => (0, -1000),
        Direction::Left => (-1000, 0),
        Direction::Right => (1000, 0),
        Direction::TopLeft => (-DIAGONAL as int, DIAGONAL as int),
        Direction::TopRight => (DIAGONAL as int, DIAGONAL as int),
        Direction::BottomLeft => (-DIAGONAL as int, -DIAGONAL as int),
        Direction::BottomRight => (DIAGONAL as int, -DIAGONAL as int),
    }
}

pub open spec fn opposite_of(d: Direction) -> Direction {
    match d {
        Direction::Top => Direction::Bottom,
        Direction::Bottom => Direction::Top,
        Direction::Left => Direction::Right,
        Direction::Right => Direction::Left,
        Direction::TopLeft => Direction::BottomRight,
        Direction::TopRight => Direction::BottomLeft,
        Direction::BottomLeft => Direction::TopRight,
        Direction::BottomRight => Direction::TopLeft,
    }
}

pub open spec fn label_of(d: Direction) -> Seq<char> {
    match d {
        Direction::Top => "top"@,
        Direction::Bottom => "bottom"@,
        Direction::Left => "left"@,
        Direction::Right => "right"@,
        Direction::TopLeft => "top-left"@,
        Direction::TopRight => "top-right"@,
        Direction::BottomLeft => "bottom-left"@,
        Direction::BottomRight => "bottom-right"@,
    }
}

impl Direction {
    /// The same direction with its horizontal part turned to the right.
    pub fn abs_x(self) -> (r: Self)
        ensures
            r == (match self {
                Direction::Left => Direction::Right,
                Direction::TopLeft => Direction::TopRight,
                Direction::BottomLeft => Direction::BottomRight,
                _ => self,
            }),
    {
        match self {
            Direction::Left => Direction::Right,
            Direction::TopLeft => Direction::TopRight,
            Direction::BottomLeft => Direction::BottomRight,
            _ => self,
        }
    }

    /// The same direction mirrored top to bottom.
    pub fn opposite_y(self) -> (r: Self)
        ensures
            r == (match self {
                Direction::Top => Direction::Bottom,
                Direction::Bottom => Direction::Top,
                Direction::Left => Direction::Left,
                Direction::Right => Direction::Right,
                Direction::TopLeft => Direction::BottomLeft,
                Direction::TopRight => Direction::BottomRight,
                Direction::BottomLeft => Direction::TopLeft,
                Direction::BottomRight => Direction::TopRight,
            }),
    {
        match self {
            Direction::Top => Direction::Bottom,
            Direction::Bottom => Direction::Top,
            Direction::Left => Direction::Left,
            Direction::Right => Direction::Right,
            Direction::TopLeft => Direction::BottomLeft,
            Direction::TopRight => Direction::BottomRight,
            Direction::BottomLeft => Direction::TopLeft,
            Direction::BottomRight => Direction::TopRight,
        }
    }

    /// The direction pointing the other way.
    pub fn opposite(self) -> (r: Self)
        ensures
            r == opposite_of(self),
            direction_vec(r).0 == -direction_vec(self).0,
            direction_vec(r).1 == -direction_vec(self).1,
    {
        match self {
            Direction::Top => Direction::Bottom,
            Direction::Bottom => Direction::Top,
            Direction::Left => Direction::Right,
            Direction::Right => Direction::Left,
            Direction::TopLeft => Direction::BottomRight,
            Direction::TopRight => Direction::BottomLeft,
            Direction::BottomLeft => Direction::TopRight,
            Direction::BottomRight => Direction::TopLeft,
        }
    }

    /// The unit vector of this direction, in thousandths; diagonals have
    /// both components of magnitude `DIAGONAL`.
    pub fn vec(self) -> (r: Vec2i)
        ensures
            (r.x as int, r.y as int) == direction_vec(self),
            r.is_direction(),
    {
        match self {
            Direction::Top => Vec2i::new(0, 1000),
            Direction::Bottom => Vec2i::new(0, -1000),
            Direction::Left => Vec2i::new(-1000, 0),
            Direction::Right => Vec2i::new(1000, 0),
            Direction::TopLeft => Vec2i::new(-DIAGONAL, DIAGONAL),
            Direction::TopRight => Vec2i::new(DIAGONAL, DIAGONAL),
            Direction::BottomLeft => Vec2i::new(-DIAGONAL, -DIAGONAL),
            Direction::BottomRight => Vec2i::new(DIAGONAL, -DIAGONAL),
        }
    }

    /// The lower-case, hyphenated name of the direction.
    pub fn label(self) -> (r: &'static str)
        ensures
            r@ == label_of(self),
    {
        proof {
            reveal_strlit("top");
            reveal_strlit("bottom");
            reveal_strlit("left");
            reveal_strlit("right");
            reveal_strlit("top-left");
            reveal_strlit("top-right");
            reveal_strlit("bottom-left");
            reveal_strlit("bottom-right");
        }
        match self {
            Direction::Top => "top",
            Direction::Bottom => "bottom",
            Direction::Left => "left",
            Direction::Right => "right",
            Direction::TopLeft => "top-left",
            Direction::TopRight => "top-right",
            Direction::BottomLeft => "bottom-left",
            Direction::BottomRight => "bottom-right",
        }
    }

    /// Classifies an input axis pair: its unit vector names one of the eight
    /// directions by the sign of each component, where a component of
    /// magnitude under `AXIS_THRESHOLD` thousandths counts as zero. A zero
    /// vector has no direction.
    pub fn try_from_axis(v: Vec2i) -> (r: Option<Direction>)
        requires
            abs(v.x as int) <= 2 * MAX_COORD,
            abs(v.y as int) <= 2 * MAX_COORD,
        ensures
            r == direction_of(v.x as int, v.y as int),
            v.is_zero() ==> r.is_none(),
    {
        let u = normalize_or_zero(v);
        let sx: i8 = if u.x >= AXIS_THRESHOLD {
            1
        } else if u.x <= -AXIS_THRESHOLD {
            -1
        } else {
            0
        };
        let sy: i8 = if u.y >= AXIS_THRESHOLD {
            1
        } else if u.y <= -AXIS_THRESHOLD {
            -1
        } else {
            0
        };
        if sx == -1 && sy == 1 {
            Some(Direction::TopLeft)
        } else if sx == 1 && sy == 1 {
            Some(Direction::TopRight)
        } else if sx == -1 && sy == -1 {
            Some(Direction::BottomLeft)
        } else if sx == 1 && sy == -1 {
            Some(Direction::BottomRight)
        } else if sx == 0 && sy == 1 {
            Some(Direction::Top)
        } else if sx == 0 && sy == -1 {
            Some(Direction::Bottom)
        } else if sx == -1 && sy == 0 {
            Some(Direction::Left)
        } else if sx == 1 && sy == 0 {
            Some(Direction::Right)
        } else {
            None
        }
    }
}

} // verus!

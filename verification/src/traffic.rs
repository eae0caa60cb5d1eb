//! Headings of the AI traffic that follows the road grid in right-hand
//! lanes and turns at intersections.

use vstd::prelude::*;

verus! {

/// 0 = North, 1 = East, 2 = South, 3 = West
#[derive(Clone, Copy, Debug, PartialEq, Eq, Structural)]
pub enum Dir {
    N,
    E,
    S,
    W,
}

/// The number of a heading, clockwise from north.
pub open spec fn dir_index(d: Dir) -> int {
    match d {
        Dir::N => 0,
        Dir::E => 1,
        Dir::S => 2,
        Dir::W => 3,
    }
}

/// The heading with a number (taken modulo 4).
pub open spec fn dir_at(i: int) -> Dir {
    let r = i % 4;
    if r == 0 {
        Dir::N
    } else if r == 1 {
        Dir::E
    } else if r == 2 {
        Dir::S
    } else {
        Dir::W
    }
}

impl Dir {
    pub fn from_usize(d: usize) -> (r: Dir)
        ensures
            r == dir_at(d as int),
    {
        match d % 4 {
            0 => Dir::N,
            1 => Dir::E,
            2 => Dir::S,
            _ => Dir::W,
        }
    }

    pub fn as_usize(self) -> (i: usize)
        ensures
            i == dir_index(self),
    {
        match self {
            Dir::N => 0,
            Dir::E => 1,
            Dir::S => 2,
            Dir::W => 3,
        }
    }

    /// Right-hand lane offset (px), perpendicular to the direction of travel.
    pub fn lane_offset(self) -> (o: i32)
        ensures
            o == if self == Dir::N || self == Dir::E {
                20int
            } else {
                -20int
            },
    {
        match self {
            Dir::N => 20,
            Dir::E => 20,
            Dir::S => -20,
            Dir::W => -20,
        }
    }

    pub fn vertical(self) -> (b: bool)
        ensures
            b == (self == Dir::N || self == Dir::S),
    {
        matches!(self, Dir::N | Dir::S)
    }

    /// The heading after turning at an intersection: a quarter turn
    /// clockwise (`right`) or counter-clockwise.
    pub fn turn(self, right: bool) -> (r: Dir)
        ensures
            r == dir_at(dir_index(self) + if right {
                1int
            } else {
                3int
            }),
    {
        Dir::from_usize((self.as_usize() + if right {
            1
        } else {
            3
        }) % 4)
    }
}

/// A turn to one side followed by a turn to the other comes back to the
/// heading it started from; four turns to the same side too.
pub proof fn lemma_turns(d: Dir)
    ensures
        dir_at(dir_index(dir_at(dir_index(d) + 1)) + 3) == d,
        dir_at(dir_index(dir_at(dir_index(d) + 3)) + 1) == d,
        dir_at(dir_index(dir_at(dir_index(dir_at(dir_index(dir_at(dir_index(d) + 1)) + 1)) + 1))
            + 1) == d,
        dir_at(dir_index(d)) == d,
{
}

/// The vertical headings are north and south; a turn always switches
/// between vertical and horizontal travel.
pub proof fn lemma_turn_switches_axis(d: Dir, right: bool)
    ensures
        (dir_at(dir_index(d) + if right {
            1int
        } else {
            3int
        }) == Dir::N || dir_at(dir_index(d) + if right {
            1int
        } else {
            3int
        }) == Dir::S) != (d == Dir::N || d == Dir::S),
{
}

/// A right turn is a quarter turn clockwise (north, east, south, west), a
/// left turn counter-clockwise.
pub proof fn lemma_turn_directions()
    ensures
        dir_at(dir_index(Dir::N) + 1) == Dir::E,
        dir_at(dir_index(Dir::E) + 1) == Dir::S,
        dir_at(dir_index(Dir::S) + 1) == Dir::W,
        dir_at(dir_index(Dir::W) + 1) == Dir::N,
        dir_at(dir_index(Dir::N) + 3) == Dir::W,
        dir_at(dir_index(Dir::W) + 3) == Dir::S,
        dir_at(dir_index(Dir::S) + 3) == Dir::E,
        dir_at(dir_index(Dir::E) + 3) == Dir::N,
{
}

} // verus!

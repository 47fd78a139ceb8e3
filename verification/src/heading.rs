//! Headings: the four cardinal directions and the eight turns between them.

use vstd::prelude::*;

verus! {

/// The heading stored with a segment.
///
/// A cardinal heading says that the segment came into its cell travelling in
/// that direction and will leave it the same way. A compound heading records
/// a turn that takes place in the segment's cell: `UpRight` came in travelling
/// up and will leave travelling right.
#[derive(PartialEq, Eq, Debug, Copy, Clone, Structural)]
pub enum Direction {
    Up,
    UpRight,
    UpLeft,
    Down,
    DownRight,
    DownLeft,
    Right,
    RightUp,
    RightDown,
    Left,
    LeftUp,
    LeftDown,
}

impl Direction {
    /// One of the four headings without a turn.
    pub open spec fn spec_is_cardinal(self) -> bool {
        self is Up || self is Down || self is Right || self is Left
    }

    /// The direction of travel with which the segment came into its cell.
    pub open spec fn spec_arrival(self) -> Direction {
        match self {
            Direction::Up | Direction::UpRight | Direction::UpLeft => Direction::Up,
            Direction::Down | Direction::DownRight | Direction::DownLeft => Direction::Down,
            Direction::Right | Direction::RightUp | Direction::RightDown => Direction::Right,
            Direction::Left | Direction::LeftUp | Direction::LeftDown => Direction::Left,
        }
    }

    /// The direction of travel with which the segment will leave its cell.
    pub open spec fn spec_facing(self) -> Direction {
        match self {
            Direction::Up | Direction::RightUp | Direction::LeftUp => Direction::Up,
            Direction::Down | Direction::RightDown | Direction::LeftDown => Direction::Down,
            Direction::Right | Direction::UpRight | Direction::DownRight => Direction::Right,
            Direction::Left | Direction::UpLeft | Direction::DownLeft => Direction::Left,
        }
    }

    /// The cardinal heading that points against `self.spec_facing()`.
    pub open spec fn spec_opposite(self) -> Direction {
        match self.spec_facing() {
            Direction::Up => Direction::Down,
            Direction::Down => Direction::Up,
            Direction::Right => Direction::Left,
            _ => Direction::Right,
        }
    }

    /// Whether the segment leaves its cell along the x axis.
    pub open spec fn is_horizontal(self) -> bool {
        self.spec_facing() is Right || self.spec_facing() is Left
    }

    /// The step of one cell along `self.spec_facing()`: x grows to the right,
    /// y grows upwards.
    pub open spec fn spec_unit(self) -> (i32, i32) {
        match self.spec_facing() {
            Direction::Up => (0i32, 1i32),
            Direction::Down => (0i32, -1i32),
            Direction::Right => (1i32, 0i32),
            _ => (-1i32, 0i32),
        }
    }

    /// The heading of a segment that came in travelling along
    /// `from.spec_facing()` and leaves along `to.spec_facing()`: straight
    /// where the two lie on one axis, else the turn between them.
    pub open spec fn join(from: Direction, to: Direction) -> Direction {
        match (from.spec_facing(), to.spec_facing()) {
            (Direction::Up, Direction::Right) => Direction::UpRight,
            (Direction::Up, Direction::Left) => Direction::UpLeft,
            (Direction::Down, Direction::Right) => Direction::DownRight,
            (Direction::Down, Direction::Left) => Direction::DownLeft,
            (Direction::Right, Direction::Up) => Direction::RightUp,
            (Direction::Right, Direction::Down) => Direction::RightDown,
            (Direction::Left, Direction::Up) => Direction::LeftUp,
            (Direction::Left, Direction::Down) => Direction::LeftDown,
            (straight, _) => straight,
        }
    }

    #[verifier::when_used_as_spec(spec_is_cardinal)]
    pub fn is_cardinal(self) -> (r: bool)
        ensures
            r == self.spec_is_cardinal(),
    {
        match self {
            Direction::Up | Direction::Down | Direction::Right | Direction::Left => true,
            _ => false,
        }
    }

    #[verifier::when_used_as_spec(spec_arrival)]
    pub fn arrival(self) -> (r: Direction)
        ensures
            r == self.spec_arrival(),
    {
        match self {
            Direction::Up | Direction::UpRight | Direction::UpLeft => Direction::Up,
            Direction::Down | Direction::DownRight | Direction::DownLeft => Direction::Down,
            Direction::Right | Direction::RightUp | Direction::RightDown => Direction::Right,
            Direction::Left | Direction::LeftUp | Direction::LeftDown => Direction::Left,
        }
    }

    #[verifier::when_used_as_spec(spec_facing)]
    pub fn facing(self) -> (r: Direction)
        ensures
            r == self.spec_facing(),
    {
        match self {
            Direction::Up | Direction::RightUp | Direction::LeftUp => Direction::Up,
            Direction::Down | Direction::RightDown | Direction::LeftDown => Direction::Down,
            Direction::Right | Direction::UpRight | Direction::DownRight => Direction::Right,
            Direction::Left | Direction::UpLeft | Direction::DownLeft => Direction::Left,
        }
    }

    #[verifier::when_used_as_spec(spec_opposite)]
    pub fn opposite(self) -> (r: Direction)
        ensures
            r == self.spec_opposite(),
    {
        match self.facing() {
            Direction::Up => Direction::Down,
            Direction::Down => Direction::Up,
            Direction::Right => Direction::Left,
            _ => Direction::Right,
        }
    }

    #[verifier::when_used_as_spec(spec_unit)]
    pub fn unit(self) -> (r: (i32, i32))
        ensures
            r == self.spec_unit(),
    {
        match self.facing() {
            Direction::Up => (0, 1),
            Direction::Down => (0, -1),
            Direction::Right => (1, 0),
            _ => (-1, 0),
        }
    }
}

} // verus!

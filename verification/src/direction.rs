//! Headings, and how raw input becomes the next heading.

use vstd::prelude::*;
use crate::grid::Position;

verus! {

/// One of the four ways the snake can travel.
#[derive(Clone, Copy, Debug, PartialEq, Eq, Structural)]
pub enum SnakeMoveDirection {
    Left,
    Up,
    Right,
    Down,
}

/// The directional inputs that are held down in one frame.
#[derive(Clone, Copy, Debug, PartialEq, Eq, Structural)]
pub struct PressedKeys {
    pub left: bool,
    pub up: bool,
    pub right: bool,
    pub down: bool,
}

impl SnakeMoveDirection {
    /// The reverse heading: left and right swap, and so do up and down.
    pub open spec fn opposite_spec(self) -> SnakeMoveDirection {
        match self {
            SnakeMoveDirection::Left => SnakeMoveDirection::Right,
            SnakeMoveDirection::Right => SnakeMoveDirection::Left,
            SnakeMoveDirection::Up => SnakeMoveDirection::Down,
            SnakeMoveDirection::Down => SnakeMoveDirection::Up,
        }
    }

    /// Change of the column in one step along this heading.
    pub open spec fn dx(self) -> int {
        match self {
            SnakeMoveDirection::Left => -1,
            SnakeMoveDirection::Right => 1,
            _ => 0,
        }
    }

    /// Change of the row in one step along this heading. Up is towards
    /// larger rows.
    pub open spec fn dy(self) -> int {
        match self {
            SnakeMoveDirection::Up => 1,
            SnakeMoveDirection::Down => -1,
            _ => 0,
        }
    }

    /// The cell one step from `p` along this heading.
    pub open spec fn step_spec(self, p: Position) -> Position {
        Position { x: (p.x + self.dx()) as i32, y: (p.y + self.dy()) as i32 }
    }

    /// The heading after `pending` has been offered to a snake that travels
    /// along `self`: the snake turns, unless that would reverse it.
    pub open spec fn turned_spec(self, pending: SnakeMoveDirection) -> SnakeMoveDirection {
        if pending == self.opposite_spec() {
            self
        } else {
            pending
        }
    }

    #[verifier::when_used_as_spec(opposite_spec)]
    pub fn opposite(self) -> (r: SnakeMoveDirection)
        ensures
            r == self.opposite_spec(),
    {
        match self {
            SnakeMoveDirection::Left => SnakeMoveDirection::Right,
            SnakeMoveDirection::Right => SnakeMoveDirection::Left,
            SnakeMoveDirection::Up => SnakeMoveDirection::Down,
            SnakeMoveDirection::Down => SnakeMoveDirection::Up,
        }
    }

    /// Moves `p` one cell along this heading.
    pub fn step(self, p: Position) -> (r: Position)
        requires
            p.has_room(),
        ensures
            r == self.step_spec(p),
            r.x == p.x + self.dx(),
            r.y == p.y + self.dy(),
    {
        match self {
            SnakeMoveDirection::Left => Position { x: p.x - 1, y: p.y },
            SnakeMoveDirection::Right => Position { x: p.x + 1, y: p.y },
            SnakeMoveDirection::Up => Position { x: p.x, y: p.y + 1 },
            SnakeMoveDirection::Down => Position { x: p.x, y: p.y - 1 },
        }
    }

    /// Offers `pending` as the new heading and returns the heading that
    /// results: `pending`, unless it is the reverse of `self`.
    pub fn turned(self, pending: SnakeMoveDirection) -> (r: SnakeMoveDirection)
        ensures
            r == self.turned_spec(pending),
            r != self.opposite_spec(),
    {
        if pending == self.opposite() {
            self
        } else {
            pending
        }
    }
}

impl PressedKeys {
    /// The direction that the held keys ask for. Where several are held the
    /// first of left, down, up, right wins; where none is, the answer is
    /// `buffered`.
    pub open spec fn candidate_spec(self, buffered: SnakeMoveDirection) -> SnakeMoveDirection {
        if self.left {
            SnakeMoveDirection::Left
        } else if self.down {
            SnakeMoveDirection::Down
        } else if self.up {
            SnakeMoveDirection::Up
        } else if self.right {
            SnakeMoveDirection::Right
        } else {
            buffered
        }
    }

    /// The direction buffered after one frame's input: the candidate, unless
    /// it is the reverse of `heading`, in which case `buffered` stays.
    pub open spec fn resolve_spec(
        self,
        heading: SnakeMoveDirection,
        buffered: SnakeMoveDirection,
    ) -> SnakeMoveDirection {
        if self.candidate_spec(buffered) == heading.opposite_spec() {
            buffered
        } else {
            self.candidate_spec(buffered)
        }
    }

    /// No key held.
    pub fn none() -> (r: PressedKeys)
        ensures
            r == (PressedKeys { left: false, up: false, right: false, down: false }),
    {
        PressedKeys { left: false, up: false, right: false, down: false }
    }

    /// Exactly the key for `direction` held.
    pub fn only(direction: SnakeMoveDirection) -> (r: PressedKeys)
        ensures
            r.left == (direction == SnakeMoveDirection::Left),
            r.up == (direction == SnakeMoveDirection::Up),
            r.right == (direction == SnakeMoveDirection::Right),
            r.down == (direction == SnakeMoveDirection::Down),
    {
        PressedKeys {
            left: direction == SnakeMoveDirection::Left,
            up: direction == SnakeMoveDirection::Up,
            right: direction == SnakeMoveDirection::Right,
            down: direction == SnakeMoveDirection::Down,
        }
    }

    #[verifier::when_used_as_spec(candidate_spec)]
    pub fn candidate(self, buffered: SnakeMoveDirection) -> (r: SnakeMoveDirection)
        ensures
            r == self.candidate_spec(buffered),
    {
        if self.left {
            SnakeMoveDirection::Left
        } else if self.down {
            SnakeMoveDirection::Down
        } else if self.up {
            SnakeMoveDirection::Up
        } else if self.right {
            SnakeMoveDirection::Right
        } else {
            buffered
        }
    }

    /// Samples one frame's input against the current `heading` and returns
    /// the direction to buffer from now on.
    #[verifier::when_used_as_spec(resolve_spec)]
    pub fn resolve(self, heading: SnakeMoveDirection, buffered: SnakeMoveDirection) -> (r:
        SnakeMoveDirection)
        ensures
            r == self.resolve_spec(heading, buffered),
            self.candidate_spec(buffered) == heading.opposite_spec() ==> r == buffered,
    {
        let dir = self.candidate(buffered);
        if dir != heading.opposite() {
            dir
        } else {
            buffered
        }
    }
}

} // verus!

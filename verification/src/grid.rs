//! Cells of the playing field and the field's extent.

use vstd::prelude::*;

verus! {

/// Width of the standard arena, in cells.
pub const ARENA_WIDTH: u32 = 10;

/// Height of the standard arena, in cells.
pub const ARENA_HEIGHT: u32 = 10;

/// A cell, named by its column `x` and its row `y`. Two positions are equal
/// exactly when both coordinates are.
#[derive(Clone, Copy, Debug, PartialEq, Eq, Structural)]
pub struct Position {
    pub x: i32,
    pub y: i32,
}

impl Position {
    /// A position whose coordinates can each change by one without leaving
    /// the machine integers.
    pub open spec fn has_room(self) -> bool {
        &&& i32::MIN < self.x < i32::MAX
        &&& i32::MIN < self.y < i32::MAX
    }

    /// Tells whether each coordinate can change by one in either direction.
    pub fn check_room(self) -> (r: bool)
        ensures
            r == self.has_room(),
    {
        i32::MIN < self.x && self.x < i32::MAX && i32::MIN < self.y && self.y < i32::MAX
    }
}

/// The extent of the playing field: the cells `(x, y)` with `0 <= x < width`
/// and `0 <= y < height`.
#[derive(Clone, Copy, Debug, PartialEq, Eq, Structural)]
pub struct Arena {
    pub width: u32,
    pub height: u32,
}

impl Arena {
    /// An arena has at least one cell, and every cell of it can be written
    /// as a [`Position`].
    pub open spec fn valid(self) -> bool {
        &&& 0 < self.width <= i32::MAX
        &&& 0 < self.height <= i32::MAX
    }

    /// The cells that lie inside the arena.
    pub open spec fn contains(self, p: Position) -> bool {
        &&& 0 <= p.x < self.width
        &&& 0 <= p.y < self.height
    }

    /// Tells whether the arena is valid.
    pub fn is_valid(&self) -> (r: bool)
        ensures
            r == self.valid(),
    {
        0 < self.width && self.width <= 0x7fff_ffff && 0 < self.height && self.height
            <= 0x7fff_ffff
    }

    /// The arena of the given extent, if that extent is valid.
    pub fn new(width: u32, height: u32) -> (r: Option<Arena>)
        ensures
            r == if (Arena { width, height }).valid() {
                Some(Arena { width, height })
            } else {
                None
            },
    {
        let arena = Arena { width, height };
        if arena.is_valid() {
            Some(arena)
        } else {
            None
        }
    }

    /// The standard arena of `ARENA_WIDTH` by `ARENA_HEIGHT` cells.
    pub fn standard() -> (r: Arena)
        ensures
            r == (Arena { width: ARENA_WIDTH, height: ARENA_HEIGHT }),
            r.valid(),
    {
        Arena { width: ARENA_WIDTH, height: ARENA_HEIGHT }
    }

    /// Tells whether `p` lies inside the arena.
    pub fn is_inside(&self, p: Position) -> (r: bool)
        ensures
            r == self.contains(p),
    {
        0 <= p.x && (p.x as i64) < (self.width as i64) && 0 <= p.y && (p.y as i64) < (
        self.height as i64)
    }
}

} // verus!

use vstd::prelude::*;

verus! {

/// Number of cells along the vertical axis of the arena.
pub const ARENA_HEIGHT: u32 = 80;

/// Number of cells along the horizontal axis of the arena.
pub const ARENA_WIDTH: u32 = 80;

/// Where a coordinate lands after at most one step past an edge of a dimension
/// of size `dim`: past the far edge it re-enters at 0, below 0 it re-enters at
/// `dim - 1`, and an in-range coordinate stays where it is.
pub open spec fn wrap_spec(v: int, dim: int) -> int {
    if v >= dim {
        0
    } else if v < 0 {
        dim - 1
    } else {
        v
    }
}

/// Brings one coordinate back into `0 .. dim` by wrapping around the edges.
pub fn wrap_coordinate(v: i64, dim: u32) -> (r: i32)
    requires
        0 < dim <= i32::MAX,
    ensures
        r == wrap_spec(v as int, dim as int),
        0 <= r < dim,
{
    if v >= dim as i64 {
        0
    } else if v < 0 {
        (dim - 1) as i32
    } else {
        v as i32
    }
}

/// A cell of the arena.
#[derive(Clone, Copy, Debug, PartialEq, Eq, Hash, Structural)]
pub struct Position {
    pub x: i32,
    pub y: i32,
}

/// Which direction an entity is moving.
#[derive(Clone, Copy, Debug, PartialEq, Eq, Hash, Structural)]
pub enum Direction {
    Left,
    Right,
    Up,
    Down,
}

impl Default for Position {
    /// The origin cell, at the lower left corner of the arena.
    fn default() -> (r: Position)
        ensures
            r == (Position { x: 0, y: 0 }),
    {
        Position { x: 0, y: 0 }
    }
}

impl Direction {
    /// The direction pointing the other way.
    pub open spec fn opposite_spec(self) -> Direction {
        match self {
            Direction::Left => Direction::Right,
            Direction::Right => Direction::Left,
            Direction::Up => Direction::Down,
            Direction::Down => Direction::Up,
        }
    }

    /// Horizontal displacement of one step in this direction.
    pub open spec fn dx(self) -> int {
        match self {
            Direction::Left => -1,
            Direction::Right => 1,
            _ => 0,
        }
    }

    /// Vertical displacement of one step in this direction.
    pub open spec fn dy(self) -> int {
        match self {
            Direction::Up => 1,
            Direction::Down => -1,
            _ => 0,
        }
    }

    /// The direction that `index` selects when taken modulo 4, in the order
    /// left, right, up, down.
    pub open spec fn from_index_spec(index: u32) -> Direction {
        if index % 4 == 0 {
            Direction::Left
        } else if index % 4 == 1 {
            Direction::Right
        } else if index % 4 == 2 {
            Direction::Up
        } else {
            Direction::Down
        }
    }

    /// Returns the opposite direction of the current one.
    pub fn opposite(self) -> (r: Direction)
        ensures
            r == self.opposite_spec(),
    {
        match self {
            Direction::Left => Direction::Right,
            Direction::Right => Direction::Left,
            Direction::Up => Direction::Down,
            Direction::Down => Direction::Up,
        }
    }

    /// Picks a direction from a number: each residue modulo 4 selects one of
    /// the four directions, so a uniform number gives a uniform direction.
    pub fn from_index(index: u32) -> (r: Direction)
        ensures
            r == Direction::from_index_spec(index),
    {
        let m: u32 = index % 4;
        if m == 0 {
            Direction::Left
        } else if m == 1 {
            Direction::Right
        } else if m == 2 {
            Direction::Up
        } else {
            Direction::Down
        }
    }

    /// Returns a random direction, each of the four equally likely.
    pub fn random() -> Direction {
        let index: u32 = rand::random::<u32>();
        Direction::from_index(index)
    }
}

/// Relies on rand::random: returns a value drawn from the thread-local
/// generator. Nothing is promised of the value.
pub assume_specification<T>[ rand::random::<T> ]() -> (r: T)
    where
        rand::distributions::Standard: rand::distributions::Distribution<T>,
;

impl Position {
    /// Whether the cell lies inside the arena.
    pub open spec fn in_arena(self) -> bool {
        0 <= self.x < ARENA_WIDTH && 0 <= self.y < ARENA_HEIGHT
    }

    /// The cell with both coordinates wrapped back into the arena.
    pub open spec fn wrapped(self) -> Position {
        Position {
            x: wrap_spec(self.x as int, ARENA_WIDTH as int) as i32,
            y: wrap_spec(self.y as int, ARENA_HEIGHT as int) as i32,
        }
    }

    /// The cell one step away in `heading`, wrapped around the arena's edges.
    pub open spec fn following_spec(self, heading: Direction) -> Position {
        Position {
            x: wrap_spec(self.x + heading.dx(), ARENA_WIDTH as int) as i32,
            y: wrap_spec(self.y + heading.dy(), ARENA_HEIGHT as int) as i32,
        }
    }

    /// The cell that two numbers select, each taken modulo the arena's size
    /// along its axis.
    pub open spec fn from_draws_spec(rx: u32, ry: u32) -> Position {
        Position { x: (rx % ARENA_WIDTH) as i32, y: (ry % ARENA_HEIGHT) as i32 }
    }

    /// Whether the cell lies inside the arena.
    pub fn is_in_arena(&self) -> (r: bool)
        ensures
            r == self.in_arena(),
    {
        0 <= self.x && self.x < ARENA_WIDTH as i32 && 0 <= self.y && self.y < ARENA_HEIGHT as i32
    }

    /// Returns the cell one step ahead of this one when moving in `heading`;
    /// stepping over an edge re-enters the arena on the opposite side.
    pub fn following(self, heading: Direction) -> (r: Position)
        ensures
            r == self.following_spec(heading),
            r.in_arena(),
    {
        let mut x: i64 = self.x as i64;
        let mut y: i64 = self.y as i64;
        match heading {
            Direction::Left => x = x - 1,
            Direction::Right => x = x + 1,
            Direction::Up => y = y + 1,
            Direction::Down => y = y - 1,
        }
        Position { x: wrap_coordinate(x, ARENA_WIDTH), y: wrap_coordinate(y, ARENA_HEIGHT) }
    }

    /// Selects a cell inside the arena from two numbers.
    pub fn from_draws(rx: u32, ry: u32) -> (r: Position)
        ensures
            r == Position::from_draws_spec(rx, ry),
            r.in_arena(),
    {
        Position { x: (rx % ARENA_WIDTH) as i32, y: (ry % ARENA_HEIGHT) as i32 }
    }

    /// Returns a random position inside the arena.
    pub fn random() -> (r: Position)
        ensures
            r.in_arena(),
    {
        let rx: u32 = rand::random::<u32>();
        let ry: u32 = rand::random::<u32>();
        Position::from_draws(rx, ry)
    }

    /// Wraps a position that has stepped over an edge of the arena back onto
    /// the opposite side.
    pub fn warp_if_needed(position: &mut Position)
        ensures
            *final(position) == old(position).wrapped(),
            final(position).in_arena(),
    {
        position.x = wrap_coordinate(position.x as i64, ARENA_WIDTH);
        position.y = wrap_coordinate(position.y as i64, ARENA_HEIGHT);
    }
}

/// Whether `cell` is one of `cells`.
pub fn contains_cell(cells: &Vec<Position>, cell: Position) -> (r: bool)
    ensures
        r == cells@.contains(cell),
{
    let n = cells.len();
    let mut i: usize = 0;
    while i < n
        invariant
            n == cells@.len(),
            i <= n,
            forall|k: int| 0 <= k < i ==> cells@[k] != cell,
        decreases n - i,
    {
        if cells[i] == cell {
            return true;
        }
        i = i + 1;
    }
    false
}

/// Wrapping is a normalisation: for every size of grid, wrapping a coordinate
/// that has already been wrapped leaves it where it is.
pub proof fn lemma_wrap_idempotent(v: int, dim: int)
    requires
        dim > 0,
    ensures
        wrap_spec(wrap_spec(v, dim), dim) == wrap_spec(v, dim),
        0 <= wrap_spec(v, dim) < dim,
{
}

/// Wrapping a cell into a `width` by `height` grid twice gives the same cell
/// as wrapping it once.
pub proof fn lemma_wrap_cell_idempotent(x: int, y: int, width: int, height: int)
    requires
        width > 0,
        height > 0,
    ensures
        wrap_spec(wrap_spec(x, width), width) == wrap_spec(x, width),
        wrap_spec(wrap_spec(y, height), height) == wrap_spec(y, height),
{
    lemma_wrap_idempotent(x, width);
    lemma_wrap_idempotent(y, height);
}

/// In the arena, wrapping a position that was already wrapped changes nothing.
pub proof fn lemma_position_wrap_idempotent(p: Position)
    ensures
        p.wrapped().wrapped() == p.wrapped(),
        p.wrapped().in_arena(),
{
}

/// Turning around twice faces the original direction again.
pub proof fn lemma_opposite_involutive(d: Direction)
    ensures
        d.opposite_spec().opposite_spec() == d,
        d.opposite_spec() != d,
{
}

/// A step in any direction leaves the cell: the cell ahead of an arena cell is
/// never the cell itself.
pub proof fn lemma_following_moves(p: Position, heading: Direction)
    requires
        p.in_arena(),
    ensures
        p.following_spec(heading) != p,
        p.following_spec(heading).in_arena(),
{
}

} // verus!

use crate::arena::{contains_cell, Position, ARENA_HEIGHT, ARENA_WIDTH};
use vstd::prelude::*;

verus! {

/// How many random cells are drawn before the arena is searched in order.
pub const RANDOM_ATTEMPTS: u32 = 64;

/// A piece of food lying on a cell of the arena.
#[derive(Clone, Copy, Debug, PartialEq, Eq, Hash, Structural)]
pub struct Food {
    pub position: Position,
}

/// Why no food could be placed.
#[derive(Clone, Copy, Debug, PartialEq, Eq, Structural)]
pub enum FoodPlacementError {
    /// Every cell of the arena is occupied.
    Exhausted,
}

/// Whether every cell of the arena is among `occupied`.
pub open spec fn arena_full(occupied: Seq<Position>) -> bool {
    forall|p: Position| p.in_arena() ==> #[trigger] occupied.contains(p)
}

/// Whether `p` is a cell where food may be placed.
pub open spec fn free_cell(occupied: Seq<Position>, p: Position) -> bool {
    p.in_arena() && !occupied.contains(p)
}

/// Places food on `candidate` unless it is outside the arena or occupied.
pub fn place_food(candidate: Position, occupied: &Vec<Position>) -> (r: Option<Food>)
    ensures
        r == if free_cell(occupied@, candidate) {
            Some(Food { position: candidate })
        } else {
            None
        },
{
    if candidate.is_in_arena() && !contains_cell(occupied, candidate) {
        Some(Food { position: candidate })
    } else {
        None
    }
}

/// Returns the first free cell of the arena, scanning column by column from
/// the origin, or `None` when every cell is occupied.
pub fn first_free_cell(occupied: &Vec<Position>) -> (r: Option<Position>)
    ensures
        r matches Some(p) ==> free_cell(occupied@, p),
        r is None <==> arena_full(occupied@),
{
    let mut x: i32 = 0;
    while x < ARENA_WIDTH as i32
        invariant
            0 <= x <= ARENA_WIDTH,
            forall|p: Position| 0 <= p.x < x && 0 <= p.y < ARENA_HEIGHT ==> #[trigger] occupied@.contains(p),
        decreases ARENA_WIDTH - x,
    {
        let mut y: i32 = 0;
        while y < ARENA_HEIGHT as i32
            invariant
                0 <= x < ARENA_WIDTH,
                0 <= y <= ARENA_HEIGHT,
                forall|p: Position| 0 <= p.x < x && 0 <= p.y < ARENA_HEIGHT ==> #[trigger] occupied@.contains(p),
                forall|p: Position| p.x == x && 0 <= p.y < y ==> #[trigger] occupied@.contains(p),
            decreases ARENA_HEIGHT - y,
        {
            let p = Position { x, y };
            if !contains_cell(occupied, p) {
                return Some(p);
            }
            y = y + 1;
        }
        x = x + 1;
    }
    None
}

/// Chooses a cell for food that nothing in `occupied` covers.
///
/// Cells are drawn at random, each uniformly from the arena, and an occupied
/// draw is rejected; after `RANDOM_ATTEMPTS` rejections the arena is searched
/// in order. An error is returned only when every cell is occupied.
pub fn food_spawner(occupied: &Vec<Position>) -> (r: Result<Food, FoodPlacementError>)
    ensures
        r matches Ok(f) ==> free_cell(occupied@, f.position),
        r is Err <==> arena_full(occupied@),
        r matches Err(e) ==> e == FoodPlacementError::Exhausted,
{
    let mut attempt: u32 = 0;
    while attempt < RANDOM_ATTEMPTS
        invariant
            attempt <= RANDOM_ATTEMPTS,
        decreases RANDOM_ATTEMPTS - attempt,
    {
        let candidate = Position::random();
        if let Some(food) = place_food(candidate, occupied) {
            return Ok(food);
        }
        attempt = attempt + 1;
    }
    match first_free_cell(occupied) {
        Some(p) => Ok(Food { position: p }),
        None => Err(FoodPlacementError::Exhausted),
    }
}

} // verus!

use crate::arena::{Direction, Position};
use crate::food::{arena_full, food_spawner, free_cell, Food, FoodPlacementError};
use crate::snake::{
    moved_cells, snake_growth, snake_movement, spawn_cells, spawn_snake, Movement, SnakeBody,
};
use vstd::prelude::*;

verus! {

/// What happened during one tick.
#[derive(Clone, Copy, Debug, PartialEq, Eq, Structural)]
pub enum TickOutcome {
    /// The snake moved one step.
    Moved,
    /// The snake moved onto the food and ate it; it grows on the next tick.
    Ate,
    /// The snake ran into itself; a new game was started.
    Collided,
}

/// The heading after an input: a request for the opposite of the current
/// heading is ignored, and no input keeps the heading.
pub open spec fn steered(heading: Direction, input: Option<Direction>) -> Direction {
    match input {
        Some(d) => if d == heading.opposite_spec() {
            heading
        } else {
            d
        },
        None => heading,
    }
}

/// The cells after a pending growth has been applied.
pub open spec fn grown_cells(cells: Seq<Position>, pending: Option<Position>) -> Seq<Position> {
    match pending {
        Some(p) => cells.push(p),
        None => cells,
    }
}

/// Whether `cells` is the body of a freshly spawned snake travelling in
/// `heading`.
pub open spec fn is_fresh_snake(cells: Seq<Position>, heading: Direction) -> bool {
    exists|start: Position| start.in_arena() && cells == spawn_cells(start, heading)
}

/// Tells whether the head has reached the food.
pub fn snake_eating(head: Position, food: &Option<Food>) -> (r: bool)
    ensures
        r == (*food == Some(Food { position: head })),
{
    match food {
        Some(f) => f.position == head,
        None => false,
    }
}

/// The state of one game: the snake, the food if any lies in the arena, and
/// the cell where the snake grows on the next tick after it has eaten.
#[derive(Clone, Debug)]
pub struct GameState {
    snake: SnakeBody,
    food: Option<Food>,
    pending_growth: Option<Position>,
}

impl GameState {
    /// The snake.
    pub closed spec fn snake_spec(&self) -> SnakeBody {
        self.snake
    }

    /// The food, if any.
    pub closed spec fn food_spec(&self) -> Option<Food> {
        self.food
    }

    /// The cell where the snake grows on the next tick, if it has just eaten.
    pub closed spec fn pending_spec(&self) -> Option<Position> {
        self.pending_growth
    }

    /// The snake is well formed, the food lies on a free cell, and a pending
    /// growth fills a free cell that the food is not on.
    pub open spec fn wf(&self) -> bool {
        &&& self.snake_spec().wf()
        &&& (self.food_spec() matches Some(f) ==> free_cell(
            grown_cells(self.snake_spec().cells_spec(), self.pending_spec()),
            f.position,
        ))
        &&& (self.pending_spec() matches Some(p) ==> free_cell(
            self.snake_spec().cells_spec(),
            p,
        ))
    }

    /// Starts a game with `snake` and `food`. Returns `None` when the food
    /// lies outside the arena or under the snake.
    pub fn new(snake: SnakeBody, food: Option<Food>) -> (r: Option<GameState>)
        requires
            snake.wf(),
        ensures
            r.is_some() == (food matches Some(f) ==> free_cell(snake.cells_spec(), f.position)),
            r matches Some(g) ==> g.wf() && g.snake_spec() == snake && g.food_spec() == food
                && g.pending_spec() == None::<Position>,
    {
        if let Some(f) = food {
            let p = f.position;
            if !p.is_in_arena() || snake.occupies(p) {
                return None;
            }
        }
        Some(GameState { snake, food, pending_growth: None })
    }

    /// Starts a game: a two-cell snake is spawned on a random cell with a
    /// random heading, and food is placed on a random free cell.
    pub fn start() -> (r: GameState)
        ensures
            r.wf(),
            is_fresh_snake(r.snake_spec().cells_spec(), r.snake_spec().heading_spec()),
            r.food_spec().is_some(),
            r.pending_spec() == None::<Position>,
    {
        let start = Position::random();
        let heading = Direction::random();
        let snake = spawn_snake(start, heading);
        proof {
            lemma_two_cells_leave_room(snake.cells_spec());
        }
        let food = match food_spawner(snake.cells()) {
            Ok(f) => Some(f),
            Err(_) => None,
        };
        GameState { snake, food, pending_growth: None }
    }

    /// Ends the current game and starts a new one: the snake and the food are
    /// removed, and a fresh snake and food are spawned as `start` does.
    pub fn game_over(&mut self)
        ensures
            final(self).wf(),
            is_fresh_snake(final(self).snake_spec().cells_spec(), final(self).snake_spec().heading_spec()),
            final(self).food_spec().is_some(),
            final(self).pending_spec() == None::<Position>,
    {
        *self = GameState::start();
    }

    /// Places food on a random free cell when none lies in the arena; food
    /// already there stays. The cell where the snake is about to grow is not
    /// free. Fails only when no cell of the arena is free.
    pub fn spawn_food(&mut self) -> (r: Result<(), FoodPlacementError>)
        requires
            old(self).wf(),
        ensures
            final(self).wf(),
            final(self).snake_spec() == old(self).snake_spec(),
            final(self).pending_spec() == old(self).pending_spec(),
            old(self).food_spec().is_some() ==> final(self).food_spec() == old(self).food_spec(),
            r is Err <==> old(self).food_spec().is_none() && arena_full(
                grown_cells(old(self).snake_spec().cells_spec(), old(self).pending_spec()),
            ),
            r is Ok ==> final(self).food_spec().is_some(),
            r is Err ==> final(self).food_spec().is_none(),
    {
        if self.food.is_some() {
            return Ok(());
        }
        let mut blocked: Vec<Position> = self.snake.cells().clone();
        if let Some(p) = self.pending_growth {
            blocked.push(p);
        }
        match food_spawner(&blocked) {
            Ok(f) => {
                self.food = Some(f);
                Ok(())
            },
            Err(e) => Err(e),
        }
    }

    /// Runs one step of the game.
    ///
    /// A growth left pending by the previous tick is applied first, then the
    /// input turns the snake (a reversal is ignored) and the snake moves. On
    /// a collision with itself a new game starts. When the head reaches the
    /// food, the food is eaten and the cell left by the tail is kept for the
    /// growth on the next tick.
    pub fn tick(&mut self, input: Option<Direction>) -> (r: TickOutcome)
        requires
            old(self).wf(),
        ensures
            final(self).wf(),
            tick_result(*old(self), *final(self), input, r),
    {
        snake_growth(&mut self.snake, &mut self.pending_growth);
        assert(self.snake.cells_spec() == grown_cells(old(self).snake_spec().cells_spec(), old(self).pending_spec()));
        if let Some(d) = input {
            self.snake.set_heading(d);
        }
        let ghost cells = self.snake.cells_spec();
        match snake_movement(&mut self.snake) {
            Movement::Collided => {
                self.game_over();
                TickOutcome::Collided
            },
            Movement::Moved { head, vacated } => {
                if snake_eating(head, &self.food) {
                    self.food = None;
                    self.pending_growth = Some(vacated);
                    proof {
                        crate::snake::lemma_move_then_grow(cells, head);
                    }
                    TickOutcome::Ate
                } else {
                    proof {
                        crate::snake::lemma_move_then_grow(cells, head);
                        if let Some(f) = self.food {
                            assert(!cells.contains(f.position));
                            assert(f.position != head);
                            if moved_cells(cells, head).contains(f.position) {
                                let i = choose|i: int| 0 <= i < moved_cells(cells, head).len() && moved_cells(cells, head)[i] == f.position;
                                assert(cells[i - 1] == f.position);
                            }
                        }
                    }
                    TickOutcome::Moved
                }
            },
        }
    }

    /// The snake.
    pub fn snake(&self) -> (r: &SnakeBody)
        ensures
            *r == self.snake_spec(),
    {
        &self.snake
    }

    /// The food, if any lies in the arena.
    pub fn food(&self) -> (r: Option<Food>)
        ensures
            r == self.food_spec(),
    {
        self.food
    }

    /// The cell where the snake grows on the next tick, if it has just eaten.
    pub fn pending_growth(&self) -> (r: Option<Position>)
        ensures
            r == self.pending_spec(),
    {
        self.pending_growth
    }
}

/// What one tick does to `before`, giving `after` and the outcome `r`.
///
/// A growth left pending is applied, the input steers the snake, and the
/// head's next cell is tested against the whole body as it was before the
/// move. On a collision a fresh snake and new food stand in the arena. Else
/// the snake moves; reaching the food eats it and leaves the tail's old cell
/// pending for growth, and otherwise the food stays.
pub open spec fn tick_result(
    before: GameState,
    after: GameState,
    input: Option<Direction>,
    r: TickOutcome,
) -> bool {
    let cells = grown_cells(before.snake_spec().cells_spec(), before.pending_spec());
    let heading = steered(before.snake_spec().heading_spec(), input);
    let ahead = cells[0].following_spec(heading);
    if cells.contains(ahead) {
        &&& r == TickOutcome::Collided
        &&& is_fresh_snake(after.snake_spec().cells_spec(), after.snake_spec().heading_spec())
        &&& after.food_spec().is_some()
        &&& after.pending_spec() == None::<Position>
    } else if before.food_spec() == Some(Food { position: ahead }) {
        &&& r == TickOutcome::Ate
        &&& after.snake_spec().heading_spec() == heading
        &&& after.snake_spec().cells_spec() == moved_cells(cells, ahead)
        &&& after.food_spec() == None::<Food>
        &&& after.pending_spec() == Some(cells.last())
    } else {
        &&& r == TickOutcome::Moved
        &&& after.snake_spec().heading_spec() == heading
        &&& after.snake_spec().cells_spec() == moved_cells(cells, ahead)
        &&& after.food_spec() == before.food_spec()
        &&& after.pending_spec() == None::<Position>
    }
}

/// A snake of two cells leaves free cells in the arena.
proof fn lemma_two_cells_leave_room(cells: Seq<Position>)
    requires
        cells.len() == 2,
    ensures
        !arena_full(cells),
{
    let a = Position { x: 0, y: 0 };
    let b = Position { x: 0, y: 1 };
    let c = Position { x: 0, y: 2 };
    if arena_full(cells) {
        assert(a.in_arena() && b.in_arena() && c.in_arena());
        assert(cells.contains(a));
        assert(cells.contains(b));
        assert(cells.contains(c));
        let ia = choose|i: int| 0 <= i < cells.len() && cells[i] == a;
        let ib = choose|i: int| 0 <= i < cells.len() && cells[i] == b;
        let ic = choose|i: int| 0 <= i < cells.len() && cells[i] == c;
        assert(ia != ib && ib != ic && ia != ic);
    }
}

/// Food never lies under the snake: in every well-formed game state, the
/// snake occupies no cell that holds food.
pub proof fn lemma_food_never_under_snake(g: GameState)
    requires
        g.wf(),
    ensures
        g.food_spec() matches Some(f) ==> !g.snake_spec().occupies_spec(f.position),
{
    if let Some(f) = g.food_spec() {
        let cells = g.snake_spec().cells_spec();
        if cells.contains(f.position) {
            let i = choose|i: int| 0 <= i < cells.len() && cells[i] == f.position;
            assert(grown_cells(cells, g.pending_spec())[i] == f.position);
        }
    }
}

} // verus!

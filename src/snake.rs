use crate::arena::{contains_cell, Direction, Position};
use vstd::prelude::*;

verus! {

/// Whether every cell of `cells` lies inside the arena.
pub open spec fn all_in_arena(cells: Seq<Position>) -> bool {
    forall|i: int| 0 <= i < cells.len() ==> (#[trigger] cells[i]).in_arena()
}

/// Whether `cells` can be the body of a snake: at least a head, every cell
/// inside the arena, and no cell occupied twice.
pub open spec fn valid_cells(cells: Seq<Position>) -> bool {
    cells.len() >= 1 && all_in_arena(cells) && cells.no_duplicates()
}

/// The cells of a freshly spawned snake: the head one step ahead of `start`
/// in `heading`, and a single tail segment on `start`.
pub open spec fn spawn_cells(start: Position, heading: Direction) -> Seq<Position> {
    seq![start.following_spec(heading), start]
}

/// The cells after one step without collision: the head enters `ahead` and
/// every segment takes the place of the one before it, so the old tail cell
/// is left.
pub open spec fn moved_cells(cells: Seq<Position>, ahead: Position) -> Seq<Position> {
    seq![ahead] + cells.drop_last()
}

/// The outcome of moving a snake one step.
#[derive(Clone, Copy, Debug, PartialEq, Eq, Structural)]
pub enum Movement {
    /// The snake moved: its head is now on `head`, and `vacated` is the cell
    /// its tail left, where a new segment grows.
    Moved { head: Position, vacated: Position },
    /// The cell ahead of the head was part of the body; the snake did not move.
    Collided,
}

/// A snake: the direction it travels in and the ordered cells of its body,
/// the head first and the tail last.
#[derive(Clone, Debug)]
pub struct SnakeBody {
    heading: Direction,
    cells: Vec<Position>,
}

impl SnakeBody {
    /// The direction of travel.
    pub closed spec fn heading_spec(&self) -> Direction {
        self.heading
    }

    /// The body's cells, head first.
    pub closed spec fn cells_spec(&self) -> Seq<Position> {
        self.cells@
    }

    /// The body is never empty, lies in the arena and never overlaps itself.
    pub open spec fn wf(&self) -> bool {
        valid_cells(self.cells_spec())
    }

    /// The cell of the head.
    pub open spec fn head_spec(&self) -> Position {
        self.cells_spec()[0]
    }

    /// The cell that the head moves into on the next step.
    pub open spec fn ahead_spec(&self) -> Position {
        self.head_spec().following_spec(self.heading_spec())
    }

    /// Whether some part of the body, the head included, is on `cell`.
    pub open spec fn occupies_spec(&self, cell: Position) -> bool {
        self.cells_spec().contains(cell)
    }

    /// Builds a snake from a heading and its cells, head first. Returns `None`
    /// when the cells cannot form a body: none at all, one outside the arena,
    /// or one cell listed twice.
    pub fn from_cells(heading: Direction, cells: Vec<Position>) -> (r: Option<SnakeBody>)
        ensures
            r.is_some() == valid_cells(cells@),
            r matches Some(s) ==> s.heading_spec() == heading && s.cells_spec() == cells@,
    {
        if cells.len() == 0 {
            return None;
        }
        let n = cells.len();
        let mut i: usize = 0;
        while i < n
            invariant
                n == cells@.len(),
                i <= n,
                forall|k: int| 0 <= k < i ==> (#[trigger] cells@[k]).in_arena(),
                forall|k: int, l: int| 0 <= k < i && 0 <= l < n && k != l ==> cells@[k] != cells@[l],
            decreases n - i,
        {
            let c = cells[i];
            if !c.is_in_arena() {
                return None;
            }
            let mut j: usize = 0;
            while j < n
                invariant
                    n == cells@.len(),
                    i < n,
                    j <= n,
                    c == cells@[i as int],
                    forall|l: int| 0 <= l < j && l != i ==> cells@[i as int] != cells@[l],
                decreases n - j,
            {
                if j != i && cells[j] == c {
                    assert(!cells@.no_duplicates());
                    return None;
                }
                j = j + 1;
            }
            i = i + 1;
        }
        Some(SnakeBody { heading, cells })
    }

    /// The direction the snake travels in.
    pub fn heading(&self) -> (r: Direction)
        ensures
            r == self.heading_spec(),
    {
        self.heading
    }

    /// The body's cells, head first and tail last.
    pub fn cells(&self) -> (r: &Vec<Position>)
        ensures
            r@ == self.cells_spec(),
    {
        &self.cells
    }

    /// The number of cells of the body, the head included.
    pub fn len(&self) -> (r: usize)
        ensures
            r == self.cells_spec().len(),
    {
        self.cells.len()
    }

    /// The cell of the head.
    pub fn head(&self) -> (r: Position)
        requires
            self.wf(),
        ensures
            r == self.head_spec(),
    {
        self.cells[0]
    }

    /// Whether any part of the body, the head included, is on `cell`.
    pub fn occupies(&self, cell: Position) -> (r: bool)
        ensures
            r == self.occupies_spec(cell),
    {
        contains_cell(&self.cells, cell)
    }
    /// Changes the direction of travel to `requested`, unless that is the
    /// opposite of the current one: a snake cannot turn back onto itself, and
    /// such a request is ignored.
    pub fn set_heading(&mut self, requested: Direction)
        ensures
            final(self).cells_spec() == old(self).cells_spec(),
            final(self).heading_spec() == if requested == old(self).heading_spec().opposite_spec() {
                old(self).heading_spec()
            } else {
                requested
            },
    {
        if requested != self.heading.opposite() {
            self.heading = requested;
        }
    }

    /// Appends a segment at `position` behind the tail.
    pub fn spawn_segment(&mut self, position: Position)
        requires
            old(self).wf(),
            position.in_arena(),
            !old(self).occupies_spec(position),
        ensures
            final(self).wf(),
            final(self).heading_spec() == old(self).heading_spec(),
            final(self).cells_spec() == old(self).cells_spec().push(position),
    {
        self.cells.push(position);
        assert(self.cells@.no_duplicates()) by {
            assert forall|i: int, j: int|
                0 <= i < self.cells@.len() && 0 <= j < self.cells@.len() && i != j implies
                self.cells@[i] != self.cells@[j] by {
                if i == self.cells@.len() - 1 {
                    assert(old(self).cells@.contains(self.cells@[j]) || j == i);
                } else if j == self.cells@.len() - 1 {
                    assert(old(self).cells@.contains(self.cells@[i]));
                }
            }
        }
    }
}

/// Spawns a snake of two cells travelling in `heading`: its head one step
/// ahead of `start` and its single tail segment on `start`.
pub fn spawn_snake(start: Position, heading: Direction) -> (r: SnakeBody)
    requires
        start.in_arena(),
    ensures
        r.wf(),
        r.heading_spec() == heading,
        r.cells_spec() == spawn_cells(start, heading),
{
    let head = start.following(heading);
    proof {
        crate::arena::lemma_following_moves(start, heading);
    }
    let cells: Vec<Position> = vec![head, start];
    SnakeBody { heading, cells }
}

/// Moves the snake one step in its heading.
///
/// The cell ahead of the head is tested against the body as it stands before
/// the move, the tail included: entering the cell the tail is about to leave
/// counts as a collision. On a collision the body is left as it was and
/// `Collided` is returned. Otherwise the head enters the cell ahead, each
/// segment takes the cell of the one before it, and the cell the tail left is
/// returned with the new head.
pub fn snake_movement(snake: &mut SnakeBody) -> (r: Movement)
    requires
        old(snake).wf(),
    ensures
        final(snake).wf(),
        final(snake).heading_spec() == old(snake).heading_spec(),
        old(snake).occupies_spec(old(snake).ahead_spec()) ==> r == Movement::Collided && *final(snake)
            == *old(snake),
        !old(snake).occupies_spec(old(snake).ahead_spec()) ==> r == (Movement::Moved {
            head: old(snake).ahead_spec(),
            vacated: old(snake).cells_spec().last(),
        }) && final(snake).cells_spec() == moved_cells(old(snake).cells_spec(), old(snake).ahead_spec()),
{
    let ahead = snake.cells[0].following(snake.heading);
    if snake.occupies(ahead) {
        return Movement::Collided;
    }
    let ghost before = snake.cells@;
    snake.cells.insert(0, ahead);
    let vacated = match snake.cells.pop() {
        Some(p) => p,
        None => ahead,
    };
    proof {
        assert(snake.cells@ =~= moved_cells(before, ahead));
        let c = snake.cells@;
        assert forall|i: int, j: int| 0 <= i < c.len() && 0 <= j < c.len() && i != j implies c[i]
            != c[j] by {
            if i == 0 {
                assert(before.contains(c[j]));
            } else if j == 0 {
                assert(before.contains(c[i]));
            } else {
                assert(c[i] == before[i - 1] && c[j] == before[j - 1]);
            }
        }
        assert forall|i: int| 0 <= i < c.len() implies (#[trigger] c[i]).in_arena() by {
            if i > 0 {
                assert(c[i] == before[i - 1]);
            }
        }
    }
    Movement::Moved { head: ahead, vacated }
}

/// Applies a pending growth: when `pending` holds a free cell of the arena, a
/// segment is appended there behind the tail. The signal is consumed either
/// way, so a second call with nothing pending changes nothing.
pub fn snake_growth(snake: &mut SnakeBody, pending: &mut Option<Position>)
    requires
        old(snake).wf(),
    ensures
        final(snake).wf(),
        final(snake).heading_spec() == old(snake).heading_spec(),
        *final(pending) == None::<Position>,
        final(snake).cells_spec() == match *old(pending) {
            Some(p) => if p.in_arena() && !old(snake).occupies_spec(p) {
                old(snake).cells_spec().push(p)
            } else {
                old(snake).cells_spec()
            },
            None => old(snake).cells_spec(),
        },
{
    if let Some(p) = *pending {
        if p.is_in_arena() && !snake.occupies(p) {
            snake.spawn_segment(p);
        }
    }
    *pending = None;
}

/// A step without collision keeps the snake's length and keeps it well
/// formed, and the cell its tail left is free afterwards: growing a segment
/// there once makes the snake one cell longer, with the new segment on the
/// tail's cell from before the step.
pub proof fn lemma_move_then_grow(cells: Seq<Position>, ahead: Position)
    requires
        valid_cells(cells),
        ahead.in_arena(),
        !cells.contains(ahead),
    ensures
        moved_cells(cells, ahead).len() == cells.len(),
        valid_cells(moved_cells(cells, ahead)),
        cells.last().in_arena(),
        !moved_cells(cells, ahead).contains(cells.last()),
        moved_cells(cells, ahead).push(cells.last()).len() == cells.len() + 1,
        moved_cells(cells, ahead).push(cells.last()).last() == cells.last(),
{
    let m = moved_cells(cells, ahead);
    let n = cells.len();
    assert(cells[n - 1].in_arena());
    assert forall|i: int, j: int| 0 <= i < m.len() && 0 <= j < m.len() && i != j implies m[i] != m[j] by {
        if i == 0 {
            assert(cells.contains(m[j]));
        } else if j == 0 {
            assert(cells.contains(m[i]));
        } else {
            assert(m[i] == cells[i - 1] && m[j] == cells[j - 1]);
        }
    }
    assert forall|i: int| 0 <= i < m.len() implies (#[trigger] m[i]).in_arena() by {
        if i > 0 {
            assert(m[i] == cells[i - 1]);
        }
    }
    if m.contains(cells.last()) {
        let i = choose|i: int| 0 <= i < m.len() && m[i] == cells.last();
        if i > 0 {
            assert(m[i] == cells[i - 1]);
        }
    }
}

} // verus!

//! The snake state machine: body, heading, queued direction requests, item
//! placement, score, and the tick transition with collision detection.

use vstd::prelude::*;
use crate::board::{Board, Cell, clamp_wrap};

verus! {

/// A direction of travel, or `Stopped` for "no movement".
#[derive(Clone, Copy, PartialEq, Eq, Structural, Debug)]
pub enum Direction {
    Stopped,
    Right,
    Left,
    Up,
    Down,
}

/// Outcome of one simulation tick.
#[derive(Clone, Copy, PartialEq, Eq, Structural, Debug)]
pub enum TickResult {
    Continue,
    AteItem,
    GameOver,
}

/// Whether `b` exactly reverses `a` (Right/Left and Up/Down are the two
/// opposite pairs; `Stopped` reverses nothing).
pub open spec fn is_reverse(a: Direction, b: Direction) -> bool {
    ||| (a == Direction::Right && b == Direction::Left)
    ||| (a == Direction::Left && b == Direction::Right)
    ||| (a == Direction::Up && b == Direction::Down)
    ||| (a == Direction::Down && b == Direction::Up)
}

/// Unit move vector of a heading, as `(dx, dy)`.
pub open spec fn move_vector(d: Direction) -> (int, int) {
    match d {
        Direction::Stopped => (0, 0),
        Direction::Right => (1, 0),
        Direction::Left => (-1, 0),
        Direction::Up => (0, -1),
        Direction::Down => (0, 1),
    }
}

/// The heading adopted by a tick: the oldest queued request, unless the
/// queue is empty or the request would exactly reverse the current heading.
pub open spec fn effective_heading(heading: Direction, pending: Seq<Direction>) -> Direction {
    if pending.len() > 0 && !is_reverse(pending[0], heading) {
        pending[0]
    } else {
        heading
    }
}

/// Whether a cell lies on a board of the given side length.
pub open spec fn cell_in_range(c: Cell, size: int) -> bool {
    &&& 0 <= c.x < size
    &&& 0 <= c.y < size
}

/// Whether all cells of a body are pairwise distinct.
pub open spec fn body_distinct(body: Seq<Cell>) -> bool {
    forall|i: int, j: int| 0 <= i < j < body.len() ==> body[i] != body[j]
}

/// Whether the board still has a cell the body does not cover. The design
/// treats a body covering the whole board as unreachable (a de facto win
/// condition it does not model), so item placement may assume this.
pub open spec fn has_free_cell(body: Seq<Cell>, size: int) -> bool {
    exists|c: Cell| cell_in_range(c, size) && !body.contains(c)
}

/// Sentinel item position used before the first spawn.
pub open spec fn no_item() -> Cell {
    Cell { x: -1i32, y: -1i32 }
}

/// The queue after a tick: the oldest request is consumed, whether or not
/// it was adopted.
pub open spec fn pending_after(pending: Seq<Direction>) -> Seq<Direction> {
    if pending.len() > 0 {
        pending.remove(0)
    } else {
        pending
    }
}

/// The body after a tick's tail adjustment: growth pending keeps the tail
/// for one more tick, otherwise the tail (first element) is removed.
pub open spec fn trimmed_body(g: SnakeGame) -> Seq<Cell> {
    if g.growth_pending > 0 {
        g.body@
    } else {
        g.body@.remove(0)
    }
}

/// The growth counter after a tick's tail adjustment.
pub open spec fn trimmed_growth(g: SnakeGame) -> int {
    if g.growth_pending > 0 {
        g.growth_pending - 1
    } else {
        0
    }
}

/// The cell the head moves onto this tick: one step along the adopted
/// heading from the current head, wrapped onto the board.
pub open spec fn next_head(g: SnakeGame) -> Cell {
    let d = effective_heading(g.heading, g.pending_directions@);
    let head = g.body@.last();
    Cell {
        x: clamp_wrap(head.x + move_vector(d).0, 0, g.board.size as int) as i32,
        y: clamp_wrap(head.y + move_vector(d).1, 0, g.board.size as int) as i32,
    }
}

/// Whether this tick's move runs the head into the remaining body.
pub open spec fn tick_collides(g: SnakeGame) -> bool {
    trimmed_body(g).contains(next_head(g))
}

/// Whether this tick's move lands the head on the item.
pub open spec fn tick_eats(g: SnakeGame) -> bool {
    !tick_collides(g) && next_head(g) == g.item_pos
}

/// A queued request that exactly reverses the current heading is never
/// adopted: the tick keeps the heading it had.
pub proof fn lemma_reversal_rejected(heading: Direction, pending: Seq<Direction>)
    requires
        pending.len() > 0,
        is_reverse(pending[0], heading),
    ensures
        effective_heading(heading, pending) == heading,
{
}

/// Whether `b` exactly reverses `a`; executable twin of `is_reverse`.
pub fn direction_is_reverse(a: Direction, b: Direction) -> (r: bool)
    ensures
        r == is_reverse(a, b),
{
    match (a, b) {
        (Direction::Right, Direction::Left) => true,
        (Direction::Left, Direction::Right) => true,
        (Direction::Up, Direction::Down) => true,
        (Direction::Down, Direction::Up) => true,
        _ => false,
    }
}

/// Unit move vector of a heading; executable twin of `move_vector`.
pub fn direction_vector(d: Direction) -> (v: (i32, i32))
    ensures
        v.0 as int == move_vector(d).0,
        v.1 as int == move_vector(d).1,
{
    match d {
        Direction::Stopped => (0, 0),
        Direction::Right => (1, 0),
        Direction::Left => (-1, 0),
        Direction::Up => (0, -1),
        Direction::Down => (0, 1),
    }
}

/// The game state. The body is ordered tail-first: the head is the last
/// element. The game is mutated only by `queue_direction`, `advance_tick`
/// and `spawn_item`. The `lives` counter is carried for interface parity
/// only: no transition decrements it or branches on it, and a collision
/// ends the game regardless of its value.
pub struct SnakeGame {
    pub board: Board,
    pub body: Vec<Cell>,
    pub growth_pending: i32,
    pub heading: Direction,
    pub pending_directions: Vec<Direction>,
    pub item_pos: Cell,
    pub score: i32,
    pub lives: i8,
}

impl SnakeGame {
    /// Well-formedness, preserved by every operation: the board is positive,
    /// the body is nonempty, on the board and free of duplicate cells, the
    /// item is off the body (and on the board unless still the sentinel),
    /// the queue holds at most 4 requests and never `Stopped`, and the
    /// counters are non-negative.
    pub open spec fn wf(self) -> bool {
        &&& self.board.size > 0
        &&& self.body@.len() >= 1
        &&& body_distinct(self.body@)
        &&& (forall|i: int|
            0 <= i < self.body@.len() ==> cell_in_range(self.body@[i], self.board.size as int))
        &&& !self.body@.contains(self.item_pos)
        &&& (self.item_pos == no_item() || cell_in_range(self.item_pos, self.board.size as int))
        &&& 0 <= self.growth_pending
        &&& self.pending_directions@.len() <= 4
        &&& (forall|i: int|
            0 <= i < self.pending_directions@.len() ==> self.pending_directions@[i]
                != Direction::Stopped)
        &&& 0 <= self.score
    }

    /// A fresh session: a 4-cell horizontal body at the top-left corner,
    /// heading `Right`, empty queue, no item placed yet, score 0, 3 lives.
    pub fn new(size: i32) -> (g: SnakeGame)
        requires
            size >= 4,
        ensures
            g.wf(),
            g.board.size == size,
            g.body@ =~= seq![
                Cell { x: 0, y: 0 },
                Cell { x: 1, y: 0 },
                Cell { x: 2, y: 0 },
                Cell { x: 3, y: 0 },
            ],
            g.heading == Direction::Right,
            g.growth_pending == 0,
            g.pending_directions@ =~= Seq::<Direction>::empty(),
            g.item_pos == no_item(),
            g.score == 0,
            g.lives == 3,
    {
        let mut body: Vec<Cell> = Vec::new();
        body.push(Cell { x: 0, y: 0 });
        body.push(Cell { x: 1, y: 0 });
        body.push(Cell { x: 2, y: 0 });
        body.push(Cell { x: 3, y: 0 });
        SnakeGame {
            board: Board { size },
            body,
            growth_pending: 0,
            heading: Direction::Right,
            pending_directions: Vec::new(),
            item_pos: Cell { x: -1, y: -1 },
            score: 0,
            lives: 3,
        }
    }

    /// Records a direction request. `Stopped` is ignored, and so is any
    /// request arriving while 4 are already queued; otherwise the request is
    /// appended behind the older ones. Never fails, and the queue never
    /// exceeds 4 entries.
    pub fn queue_direction(&mut self, requested: Direction)
        requires
            old(self).wf(),
        ensures
            final(self).wf(),
            final(self).pending_directions@ == (if requested != Direction::Stopped && old(
                self,
            ).pending_directions@.len() < 4 {
                old(self).pending_directions@.push(requested)
            } else {
                old(self).pending_directions@
            }),
            final(self).pending_directions@.len() <= 4,
            final(self).board == old(self).board,
            final(self).body@ == old(self).body@,
            final(self).growth_pending == old(self).growth_pending,
            final(self).heading == old(self).heading,
            final(self).item_pos == old(self).item_pos,
            final(self).score == old(self).score,
            final(self).lives == old(self).lives,
    {
        let is_stop = match requested {
            Direction::Stopped => true,
            _ => false,
        };
        if !is_stop && self.pending_directions.len() < 4 {
            self.pending_directions.push(requested);
        }
    }

    /// Places the item on a random free cell, by rejection sampling: cells
    /// are drawn until one off the body comes up. After a bounded run of
    /// unlucky draws it falls back to scanning the board for a free cell,
    /// which the precondition guarantees to exist. Touches nothing but
    /// `item_pos`.
    pub fn spawn_item(&mut self)
        requires
            old(self).board.size > 0,
            has_free_cell(old(self).body@, old(self).board.size as int),
        ensures
            final(self).board == old(self).board,
            final(self).body@ == old(self).body@,
            final(self).growth_pending == old(self).growth_pending,
            final(self).heading == old(self).heading,
            final(self).pending_directions@ == old(self).pending_directions@,
            final(self).score == old(self).score,
            final(self).lives == old(self).lives,
            cell_in_range(final(self).item_pos, final(self).board.size as int),
            !final(self).body@.contains(final(self).item_pos),
            old(self).wf() ==> final(self).wf(),
    {
        let mut tries: usize = 0;
        while tries < 64
            invariant
                self.board.size > 0,
                self.board == old(self).board,
                self.body@ == old(self).body@,
                self.growth_pending == old(self).growth_pending,
                self.heading == old(self).heading,
                self.pending_directions@ == old(self).pending_directions@,
                self.item_pos == old(self).item_pos,
                self.score == old(self).score,
                self.lives == old(self).lives,
            decreases 64 - tries,
        {
            let pos = self.board.random_cell();
            if !body_contains(&self.body, pos) {
                self.item_pos = pos;
                return ;
            }
            tries = tries + 1;
        }
        let size: i32 = self.board.size;
        let mut x: i32 = 0;
        while x < size
            invariant
                0 <= x <= size,
                size == self.board.size,
                self.board == old(self).board,
                self.body@ == old(self).body@,
                self.growth_pending == old(self).growth_pending,
                self.heading == old(self).heading,
                self.pending_directions@ == old(self).pending_directions@,
                self.item_pos == old(self).item_pos,
                self.score == old(self).score,
                self.lives == old(self).lives,
                forall|cx: i32, cy: i32|
                    0 <= cx < x && 0 <= cy < size ==> self.body@.contains(Cell { x: cx, y: cy }),
            decreases size - x,
        {
            let mut y: i32 = 0;
            while y < size
                invariant
                    0 <= y <= size,
                    0 <= x < size,
                    size == self.board.size,
                    self.board == old(self).board,
                    self.body@ == old(self).body@,
                    self.growth_pending == old(self).growth_pending,
                    self.heading == old(self).heading,
                    self.pending_directions@ == old(self).pending_directions@,
                    self.item_pos == old(self).item_pos,
                    self.score == old(self).score,
                    self.lives == old(self).lives,
                    forall|cx: i32, cy: i32|
                        0 <= cx < x && 0 <= cy < size ==> self.body@.contains(
                            Cell { x: cx, y: cy },
                        ),
                    forall|cy: i32| 0 <= cy < y ==> self.body@.contains(Cell { x: x, y: cy }),
                decreases size - y,
            {
                let pos = Cell { x, y };
                if !body_contains(&self.body, pos) {
                    self.item_pos = pos;
                    return ;
                }
                y = y + 1;
            }
            x = x + 1;
        }
        proof {
            let c0 = choose|c: Cell|
                cell_in_range(c, self.board.size as int) && !self.body@.contains(c);
            assert(self.body@.contains(Cell { x: c0.x, y: c0.y }));
            assert(false);
        }
        vstd::pervasive::unreached()
    }

    /// One simulation step, in order: adopt the oldest queued request unless
    /// it reverses the heading; adjust the tail (kept while growth is
    /// pending, removed otherwise); step the head one cell along the heading
    /// with wrap-around; detect self-collision against the remaining body
    /// (`GameOver`, the new head is not added); otherwise append the new
    /// head, and if it landed on the item, score, schedule growth and place
    /// a fresh item (`AteItem`); otherwise `Continue`.
    ///
    /// The preconditions beyond well-formedness only rule out what the
    /// machine cannot represent: counters at the very top of their type,
    /// and eating on a board whose every cell the grown body would cover
    /// (there the item would have nowhere to land).
    pub fn advance_tick(&mut self) -> (r: TickResult)
        requires
            old(self).wf(),
            old(self).score < i32::MAX,
            old(self).growth_pending < i32::MAX,
            tick_eats(*old(self)) ==> has_free_cell(
                trimmed_body(*old(self)).push(next_head(*old(self))),
                old(self).board.size as int,
            ),
        ensures
            final(self).wf(),
            final(self).board == old(self).board,
            final(self).lives == old(self).lives,
            final(self).heading == effective_heading(
                old(self).heading,
                old(self).pending_directions@,
            ),
            final(self).pending_directions@ == pending_after(old(self).pending_directions@),
            (r == TickResult::GameOver) <==> tick_collides(*old(self)),
            (r == TickResult::AteItem) <==> tick_eats(*old(self)),
            r == TickResult::GameOver ==> {
                &&& final(self).body@ == trimmed_body(*old(self))
                &&& final(self).score == old(self).score
                &&& final(self).item_pos == old(self).item_pos
                &&& final(self).growth_pending == trimmed_growth(*old(self))
            },
            r != TickResult::GameOver ==> final(self).body@ == trimmed_body(*old(self)).push(
                next_head(*old(self)),
            ),
            r == TickResult::AteItem ==> {
                &&& final(self).score == old(self).score + 1
                &&& final(self).growth_pending == trimmed_growth(*old(self)) + 1
                &&& cell_in_range(final(self).item_pos, old(self).board.size as int)
                &&& !final(self).body@.contains(final(self).item_pos)
                &&& final(self).body@.len() + final(self).growth_pending == old(self).body@.len()
                    + old(self).growth_pending + 1
            },
            r == TickResult::AteItem && old(self).growth_pending > 0 ==> final(self).body@.len()
                == old(self).body@.len() + 1,
            r == TickResult::Continue ==> {
                &&& final(self).score == old(self).score
                &&& final(self).growth_pending == trimmed_growth(*old(self))
                &&& final(self).item_pos == old(self).item_pos
                &&& final(self).body@.len() + final(self).growth_pending == old(
                    self,
                ).body@.len() + old(self).growth_pending
            },
    {
        if self.pending_directions.len() > 0 {
            let d = self.pending_directions[0];
            if !direction_is_reverse(d, self.heading) {
                self.heading = d;
            }
            self.pending_directions.remove(0);
        }
        let v = direction_vector(self.heading);
        let head = self.body[self.body.len() - 1];
        if self.growth_pending > 0 {
            self.growth_pending = self.growth_pending - 1;
        } else {
            self.body.remove(0);
        }
        let new_head = Cell {
            x: self.board.clamp_wrap(head.x + v.0),
            y: self.board.clamp_wrap(head.y + v.1),
        };
        if body_contains(&self.body, new_head) {
            return TickResult::GameOver;
        }
        self.body.push(new_head);
        if new_head == self.item_pos {
            self.score = self.score + 1;
            self.growth_pending = self.growth_pending + 1;
            self.spawn_item();
            return TickResult::AteItem;
        }
        TickResult::Continue
    }
}

/// Whether `c` occurs among the cells of `body`.
pub fn body_contains(body: &Vec<Cell>, c: Cell) -> (r: bool)
    ensures
        r == body@.contains(c),
{
    let mut i: usize = 0;
    while i < body.len()
        invariant
            0 <= i <= body@.len(),
            forall|j: int| 0 <= j < i ==> body@[j] != c,
        decreases body@.len() - i,
    {
        if body[i] == c {
            return true;
        }
        i = i + 1;
    }
    false
}

} // verus!

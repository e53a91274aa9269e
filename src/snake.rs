use vstd::prelude::*;

use crate::food::Food;
use crate::grid::{
    occupies, offset_cell, opposite_of, position_in, step_cell, unit, Cell, Direction, Grid,
    Position,
};

verus! {

/// The snake's cells after one move in direction `d`: a new head next to the
/// old one, and every other segment in the place of its predecessor.
pub open spec fn moved(s: Seq<Cell>, d: Direction) -> Seq<Cell>
    recommends
        s.len() >= 1,
{
    seq![step_cell(s[0], d)] + s.drop_last()
}

/// The snake's cells after `n` moves in direction `d`.
pub open spec fn advanced(s: Seq<Cell>, d: Direction, n: nat) -> Seq<Cell>
    decreases n,
{
    if n == 0 {
        s
    } else {
        moved(advanced(s, d, (n - 1) as nat), d)
    }
}

/// The facing of a snake's head.
#[derive(PartialEq, Eq, Structural, Clone, Copy, Debug)]
pub struct SnakeHead {
    pub direction: Direction,
}

/// A snake: its segments, head first, and the way its head faces.
#[derive(Clone, Debug)]
pub struct Snake {
    head: SnakeHead,
    segments: Vec<Position>,
}

/// What one move of the snake leaves behind: the segments as they were before
/// the move, and the cell its tail left.
#[derive(Clone, Debug)]
pub struct MoveOutcome {
    pub pre_move_segments: Vec<Position>,
    pub last_tail: Position,
}

/// The cells of a sequence of positions.
pub open spec fn cells_of(s: Seq<Position>) -> Seq<Cell> {
    s.map_values(|p: Position| p.cell())
}

impl Snake {
    pub open spec fn cells(&self) -> Seq<Cell> {
        cells_of(self.positions())
    }

    pub closed spec fn positions(&self) -> Seq<Position> {
        self.segments@
    }

    pub closed spec fn facing(&self) -> Direction {
        self.head.direction
    }

    /// A snake always has a head and at least one more segment.
    pub open spec fn wf(&self) -> bool {
        self.positions().len() >= 2
    }

    /// Whether the head can take one more step without leaving `i32`.
    pub open spec fn can_advance(&self) -> bool {
        &&& i32::MIN < self.positions()[0].x < i32::MAX
        &&& i32::MIN < self.positions()[0].y < i32::MAX
    }

    /// A snake made of the given segments, head first, facing `direction`.
    pub fn from_parts(segments: Vec<Position>, direction: Direction) -> (r: Snake)
        requires
            segments@.len() >= 2,
        ensures
            r.wf(),
            r.positions() == segments@,
            r.facing() == direction,
    {
        Snake { head: SnakeHead { direction }, segments }
    }

    pub fn direction(&self) -> (r: Direction)
        ensures
            r == self.facing(),
    {
        self.head.direction
    }

    pub fn head_position(&self) -> (r: Position)
        requires
            self.wf(),
        ensures
            r == self.positions()[0],
    {
        self.segments[0]
    }

    pub fn len(&self) -> (r: usize)
        ensures
            r == self.positions().len(),
    {
        self.segments.len()
    }

    /// The segments, head first.
    pub fn segments(&self) -> (r: &Vec<Position>)
        ensures
            r@ == self.positions(),
    {
        &self.segments
    }

    /// Turns the head to `requested`, unless that is the exact reverse of the
    /// current facing, which is ignored.
    pub fn set_direction(&mut self, requested: Direction)
        ensures
            final(self).positions() == old(self).positions(),
            requested == opposite_of(old(self).facing()) ==> final(self).facing() == old(
                self,
            ).facing(),
            requested != opposite_of(old(self).facing()) ==> final(self).facing() == requested,
    {
        if requested != self.head.direction.opposite() {
            self.head.direction = requested;
        }
    }

    /// Moves the snake one cell in the direction it faces. The move is made
    /// whatever lies ahead; the caller decides whether it was fatal.
    pub fn advance(&mut self) -> (r: MoveOutcome)
        requires
            old(self).wf(),
            old(self).can_advance(),
        ensures
            final(self).wf(),
            final(self).facing() == old(self).facing(),
            final(self).cells() == moved(old(self).cells(), old(self).facing()),
            final(self).positions().len() == old(self).positions().len(),
            final(self).positions().drop_first() == old(self).positions().drop_last(),
            r.pre_move_segments@ == old(self).positions(),
            r.last_tail == old(self).positions().last(),
    {
        let pre = self.segments.clone();
        let n = pre.len();
        let last_tail = pre[n - 1];
        let new_head = pre[0].step(self.head.direction);
        let mut segs: Vec<Position> = Vec::with_capacity(n);
        segs.push(new_head);
        let mut i: usize = 0;
        while i < n - 1
            invariant
                n == pre@.len(),
                n >= 2,
                i <= n - 1,
                segs@.len() == i + 1,
                segs@[0] == new_head,
                forall|j: int| 0 <= j < i ==> segs@[j + 1] == pre@[j],
            decreases n - 1 - i,
        {
            segs.push(pre[i]);
            i = i + 1;
        }
        proof {
            assert(segs@.drop_first() =~= pre@.drop_last());
            let c = cells_of(segs@);
            let m = moved(cells_of(pre@), self.head.direction);
            assert(c.len() == m.len());
            assert forall|j: int| 0 <= j < c.len() implies c[j] == m[j] by {
                if j > 0 {
                    assert(segs@[j] == pre@[j - 1]);
                }
            }
            assert(c =~= m);
        }
        self.segments = segs;
        MoveOutcome { pre_move_segments: pre, last_tail }
    }

    /// Whether a segment of the snake lies on `p`; the head is left out when
    /// `excluding_head` is set.
    pub fn contains(&self, p: Position, excluding_head: bool) -> (r: bool)
        ensures
            r == exists|i: int|
                (if excluding_head { 1int } else { 0int }) <= i < self.positions().len()
                    && self.positions()[i] == p,
    {
        let mut i: usize = if excluding_head { 1 } else { 0 };
        let start: usize = i;
        while i < self.segments.len()
            invariant
                start == (if excluding_head { 1int } else { 0int }),
                start <= i,
                forall|j: int| start <= j < i ==> j < self.segments@.len() && self.segments@[j] != p,
            decreases self.segments@.len() - i,
        {
            if self.segments[i] == p {
                assert(self.positions()[i as int] == p);
                return true;
            }
            i = i + 1;
        }
        false
    }

    /// Appends a segment at `at`, normally the cell the tail left on the
    /// move just made.
    pub fn grow(&mut self, at: Position)
        requires
            old(self).wf(),
        ensures
            final(self).wf(),
            final(self).facing() == old(self).facing(),
            final(self).positions() == old(self).positions().push(at),
    {
        self.segments.push(at);
    }
}

/// The snake of a new round: head at (3, 3), one segment at (3, 2),
/// facing up.
pub fn spawn_snake() -> (r: Snake)
    ensures
        r.wf(),
        r.positions() == initial_positions(),
        r.facing() == Direction::Up,
{
    let segments = vec![Position { x: 3, y: 3 }, Position { x: 3, y: 2 }];
    Snake::from_parts(segments, Direction::Up)
}

/// One piece of food was eaten: the snake owes a segment at `at`.
#[derive(PartialEq, Eq, Structural, Clone, Copy, Debug)]
pub struct GrowthEvent {
    pub at: Position,
}

/// The cell the tail left on the last move, if the snake has moved.
#[derive(PartialEq, Eq, Structural, Clone, Copy, Debug)]
pub struct LastTailPosition(pub Option<Position>);

/// Applies the direction sampled on this tick, if any; a reversal is ignored.
pub fn snake_movement_input(snake: &mut Snake, input: Option<Direction>)
    ensures
        final(snake).positions() == old(snake).positions(),
        final(snake).facing() == match input {
            Some(d) => if d == opposite_of(old(snake).facing()) {
                old(snake).facing()
            } else {
                d
            },
            None => old(snake).facing(),
        },
{
    if let Some(d) = input {
        snake.set_direction(d);
    }
}

/// Whether the snake's head would hit something: it left the board, or it
/// stands on a segment as the segments were before the move.
pub open spec fn is_fatal(grid: Grid, head: Cell, pre_move: Seq<Cell>) -> bool {
    !grid.holds(head) || exists|i: int| 0 <= i < pre_move.len() && pre_move[i] == head
}

/// The segments of a snake at the start of a round.
pub open spec fn initial_positions() -> Seq<Position> {
    seq![Position { x: 3, y: 3 }, Position { x: 3, y: 2 }]
}

/// Moves the snake one cell and reports whether the move ended the round.
pub fn snake_movement(snake: &mut Snake, grid: &Grid) -> (r: (MoveOutcome, bool))
    requires
        old(snake).wf(),
        grid.wf(),
        grid.holds(old(snake).cells()[0]),
    ensures
        final(snake).wf(),
        final(snake).facing() == old(snake).facing(),
        final(snake).cells() == moved(old(snake).cells(), old(snake).facing()),
        final(snake).positions().len() == old(snake).positions().len(),
        final(snake).positions().drop_first() == old(snake).positions().drop_last(),
        r.0.pre_move_segments@ == old(snake).positions(),
        r.0.last_tail == old(snake).positions().last(),
        r.1 == is_fatal(*grid, final(snake).cells()[0], old(snake).cells()),
{
    assert(old(snake).cells()[0] == old(snake).positions()[0].cell());
    let ghost pre = old(snake).positions();
    let outcome = snake.advance();
    let head = snake.head_position();
    assert(snake.cells()[0] == head.cell());
    let on_body = position_in(&outcome.pre_move_segments, head);
    proof {
        let pc = cells_of(pre);
        if on_body {
            let i = choose|i: int| 0 <= i < pre.len() && pre[i] == head;
            assert(pc[i] == head.cell());
        }
        if exists|i: int| 0 <= i < pc.len() && pc[i] == head.cell() {
            let i = choose|i: int| 0 <= i < pc.len() && pc[i] == head.cell();
            assert(pre[i].cell() == head.cell());
            assert(pre[i] == head);
        }
    }
    let fatal = !grid.contains(head) || on_body;
    (outcome, fatal)
}

/// Eats the food if the head stands on it: the food is gone and the snake
/// owes a segment at `last_tail`.
pub fn snake_eating(food: &mut Option<Food>, head: Position, last_tail: Position) -> (r: Option<
    GrowthEvent,
>)
    ensures
        (*old(food) matches Some(f) && f.position == head) ==> *final(food) == None::<Food> && r == Some(
            GrowthEvent { at: last_tail },
        ),
        !(*old(food) matches Some(f) && f.position == head) ==> *final(food) == *old(food)
            && r is None,
{
    match *food {
        Some(f) => {
            if f.position == head {
                *food = None;
                Some(GrowthEvent { at: last_tail })
            } else {
                None
            }
        },
        None => None,
    }
}

/// Adds the owed segment, if any.
pub fn snake_growth(snake: &mut Snake, growth: Option<GrowthEvent>)
    requires
        old(snake).wf(),
    ensures
        final(snake).wf(),
        final(snake).facing() == old(snake).facing(),
        final(snake).positions() == match growth {
            Some(g) => old(snake).positions().push(g.at),
            None => old(snake).positions(),
        },
{
    if let Some(g) = growth {
        snake.grow(g.at);
    }
}

/// Moving `n` times without turning puts the head `n` steps ahead along the
/// facing, and segment `i` where the head stood `i` moves ago: each segment
/// follows the head's path one move behind its predecessor.
pub proof fn lemma_straight_moves(s: Seq<Cell>, d: Direction, n: nat)
    requires
        s.len() >= 1,
    ensures
        advanced(s, d, n).len() == s.len(),
        advanced(s, d, n)[0] == offset_cell(s[0], d, n as int),
        forall|i: int|
            0 <= i < s.len() && i <= n ==> #[trigger] advanced(s, d, n)[i] == offset_cell(
                s[0],
                d,
                n - i,
            ),
    decreases n,
{
    if n > 0 {
        let prev = advanced(s, d, (n - 1) as nat);
        lemma_straight_moves(s, d, (n - 1) as nat);
        let cur = advanced(s, d, n);
        assert(cur == moved(prev, d));
        assert forall|i: int| 0 <= i < s.len() && i <= n implies #[trigger] cur[i] == offset_cell(
            s[0],
            d,
            n - i,
        ) by {
            if i == 0 {
                let u = unit(d);
                let m = n as int;
                assert((m - 1) * u.0 + u.0 == m * u.0) by (nonlinear_arith);
                assert((m - 1) * u.1 + u.1 == m * u.1) by (nonlinear_arith);
                assert(cur[0] == step_cell(prev[0], d));
            } else {
                assert(cur[i] == prev[i - 1]);
            }
        }
        assert(cur[0] == step_cell(prev[0], d));
    }
}

} // verus!

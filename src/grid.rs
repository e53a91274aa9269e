use vstd::prelude::*;

verus! {

/// A cell of the board, as a pair of mathematical integers.
pub type Cell = (int, int);

/// An integer coordinate on the board.
#[derive(PartialEq, Eq, Structural, Clone, Copy, Debug, Hash)]
pub struct Position {
    pub x: i32,
    pub y: i32,
}

impl Position {
    pub open spec fn cell(self) -> Cell {
        (self.x as int, self.y as int)
    }
}

/// One of the four directions a snake can face.
#[derive(PartialEq, Eq, Structural, Clone, Copy, Debug, Hash)]
pub enum Direction {
    Left,
    Up,
    Right,
    Down,
}

pub open spec fn opposite_of(d: Direction) -> Direction {
    match d {
        Direction::Left => Direction::Right,
        Direction::Right => Direction::Left,
        Direction::Up => Direction::Down,
        Direction::Down => Direction::Up,
    }
}

impl Direction {
    /// The direction pointing the other way.
    pub fn opposite(self) -> (r: Direction)
        ensures
            r == opposite_of(self),
    {
        match self {
            Direction::Left => Direction::Right,
            Direction::Right => Direction::Left,
            Direction::Up => Direction::Down,
            Direction::Down => Direction::Up,
        }
    }
}

/// The unit step taken when moving one cell in direction `d`.
pub open spec fn unit(d: Direction) -> Cell {
    match d {
        Direction::Left => (-1, 0),
        Direction::Right => (1, 0),
        Direction::Up => (0, 1),
        Direction::Down => (0, -1),
    }
}

/// The cell next to `c` in direction `d`.
pub open spec fn step_cell(c: Cell, d: Direction) -> Cell {
    (c.0 + unit(d).0, c.1 + unit(d).1)
}

/// The cell `n` steps away from `c` in direction `d`.
pub open spec fn offset_cell(c: Cell, d: Direction, n: int) -> Cell {
    (c.0 + n * unit(d).0, c.1 + n * unit(d).1)
}

/// Whether `c` lies on a board of the given size.
pub open spec fn in_bounds(c: Cell, width: int, height: int) -> bool {
    0 <= c.0 < width && 0 <= c.1 < height
}

impl Position {
    /// The position one step away in direction `d`.
    pub fn step(self, d: Direction) -> (r: Position)
        requires
            i32::MIN < self.x < i32::MAX,
            i32::MIN < self.y < i32::MAX,
        ensures
            r.cell() == step_cell(self.cell(), d),
    {
        match d {
            Direction::Left => Position { x: self.x - 1, y: self.y },
            Direction::Right => Position { x: self.x + 1, y: self.y },
            Direction::Up => Position { x: self.x, y: self.y + 1 },
            Direction::Down => Position { x: self.x, y: self.y - 1 },
        }
    }
}

/// The board: cells with `0 <= x < width` and `0 <= y < height`.
#[derive(PartialEq, Eq, Structural, Clone, Copy, Debug)]
pub struct Grid {
    pub width: i32,
    pub height: i32,
}

/// Whether `p` is one of the positions in `s`.
pub open spec fn occupies(s: Seq<Position>, p: Position) -> bool {
    exists|i: int| 0 <= i < s.len() && s[i] == p
}

impl Grid {
    pub open spec fn wf(&self) -> bool {
        self.width > 0 && self.height > 0
    }

    pub open spec fn holds(&self, c: Cell) -> bool {
        in_bounds(c, self.width as int, self.height as int)
    }

    /// Every cell of the board is taken by some position of `occupied`.
    pub open spec fn is_full(&self, occupied: Seq<Position>) -> bool {
        forall|x: i32, y: i32|
            0 <= x < self.width && 0 <= y < self.height ==> #[trigger] occupies(
                occupied,
                Position { x, y },
            )
    }

    /// Whether `p` lies on the board.
    pub fn contains(&self, p: Position) -> (r: bool)
        ensures
            r == self.holds(p.cell()),
    {
        0 <= p.x && p.x < self.width && 0 <= p.y && p.y < self.height
    }

    /// A cell of the board outside `occupied`, drawn at random with each
    /// free cell equally likely; `None` when the board is full.
    pub fn random_free_cell(&self, occupied: &Vec<Position>) -> (r: Option<Position>)
        requires
            self.wf(),
        ensures
            r is None <==> self.is_full(occupied@),
            r matches Some(p) ==> self.holds(p.cell()) && !occupies(occupied@, p),
    {
        let mut tries: u32 = 0;
        while tries < SAMPLING_TRIES
            invariant
                self.wf(),
            decreases SAMPLING_TRIES - tries,
        {
            let x = random_below(self.width as usize) as i32;
            let y = random_below(self.height as usize) as i32;
            let p = Position { x, y };
            if !position_in(occupied, p) {
                assert(!occupies(occupied@, Position { x: p.x, y: p.y }));
                return Some(p);
            }
            tries = tries + 1;
        }
        let free = self.free_cells(occupied);
        if free.len() == 0 {
            None
        } else {
            let k = random_below(free.len());
            assert(self.holds(free@[k as int].cell()));
            Some(free[k])
        }
    }

    /// All cells of the board outside `occupied`, row by row.
    pub fn free_cells(&self, occupied: &Vec<Position>) -> (r: Vec<Position>)
        requires
            self.wf(),
        ensures
            r@.len() == 0 <==> self.is_full(occupied@),
            forall|i: int|
                0 <= i < r@.len() ==> self.holds(#[trigger] r@[i].cell()) && !occupies(
                    occupied@,
                    r@[i],
                ),
    {
        let mut free: Vec<Position> = Vec::new();
        let mut y: i32 = 0;
        while y < self.height
            invariant
                self.wf(),
                0 <= y <= self.height,
                free@.len() <= (y as int) * (self.width as int),
                forall|i: int|
                    0 <= i < free@.len() ==> self.holds(#[trigger] free@[i].cell()) && !occupies(
                        occupied@,
                        free@[i],
                    ),
                free@.len() == 0 ==> forall|a: i32, b: i32|
                    0 <= a < self.width && 0 <= b < y ==> #[trigger] occupies(
                        occupied@,
                        Position { x: a, y: b },
                    ),
            decreases self.height - y,
        {
            let mut x: i32 = 0;
            while x < self.width
                invariant
                    self.wf(),
                    0 <= y < self.height,
                    0 <= x <= self.width,
                    free@.len() <= (y as int) * (self.width as int) + x,
                    forall|i: int|
                        0 <= i < free@.len() ==> self.holds(#[trigger] free@[i].cell())
                            && !occupies(occupied@, free@[i]),
                    free@.len() == 0 ==> forall|a: i32, b: i32|
                        (0 <= a < self.width && 0 <= b < y) || (0 <= a < x && b == y)
                            ==> #[trigger] occupies(occupied@, Position { x: a, y: b }),
                decreases self.width - x,
            {
                let p = Position { x, y };
                if !position_in(occupied, p) {
                    free.push(p);
                }
                x = x + 1;
            }
            proof {
                assert((y as int) * (self.width as int) + (self.width as int) == (y as int + 1) * (
                self.width as int)) by (nonlinear_arith);
            }
            y = y + 1;
        }
        proof {
            if free@.len() > 0 {
                let q = free@[0];
                assert(self.holds(q.cell()));
                assert(!occupies(occupied@, Position { x: q.x, y: q.y }));
            }
        }
        free
    }
}

/// How many cells are drawn at random before the free cells are listed.
pub const SAMPLING_TRIES: u32 = 64;

/// Whether `p` is one of the positions in `v`.
pub fn position_in(v: &Vec<Position>, p: Position) -> (r: bool)
    ensures
        r == occupies(v@, p),
{
    let mut i: usize = 0;
    while i < v.len()
        invariant
            i <= v@.len(),
            forall|j: int| 0 <= j < i ==> v@[j] != p,
        decreases v@.len() - i,
    {
        if v[i] == p {
            return true;
        }
        i = i + 1;
    }
    false
}

/// Relies on rand::thread_rng and rand::Rng::gen_range: a number drawn
/// uniformly from `0..bound`, which gen_range asserts is not empty.
#[verifier::external_body]
fn random_below(bound: usize) -> (r: usize)
    requires
        bound > 0,
    ensures
        r < bound,
{
    rand::Rng::gen_range(&mut rand::thread_rng(), 0..bound)
}

} // verus!

use vstd::prelude::*;

use crate::food::{should_spawn_food, spawn_food, Food};
use crate::grid::{occupies, Direction, Grid, Position};
use crate::snake::{
    initial_positions, is_fatal, moved, snake_eating, snake_growth, snake_movement,
    snake_movement_input, spawn_snake, LastTailPosition, Snake,
};
use crate::timer::{should_move_snake, update_snake_timer, SnakeTimer, Timer};

verus! {

/// Where a round stands.
#[derive(PartialEq, Eq, Structural, Clone, Copy, Debug)]
pub enum SessionState {
    Running,
    GameOver,
}

/// What a piece on the board is, for whoever draws it.
#[derive(PartialEq, Eq, Structural, Clone, Copy, Debug)]
pub enum Role {
    Head,
    Body,
    Food,
}

/// What happened on one tick. `state` is `GameOver` on the tick where the
/// round ended; the board was then set up for the next round at once.
#[derive(PartialEq, Eq, Structural, Clone, Copy, Debug)]
pub struct TickReport {
    pub moved: bool,
    pub ate: bool,
    pub state: SessionState,
    pub food_spawned: bool,
    pub board_full: bool,
}

/// The facing after the direction sampled on a tick is applied.
pub open spec fn turned(facing: Direction, input: Option<Direction>) -> Direction {
    match input {
        Some(d) => if d == crate::grid::opposite_of(facing) {
            facing
        } else {
            d
        },
        None => facing,
    }
}

/// One game: the board, the snake, the food, and the two timers that pace
/// the snake's moves and the food's appearance.
#[derive(Clone, Debug)]
pub struct RoundController {
    grid: Grid,
    snake: Snake,
    food: Option<Food>,
    move_timer: SnakeTimer,
    food_timer: Timer,
    last_tail: LastTailPosition,
}

impl RoundController {
    pub closed spec fn grid_spec(&self) -> Grid {
        self.grid
    }

    pub closed spec fn snake_spec(&self) -> Snake {
        self.snake
    }

    pub closed spec fn food_spec(&self) -> Option<Food> {
        self.food
    }

    pub closed spec fn move_timer_spec(&self) -> Timer {
        self.move_timer.0
    }

    pub closed spec fn food_timer_spec(&self) -> Timer {
        self.food_timer
    }

    pub closed spec fn last_tail_spec(&self) -> Option<Position> {
        self.last_tail.0
    }

    /// The board holds the starting layout, the snake's head is on the
    /// board, and so is the food.
    pub open spec fn wf(&self) -> bool {
        &&& self.grid_spec().wf()
        &&& self.grid_spec().width >= 4
        &&& self.grid_spec().height >= 4
        &&& self.snake_spec().wf()
        &&& self.grid_spec().holds(self.snake_spec().cells()[0])
        &&& (self.food_spec() matches Some(f) ==> self.grid_spec().holds(f.position.cell()))
        &&& self.move_timer_spec().wf()
        &&& self.food_timer_spec().wf()
    }

    /// A game on a board of `width` by `height` cells, with the snake of a
    /// new round and no food. Intervals are in nanoseconds.
    pub fn new(width: i32, height: i32, move_interval: u64, food_interval: u64) -> (r:
        RoundController)
        requires
            width >= 4,
            height >= 4,
            move_interval > 0,
            food_interval > 0,
        ensures
            r.wf(),
            r.grid_spec() == (Grid { width, height }),
            r.snake_spec().positions() == initial_positions(),
            r.snake_spec().facing() == Direction::Up,
            r.food_spec() is None,
            r.move_timer_spec().interval_spec() == move_interval,
            r.move_timer_spec().elapsed_spec() == 0,
            r.food_timer_spec().interval_spec() == food_interval,
            r.food_timer_spec().elapsed_spec() == 0,
            r.last_tail_spec() is None,
    {
        let snake = spawn_snake();
        assert(snake.cells()[0] == snake.positions()[0].cell());
        RoundController {
            grid: Grid { width, height },
            snake,
            food: None,
            move_timer: SnakeTimer(Timer::new(move_interval)),
            food_timer: Timer::new(food_interval),
            last_tail: LastTailPosition(None),
        }
    }

    /// A game that starts from the given snake and food.
    pub fn with_snake(
        width: i32,
        height: i32,
        snake: Snake,
        food: Option<Food>,
        move_interval: u64,
        food_interval: u64,
    ) -> (r: RoundController)
        requires
            width >= 4,
            height >= 4,
            move_interval > 0,
            food_interval > 0,
            snake.wf(),
            (Grid { width, height }).holds(snake.cells()[0]),
            food matches Some(f) ==> (Grid { width, height }).holds(f.position.cell()),
        ensures
            r.wf(),
            r.grid_spec() == (Grid { width, height }),
            r.snake_spec() == snake,
            r.food_spec() == food,
            r.move_timer_spec().interval_spec() == move_interval,
            r.move_timer_spec().elapsed_spec() == 0,
            r.food_timer_spec().interval_spec() == food_interval,
            r.food_timer_spec().elapsed_spec() == 0,
            r.last_tail_spec() is None,
    {
        RoundController {
            grid: Grid { width, height },
            snake,
            food,
            move_timer: SnakeTimer(Timer::new(move_interval)),
            food_timer: Timer::new(food_interval),
            last_tail: LastTailPosition(None),
        }
    }

    pub fn grid(&self) -> (r: Grid)
        ensures
            r == self.grid_spec(),
    {
        self.grid
    }

    pub fn snake(&self) -> (r: &Snake)
        ensures
            *r == self.snake_spec(),
    {
        &self.snake
    }

    pub fn food(&self) -> (r: Option<Food>)
        ensures
            r == self.food_spec(),
    {
        self.food
    }

    /// The cell the tail left on the last move, if the snake has moved
    /// since the round began.
    pub fn last_tail(&self) -> (r: Option<Position>)
        ensures
            r == self.last_tail_spec(),
    {
        self.last_tail.0
    }

    /// Ends the round: the food goes, and the snake of a new round takes
    /// the place of the old one.
    fn game_over(&mut self)
        requires
            old(self).grid_spec().wf(),
            old(self).grid_spec().width >= 4,
            old(self).grid_spec().height >= 4,
            old(self).move_timer_spec().wf(),
            old(self).food_timer_spec().wf(),
        ensures
            final(self).wf(),
            final(self).grid_spec() == old(self).grid_spec(),
            final(self).snake_spec().positions() == initial_positions(),
            final(self).snake_spec().facing() == Direction::Up,
            final(self).food_spec() is None,
            final(self).move_timer_spec() == old(self).move_timer_spec(),
            final(self).food_timer_spec() == old(self).food_timer_spec(),
            final(self).last_tail_spec() is None,
    {
        self.food = None;
        self.snake = spawn_snake();
        self.last_tail = LastTailPosition(None);
        assert(self.snake.cells()[0] == self.snake.positions()[0].cell());
    }

    /// Runs one tick of `delta` nanoseconds with the direction sampled on
    /// it. In order: the snake turns; the timers run; if the move timer
    /// fired, the snake moves, and a move off the board or onto its own
    /// body ends the round, else food under the new head is eaten and the
    /// snake grows at the cell its tail left; last, if no food lies on the
    /// board and the food timer fired, food is placed on a free cell.
    pub fn tick(&mut self, delta: u64, input: Option<Direction>) -> (r: TickReport)
        requires
            old(self).wf(),
        ensures
            final(self).wf(),
            final(self).grid_spec() == old(self).grid_spec(),
            ({
                let grid = old(self).grid_spec();
                let pre = old(self).snake_spec().cells();
                let d = turned(old(self).snake_spec().facing(), input);
                let after = moved(pre, d);
                let mt = old(self).move_timer_spec();
                let ft = old(self).food_timer_spec();
                let post = final(self).snake_spec();
                let over = r.state == SessionState::GameOver;
                let food_left = if over || r.ate {
                    None
                } else {
                    old(self).food_spec()
                };
                let due = food_left is None && ft.elapsed_spec() + delta >= ft.interval_spec();
                &&& r.moved == (mt.elapsed_spec() + delta >= mt.interval_spec())
                &&& final(self).move_timer_spec().elapsed_spec() == (mt.elapsed_spec() + delta)
                    % (mt.interval_spec() as int)
                &&& final(self).food_timer_spec().elapsed_spec() == (ft.elapsed_spec() + delta)
                    % (ft.interval_spec() as int)
                &&& over == (r.moved && is_fatal(grid, after[0], pre))
                &&& over ==> post.positions() == initial_positions() && post.facing()
                    == Direction::Up && !r.ate
                &&& !over ==> post.facing() == d
                &&& !r.moved ==> post.positions() == old(self).snake_spec().positions() && !r.ate
                &&& r.moved && !over ==> r.ate == (old(self).food_spec() matches Some(f)
                    && f.position.cell() == after[0])
                &&& r.moved && !over && r.ate ==> post.cells() == after.push(pre.last())
                &&& r.moved && !over && !r.ate ==> post.cells() == after
                &&& r.moved && !over ==> final(self).last_tail_spec() == Some(
                    old(self).snake_spec().positions().last(),
                )
                &&& over ==> final(self).last_tail_spec() is None
                &&& !r.moved ==> final(self).last_tail_spec() == old(self).last_tail_spec()
                &&& !over ==> post.positions().len() >= old(self).snake_spec().positions().len()
                &&& over ==> post.positions().len() == 2
                &&& r.food_spawned == (due && !r.board_full)
                &&& r.board_full ==> due && grid.is_full(post.positions())
                &&& due ==> (r.board_full <==> grid.is_full(post.positions()))
                &&& !due ==> final(self).food_spec() == food_left && !r.board_full
                &&& r.food_spawned ==> (final(self).food_spec() matches Some(f) && grid.holds(
                    f.position.cell(),
                ) && !occupies(post.positions(), f.position))
            }),
    {
        snake_movement_input(&mut self.snake, input);
        update_snake_timer(&mut self.move_timer, delta);
        self.food_timer.tick(delta);
        let mut report = TickReport {
            moved: false,
            ate: false,
            state: SessionState::Running,
            food_spawned: false,
            board_full: false,
        };
        if should_move_snake(&self.move_timer) {
            report.moved = true;
            let (outcome, fatal) = snake_movement(&mut self.snake, &self.grid);
            self.last_tail = LastTailPosition(Some(outcome.last_tail));
            if fatal {
                report.state = SessionState::GameOver;
                self.game_over();
            } else {
                let head = self.snake.head_position();
                assert(self.snake.cells()[0] == head.cell());
                let growth = snake_eating(&mut self.food, head, outcome.last_tail);
                report.ate = growth.is_some();
                snake_growth(&mut self.snake, growth);
                proof {
                    if report.ate {
                        let n = old(self).snake_spec().positions().len();
                        assert(self.snake.cells() =~= moved(
                            old(self).snake_spec().cells(),
                            self.snake.facing(),
                        ).push(old(self).snake_spec().cells().last()));
                    }
                }
            }
        }
        if should_spawn_food(&self.food, self.food_timer.finished()) {
            match spawn_food(&self.grid, &self.snake, &self.food) {
                Ok(f) => {
                    assert(crate::food::occupied_by(self.snake, self.food) == self.snake.positions());
                    self.food = Some(f);
                    report.food_spawned = true;
                },
                Err(_) => {
                    report.board_full = true;
                },
            }
        }
        report
    }

    /// Every piece on the board with its role: the head, the other
    /// segments in order, then the food if there is any.
    pub fn pieces(&self) -> (r: Vec<(Position, Role)>)
        requires
            self.wf(),
        ensures
            r@.len() == self.snake_spec().positions().len() + (if self.food_spec() is Some {
                1int
            } else {
                0int
            }),
            r@[0] == (self.snake_spec().positions()[0], Role::Head),
            forall|i: int|
                1 <= i < self.snake_spec().positions().len() ==> #[trigger] r@[i] == (
                    self.snake_spec().positions()[i],
                    Role::Body,
                ),
            self.food_spec() matches Some(f) ==> r@.last() == (f.position, Role::Food),
    {
        let segs = self.snake.segments();
        let mut out: Vec<(Position, Role)> = Vec::new();
        let mut i: usize = 0;
        while i < segs.len()
            invariant
                segs@ == self.snake_spec().positions(),
                segs@.len() >= 2,
                i <= segs@.len(),
                out@.len() == i,
                i > 0 ==> out@[0] == (segs@[0], Role::Head),
                forall|j: int| 1 <= j < i ==> #[trigger] out@[j] == (segs@[j], Role::Body),
            decreases segs@.len() - i,
        {
            let role = if i == 0 {
                Role::Head
            } else {
                Role::Body
            };
            out.push((segs[i], role));
            i = i + 1;
        }
        if let Some(f) = self.food {
            out.push((f.position, Role::Food));
        }
        out
    }
}

} // verus!

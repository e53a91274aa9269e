use vstd::prelude::*;

use crate::grid::{occupies, Grid, Position};
use crate::snake::Snake;

verus! {

/// A piece of food lying on the board.
#[derive(PartialEq, Eq, Structural, Clone, Copy, Debug)]
pub struct Food {
    pub position: Position,
}

/// Why no food was placed.
#[derive(PartialEq, Eq, Structural, Clone, Copy, Debug)]
pub enum SpawnError {
    /// Every cell of the board is taken.
    BoardFull,
}

/// The positions that new food must avoid: the snake's segments, head
/// included, and the food already placed.
pub open spec fn occupied_by(snake: Snake, food: Option<Food>) -> Seq<Position> {
    match food {
        Some(f) => snake.positions().push(f.position),
        None => snake.positions(),
    }
}

/// Whether new food is due: none lies on the board and its timer fired.
pub fn should_spawn_food(food: &Option<Food>, timer_fired: bool) -> (r: bool)
    ensures
        r == (food is None && timer_fired),
{
    food.is_none() && timer_fired
}

/// Places food on a cell of the board that neither the snake nor other food
/// takes, drawn at random; fails when there is no such cell.
pub fn spawn_food(grid: &Grid, snake: &Snake, food: &Option<Food>) -> (r: Result<Food, SpawnError>)
    requires
        grid.wf(),
    ensures
        r is Err <==> grid.is_full(occupied_by(*snake, *food)),
        r matches Ok(f) ==> grid.holds(f.position.cell()) && !occupies(
            occupied_by(*snake, *food),
            f.position,
        ),
{
    let mut occupied = snake.segments().clone();
    assert(occupied@ =~= snake.positions());
    if let Some(f) = food {
        occupied.push(f.position);
    }
    assert(occupied@ == occupied_by(*snake, *food));
    match grid.random_free_cell(&occupied) {
        Some(p) => Ok(Food { position: p }),
        None => Err(SpawnError::BoardFull),
    }
}

} // verus!

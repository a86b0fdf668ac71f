//! Data model of the board: coordinates, directions, snakes, and the board
//! snapshot handed to the decision core each turn.

use vstd::prelude::*;

verus! {

/// A cell of the grid: an (x, y) pair of non-negative integers.
///
/// The origin is the bottom-left corner; `x` grows to the right and `y`
/// grows upward. Equality is component-wise.
#[derive(Clone, Copy, Debug, PartialEq, Eq, Structural)]
pub struct Coord {
    pub x: u32,
    pub y: u32,
}

/// One of the four cardinal moves: `Up` increases y, `Right` increases x.
#[derive(Clone, Copy, Debug, PartialEq, Eq, Structural)]
pub enum Direction {
    Up,
    Down,
    Left,
    Right,
}

/// A snake on the board: an ordered sequence of cells, head first.
///
/// `body[0]` is the head and `body[1]`, when present, is the neck, used to
/// forbid reversing direction.
#[derive(Debug)]
pub struct Battlesnake {
    pub body: Vec<Coord>,
}

/// The full board snapshot for one turn: dimensions, the food cells, and
/// every snake on the board (the agent's own snake included).
#[derive(Debug)]
pub struct Board {
    pub width: u32,
    pub height: u32,
    pub food: Vec<Coord>,
    pub snakes: Vec<Battlesnake>,
}

/// The x coordinate, as a mathematical integer, of the cell one step from
/// `(x, y)` in direction `d`.
pub open spec fn step_x(x: int, y: int, d: Direction) -> int {
    match d {
        Direction::Left => x - 1,
        Direction::Right => x + 1,
        _ => x,
    }
}

/// The y coordinate, as a mathematical integer, of the cell one step from
/// `(x, y)` in direction `d`.
pub open spec fn step_y(x: int, y: int, d: Direction) -> int {
    match d {
        Direction::Down => y - 1,
        Direction::Up => y + 1,
        _ => y,
    }
}

/// Whether some food item sits exactly at cell `(x, y)`.
pub open spec fn food_at(food: Seq<Coord>, x: int, y: int) -> bool {
    exists|i: int| 0 <= i < food.len() && food[i].x == x && food[i].y == y
}

/// Whether some segment of `body` occupies cell `(x, y)`.
pub open spec fn body_occupies(body: Seq<Coord>, x: int, y: int) -> bool {
    exists|i: int| 0 <= i < body.len() && body[i].x == x && body[i].y == y
}

/// Whether some segment of some snake in `snakes` occupies cell `(x, y)`.
pub open spec fn snakes_occupy(snakes: Seq<Battlesnake>, x: int, y: int) -> bool {
    exists|i: int| 0 <= i < snakes.len() && body_occupies(snakes[i].body@, x, y)
}

/// Every cell of every snake and every food item lies within
/// `[0, width) x [0, height)`, and the dimensions are positive.
pub open spec fn board_ok(board: Board) -> bool {
    &&& board.width >= 1
    &&& board.height >= 1
    &&& forall|i: int| 0 <= i < board.food@.len() ==> (#[trigger] board.food@[i]).x
        < board.width && board.food@[i].y < board.height
    &&& forall|i: int, j: int|
        0 <= i < board.snakes@.len() && 0 <= j < board.snakes@[i].body@.len() ==> (
        #[trigger] board.snakes@[i].body@[j]).x < board.width && board.snakes@[i].body@[j].y
            < board.height
}

/// The snake has a head, and every cell of its body lies on the board.
pub open spec fn snake_ok(snake: Battlesnake, width: int, height: int) -> bool {
    &&& snake.body@.len() >= 1
    &&& forall|i: int| 0 <= i < snake.body@.len() ==> (#[trigger] snake.body@[i]).x < width
        && snake.body@[i].y < height
}

/// Whether some food item sits exactly at cell `(x, y)`, checked cell by
/// cell.
pub fn has_food_at(food: &Vec<Coord>, x: u32, y: u32) -> (r: bool)
    ensures
        r == food_at(food@, x as int, y as int),
{
    let mut i: usize = 0;
    while i < food.len()
        invariant
            0 <= i <= food@.len(),
            forall|j: int| 0 <= j < i ==> !((#[trigger] food@[j]).x == x && food@[j].y == y),
        decreases food@.len() - i,
    {
        if food[i].x == x && food[i].y == y {
            return true;
        }
        i = i + 1;
    }
    false
}

} // verus!

use snake_logic::board::Battlesnake;
use snake_logic::board::Coord;
use snake_logic::board::Direction;
use snake_logic::safety::compute_safe_moves;
use snake_logic::safety::dir_is_safe;

fn snake(cells: &[(u32, u32)]) -> Battlesnake {
    let mut body = Vec::new();
    for &(x, y) in cells {
        body.push(Coord { x, y });
    }
    Battlesnake { body }
}

#[test]
fn neck_below_head_excludes_down() {
    let you = snake(&[(5, 5), (5, 4)]);
    let snakes = vec![snake(&[(5, 5), (5, 4)])];
    let safe = compute_safe_moves(&you, &snakes, 11, 11);
    assert!(!safe.down);
    assert!(safe.up);
    assert!(safe.left);
    assert!(safe.right);
}

#[test]
fn neck_above_head_excludes_up() {
    let you = snake(&[(5, 5), (5, 6)]);
    let snakes = vec![snake(&[(5, 5), (5, 6)])];
    let safe = compute_safe_moves(&you, &snakes, 11, 11);
    assert!(!safe.up);
    assert!(safe.down);
    assert!(safe.left);
    assert!(safe.right);
}

#[test]
fn neck_left_of_head_excludes_left() {
    let you = snake(&[(5, 5), (4, 5)]);
    let snakes = vec![snake(&[(5, 5), (4, 5)])];
    let safe = compute_safe_moves(&you, &snakes, 11, 11);
    assert!(!safe.left);
    assert!(safe.right);
    assert!(safe.up);
    assert!(safe.down);
}

#[test]
fn neck_right_of_head_excludes_right() {
    let you = snake(&[(5, 5), (6, 5)]);
    let snakes = vec![snake(&[(5, 5), (6, 5)])];
    let safe = compute_safe_moves(&you, &snakes, 11, 11);
    assert!(!safe.right);
    assert!(safe.left);
    assert!(safe.up);
    assert!(safe.down);
}

#[test]
fn single_cell_body_skips_neck_rule() {
    let you = snake(&[(5, 5)]);
    let snakes: Vec<Battlesnake> = Vec::new();
    let safe = compute_safe_moves(&you, &snakes, 11, 11);
    assert!(safe.up && safe.down && safe.left && safe.right);
}

#[test]
fn left_wall_excludes_left() {
    let you = snake(&[(0, 5), (0, 4)]);
    let snakes: Vec<Battlesnake> = Vec::new();
    let safe = compute_safe_moves(&you, &snakes, 11, 11);
    assert!(!safe.left);
    assert!(safe.right);
    assert!(safe.up);
}

#[test]
fn right_wall_excludes_right() {
    let you = snake(&[(10, 5), (10, 4)]);
    let snakes: Vec<Battlesnake> = Vec::new();
    let safe = compute_safe_moves(&you, &snakes, 11, 11);
    assert!(!safe.right);
    assert!(safe.left);
    assert!(safe.up);
}

#[test]
fn top_and_bottom_walls_exclude_up_and_down() {
    let top = snake(&[(5, 10)]);
    let bottom = snake(&[(5, 0)]);
    let snakes: Vec<Battlesnake> = Vec::new();
    assert!(!compute_safe_moves(&top, &snakes, 11, 11).up);
    assert!(!compute_safe_moves(&bottom, &snakes, 11, 11).down);
}

#[test]
fn corner_excludes_exactly_two() {
    let you = snake(&[(0, 0)]);
    let snakes: Vec<Battlesnake> = Vec::new();
    let safe = compute_safe_moves(&you, &snakes, 11, 11);
    assert!(!safe.left);
    assert!(!safe.down);
    assert!(safe.right);
    assert!(safe.up);
}

#[test]
fn own_body_on_right_cell_excludes_right() {
    let you = snake(&[(5, 5), (5, 4), (6, 4), (6, 5)]);
    let snakes = vec![snake(&[(5, 5), (5, 4), (6, 4), (6, 5)])];
    let safe = compute_safe_moves(&you, &snakes, 11, 11);
    assert!(!safe.right);
    assert!(!safe.down);
    assert!(safe.left);
    assert!(safe.up);
}

#[test]
fn opponent_body_on_right_cell_excludes_right() {
    let you = snake(&[(5, 5), (5, 4)]);
    let snakes = vec![snake(&[(5, 5), (5, 4)]), snake(&[(6, 5), (7, 5)])];
    let safe = compute_safe_moves(&you, &snakes, 11, 11);
    assert!(!safe.right);
    assert!(safe.left);
    assert!(safe.up);
}

#[test]
fn opponent_tail_counts_as_obstacle() {
    let you = snake(&[(5, 5), (5, 4)]);
    let snakes = vec![snake(&[(5, 5), (5, 4)]), snake(&[(7, 5), (6, 5)])];
    assert!(!dir_is_safe(&you, &snakes, 11, 11, Direction::Right));
}

#[test]
fn all_rules_can_empty_the_safe_set() {
    // Head boxed in: neck below, wall on the left, own body above,
    // an opponent on the right.
    let you = snake(&[(0, 5), (0, 4), (1, 4), (1, 5), (1, 6), (0, 6)]);
    let snakes = vec![snake(&[(1, 5), (1, 4)])];
    let safe = compute_safe_moves(&you, &snakes, 11, 11);
    assert!(!safe.up && !safe.down && !safe.left && !safe.right);
}

use snake_ai::encode::{index_of, observation_grid, occupancy_grid};
use snake_ai::game::{Game, TerminalRule};
use snake_ai::geometry::{Direction, Point, CELLS};

fn game_with(snake: Vec<Point>, food: Point) -> Game {
    Game {
        snake,
        direction: Direction::Up,
        food,
        game_over: false,
        score: 0,
        update_rate_ms: 100,
        last_update_ms: 0,
        rule: TerminalRule::LeaveGrid,
    }
}

#[test]
fn encoding_marks_snake_and_food() {
    let g = game_with(vec![Point(1, 1), Point(1, 2)], Point(5, 5));
    let grid = g.get_state_as_tensor();
    assert_eq!(grid.len(), 900);
    for i in 0..CELLS {
        let expected = if i == 1 + 1 * 30 || i == 1 + 2 * 30 {
            1
        } else if i == 5 + 5 * 30 {
            2
        } else {
            0
        };
        assert_eq!(grid[i], expected, "cell {}", i);
    }
}

#[test]
fn encoding_is_deterministic() {
    let g = game_with(vec![Point(10, 3), Point(10, 4), Point(11, 4)], Point(0, 29));
    assert_eq!(g.get_state_as_tensor(), g.get_state_as_tensor());
}

#[test]
fn food_is_written_after_the_snake() {
    let grid = observation_grid(&vec![Point(4, 4)], Point(4, 4));
    assert_eq!(grid[index_of(Point(4, 4))], 2);
    assert_eq!(grid.iter().filter(|v| **v != 0).count(), 1);
}

#[test]
fn target_marks_only_the_snake() {
    let g = game_with(vec![Point(0, 0), Point(29, 29)], Point(5, 5));
    let target = g.get_target_tensor_from_game_over();
    assert_eq!(target.len(), 900);
    assert_eq!(target[0], 1);
    assert_eq!(target[899], 1);
    assert_eq!(target[5 + 5 * 30], 0);
    assert_eq!(target.iter().map(|v| *v as u32).sum::<u32>(), 2);
}

#[test]
fn occupancy_of_a_snake_on_one_cell_twice() {
    let grid = occupancy_grid(&vec![Point(2, 0), Point(2, 0)]);
    assert_eq!(grid[2], 1);
    assert_eq!(grid.iter().map(|v| *v as u32).sum::<u32>(), 1);
}

#[test]
fn index_is_row_major() {
    assert_eq!(index_of(Point(0, 0)), 0);
    assert_eq!(index_of(Point(29, 0)), 29);
    assert_eq!(index_of(Point(0, 1)), 30);
    assert_eq!(index_of(Point(29, 29)), 899);
}

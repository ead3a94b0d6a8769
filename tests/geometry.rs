use snake_ai::geometry::{Direction, Point, CELLS, GRID_H, GRID_W};

#[test]
fn deltas_are_unit_steps() {
    assert_eq!(Direction::Up.to_point_delta(), Point(0, -1));
    assert_eq!(Direction::Down.to_point_delta(), Point(0, 1));
    assert_eq!(Direction::Left.to_point_delta(), Point(-1, 0));
    assert_eq!(Direction::Right.to_point_delta(), Point(1, 0));
}

#[test]
fn opposites_pair_up() {
    assert_eq!(Direction::Up.opposite(), Direction::Down);
    assert_eq!(Direction::Down.opposite(), Direction::Up);
    assert_eq!(Direction::Left.opposite(), Direction::Right);
    assert_eq!(Direction::Right.opposite(), Direction::Left);
}

#[test]
fn points_add_componentwise() {
    assert_eq!(Point(15, 15).add(Point(0, -1)), Point(15, 14));
    assert_eq!(Point(3, 7).add(Point(-4, 2)), Point(-1, 9));
}

#[test]
fn grid_bounds() {
    assert_eq!(CELLS, (GRID_W as usize) * (GRID_H as usize));
    assert!(Point(0, 0).is_in_grid());
    assert!(Point(29, 29).is_in_grid());
    assert!(!Point(30, 0).is_in_grid());
    assert!(!Point(0, -1).is_in_grid());
}

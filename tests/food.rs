use snake_ai::food::{free_cells, new_food_location, prefix_contains, snake_contains};
use snake_ai::geometry::{Point, CELLS};

fn all_cells() -> Vec<Point> {
    let mut v = Vec::new();
    for y in 0..30 {
        for x in 0..30 {
            v.push(Point(x, y));
        }
    }
    v
}

#[test]
fn free_cells_of_an_empty_snake_are_the_whole_grid() {
    assert_eq!(free_cells(&Vec::new()).len(), CELLS);
}

#[test]
fn free_cells_leave_out_the_snake() {
    let snake = vec![Point(1, 1), Point(1, 2), Point(1, 1)];
    let free = free_cells(&snake);
    assert_eq!(free.len(), CELLS - 2);
    assert!(!free.contains(&Point(1, 1)));
    assert!(!free.contains(&Point(1, 2)));
    assert!(free.contains(&Point(0, 0)));
}

#[test]
fn food_lands_off_the_snake() {
    let snake = vec![Point(15, 14), Point(15, 15)];
    for _ in 0..200 {
        let p = new_food_location(&snake).unwrap();
        assert!(p.is_in_grid());
        assert!(!snake.contains(&p));
    }
}

#[test]
fn food_takes_the_last_free_cell() {
    let mut snake = all_cells();
    snake.retain(|p| *p != Point(7, 21));
    for _ in 0..20 {
        assert_eq!(new_food_location(&snake), Some(Point(7, 21)));
    }
}

#[test]
fn no_food_on_a_full_grid() {
    assert_eq!(new_food_location(&all_cells()), None);
}

#[test]
fn containment_checks() {
    let snake = vec![Point(1, 1), Point(2, 1), Point(3, 1)];
    assert!(snake_contains(&snake, Point(3, 1)));
    assert!(!snake_contains(&snake, Point(4, 1)));
    assert!(!prefix_contains(&snake, 2, Point(3, 1)));
    assert!(prefix_contains(&snake, 2, Point(2, 1)));
}

use rusty_snake::{place_food, sample_draws, Point, SnakeDirection, CELL_SIZE, GRID_X_SIZE, GRID_Y_SIZE};

fn points(cells: &[(i32, i32)]) -> Vec<Point> {
    cells.iter().map(|&(x, y)| Point(x, y)).collect()
}

#[test]
fn points_add_component_wise() {
    assert_eq!(Point(1, 2) + Point(3, 4), Point(4, 6));
    assert_eq!(Point(0, 0) + Point(-1, 0), Point(-1, 0));
    assert_eq!(Point(14, 14) + Point(0, 1), Point(14, 15));
    assert_eq!(Point(-5, 7) + Point(5, -7), Point(0, 0));
}

#[test]
fn grid_constants() {
    assert_eq!(GRID_X_SIZE, 15);
    assert_eq!(GRID_Y_SIZE, 15);
    assert_eq!(CELL_SIZE, 20);
}

#[test]
fn unit_vectors() {
    assert_eq!(SnakeDirection::Up.unit_vector(), Point(0, -1));
    assert_eq!(SnakeDirection::Down.unit_vector(), Point(0, 1));
    assert_eq!(SnakeDirection::Right.unit_vector(), Point(1, 0));
    assert_eq!(SnakeDirection::Left.unit_vector(), Point(-1, 0));
}

#[test]
fn opposites() {
    assert_eq!(SnakeDirection::Up.opposite(), SnakeDirection::Down);
    assert_eq!(SnakeDirection::Down.opposite(), SnakeDirection::Up);
    assert_eq!(SnakeDirection::Right.opposite(), SnakeDirection::Left);
    assert_eq!(SnakeDirection::Left.opposite(), SnakeDirection::Right);
}

#[test]
fn wraparound_folds_each_axis_on_its_own() {
    assert_eq!(Point(15, 3).wrapped(), Point(0, 3));
    assert_eq!(Point(-1, 3).wrapped(), Point(14, 3));
    assert_eq!(Point(3, 15).wrapped(), Point(3, 0));
    assert_eq!(Point(3, -1).wrapped(), Point(3, 14));
    assert_eq!(Point(15, -1).wrapped(), Point(0, 14));
    assert_eq!(Point(0, 0).wrapped(), Point(0, 0));
    assert_eq!(Point(14, 14).wrapped(), Point(14, 14));
    assert_eq!(Point(7, 9).wrapped(), Point(7, 9));
}

#[test]
fn a_point_is_made_from_column_and_row() {
    assert_eq!(Point::at(4, 9), Point(4, 9));
    assert_eq!(Point::at(0, 14), Point(0, 14));
    assert_eq!(Point::at(2147483647, 0), Point(i32::MAX, 0));
}

#[test]
fn in_grid_is_the_half_open_board() {
    assert!(Point(0, 0).in_grid());
    assert!(Point(14, 14).in_grid());
    assert!(!Point(15, 0).in_grid());
    assert!(!Point(0, 15).in_grid());
    assert!(!Point(-1, 0).in_grid());
    assert!(!Point(0, -1).in_grid());
}

#[test]
fn food_stays_where_it_starts_when_nothing_clashes() {
    let body = points(&[(3, 1), (2, 1), (1, 1)]);
    let draws = points(&[(9, 9), (0, 0), (0, 0), (0, 0)]);
    assert_eq!(place_food(&body, &draws), Point(9, 9));
}

#[test]
fn food_on_an_empty_body_is_the_first_draw() {
    assert_eq!(place_food(&points(&[]), &points(&[(4, 2)])), Point(4, 2));
}

#[test]
fn a_clashing_column_is_replaced_and_the_row_kept() {
    let body = points(&[(3, 1)]);
    let draws = points(&[(3, 9), (8, 0)]);
    assert_eq!(place_food(&body, &draws), Point(8, 9));
}

#[test]
fn a_clashing_row_is_replaced_and_the_column_kept() {
    let body = points(&[(3, 1)]);
    let draws = points(&[(9, 1), (0, 8)]);
    assert_eq!(place_food(&body, &draws), Point(9, 8));
}

#[test]
fn both_coordinates_are_replaced_when_both_clash() {
    let body = points(&[(3, 1)]);
    let draws = points(&[(3, 1), (6, 8)]);
    assert_eq!(place_food(&body, &draws), Point(6, 8));
}

#[test]
fn each_body_cell_uses_its_own_draw() {
    let body = points(&[(3, 1), (2, 1), (1, 1)]);
    // Row 1 clashes with every cell: 1 -> 1 -> 1 -> 5.
    let draws = points(&[(9, 1), (0, 1), (0, 1), (0, 5)]);
    assert_eq!(place_food(&body, &draws), Point(9, 5));
}

#[test]
fn a_replacement_is_not_checked_against_earlier_cells() {
    let body = points(&[(1, 1), (2, 2)]);
    // Column 2 clashes with the second cell and becomes 1, the first cell's
    // column, which is not looked at again.
    let draws = points(&[(2, 5), (9, 9), (1, 9)]);
    assert_eq!(place_food(&body, &draws), Point(1, 5));
}

#[test]
fn food_can_land_on_the_body() {
    let body = points(&[(1, 1)]);
    let draws = points(&[(1, 1), (1, 1)]);
    assert_eq!(place_food(&body, &draws), Point(1, 1));
}

#[test]
fn sampled_draws_are_one_per_cell_and_one_more_all_on_the_board() {
    for body_len in [0usize, 1, 3, 40] {
        for _ in 0..50 {
            let draws = sample_draws(body_len);
            assert_eq!(draws.len(), body_len + 1);
            assert!(draws.iter().all(|p| p.in_grid()));
        }
    }
}

#[test]
fn sampled_draws_vary() {
    let draws = sample_draws(400);
    assert!(draws.iter().any(|p| *p != draws[0]));
    assert!(draws.iter().any(|p| p.0 != p.1));
}

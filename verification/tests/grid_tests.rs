use neon_snake::game_state::Position;
use neon_snake::grid::{
    collides_with_body, first_free_cell, in_bounds, is_valid_body, place_initial_body,
    random_free_cell,
};
use std::collections::VecDeque;

fn cell(x: i32, y: i32) -> Position {
    Position { x, y }
}

fn body_of(cells: &[(i32, i32)]) -> VecDeque<Position> {
    cells.iter().map(|&(x, y)| cell(x, y)).collect()
}

/// Every cell of a square grid but the listed ones, row by row.
fn all_but(grid_size: i32, left_out: &[(i32, i32)]) -> VecDeque<Position> {
    let mut body = VecDeque::new();
    for y in 0..grid_size {
        for x in 0..grid_size {
            if !left_out.contains(&(x, y)) {
                body.push_back(cell(x, y));
            }
        }
    }
    body
}

#[test]
fn in_bounds_accepts_the_corners() {
    assert!(in_bounds(cell(0, 0), 10));
    assert!(in_bounds(cell(9, 0), 10));
    assert!(in_bounds(cell(0, 9), 10));
    assert!(in_bounds(cell(9, 9), 10));
}

#[test]
fn in_bounds_rejects_cells_off_the_grid() {
    assert!(!in_bounds(cell(-1, 0), 10));
    assert!(!in_bounds(cell(0, -1), 10));
    assert!(!in_bounds(cell(10, 0), 10));
    assert!(!in_bounds(cell(0, 10), 10));
    assert!(!in_bounds(cell(i32::MIN, i32::MAX), 10));
    assert!(!in_bounds(cell(0, 0), 0));
}

#[test]
fn in_bounds_on_the_widest_grid() {
    assert!(in_bounds(cell(i32::MAX, i32::MAX), u32::MAX));
    assert!(!in_bounds(cell(-1, 5), u32::MAX));
}

#[test]
fn collides_with_body_is_exact_membership() {
    let body = body_of(&[(5, 5), (4, 5), (3, 5)]);
    assert!(collides_with_body(cell(5, 5), &body));
    assert!(collides_with_body(cell(4, 5), &body));
    assert!(collides_with_body(cell(3, 5), &body));
    assert!(!collides_with_body(cell(6, 5), &body));
    assert!(!collides_with_body(cell(5, 4), &body));
    assert!(!collides_with_body(cell(5, 3), &body));
}

#[test]
fn nothing_collides_with_an_empty_body() {
    assert!(!collides_with_body(cell(0, 0), &VecDeque::new()));
}

#[test]
fn initial_body_is_centered_and_trails_left() {
    assert_eq!(place_initial_body(10), body_of(&[(5, 5), (4, 5), (3, 5)]));
    assert_eq!(place_initial_body(4), body_of(&[(2, 2), (1, 2), (0, 2)]));
    assert_eq!(place_initial_body(5), body_of(&[(2, 2), (1, 2), (0, 2)]));
    assert_eq!(place_initial_body(21), body_of(&[(10, 10), (9, 10), (8, 10)]));
}

#[test]
fn initial_body_is_valid_from_the_smallest_grid_on() {
    for grid_size in 4..40 {
        assert!(is_valid_body(&place_initial_body(grid_size), grid_size));
    }
    assert!(!is_valid_body(&place_initial_body(3), 3));
}

#[test]
fn valid_body_needs_distinct_cells_on_the_grid() {
    assert!(is_valid_body(&body_of(&[(0, 0), (1, 0), (1, 1)]), 4));
    assert!(is_valid_body(&VecDeque::new(), 4));
    assert!(!is_valid_body(&body_of(&[(0, 0), (1, 0), (0, 0)]), 4));
    assert!(!is_valid_body(&body_of(&[(0, 0), (0, 0)]), 4));
    assert!(!is_valid_body(&body_of(&[(0, 0), (4, 0)]), 4));
    assert!(!is_valid_body(&body_of(&[(0, -1)]), 4));
}

#[test]
fn a_full_grid_is_still_a_valid_body() {
    assert!(is_valid_body(&all_but(4, &[]), 4));
}

#[test]
fn first_free_cell_reads_row_by_row() {
    assert_eq!(first_free_cell(&VecDeque::new(), 4), Some(cell(0, 0)));
    assert_eq!(first_free_cell(&body_of(&[(0, 0), (1, 0)]), 4), Some(cell(2, 0)));
    assert_eq!(
        first_free_cell(&body_of(&[(0, 0), (1, 0), (2, 0), (3, 0)]), 4),
        Some(cell(0, 1))
    );
    assert_eq!(first_free_cell(&body_of(&[(1, 0), (0, 1)]), 4), Some(cell(0, 0)));
    assert_eq!(first_free_cell(&all_but(4, &[(2, 3)]), 4), Some(cell(2, 3)));
    assert_eq!(first_free_cell(&all_but(4, &[(3, 1), (0, 2)]), 4), Some(cell(3, 1)));
}

#[test]
fn first_free_cell_finds_none_on_a_full_grid() {
    assert_eq!(first_free_cell(&all_but(4, &[]), 4), None);
    assert_eq!(first_free_cell(&all_but(1, &[]), 1), None);
    assert_eq!(first_free_cell(&VecDeque::new(), 0), None);
}

#[test]
fn random_free_cell_is_on_the_grid_and_off_the_body() {
    let body = place_initial_body(10);
    for _ in 0..500 {
        let found = random_free_cell(&body, 10).unwrap();
        assert!(in_bounds(found, 10));
        assert!(!collides_with_body(found, &body));
    }
}

#[test]
fn random_free_cell_reaches_more_than_one_cell() {
    let body = place_initial_body(10);
    let first = random_free_cell(&body, 10).unwrap();
    let mut other = false;
    for _ in 0..2000 {
        if random_free_cell(&body, 10).unwrap() != first {
            other = true;
        }
    }
    assert!(other);
}

#[test]
fn random_free_cell_finds_the_last_free_cell() {
    for &(x, y) in &[(0, 0), (3, 3), (2, 1), (0, 3)] {
        let body = all_but(4, &[(x, y)]);
        assert_eq!(random_free_cell(&body, 4), Some(cell(x, y)));
    }
}

#[test]
fn random_free_cell_gives_up_on_a_full_grid() {
    assert_eq!(random_free_cell(&all_but(4, &[]), 4), None);
    assert_eq!(random_free_cell(&all_but(2, &[]), 2), None);
    assert_eq!(random_free_cell(&all_but(1, &[]), 1), None);
}

#[test]
fn random_free_cell_on_a_grid_of_one_cell() {
    assert_eq!(random_free_cell(&VecDeque::new(), 1), Some(cell(0, 0)));
}

#[test]
fn a_cell_is_free_exactly_while_the_body_is_shorter_than_the_grid() {
    let mut body = VecDeque::new();
    for y in 0..4 {
        for x in 0..4 {
            assert!(body.len() < 16);
            assert!(is_valid_body(&body, 4));
            assert!(first_free_cell(&body, 4).is_some());
            assert!(random_free_cell(&body, 4).is_some());
            body.push_front(cell(x, y));
        }
    }
    assert_eq!(body.len(), 16);
    assert!(is_valid_body(&body, 4));
    assert!(first_free_cell(&body, 4).is_none());
    assert!(random_free_cell(&body, 4).is_none());
}

//! The coordinate space: which cells exist, which the snake covers, and where
//! food can go.

use crate::config::MIN_GRID_SIZE;
use crate::game_state::Position;
use crate::rng::random_below;
use std::collections::VecDeque;
use vstd::arithmetic::div_mod::{
    lemma_fundamental_div_mod, lemma_mod_bound, lemma_multiply_divide_lt,
};
use vstd::prelude::*;
use vstd::set_lib::{lemma_int_range, lemma_len_subset, lemma_map_size, set_int_range};

verus! {

/// Number of segments a snake starts with.
pub const INITIAL_LENGTH: usize = 3;

/// How many random cells are tried for the food before the grid is searched
/// cell by cell.
pub const SAMPLING_ATTEMPTS: u32 = 1024;

/// The cell lies on a grid of `grid_size` columns and rows.
pub open spec fn spec_in_bounds(cell: Position, grid_size: u32) -> bool {
    0 <= cell.x < grid_size && 0 <= cell.y < grid_size
}

/// Tells whether the cell lies on a grid of `grid_size` columns and rows.
#[verifier::when_used_as_spec(spec_in_bounds)]
pub fn in_bounds(cell: Position, grid_size: u32) -> (inside: bool)
    ensures
        inside == spec_in_bounds(cell, grid_size),
{
    let size: i64 = grid_size as i64;
    0 <= cell.x && (cell.x as i64) < size && 0 <= cell.y && (cell.y as i64) < size
}

/// Tells whether the cell is one of the body's segments.
pub fn collides_with_body(cell: Position, body: &VecDeque<Position>) -> (hit: bool)
    ensures
        hit == body@.contains(cell),
{
    let mut i: usize = 0;
    while i < body.len()
        invariant
            i <= body@.len(),
            forall|j: int| 0 <= j < i ==> body@[j] != cell,
        decreases body@.len() - i,
    {
        if body[i] == cell {
            return true;
        }
        i += 1;
    }
    false
}

/// The three segments a run starts with: head in the middle of the grid, the
/// rest trailing to its left, so that a snake heading right moves away from its
/// tail.
pub open spec fn initial_body(grid_size: u32) -> Seq<Position> {
    let center: i32 = (grid_size / 2) as i32;
    seq![
        Position { x: center, y: center },
        Position { x: (center - 1) as i32, y: center },
        Position { x: (center - 2) as i32, y: center },
    ]
}

/// Builds the body a run starts with. On a grid of at least `MIN_GRID_SIZE`
/// the whole body lies on the grid.
pub fn place_initial_body(grid_size: u32) -> (body: VecDeque<Position>)
    requires
        grid_size <= i32::MAX,
    ensures
        body@ == initial_body(grid_size),
        grid_size >= MIN_GRID_SIZE ==> valid_body(body@, grid_size),
{
    let center: i32 = (grid_size / 2) as i32;
    let mut body: VecDeque<Position> = VecDeque::new();
    body.push_back(Position { x: center, y: center });
    body.push_back(Position { x: center - 1, y: center });
    body.push_back(Position { x: center - 2, y: center });
    body
}

/// Food may be placed on the cell: it lies on the grid and the body does not
/// cover it.
pub open spec fn is_free(cell: Position, body: Seq<Position>, grid_size: u32) -> bool {
    in_bounds(cell, grid_size) && !body.contains(cell)
}

/// The body leaves at least one cell of the grid uncovered.
pub open spec fn has_free_cell(body: Seq<Position>, grid_size: u32) -> bool {
    exists|cell: Position| is_free(cell, body, grid_size)
}

/// `first` comes no later than `second` when the grid is read row by row from
/// the top left.
pub open spec fn reads_before(first: Position, second: Position) -> bool {
    first.y < second.y || (first.y == second.y && first.x <= second.x)
}

/// Finds the first uncovered cell, reading the grid row by row from the top
/// left; `None` if the body covers the whole grid.
pub fn first_free_cell(body: &VecDeque<Position>, grid_size: u32) -> (found: Option<Position>)
    requires
        grid_size <= i32::MAX,
    ensures
        match found {
            Some(cell) => {
                &&& is_free(cell, body@, grid_size)
                &&& forall|other: Position|
                    is_free(other, body@, grid_size) ==> reads_before(cell, other)
            },
            None => !has_free_cell(body@, grid_size),
        },
{
    let size: i32 = grid_size as i32;
    let mut y: i32 = 0;
    while y < size
        invariant
            size == grid_size,
            0 <= y <= size,
            forall|cell: Position|
                in_bounds(cell, grid_size) && cell.y < y ==> body@.contains(cell),
        decreases size - y,
    {
        let mut x: i32 = 0;
        while x < size
            invariant
                size == grid_size,
                0 <= y < size,
                0 <= x <= size,
                forall|cell: Position|
                    in_bounds(cell, grid_size) && cell.y < y ==> body@.contains(cell),
                forall|cell: Position|
                    in_bounds(cell, grid_size) && cell.y == y && cell.x < x ==> body@.contains(
                        cell,
                    ),
            decreases size - x,
        {
            let cell = Position { x, y };
            if !collides_with_body(cell, body) {
                return Some(cell);
            }
            x += 1;
        }
        y += 1;
    }
    None
}

/// Picks a cell for the food: random cells of the grid are drawn until one is
/// uncovered. After `SAMPLING_ATTEMPTS` covered cells in a row the grid is
/// searched instead, so the call always returns, and it finds a cell whenever
/// there is one: `None` means that the body covers the whole grid.
pub fn random_free_cell(body: &VecDeque<Position>, grid_size: u32) -> (found: Option<Position>)
    requires
        0 < grid_size <= i32::MAX,
    ensures
        match found {
            Some(cell) => is_free(cell, body@, grid_size),
            None => !has_free_cell(body@, grid_size),
        },
{
    let size: i32 = grid_size as i32;
    let mut attempt: u32 = 0;
    while attempt < SAMPLING_ATTEMPTS
        invariant
            0 < size == grid_size,
        decreases SAMPLING_ATTEMPTS - attempt,
    {
        let cell = Position { x: random_below(size), y: random_below(size) };
        if !collides_with_body(cell, body) {
            return Some(cell);
        }
        attempt += 1;
    }
    first_free_cell(body, grid_size)
}

/// A body the rules allow: every segment lies on the grid and no cell is
/// covered twice.
pub open spec fn valid_body(body: Seq<Position>, grid_size: u32) -> bool {
    &&& body.no_duplicates()
    &&& forall|i: int| 0 <= i < body.len() ==> in_bounds(#[trigger] body[i], grid_size)
}

/// Tells whether a body is one the rules allow.
pub fn is_valid_body(body: &VecDeque<Position>, grid_size: u32) -> (ok: bool)
    ensures
        ok == valid_body(body@, grid_size),
{
    let mut i: usize = 0;
    while i < body.len()
        invariant
            i <= body@.len(),
            forall|k: int| 0 <= k < i ==> in_bounds(#[trigger] body@[k], grid_size),
            forall|k: int, l: int| 0 <= k < l < i ==> body@[k] != body@[l],
        decreases body@.len() - i,
    {
        if !in_bounds(body[i], grid_size) {
            return false;
        }
        let mut j: usize = 0;
        while j < i
            invariant
                j <= i < body@.len(),
                forall|k: int| 0 <= k < j ==> body@[k] != body@[i as int],
            decreases i - j,
        {
            if body[j] == body[i] {
                return false;
            }
            j += 1;
        }
        i += 1;
    }
    true
}

/// The number of a cell when the grid is read row by row.
pub open spec fn cell_index(cell: Position, grid_size: u32) -> int {
    cell.y * grid_size + cell.x
}

/// Cells of the grid are numbered from 0 up to the number of cells, and two
/// cells with the same number are the same cell.
proof fn lemma_cell_index(a: Position, b: Position, grid_size: u32)
    requires
        in_bounds(a, grid_size),
        in_bounds(b, grid_size),
    ensures
        0 <= cell_index(a, grid_size) < grid_size * grid_size,
        cell_index(a, grid_size) == cell_index(b, grid_size) ==> a == b,
{
    let g: int = grid_size as int;
    assert(0 <= a.y * g && a.y * g + g <= g * g) by (nonlinear_arith)
        requires
            0 <= a.y < g,
    ;
    if a.y < b.y {
        assert(a.y * g + g <= b.y * g) by (nonlinear_arith)
            requires
                a.y + 1 <= b.y,
                0 <= g,
        ;
    }
    if b.y < a.y {
        assert(b.y * g + g <= a.y * g) by (nonlinear_arith)
            requires
                b.y + 1 <= a.y,
                0 <= g,
        ;
    }
}

/// The numbers of the cells a body covers.
spec fn covered_numbers(body: Seq<Position>, grid_size: u32) -> Set<int> {
    body.to_set().map(|cell: Position| cell_index(cell, grid_size))
}

/// A valid body covers as many cell numbers as it has segments.
proof fn lemma_covered_numbers(body: Seq<Position>, grid_size: u32)
    requires
        valid_body(body, grid_size),
    ensures
        covered_numbers(body, grid_size).finite(),
        covered_numbers(body, grid_size).len() == body.len(),
{
    let cells = body.to_set();
    let number = |cell: Position| cell_index(cell, grid_size);
    body.unique_seq_to_set();
    assert forall|a: Position, b: Position|
        cells.contains(a) && cells.contains(b) && number(a) == number(b) implies a == b by {
        lemma_cell_index(a, b, grid_size);
    }
    lemma_map_size(cells, covered_numbers(body, grid_size), number);
}

/// A snake never outgrows its grid: a valid body has at most as many segments
/// as the grid has cells.
pub proof fn lemma_body_fits_grid(body: Seq<Position>, grid_size: u32)
    requires
        valid_body(body, grid_size),
    ensures
        body.len() <= grid_size * grid_size,
{
    let covered = covered_numbers(body, grid_size);
    let all_numbers = set_int_range(0, grid_size * grid_size);
    lemma_covered_numbers(body, grid_size);
    assert forall|n: int| covered.contains(n) implies all_numbers.contains(n) by {
        let cell = choose|cell: Position|
            body.to_set().contains(cell) && cell_index(cell, grid_size) == n;
        lemma_cell_index(cell, cell, grid_size);
    }
    lemma_int_range(0, grid_size * grid_size);
    lemma_len_subset(covered, all_numbers);
}

/// Every number from 0 up to the number of cells is the number of a cell of
/// the grid.
proof fn lemma_cell_of_index(n: int, grid_size: u32) -> (cell: Position)
    requires
        0 <= n < grid_size * grid_size,
        grid_size <= i32::MAX,
    ensures
        in_bounds(cell, grid_size),
        cell_index(cell, grid_size) == n,
{
    let g: int = grid_size as int;
    assert(g > 0) by (nonlinear_arith)
        requires
            0 <= n < g * g,
            0 <= g,
    ;
    lemma_fundamental_div_mod(n, g);
    lemma_mod_bound(n, g);
    lemma_multiply_divide_lt(n, g, g);
    assert(0 <= n / g) by (nonlinear_arith)
        requires
            0 <= n,
            0 < g,
    ;
    assert(g * (n / g) == (n / g) * g) by (nonlinear_arith);
    Position { x: (n % g) as i32, y: (n / g) as i32 }
}

/// Food can be placed exactly as long as the snake is shorter than the grid
/// has cells: a valid body leaves a cell free if and only if it has fewer
/// segments than there are cells.
pub proof fn lemma_free_cell_iff_room(body: Seq<Position>, grid_size: u32)
    requires
        valid_body(body, grid_size),
        grid_size <= i32::MAX,
    ensures
        has_free_cell(body, grid_size) <==> body.len() < grid_size * grid_size,
{
    if has_free_cell(body, grid_size) {
        let free = choose|cell: Position| is_free(cell, body, grid_size);
        let longer = body.push(free);
        assert(valid_body(longer, grid_size));
        lemma_body_fits_grid(longer, grid_size);
    } else {
        let covered = covered_numbers(body, grid_size);
        let all_numbers = set_int_range(0, grid_size * grid_size);
        lemma_covered_numbers(body, grid_size);
        assert forall|n: int| all_numbers.contains(n) implies covered.contains(n) by {
            let cell = lemma_cell_of_index(n, grid_size);
            assert(!is_free(cell, body, grid_size));
            assert(body.to_set().contains(cell));
        }
        lemma_int_range(0, grid_size * grid_size);
        lemma_len_subset(all_numbers, covered);
    }
}

} // verus!

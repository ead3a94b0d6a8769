use vstd::prelude::*;
use crate::geometry::{cell_index, in_grid, Point, CELLS, GRID_W};

verus! {

/// Observation value of an empty cell.
pub const EMPTY: u8 = 0;

/// Observation value of a cell under the snake.
pub const BODY: u8 = 1;

/// Observation value of the food cell.
pub const FOOD: u8 = 2;

/// Some of the first `n` segments of `snake` sits on cell index `i`.
pub open spec fn occupied_before(snake: Seq<Point>, n: int, i: int) -> bool {
    exists|k: int| 0 <= k < n && #[trigger] cell_index(snake[k]) == i
}

/// Some segment of `snake` sits on cell index `i`.
pub open spec fn occupied(snake: Seq<Point>, i: int) -> bool {
    occupied_before(snake, snake.len() as int, i)
}

/// Every segment of `snake` lies on the grid.
pub open spec fn all_in_grid(snake: Seq<Point>) -> bool {
    forall|k: int| 0 <= k < snake.len() ==> in_grid(#[trigger] snake[k])
}

/// The flattened grid with 1 on every cell under the snake and 0 elsewhere.
pub open spec fn occupancy(snake: Seq<Point>) -> Seq<u8> {
    Seq::new(CELLS as nat, |i: int| if occupied(snake, i) { BODY } else { EMPTY })
}

/// The observation of a game: the occupancy grid with 2 written on the food
/// cell last, so that it wins over a body cell.
pub open spec fn observation(snake: Seq<Point>, food: Point) -> Seq<u8> {
    occupancy(snake).update(cell_index(food), FOOD)
}

/// A cell on the grid has an index in the flattened grid.
pub proof fn lemma_index_in_range(p: Point)
    requires
        in_grid(p),
    ensures
        0 <= cell_index(p) < CELLS,
{
}

/// Row-major index of a cell of the grid.
pub fn index_of(p: Point) -> (r: usize)
    requires
        in_grid(p),
    ensures
        r == cell_index(p),
        r < CELLS,
{
    (p.0 + p.1 * GRID_W) as usize
}

/// The occupancy grid of a snake that lies on the grid.
pub fn occupancy_grid(snake: &Vec<Point>) -> (r: Vec<u8>)
    requires
        all_in_grid(snake@),
    ensures
        r@ == occupancy(snake@),
{
    let mut grid: Vec<u8> = Vec::new();
    let mut i: usize = 0;
    while i < CELLS
        invariant
            i <= CELLS,
            grid@.len() == i,
            forall|j: int| 0 <= j < i ==> grid@[j] == EMPTY,
        decreases CELLS - i,
    {
        grid.push(EMPTY);
        i = i + 1;
    }
    let mut k: usize = 0;
    while k < snake.len()
        invariant
            k <= snake@.len(),
            all_in_grid(snake@),
            grid@.len() == CELLS,
            forall|j: int|
                0 <= j < CELLS ==> grid@[j] == if occupied_before(snake@, k as int, j) {
                    BODY
                } else {
                    EMPTY
                },
        decreases snake@.len() - k,
    {
        let p = snake[k];
        let idx = index_of(p);
        let ghost before = grid@;
        grid.set(idx, BODY);
        proof {
            assert forall|j: int| 0 <= j < CELLS implies occupied_before(snake@, k + 1, j) == (
            occupied_before(snake@, k as int, j) || j == idx) by {
                if occupied_before(snake@, k + 1, j) {
                    let m = choose|m: int| 0 <= m < k + 1 && #[trigger] cell_index(snake@[m]) == j;
                    if m < k {
                        assert(occupied_before(snake@, k as int, j));
                    }
                }
                if j == idx {
                    assert(cell_index(snake@[k as int]) == j);
                }
                if occupied_before(snake@, k as int, j) {
                    let m = choose|m: int| 0 <= m < k && #[trigger] cell_index(snake@[m]) == j;
                    assert(cell_index(snake@[m]) == j);
                }
            }
        }
        k = k + 1;
    }
    assert(grid@ =~= occupancy(snake@));
    grid
}

/// The observation grid of a snake and its food, all on the grid.
pub fn observation_grid(snake: &Vec<Point>, food: Point) -> (r: Vec<u8>)
    requires
        all_in_grid(snake@),
        in_grid(food),
    ensures
        r@ == observation(snake@, food),
        r@.len() == CELLS,
{
    let mut grid = occupancy_grid(snake);
    let idx = index_of(food);
    grid.set(idx, FOOD);
    grid
}

} // verus!

use vstd::prelude::*;
use rand::Rng;
use crate::geometry::{in_grid, Point, GRID_H, GRID_W};

verus! {

/// Relies on rand's `thread_rng().gen_range(0..n)`: a value drawn uniformly
/// from `0..n`. The call panics on an empty range, hence `n > 0`.
#[verifier::external_body]
fn random_below(n: usize) -> (r: usize)
    requires
        n > 0,
    ensures
        r < n,
{
    rand::thread_rng().gen_range(0..n)
}

/// Whether one of the first `n` segments of `snake` sits on `p`.
pub fn prefix_contains(snake: &Vec<Point>, n: usize, p: Point) -> (r: bool)
    requires
        n <= snake@.len(),
    ensures
        r == snake@.take(n as int).contains(p),
{
    let mut k: usize = 0;
    while k < n
        invariant
            n <= snake@.len(),
            k <= n,
            forall|j: int| 0 <= j < k ==> snake@[j] != p,
        decreases n - k,
    {
        if snake[k] == p {
            assert(snake@.take(n as int)[k as int] == p);
            return true;
        }
        k = k + 1;
    }
    false
}

/// Whether some segment of `snake` sits on `p`.
pub fn snake_contains(snake: &Vec<Point>, p: Point) -> (r: bool)
    ensures
        r == snake@.contains(p),
{
    let r = prefix_contains(snake, snake.len(), p);
    assert(snake@.take(snake@.len() as int) =~= snake@);
    r
}

/// The cells of the grid that `snake` leaves free, each once.
pub fn free_cells(snake: &Vec<Point>) -> (r: Vec<Point>)
    ensures
        forall|p: Point| r@.contains(p) <==> (in_grid(p) && !snake@.contains(p)),
{
    let mut out: Vec<Point> = Vec::new();
    let mut y: i16 = 0;
    while y < GRID_H
        invariant
            0 <= y <= GRID_H,
            forall|p: Point| out@.contains(p) <==> (in_grid(p) && p.1 < y && !snake@.contains(p)),
        decreases GRID_H - y,
    {
        let mut x: i16 = 0;
        while x < GRID_W
            invariant
                0 <= y < GRID_H,
                0 <= x <= GRID_W,
                forall|p: Point|
                    out@.contains(p) <==> (in_grid(p) && (p.1 < y || (p.1 == y && p.0 < x))
                        && !snake@.contains(p)),
            decreases GRID_W - x,
        {
            let q = Point(x, y);
            if !snake_contains(snake, q) {
                let ghost before = out@;
                out.push(q);
                proof {
                    assert forall|p: Point| out@.contains(p) <==> (before.contains(p) || p == q) by {
                        if before.contains(p) {
                            let j = choose|j: int| 0 <= j < before.len() && before[j] == p;
                            assert(out@[j] == p);
                        }
                        if p == q {
                            assert(out@[before.len() as int] == p);
                        }
                        if out@.contains(p) {
                            let j = choose|j: int| 0 <= j < out@.len() && out@[j] == p;
                            if j < before.len() {
                                assert(before[j] == p);
                            }
                        }
                    }
                }
            }
            x = x + 1;
        }
        y = y + 1;
    }
    out
}

/// Places food on a cell that the snake leaves free, drawn uniformly among
/// them; `None` when the snake covers the whole grid.
pub fn new_food_location(snake: &Vec<Point>) -> (r: Option<Point>)
    ensures
        r.is_none() <==> (forall|p: Point| in_grid(p) ==> snake@.contains(p)),
        r matches Some(p) ==> in_grid(p) && !snake@.contains(p),
{
    let free = free_cells(snake);
    if free.len() == 0 {
        proof {
            assert forall|p: Point| in_grid(p) implies snake@.contains(p) by {
                if !snake@.contains(p) {
                    assert(free@.contains(p));
                }
            }
        }
        None
    } else {
        let i = random_below(free.len());
        let p = free[i];
        proof {
            assert(free@.contains(p));
            assert(in_grid(p) && !snake@.contains(p));
        }
        Some(p)
    }
}

} // verus!

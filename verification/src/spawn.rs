//! The spawn placer: chooses the next cell to populate.
//!
//! Candidates are sampled uniformly at random, pulled toward the last spawn
//! position by a per-axis distance bound, and rejected when they hit the last
//! spawn position or an occupied cell. Every failed attempt widens the
//! distance bound; after a fixed number of attempts the placer falls back to
//! a deterministic scan, so it provably terminates and finds a free cell
//! whenever one exists.

use vstd::prelude::*;

use rand::Rng;
use vstd::pervasive::unreached;

use crate::grid::cell_index;
use crate::grid::clamp_index;
use crate::grid::lemma_count_free_pos;
use crate::grid::lemma_unique_free;
use crate::grid::Grid;
use crate::GRID_COLS;
use crate::GRID_ROWS;
use crate::MAX_SPAWN_ATTEMPTS;
use crate::SPAWN_DISTANCE;

verus! {

/// A grid coordinate.
#[derive(Debug, Clone, Copy, PartialEq, Eq, Structural)]
pub struct CellPos {
    pub col: usize,
    pub row: usize,
}

impl CellPos {
    /// Both coordinates lie inside the grid.
    pub open spec fn in_bounds(&self) -> bool {
        self.col < GRID_COLS && self.row < GRID_ROWS
    }
}

/// Clamp `v` into the closed interval `[lo, hi]`.
pub open spec fn clamp_between(v: int, lo: int, hi: int) -> int {
    if v < lo {
        lo
    } else if v > hi {
        hi
    } else {
        v
    }
}

/// Relies on rand::thread_rng and rand::Rng::gen_range: returns a uniformly
/// random value in `[0, n)`. gen_range panics only on an empty range, which
/// `n > 0` rules out.
#[verifier::external_body]
fn random_below(n: usize) -> (r: usize)
    requires
        n > 0,
    ensures
        r < n,
{
    rand::thread_rng().gen_range(0..n)
}

/// Pull a sampled candidate toward the last spawn position: the offset from
/// `last` is clamped to at most `d` per axis, and the result is clamped into
/// grid bounds.
pub fn constrain_candidate(x: usize, y: usize, last: CellPos, d: usize) -> (p: CellPos)
    requires
        x < GRID_COLS,
        y < GRID_ROWS,
        last.in_bounds(),
        d <= GRID_COLS + GRID_ROWS,
    ensures
        p.in_bounds(),
        p.col == clamp_between(
            last.col + clamp_between(x - last.col, -(d as int), d as int),
            0,
            GRID_COLS as int - 1,
        ),
        p.row == clamp_between(
            last.row + clamp_between(y - last.row, -(d as int), d as int),
            0,
            GRID_ROWS as int - 1,
        ),
{
    let di = d as i64;
    let ox = x as i64 - last.col as i64;
    let ox = if ox < -di {
        -di
    } else if ox > di {
        di
    } else {
        ox
    };
    let cx = last.col as i64 + ox;
    let cx = if cx < 0 {
        0
    } else if cx > GRID_COLS as i64 - 1 {
        GRID_COLS as i64 - 1
    } else {
        cx
    };
    let oy = y as i64 - last.row as i64;
    let oy = if oy < -di {
        -di
    } else if oy > di {
        di
    } else {
        oy
    };
    let cy = last.row as i64 + oy;
    let cy = if cy < 0 {
        0
    } else if cy > GRID_ROWS as i64 - 1 {
        GRID_ROWS as i64 - 1
    } else {
        cy
    };
    CellPos { col: cx as usize, row: cy as usize }
}

/// Deterministic fallback: the first free cell other than `last`, or `last`
/// itself when it is the only free cell.
fn scan_free_avoiding(grid: &Grid, last: CellPos) -> (p: CellPos)
    requires
        grid.wf(),
        grid.free_count_spec() > 0,
        last.in_bounds(),
    ensures
        p.in_bounds(),
        grid.is_free_spec(p.col as int, p.row as int),
        (exists|j: int|
            0 <= j < grid@.len() && grid@[j] is None && j != cell_index(
                last.col as int,
                last.row as int,
            )) ==> !(p.col == last.col && p.row == last.row),
{
    let ghost last_idx = cell_index(last.col as int, last.row as int);
    let mut row: usize = 0;
    while row < GRID_ROWS
        invariant
            grid.wf(),
            last.in_bounds(),
            row <= GRID_ROWS,
            forall|j: int|
                0 <= j < row * GRID_COLS ==> grid@[j] is Some || j == cell_index(
                    last.col as int,
                    last.row as int,
                ),
        decreases GRID_ROWS - row,
    {
        let mut col: usize = 0;
        while col < GRID_COLS
            invariant
                grid.wf(),
                last.in_bounds(),
                row < GRID_ROWS,
                col <= GRID_COLS,
                forall|j: int|
                    0 <= j < row * GRID_COLS + col ==> grid@[j] is Some || j == cell_index(
                        last.col as int,
                        last.row as int,
                    ),
            decreases GRID_COLS - col,
        {
            if grid.is_free(col, row) && !(col == last.col && row == last.row) {
                return CellPos { col, row };
            }
            col = col + 1;
        }
        row = row + 1;
    }
    if grid.is_free(last.col, last.row) {
        return last;
    }
    proof {
        lemma_count_free_pos(grid@);
        let j = choose|j: int| 0 <= j < grid@.len() && grid@[j] is None;
        assert(grid@[j] is Some || j == last_idx);
        assert(false);
    }
    unreached()
}

/// Pick a free cell for the next spawn. Random candidates are biased toward
/// the last spawn position by an escalating distance bound and never land on
/// it; when the random search fails, a deterministic scan guarantees a free
/// cell is selected, avoiding the last spawn position unless it holds the
/// only free cell.
pub fn pick_spawn_cell(grid: &Grid, last: CellPos) -> (p: CellPos)
    requires
        grid.wf(),
        grid.free_count_spec() > 0,
        last.in_bounds(),
    ensures
        p.in_bounds(),
        grid.is_free_spec(p.col as int, p.row as int),
        (exists|j: int|
            0 <= j < grid@.len() && grid@[j] is None && j != cell_index(
                last.col as int,
                last.row as int,
            )) ==> !(p.col == last.col && p.row == last.row),
{
    let mut attempt: usize = 0;
    while attempt < MAX_SPAWN_ATTEMPTS
        invariant
            grid.wf(),
            grid.free_count_spec() > 0,
            last.in_bounds(),
        decreases MAX_SPAWN_ATTEMPTS - attempt,
    {
        let widen = attempt / 2;
        let d = if SPAWN_DISTANCE + widen > GRID_COLS {
            GRID_COLS
        } else {
            SPAWN_DISTANCE + widen
        };
        let x = random_below(GRID_COLS);
        let y = random_below(GRID_ROWS);
        let cand = constrain_candidate(x, y, last, d);
        if !(cand.col == last.col && cand.row == last.row) && grid.is_free(cand.col, cand.row) {
            return cand;
        }
        attempt = attempt + 1;
    }
    scan_free_avoiding(grid, last)
}

/// Fallback termination on a nearly full grid: when exactly one free cell
/// remains, any in-bounds free cell the placer can return is that cell.
pub proof fn lemma_sole_free_cell_is_chosen(g: Grid, p: CellPos, j: int)
    requires
        g.wf(),
        g.free_count_spec() == 1,
        p.in_bounds(),
        g.is_free_spec(p.col as int, p.row as int),
        0 <= j < g@.len(),
        g@[j] is None,
    ensures
        cell_index(p.col as int, p.row as int) == j,
{
    lemma_unique_free(g@, cell_index(p.col as int, p.row as int), j);
}

} // verus!

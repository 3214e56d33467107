//! The occupancy grid: a fixed matrix of cells, each either empty or holding
//! a tile with an opaque handle and a decaying worth timer.
//!
//! Coordinates handed to the grid are always clamped into bounds before any
//! access, so every operation is total. Cells move from empty to occupied
//! only through [`Grid::place`] and back only through a successful
//! [`Grid::claim`]; ticking never removes a tile, it only runs the worth
//! timers down to zero.

use vstd::prelude::*;

use crate::score::points_spec;
use crate::score::points;
use crate::GRID_COLS;
use crate::GRID_ROWS;
use crate::TILE_WORTH_MS;

verus! {

/// A tile occupying one grid cell.
#[derive(Debug, Clone, Copy, PartialEq, Eq, Structural)]
pub struct Tile {
    /// Opaque handle for the external resource (e.g. a renderable entity)
    /// that stands for this tile; the engine stores it and returns it on
    /// removal, never interprets it.
    pub handle: u64,
    /// Remaining worth timer in milliseconds of virtual time.
    pub worth_ms: u64,
}

/// Clamp an index into `[0, n)`; values at or above `n` land on `n - 1`.
pub open spec fn clamp_index(v: int, n: int) -> int {
    if v < n {
        v
    } else {
        n - 1
    }
}

/// Flat index of the cell at `(col, row)` in row-major order.
pub open spec fn cell_index(col: int, row: int) -> int {
    row * GRID_COLS + col
}

/// Number of empty cells in a sequence of cells.
pub open spec fn count_free(s: Seq<Option<Tile>>) -> int
    decreases s.len(),
{
    if s.len() == 0 {
        0
    } else {
        count_free(s.drop_last()) + (if s.last() is None {
            1int
        } else {
            0int
        })
    }
}

/// Number of occupied cells in a sequence of cells.
pub open spec fn count_filled(s: Seq<Option<Tile>>) -> int
    decreases s.len(),
{
    if s.len() == 0 {
        0
    } else {
        count_filled(s.drop_last()) + (if s.last() is Some {
            1int
        } else {
            0int
        })
    }
}

/// The free and filled counts of any cell sequence add up to its length.
pub proof fn lemma_counts_sum(s: Seq<Option<Tile>>)
    ensures
        count_free(s) + count_filled(s) == s.len(),
    decreases s.len(),
{
    if s.len() > 0 {
        lemma_counts_sum(s.drop_last());
    }
}

/// The free count of any cell sequence lies between 0 and its length.
pub proof fn lemma_count_free_bounds(s: Seq<Option<Tile>>)
    ensures
        0 <= count_free(s) <= s.len(),
    decreases s.len(),
{
    if s.len() > 0 {
        lemma_count_free_bounds(s.drop_last());
    }
}

/// Updating one cell changes the free count exactly by the difference
/// between the old and the new cell's emptiness.
pub proof fn lemma_count_free_update(s: Seq<Option<Tile>>, i: int, c: Option<Tile>)
    requires
        0 <= i < s.len(),
    ensures
        count_free(s.update(i, c)) == count_free(s) - (if s[i] is None {
            1int
        } else {
            0int
        }) + (if c is None {
            1int
        } else {
            0int
        }),
    decreases s.len(),
{
    let t = s.update(i, c);
    if i == s.len() - 1 {
        assert(t.drop_last() =~= s.drop_last());
    } else {
        assert(t.drop_last() =~= s.drop_last().update(i, c));
        lemma_count_free_update(s.drop_last(), i, c);
    }
}

/// A sequence of only empty cells has a free count equal to its length.
pub proof fn lemma_count_free_all(s: Seq<Option<Tile>>)
    requires
        forall|i: int| 0 <= i < s.len() ==> s[i] is None,
    ensures
        count_free(s) == s.len(),
    decreases s.len(),
{
    if s.len() > 0 {
        lemma_count_free_all(s.drop_last());
    }
}

/// A positive free count yields a witness: some cell is empty.
pub proof fn lemma_count_free_pos(s: Seq<Option<Tile>>)
    requires
        count_free(s) > 0,
    ensures
        exists|i: int| 0 <= i < s.len() && s[i] is None,
    decreases s.len(),
{
    if s.last() is None {
        assert(s[s.len() - 1] is None);
    } else {
        lemma_count_free_pos(s.drop_last());
        let i = choose|i: int| 0 <= i < s.drop_last().len() && s.drop_last()[i] is None;
        assert(s[i] is None);
    }
}

/// An empty cell makes the free count positive.
pub proof fn lemma_count_free_at(s: Seq<Option<Tile>>, i: int)
    requires
        0 <= i < s.len(),
        s[i] is None,
    ensures
        count_free(s) >= 1,
    decreases s.len(),
{
    lemma_count_free_bounds(s.drop_last());
    if i < s.len() - 1 {
        lemma_count_free_at(s.drop_last(), i);
    }
}

/// With exactly one empty cell, any two empty positions coincide.
pub proof fn lemma_unique_free(s: Seq<Option<Tile>>, i: int, j: int)
    requires
        count_free(s) == 1,
        0 <= i < s.len(),
        0 <= j < s.len(),
        s[i] is None,
        s[j] is None,
    ensures
        i == j,
    decreases s.len(),
{
    if i != j {
        let hi = if i < j {
            j
        } else {
            i
        };
        let lo = if i < j {
            i
        } else {
            j
        };
        if hi == s.len() - 1 {
            lemma_count_free_at(s.drop_last(), lo);
        } else if s.last() is None {
            lemma_count_free_at(s.drop_last(), lo);
        } else {
            lemma_unique_free(s.drop_last(), lo, hi);
        }
    }
}

/// A worth timer after `dt` milliseconds of virtual time have passed:
/// counts down and stops at zero.
pub open spec fn worth_after(worth_ms: u64, dt: u64) -> u64 {
    if dt >= worth_ms {
        0
    } else {
        (worth_ms - dt) as u64
    }
}

/// One cell after `dt` milliseconds of virtual time: an empty cell stays
/// empty; an occupied cell keeps its handle and runs its worth timer down.
pub open spec fn cell_after_tick(c: Option<Tile>, dt: u64) -> Option<Tile> {
    match c {
        None => None,
        Some(t) => Some(Tile { handle: t.handle, worth_ms: worth_after(t.worth_ms, dt) }),
    }
}

/// A whole cell sequence after `dt` milliseconds of virtual time.
pub open spec fn cells_after_tick(s: Seq<Option<Tile>>, dt: u64) -> Seq<Option<Tile>> {
    Seq::new(s.len(), |i: int| cell_after_tick(s[i], dt))
}

/// Ticking never changes which cells are occupied, so the free count is
/// preserved.
pub proof fn lemma_tick_preserves_count(s: Seq<Option<Tile>>, dt: u64)
    ensures
        count_free(cells_after_tick(s, dt)) == count_free(s),
    decreases s.len(),
{
    if s.len() > 0 {
        assert(cells_after_tick(s, dt).drop_last() =~= cells_after_tick(s.drop_last(), dt));
        lemma_tick_preserves_count(s.drop_last(), dt);
    }
}

/// The occupancy grid: `GRID_COLS x GRID_ROWS` cells in row-major order.
pub struct Grid {
    cells: Vec<Option<Tile>>,
}

impl View for Grid {
    type V = Seq<Option<Tile>>;

    closed spec fn view(&self) -> Seq<Option<Tile>> {
        self.cells@
    }
}

impl Grid {
    /// Well-formed: full size, and no worth timer above its starting value.
    pub open spec fn wf(&self) -> bool {
        &&& self@.len() == GRID_COLS * GRID_ROWS
        &&& forall|i: int|
            0 <= i < self@.len() && #[trigger] self@[i] is Some ==> self@[i].unwrap().worth_ms
                <= TILE_WORTH_MS
    }

    /// Whether the in-bounds cell at `(col, row)` is empty.
    pub open spec fn is_free_spec(&self, col: int, row: int) -> bool {
        self@[cell_index(col, row)] is None
    }

    /// Number of empty cells.
    pub open spec fn free_count_spec(&self) -> int {
        count_free(self@)
    }

    /// Number of occupied cells.
    pub open spec fn filled_count_spec(&self) -> int {
        count_filled(self@)
    }

    /// A fresh, fully empty grid.
    pub fn new() -> (g: Grid)
        ensures
            g.wf(),
            g@.len() == GRID_COLS * GRID_ROWS,
            forall|i: int| 0 <= i < g@.len() ==> g@[i] is None,
            g.free_count_spec() == GRID_COLS * GRID_ROWS,
    {
        let total = GRID_COLS * GRID_ROWS;
        let mut cells: Vec<Option<Tile>> = Vec::new();
        let mut i: usize = 0;
        while i < total
            invariant
                i <= total,
                cells@.len() == i,
                forall|j: int| 0 <= j < i ==> cells@[j] is None,
            decreases total - i,
        {
            cells.push(None);
            i = i + 1;
        }
        let g = Grid { cells };
        proof {
            lemma_count_free_all(g@);
        }
        g
    }

    /// Whether the cell at the clamped coordinates is empty.
    pub fn is_free(&self, col: usize, row: usize) -> (r: bool)
        requires
            self.wf(),
        ensures
            r == self.is_free_spec(
                clamp_index(col as int, GRID_COLS as int),
                clamp_index(row as int, GRID_ROWS as int),
            ),
    {
        let cc = if col < GRID_COLS {
            col
        } else {
            GRID_COLS - 1
        };
        let cr = if row < GRID_ROWS {
            row
        } else {
            GRID_ROWS - 1
        };
        let i = cr * GRID_COLS + cc;
        self.cells[i].is_none()
    }

    /// Place a tile with a fresh worth timer at the clamped coordinates.
    /// The caller must have checked that the target cell is empty.
    pub fn place(&mut self, col: usize, row: usize, handle: u64)
        requires
            old(self).wf(),
            old(self).is_free_spec(
                clamp_index(col as int, GRID_COLS as int),
                clamp_index(row as int, GRID_ROWS as int),
            ),
        ensures
            final(self).wf(),
            final(self)@ == old(self)@.update(
                cell_index(
                    clamp_index(col as int, GRID_COLS as int),
                    clamp_index(row as int, GRID_ROWS as int),
                ),
                Some(Tile { handle, worth_ms: TILE_WORTH_MS }),
            ),
            final(self).free_count_spec() == old(self).free_count_spec() - 1,
    {
        let cc = if col < GRID_COLS {
            col
        } else {
            GRID_COLS - 1
        };
        let cr = if row < GRID_ROWS {
            row
        } else {
            GRID_ROWS - 1
        };
        let i = cr * GRID_COLS + cc;
        proof {
            lemma_count_free_update(
                self@,
                i as int,
                Some(Tile { handle, worth_ms: TILE_WORTH_MS }),
            );
        }
        self.cells[i] = Some(Tile { handle, worth_ms: TILE_WORTH_MS });
    }

    /// Remove and return the occupant of the cell at the clamped
    /// coordinates, together with its point value; `None` if the cell is
    /// empty (the grid is then unchanged).
    pub fn claim(&mut self, col: usize, row: usize) -> (r: Option<(u64, u64)>)
        requires
            old(self).wf(),
        ensures
            final(self).wf(),
            ({
                let cc = clamp_index(col as int, GRID_COLS as int);
                let cr = clamp_index(row as int, GRID_ROWS as int);
                let i = cell_index(cc, cr);
                if old(self)@[i] is Some {
                    let t = old(self)@[i].unwrap();
                    &&& r == Some((t.handle, points_spec(t.worth_ms) as u64))
                    &&& final(self)@ == old(self)@.update(i, None::<Tile>)
                    &&& final(self).free_count_spec() == old(self).free_count_spec() + 1
                } else {
                    &&& r is None
                    &&& final(self)@ == old(self)@
                }
            }),
    {
        let cc = if col < GRID_COLS {
            col
        } else {
            GRID_COLS - 1
        };
        let cr = if row < GRID_ROWS {
            row
        } else {
            GRID_ROWS - 1
        };
        let i = cr * GRID_COLS + cc;
        let cell = self.cells[i];
        match cell {
            Some(t) => {
                proof {
                    lemma_count_free_update(self@, i as int, None::<Tile>);
                }
                self.cells[i] = None;
                let pts = points(t.worth_ms);
                Some((t.handle, pts))
            },
            None => None,
        }
    }

    /// Advance every occupied cell's worth timer by `dt_ms` milliseconds of
    /// virtual time. Timers stop at zero; tiles are never removed here.
    pub fn tick(&mut self, dt_ms: u64)
        requires
            old(self).wf(),
        ensures
            final(self).wf(),
            final(self)@ == cells_after_tick(old(self)@, dt_ms),
            final(self).free_count_spec() == old(self).free_count_spec(),
    {
        let len = self.cells.len();
        let mut i: usize = 0;
        while i < len
            invariant
                i <= len,
                len == self@.len(),
                self@.len() == old(self)@.len(),
                forall|j: int| 0 <= j < i ==> self@[j] == cell_after_tick(old(self)@[j], dt_ms),
                forall|j: int| i <= j < len ==> self@[j] == old(self)@[j],
            decreases len - i,
        {
            let cell = self.cells[i];
            if let Some(t) = cell {
                let w = if dt_ms >= t.worth_ms {
                    0
                } else {
                    t.worth_ms - dt_ms
                };
                self.cells[i] = Some(Tile { handle: t.handle, worth_ms: w });
            }
            i = i + 1;
        }
        proof {
            assert(self@ =~= cells_after_tick(old(self)@, dt_ms));
            lemma_tick_preserves_count(old(self)@, dt_ms);
        }
    }

    /// Number of empty cells.
    pub fn free_count(&self) -> (n: usize)
        ensures
            n == self.free_count_spec(),
    {
        let len = self.cells.len();
        let mut n: usize = 0;
        let mut i: usize = 0;
        while i < len
            invariant
                i <= len,
                n <= i,
                len == self@.len(),
                n == count_free(self@.take(i as int)),
            decreases len - i,
        {
            proof {
                assert(self@.take(i + 1).drop_last() =~= self@.take(i as int));
                assert(self@.take(i + 1).last() == self@[i as int]);
            }
            if self.cells[i].is_none() {
                n = n + 1;
            }
            i = i + 1;
        }
        proof {
            assert(self@.take(len as int) =~= self@);
        }
        n
    }

    /// Number of occupied cells.
    pub fn filled_count(&self) -> (n: usize)
        requires
            self.wf(),
        ensures
            n == self.filled_count_spec(),
    {
        proof {
            lemma_counts_sum(self@);
            lemma_count_free_bounds(self@);
        }
        GRID_COLS * GRID_ROWS - self.free_count()
    }

    /// Whether every cell is occupied.
    pub fn is_full(&self) -> (r: bool)
        ensures
            r == (self.free_count_spec() == 0),
    {
        self.free_count() == 0
    }
}

/// Occupancy accounting: in every well-formed grid the number of free cells
/// and the number of filled cells always add up to the total cell count.
pub proof fn lemma_occupancy(g: Grid)
    requires
        g.wf(),
    ensures
        g.free_count_spec() + g.filled_count_spec() == GRID_COLS * GRID_ROWS,
{
    lemma_counts_sum(g@);
}

} // verus!

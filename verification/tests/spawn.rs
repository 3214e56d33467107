//! Spawn placer behavior: distance bias, never overwriting, and guaranteed
//! termination on the last free cell.

use tile_clicker::grid::Grid;
use tile_clicker::spawn::constrain_candidate;
use tile_clicker::spawn::pick_spawn_cell;
use tile_clicker::spawn::CellPos;

#[test]
fn candidate_pulled_within_distance() {
    let last = CellPos { col: 0, row: 0 };
    let p = constrain_candidate(4, 4, last, 2);
    assert_eq!((p.col, p.row), (2, 2));
    let last = CellPos { col: 4, row: 4 };
    let p = constrain_candidate(0, 0, last, 2);
    assert_eq!((p.col, p.row), (2, 2));
}

#[test]
fn candidate_within_distance_unchanged() {
    let last = CellPos { col: 1, row: 1 };
    let p = constrain_candidate(2, 0, last, 2);
    assert_eq!((p.col, p.row), (2, 0));
    let p = constrain_candidate(3, 3, last, 2);
    assert_eq!((p.col, p.row), (3, 3));
}

#[test]
fn candidate_clamped_into_bounds() {
    // A wide distance bound cannot push the result out of the grid.
    let last = CellPos { col: 4, row: 0 };
    let p = constrain_candidate(4, 4, last, 5);
    assert!(p.col < 5 && p.row < 5);
    assert_eq!((p.col, p.row), (4, 4));
}

#[test]
fn single_free_cell_is_selected() {
    let mut g = Grid::new();
    for row in 0..5 {
        for col in 0..5 {
            if (col, row) != (2, 3) {
                g.place(col, row, 1);
            }
        }
    }
    let p = pick_spawn_cell(&g, CellPos { col: 0, row: 0 });
    assert_eq!((p.col, p.row), (2, 3));
}

#[test]
fn single_free_cell_even_at_last_spawn() {
    let mut g = Grid::new();
    for row in 0..5 {
        for col in 0..5 {
            if (col, row) != (1, 1) {
                g.place(col, row, 1);
            }
        }
    }
    // The only free cell is the last spawn position itself; the placer must
    // still terminate and select it.
    let p = pick_spawn_cell(&g, CellPos { col: 1, row: 1 });
    assert_eq!((p.col, p.row), (1, 1));
}

#[test]
fn placer_avoids_last_spawn_when_possible() {
    let g = Grid::new();
    for _ in 0..50 {
        let p = pick_spawn_cell(&g, CellPos { col: 2, row: 2 });
        assert!(p.col < 5 && p.row < 5);
        assert!((p.col, p.row) != (2, 2));
    }
}

#[test]
fn placer_never_selects_occupied_cell() {
    let mut g = Grid::new();
    let mut last = CellPos { col: 0, row: 0 };
    // Fill the whole grid by repeated placement: every pick must be free.
    for _ in 0..25 {
        let p = pick_spawn_cell(&g, last);
        assert!(g.is_free(p.col, p.row));
        g.place(p.col, p.row, 1);
        last = p;
    }
    assert!(g.is_full());
}

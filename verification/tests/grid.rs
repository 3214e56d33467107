//! Grid behavior: coordinate clamping, the score formula, occupancy
//! accounting, and worth-timer decay.

use tile_clicker::grid::Grid;

#[test]
fn clamping_place_and_claim_out_of_bounds() {
    let mut g = Grid::new();
    // Far out-of-bounds coordinates land on the bottom-right cell.
    g.place(99, 99, 7);
    assert!(!g.is_free(4, 4));
    assert!(g.is_free(3, 4));
    assert!(g.is_free(4, 3));
    // A differently out-of-bounds claim reaches the same clamped cell.
    let r = g.claim(100, 2000);
    assert_eq!(r, Some((7, 10)));
    assert!(g.is_free(4, 4));
}

#[test]
fn clamping_is_free_out_of_bounds() {
    let mut g = Grid::new();
    assert!(g.is_free(1000, 1000));
    g.place(4, 4, 1);
    assert!(!g.is_free(1000, 1000));
}

#[test]
fn claim_on_empty_cell_returns_none_and_changes_nothing() {
    let mut g = Grid::new();
    g.place(2, 2, 5);
    assert_eq!(g.claim(1, 1), None);
    assert_eq!(g.free_count(), 24);
    assert!(!g.is_free(2, 2));
}

#[test]
fn score_formula_partial_decay() {
    let mut g = Grid::new();
    g.place(0, 0, 1);
    // 5000 ms - 1800 ms leaves 3200 ms: floor(3.2 s * 2) = 6 points.
    g.tick(1800);
    assert_eq!(g.claim(0, 0), Some((1, 6)));
}

#[test]
fn score_formula_fresh_and_elapsed() {
    let mut g = Grid::new();
    g.place(0, 0, 1);
    g.place(1, 0, 2);
    // A fresh tile is worth floor(5.0 s * 2) = 10 points.
    assert_eq!(g.claim(0, 0), Some((1, 10)));
    // A fully elapsed timer yields 0 points.
    g.tick(99999);
    assert_eq!(g.claim(1, 0), Some((2, 0)));
}

#[test]
fn elapsed_tile_stays_claimable() {
    let mut g = Grid::new();
    g.place(3, 3, 9);
    g.tick(5000);
    // The timer reached zero but the tile was not removed.
    assert!(!g.is_free(3, 3));
    assert_eq!(g.filled_count(), 1);
    assert_eq!(g.claim(3, 3), Some((9, 0)));
    assert_eq!(g.filled_count(), 0);
}

#[test]
fn occupancy_counts_always_sum_to_total() {
    let mut g = Grid::new();
    assert_eq!(g.free_count() + g.filled_count(), 25);
    g.place(0, 0, 1);
    g.place(1, 2, 2);
    g.place(4, 4, 3);
    assert_eq!(g.free_count(), 22);
    assert_eq!(g.filled_count(), 3);
    assert_eq!(g.free_count() + g.filled_count(), 25);
    g.claim(1, 2);
    assert_eq!(g.free_count() + g.filled_count(), 25);
    g.tick(1234);
    assert_eq!(g.free_count() + g.filled_count(), 25);
}

#[test]
fn full_grid_reports_full() {
    let mut g = Grid::new();
    for row in 0..5 {
        for col in 0..5 {
            assert!(!g.is_full());
            g.place(col, row, (row * 5 + col) as u64);
        }
    }
    assert!(g.is_full());
    assert_eq!(g.free_count(), 0);
    assert_eq!(g.filled_count(), 25);
}

#[test]
fn tick_decays_every_occupied_cell() {
    let mut g = Grid::new();
    g.place(0, 0, 1);
    g.tick(1000);
    g.place(1, 1, 2);
    g.tick(1000);
    // First tile decayed 2000 ms, second only 1000 ms.
    assert_eq!(g.claim(0, 0), Some((1, 6)));
    assert_eq!(g.claim(1, 1), Some((2, 8)));
}

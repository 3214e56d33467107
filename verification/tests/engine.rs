//! Session state machine scenarios: the full Paused -> Running -> Finished
//! -> Paused lifecycle, timeout, loss, spawning, claiming, and scoring.

use tile_clicker::session::ClickEvent;
use tile_clicker::session::FinishReason;
use tile_clicker::session::RunningState;
use tile_clicker::session::SessionStateMachine;
use tile_clicker::session::TickOutput;

fn click(col: usize, row: usize) -> Option<ClickEvent> {
    Some(ClickEvent { tile_x: col, tile_y: row })
}

/// Tick with a small delta until a spawn is reported; panics if none comes.
fn tick_until_spawn(m: &mut SessionStateMachine) -> TickOutput {
    for _ in 0..30 {
        let out = m.tick(300, None);
        assert!(out.finished.is_none());
        if !out.spawns.is_empty() {
            return out;
        }
    }
    panic!("no spawn within the cadence period");
}

#[test]
fn state_machine_lifecycle() {
    let mut m = SessionStateMachine::new();
    assert_eq!(m.state(), RunningState::Paused);
    m.start();
    assert_eq!(m.state(), RunningState::Running);
    assert_eq!(m.score(), 0);
    assert_eq!(m.free_cells(), 25);
    // A claim on an empty cell loses the session.
    let out = m.tick(0, click(0, 0));
    assert_eq!(m.state(), RunningState::Finished);
    assert_eq!(out.finished, Some(FinishReason::Lost));
    assert!(out.misclick.is_some());
    assert!(out.removal.is_none());
    // Accepting the outcome discards the session.
    m.accept_outcome();
    assert_eq!(m.state(), RunningState::Paused);
    assert_eq!(m.score(), 0);
    assert_eq!(m.free_cells(), 0);
}

#[test]
fn timeout_finishes_with_timed_out() {
    let mut m = SessionStateMachine::new();
    m.start();
    let out = m.tick(30000, None);
    // Landing exactly on the session length does not yet time out.
    assert_eq!(m.state(), RunningState::Running);
    assert_eq!(out.remaining_ms, 0);
    let out = m.tick(1, None);
    assert_eq!(m.state(), RunningState::Finished);
    assert_eq!(out.finished, Some(FinishReason::TimedOut));
    assert_eq!(out.remaining_ms, 0);
}

#[test]
fn timeout_in_one_jump() {
    let mut m = SessionStateMachine::new();
    m.start();
    let out = m.tick(1000000, None);
    assert_eq!(m.state(), RunningState::Finished);
    assert_eq!(out.finished, Some(FinishReason::TimedOut));
}

#[test]
fn input_ignored_outside_running() {
    let mut m = SessionStateMachine::new();
    let out = m.tick(5000, click(2, 2));
    assert_eq!(m.state(), RunningState::Paused);
    assert!(out.finished.is_none());
    assert!(out.misclick.is_none());
    assert_eq!(out.score, 0);
    m.start();
    m.tick(0, click(0, 0));
    assert_eq!(m.state(), RunningState::Finished);
    // Clicks while Finished are ignored too.
    let out = m.tick(100, click(1, 1));
    assert_eq!(m.state(), RunningState::Finished);
    assert!(out.misclick.is_none());
}

#[test]
fn start_and_accept_are_noops_elsewhere() {
    let mut m = SessionStateMachine::new();
    m.accept_outcome();
    assert_eq!(m.state(), RunningState::Paused);
    m.start();
    let before = m.free_cells();
    // start from Running changes nothing.
    m.start();
    assert_eq!(m.state(), RunningState::Running);
    assert_eq!(m.free_cells(), before);
    // accept_outcome from Running changes nothing.
    m.accept_outcome();
    assert_eq!(m.state(), RunningState::Running);
}

#[test]
fn no_input_ticks_never_remove_tiles() {
    let mut m = SessionStateMachine::new();
    m.start();
    let mut spawned: usize = 0;
    for _ in 0..90 {
        let out = m.tick(300, None);
        assert!(out.removal.is_none());
        assert!(out.misclick.is_none());
        assert!(out.finished.is_none());
        assert_eq!(out.score, 0);
        spawned += out.spawns.len();
        // Occupancy changes only by the spawns the ticks reported.
        assert_eq!(m.free_cells(), 25 - spawned);
    }
    assert!(spawned > 0);
}

#[test]
fn spawned_tile_claim_roundtrip() {
    let mut m = SessionStateMachine::new();
    m.start();
    let out = tick_until_spawn(&mut m);
    assert_eq!(out.spawns.len(), 1);
    let sp = out.spawns[0];
    assert!(sp.col < 5 && sp.row < 5);
    // Claim the freshly spawned tile with no further time passing: it is
    // still worth the full 10 points, and the removal returns the same
    // opaque handle the spawn reported.
    let out = m.tick(0, click(sp.col, sp.row));
    assert_eq!(m.state(), RunningState::Running);
    let removal = out.removal.expect("claim on the spawned tile");
    assert_eq!(removal.handle, sp.handle);
    assert_eq!((removal.col, removal.row), (sp.col, sp.row));
    assert_eq!(removal.points, 10);
    assert_eq!(out.score, 10);
    assert_eq!(m.score(), 10);
}

#[test]
fn claim_emptying_grid_triggers_refill() {
    let mut m = SessionStateMachine::new();
    m.start();
    let out = tick_until_spawn(&mut m);
    let sp = out.spawns[0];
    // The grid holds exactly one tile; claiming it would leave the grid
    // empty, so the same tick spawns a replacement.
    let out = m.tick(0, click(sp.col, sp.row));
    assert!(out.removal.is_some());
    assert_eq!(out.spawns.len(), 1);
    assert_eq!(m.free_cells(), 24);
    // The replacement carries a fresh handle.
    assert!(out.spawns[0].handle != sp.handle);
}

#[test]
fn score_accumulates_over_claims() {
    let mut m = SessionStateMachine::new();
    m.start();
    let out = tick_until_spawn(&mut m);
    let sp = out.spawns[0];
    let out = m.tick(0, click(sp.col, sp.row));
    assert_eq!(out.score, 10);
    let sp = out.spawns[0];
    let out = m.tick(0, click(sp.col, sp.row));
    assert_eq!(out.score, 20);
    assert_eq!(m.score(), 20);
}

#[test]
fn misclick_marker_is_clamped() {
    let mut m = SessionStateMachine::new();
    m.start();
    let out = m.tick(0, click(99, 1000));
    assert_eq!(out.finished, Some(FinishReason::Lost));
    let pos = out.misclick.expect("error marker");
    assert_eq!((pos.col, pos.row), (4, 4));
}

#[test]
fn remaining_time_counts_down() {
    let mut m = SessionStateMachine::new();
    assert_eq!(m.remaining_ms(), 30000);
    m.start();
    assert_eq!(m.remaining_ms(), 30000);
    let out = m.tick(1000, None);
    assert_eq!(out.remaining_ms, 29000);
    assert_eq!(m.remaining_ms(), 29000);
}

#[test]
fn restart_gets_fresh_session() {
    let mut m = SessionStateMachine::new();
    m.start();
    let out = tick_until_spawn(&mut m);
    let sp = out.spawns[0];
    m.tick(0, click(sp.col, sp.row));
    assert_eq!(m.score(), 10);
    m.tick(1000000, None);
    m.accept_outcome();
    m.start();
    // Score, grid and clock were discarded, not carried over.
    assert_eq!(m.score(), 0);
    assert_eq!(m.free_cells(), 25);
    assert_eq!(m.remaining_ms(), 30000);
}

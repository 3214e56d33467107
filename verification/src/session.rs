//! The session state machine: sequences Paused -> Running -> Finished ->
//! Paused, owns the per-session resources, and runs one simulation step per
//! tick.
//!
//! While Running, each tick advances real time, recomputes the difficulty
//! curve, advances virtual time, runs the worth timers and the spawn-cadence
//! timer, invokes the spawn placer when the cadence timer elapses, and
//! applies at most one click. A claim on an empty cell loses the session;
//! real time passing the session length times it out. Once the elapsed time
//! would pass the session length, the tick freezes the session and finishes
//! it before any further simulation, so the session clock never leaves the
//! session's range.

use vstd::prelude::*;

use vstd::arithmetic::div_mod::lemma_div_is_ordered;
use vstd::arithmetic::div_mod::lemma_div_multiples_vanish;
use vstd::arithmetic::mul::lemma_mul_inequality;

use crate::curve::speed_milli;
use crate::curve::speed_milli_spec;
use crate::grid::cell_index;
use crate::grid::cells_after_tick;
use crate::grid::clamp_index;
use crate::grid::count_filled;
use crate::grid::count_free;
use crate::grid::lemma_count_free_bounds;
use crate::grid::lemma_count_free_update;
use crate::grid::lemma_counts_sum;
use crate::grid::lemma_tick_preserves_count;
use crate::grid::Grid;
use crate::grid::Tile;
use crate::score::points_spec;
use crate::spawn::pick_spawn_cell;
use crate::spawn::CellPos;
use crate::BASE_SPAWN_PERIOD_MS;
use crate::GAME_DURATION_MS;
use crate::GRID_COLS;
use crate::GRID_ROWS;
use crate::SPEED_SCALE;
use crate::TILE_WORTH_MS;

verus! {

/// Phases of one game session.
#[derive(Debug, Clone, Copy, Default, PartialEq, Eq, Hash, Structural)]
pub enum RunningState {
    /// Idle: no session exists.
    #[default]
    Paused,
    /// Simulation active, input accepted.
    Running,
    /// Simulation frozen; only the outcome decision is accepted.
    Finished,
}

/// Why a running session finished.
#[derive(Debug, Clone, Copy, PartialEq, Eq, Structural)]
pub enum FinishReason {
    /// A claim attempt hit an empty cell.
    Lost,
    /// Real time passed the session length.
    TimedOut,
}

/// A claim attempt at a grid coordinate, already projected into grid space
/// by the input collaborator.
#[derive(Debug, Clone, Copy, PartialEq, Eq, Structural)]
pub struct ClickEvent {
    pub tile_x: usize,
    pub tile_y: usize,
}

/// A tile the engine placed during a tick. The presentation layer creates
/// the renderable resource it will associate with `handle`.
#[derive(Debug, Clone, Copy, PartialEq, Eq, Structural)]
pub struct TileSpawn {
    pub col: usize,
    pub row: usize,
    pub handle: u64,
}

/// A tile removed by a successful claim, reported for despawning.
#[derive(Debug, Clone, Copy, PartialEq, Eq, Structural)]
pub struct TileRemoval {
    pub col: usize,
    pub row: usize,
    pub handle: u64,
    pub points: u64,
}

/// Everything one tick reports to the presentation layer.
#[derive(Debug, Clone)]
pub struct TickOutput {
    /// Tiles placed this tick, in placement order (at most two: one for the
    /// spawn cadence, one for the refill after the grid ran empty).
    pub spawns: Vec<TileSpawn>,
    /// The tile removed by a successful claim, if any.
    pub removal: Option<TileRemoval>,
    /// Where to show an error marker after a claim on an empty cell.
    pub misclick: Option<CellPos>,
    /// The score after this tick.
    pub score: u64,
    /// Real session time left, floored at zero.
    pub remaining_ms: u64,
    /// The transition out of Running that happened this tick, if any.
    pub finished: Option<FinishReason>,
}

/// The per-session resources, allocated on entry to Running and discarded
/// when the outcome of a finished session is accepted.
pub struct Session {
    /// The occupancy grid.
    pub grid: Grid,
    /// Monotonically non-decreasing score accumulator.
    pub score: u64,
    /// The most recently populated coordinate, seeded to the origin.
    pub last_spawn: CellPos,
    /// Milliseconds of real time since Running began.
    pub elapsed_ms: u64,
    /// Milliseconds of virtual time accumulated on the spawn-cadence timer.
    pub spawn_acc_ms: u64,
    /// The next unused tile handle.
    pub next_handle: u64,
}

/// The handle counter after one allocation; it sticks at the maximum rather
/// than wrapping.
pub open spec fn next_handle_after(h: u64) -> u64 {
    if h == u64::MAX {
        u64::MAX
    } else {
        (h + 1) as u64
    }
}

/// Score accumulator update: saturating addition.
pub open spec fn score_after(score: u64, pts: int) -> u64 {
    if score + pts <= u64::MAX {
        (score + pts) as u64
    } else {
        u64::MAX
    }
}

/// Virtual-time delta of one tick: the real delta scaled by the speed
/// multiplier at the new elapsed time, truncated.
pub open spec fn virt_delta_spec(elapsed_after: u64, dt_ms: u64) -> u64 {
    (speed_milli_spec(elapsed_after) * dt_ms / SPEED_SCALE as int) as u64
}

/// A spawn report is consistent with placing on grid `g` with the expected
/// fresh handle: in bounds, on a cell free in `g`, carrying that handle.
pub open spec fn spawn_ok(g: Seq<Option<Tile>>, sp: TileSpawn, h: u64) -> bool {
    &&& sp.col < GRID_COLS
    &&& sp.row < GRID_ROWS
    &&& g[cell_index(sp.col as int, sp.row as int)] is None
    &&& sp.handle == h
}

/// The grid after the reported spawn is placed with a fresh worth timer.
pub open spec fn after_spawn(g: Seq<Option<Tile>>, sp: TileSpawn) -> Seq<Option<Tile>> {
    g.update(
        cell_index(sp.col as int, sp.row as int),
        Some(Tile { handle: sp.handle, worth_ms: TILE_WORTH_MS }),
    )
}

/// How the spawn placer's bookkeeping (last spawn position, cadence timer,
/// handle counter) moves from `s` to `p` given the tick's spawn reports.
/// With no spawn the cadence timer keeps its accumulated value `acc1`; each
/// success moves the last spawn position, resets the cadence timer, and
/// consumes a handle.
pub open spec fn placer_book_ok(s: Session, p: Session, spawns: Seq<TileSpawn>, acc1: u64) -> bool {
    if spawns.len() == 0 {
        &&& p.last_spawn == s.last_spawn
        &&& p.spawn_acc_ms == acc1
        &&& p.next_handle == s.next_handle
    } else {
        &&& p.last_spawn == (CellPos { col: spawns.last().col, row: spawns.last().row })
        &&& p.spawn_acc_ms == 0
        &&& p.next_handle == (if spawns.len() == 1 {
            next_handle_after(s.next_handle)
        } else {
            next_handle_after(next_handle_after(s.next_handle))
        })
    }
}

impl Session {
    /// Well-formed session resources: the grid is well-formed, the last
    /// spawn position is in bounds, the session clock never leaves the
    /// session, and the cadence timer cannot outrun virtual time (which is
    /// at most three times real time).
    pub open spec fn wf(&self) -> bool {
        &&& self.grid.wf()
        &&& self.last_spawn.in_bounds()
        &&& self.elapsed_ms <= GAME_DURATION_MS
        &&& self.spawn_acc_ms <= 3 * self.elapsed_ms
    }

    /// Place one tile on a free cell chosen by the spawn placer: consume a
    /// fresh handle, move the last spawn position, and reset the
    /// spawn-cadence timer. The chosen cell is always free, and it avoids
    /// the last spawn position unless that holds the only free cell.
    fn spawn_one(&mut self) -> (sp: TileSpawn)
        requires
            old(self).wf(),
            old(self).grid.free_count_spec() > 0,
        ensures
            final(self).wf(),
            spawn_ok(old(self).grid@, sp, old(self).next_handle),
            final(self).grid@ == after_spawn(old(self).grid@, sp),
            final(self).grid.free_count_spec() == old(self).grid.free_count_spec() - 1,
            final(self).last_spawn == (CellPos { col: sp.col, row: sp.row }),
            final(self).spawn_acc_ms == 0,
            final(self).next_handle == next_handle_after(old(self).next_handle),
            final(self).score == old(self).score,
            final(self).elapsed_ms == old(self).elapsed_ms,
            (exists|j: int|
                0 <= j < old(self).grid@.len() && old(self).grid@[j] is None && j != cell_index(
                    old(self).last_spawn.col as int,
                    old(self).last_spawn.row as int,
                )) ==> !(sp.col == old(self).last_spawn.col && sp.row == old(self).last_spawn.row),
    {
        let p = pick_spawn_cell(&self.grid, self.last_spawn);
        let h = self.next_handle;
        self.grid.place(p.col, p.row, h);
        self.last_spawn = p;
        self.spawn_acc_ms = 0;
        self.next_handle = if h == u64::MAX {
            u64::MAX
        } else {
            h + 1
        };
        TileSpawn { col: p.col, row: p.row, handle: h }
    }
}

/// The session state machine. It owns the session resources exclusively:
/// they exist exactly while the state is not Paused, and only [`Self::tick`]
/// mutates them.
pub struct SessionStateMachine {
    state: RunningState,
    session: Option<Session>,
}

impl SessionStateMachine {
    /// The current phase.
    pub closed spec fn state_spec(&self) -> RunningState {
        self.state
    }

    /// The session resources, present exactly while not Paused.
    pub closed spec fn session_spec(&self) -> Option<Session> {
        self.session
    }

    /// Machine invariant: session resources exist exactly outside Paused
    /// and are well-formed.
    pub open spec fn wf(&self) -> bool {
        &&& (self.state_spec() is Paused <==> self.session_spec() is None)
        &&& (self.session_spec() is Some ==> self.session_spec().unwrap().wf())
    }

    /// The current score; zero while no session exists.
    pub open spec fn score_spec(&self) -> u64 {
        if self.session_spec() is Some {
            self.session_spec().unwrap().score
        } else {
            0
        }
    }

    /// The current grid contents; empty while no session exists.
    pub open spec fn grid_seq(&self) -> Seq<Option<Tile>> {
        if self.session_spec() is Some {
            self.session_spec().unwrap().grid@
        } else {
            Seq::empty()
        }
    }

    /// Elapsed real session time; zero while no session exists.
    pub open spec fn elapsed_spec(&self) -> u64 {
        if self.session_spec() is Some {
            self.session_spec().unwrap().elapsed_ms
        } else {
            0
        }
    }

    /// Real session time left, floored at zero; the full duration while no
    /// session exists.
    pub open spec fn remaining_spec(&self) -> u64 {
        if self.session_spec() is Some {
            if self.elapsed_spec() >= GAME_DURATION_MS {
                0
            } else {
                (GAME_DURATION_MS - self.elapsed_spec()) as u64
            }
        } else {
            GAME_DURATION_MS
        }
    }

    /// A fresh machine, Paused, with no session.
    pub fn new() -> (m: SessionStateMachine)
        ensures
            m.wf(),
            m.state_spec() is Paused,
            m.session_spec() is None,
    {
        SessionStateMachine { state: RunningState::Paused, session: None }
    }

    /// The current phase.
    pub fn state(&self) -> (r: RunningState)
        ensures
            r == self.state_spec(),
    {
        self.state
    }

    /// The current score.
    pub fn score(&self) -> (r: u64)
        ensures
            r == self.score_spec(),
    {
        match &self.session {
            Some(s) => s.score,
            None => 0,
        }
    }

    /// Number of free grid cells; zero while no session exists.
    pub fn free_cells(&self) -> (n: usize)
        requires
            self.wf(),
        ensures
            n == count_free(self.grid_seq()),
    {
        match &self.session {
            Some(s) => s.grid.free_count(),
            None => 0,
        }
    }

    /// Real session time left, floored at zero.
    pub fn remaining_ms(&self) -> (r: u64)
        ensures
            r == self.remaining_spec(),
    {
        match &self.session {
            Some(s) => {
                if s.elapsed_ms >= GAME_DURATION_MS {
                    0
                } else {
                    GAME_DURATION_MS - s.elapsed_ms
                }
            },
            None => GAME_DURATION_MS,
        }
    }

    /// Start a session: from Paused, allocate fresh resources (empty grid,
    /// zero score, origin spawn position, reset clocks) and enter Running.
    /// In any other state this is a no-op.
    pub fn start(&mut self)
        requires
            old(self).wf(),
        ensures
            final(self).wf(),
            old(self).state_spec() is Paused ==> {
                &&& final(self).state_spec() is Running
                &&& final(self).session_spec() is Some
                &&& final(self).grid_seq().len() == GRID_COLS * GRID_ROWS
                &&& forall|i: int|
                    0 <= i < final(self).grid_seq().len() ==> final(self).grid_seq()[i] is None
                &&& final(self).score_spec() == 0
                &&& final(self).elapsed_spec() == 0
                &&& final(self).session_spec().unwrap().spawn_acc_ms == 0
                &&& final(self).session_spec().unwrap().last_spawn == (CellPos { col: 0, row: 0 })
                &&& final(self).session_spec().unwrap().next_handle == 0
            },
            !(old(self).state_spec() is Paused) ==> *final(self) == *old(self),
    {
        if let RunningState::Paused = self.state {
            self.session = Some(
                Session {
                    grid: Grid::new(),
                    score: 0,
                    last_spawn: CellPos { col: 0, row: 0 },
                    elapsed_ms: 0,
                    spawn_acc_ms: 0,
                    next_handle: 0,
                },
            );
            self.state = RunningState::Running;
        }
    }

    /// Accept a finished session's outcome: from Finished, discard the
    /// session resources and return to Paused. In any other state this is a
    /// no-op.
    pub fn accept_outcome(&mut self)
        requires
            old(self).wf(),
        ensures
            final(self).wf(),
            old(self).state_spec() is Finished ==> {
                &&& final(self).state_spec() is Paused
                &&& final(self).session_spec() is None
            },
            !(old(self).state_spec() is Finished) ==> *final(self) == *old(self),
    {
        if let RunningState::Finished = self.state {
            self.session = None;
            self.state = RunningState::Paused;
        }
    }
}

/// Everything one call of [`SessionStateMachine::tick`] guarantees, relating
/// the machine before the step, the inputs, the machine after, and the
/// reported output. The cells spawns land on are chosen at random and are
/// not determined here; instead each reported spawn is pinned to a cell that
/// was free at the moment it was placed.
pub open spec fn tick_rel(
    pre: SessionStateMachine,
    dt_ms: u64,
    click: Option<ClickEvent>,
    post: SessionStateMachine,
    out: TickOutput,
) -> bool {
    if !(pre.state_spec() is Running) {
        // Inert: input is ignored and nothing changes.
        &&& post == pre
        &&& out.spawns@.len() == 0
        &&& out.removal is None
        &&& out.misclick is None
        &&& out.finished is None
        &&& out.score == pre.score_spec()
        &&& out.remaining_ms == pre.remaining_spec()
    } else if pre.elapsed_spec() + dt_ms > GAME_DURATION_MS {
        // Timeout: the session freezes as it was and finishes.
        &&& post.state_spec() is Finished
        &&& post.session_spec() == pre.session_spec()
        &&& out.spawns@.len() == 0
        &&& out.removal is None
        &&& out.misclick is None
        &&& out.finished == Some(FinishReason::TimedOut)
        &&& out.score == pre.score_spec()
        &&& out.remaining_ms == 0
    } else {
        running_step_rel(pre.session_spec().unwrap(), dt_ms, click, post, out)
    }
}

/// One simulation step of a running session that does not time out: advance
/// real time, recompute the difficulty curve, advance virtual time, tick the
/// worth timers and the cadence timer, spawn when the cadence timer has
/// elapsed, then apply the click, refilling the grid when a claim empties
/// it. A claim on an empty cell finishes the session as lost.
pub open spec fn running_step_rel(
    s: Session,
    dt_ms: u64,
    click: Option<ClickEvent>,
    post: SessionStateMachine,
    out: TickOutput,
) -> bool {
    let e2 = (s.elapsed_ms + dt_ms) as u64;
    let dtv = virt_delta_spec(e2, dt_ms);
    let g1 = cells_after_tick(s.grid@, dtv);
    let acc1 = (s.spawn_acc_ms + dtv) as u64;
    let cadence = acc1 >= BASE_SPAWN_PERIOD_MS && count_free(g1) > 0;
    let h1 = if cadence {
        next_handle_after(s.next_handle)
    } else {
        s.next_handle
    };
    let g2 = if cadence {
        after_spawn(g1, out.spawns@[0])
    } else {
        g1
    };
    &&& post.session_spec() is Some
    &&& (cadence ==> spawn_ok(g1, out.spawns@[0], s.next_handle))
    &&& ({
        let p = post.session_spec().unwrap();
        &&& p.elapsed_ms == e2
        &&& out.remaining_ms == (GAME_DURATION_MS - e2) as u64
        &&& out.score == p.score
        &&& match click {
            None => {
                &&& out.removal is None
                &&& out.misclick is None
                &&& out.finished is None
                &&& post.state_spec() is Running
                &&& out.spawns@.len() == (if cadence {
                    1int
                } else {
                    0int
                })
                &&& p.grid@ == g2
                &&& p.score == s.score
                &&& placer_book_ok(s, p, out.spawns@, acc1)
            },
            Some(ev) => {
                let cc = clamp_index(ev.tile_x as int, GRID_COLS as int);
                let cr = clamp_index(ev.tile_y as int, GRID_ROWS as int);
                let ci = cell_index(cc, cr);
                if g2[ci] is Some {
                    let t = g2[ci].unwrap();
                    let g3 = g2.update(ci, None::<Tile>);
                    let refill = count_filled(g3) == 0;
                    &&& out.removal == Some(
                        TileRemoval {
                            col: cc as usize,
                            row: cr as usize,
                            handle: t.handle,
                            points: points_spec(t.worth_ms) as u64,
                        },
                    )
                    &&& out.misclick is None
                    &&& out.finished is None
                    &&& post.state_spec() is Running
                    &&& p.score == score_after(s.score, points_spec(t.worth_ms))
                    &&& if refill {
                        &&& out.spawns@.len() == (if cadence {
                            2int
                        } else {
                            1int
                        })
                        &&& spawn_ok(g3, out.spawns@.last(), h1)
                        &&& p.grid@ == after_spawn(g3, out.spawns@.last())
                        &&& placer_book_ok(s, p, out.spawns@, acc1)
                    } else {
                        &&& out.spawns@.len() == (if cadence {
                            1int
                        } else {
                            0int
                        })
                        &&& p.grid@ == g3
                        &&& placer_book_ok(s, p, out.spawns@, acc1)
                    }
                } else {
                    &&& out.removal is None
                    &&& out.misclick == Some(CellPos { col: cc as usize, row: cr as usize })
                    &&& out.finished == Some(FinishReason::Lost)
                    &&& post.state_spec() is Finished
                    &&& p.grid@ == g2
                    &&& p.score == s.score
                    &&& placer_book_ok(s, p, out.spawns@, acc1)
                }
            },
        }
    })
}

impl SessionStateMachine {
    /// One simulation step with a real-time delta and at most one buffered
    /// click. See [`tick_rel`] for everything this guarantees.
    pub fn tick(&mut self, dt_ms: u64, click: Option<ClickEvent>) -> (out: TickOutput)
        requires
            old(self).wf(),
        ensures
            final(self).wf(),
            tick_rel(*old(self), dt_ms, click, *final(self), out),
    {
        match self.state {
            RunningState::Paused | RunningState::Finished => {
                let score = self.score();
                let remaining_ms = self.remaining_ms();
                TickOutput {
                    spawns: Vec::new(),
                    removal: None,
                    misclick: None,
                    score,
                    remaining_ms,
                    finished: None,
                }
            },
            RunningState::Running => {
                let mut s = match self.session.take() {
                    Some(s) => s,
                    None => vstd::pervasive::unreached(),
                };
                if dt_ms > GAME_DURATION_MS - s.elapsed_ms {
                    // Real time passed the session length: freeze and finish.
                    let score = s.score;
                    self.session = Some(s);
                    self.state = RunningState::Finished;
                    return TickOutput {
                        spawns: Vec::new(),
                        removal: None,
                        misclick: None,
                        score,
                        remaining_ms: 0,
                        finished: Some(FinishReason::TimedOut),
                    };
                }
                let e2 = s.elapsed_ms + dt_ms;
                s.elapsed_ms = e2;
                let speed = speed_milli(e2);
                proof {
                    lemma_mul_inequality(speed as int, 3 * SPEED_SCALE as int, dt_ms as int);
                    lemma_div_is_ordered(
                        speed as int * dt_ms as int,
                        3 * SPEED_SCALE as int * dt_ms as int,
                        SPEED_SCALE as int,
                    );
                    lemma_div_multiples_vanish(3 * dt_ms as int, SPEED_SCALE as int);
                    assert(3 * SPEED_SCALE as int * dt_ms as int == SPEED_SCALE as int * (3
                        * dt_ms as int));
                }
                let dtv = speed * dt_ms / SPEED_SCALE;
                s.grid.tick(dtv);
                let acc1 = s.spawn_acc_ms + dtv;
                s.spawn_acc_ms = acc1;
                proof {
                    lemma_count_free_bounds(s.grid@);
                }
                let mut spawns: Vec<TileSpawn> = Vec::new();
                if acc1 >= BASE_SPAWN_PERIOD_MS && !s.grid.is_full() {
                    let sp = s.spawn_one();
                    spawns.push(sp);
                }
                let mut removal: Option<TileRemoval> = None;
                let mut misclick: Option<CellPos> = None;
                let mut finished: Option<FinishReason> = None;
                if let Some(ev) = click {
                    let cc = if ev.tile_x < GRID_COLS {
                        ev.tile_x
                    } else {
                        GRID_COLS - 1
                    };
                    let cr = if ev.tile_y < GRID_ROWS {
                        ev.tile_y
                    } else {
                        GRID_ROWS - 1
                    };
                    match s.grid.claim(ev.tile_x, ev.tile_y) {
                        Some((handle, pts)) => {
                            removal = Some(TileRemoval { col: cc, row: cr, handle, points: pts });
                            s.score = if pts <= u64::MAX - s.score {
                                s.score + pts
                            } else {
                                u64::MAX
                            };
                            proof {
                                lemma_counts_sum(s.grid@);
                            }
                            if s.grid.filled_count() == 0 {
                                let sp = s.spawn_one();
                                spawns.push(sp);
                            }
                        },
                        None => {
                            misclick = Some(CellPos { col: cc, row: cr });
                            finished = Some(FinishReason::Lost);
                            self.state = RunningState::Finished;
                        },
                    }
                }
                let score = s.score;
                let remaining_ms = GAME_DURATION_MS - e2;
                self.session = Some(s);
                TickOutput { spawns, removal, misclick, score, remaining_ms, finished }
            },
        }
    }
}

/// Timeout: while a session is running, a tick whose real delta pushes the
/// elapsed time past the session length finishes the session with reason
/// TimedOut, whatever the input and whatever the score.
pub proof fn lemma_timeout_finishes(
    pre: SessionStateMachine,
    dt_ms: u64,
    click: Option<ClickEvent>,
    post: SessionStateMachine,
    out: TickOutput,
)
    requires
        pre.state_spec() is Running,
        pre.elapsed_spec() + dt_ms > GAME_DURATION_MS,
        tick_rel(pre, dt_ms, click, post, out),
    ensures
        post.state_spec() is Finished,
        out.finished == Some(FinishReason::TimedOut),
        out.score == pre.score_spec(),
        post.session_spec() == pre.session_spec(),
{
}

/// The score accumulator never decreases across a tick: claims only add
/// points, and every other path leaves the score unchanged.
pub proof fn lemma_score_monotone(
    pre: SessionStateMachine,
    dt_ms: u64,
    click: Option<ClickEvent>,
    post: SessionStateMachine,
    out: TickOutput,
)
    requires
        pre.wf(),
        tick_rel(pre, dt_ms, click, post, out),
    ensures
        pre.score_spec() <= post.score_spec(),
{
}

/// Ticking a running session with no click input never removes a tile,
/// never changes the score, and never loses: the grid's occupancy changes
/// exactly by the spawns the tick itself reports.
pub proof fn lemma_no_input_tick(
    pre: SessionStateMachine,
    dt_ms: u64,
    post: SessionStateMachine,
    out: TickOutput,
)
    requires
        pre.wf(),
        pre.state_spec() is Running,
        tick_rel(pre, dt_ms, None, post, out),
    ensures
        out.removal is None,
        out.misclick is None,
        out.finished is None || out.finished == Some(FinishReason::TimedOut),
        post.score_spec() == pre.score_spec(),
        count_filled(post.grid_seq()) == count_filled(pre.grid_seq()) + out.spawns@.len(),
        count_free(post.grid_seq()) == count_free(pre.grid_seq()) - out.spawns@.len(),
{
    let s = pre.session_spec().unwrap();
    lemma_counts_sum(pre.grid_seq());
    lemma_counts_sum(post.grid_seq());
    if pre.elapsed_spec() + dt_ms > GAME_DURATION_MS {
        // Timeout: the session is unchanged and nothing spawned.
    } else {
        let e2 = (s.elapsed_ms + dt_ms) as u64;
        let dtv = virt_delta_spec(e2, dt_ms);
        let g1 = cells_after_tick(s.grid@, dtv);
        lemma_tick_preserves_count(s.grid@, dtv);
        lemma_counts_sum(g1);
        let acc1 = (s.spawn_acc_ms + dtv) as u64;
        let cadence = acc1 >= BASE_SPAWN_PERIOD_MS && count_free(g1) > 0;
        if cadence {
            let sp = out.spawns@[0];
            lemma_count_free_update(
                g1,
                cell_index(sp.col as int, sp.row as int),
                Some(Tile { handle: sp.handle, worth_ms: TILE_WORTH_MS }),
            );
            lemma_counts_sum(after_spawn(g1, sp));
        }
    }
}

} // verus!

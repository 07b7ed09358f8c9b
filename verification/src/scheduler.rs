//! The periodic background check and its shared state.
//!
//! The state is two flags. `active` says that periodic checking is
//! wanted: a start request sets it and a stop request clears it.
//! `loop_alive` says that a periodic loop exists: it is set when a loop
//! is spawned and cleared when the loop, on one of its ticks, finds
//! `active` cleared and ends. The caller keeps the state behind one lock
//! and holds the lock for one call at a time.

use vstd::prelude::*;
use crate::error::{described, ErrorKind, UpdateError, UpdateErrorView};
use crate::release::{VersionInfo, VersionInfoView};

verus! {

/// The number of seconds between two ticks of the periodic loop.
pub const CHECK_INTERVAL_SECS: u64 = 3600;

/// The name of the event that announces an available update.
pub const UPDATE_AVAILABLE_EVENT: &'static str = "update-available";

/// The name of the event that carries a progress report.
pub const UPDATE_PROGRESS_EVENT: &'static str = "update-progress";

/// The shared state of the scheduler.
#[derive(Clone, Copy, Debug, PartialEq, Eq, Structural)]
pub struct SchedulerState {
    /// Periodic checking is wanted.
    pub active: bool,
    /// A periodic loop exists.
    pub loop_alive: bool,
}

/// What a start request came to.
#[derive(Clone, Copy, Debug, PartialEq, Eq, Structural)]
pub enum StartOutcome {
    /// Checking was off and no loop exists: the caller spawns the loop.
    Spawn,
    /// Checking was off but the loop of before has not ended yet: it
    /// goes on, and nothing is spawned.
    Resumed,
    /// Checking was on already: nothing changes and nothing is spawned.
    AlreadyRunning,
}

/// What the periodic loop does on a tick.
#[derive(Clone, Copy, Debug, PartialEq, Eq, Structural)]
pub enum TickOutcome {
    /// Run a resolution, and nothing but a resolution.
    Check,
    /// End the loop: no further tick follows.
    Terminate,
}

/// The state at process start: checking off, no loop.
pub open spec fn initial_scheduler() -> SchedulerState {
    SchedulerState { active: false, loop_alive: false }
}

/// The state after a start request, and what the request came to.
pub open spec fn scheduler_started(s: SchedulerState) -> (SchedulerState, StartOutcome) {
    if s.active {
        (s, StartOutcome::AlreadyRunning)
    } else if s.loop_alive {
        (SchedulerState { active: true, loop_alive: true }, StartOutcome::Resumed)
    } else {
        (SchedulerState { active: true, loop_alive: true }, StartOutcome::Spawn)
    }
}

/// The state after a stop request.
pub open spec fn scheduler_stopped(s: SchedulerState) -> SchedulerState {
    SchedulerState { active: false, loop_alive: s.loop_alive }
}

/// The state after a tick of the loop, and what the loop does.
pub open spec fn scheduler_ticked(s: SchedulerState) -> (SchedulerState, TickOutcome) {
    if s.active {
        (s, TickOutcome::Check)
    } else {
        (SchedulerState { active: false, loop_alive: false }, TickOutcome::Terminate)
    }
}

/// How a start request is answered.
pub open spec fn start_message(outcome: StartOutcome) -> Seq<char> {
    match outcome {
        StartOutcome::AlreadyRunning => "Update checker is already running"@,
        _ => "Update checker started"@,
    }
}

impl StartOutcome {
    /// How the request is answered across the host boundary.
    pub fn message(&self) -> (s: &'static str)
        ensures
            s@ == start_message(*self),
    {
        match self {
            StartOutcome::AlreadyRunning => "Update checker is already running",
            _ => "Update checker started",
        }
    }
}

impl SchedulerState {
    /// The state at process start: checking off, no loop.
    pub fn new() -> (s: SchedulerState)
        ensures
            s == initial_scheduler(),
    {
        SchedulerState { active: false, loop_alive: false }
    }

    /// Whether periodic checking is wanted.
    pub fn is_running(&self) -> (b: bool)
        ensures
            b == self.active,
    {
        self.active
    }

    /// Takes a start request. Checking is on afterwards. The caller
    /// spawns the periodic loop exactly when the outcome is `Spawn`,
    /// which it is exactly when checking was off and no loop existed.
    pub fn start(&mut self) -> (outcome: StartOutcome)
        ensures
            (*final(self), outcome) == scheduler_started(*old(self)),
    {
        if self.active {
            StartOutcome::AlreadyRunning
        } else if self.loop_alive {
            self.active = true;
            StartOutcome::Resumed
        } else {
            self.active = true;
            self.loop_alive = true;
            StartOutcome::Spawn
        }
    }

    /// Takes a stop request: checking is off afterwards. The loop ends
    /// on its next tick.
    pub fn stop(&mut self) -> (message: &'static str)
        ensures
            *final(self) == scheduler_stopped(*old(self)),
            message@ == "Update checker stopped"@,
    {
        self.active = false;
        "Update checker stopped"
    }

    /// Called by the periodic loop on each of its ticks: the loop runs a
    /// resolution when checking is on, and ends when it is off.
    pub fn tick(&mut self) -> (outcome: TickOutcome)
        ensures
            (*final(self), outcome) == scheduler_ticked(*old(self)),
    {
        if self.active {
            TickOutcome::Check
        } else {
            self.loop_alive = false;
            TickOutcome::Terminate
        }
    }
}

/// The error of a scheduler state that could not be locked.
pub fn lock_failure(reason: &str) -> (e: UpdateError)
    ensures
        e@ == described(ErrorKind::State, "Failed to lock update checker state: "@, reason@),
{
    UpdateError::describe(ErrorKind::State, "Failed to lock update checker state: ", reason)
}

/// What a periodic check announces: the resolution, when it found an
/// update.
pub open spec fn announced(outcome: Result<VersionInfo, UpdateError>) -> Option<VersionInfoView> {
    match outcome {
        Ok(info) => if info.has_update {
            Some(info@)
        } else {
            None
        },
        Err(_) => None,
    }
}

/// The view of an optional resolution.
pub open spec fn optional_info(info: Option<VersionInfo>) -> Option<VersionInfoView> {
    match info {
        Some(i) => Some(i@),
        None => None,
    }
}

/// Decides what a periodic check announces: the resolution itself when
/// it found an update, and nothing when it found none or failed. A
/// failed check does not end the loop.
pub fn announcement(outcome: Result<VersionInfo, UpdateError>) -> (info: Option<VersionInfo>)
    ensures
        optional_info(info) == announced(outcome),
{
    match outcome {
        Ok(info) => {
            if info.has_update {
                Some(info)
            } else {
                None
            }
        },
        Err(_) => None,
    }
}

/// What can happen to the scheduler.
pub enum SchedulerOp {
    /// A start request.
    Start,
    /// A stop request.
    Stop,
    /// A tick of the periodic loop, if one exists.
    Tick,
}

/// The state after `op`. A tick without a loop is no tick and changes
/// nothing.
pub open spec fn scheduler_after(s: SchedulerState, op: SchedulerOp) -> SchedulerState {
    match op {
        SchedulerOp::Start => scheduler_started(s).0,
        SchedulerOp::Stop => scheduler_stopped(s),
        SchedulerOp::Tick => if s.loop_alive {
            scheduler_ticked(s).0
        } else {
            s
        },
    }
}

/// By how much `op` changes the number of periodic loops: a start
/// request that says `Spawn` adds one, and a tick that says `Terminate`
/// takes the ticking loop away.
pub open spec fn loops_change(s: SchedulerState, op: SchedulerOp) -> int {
    match op {
        SchedulerOp::Start => if scheduler_started(s).1 == StartOutcome::Spawn {
            1
        } else {
            0
        },
        SchedulerOp::Stop => 0,
        SchedulerOp::Tick => if s.loop_alive && scheduler_ticked(s).1 == TickOutcome::Terminate {
            -1
        } else {
            0
        },
    }
}

/// The state after `ops`, from process start.
pub open spec fn scheduler_run(ops: Seq<SchedulerOp>) -> SchedulerState {
    scheduler_run_from(initial_scheduler(), ops)
}

/// The number of periodic loops after `ops`, from process start.
pub open spec fn live_loops(ops: Seq<SchedulerOp>) -> int
    decreases ops.len(),
{
    if ops.len() == 0 {
        0
    } else {
        live_loops(ops.drop_last()) + loops_change(scheduler_run(ops.drop_last()), ops.last())
    }
}

/// However many start and stop requests arrive, and in whatever order
/// with the ticks, there is never more than one periodic loop: there is
/// one exactly while `loop_alive` is set, and there is one whenever
/// checking is on.
pub proof fn lemma_at_most_one_loop(ops: Seq<SchedulerOp>)
    ensures
        live_loops(ops) == (if scheduler_run(ops).loop_alive {
            1int
        } else {
            0int
        }),
        0 <= live_loops(ops) <= 1,
        scheduler_run(ops).active ==> live_loops(ops) == 1,
    decreases ops.len(),
{
    if ops.len() > 0 {
        lemma_at_most_one_loop(ops.drop_last());
    }
}

/// A second start request that follows a first without a stop request in
/// between is answered `AlreadyRunning`, spawns nothing and leaves the
/// state as it is. Ticks of the loop in between change nothing of this.
pub proof fn lemma_second_start_is_idle(s: SchedulerState, ticks: nat)
    ensures
        ({
            let first = scheduler_started(s).0;
            let between = scheduler_run_from(first, Seq::new(ticks, |i: int| SchedulerOp::Tick));
            &&& between == first
            &&& scheduler_started(between) == (first, StartOutcome::AlreadyRunning)
            &&& loops_change(between, SchedulerOp::Start) == 0
        }),
    decreases ticks,
{
    let first = scheduler_started(s).0;
    let all = Seq::new(ticks, |i: int| SchedulerOp::Tick);
    if ticks > 0 {
        lemma_second_start_is_idle(s, (ticks - 1) as nat);
        assert(all.drop_last() =~= Seq::new((ticks - 1) as nat, |i: int| SchedulerOp::Tick));
    }
}

/// From process start, two start requests in a row leave exactly one
/// periodic loop.
pub proof fn lemma_two_starts_one_loop()
    ensures
        live_loops(seq![SchedulerOp::Start, SchedulerOp::Start]) == 1,
        scheduler_started(initial_scheduler()).1 == StartOutcome::Spawn,
{
    let one = seq![SchedulerOp::Start];
    let two = seq![SchedulerOp::Start, SchedulerOp::Start];
    assert(two.drop_last() =~= one);
    assert(one.drop_last() =~= Seq::<SchedulerOp>::empty());
    reveal_with_fuel(live_loops, 3);
    reveal_with_fuel(scheduler_run_from, 3);
}

/// The state `s` after the further operations `ops`.
pub open spec fn scheduler_run_from(s: SchedulerState, ops: Seq<SchedulerOp>) -> SchedulerState
    decreases ops.len(),
{
    if ops.len() == 0 {
        s
    } else {
        scheduler_after(scheduler_run_from(s, ops.drop_last()), ops.last())
    }
}

/// After a stop request, the next tick finds checking off: the loop ends
/// without running a resolution, and no loop is left.
pub proof fn lemma_tick_after_stop_terminates(s: SchedulerState)
    ensures
        scheduler_ticked(scheduler_stopped(s)).1 == TickOutcome::Terminate,
        scheduler_ticked(scheduler_stopped(s)).0 == initial_scheduler(),
{
}

} // verus!

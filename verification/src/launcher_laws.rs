//! What holds of every launcher run, proved over the machine's transition
//! function: which steps can spawn the runtime or back up the compositor
//! binary, that registration and the settings pass happen on every
//! completed launch, and that shutdown's polling is bounded and always ends
//! in both force-terminations.

use vstd::prelude::*;

verus! {

use crate::launcher::{CompositorProbe, LauncherAction, LauncherEvent, RunPhase,
    SHUTDOWN_POLL_MS, SHUTDOWN_TIMEOUT_MS, launch_entry_phase, next_phase, phase_inv,
    step_action_ok};

/// The kinds of step this module counts along a run.
pub enum StepKind {
    /// A `RegisterDriver` action was handed out.
    Register,
    /// A `ReadSettings` action was handed out.
    ReadSettings,
    /// A `Sleep` action was handed out.
    Sleep,
    /// A `KillMonitor` action was handed out.
    KillMonitor,
    /// A `KillRuntime` action was handed out.
    KillRuntime,
    /// A `SpawnRuntime` action was handed out.
    Spawn,
    /// A `BackupLauncher` action was handed out.
    Backup,
}

/// Whether the step from phase `p` on event `ev` hands out an action of
/// kind `k`.
pub open spec fn emits(p: RunPhase, ev: LauncherEvent, k: StepKind) -> bool {
    match k {
        StepKind::Register => p is Unregistering && (ev is Ack || ev is Failed),
        StepKind::ReadSettings => p is Registering && (ev is Ack || ev is Failed),
        StepKind::Sleep => match (p, ev) {
            (RunPhase::Polling { elapsed_ms }, LauncherEvent::RuntimeRunning(running)) => running
                && elapsed_ms < SHUTDOWN_TIMEOUT_MS,
            _ => false,
        },
        StepKind::KillMonitor => match (p, ev) {
            (RunPhase::Polling { elapsed_ms }, LauncherEvent::RuntimeRunning(running)) => !(
            running && elapsed_ms < SHUTDOWN_TIMEOUT_MS),
            _ => false,
        },
        StepKind::KillRuntime => p is KillingMonitor && (ev is Ack || ev is Failed),
        StepKind::Spawn => p is ProbingRuntime && ev == LauncherEvent::RuntimeRunning(false),
        StepKind::Backup => match (p, ev) {
            (RunPhase::ProbingCompositor, LauncherEvent::Compositor(found)) => match found {
                Option::Some(probe) => probe.server_exists && !probe.launcher_is_link,
                Option::None => false,
            },
            _ => false,
        },
    }
}

/// The phase a run stands in after consuming `evs`, first event first.
pub open spec fn run_phases(
    p: RunPhase,
    wired: bool,
    then_launch: bool,
    evs: Seq<LauncherEvent>,
) -> RunPhase
    decreases evs.len(),
{
    if evs.len() == 0 {
        p
    } else {
        run_phases(next_phase(p, wired, then_launch, evs[0]), wired, then_launch, evs.drop_first())
    }
}

/// How many steps of kind `k` a run starting in `p` takes while consuming
/// `evs`.
pub open spec fn count_steps(
    k: StepKind,
    p: RunPhase,
    wired: bool,
    then_launch: bool,
    evs: Seq<LauncherEvent>,
) -> nat
    decreases evs.len(),
{
    if evs.len() == 0 {
        0
    } else {
        (if emits(p, evs[0], k) {
            1nat
        } else {
            0nat
        }) + count_steps(
            k,
            next_phase(p, wired, then_launch, evs[0]),
            wired,
            then_launch,
            evs.drop_first(),
        )
    }
}

/// The action a step hands out determines, and is determined by, the step
/// kinds above: in particular, the runtime is spawned in exactly the steps
/// that answer a process scan with "not running", and the compositor
/// binary is backed up in exactly the steps that observed it unintercepted.
pub proof fn lemma_actions_reflect_kinds(
    p: RunPhase,
    wired: bool,
    then_launch: bool,
    own_dir: String,
    ev: LauncherEvent,
    a: Option<LauncherAction>,
)
    requires
        step_action_ok(p, wired, then_launch, own_dir, ev, a),
    ensures
        (a == Option::Some(LauncherAction::SpawnRuntime)) == emits(p, ev, StepKind::Spawn),
        (a == Option::Some(LauncherAction::BackupLauncher)) == emits(p, ev, StepKind::Backup),
        (a == Option::Some(LauncherAction::Sleep(SHUTDOWN_POLL_MS))) == emits(
            p,
            ev,
            StepKind::Sleep,
        ),
        (a matches Option::Some(LauncherAction::RegisterDriver(_))) == emits(
            p,
            ev,
            StepKind::Register,
        ),
        (a == Option::Some(LauncherAction::ReadSettings)) == emits(p, ev, StepKind::ReadSettings),
        (a == Option::Some(LauncherAction::KillMonitor)) == emits(p, ev, StepKind::KillMonitor),
        (a == Option::Some(LauncherAction::KillRuntime)) == emits(p, ev, StepKind::KillRuntime),
{
}

/// The runtime is spawned only by a step that saw the process scan report
/// it dead: a launch that always observes the runtime running never spawns
/// it, however often launch is repeated.
pub proof fn lemma_spawn_only_after_dead_scan(p: RunPhase, ev: LauncherEvent)
    requires
        emits(p, ev, StepKind::Spawn),
    ensures
        p == RunPhase::ProbingRuntime,
        ev == LauncherEvent::RuntimeRunning(false),
{
}

/// The compositor binary is renamed to its backup name only by a step that
/// observed the binary present and the launcher path not yet a symbolic
/// link. Once a launch has intercepted the path, a later launch observes a
/// link and only recreates it: repeated launches make exactly one backup.
pub proof fn lemma_backup_only_when_unintercepted(p: RunPhase, ev: LauncherEvent)
    requires
        emits(p, ev, StepKind::Backup),
    ensures
        p == RunPhase::ProbingCompositor,
        ev == LauncherEvent::Compositor(
            Option::Some(CompositorProbe { server_exists: true, launcher_is_link: false }),
        ),
{
}

/// Phases from which a run can still reach the spawn step.
pub open spec fn can_spawn(p: RunPhase) -> bool {
    !(p is Spawning || p is Finished || p is Aborted)
}

/// One run spawns the runtime at most once, whatever events the
/// environment reports.
pub proof fn lemma_run_spawns_at_most_once(
    p: RunPhase,
    wired: bool,
    then_launch: bool,
    evs: Seq<LauncherEvent>,
)
    ensures
        count_steps(StepKind::Spawn, p, wired, then_launch, evs) <= (if can_spawn(p) {
            1int
        } else {
            0int
        }),
    decreases evs.len(),
{
    if evs.len() > 0 {
        let p2 = next_phase(p, wired, then_launch, evs[0]);
        lemma_run_spawns_at_most_once(p2, wired, then_launch, evs.drop_first());
    }
}

/// Phases from which a run can still reach the backup step.
pub open spec fn can_backup(p: RunPhase) -> bool {
    match p {
        RunPhase::RemovingLink => false,
        RunPhase::BackingUp => false,
        RunPhase::CreatingLink => false,
        RunPhase::ProbingRuntime => false,
        RunPhase::Spawning => false,
        RunPhase::Finished => false,
        RunPhase::Aborted { .. } => false,
        _ => true,
    }
}

/// One run backs the compositor binary up at most once.
pub proof fn lemma_run_backs_up_at_most_once(
    p: RunPhase,
    wired: bool,
    then_launch: bool,
    evs: Seq<LauncherEvent>,
)
    ensures
        count_steps(StepKind::Backup, p, wired, then_launch, evs) <= (if can_backup(p) {
            1int
        } else {
            0int
        }),
    decreases evs.len(),
{
    if evs.len() > 0 {
        let p2 = next_phase(p, wired, then_launch, evs[0]);
        lemma_run_backs_up_at_most_once(p2, wired, then_launch, evs.drop_first());
    }
}

/// Phases that still lie before the registration step of their run.
pub open spec fn before_register(p: RunPhase, then_launch: bool) -> bool {
    match p {
        RunPhase::ShutdownBegin => then_launch,
        RunPhase::Polling { .. } => then_launch,
        RunPhase::Sleeping { .. } => then_launch,
        RunPhase::KillingMonitor => then_launch,
        RunPhase::KillingRuntime => then_launch,
        RunPhase::LaunchBegin => true,
        RunPhase::KillingBridge => true,
        RunPhase::ListingDrivers => true,
        RunPhase::Unregistering => true,
        _ => false,
    }
}

/// Every completed launch registered the product's driver: a launch run
/// that reaches `Finished` handed out `RegisterDriver` at least once, on
/// every launch, not only the first.
pub proof fn lemma_finished_launch_registered(
    p: RunPhase,
    wired: bool,
    then_launch: bool,
    evs: Seq<LauncherEvent>,
)
    requires
        before_register(p, then_launch),
        run_phases(p, wired, then_launch, evs) is Finished,
    ensures
        count_steps(StepKind::Register, p, wired, then_launch, evs) >= 1,
    decreases evs.len(),
{
    if evs.len() > 0 {
        let p2 = next_phase(p, wired, then_launch, evs[0]);
        if !emits(p, evs[0], StepKind::Register) {
            assert(before_register(p2, then_launch));
            lemma_finished_launch_registered(p2, wired, then_launch, evs.drop_first());
        }
    }
}

/// Phases that still lie before the settings pass of their run.
pub open spec fn before_settings(p: RunPhase, then_launch: bool) -> bool {
    before_register(p, then_launch) || p is Registering
}

/// Every completed launch went through the settings pass: a launch run
/// that reaches `Finished` handed out `ReadSettings` at least once, on
/// every launch, not only the first.
pub proof fn lemma_finished_launch_read_settings(
    p: RunPhase,
    wired: bool,
    then_launch: bool,
    evs: Seq<LauncherEvent>,
)
    requires
        before_settings(p, then_launch),
        run_phases(p, wired, then_launch, evs) is Finished,
    ensures
        count_steps(StepKind::ReadSettings, p, wired, then_launch, evs) >= 1,
    decreases evs.len(),
{
    if evs.len() > 0 {
        let p2 = next_phase(p, wired, then_launch, evs[0]);
        if !emits(p, evs[0], StepKind::ReadSettings) {
            assert(before_settings(p2, then_launch));
            lemma_finished_launch_read_settings(p2, wired, then_launch, evs.drop_first());
        }
    }
}

/// How many sleeps a shutdown can still take from phase `p`.
pub open spec fn sleeps_left(p: RunPhase) -> int {
    match p {
        RunPhase::ShutdownBegin => SHUTDOWN_TIMEOUT_MS as int / SHUTDOWN_POLL_MS as int + 1,
        RunPhase::Polling { elapsed_ms } => if elapsed_ms <= SHUTDOWN_TIMEOUT_MS {
            (SHUTDOWN_TIMEOUT_MS - elapsed_ms) as int / SHUTDOWN_POLL_MS as int + 1
        } else {
            0
        },
        RunPhase::Sleeping { elapsed_ms } => (SHUTDOWN_TIMEOUT_MS - elapsed_ms) as int
            / SHUTDOWN_POLL_MS as int,
        _ => 0,
    }
}

/// Shutdown returns within the timeout plus a small bounded delta: a run
/// takes at most `SHUTDOWN_TIMEOUT_MS / SHUTDOWN_POLL_MS + 1` sleeps of
/// one poll interval each, and every other step answers immediately.
pub proof fn lemma_shutdown_sleeps_bounded(
    p: RunPhase,
    wired: bool,
    then_launch: bool,
    evs: Seq<LauncherEvent>,
)
    requires
        phase_inv(p),
    ensures
        count_steps(StepKind::Sleep, p, wired, then_launch, evs) <= sleeps_left(p),
    decreases evs.len(),
{
    if evs.len() > 0 {
        let ev = evs[0];
        let p2 = next_phase(p, wired, then_launch, ev);
        assert(phase_inv(p2));
        lemma_shutdown_sleeps_bounded(p2, wired, then_launch, evs.drop_first());
        if p is Sleeping && ev is Ack {
            let e = p->Sleeping_elapsed_ms;
            assert((SHUTDOWN_TIMEOUT_MS - e) as int >= 1);
            assert((SHUTDOWN_TIMEOUT_MS as int - e - SHUTDOWN_POLL_MS) / SHUTDOWN_POLL_MS as int
                + 1 == (SHUTDOWN_TIMEOUT_MS - e) as int / SHUTDOWN_POLL_MS as int)
                by (nonlinear_arith);
            assert((SHUTDOWN_TIMEOUT_MS - e) as int / SHUTDOWN_POLL_MS as int >= 0)
                by (nonlinear_arith)
                requires
                    (SHUTDOWN_TIMEOUT_MS - e) as int >= 1,
            ;
        }
    }
}

/// In particular a whole shutdown run, from its beginning, sleeps at most
/// `SHUTDOWN_TIMEOUT_MS / SHUTDOWN_POLL_MS + 1` times.
pub proof fn lemma_whole_shutdown_sleeps_bounded(
    wired: bool,
    then_launch: bool,
    evs: Seq<LauncherEvent>,
)
    ensures
        count_steps(StepKind::Sleep, RunPhase::ShutdownBegin, wired, then_launch, evs)
            <= SHUTDOWN_TIMEOUT_MS as int / SHUTDOWN_POLL_MS as int + 1,
{
    lemma_shutdown_sleeps_bounded(RunPhase::ShutdownBegin, wired, then_launch, evs);
}

/// A phase of the shutdown half of a run.
pub open spec fn shutdown_phase(p: RunPhase) -> bool {
    match p {
        RunPhase::ShutdownBegin => true,
        RunPhase::Polling { .. } => true,
        RunPhase::Sleeping { .. } => true,
        RunPhase::KillingMonitor => true,
        RunPhase::KillingRuntime => true,
        _ => false,
    }
}

/// Phases that still lie before shutdown's monitor termination.
pub open spec fn before_kill_monitor(p: RunPhase) -> bool {
    match p {
        RunPhase::ShutdownBegin => true,
        RunPhase::Polling { .. } => true,
        RunPhase::Sleeping { .. } => true,
        _ => false,
    }
}

/// Whatever the polling observed, a shutdown that ran to completion handed
/// out `KillMonitor`: the force-termination is unconditional, so that
/// afterwards a process-table scan finds no monitor process.
pub proof fn lemma_shutdown_kills_monitor(
    p: RunPhase,
    wired: bool,
    then_launch: bool,
    evs: Seq<LauncherEvent>,
)
    requires
        before_kill_monitor(p),
        !shutdown_phase(run_phases(p, wired, then_launch, evs)),
    ensures
        count_steps(StepKind::KillMonitor, p, wired, then_launch, evs) >= 1,
    decreases evs.len(),
{
    if evs.len() > 0 {
        let p2 = next_phase(p, wired, then_launch, evs[0]);
        if !emits(p, evs[0], StepKind::KillMonitor) {
            assert(before_kill_monitor(p2));
            lemma_shutdown_kills_monitor(p2, wired, then_launch, evs.drop_first());
        }
    }
}

/// Phases that still lie before shutdown's main-server termination.
pub open spec fn before_kill_runtime(p: RunPhase) -> bool {
    before_kill_monitor(p) || p is KillingMonitor
}

/// Likewise, a completed shutdown always handed out `KillRuntime`, after
/// `KillMonitor`: the monitor dies first so it cannot respawn the main
/// process mid-shutdown, then the re-scanned main server is terminated.
pub proof fn lemma_shutdown_kills_runtime(
    p: RunPhase,
    wired: bool,
    then_launch: bool,
    evs: Seq<LauncherEvent>,
)
    requires
        before_kill_runtime(p),
        !shutdown_phase(run_phases(p, wired, then_launch, evs)),
    ensures
        count_steps(StepKind::KillRuntime, p, wired, then_launch, evs) >= 1,
    decreases evs.len(),
{
    if evs.len() > 0 {
        let p2 = next_phase(p, wired, then_launch, evs[0]);
        if !emits(p, evs[0], StepKind::KillRuntime) {
            assert(before_kill_runtime(p2));
            lemma_shutdown_kills_runtime(p2, wired, then_launch, evs.drop_first());
        }
    }
}

/// A restart is shutdown followed by launch: once the shutdown half of a
/// restarting run completes, the run stands exactly where a fresh launch
/// stands after its opening step.
pub proof fn lemma_restart_enters_launch(p: RunPhase, wired: bool, ev: LauncherEvent)
    requires
        p is KillingRuntime,
        ev is Ack || ev is Failed,
    ensures
        next_phase(p, wired, true, ev) == launch_entry_phase(wired),
        next_phase(RunPhase::LaunchBegin, wired, false, LauncherEvent::Start)
            == launch_entry_phase(wired),
{
}

} // verus!

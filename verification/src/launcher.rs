//! Mutually-exclusive orchestrator for the third-party VR runtime: driver
//! conflict resolution, driver registration, clearing the safe-mode flag,
//! intercepting the compositor launcher, starting the runtime, and bounded
//! two-phase shutdown.
//!
//! All durable state lives in the OS and the filesystem and is re-read on
//! every operation, so the orchestrator is a state machine over
//! observations: each operation yields a [`LauncherRun`], and the caller
//! repeatedly performs the returned [`LauncherAction`] against the OS and
//! feeds the outcome back as a [`LauncherEvent`]. Every decision the
//! machine takes is verified; the caller contributes only blocking work the
//! verified code cannot do itself: process scans, signals, sleeps, and
//! filesystem access. Callers must drive a run from a worker thread, since
//! the actions block, and must hold one shared lock across whole runs so
//! that launch, shutdown and restart serialize system-wide.

use vstd::prelude::*;

verus! {

use crate::drivers::{is_stale_driver, select_stale_drivers};
use crate::settings::{json_render, unblock_nanvr_driver_within_vrsettings, unblock_view,
    vrsettings_parse};

/// How long shutdown waits for the runtime to exit by itself before it
/// force-terminates, in milliseconds.
pub const SHUTDOWN_TIMEOUT_MS: u64 = 10000;

/// The interval at which shutdown re-polls the process table, in
/// milliseconds.
pub const SHUTDOWN_POLL_MS: u64 = 500;

/// The failures that abort a launch. Everything else in a launch is
/// best-effort: logged by the caller and carried past.
#[derive(Clone, Copy, PartialEq, Eq, Structural, Debug)]
pub enum LaunchError {
    /// The runtime's compositor binary is missing at its expected path;
    /// the installation is incomplete or of the wrong distribution
    /// channel.
    RuntimeInstallationMissing,
    /// The compositor redirect could not be observed or applied.
    CompositorRedirectFailed,
}

/// What an observation of the compositor redirect found.
#[derive(Clone, Copy, PartialEq, Eq, Structural, Debug)]
pub struct CompositorProbe {
    /// The runtime's real compositor binary exists at its expected path.
    pub server_exists: bool,
    /// The canonical launcher path is currently a symbolic link.
    pub launcher_is_link: bool,
}

/// One blocking step the caller performs against the OS on the machine's
/// behalf. The caller reports the outcome as a [`LauncherEvent`].
#[derive(PartialEq, Eq, Debug)]
pub enum LauncherAction {
    /// Best-effort: terminate a stray bridge-server process left over from
    /// an unclean shutdown. Answered with `Ack` or `Failed`.
    KillBridgeServer,
    /// List the registered driver paths. Answered with `Drivers`.
    ListDrivers,
    /// Unregister the given driver paths. Best-effort; answered with `Ack`
    /// or `Failed`.
    UnregisterDrivers(Vec<String>),
    /// Register the given driver path. Best-effort; answered with `Ack` or
    /// `Failed`.
    RegisterDriver(String),
    /// Read the runtime's settings document. Answered with `Settings`.
    ReadSettings,
    /// Write the given text back as the settings document. Best-effort;
    /// answered with `Ack` or `Failed`.
    WriteSettings(String),
    /// Observe the compositor binary and launcher path. Answered with
    /// `Compositor`.
    ProbeCompositor,
    /// Remove the existing launcher symlink. Answered with `Ack` or
    /// `Failed`; failure aborts the launch.
    RemoveLauncherLink,
    /// Rename the original launcher binary to its backup name. Answered
    /// with `Ack` or `Failed`; failure aborts the launch.
    BackupLauncher,
    /// Create the launcher symlink pointing at the wrapper binary.
    /// Answered with `Ack` or `Failed`; failure aborts the launch.
    CreateLauncherLink,
    /// Scan the process table for the runtime's main process. Answered
    /// with `RuntimeRunning`.
    ProbeRuntime,
    /// Spawn the runtime. Best-effort; answered with `Ack` or `Failed`.
    SpawnRuntime,
    /// Sleep for the given number of milliseconds, then answer `Ack`.
    Sleep(u64),
    /// Terminate every monitor process, waiting briefly after each signal.
    /// Killing the monitor first keeps it from respawning the main process
    /// mid-shutdown. Answered with `Ack` or `Failed`.
    KillMonitor,
    /// Re-scan the process table and terminate every remaining main server
    /// process. Answered with `Ack` or `Failed`.
    KillRuntime,
}

/// The caller's report on the action it was asked to perform.
#[derive(PartialEq, Eq, Debug)]
pub enum LauncherEvent {
    /// Kicks a fresh run off; no action preceded it.
    Start,
    /// The previous action succeeded.
    Ack,
    /// The previous action failed.
    Failed,
    /// The registered driver paths, or `None` when listing failed.
    Drivers(Option<Vec<String>>),
    /// The settings document's text, or `None` when reading failed.
    Settings(Option<String>),
    /// What the compositor probe found, or `None` when it failed.
    Compositor(Option<CompositorProbe>),
    /// Whether the runtime's main process is in the process table.
    RuntimeRunning(bool),
}

/// Where a run stands. Shutdown stages come first, launch stages second; a
/// restart passes through both.
#[derive(Clone, Copy, PartialEq, Eq, Structural, Debug)]
pub enum RunPhase {
    /// Shutdown: waiting for `Start`.
    ShutdownBegin,
    /// Shutdown: a process-table scan is under way; `elapsed_ms` of the
    /// timeout have passed.
    Polling { elapsed_ms: u64 },
    /// Shutdown: sleeping one poll interval.
    Sleeping { elapsed_ms: u64 },
    /// Shutdown: terminating the monitor process.
    KillingMonitor,
    /// Shutdown: terminating the main server process.
    KillingRuntime,
    /// Launch: waiting for `Start`.
    LaunchBegin,
    /// Launch: terminating a stray bridge server, best-effort.
    KillingBridge,
    /// Launch: listing registered drivers.
    ListingDrivers,
    /// Launch: unregistering conflicting drivers, best-effort.
    Unregistering,
    /// Launch: registering the product's own driver.
    Registering,
    /// Launch: reading the settings document.
    ReadingSettings,
    /// Launch: writing the unblocked settings document back.
    WritingSettings,
    /// Launch: observing the compositor binary and launcher path.
    ProbingCompositor,
    /// Launch: removing the stale launcher symlink before recreating it.
    RemovingLink,
    /// Launch: renaming the original launcher binary to its backup name;
    /// happens only on the first interception.
    BackingUp,
    /// Launch: creating the symlink to the wrapper binary.
    CreatingLink,
    /// Launch: scanning for the runtime's main process.
    ProbingRuntime,
    /// Launch: spawning the runtime, because the scan found it dead.
    Spawning,
    /// The run is over and nothing failed fatally.
    Finished,
    /// The run was aborted by a fatal step.
    Aborted { error: LaunchError },
}

/// The first launch stage: a stray bridge server is terminated only when a
/// wired transport peer is configured.
pub open spec fn launch_entry_phase(wired: bool) -> RunPhase {
    if wired {
        RunPhase::KillingBridge
    } else {
        RunPhase::ListingDrivers
    }
}

/// The action the first launch stage asks for.
pub open spec fn launch_entry_action(wired: bool, a: Option<LauncherAction>) -> bool {
    if wired {
        a == Option::Some(LauncherAction::KillBridgeServer)
    } else {
        a == Option::Some(LauncherAction::ListDrivers)
    }
}

/// The machine's transition function on phases: where one event takes a
/// run that stands in phase `p`. An event that is not the answer to the
/// phase's pending action leaves the phase unchanged.
pub open spec fn next_phase(p: RunPhase, wired: bool, then_launch: bool, ev: LauncherEvent) -> RunPhase {
    match p {
        RunPhase::ShutdownBegin => match ev {
            LauncherEvent::Start => RunPhase::Polling { elapsed_ms: 0 },
            _ => p,
        },
        RunPhase::Polling { elapsed_ms } => match ev {
            LauncherEvent::RuntimeRunning(running) => if running && elapsed_ms
                < SHUTDOWN_TIMEOUT_MS {
                RunPhase::Sleeping { elapsed_ms }
            } else {
                RunPhase::KillingMonitor
            },
            _ => p,
        },
        RunPhase::Sleeping { elapsed_ms } => match ev {
            LauncherEvent::Ack => RunPhase::Polling {
                elapsed_ms: (elapsed_ms + SHUTDOWN_POLL_MS) as u64,
            },
            _ => p,
        },
        RunPhase::KillingMonitor => match ev {
            LauncherEvent::Ack => RunPhase::KillingRuntime,
            LauncherEvent::Failed => RunPhase::KillingRuntime,
            _ => p,
        },
        RunPhase::KillingRuntime => match ev {
            LauncherEvent::Ack => if then_launch {
                launch_entry_phase(wired)
            } else {
                RunPhase::Finished
            },
            LauncherEvent::Failed => if then_launch {
                launch_entry_phase(wired)
            } else {
                RunPhase::Finished
            },
            _ => p,
        },
        RunPhase::LaunchBegin => match ev {
            LauncherEvent::Start => launch_entry_phase(wired),
            _ => p,
        },
        RunPhase::KillingBridge => match ev {
            LauncherEvent::Ack => RunPhase::ListingDrivers,
            LauncherEvent::Failed => RunPhase::ListingDrivers,
            _ => p,
        },
        RunPhase::ListingDrivers => match ev {
            LauncherEvent::Drivers(_) => RunPhase::Unregistering,
            _ => p,
        },
        RunPhase::Unregistering => match ev {
            LauncherEvent::Ack => RunPhase::Registering,
            LauncherEvent::Failed => RunPhase::Registering,
            _ => p,
        },
        RunPhase::Registering => match ev {
            LauncherEvent::Ack => RunPhase::ReadingSettings,
            LauncherEvent::Failed => RunPhase::ReadingSettings,
            _ => p,
        },
        RunPhase::ReadingSettings => match ev {
            LauncherEvent::Settings(read) => match read {
                Option::Some(text) => if vrsettings_parse(text@) is Some {
                    RunPhase::WritingSettings
                } else {
                    RunPhase::ProbingCompositor
                },
                Option::None => RunPhase::ProbingCompositor,
            },
            _ => p,
        },
        RunPhase::WritingSettings => match ev {
            LauncherEvent::Ack => RunPhase::ProbingCompositor,
            LauncherEvent::Failed => RunPhase::ProbingCompositor,
            _ => p,
        },
        RunPhase::ProbingCompositor => match ev {
            LauncherEvent::Compositor(found) => match found {
                Option::None => RunPhase::Aborted {
                    error: LaunchError::CompositorRedirectFailed,
                },
                Option::Some(probe) => if !probe.server_exists {
                    RunPhase::Aborted { error: LaunchError::RuntimeInstallationMissing }
                } else if probe.launcher_is_link {
                    RunPhase::RemovingLink
                } else {
                    RunPhase::BackingUp
                },
            },
            _ => p,
        },
        RunPhase::RemovingLink => match ev {
            LauncherEvent::Ack => RunPhase::CreatingLink,
            LauncherEvent::Failed => RunPhase::Aborted {
                error: LaunchError::CompositorRedirectFailed,
            },
            _ => p,
        },
        RunPhase::BackingUp => match ev {
            LauncherEvent::Ack => RunPhase::CreatingLink,
            LauncherEvent::Failed => RunPhase::Aborted {
                error: LaunchError::CompositorRedirectFailed,
            },
            _ => p,
        },
        RunPhase::CreatingLink => match ev {
            LauncherEvent::Ack => RunPhase::ProbingRuntime,
            LauncherEvent::Failed => RunPhase::Aborted {
                error: LaunchError::CompositorRedirectFailed,
            },
            _ => p,
        },
        RunPhase::ProbingRuntime => match ev {
            LauncherEvent::RuntimeRunning(running) => if running {
                RunPhase::Finished
            } else {
                RunPhase::Spawning
            },
            _ => p,
        },
        RunPhase::Spawning => match ev {
            LauncherEvent::Ack => RunPhase::Finished,
            LauncherEvent::Failed => RunPhase::Finished,
            _ => p,
        },
        RunPhase::Finished => p,
        RunPhase::Aborted { .. } => p,
    }
}

/// What action, with which payload, a step from phase `p` on event `ev`
/// hands out. `None` means the run has nothing left to ask, either because
/// it is over or because the event was not the answer it was waiting for.
pub open spec fn step_action_ok(
    p: RunPhase,
    wired: bool,
    then_launch: bool,
    own_dir: String,
    ev: LauncherEvent,
    a: Option<LauncherAction>,
) -> bool {
    match p {
        RunPhase::ShutdownBegin => match ev {
            LauncherEvent::Start => a == Option::Some(LauncherAction::ProbeRuntime),
            _ => a is None,
        },
        RunPhase::Polling { elapsed_ms } => match ev {
            LauncherEvent::RuntimeRunning(running) => if running && elapsed_ms
                < SHUTDOWN_TIMEOUT_MS {
                a == Option::Some(LauncherAction::Sleep(SHUTDOWN_POLL_MS))
            } else {
                a == Option::Some(LauncherAction::KillMonitor)
            },
            _ => a is None,
        },
        RunPhase::Sleeping { .. } => match ev {
            LauncherEvent::Ack => a == Option::Some(LauncherAction::ProbeRuntime),
            _ => a is None,
        },
        RunPhase::KillingMonitor => match ev {
            LauncherEvent::Ack => a == Option::Some(LauncherAction::KillRuntime),
            LauncherEvent::Failed => a == Option::Some(LauncherAction::KillRuntime),
            _ => a is None,
        },
        RunPhase::KillingRuntime => match ev {
            LauncherEvent::Ack => if then_launch {
                launch_entry_action(wired, a)
            } else {
                a is None
            },
            LauncherEvent::Failed => if then_launch {
                launch_entry_action(wired, a)
            } else {
                a is None
            },
            _ => a is None,
        },
        RunPhase::LaunchBegin => match ev {
            LauncherEvent::Start => launch_entry_action(wired, a),
            _ => a is None,
        },
        RunPhase::KillingBridge => match ev {
            LauncherEvent::Ack => a == Option::Some(LauncherAction::ListDrivers),
            LauncherEvent::Failed => a == Option::Some(LauncherAction::ListDrivers),
            _ => a is None,
        },
        RunPhase::ListingDrivers => match ev {
            LauncherEvent::Drivers(listed) => (a matches Option::Some(
                LauncherAction::UnregisterDrivers(stale),
            ) && stale@ == (match listed {
                Option::Some(paths) => paths@,
                Option::None => Seq::<String>::empty(),
            }).filter(|q: String| is_stale_driver(q, own_dir))),
            _ => a is None,
        },
        RunPhase::Unregistering => match ev {
            LauncherEvent::Ack => (a matches Option::Some(LauncherAction::RegisterDriver(d)) && d
                == own_dir),
            LauncherEvent::Failed => (a matches Option::Some(LauncherAction::RegisterDriver(d))
                && d == own_dir),
            _ => a is None,
        },
        RunPhase::Registering => match ev {
            LauncherEvent::Ack => a == Option::Some(LauncherAction::ReadSettings),
            LauncherEvent::Failed => a == Option::Some(LauncherAction::ReadSettings),
            _ => a is None,
        },
        RunPhase::ReadingSettings => match ev {
            LauncherEvent::Settings(read) => match read {
                Option::Some(text) => if vrsettings_parse(text@) is Some {
                    (a matches Option::Some(LauncherAction::WriteSettings(out)) && out@
                        == json_render(unblock_view(vrsettings_parse(text@)->0)))
                } else {
                    a == Option::Some(LauncherAction::ProbeCompositor)
                },
                Option::None => a == Option::Some(LauncherAction::ProbeCompositor),
            },
            _ => a is None,
        },
        RunPhase::WritingSettings => match ev {
            LauncherEvent::Ack => a == Option::Some(LauncherAction::ProbeCompositor),
            LauncherEvent::Failed => a == Option::Some(LauncherAction::ProbeCompositor),
            _ => a is None,
        },
        RunPhase::ProbingCompositor => match ev {
            LauncherEvent::Compositor(found) => match found {
                Option::None => a is None,
                Option::Some(probe) => if !probe.server_exists {
                    a is None
                } else if probe.launcher_is_link {
                    a == Option::Some(LauncherAction::RemoveLauncherLink)
                } else {
                    a == Option::Some(LauncherAction::BackupLauncher)
                },
            },
            _ => a is None,
        },
        RunPhase::RemovingLink => match ev {
            LauncherEvent::Ack => a == Option::Some(LauncherAction::CreateLauncherLink),
            _ => a is None,
        },
        RunPhase::BackingUp => match ev {
            LauncherEvent::Ack => a == Option::Some(LauncherAction::CreateLauncherLink),
            _ => a is None,
        },
        RunPhase::CreatingLink => match ev {
            LauncherEvent::Ack => a == Option::Some(LauncherAction::ProbeRuntime),
            _ => a is None,
        },
        RunPhase::ProbingRuntime => match ev {
            LauncherEvent::RuntimeRunning(running) => if running {
                a is None
            } else {
                a == Option::Some(LauncherAction::SpawnRuntime)
            },
            _ => a is None,
        },
        RunPhase::Spawning => match ev {
            LauncherEvent::Ack => a is None,
            LauncherEvent::Failed => a is None,
            _ => a is None,
        },
        RunPhase::Finished => a is None,
        RunPhase::Aborted { .. } => a is None,
    }
}

/// The shutdown counters stay in range: sleeping implies the timeout has
/// not elapsed, and the elapsed total never passes one interval beyond the
/// timeout.
pub open spec fn phase_inv(p: RunPhase) -> bool {
    match p {
        RunPhase::Polling { elapsed_ms } => elapsed_ms <= SHUTDOWN_TIMEOUT_MS + SHUTDOWN_POLL_MS,
        RunPhase::Sleeping { elapsed_ms } => elapsed_ms < SHUTDOWN_TIMEOUT_MS,
        _ => true,
    }
}

/// One launch, shutdown or restart in progress.
pub struct LauncherRun {
    wired: bool,
    own_driver_dir: String,
    then_launch: bool,
    phase: RunPhase,
}

impl LauncherRun {
    /// The phase the run stands in.
    pub closed spec fn phase(&self) -> RunPhase {
        self.phase
    }

    /// Whether a wired transport peer is configured.
    pub closed spec fn wired_spec(&self) -> bool {
        self.wired
    }

    /// This product's own driver directory.
    pub closed spec fn own_dir_spec(&self) -> String {
        self.own_driver_dir
    }

    /// Whether the run continues into a launch once shutdown is done.
    pub closed spec fn then_launch_spec(&self) -> bool {
        self.then_launch
    }

    /// The machine's counters are in range.
    pub open spec fn inv(&self) -> bool {
        phase_inv(self.phase())
    }

    /// The phase the run stands in, for callers and tests.
    pub fn current_phase(&self) -> (p: RunPhase)
        ensures
            p == self.phase(),
    {
        self.phase
    }

    /// Whether the run still expects events.
    pub fn is_over(&self) -> (over: bool)
        ensures
            over == (self.phase() is Finished || self.phase() is Aborted),
    {
        match self.phase {
            RunPhase::Finished => true,
            RunPhase::Aborted { .. } => true,
            _ => false,
        }
    }

    /// Feeds one event to the run and hands back the next action to
    /// perform, or `None` when there is nothing to do.
    pub fn step(&mut self, event: LauncherEvent) -> (a: Option<LauncherAction>)
        requires
            old(self).inv(),
        ensures
            final(self).inv(),
            final(self).wired_spec() == old(self).wired_spec(),
            final(self).own_dir_spec() == old(self).own_dir_spec(),
            final(self).then_launch_spec() == old(self).then_launch_spec(),
            final(self).phase() == next_phase(
                old(self).phase(),
                old(self).wired_spec(),
                old(self).then_launch_spec(),
                event,
            ),
            step_action_ok(
                old(self).phase(),
                old(self).wired_spec(),
                old(self).then_launch_spec(),
                old(self).own_dir_spec(),
                event,
                a,
            ),
    {
        let p = self.phase;
        match (p, event) {
            (RunPhase::ShutdownBegin, LauncherEvent::Start) => {
                self.phase = RunPhase::Polling { elapsed_ms: 0 };
                Option::Some(LauncherAction::ProbeRuntime)
            },
            (RunPhase::Polling { elapsed_ms }, LauncherEvent::RuntimeRunning(running)) => {
                if running && elapsed_ms < SHUTDOWN_TIMEOUT_MS {
                    self.phase = RunPhase::Sleeping { elapsed_ms };
                    Option::Some(LauncherAction::Sleep(SHUTDOWN_POLL_MS))
                } else {
                    self.phase = RunPhase::KillingMonitor;
                    Option::Some(LauncherAction::KillMonitor)
                }
            },
            (RunPhase::Sleeping { elapsed_ms }, LauncherEvent::Ack) => {
                self.phase = RunPhase::Polling { elapsed_ms: elapsed_ms + SHUTDOWN_POLL_MS };
                Option::Some(LauncherAction::ProbeRuntime)
            },
            (RunPhase::KillingMonitor, LauncherEvent::Ack)
            | (RunPhase::KillingMonitor, LauncherEvent::Failed) => {
                self.phase = RunPhase::KillingRuntime;
                Option::Some(LauncherAction::KillRuntime)
            },
            (RunPhase::KillingRuntime, LauncherEvent::Ack)
            | (RunPhase::KillingRuntime, LauncherEvent::Failed) => {
                if self.then_launch {
                    self.enter_launch()
                } else {
                    self.phase = RunPhase::Finished;
                    Option::None
                }
            },
            (RunPhase::LaunchBegin, LauncherEvent::Start) => self.enter_launch(),
            (RunPhase::KillingBridge, LauncherEvent::Ack)
            | (RunPhase::KillingBridge, LauncherEvent::Failed) => {
                self.phase = RunPhase::ListingDrivers;
                Option::Some(LauncherAction::ListDrivers)
            },
            (RunPhase::ListingDrivers, LauncherEvent::Drivers(listed)) => {
                let registered = match listed {
                    Option::Some(paths) => paths,
                    Option::None => Vec::new(),
                };
                let stale = select_stale_drivers(&registered, &self.own_driver_dir);
                self.phase = RunPhase::Unregistering;
                Option::Some(LauncherAction::UnregisterDrivers(stale))
            },
            (RunPhase::Unregistering, LauncherEvent::Ack)
            | (RunPhase::Unregistering, LauncherEvent::Failed) => {
                self.phase = RunPhase::Registering;
                Option::Some(LauncherAction::RegisterDriver(self.own_driver_dir.clone()))
            },
            (RunPhase::Registering, LauncherEvent::Ack)
            | (RunPhase::Registering, LauncherEvent::Failed) => {
                self.phase = RunPhase::ReadingSettings;
                Option::Some(LauncherAction::ReadSettings)
            },
            (RunPhase::ReadingSettings, LauncherEvent::Settings(read)) => {
                match read {
                    Option::Some(text) => {
                        match unblock_nanvr_driver_within_vrsettings(text.as_str()) {
                            Result::Ok(out) => {
                                self.phase = RunPhase::WritingSettings;
                                Option::Some(LauncherAction::WriteSettings(out))
                            },
                            Result::Err(_corrupt) => {
                                // Non-fatal: the launch proceeds without
                                // the unblock.
                                self.phase = RunPhase::ProbingCompositor;
                                Option::Some(LauncherAction::ProbeCompositor)
                            },
                        }
                    },
                    Option::None => {
                        self.phase = RunPhase::ProbingCompositor;
                        Option::Some(LauncherAction::ProbeCompositor)
                    },
                }
            },
            (RunPhase::WritingSettings, LauncherEvent::Ack)
            | (RunPhase::WritingSettings, LauncherEvent::Failed) => {
                self.phase = RunPhase::ProbingCompositor;
                Option::Some(LauncherAction::ProbeCompositor)
            },
            (RunPhase::ProbingCompositor, LauncherEvent::Compositor(found)) => {
                match found {
                    Option::None => {
                        self.phase = RunPhase::Aborted {
                            error: LaunchError::CompositorRedirectFailed,
                        };
                        Option::None
                    },
                    Option::Some(probe) => {
                        if !probe.server_exists {
                            self.phase = RunPhase::Aborted {
                                error: LaunchError::RuntimeInstallationMissing,
                            };
                            Option::None
                        } else if probe.launcher_is_link {
                            self.phase = RunPhase::RemovingLink;
                            Option::Some(LauncherAction::RemoveLauncherLink)
                        } else {
                            self.phase = RunPhase::BackingUp;
                            Option::Some(LauncherAction::BackupLauncher)
                        }
                    },
                }
            },
            (RunPhase::RemovingLink, LauncherEvent::Ack) => {
                self.phase = RunPhase::CreatingLink;
                Option::Some(LauncherAction::CreateLauncherLink)
            },
            (RunPhase::RemovingLink, LauncherEvent::Failed) => {
                self.phase = RunPhase::Aborted { error: LaunchError::CompositorRedirectFailed };
                Option::None
            },
            (RunPhase::BackingUp, LauncherEvent::Ack) => {
                self.phase = RunPhase::CreatingLink;
                Option::Some(LauncherAction::CreateLauncherLink)
            },
            (RunPhase::BackingUp, LauncherEvent::Failed) => {
                self.phase = RunPhase::Aborted { error: LaunchError::CompositorRedirectFailed };
                Option::None
            },
            (RunPhase::CreatingLink, LauncherEvent::Ack) => {
                self.phase = RunPhase::ProbingRuntime;
                Option::Some(LauncherAction::ProbeRuntime)
            },
            (RunPhase::CreatingLink, LauncherEvent::Failed) => {
                self.phase = RunPhase::Aborted { error: LaunchError::CompositorRedirectFailed };
                Option::None
            },
            (RunPhase::ProbingRuntime, LauncherEvent::RuntimeRunning(running)) => {
                if running {
                    self.phase = RunPhase::Finished;
                    Option::None
                } else {
                    self.phase = RunPhase::Spawning;
                    Option::Some(LauncherAction::SpawnRuntime)
                }
            },
            (RunPhase::Spawning, LauncherEvent::Ack)
            | (RunPhase::Spawning, LauncherEvent::Failed) => {
                self.phase = RunPhase::Finished;
                Option::None
            },
            _ => Option::None,
        }
    }

    /// Moves into the first launch stage and asks for its action.
    fn enter_launch(&mut self) -> (a: Option<LauncherAction>)
        ensures
            final(self).phase() == launch_entry_phase(old(self).wired_spec()),
            launch_entry_action(old(self).wired_spec(), a),
            final(self).wired_spec() == old(self).wired_spec(),
            final(self).own_dir_spec() == old(self).own_dir_spec(),
            final(self).then_launch_spec() == old(self).then_launch_spec(),
    {
        if self.wired {
            self.phase = RunPhase::KillingBridge;
            Option::Some(LauncherAction::KillBridgeServer)
        } else {
            self.phase = RunPhase::ListingDrivers;
            Option::Some(LauncherAction::ListDrivers)
        }
    }
}

/// The orchestrator's configuration: constructed once by the hosting
/// application and shared, under one lock, by every caller of launch,
/// shutdown and restart.
pub struct Launcher {
    wired_peer_configured: bool,
    own_driver_dir: String,
}

impl Launcher {
    /// Whether a wired transport peer is configured; only then does launch
    /// terminate a stray bridge server first.
    pub closed spec fn wired_spec(&self) -> bool {
        self.wired_peer_configured
    }

    /// This product's own driver directory, as the external path layout
    /// provides it.
    pub closed spec fn own_dir_spec(&self) -> String {
        self.own_driver_dir
    }

    /// A launcher for the given configuration.
    pub fn new(wired_peer_configured: bool, own_driver_dir: String) -> (r: Launcher)
        ensures
            r.wired_spec() == wired_peer_configured,
            r.own_dir_spec() == own_driver_dir,
    {
        Launcher { wired_peer_configured, own_driver_dir }
    }

    /// A run that brings the runtime up: resolves driver conflicts,
    /// registers the product's driver, clears the safe-mode flag,
    /// re-applies the compositor redirect, and spawns the runtime if its
    /// process is absent. Kick it off with [`LauncherEvent::Start`].
    pub fn launch_steamvr(&self) -> (r: LauncherRun)
        ensures
            r.inv(),
            r.phase() == RunPhase::LaunchBegin,
            r.wired_spec() == self.wired_spec(),
            r.own_dir_spec() == self.own_dir_spec(),
            !r.then_launch_spec(),
    {
        LauncherRun {
            wired: self.wired_peer_configured,
            own_driver_dir: self.own_driver_dir.clone(),
            then_launch: false,
            phase: RunPhase::LaunchBegin,
        }
    }

    /// A run that waits, within the bounded timeout, for the runtime to
    /// exit by itself, then force-terminates the monitor first and the
    /// main server second. Kick it off with [`LauncherEvent::Start`].
    pub fn ensure_steamvr_shutdown(&self) -> (r: LauncherRun)
        ensures
            r.inv(),
            r.phase() == RunPhase::ShutdownBegin,
            r.wired_spec() == self.wired_spec(),
            r.own_dir_spec() == self.own_dir_spec(),
            !r.then_launch_spec(),
    {
        LauncherRun {
            wired: self.wired_peer_configured,
            own_driver_dir: self.own_driver_dir.clone(),
            then_launch: false,
            phase: RunPhase::ShutdownBegin,
        }
    }

    /// A run that shuts the runtime down as `ensure_steamvr_shutdown`
    /// does, then continues straight into a launch, sequentially on the
    /// caller's thread. Kick it off with [`LauncherEvent::Start`].
    pub fn restart_steamvr(&self) -> (r: LauncherRun)
        ensures
            r.inv(),
            r.phase() == RunPhase::ShutdownBegin,
            r.wired_spec() == self.wired_spec(),
            r.own_dir_spec() == self.own_dir_spec(),
            r.then_launch_spec(),
    {
        LauncherRun {
            wired: self.wired_peer_configured,
            own_driver_dir: self.own_driver_dir.clone(),
            then_launch: true,
            phase: RunPhase::ShutdownBegin,
        }
    }
}

} // verus!

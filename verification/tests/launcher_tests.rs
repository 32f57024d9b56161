use nanvr_core::launcher::{
    CompositorProbe, LaunchError, Launcher, LauncherAction, LauncherEvent, LauncherRun, RunPhase,
};

/// A simulated OS: process table, filesystem, driver registry and settings
/// document, together with counters for everything a run asked for.
struct FakeOs {
    runtime_running: bool,
    /// After this many sleeps the runtime exits by itself; `None` means it
    /// never does.
    runtime_exits_after_sleeps: Option<u32>,
    server_exists: bool,
    launcher_is_link: bool,
    backup_count: u32,
    registered: Vec<String>,
    settings: Option<String>,
    written_settings: Option<String>,
    sleeps: u32,
    spawns: u32,
    register_calls: Vec<String>,
    unregister_calls: Vec<Vec<String>>,
    read_settings_calls: u32,
    kill_monitor_calls: u32,
    kill_runtime_calls: u32,
    log: Vec<&'static str>,
}

impl FakeOs {
    fn new() -> FakeOs {
        FakeOs {
            runtime_running: false,
            runtime_exits_after_sleeps: None,
            server_exists: true,
            launcher_is_link: false,
            backup_count: 0,
            registered: Vec::new(),
            settings: None,
            written_settings: None,
            sleeps: 0,
            spawns: 0,
            register_calls: Vec::new(),
            unregister_calls: Vec::new(),
            read_settings_calls: 0,
            kill_monitor_calls: 0,
            kill_runtime_calls: 0,
            log: Vec::new(),
        }
    }

    fn perform(&mut self, action: LauncherAction) -> LauncherEvent {
        match action {
            LauncherAction::KillBridgeServer => {
                self.log.push("kill_bridge");
                LauncherEvent::Ack
            }
            LauncherAction::ListDrivers => {
                self.log.push("list_drivers");
                LauncherEvent::Drivers(Some(self.registered.clone()))
            }
            LauncherAction::UnregisterDrivers(paths) => {
                self.log.push("unregister");
                for p in &paths {
                    self.registered.retain(|q| q != p);
                }
                self.unregister_calls.push(paths);
                LauncherEvent::Ack
            }
            LauncherAction::RegisterDriver(path) => {
                self.log.push("register");
                if !self.registered.contains(&path) {
                    self.registered.push(path.clone());
                }
                self.register_calls.push(path);
                LauncherEvent::Ack
            }
            LauncherAction::ReadSettings => {
                self.log.push("read_settings");
                self.read_settings_calls += 1;
                LauncherEvent::Settings(self.settings.clone())
            }
            LauncherAction::WriteSettings(text) => {
                self.log.push("write_settings");
                self.settings = Some(text.clone());
                self.written_settings = Some(text);
                LauncherEvent::Ack
            }
            LauncherAction::ProbeCompositor => {
                self.log.push("probe_compositor");
                LauncherEvent::Compositor(Some(CompositorProbe {
                    server_exists: self.server_exists,
                    launcher_is_link: self.launcher_is_link,
                }))
            }
            LauncherAction::RemoveLauncherLink => {
                self.log.push("remove_link");
                assert!(self.launcher_is_link, "removed a link that was not there");
                self.launcher_is_link = false;
                LauncherEvent::Ack
            }
            LauncherAction::BackupLauncher => {
                self.log.push("backup");
                assert!(!self.launcher_is_link, "backed up a symlink");
                self.backup_count += 1;
                LauncherEvent::Ack
            }
            LauncherAction::CreateLauncherLink => {
                self.log.push("create_link");
                self.launcher_is_link = true;
                LauncherEvent::Ack
            }
            LauncherAction::ProbeRuntime => {
                self.log.push("probe_runtime");
                LauncherEvent::RuntimeRunning(self.runtime_running)
            }
            LauncherAction::SpawnRuntime => {
                self.log.push("spawn");
                self.spawns += 1;
                self.runtime_running = true;
                LauncherEvent::Ack
            }
            LauncherAction::Sleep(_ms) => {
                self.log.push("sleep");
                self.sleeps += 1;
                if let Some(n) = self.runtime_exits_after_sleeps {
                    if self.sleeps >= n {
                        self.runtime_running = false;
                    }
                }
                LauncherEvent::Ack
            }
            LauncherAction::KillMonitor => {
                self.log.push("kill_monitor");
                self.kill_monitor_calls += 1;
                LauncherEvent::Ack
            }
            LauncherAction::KillRuntime => {
                self.log.push("kill_runtime");
                self.kill_runtime_calls += 1;
                self.runtime_running = false;
                LauncherEvent::Ack
            }
        }
    }
}

fn drive(run: &mut LauncherRun, os: &mut FakeOs) {
    let mut next = run.step(LauncherEvent::Start);
    let mut guard = 0;
    while let Some(action) = next {
        guard += 1;
        assert!(guard < 1000, "run does not terminate");
        let ev = os.perform(action);
        next = run.step(ev);
    }
    assert!(run.is_over());
}

fn launcher() -> Launcher {
    Launcher::new(false, "/opt/nanvr/driver".to_string())
}

const BLOCKED: &str = r#"{ "driver_nanvr_server": { "blocked_by_safe_mode": true } }"#;

#[test]
fn repeated_launch_while_running_registers_each_time_but_never_spawns() {
    let launcher = launcher();
    let mut os = FakeOs::new();
    os.runtime_running = true;
    os.settings = Some(BLOCKED.to_string());

    let mut first = launcher.launch_steamvr();
    drive(&mut first, &mut os);
    assert_eq!(first.current_phase(), RunPhase::Finished);
    assert_eq!(os.spawns, 0);
    assert_eq!(os.register_calls.len(), 1);
    assert_eq!(os.read_settings_calls, 1);

    let mut second = launcher.launch_steamvr();
    drive(&mut second, &mut os);
    assert_eq!(second.current_phase(), RunPhase::Finished);
    assert_eq!(os.spawns, 0, "a second launch while running must not spawn");
    assert_eq!(os.register_calls.len(), 2, "registration happens on every launch");
    assert_eq!(os.read_settings_calls, 2, "the settings pass happens on every launch");
}

#[test]
fn launch_spawns_the_runtime_when_its_process_is_absent() {
    let launcher = launcher();
    let mut os = FakeOs::new();
    os.runtime_running = false;

    let mut run = launcher.launch_steamvr();
    drive(&mut run, &mut os);
    assert_eq!(run.current_phase(), RunPhase::Finished);
    assert_eq!(os.spawns, 1);
    assert!(os.runtime_running);
}

#[test]
fn two_launches_produce_exactly_one_backup() {
    let launcher = launcher();
    let mut os = FakeOs::new();
    os.runtime_running = true;

    let mut first = launcher.launch_steamvr();
    drive(&mut first, &mut os);
    assert_eq!(os.backup_count, 1);
    assert!(os.launcher_is_link);

    let mut second = launcher.launch_steamvr();
    drive(&mut second, &mut os);
    assert_eq!(os.backup_count, 1, "the rename happens once; later launches relink");
    assert!(os.launcher_is_link);
    // The second interception removed the old link and recreated it.
    assert_eq!(os.log.iter().filter(|s| **s == "remove_link").count(), 1);
    assert_eq!(os.log.iter().filter(|s| **s == "create_link").count(), 2);
}

#[test]
fn interception_heals_after_the_runtime_restored_the_binary() {
    let launcher = launcher();
    let mut os = FakeOs::new();
    os.runtime_running = true;

    let mut first = launcher.launch_steamvr();
    drive(&mut first, &mut os);
    assert_eq!(os.backup_count, 1);

    // A runtime self-update silently restored the original binary.
    os.launcher_is_link = false;

    let mut second = launcher.launch_steamvr();
    drive(&mut second, &mut os);
    assert_eq!(second.current_phase(), RunPhase::Finished);
    assert!(os.launcher_is_link, "the redirect is re-applied");
}

#[test]
fn launch_aborts_when_the_runtime_installation_is_missing() {
    let launcher = launcher();
    let mut os = FakeOs::new();
    os.server_exists = false;
    os.runtime_running = false;

    let mut run = launcher.launch_steamvr();
    drive(&mut run, &mut os);
    assert_eq!(
        run.current_phase(),
        RunPhase::Aborted {
            error: LaunchError::RuntimeInstallationMissing
        }
    );
    // The best-effort steps before the fatal one still ran...
    assert_eq!(os.register_calls.len(), 1);
    // ...but nothing after it did.
    assert_eq!(os.backup_count, 0);
    assert_eq!(os.spawns, 0);
}

#[test]
fn unblock_happens_within_the_launch_sequence() {
    let launcher = launcher();
    let mut os = FakeOs::new();
    os.runtime_running = true;
    os.settings = Some(BLOCKED.to_string());

    let mut run = launcher.launch_steamvr();
    drive(&mut run, &mut os);

    let written = os.written_settings.as_deref().expect("settings were written back");
    let doc: serde_json::Value = serde_json::from_str(written).unwrap();
    assert_eq!(
        doc["driver_nanvr_server"]["blocked_by_safe_mode"],
        serde_json::Value::Bool(false)
    );
}

#[test]
fn unreadable_settings_are_not_fatal() {
    let launcher = launcher();
    let mut os = FakeOs::new();
    os.runtime_running = true;
    os.settings = None;

    let mut run = launcher.launch_steamvr();
    drive(&mut run, &mut os);
    assert_eq!(run.current_phase(), RunPhase::Finished);
    assert!(os.written_settings.is_none());
}

#[test]
fn corrupt_settings_are_not_fatal() {
    let launcher = launcher();
    let mut os = FakeOs::new();
    os.runtime_running = true;
    os.settings = Some("not json".to_string());

    let mut run = launcher.launch_steamvr();
    drive(&mut run, &mut os);
    assert_eq!(run.current_phase(), RunPhase::Finished);
    assert!(os.written_settings.is_none());
}

#[test]
fn conflicting_family_drivers_are_unregistered_case_insensitively() {
    let launcher = launcher();
    let mut os = FakeOs::new();
    os.runtime_running = true;
    os.registered = vec![
        "/opt/nanvr/driver".to_string(),
        "/home/u/.local/NaNVR-old/bin".to_string(),
        "/opt/other_vendor/driver".to_string(),
    ];

    let mut run = launcher.launch_steamvr();
    drive(&mut run, &mut os);

    assert_eq!(
        os.unregister_calls,
        vec![vec!["/home/u/.local/NaNVR-old/bin".to_string()]],
        "only the stale family driver is unregistered"
    );
    assert!(os.registered.contains(&"/opt/nanvr/driver".to_string()));
    assert!(os.registered.contains(&"/opt/other_vendor/driver".to_string()));
    assert!(!os.registered.contains(&"/home/u/.local/NaNVR-old/bin".to_string()));
}

#[test]
fn shutdown_kills_after_the_bounded_timeout() {
    let launcher = launcher();
    let mut os = FakeOs::new();
    os.runtime_running = true;
    os.runtime_exits_after_sleeps = None;

    let mut run = launcher.ensure_steamvr_shutdown();
    drive(&mut run, &mut os);
    assert_eq!(run.current_phase(), RunPhase::Finished);
    // 10 s timeout at 500 ms per poll: twenty sleeps, never more.
    assert_eq!(os.sleeps, 20);
    assert_eq!(os.kill_monitor_calls, 1);
    assert_eq!(os.kill_runtime_calls, 1);
    assert!(!os.runtime_running);
}

#[test]
fn shutdown_stops_polling_once_the_runtime_exits() {
    let launcher = launcher();
    let mut os = FakeOs::new();
    os.runtime_running = true;
    os.runtime_exits_after_sleeps = Some(3);

    let mut run = launcher.ensure_steamvr_shutdown();
    drive(&mut run, &mut os);
    assert_eq!(os.sleeps, 3);
    // The force-termination pass runs regardless.
    assert_eq!(os.kill_monitor_calls, 1);
    assert_eq!(os.kill_runtime_calls, 1);
}

#[test]
fn shutdown_of_a_dead_runtime_still_force_terminates() {
    let launcher = launcher();
    let mut os = FakeOs::new();
    os.runtime_running = false;

    let mut run = launcher.ensure_steamvr_shutdown();
    drive(&mut run, &mut os);
    assert_eq!(os.sleeps, 0);
    assert_eq!(os.kill_monitor_calls, 1);
    assert_eq!(os.kill_runtime_calls, 1);
    // The monitor dies before the main server.
    let monitor_at = os.log.iter().position(|s| *s == "kill_monitor").unwrap();
    let runtime_at = os.log.iter().position(|s| *s == "kill_runtime").unwrap();
    assert!(monitor_at < runtime_at);
}

#[test]
fn restart_shuts_down_and_then_launches_in_one_run() {
    let launcher = launcher();
    let mut os = FakeOs::new();
    os.runtime_running = true;
    os.runtime_exits_after_sleeps = Some(1);
    os.settings = Some(BLOCKED.to_string());

    let mut run = launcher.restart_steamvr();
    drive(&mut run, &mut os);
    assert_eq!(run.current_phase(), RunPhase::Finished);
    assert_eq!(os.kill_runtime_calls, 1);
    assert_eq!(os.register_calls.len(), 1);
    assert_eq!(os.spawns, 1, "the runtime was killed, so the launch respawns it");

    // The shutdown half strictly precedes the launch half.
    let kill_at = os.log.iter().position(|s| *s == "kill_runtime").unwrap();
    let register_at = os.log.iter().position(|s| *s == "register").unwrap();
    assert!(kill_at < register_at);
}

#[test]
fn wired_transport_kills_the_stray_bridge_first() {
    let launcher = Launcher::new(true, "/opt/nanvr/driver".to_string());
    let mut os = FakeOs::new();
    os.runtime_running = true;

    let mut run = launcher.launch_steamvr();
    drive(&mut run, &mut os);
    assert_eq!(os.log[0], "kill_bridge");
    assert_eq!(os.log[1], "list_drivers");
}

#[test]
fn link_removal_failure_aborts_the_launch() {
    let launcher = launcher();
    let mut os = FakeOs::new();
    os.runtime_running = true;
    os.launcher_is_link = true;

    let mut run = launcher.launch_steamvr();
    let mut next = run.step(LauncherEvent::Start);
    let mut aborted = false;
    let mut guard = 0;
    while let Some(action) = next {
        guard += 1;
        assert!(guard < 1000);
        if matches!(action, LauncherAction::RemoveLauncherLink) {
            next = run.step(LauncherEvent::Failed);
            aborted = true;
        } else {
            let ev = os.perform(action);
            next = run.step(ev);
        }
    }
    assert!(aborted);
    assert_eq!(
        run.current_phase(),
        RunPhase::Aborted {
            error: LaunchError::CompositorRedirectFailed
        }
    );
    assert_eq!(os.spawns, 0);
}

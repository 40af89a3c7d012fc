use resmgr::config::Config;
use resmgr::idle::IdleTracker;
use resmgr::policy::{
    confirm_killed, docker_active, kill_allowed, plan_poll, select_idle_dev_servers,
    select_zombie_vms, should_write_trending,
};
use resmgr::pressure::PressureLevel;
use resmgr::process::ProcessInfo;

fn record(pid: u64, name: &str, memory_mb: u64, cpu_centipercent: u32, cmd: &str) -> ProcessInfo {
    ProcessInfo {
        pid,
        name: name.to_string(),
        memory_mb,
        cpu_centipercent,
        cmd: cmd.to_string(),
    }
}

#[test]
fn kill_allowed_refuses_protected_and_browser() {
    let config = Config::default();
    assert!(!kill_allowed("Finder", "", &config.protected.processes));
    assert!(!kill_allowed("Google Chrome", "", &config.protected.processes));
    assert!(!kill_allowed(
        "Brave Browser Helper (Renderer)",
        "--type=renderer vite",
        &config.protected.processes,
    ));
    assert!(kill_allowed("next-server", "node next-server", &config.protected.processes));
}

#[test]
fn idle_dev_server_is_selected_after_threshold() {
    let config = Config::default();
    let procs = vec![record(1, "next-server", 512, 10, "node next-server")];
    let mut tracker = IdleTracker::new();
    tracker.update(&procs, 0);
    // Default threshold is 10 minutes; 11 minutes later it is due.
    let rows = select_idle_dev_servers(&procs, &tracker, &config, 11 * 60_000);
    assert_eq!(rows, vec![("next-server".to_string(), 1, 512)]);
}

#[test]
fn dev_server_not_selected_before_threshold() {
    let config = Config::default();
    let procs = vec![record(1, "next-server", 512, 10, "node next-server")];
    let mut tracker = IdleTracker::new();
    tracker.update(&procs, 0);
    let rows = select_idle_dev_servers(&procs, &tracker, &config, 9 * 60_000);
    assert!(rows.is_empty());
}

#[test]
fn busy_dev_server_is_not_selected() {
    let config = Config::default();
    let procs = vec![record(1, "next-server", 512, 7000, "node next-server")];
    let mut tracker = IdleTracker::new();
    tracker.update(&procs, 0);
    let rows = select_idle_dev_servers(&procs, &tracker, &config, 60 * 60_000);
    assert!(rows.is_empty());
}

#[test]
fn browser_helper_never_selected_as_dev_server() {
    // The command line contains "vite", the process is long idle, yet
    // the browser safety net keeps it out.
    let config = Config::default();
    let procs = vec![record(
        2,
        "Brave Browser Helper (Renderer)",
        900,
        10,
        "--type=renderer --utility-sub-type=network.mojom vite",
    )];
    let mut tracker = IdleTracker::new();
    tracker.update(&procs, 0);
    let rows = select_idle_dev_servers(&procs, &tracker, &config, 60 * 60_000);
    assert!(rows.is_empty());
}

#[test]
fn protected_process_never_selected_even_if_it_matches() {
    // A process whose name matches both a protected entry and a
    // dev-server pattern must not be selected.
    let mut config = Config::default();
    config.protected.processes.push("vite".to_string());
    let procs = vec![record(3, "vite", 256, 10, "vite dev")];
    let mut tracker = IdleTracker::new();
    tracker.update(&procs, 0);
    let rows = select_idle_dev_servers(&procs, &tracker, &config, 60 * 60_000);
    assert!(rows.is_empty());
}

#[test]
fn zombie_vm_selected_when_docker_absent() {
    let config = Config::default();
    let procs = vec![record(
        4,
        "com.apple.Virtualization.VirtualMachine",
        4096,
        10,
        "",
    )];
    let rows = select_zombie_vms(&procs, &config);
    assert_eq!(rows, vec![("com.apple.Virtualization.VirtualMachine".to_string(), 4, 4096)]);
}

#[test]
fn docker_backend_suppresses_zombie_kills() {
    let config = Config::default();
    let procs = vec![
        record(4, "com.apple.Virtualization.VirtualMachine", 4096, 10, ""),
        record(5, "com.docker.backend", 100, 10, ""),
    ];
    assert!(docker_active(&procs));
    assert!(select_zombie_vms(&procs, &config).is_empty());
}

#[test]
fn docker_desktop_suppresses_zombie_kills() {
    let config = Config::default();
    let procs = vec![
        record(4, "com.apple.Virtualization.VirtualMachine", 4096, 10, ""),
        record(6, "Docker Desktop", 800, 10, ""),
    ];
    assert!(select_zombie_vms(&procs, &config).is_empty());
}

#[test]
fn zombie_kills_disabled_by_configuration() {
    let mut config = Config::default();
    config.auto_kill.zombie_vms = false;
    let procs = vec![record(4, "com.apple.Virtualization.VirtualMachine", 4096, 10, "")];
    assert!(select_zombie_vms(&procs, &config).is_empty());
}

#[test]
fn protected_zombie_pattern_not_selected() {
    let mut config = Config::default();
    config.protected.processes.push("Virtualization".to_string());
    let procs = vec![record(4, "com.apple.Virtualization.VirtualMachine", 4096, 10, "")];
    assert!(select_zombie_vms(&procs, &config).is_empty());
}

#[test]
fn confirm_killed_keeps_only_successes() {
    let rows = vec![
        ("a".to_string(), 1u64, 10u64),
        ("b".to_string(), 2, 20),
        ("c".to_string(), 3, 30),
    ];
    let outcomes = vec![true, false, true];
    let kept = confirm_killed(rows, &outcomes);
    assert_eq!(kept, vec![("a".to_string(), 1, 10), ("c".to_string(), 3, 30)]);
}

#[test]
fn plan_normal_only_logs_recovery() {
    let plan = plan_poll(PressureLevel::Normal, PressureLevel::High, 1_000_000, 0);
    assert!(!plan.kill_zombie_vms);
    assert!(!plan.kill_idle_dev_servers);
    assert!(!plan.notify);
    assert!(plan.log_recovery);
    let plan2 = plan_poll(PressureLevel::Normal, PressureLevel::Normal, 1_000_000, 0);
    assert!(!plan2.log_recovery);
}

#[test]
fn plan_elevated_kills_zombies_and_rate_limits() {
    // Level change, but within the two-minute cooldown: no notification.
    let plan = plan_poll(PressureLevel::Elevated, PressureLevel::Normal, 60_000, 0);
    assert!(plan.kill_zombie_vms);
    assert!(!plan.kill_idle_dev_servers);
    assert!(!plan.notify);
    // Level change and past the cooldown: notify.
    let plan2 = plan_poll(PressureLevel::Elevated, PressureLevel::Normal, 150_000, 0);
    assert!(plan2.notify);
    // No change, under five minutes: stay quiet.
    let plan3 = plan_poll(PressureLevel::Elevated, PressureLevel::Elevated, 150_000, 0);
    assert!(!plan3.notify);
    // No change, past five minutes: notify again.
    let plan4 = plan_poll(PressureLevel::Elevated, PressureLevel::Elevated, 310_000, 0);
    assert!(plan4.notify);
}

#[test]
fn plan_high_and_critical_kill_dev_servers() {
    let plan = plan_poll(PressureLevel::High, PressureLevel::High, 130_000, 0);
    assert!(plan.kill_zombie_vms);
    assert!(plan.kill_idle_dev_servers);
    assert!(plan.notify);
    let plan2 = plan_poll(PressureLevel::Critical, PressureLevel::High, 61_000, 0);
    assert!(plan2.kill_idle_dev_servers);
    assert!(plan2.notify);
    let plan3 = plan_poll(PressureLevel::Critical, PressureLevel::Critical, 59_000, 0);
    assert!(!plan3.notify);
}

#[test]
fn trending_writes_every_nth_poll() {
    assert!(should_write_trending(true, 2, 4));
    assert!(!should_write_trending(true, 2, 5));
    assert!(!should_write_trending(false, 2, 4));
    assert!(should_write_trending(true, 1, 7));
}

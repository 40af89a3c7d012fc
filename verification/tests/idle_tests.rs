use resmgr::idle::IdleTracker;
use resmgr::process::ProcessInfo;

fn record(pid: u64, name: &str, memory_mb: u64, cpu_centipercent: u32, cmd: &str) -> ProcessInfo {
    ProcessInfo {
        pid,
        name: name.to_string(),
        memory_mb,
        cpu_centipercent,
        cmd: cmd.to_string(),
    }
}

#[test]
fn idle_process_is_tracked_from_first_idle_poll() {
    let mut tracker = IdleTracker::new();
    let procs = vec![record(1, "vite", 100, 10, "vite dev")];
    tracker.update(&procs, 1000);
    assert_eq!(tracker.first_idle_at(1), Some(1000));
}

#[test]
fn idle_start_is_never_refreshed_while_idle_continues() {
    let mut tracker = IdleTracker::new();
    let procs = vec![record(1, "vite", 100, 0, "vite dev")];
    tracker.update(&procs, 1000);
    tracker.update(&procs, 31_000);
    tracker.update(&procs, 61_000);
    // Still the first observation: the streak start does not move.
    assert_eq!(tracker.first_idle_at(1), Some(1000));
}

#[test]
fn activity_resets_the_streak() {
    let mut tracker = IdleTracker::new();
    let idle = vec![record(1, "vite", 100, 10, "vite dev")];
    let busy = vec![record(1, "vite", 100, 5000, "vite dev")];
    tracker.update(&idle, 1000);
    assert_eq!(tracker.first_idle_at(1), Some(1000));
    // One poll at or above the threshold drops the entry...
    tracker.update(&busy, 31_000);
    assert_eq!(tracker.first_idle_at(1), None);
    // ...and the next idle poll starts afresh.
    tracker.update(&idle, 61_000);
    assert_eq!(tracker.first_idle_at(1), Some(61_000));
}

#[test]
fn vanished_process_is_dropped() {
    let mut tracker = IdleTracker::new();
    let two = vec![
        record(1, "vite", 100, 0, "vite dev"),
        record(2, "next-server", 200, 0, "node next-server"),
    ];
    let one = vec![record(2, "next-server", 200, 0, "node next-server")];
    tracker.update(&two, 1000);
    assert_eq!(tracker.first_idle_at(1), Some(1000));
    assert_eq!(tracker.first_idle_at(2), Some(1000));
    tracker.update(&one, 31_000);
    assert_eq!(tracker.first_idle_at(1), None);
    assert_eq!(tracker.first_idle_at(2), Some(1000));
}

#[test]
fn busy_process_is_never_tracked() {
    let mut tracker = IdleTracker::new();
    let procs = vec![record(7, "cargo", 500, 9800, "cargo build")];
    tracker.update(&procs, 1000);
    assert_eq!(tracker.first_idle_at(7), None);
}

#[test]
fn cpu_exactly_at_threshold_is_not_idle() {
    let mut tracker = IdleTracker::new();
    // 0.50% is not below the threshold.
    let procs = vec![record(3, "vite", 100, 50, "vite dev")];
    tracker.update(&procs, 1000);
    assert_eq!(tracker.first_idle_at(3), None);
}

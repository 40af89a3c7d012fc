use resmgr::config::Config;
use resmgr::pressure::PressureLevel;
use resmgr::process::ProcessInfo;
use resmgr::render::{format_snapshot, gb_string, recommendations, u64_to_string};
use resmgr::snapshot::{build_snapshot, MemoryCounters, SystemSnapshot};

fn record(pid: u64, name: &str, memory_mb: u64, cpu_centipercent: u32, cmd: &str) -> ProcessInfo {
    ProcessInfo {
        pid,
        name: name.to_string(),
        memory_mb,
        cpu_centipercent,
        cmd: cmd.to_string(),
    }
}

fn empty_snapshot() -> SystemSnapshot {
    SystemSnapshot {
        total_memory_mb: 16384,
        used_memory_mb: 8192,
        free_memory_mb: 8192,
        total_swap_mb: 32768,
        used_swap_mb: 2048,
        top_processes: Vec::new(),
        pressure: PressureLevel::Normal,
        node_count: 0,
        node_total_mb: 0,
        browser_count: 0,
        browser_total_mb: 0,
        dev_server_count: 0,
        dev_server_total_mb: 0,
    }
}

#[test]
fn decimal_rendering() {
    assert_eq!(u64_to_string(0), "0");
    assert_eq!(u64_to_string(7), "7");
    assert_eq!(u64_to_string(42), "42");
    assert_eq!(u64_to_string(2500), "2500");
    assert_eq!(u64_to_string(18446744073709551615), "18446744073709551615");
}

#[test]
fn gb_rendering_truncates_to_one_decimal() {
    assert_eq!(gb_string(0), "0.0");
    assert_eq!(gb_string(1024), "1.0");
    assert_eq!(gb_string(1536), "1.5");
    assert_eq!(gb_string(5120), "5.0");
    // 1843/1024 = 1.799...: truncation, not rounding.
    assert_eq!(gb_string(1843), "1.7");
}

#[test]
fn browser_memory_warning_cites_count_and_memory() {
    // Only the browser rule fires, with exactly its figures.
    let mut snap = empty_snapshot();
    snap.browser_total_mb = 2500;
    snap.browser_count = 4;
    let recs = recommendations(&snap);
    assert_eq!(recs.len(), 1);
    assert_eq!(recs[0], "Browser using 2500MB across 4 processes - close tabs or extensions");
}

#[test]
fn no_recommendations_on_quiet_snapshot() {
    let recs = recommendations(&empty_snapshot());
    assert!(recs.is_empty());
}

#[test]
fn dev_server_recommendation_cites_aggregate_memory() {
    let mut snap = empty_snapshot();
    snap.dev_server_count = 2;
    snap.dev_server_total_mb = 900;
    let recs = recommendations(&snap);
    assert_eq!(recs, vec!["Kill 2 dev server(s) to free ~900MB".to_string()]);
}

#[test]
fn node_recommendation_fires_above_fifty() {
    let mut snap = empty_snapshot();
    snap.node_count = 51;
    snap.node_total_mb = 5100;
    let recs = recommendations(&snap);
    assert_eq!(recs, vec!["51 node processes (5100MB) - exit unused sessions".to_string()]);
}

#[test]
fn zombie_vm_recommendation_needs_vm_without_docker() {
    let mut snap = empty_snapshot();
    snap.top_processes = vec![record(1, "com.apple.Virtualization.VirtualMachine", 4096, 0, "")];
    let recs = recommendations(&snap);
    assert_eq!(recs, vec![
        "Zombie Virtualization VM detected - Docker not running but VM is".to_string(),
    ]);
    snap.top_processes.push(record(2, "Docker Desktop", 800, 0, ""));
    assert!(recommendations(&snap).is_empty());
}

#[test]
fn swap_recommendation_fires_above_ten_gb() {
    let mut snap = empty_snapshot();
    snap.used_swap_mb = 11264;
    let recs = recommendations(&snap);
    assert_eq!(recs, vec!["Swap at 11.0GB - system is memory-thrashing".to_string()]);
}

#[test]
fn recommendations_keep_their_fixed_order() {
    let mut snap = empty_snapshot();
    snap.dev_server_count = 1;
    snap.dev_server_total_mb = 100;
    snap.browser_total_mb = 2100;
    snap.browser_count = 3;
    snap.used_swap_mb = 12288;
    let recs = recommendations(&snap);
    assert_eq!(recs.len(), 3);
    assert!(recs[0].starts_with("Kill 1 dev server(s)"));
    assert!(recs[1].starts_with("Browser using 2100MB"));
    assert!(recs[2].starts_with("Swap at 12.0GB"));
}

#[test]
fn format_snapshot_without_processes_is_one_line() {
    let snap = empty_snapshot();
    assert_eq!(format_snapshot(&snap), "Free: 8.0 GB | Swap: 2.0/32.0 GB");
}

#[test]
fn format_snapshot_lists_up_to_three_processes() {
    let config = Config::default();
    let procs = vec![
        record(1, "big", 3000, 0, ""),
        record(2, "mid", 2000, 0, ""),
        record(3, "small", 1000, 0, ""),
        record(4, "tiny", 10, 0, ""),
    ];
    let mem = MemoryCounters {
        total_memory_mb: 16384,
        used_memory_mb: 12288,
        free_memory_mb: 4096,
        total_swap_mb: 32768,
        used_swap_mb: 5120,
    };
    let snap = build_snapshot(mem, procs, &config);
    let text = format_snapshot(&snap);
    assert_eq!(
        text,
        "Free: 4.0 GB | Swap: 5.0/32.0 GB\nTop: big (3000MB), mid (2000MB), small (1000MB)"
    );
}

//! Configuration of the monitor.
//!
//! The configuration is loaded once by the surrounding program and
//! handed in read-only. Memory quantities are mebibytes; the built-in
//! defaults correspond to 2 GiB / 15 GiB (elevated), 1 GiB / 25 GiB
//! (high) and 0.5 GiB / 30 GiB (critical).

use vstd::prelude::*;

verus! {

/// General run parameters.
pub struct General {
    pub poll_interval_seconds: u64,
    pub log_level: String,
}

/// Free-memory and swap-usage thresholds, in mebibytes.
pub struct Thresholds {
    pub elevated_free_mb: u64,
    pub elevated_swap_mb: u64,
    pub high_free_mb: u64,
    pub high_swap_mb: u64,
    pub critical_free_mb: u64,
    pub critical_swap_mb: u64,
}

/// Switches and limits of the automatic termination policy.
pub struct AutoKill {
    pub idle_dev_server_minutes: u64,
    pub orphan_node_always: bool,
    pub zombie_vms: bool,
}

/// Name patterns of processes that must never be terminated.
pub struct Protected {
    pub processes: Vec<String>,
}

/// Name/command-line patterns of processes that are safe to terminate.
pub struct SafeKillPatterns {
    pub dev_servers: Vec<String>,
    pub orphans: Vec<String>,
    pub zombie_vms: Vec<String>,
}

/// Trend-logging parameters.
pub struct Trending {
    pub enabled: bool,
    pub csv_path: String,
    pub write_every_n_polls: u64,
}

/// The whole configuration, immutable once loaded.
pub struct Config {
    pub general: General,
    pub thresholds: Thresholds,
    pub auto_kill: AutoKill,
    pub protected: Protected,
    pub safe_kill_patterns: SafeKillPatterns,
    pub trending: Trending,
}

pub fn default_poll_interval() -> (r: u64)
    ensures
        r == 30,
{
    30
}

pub fn default_log_level() -> (r: String)
    ensures
        r@ == "info"@,
{
    String::from_str("info")
}

pub fn default_idle_minutes() -> (r: u64)
    ensures
        r == 10,
{
    10
}

pub fn default_true() -> (r: bool)
    ensures
        r,
{
    true
}

pub fn default_trending_path() -> (r: String)
    ensures
        r@ == "/tmp/resmgr_trending.csv"@,
{
    String::from_str("/tmp/resmgr_trending.csv")
}

pub fn default_trending_interval() -> (r: u64)
    ensures
        r == 2,
{
    2
}

pub fn default_general() -> (r: General)
    ensures
        r.poll_interval_seconds == 30,
        r.log_level@ == "info"@,
{
    General { poll_interval_seconds: default_poll_interval(), log_level: default_log_level() }
}

/// The default protected-process name patterns.
pub open spec fn spec_default_protected() -> Seq<Seq<char>> {
    seq![
        "VoiceInk"@,
        "Wispr Flow"@,
        "Raycast"@,
        "Rectangle Pro"@,
        "WindowServer"@,
        "Finder"@,
        "Dock"@,
        "Bartender"@,
        "loginwindow"@,
        "NordVPN"@,
    ]
}

pub fn default_protected_processes() -> (r: Vec<String>)
    ensures
        r.deep_view() == spec_default_protected(),
{
    let mut v: Vec<String> = Vec::new();
    v.push(String::from_str("VoiceInk"));
    v.push(String::from_str("Wispr Flow"));
    v.push(String::from_str("Raycast"));
    v.push(String::from_str("Rectangle Pro"));
    v.push(String::from_str("WindowServer"));
    v.push(String::from_str("Finder"));
    v.push(String::from_str("Dock"));
    v.push(String::from_str("Bartender"));
    v.push(String::from_str("loginwindow"));
    v.push(String::from_str("NordVPN"));
    proof {
        assert(v.deep_view() =~= spec_default_protected());
    }
    v
}

/// The default dev-server patterns.
pub open spec fn spec_default_dev_servers() -> Seq<Seq<char>> {
    seq!["next-server"@, "next dev"@, "vite"@, "webpack-dev-server"@]
}

pub fn default_dev_servers() -> (r: Vec<String>)
    ensures
        r.deep_view() == spec_default_dev_servers(),
{
    let mut v: Vec<String> = Vec::new();
    v.push(String::from_str("next-server"));
    v.push(String::from_str("next dev"));
    v.push(String::from_str("vite"));
    v.push(String::from_str("webpack-dev-server"));
    proof {
        assert(v.deep_view() =~= spec_default_dev_servers());
    }
    v
}

/// The default orphan-process patterns.
pub open spec fn spec_default_orphans() -> Seq<Seq<char>> {
    seq!["node"@]
}

pub fn default_orphans() -> (r: Vec<String>)
    ensures
        r.deep_view() == spec_default_orphans(),
{
    let mut v: Vec<String> = Vec::new();
    v.push(String::from_str("node"));
    proof {
        assert(v.deep_view() =~= spec_default_orphans());
    }
    v
}

/// The default zombie-VM patterns.
pub open spec fn spec_default_zombie_vms() -> Seq<Seq<char>> {
    seq!["com.apple.Virtualization.VirtualMachine"@]
}

pub fn default_zombie_vm_patterns() -> (r: Vec<String>)
    ensures
        r.deep_view() == spec_default_zombie_vms(),
{
    let mut v: Vec<String> = Vec::new();
    v.push(String::from_str("com.apple.Virtualization.VirtualMachine"));
    proof {
        assert(v.deep_view() =~= spec_default_zombie_vms());
    }
    v
}

impl Default for General {
    fn default() -> (r: Self)
        ensures
            r.poll_interval_seconds == 30,
            r.log_level@ == "info"@,
    {
        default_general()
    }
}

impl Default for Thresholds {
    fn default() -> (r: Self)
        ensures
            r.elevated_free_mb == 2048,
            r.elevated_swap_mb == 15360,
            r.high_free_mb == 1024,
            r.high_swap_mb == 25600,
            r.critical_free_mb == 512,
            r.critical_swap_mb == 30720,
    {
        Thresholds {
            elevated_free_mb: 2048,
            elevated_swap_mb: 15360,
            high_free_mb: 1024,
            high_swap_mb: 25600,
            critical_free_mb: 512,
            critical_swap_mb: 30720,
        }
    }
}

impl Default for AutoKill {
    fn default() -> (r: Self)
        ensures
            r.idle_dev_server_minutes == 10,
            r.orphan_node_always,
            r.zombie_vms,
    {
        AutoKill { idle_dev_server_minutes: default_idle_minutes(), orphan_node_always: true, zombie_vms: true }
    }
}

impl Default for Protected {
    fn default() -> (r: Self)
        ensures
            r.processes.deep_view() == spec_default_protected(),
    {
        Protected { processes: default_protected_processes() }
    }
}

impl Default for SafeKillPatterns {
    fn default() -> (r: Self)
        ensures
            r.dev_servers.deep_view() == spec_default_dev_servers(),
            r.orphans.deep_view() == spec_default_orphans(),
            r.zombie_vms.deep_view() == spec_default_zombie_vms(),
    {
        SafeKillPatterns {
            dev_servers: default_dev_servers(),
            orphans: default_orphans(),
            zombie_vms: default_zombie_vm_patterns(),
        }
    }
}

impl Default for Trending {
    fn default() -> (r: Self)
        ensures
            r.enabled,
            r.csv_path@ == "/tmp/resmgr_trending.csv"@,
            r.write_every_n_polls == 2,
    {
        Trending {
            enabled: default_true(),
            csv_path: default_trending_path(),
            write_every_n_polls: default_trending_interval(),
        }
    }
}

impl Default for Config {
    fn default() -> (r: Self)
        ensures
            r.general.poll_interval_seconds == 30,
            r.general.log_level@ == "info"@,
            r.thresholds == (Thresholds {
                elevated_free_mb: 2048u64,
                elevated_swap_mb: 15360u64,
                high_free_mb: 1024u64,
                high_swap_mb: 25600u64,
                critical_free_mb: 512u64,
                critical_swap_mb: 30720u64,
            }),
            r.auto_kill.idle_dev_server_minutes == 10,
            r.auto_kill.orphan_node_always,
            r.auto_kill.zombie_vms,
            r.protected.processes.deep_view() == spec_default_protected(),
            r.safe_kill_patterns.dev_servers.deep_view() == spec_default_dev_servers(),
            r.safe_kill_patterns.orphans.deep_view() == spec_default_orphans(),
            r.safe_kill_patterns.zombie_vms.deep_view() == spec_default_zombie_vms(),
            r.trending.enabled,
            r.trending.csv_path@ == "/tmp/resmgr_trending.csv"@,
            r.trending.write_every_n_polls == 2,
    {
        Config {
            general: General::default(),
            thresholds: Thresholds::default(),
            auto_kill: AutoKill::default(),
            protected: Protected::default(),
            safe_kill_patterns: SafeKillPatterns::default(),
            trending: Trending::default(),
        }
    }
}

} // verus!

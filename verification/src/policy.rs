//! Automatic termination policy.
//!
//! The policy only decides; the surrounding program carries the
//! decisions out. Selection enforces every safety net here: a process
//! whose name matches the protected list, or that is browser-classified,
//! is never selected, whatever else it matches.

use crate::classify::{is_browser, spec_is_browser};
use crate::config::Config;
use crate::idle::{idle_duration, IdleTracker};
use crate::pressure::PressureLevel;
use crate::process::ProcessInfo;
use crate::text::{
    any_name_pattern_matches, any_pattern_matches, contains_seq, matches_any, name_matches_any,
    str_contains,
};
use vstd::prelude::*;

verus! {

/// The name matches an entry of the protected list.
pub open spec fn spec_is_protected(name: Seq<char>, protected: Seq<Seq<char>>) -> bool {
    name_matches_any(name, protected)
}

/// Whether the name matches an entry of the protected list.
pub fn is_protected(name: &str, protected: &Vec<String>) -> (r: bool)
    ensures
        r == spec_is_protected(name@, protected.deep_view()),
{
    any_name_pattern_matches(name, protected)
}

/// A termination request may be issued: the process is neither on the
/// protected list nor browser-classified. The browser safety net
/// applies regardless of how the process was picked.
pub open spec fn spec_kill_allowed(
    name: Seq<char>,
    cmd: Seq<char>,
    protected: Seq<Seq<char>>,
) -> bool {
    !spec_is_protected(name, protected) && !spec_is_browser(name, cmd)
}

/// Whether a termination request may be issued for this process.
pub fn kill_allowed(name: &str, cmd: &str, protected: &Vec<String>) -> (r: bool)
    ensures
        r == spec_kill_allowed(name@, cmd@, protected.deep_view()),
{
    !is_protected(name, protected) && !is_browser(name, cmd)
}

/// A record is up for idle-dev-server termination: dev-server-classified
/// (so in particular not browser-classified), not protected, and idle
/// without a break for at least the configured number of minutes.
pub open spec fn spec_idle_dev_server_eligible(
    p: ProcessInfo,
    streaks: Map<u64, u64>,
    dev_pats: Seq<Seq<char>>,
    protected: Seq<Seq<char>>,
    idle_minutes: u64,
    now_ms: u64,
) -> bool {
    &&& !spec_is_browser(p.name@, p.cmd@)
    &&& matches_any(p.name@, p.cmd@, dev_pats)
    &&& !spec_is_protected(p.name@, protected)
    &&& streaks.contains_key(p.pid)
    &&& idle_duration(now_ms, streaks[p.pid]) >= idle_minutes * 60_000
}

/// The `(name, pid, memory_mb)` rows of the records of `procs` that are
/// up for idle-dev-server termination, in table order.
pub open spec fn spec_selected_dev_servers(
    procs: Seq<ProcessInfo>,
    streaks: Map<u64, u64>,
    dev_pats: Seq<Seq<char>>,
    protected: Seq<Seq<char>>,
    idle_minutes: u64,
    now_ms: u64,
) -> Seq<(String, u64, u64)>
    decreases procs.len(),
{
    if procs.len() == 0 {
        Seq::empty()
    } else {
        let rest = spec_selected_dev_servers(
            procs.drop_last(),
            streaks,
            dev_pats,
            protected,
            idle_minutes,
            now_ms,
        );
        if spec_idle_dev_server_eligible(
            procs.last(),
            streaks,
            dev_pats,
            protected,
            idle_minutes,
            now_ms,
        ) {
            rest.push((procs.last().name, procs.last().pid, procs.last().memory_mb))
        } else {
            rest
        }
    }
}

/// Select the idle dev servers that may be terminated now.
pub fn select_idle_dev_servers(
    procs: &Vec<ProcessInfo>,
    tracker: &IdleTracker,
    config: &Config,
    now_ms: u64,
) -> (r: Vec<(String, u64, u64)>)
    requires
        tracker.wf(),
    ensures
        r@ == spec_selected_dev_servers(
            procs@,
            tracker@,
            config.safe_kill_patterns.dev_servers.deep_view(),
            config.protected.processes.deep_view(),
            config.auto_kill.idle_dev_server_minutes,
            now_ms,
        ),
{
    let ghost dev_pats = config.safe_kill_patterns.dev_servers.deep_view();
    let ghost protected = config.protected.processes.deep_view();
    let idle_minutes = config.auto_kill.idle_dev_server_minutes;
    let mut out: Vec<(String, u64, u64)> = Vec::new();
    let mut i: usize = 0;
    while i < procs.len()
        invariant
            tracker.wf(),
            i <= procs@.len(),
            dev_pats == config.safe_kill_patterns.dev_servers.deep_view(),
            protected == config.protected.processes.deep_view(),
            idle_minutes == config.auto_kill.idle_dev_server_minutes,
            out@ == spec_selected_dev_servers(
                procs@.take(i as int),
                tracker@,
                dev_pats,
                protected,
                idle_minutes,
                now_ms,
            ),
        decreases procs@.len() - i,
    {
        proof {
            assert(procs@.take(i + 1).drop_last() =~= procs@.take(i as int));
            assert(procs@.take(i + 1).last() == procs@[i as int]);
        }
        let p = &procs[i];
        let mut eligible = false;
        if !is_browser(p.name.as_str(), p.cmd.as_str()) {
            if any_pattern_matches(
                p.name.as_str(),
                p.cmd.as_str(),
                &config.safe_kill_patterns.dev_servers,
            ) {
                if !is_protected(p.name.as_str(), &config.protected.processes) {
                    match tracker.first_idle_at(p.pid) {
                        Some(since) => {
                            let dur: u128 = if now_ms >= since {
                                (now_ms - since) as u128
                            } else {
                                0
                            };
                            if dur >= (idle_minutes as u128) * 60_000 {
                                eligible = true;
                            }
                        },
                        None => {},
                    }
                }
            }
        }
        if eligible {
            out.push((p.name.clone(), p.pid, p.memory_mb));
        }
        i = i + 1;
    }
    proof {
        assert(procs@.take(i as int) =~= procs@);
    }
    out
}

/// Some process name indicates an active container-engine backend.
pub open spec fn spec_docker_active(procs: Seq<ProcessInfo>) -> bool {
    exists|i: int|
        0 <= i < procs.len() && (contains_seq((#[trigger] procs[i]).name@, "com.docker.backend"@)
            || contains_seq(procs[i].name@, "Docker Desktop"@))
}

/// Whether some process name indicates an active container-engine backend.
pub fn docker_active(procs: &Vec<ProcessInfo>) -> (r: bool)
    ensures
        r == spec_docker_active(procs@),
{
    let mut i: usize = 0;
    while i < procs.len()
        invariant
            i <= procs@.len(),
            forall|k: int|
                0 <= k < i ==> !(contains_seq((#[trigger] procs@[k]).name@, "com.docker.backend"@)
                    || contains_seq(procs@[k].name@, "Docker Desktop"@)),
        decreases procs@.len() - i,
    {
        let name = procs[i].name.as_str();
        if str_contains(name, "com.docker.backend") || str_contains(name, "Docker Desktop") {
            return true;
        }
        i = i + 1;
    }
    false
}

/// A record is up for zombie-VM termination: it matches a configured
/// zombie-VM pattern and no safety net refuses it.
pub open spec fn spec_zombie_vm_eligible(
    p: ProcessInfo,
    vm_pats: Seq<Seq<char>>,
    protected: Seq<Seq<char>>,
) -> bool {
    matches_any(p.name@, p.cmd@, vm_pats) && spec_kill_allowed(p.name@, p.cmd@, protected)
}

/// The `(name, pid, memory_mb)` rows of the records of `procs` that
/// are up for zombie-VM termination, in table order.
pub open spec fn spec_zombie_vm_rows(
    procs: Seq<ProcessInfo>,
    vm_pats: Seq<Seq<char>>,
    protected: Seq<Seq<char>>,
) -> Seq<(String, u64, u64)>
    decreases procs.len(),
{
    if procs.len() == 0 {
        Seq::empty()
    } else {
        let rest = spec_zombie_vm_rows(procs.drop_last(), vm_pats, protected);
        if spec_zombie_vm_eligible(procs.last(), vm_pats, protected) {
            rest.push((procs.last().name, procs.last().pid, procs.last().memory_mb))
        } else {
            rest
        }
    }
}

/// The `(name, pid, memory_mb)` rows of the zombie-VM processes that
/// may be terminated: none while the feature is off, and none while a
/// container engine is running — a running engine means every
/// virtualization helper is legitimate.
pub open spec fn spec_selected_zombie_vms(
    procs: Seq<ProcessInfo>,
    vm_pats: Seq<Seq<char>>,
    protected: Seq<Seq<char>>,
    enabled: bool,
) -> Seq<(String, u64, u64)> {
    if !enabled {
        Seq::empty()
    } else if spec_docker_active(procs) {
        Seq::empty()
    } else {
        spec_zombie_vm_rows(procs, vm_pats, protected)
    }
}

/// Select the zombie-VM processes that may be terminated now.
pub fn select_zombie_vms(procs: &Vec<ProcessInfo>, config: &Config) -> (r: Vec<
    (String, u64, u64),
>)
    ensures
        r@ == spec_selected_zombie_vms(
            procs@,
            config.safe_kill_patterns.zombie_vms.deep_view(),
            config.protected.processes.deep_view(),
            config.auto_kill.zombie_vms,
        ),
{
    let ghost vm_pats = config.safe_kill_patterns.zombie_vms.deep_view();
    let ghost protected = config.protected.processes.deep_view();
    let mut out: Vec<(String, u64, u64)> = Vec::new();
    if !config.auto_kill.zombie_vms {
        return out;
    }
    if docker_active(procs) {
        return out;
    }
    let mut i: usize = 0;
    while i < procs.len()
        invariant
            i <= procs@.len(),
            vm_pats == config.safe_kill_patterns.zombie_vms.deep_view(),
            protected == config.protected.processes.deep_view(),
            out@ == spec_zombie_vm_rows(procs@.take(i as int), vm_pats, protected),
        decreases procs@.len() - i,
    {
        proof {
            assert(procs@.take(i + 1).drop_last() =~= procs@.take(i as int));
            assert(procs@.take(i + 1).last() == procs@[i as int]);
        }
        let p = &procs[i];
        if any_pattern_matches(
            p.name.as_str(),
            p.cmd.as_str(),
            &config.safe_kill_patterns.zombie_vms,
        ) && kill_allowed(p.name.as_str(), p.cmd.as_str(), &config.protected.processes) {
            out.push((p.name.clone(), p.pid, p.memory_mb));
        }
        i = i + 1;
    }
    proof {
        assert(procs@.take(i as int) =~= procs@);
    }
    out
}

/// The rows of `rows` whose termination request succeeded, in order.
pub open spec fn spec_confirmed(rows: Seq<(String, u64, u64)>, outcomes: Seq<bool>) -> Seq<
    (String, u64, u64),
>
    decreases rows.len(),
{
    if rows.len() == 0 || outcomes.len() != rows.len() {
        Seq::empty()
    } else {
        let rest = spec_confirmed(rows.drop_last(), outcomes.drop_last());
        if outcomes.last() {
            rest.push(rows.last())
        } else {
            rest
        }
    }
}

/// Keep the rows whose termination request succeeded; failed requests
/// are dropped from the report.
pub fn confirm_killed(rows: Vec<(String, u64, u64)>, outcomes: &Vec<bool>) -> (r: Vec<
    (String, u64, u64),
>)
    requires
        outcomes@.len() == rows@.len(),
    ensures
        r@ == spec_confirmed(rows@, outcomes@),
{
    let mut out: Vec<(String, u64, u64)> = Vec::new();
    let mut i: usize = 0;
    while i < rows.len()
        invariant
            i <= rows@.len(),
            outcomes@.len() == rows@.len(),
            out@ == spec_confirmed(rows@.take(i as int), outcomes@.take(i as int)),
        decreases rows@.len() - i,
    {
        proof {
            assert(rows@.take(i + 1).drop_last() =~= rows@.take(i as int));
            assert(outcomes@.take(i + 1).drop_last() =~= outcomes@.take(i as int));
            assert(rows@.take(i + 1).last() == rows@[i as int]);
            assert(outcomes@.take(i + 1).last() == outcomes@[i as int]);
        }
        if outcomes[i] {
            let row = &rows[i];
            let copied = (row.0.clone(), row.1, row.2);
            proof {
                assert(copied == rows@[i as int]);
            }
            out.push(copied);
        }
        i = i + 1;
    }
    proof {
        assert(rows@.take(i as int) =~= rows@);
        assert(outcomes@.take(i as int) =~= outcomes@);
    }
    out
}

/// Law: every selected idle dev server comes from an eligible record of
/// the table, with its name, pid and memory carried over unchanged.
pub proof fn lemma_selected_dev_servers_sound(
    procs: Seq<ProcessInfo>,
    streaks: Map<u64, u64>,
    dev_pats: Seq<Seq<char>>,
    protected: Seq<Seq<char>>,
    idle_minutes: u64,
    now_ms: u64,
    k: int,
)
    requires
        0 <= k < spec_selected_dev_servers(
            procs,
            streaks,
            dev_pats,
            protected,
            idle_minutes,
            now_ms,
        ).len(),
    ensures
        exists|i: int|
            0 <= i < procs.len() && spec_idle_dev_server_eligible(
                #[trigger] procs[i],
                streaks,
                dev_pats,
                protected,
                idle_minutes,
                now_ms,
            ) && spec_selected_dev_servers(procs, streaks, dev_pats, protected, idle_minutes, now_ms)[k]
                == (procs[i].name, procs[i].pid, procs[i].memory_mb),
    decreases procs.len(),
{
    let sel = spec_selected_dev_servers(procs, streaks, dev_pats, protected, idle_minutes, now_ms);
    let rest = spec_selected_dev_servers(
        procs.drop_last(),
        streaks,
        dev_pats,
        protected,
        idle_minutes,
        now_ms,
    );
    if spec_idle_dev_server_eligible(procs.last(), streaks, dev_pats, protected, idle_minutes, now_ms)
        && k == sel.len() - 1 {
        assert(procs[procs.len() - 1] == procs.last());
    } else {
        lemma_selected_dev_servers_sound(
            procs.drop_last(),
            streaks,
            dev_pats,
            protected,
            idle_minutes,
            now_ms,
            k,
        );
        let i = choose|i: int|
            0 <= i < procs.drop_last().len() && spec_idle_dev_server_eligible(
                #[trigger] procs.drop_last()[i],
                streaks,
                dev_pats,
                protected,
                idle_minutes,
                now_ms,
            ) && rest[k] == (procs.drop_last()[i].name, procs.drop_last()[i].pid, procs.drop_last()[i].memory_mb);
        assert(procs[i] == procs.drop_last()[i]);
    }
}

/// Law: every selected zombie VM comes from an eligible record of the
/// table, with its name, pid and memory carried over unchanged.
pub proof fn lemma_selected_zombie_vms_sound(
    procs: Seq<ProcessInfo>,
    vm_pats: Seq<Seq<char>>,
    protected: Seq<Seq<char>>,
    k: int,
)
    requires
        0 <= k < spec_zombie_vm_rows(procs, vm_pats, protected).len(),
    ensures
        exists|i: int|
            0 <= i < procs.len() && spec_zombie_vm_eligible(
                #[trigger] procs[i],
                vm_pats,
                protected,
            ) && spec_zombie_vm_rows(procs, vm_pats, protected)[k] == (
                procs[i].name,
                procs[i].pid,
                procs[i].memory_mb,
            ),
    decreases procs.len(),
{
    let sel = spec_zombie_vm_rows(procs, vm_pats, protected);
    let rest = spec_zombie_vm_rows(procs.drop_last(), vm_pats, protected);
    if spec_zombie_vm_eligible(procs.last(), vm_pats, protected) && k == sel.len() - 1 {
        assert(procs[procs.len() - 1] == procs.last());
    } else {
        lemma_selected_zombie_vms_sound(procs.drop_last(), vm_pats, protected, k);
        let i = choose|i: int|
            0 <= i < procs.drop_last().len() && spec_zombie_vm_eligible(
                #[trigger] procs.drop_last()[i],
                vm_pats,
                protected,
            ) && rest[k] == (
                procs.drop_last()[i].name,
                procs.drop_last()[i].pid,
                procs.drop_last()[i].memory_mb,
            );
        assert(procs[i] == procs.drop_last()[i]);
    }
}

/// Law: a process whose name matches a protected pattern is never
/// selected by either termination operation.
pub proof fn lemma_protected_never_selected(
    procs: Seq<ProcessInfo>,
    streaks: Map<u64, u64>,
    dev_pats: Seq<Seq<char>>,
    vm_pats: Seq<Seq<char>>,
    protected: Seq<Seq<char>>,
    idle_minutes: u64,
    now_ms: u64,
    enabled: bool,
)
    ensures
        forall|k: int|
            0 <= k < spec_selected_dev_servers(
                procs,
                streaks,
                dev_pats,
                protected,
                idle_minutes,
                now_ms,
            ).len() ==> !spec_is_protected(
                (#[trigger] spec_selected_dev_servers(
                    procs,
                    streaks,
                    dev_pats,
                    protected,
                    idle_minutes,
                    now_ms,
                )[k]).0@,
                protected,
            ),
        forall|k: int|
            0 <= k < spec_selected_zombie_vms(procs, vm_pats, protected, enabled).len()
                ==> !spec_is_protected(
                (#[trigger] spec_selected_zombie_vms(procs, vm_pats, protected, enabled)[k]).0@,
                protected,
            ),
{
    let sel = spec_selected_dev_servers(procs, streaks, dev_pats, protected, idle_minutes, now_ms);
    assert forall|k: int| 0 <= k < sel.len() implies !spec_is_protected(
        (#[trigger] sel[k]).0@,
        protected,
    ) by {
        lemma_selected_dev_servers_sound(procs, streaks, dev_pats, protected, idle_minutes, now_ms, k);
    }
    if enabled && !spec_docker_active(procs) {
        let zsel = spec_zombie_vm_rows(procs, vm_pats, protected);
        assert forall|k: int| 0 <= k < zsel.len() implies !spec_is_protected(
            (#[trigger] zsel[k]).0@,
            protected,
        ) by {
            lemma_selected_zombie_vms_sound(procs, vm_pats, protected, k);
        }
    }
}

/// Law: while a container engine is running, no zombie VM is selected,
/// however many processes match the zombie-VM patterns.
pub proof fn lemma_docker_suppresses_zombie_kills(
    procs: Seq<ProcessInfo>,
    vm_pats: Seq<Seq<char>>,
    protected: Seq<Seq<char>>,
    enabled: bool,
)
    requires
        spec_docker_active(procs),
    ensures
        spec_selected_zombie_vms(procs, vm_pats, protected, enabled) == Seq::<
            (String, u64, u64),
        >::empty(),
{
}

/// Law: a browser-classified process is never selected as an idle dev
/// server, whatever its command line contains.
pub proof fn lemma_browser_never_selected_dev(
    procs: Seq<ProcessInfo>,
    streaks: Map<u64, u64>,
    dev_pats: Seq<Seq<char>>,
    protected: Seq<Seq<char>>,
    idle_minutes: u64,
    now_ms: u64,
    pid: u64,
)
    requires
        forall|i: int|
            0 <= i < procs.len() && (#[trigger] procs[i]).pid == pid ==> spec_is_browser(
                procs[i].name@,
                procs[i].cmd@,
            ),
    ensures
        forall|k: int|
            0 <= k < spec_selected_dev_servers(
                procs,
                streaks,
                dev_pats,
                protected,
                idle_minutes,
                now_ms,
            ).len() ==> (#[trigger] spec_selected_dev_servers(
                procs,
                streaks,
                dev_pats,
                protected,
                idle_minutes,
                now_ms,
            )[k]).1 != pid,
{
    let sel = spec_selected_dev_servers(procs, streaks, dev_pats, protected, idle_minutes, now_ms);
    assert forall|k: int| 0 <= k < sel.len() implies (#[trigger] sel[k]).1 != pid by {
        lemma_selected_dev_servers_sound(procs, streaks, dev_pats, protected, idle_minutes, now_ms, k);
    }
}

/// What one poll does at a given pressure level: which termination
/// sweeps run, whether a notification is sent given the time of the
/// last one, and whether a recovery is logged.
pub struct PollPlan {
    pub kill_zombie_vms: bool,
    pub kill_idle_dev_servers: bool,
    pub notify: bool,
    pub log_recovery: bool,
}

/// Milliseconds from `last_ms` to `now_ms` on a monotonic clock.
pub open spec fn elapsed_ms(now_ms: u64, last_ms: u64) -> int {
    if now_ms >= last_ms {
        now_ms - last_ms
    } else {
        0
    }
}

/// The plan of one poll. Zombie-VM sweeps run from Elevated upward,
/// dev-server sweeps from High upward. Notifications are rate-limited:
/// at Elevated only on a level change or after five minutes, and never
/// within two minutes of the last one; at High after two minutes; at
/// Critical after one minute.
pub open spec fn spec_plan_poll(
    level: PressureLevel,
    prev: PressureLevel,
    now_ms: u64,
    last_notify_ms: u64,
) -> PollPlan {
    let elapsed = elapsed_ms(now_ms, last_notify_ms);
    match level {
        PressureLevel::Normal => PollPlan {
            kill_zombie_vms: false,
            kill_idle_dev_servers: false,
            notify: false,
            log_recovery: prev != PressureLevel::Normal,
        },
        PressureLevel::Elevated => PollPlan {
            kill_zombie_vms: true,
            kill_idle_dev_servers: false,
            notify: (level != prev || elapsed > 300_000) && elapsed > 120_000,
            log_recovery: false,
        },
        PressureLevel::High => PollPlan {
            kill_zombie_vms: true,
            kill_idle_dev_servers: true,
            notify: elapsed > 120_000,
            log_recovery: false,
        },
        PressureLevel::Critical => PollPlan {
            kill_zombie_vms: true,
            kill_idle_dev_servers: true,
            notify: elapsed > 60_000,
            log_recovery: false,
        },
    }
}

/// Decide what one poll does at the given pressure level.
pub fn plan_poll(level: PressureLevel, prev: PressureLevel, now_ms: u64, last_notify_ms: u64) -> (r:
    PollPlan)
    ensures
        r == spec_plan_poll(level, prev, now_ms, last_notify_ms),
{
    let elapsed: u64 = if now_ms >= last_notify_ms {
        now_ms - last_notify_ms
    } else {
        0
    };
    match level {
        PressureLevel::Normal => PollPlan {
            kill_zombie_vms: false,
            kill_idle_dev_servers: false,
            notify: false,
            log_recovery: prev != PressureLevel::Normal,
        },
        PressureLevel::Elevated => PollPlan {
            kill_zombie_vms: true,
            kill_idle_dev_servers: false,
            notify: (level != prev || elapsed > 300_000) && elapsed > 120_000,
            log_recovery: false,
        },
        PressureLevel::High => PollPlan {
            kill_zombie_vms: true,
            kill_idle_dev_servers: true,
            notify: elapsed > 120_000,
            log_recovery: false,
        },
        PressureLevel::Critical => PollPlan {
            kill_zombie_vms: true,
            kill_idle_dev_servers: true,
            notify: elapsed > 60_000,
            log_recovery: false,
        },
    }
}

/// Whether a trend row is written on this poll.
pub fn should_write_trending(enabled: bool, write_every_n_polls: u64, poll_count: u64) -> (r: bool)
    requires
        write_every_n_polls > 0,
    ensures
        r == (enabled && poll_count % write_every_n_polls == 0),
{
    enabled && poll_count % write_every_n_polls == 0
}

} // verus!

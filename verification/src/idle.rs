//! Idle-streak tracking across polls.
//!
//! The tracker maps each currently-running process to the monotonic
//! time at which its current unbroken idle streak began. A poll at or
//! above the low-activity threshold removes the entry; a process absent
//! from the poll is dropped; an entry is never refreshed while the
//! streak continues.

use crate::process::{distinct_pids, ProcessInfo};
use vstd::prelude::*;

verus! {

/// Some record of `procs` has this pid and is idle.
pub open spec fn idle_pid_in(procs: Seq<ProcessInfo>, pid: u64) -> bool {
    exists|i: int| 0 <= i < procs.len() && (#[trigger] procs[i]).pid == pid && procs[i].spec_is_idle()
}

/// Some record of `procs` has this pid and is not idle.
pub open spec fn active_pid_in(procs: Seq<ProcessInfo>, pid: u64) -> bool {
    exists|i: int|
        0 <= i < procs.len() && (#[trigger] procs[i]).pid == pid && !procs[i].spec_is_idle()
}

/// The tracker's mapping after a poll of `procs` at time `now`, given
/// its mapping `m` before: exactly the currently-idle pids are tracked,
/// each from the start of its current streak — the old entry where one
/// exists, this poll's time otherwise.
pub open spec fn spec_tracked_after(
    m: Map<u64, u64>,
    procs: Seq<ProcessInfo>,
    now: u64,
) -> Map<u64, u64> {
    Map::new(
        |pid: u64| idle_pid_in(procs, pid),
        |pid: u64|
            if m.contains_key(pid) {
                m[pid]
            } else {
                now
            },
    )
}

/// How long a streak that began at `since` has lasted at `now`.
pub open spec fn idle_duration(now: u64, since: u64) -> int {
    if now >= since {
        now - since
    } else {
        0
    }
}

spec fn seq_has_pid(s: Seq<(u64, u64)>, pid: u64) -> bool {
    exists|i: int| 0 <= i < s.len() && (#[trigger] s[i]).0 == pid
}

spec fn seq_time_of(s: Seq<(u64, u64)>, pid: u64) -> u64 {
    s[choose|i: int| 0 <= i < s.len() && (#[trigger] s[i]).0 == pid].1
}

/// Poll-to-poll record of when each currently-running process was
/// first observed with near-zero CPU usage.
pub struct IdleTracker {
    entries: Vec<(u64, u64)>,
}

impl View for IdleTracker {
    type V = Map<u64, u64>;

    closed spec fn view(&self) -> Map<u64, u64> {
        Map::new(
            |pid: u64| seq_has_pid(self.entries@, pid),
            |pid: u64| seq_time_of(self.entries@, pid),
        )
    }
}

impl IdleTracker {
    /// Entries carry pairwise distinct pids.
    pub closed spec fn wf(&self) -> bool {
        forall|i: int, j: int|
            #![trigger self.entries@[i].0, self.entries@[j].0]
            0 <= i < j < self.entries@.len() ==> self.entries@[i].0 != self.entries@[j].0
    }

    /// An empty tracker.
    pub fn new() -> (r: Self)
        ensures
            r.wf(),
            r@ == Map::<u64, u64>::empty(),
    {
        let r = IdleTracker { entries: Vec::new() };
        proof {
            assert(r@ =~= Map::<u64, u64>::empty());
        }
        r
    }

    /// When the pid's current idle streak began, if it is tracked.
    pub fn first_idle_at(&self, pid: u64) -> (r: Option<u64>)
        requires
            self.wf(),
        ensures
            r == if self@.contains_key(pid) {
                Some(self@[pid])
            } else {
                None::<u64>
            },
    {
        let mut i: usize = 0;
        while i < self.entries.len()
            invariant
                self.wf(),
                i <= self.entries@.len(),
                forall|k: int| 0 <= k < i ==> (#[trigger] self.entries@[k]).0 != pid,
            decreases self.entries@.len() - i,
        {
            if self.entries[i].0 == pid {
                return Some(self.entries[i].1);
            }
            i = i + 1;
        }
        None
    }

    /// Record one poll: every currently-idle process is tracked from
    /// the start of its current streak, everything else is dropped.
    pub fn update(&mut self, procs: &Vec<ProcessInfo>, now: u64)
        requires
            old(self).wf(),
            distinct_pids(procs@),
        ensures
            final(self).wf(),
            final(self)@ == spec_tracked_after(old(self)@, procs@, now),
    {
        let ghost m0: Map<u64, u64> = self@;
        let mut out: Vec<(u64, u64)> = Vec::new();
        let mut i: usize = 0;
        while i < procs.len()
            invariant
                *self == *old(self),
                self.wf(),
                distinct_pids(procs@),
                i <= procs@.len(),
                m0 == self@,
                forall|pid: u64|
                    #[trigger] seq_has_pid(out@, pid) <==> idle_pid_in(
                        procs@.take(i as int),
                        pid,
                    ),
                forall|pid: u64|
                    seq_has_pid(out@, pid) ==> #[trigger] seq_time_of(out@, pid) == (
                    if m0.contains_key(pid) {
                        m0[pid]
                    } else {
                        now
                    }),
                forall|k: int, l: int|
                    #![trigger out@[k].0, out@[l].0]
                    0 <= k < l < out@.len() ==> out@[k].0 != out@[l].0,
            decreases procs@.len() - i,
        {
            let p = &procs[i];
            if p.is_idle() {
                let t: u64 = match self.first_idle_at(p.pid) {
                    Some(t0) => t0,
                    None => now,
                };
                let ghost out0 = out@;
                proof {
                    // The pid cannot be in `out` yet: its only record is at index i.
                    if seq_has_pid(out0, p.pid) {
                        let j = choose|j: int|
                            0 <= j < procs@.take(i as int).len() && (#[trigger] procs@.take(
                                i as int,
                            )[j]).pid == p.pid && procs@.take(i as int)[j].spec_is_idle();
                        assert(procs@[j].pid == procs@[i as int].pid);
                        assert(false);
                    }
                }
                out.push((p.pid, t));
                proof {
                    assert(out@ == out0.push((p.pid, t)));
                    assert forall|pid: u64| #[trigger] seq_has_pid(out@, pid) implies idle_pid_in(
                        procs@.take(i + 1),
                        pid,
                    ) by {
                        let k = choose|k: int| 0 <= k < out@.len() && (#[trigger] out@[k]).0 == pid;
                        if k < out0.len() {
                            assert(out0[k].0 == pid);
                            assert(seq_has_pid(out0, pid));
                            assert(idle_pid_in(procs@.take(i as int), pid));
                            let j = choose|j: int|
                                0 <= j < procs@.take(i as int).len() && (#[trigger] procs@.take(
                                    i as int,
                                )[j]).pid == pid && procs@.take(i as int)[j].spec_is_idle();
                            assert((procs@.take(i + 1)[j]).pid == pid);
                            assert(procs@.take(i + 1)[j].spec_is_idle());
                        } else {
                            assert(out@[k] == (p.pid, t));
                            assert((procs@.take(i + 1)[i as int]).pid == pid);
                            assert(procs@.take(i + 1)[i as int].spec_is_idle());
                        }
                    }
                    assert forall|pid: u64| idle_pid_in(procs@.take(i + 1), pid) implies
                        #[trigger] seq_has_pid(out@, pid) by {
                        let j = choose|j: int|
                            0 <= j < procs@.take(i + 1).len() && (#[trigger] procs@.take(i + 1)[j]).pid
                                == pid && procs@.take(i + 1)[j].spec_is_idle();
                        assert(procs@.take(i + 1)[j] == procs@[j]);
                        if j < i {
                            assert(idle_pid_in(procs@.take(i as int), pid)) by {
                                assert((procs@.take(i as int)[j]).pid == pid);
                                assert(procs@.take(i as int)[j].spec_is_idle());
                            }
                            assert(seq_has_pid(out0, pid));
                            let k = choose|k: int| 0 <= k < out0.len() && (#[trigger] out0[k]).0 == pid;
                            assert(out@[k].0 == pid);
                        } else {
                            assert(out@[out@.len() - 1].0 == pid);
                        }
                    }
                    // keys of out stay pairwise distinct
                    assert forall|k: int, l: int|
                        #![trigger out@[k].0, out@[l].0]
                        0 <= k < l < out@.len() implies out@[k].0 != out@[l].0 by {
                        if l < out0.len() {
                            assert(out0[k].0 != out0[l].0);
                        } else {
                            assert(out0[k].0 == out@[k].0);
                            if out@[k].0 == p.pid {
                                assert(seq_has_pid(out0, p.pid));
                                assert(false);
                            }
                        }
                    }
                    assert forall|pid: u64| seq_has_pid(out@, pid) implies #[trigger] seq_time_of(
                        out@,
                        pid,
                    ) == (if m0.contains_key(pid) {
                        m0[pid]
                    } else {
                        now
                    }) by {
                        let k = choose|k: int| 0 <= k < out@.len() && (#[trigger] out@[k]).0 == pid;
                        if pid == p.pid {
                            // the new record is the only one with this pid
                            assert(out@[out@.len() - 1].0 == pid);
                            assert(k == out@.len() - 1);
                            assert(seq_time_of(out@, pid) == t);
                        } else {
                            assert(k < out0.len());
                            assert(out0[k].0 == pid);
                            assert(seq_has_pid(out0, pid));
                            let k2 = choose|k2: int|
                                0 <= k2 < out0.len() && (#[trigger] out0[k2]).0 == pid;
                            assert(seq_time_of(out0, pid) == out0[k2].1);
                            let k3 = choose|k3: int|
                                0 <= k3 < out@.len() && (#[trigger] out@[k3]).0 == pid;
                            assert(k3 < out0.len());
                            assert(out0[k3].0 == pid);
                            assert(k3 == k2);
                            assert(seq_time_of(out@, pid) == out@[k3].1);
                        }
                    }
                }
            } else {
                proof {
                    assert forall|pid: u64| #[trigger] seq_has_pid(out@, pid) implies idle_pid_in(
                        procs@.take(i + 1),
                        pid,
                    ) by {
                        let j = choose|j: int|
                            0 <= j < procs@.take(i as int).len() && (#[trigger] procs@.take(
                                i as int,
                            )[j]).pid == pid && procs@.take(i as int)[j].spec_is_idle();
                        assert(procs@.take(i + 1)[j] == procs@[j]);
                    }
                    assert forall|pid: u64| idle_pid_in(procs@.take(i + 1), pid) implies
                        #[trigger] seq_has_pid(out@, pid) by {
                        let j = choose|j: int|
                            0 <= j < procs@.take(i + 1).len() && (#[trigger] procs@.take(i + 1)[j]).pid
                                == pid && procs@.take(i + 1)[j].spec_is_idle();
                        assert(procs@.take(i + 1)[j] == procs@[j]);
                        assert(j != i);
                        assert(idle_pid_in(procs@.take(i as int), pid)) by {
                            assert(procs@.take(i as int)[j] == procs@[j]);
                        }
                    }
                }
            }
            i = i + 1;
        }
        proof {
            assert(procs@.take(i as int) =~= procs@);
        }
        self.entries = out;
        proof {
            assert(self@ =~= spec_tracked_after(m0, procs@, now));
        }
    }
}

/// Law: while a tracked process stays idle, a poll never changes its
/// recorded streak start.
pub proof fn lemma_idle_start_preserved(m: Map<u64, u64>, procs: Seq<ProcessInfo>, now: u64, pid: u64)
    requires
        m.contains_key(pid),
        idle_pid_in(procs, pid),
    ensures
        spec_tracked_after(m, procs, now).contains_key(pid),
        spec_tracked_after(m, procs, now)[pid] == m[pid],
{
}

/// Law: once a process turns idle and stays idle, its tracked idle
/// duration strictly increases from one poll to the next, the recorded
/// streak start never moving.
pub proof fn lemma_idle_duration_monotonic(
    m: Map<u64, u64>,
    procs1: Seq<ProcessInfo>,
    now1: u64,
    procs2: Seq<ProcessInfo>,
    now2: u64,
    pid: u64,
)
    requires
        idle_pid_in(procs1, pid),
        idle_pid_in(procs2, pid),
        now1 < now2,
        m.contains_key(pid) ==> m[pid] <= now1,
    ensures
        ({
            let m1 = spec_tracked_after(m, procs1, now1);
            let m2 = spec_tracked_after(m1, procs2, now2);
            m2[pid] == m1[pid] && idle_duration(now2, m2[pid]) > idle_duration(now1, m1[pid])
        }),
{
}

/// Law: a single poll at or above the activity threshold drops the
/// entry, so the next idle poll starts the streak afresh at that poll's
/// time, with duration zero.
pub proof fn lemma_activity_resets_streak(
    m: Map<u64, u64>,
    procs1: Seq<ProcessInfo>,
    now1: u64,
    procs2: Seq<ProcessInfo>,
    now2: u64,
    pid: u64,
)
    requires
        distinct_pids(procs1),
        active_pid_in(procs1, pid),
        idle_pid_in(procs2, pid),
    ensures
        !spec_tracked_after(m, procs1, now1).contains_key(pid),
        spec_tracked_after(spec_tracked_after(m, procs1, now1), procs2, now2)[pid] == now2,
        idle_duration(now2, spec_tracked_after(spec_tracked_after(m, procs1, now1), procs2, now2)[pid])
            == 0,
{
    if idle_pid_in(procs1, pid) {
        let i = choose|i: int|
            0 <= i < procs1.len() && (#[trigger] procs1[i]).pid == pid && procs1[i].spec_is_idle();
        let j = choose|j: int|
            0 <= j < procs1.len() && (#[trigger] procs1[j]).pid == pid && !procs1[j].spec_is_idle();
        assert(procs1[i].pid == procs1[j].pid);
        assert(false);
    }
}

} // verus!

//! Per-poll system snapshot.
//!
//! One pass over the process table aggregates the Node, browser and
//! dev-server categories, assesses pressure from the memory reading,
//! and keeps the processes with the most resident memory, sorted
//! descending.

use crate::classify::{counts_as_browser, counts_as_node, is_dev_server, spec_counts_as_browser,
    spec_counts_as_node, spec_is_dev_server};
use crate::config::Config;
use crate::pressure::{assess, spec_assess, PressureLevel};
use crate::process::ProcessInfo;
use vstd::multiset::Multiset;
use vstd::prelude::*;
use vstd::seq_lib::group_to_multiset_ensures;

verus! {

/// How many of the heaviest processes a snapshot keeps.
pub const TOP_PROCESS_COUNT: usize = 20;

/// The host's memory and swap counters at one poll, in mebibytes.
pub struct MemoryCounters {
    pub total_memory_mb: u64,
    pub used_memory_mb: u64,
    pub free_memory_mb: u64,
    pub total_swap_mb: u64,
    pub used_swap_mb: u64,
}

/// Immutable value produced once per poll.
pub struct SystemSnapshot {
    pub total_memory_mb: u64,
    pub used_memory_mb: u64,
    pub free_memory_mb: u64,
    pub total_swap_mb: u64,
    pub used_swap_mb: u64,
    pub top_processes: Vec<ProcessInfo>,
    pub pressure: PressureLevel,
    pub node_count: usize,
    pub node_total_mb: u64,
    pub browser_count: usize,
    pub browser_total_mb: u64,
    pub dev_server_count: usize,
    pub dev_server_total_mb: u64,
}

/// The records counted toward the Node aggregate.
pub open spec fn node_pred() -> spec_fn(ProcessInfo) -> bool {
    |p: ProcessInfo| spec_counts_as_node(p.name@)
}

/// The records counted toward the browser aggregate.
pub open spec fn browser_pred() -> spec_fn(ProcessInfo) -> bool {
    |p: ProcessInfo| spec_counts_as_browser(p.name@)
}

/// The records counted toward the dev-server aggregate.
pub open spec fn dev_server_pred(pats: Seq<Seq<char>>) -> spec_fn(ProcessInfo) -> bool {
    |p: ProcessInfo| spec_is_dev_server(p.name@, p.cmd@, pats)
}

/// Every record counts.
pub open spec fn any_pred() -> spec_fn(ProcessInfo) -> bool {
    |p: ProcessInfo| true
}

/// How many records of `procs` satisfy `pred`.
pub open spec fn count_matching(procs: Seq<ProcessInfo>, pred: spec_fn(ProcessInfo) -> bool) -> nat
    decreases procs.len(),
{
    if procs.len() == 0 {
        0
    } else {
        count_matching(procs.drop_last(), pred) + if pred(procs.last()) {
            1nat
        } else {
            0nat
        }
    }
}

/// The summed resident memory of the records of `procs` that satisfy `pred`.
pub open spec fn sum_memory_matching(
    procs: Seq<ProcessInfo>,
    pred: spec_fn(ProcessInfo) -> bool,
) -> nat
    decreases procs.len(),
{
    if procs.len() == 0 {
        0
    } else {
        sum_memory_matching(procs.drop_last(), pred) + if pred(procs.last()) {
            procs.last().memory_mb as nat
        } else {
            0nat
        }
    }
}

/// The summed resident memory of all records.
pub open spec fn spec_total_memory(procs: Seq<ProcessInfo>) -> nat {
    sum_memory_matching(procs, any_pred())
}

/// `s` is ordered by resident memory, heaviest first.
pub open spec fn sorted_desc(s: Seq<ProcessInfo>) -> bool {
    forall|i: int, j: int|
        #![trigger s[i].memory_mb, s[j].memory_mb]
        0 <= i <= j < s.len() ==> s[i].memory_mb >= s[j].memory_mb
}

proof fn lemma_count_le_len(procs: Seq<ProcessInfo>, pred: spec_fn(ProcessInfo) -> bool)
    ensures
        count_matching(procs, pred) <= procs.len(),
    decreases procs.len(),
{
    if procs.len() > 0 {
        lemma_count_le_len(procs.drop_last(), pred);
    }
}

proof fn lemma_sum_le_total(procs: Seq<ProcessInfo>, pred: spec_fn(ProcessInfo) -> bool)
    ensures
        sum_memory_matching(procs, pred) <= spec_total_memory(procs),
    decreases procs.len(),
{
    if procs.len() > 0 {
        lemma_sum_le_total(procs.drop_last(), pred);
        assert(spec_total_memory(procs.drop_last()) + (if any_pred()(procs.last()) {
            procs.last().memory_mb as nat
        } else {
            0nat
        }) == spec_total_memory(procs));
    }
}

proof fn lemma_total_take_le(procs: Seq<ProcessInfo>, i: int)
    requires
        0 <= i <= procs.len(),
    ensures
        spec_total_memory(procs.take(i)) <= spec_total_memory(procs),
    decreases procs.len() - i,
{
    if i == procs.len() {
        assert(procs.take(i) =~= procs);
    } else {
        assert(procs.take(i + 1).drop_last() =~= procs.take(i));
        assert(procs.take(i + 1).last() == procs[i]);
        lemma_total_take_le(procs, i + 1);
    }
}

/// A prefix's matching memory never exceeds the whole table's memory.
proof fn lemma_sum_take_bounded(procs: Seq<ProcessInfo>, pred: spec_fn(ProcessInfo) -> bool, i: int)
    requires
        0 <= i <= procs.len(),
    ensures
        sum_memory_matching(procs.take(i), pred) <= spec_total_memory(procs),
{
    lemma_sum_le_total(procs.take(i), pred);
    lemma_total_take_le(procs, i);
}

/// Order `procs` by resident memory, heaviest first.
pub fn sort_by_memory_desc(procs: Vec<ProcessInfo>) -> (r: Vec<ProcessInfo>)
    ensures
        r@.to_multiset() == procs@.to_multiset(),
        sorted_desc(r@),
        r@.len() == procs@.len(),
{
    broadcast use group_to_multiset_ensures;

    let mut v = procs;
    let mut out: Vec<ProcessInfo> = Vec::new();
    proof {
        assert(out@.to_multiset().add(v@.to_multiset()) =~= procs@.to_multiset());
    }
    while v.len() > 0
        invariant
            out@.to_multiset().add(v@.to_multiset()) == procs@.to_multiset(),
            sorted_desc(out@),
            out@.len() + v@.len() == procs@.len(),
            forall|a: int, b: int|
                #![trigger out@[a].memory_mb, v@[b].memory_mb]
                0 <= a < out@.len() && 0 <= b < v@.len() ==> out@[a].memory_mb >= v@[b].memory_mb,
        decreases v@.len(),
    {
        let mut mi: usize = 0;
        let mut k: usize = 1;
        while k < v.len()
            invariant
                v@.len() > 0,
                mi < k,
                k <= v@.len(),
                forall|j: int| 0 <= j < k ==> v@[j].memory_mb <= #[trigger] v@[mi as int].memory_mb,
            decreases v@.len() - k,
        {
            if v[k].memory_mb > v[mi].memory_mb {
                mi = k;
            }
            k = k + 1;
        }
        let ghost v0 = v@;
        let ghost out0 = out@;
        let x = v.remove(mi);
        out.push(x);
        proof {
            v0.to_multiset_ensures();
            out0.to_multiset_ensures();
            assert(v0.to_multiset().count(x) > 0) by {
                assert(v0.contains(x)) by {
                    assert(v0[mi as int] == x);
                }
            }
            assert(out@.to_multiset().add(v@.to_multiset()) =~= procs@.to_multiset()) by {
                assert(out@.to_multiset() =~= out0.to_multiset().insert(x));
                assert(v@.to_multiset() =~= v0.to_multiset().remove(x));
            }
            assert forall|a: int, b: int|
                #![trigger out@[a].memory_mb, v@[b].memory_mb]
                0 <= a < out@.len() && 0 <= b < v@.len() implies out@[a].memory_mb
                >= v@[b].memory_mb by {
                if b < mi {
                    assert(v@[b] == v0[b]);
                } else {
                    assert(v@[b] == v0[b + 1]);
                }
                if a == out@.len() - 1 {
                    assert(out@[a] == v0[mi as int]);
                } else {
                    assert(out@[a] == out0[a]);
                    assert(out0[a].memory_mb >= v0[mi as int].memory_mb);
                }
            }
        }
    }
    proof {
        assert(v@.to_multiset() =~= Multiset::<ProcessInfo>::empty());
        assert(out@.to_multiset().add(Multiset::<ProcessInfo>::empty()) =~= out@.to_multiset());
    }
    out
}

/// Build the snapshot of one poll from the memory counters, the
/// process table and the configuration.
pub fn build_snapshot(mem: MemoryCounters, procs: Vec<ProcessInfo>, config: &Config) -> (s:
    SystemSnapshot)
    requires
        spec_total_memory(procs@) <= u64::MAX,
    ensures
        s.total_memory_mb == mem.total_memory_mb,
        s.used_memory_mb == mem.used_memory_mb,
        s.free_memory_mb == mem.free_memory_mb,
        s.total_swap_mb == mem.total_swap_mb,
        s.used_swap_mb == mem.used_swap_mb,
        s.pressure == spec_assess(mem.free_memory_mb, mem.used_swap_mb, config.thresholds),
        s.node_count == count_matching(procs@, node_pred()),
        s.node_total_mb == sum_memory_matching(procs@, node_pred()),
        s.browser_count == count_matching(procs@, browser_pred()),
        s.browser_total_mb == sum_memory_matching(procs@, browser_pred()),
        s.dev_server_count == count_matching(
            procs@,
            dev_server_pred(config.safe_kill_patterns.dev_servers.deep_view()),
        ),
        s.dev_server_total_mb == sum_memory_matching(
            procs@,
            dev_server_pred(config.safe_kill_patterns.dev_servers.deep_view()),
        ),
        s.top_processes@.len() == if procs@.len() < TOP_PROCESS_COUNT {
            procs@.len() as int
        } else {
            TOP_PROCESS_COUNT as int
        },
        sorted_desc(s.top_processes@),
        exists|sorted: Seq<ProcessInfo>|
            sorted.to_multiset() == procs@.to_multiset() && sorted_desc(sorted)
                && s.top_processes@ == #[trigger] sorted.take(s.top_processes@.len() as int),
{
    let ghost pats = config.safe_kill_patterns.dev_servers.deep_view();
    let mut node_count: usize = 0;
    let mut node_total_mb: u64 = 0;
    let mut browser_count: usize = 0;
    let mut browser_total_mb: u64 = 0;
    let mut dev_server_count: usize = 0;
    let mut dev_server_total_mb: u64 = 0;
    let mut i: usize = 0;
    while i < procs.len()
        invariant
            i <= procs@.len(),
            spec_total_memory(procs@) <= u64::MAX,
            pats == config.safe_kill_patterns.dev_servers.deep_view(),
            node_count == count_matching(procs@.take(i as int), node_pred()),
            node_total_mb == sum_memory_matching(procs@.take(i as int), node_pred()),
            browser_count == count_matching(procs@.take(i as int), browser_pred()),
            browser_total_mb == sum_memory_matching(procs@.take(i as int), browser_pred()),
            dev_server_count == count_matching(procs@.take(i as int), dev_server_pred(pats)),
            dev_server_total_mb == sum_memory_matching(procs@.take(i as int), dev_server_pred(pats)),
        decreases procs@.len() - i,
    {
        let p = &procs[i];
        proof {
            assert(procs@.take(i + 1).drop_last() =~= procs@.take(i as int));
            assert(procs@.take(i + 1).last() == procs@[i as int]);
            lemma_count_le_len(procs@.take(i + 1), node_pred());
            lemma_count_le_len(procs@.take(i + 1), browser_pred());
            lemma_count_le_len(procs@.take(i + 1), dev_server_pred(pats));
            lemma_sum_take_bounded(procs@, node_pred(), i + 1);
            lemma_sum_take_bounded(procs@, browser_pred(), i + 1);
            lemma_sum_take_bounded(procs@, dev_server_pred(pats), i + 1);
        }
        if counts_as_node(p.name.as_str()) {
            node_count = node_count + 1;
            node_total_mb = node_total_mb + p.memory_mb;
        }
        if counts_as_browser(p.name.as_str()) {
            browser_count = browser_count + 1;
            browser_total_mb = browser_total_mb + p.memory_mb;
        }
        if is_dev_server(p.name.as_str(), p.cmd.as_str(), &config.safe_kill_patterns.dev_servers) {
            dev_server_count = dev_server_count + 1;
            dev_server_total_mb = dev_server_total_mb + p.memory_mb;
        }
        i = i + 1;
    }
    proof {
        assert(procs@.take(i as int) =~= procs@);
    }
    let pressure = assess(mem.free_memory_mb, mem.used_swap_mb, &config.thresholds);
    let ghost procs0 = procs@;
    let mut top = sort_by_memory_desc(procs);
    let ghost sorted_all = top@;
    if top.len() > TOP_PROCESS_COUNT {
        top.truncate(TOP_PROCESS_COUNT);
        proof {
            assert(top@ =~= sorted_all.take(TOP_PROCESS_COUNT as int));
        }
    } else {
        proof {
            assert(top@ =~= sorted_all.take(top@.len() as int));
        }
    }
    proof {
        assert(sorted_all.to_multiset() == procs0.to_multiset() && sorted_desc(sorted_all) && top@
            == sorted_all.take(top@.len() as int));
    }
    SystemSnapshot {
        total_memory_mb: mem.total_memory_mb,
        used_memory_mb: mem.used_memory_mb,
        free_memory_mb: mem.free_memory_mb,
        total_swap_mb: mem.total_swap_mb,
        used_swap_mb: mem.used_swap_mb,
        top_processes: top,
        pressure,
        node_count,
        node_total_mb,
        browser_count,
        browser_total_mb,
        dev_server_count,
        dev_server_total_mb,
    }
}

} // verus!

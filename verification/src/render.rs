//! Advisory strings derived from a snapshot.
//!
//! Numbers are rendered in decimal; memory quantities held in
//! mebibytes are rendered as gibibytes with one (truncated) decimal
//! digit.

use crate::process::ProcessInfo;
use crate::snapshot::SystemSnapshot;
use vstd::prelude::*;

verus! {

/// The character of one decimal digit.
pub open spec fn digit_char(d: nat) -> char {
    if d == 0 {
        '0'
    } else if d == 1 {
        '1'
    } else if d == 2 {
        '2'
    } else if d == 3 {
        '3'
    } else if d == 4 {
        '4'
    } else if d == 5 {
        '5'
    } else if d == 6 {
        '6'
    } else if d == 7 {
        '7'
    } else if d == 8 {
        '8'
    } else {
        '9'
    }
}

/// The decimal rendering of `n`, most significant digit first.
pub open spec fn spec_decimal(n: nat) -> Seq<char>
    decreases n,
{
    if n < 10 {
        seq![digit_char(n)]
    } else {
        spec_decimal(n / 10).push(digit_char(n % 10))
    }
}

/// A mebibyte count rendered as gibibytes with one truncated decimal
/// digit.
pub open spec fn spec_gb_tenths(mb: nat) -> Seq<char> {
    spec_decimal(mb / 1024) + seq!['.'] + seq![digit_char((mb % 1024) * 10 / 1024)]
}

fn digit_str(d: u64) -> (r: &'static str)
    requires
        d < 10,
    ensures
        r@ == seq![digit_char(d as nat)],
{
    if d == 0 {
        proof {
            reveal_strlit("0");
            assert("0"@ =~= seq![digit_char(0nat)]);
        }
        "0"
    } else if d == 1 {
        proof {
            reveal_strlit("1");
            assert("1"@ =~= seq![digit_char(1nat)]);
        }
        "1"
    } else if d == 2 {
        proof {
            reveal_strlit("2");
            assert("2"@ =~= seq![digit_char(2nat)]);
        }
        "2"
    } else if d == 3 {
        proof {
            reveal_strlit("3");
            assert("3"@ =~= seq![digit_char(3nat)]);
        }
        "3"
    } else if d == 4 {
        proof {
            reveal_strlit("4");
            assert("4"@ =~= seq![digit_char(4nat)]);
        }
        "4"
    } else if d == 5 {
        proof {
            reveal_strlit("5");
            assert("5"@ =~= seq![digit_char(5nat)]);
        }
        "5"
    } else if d == 6 {
        proof {
            reveal_strlit("6");
            assert("6"@ =~= seq![digit_char(6nat)]);
        }
        "6"
    } else if d == 7 {
        proof {
            reveal_strlit("7");
            assert("7"@ =~= seq![digit_char(7nat)]);
        }
        "7"
    } else if d == 8 {
        proof {
            reveal_strlit("8");
            assert("8"@ =~= seq![digit_char(8nat)]);
        }
        "8"
    } else {
        proof {
            reveal_strlit("9");
            assert("9"@ =~= seq![digit_char(9nat)]);
        }
        "9"
    }
}

/// Render `n` in decimal.
pub fn u64_to_string(n: u64) -> (s: String)
    ensures
        s@ == spec_decimal(n as nat),
    decreases n,
{
    if n < 10 {
        String::from_str(digit_str(n))
    } else {
        let mut s = u64_to_string(n / 10);
        s.append(digit_str(n % 10));
        proof {
            assert(spec_decimal((n / 10) as nat).push(digit_char((n % 10) as nat))
                =~= spec_decimal((n / 10) as nat) + seq![digit_char((n % 10) as nat)]);
        }
        s
    }
}

/// Render a mebibyte count as gibibytes with one decimal digit.
pub fn gb_string(mb: u64) -> (s: String)
    ensures
        s@ == spec_gb_tenths(mb as nat),
{
    let whole = mb / 1024;
    let rem = mb % 1024;
    let frac = rem * 10 / 1024;
    proof {
        assert(frac < 10);
    }
    let mut s = u64_to_string(whole);
    s.append(".");
    proof {
        reveal_strlit(".");
        assert("."@ =~= seq!['.']);
    }
    s.append(digit_str(frac));
    proof {
        assert(s@ =~= spec_gb_tenths(mb as nat));
    }
    s
}

/// The dev-server advisory.
pub open spec fn spec_dev_server_rec(count: nat, mb: nat) -> Seq<char> {
    "Kill "@ + spec_decimal(count) + " dev server(s) to free ~"@ + spec_decimal(mb) + "MB"@
}

/// The browser advisory.
pub open spec fn spec_browser_rec(mb: nat, count: nat) -> Seq<char> {
    "Browser using "@ + spec_decimal(mb) + "MB across "@ + spec_decimal(count)
        + " processes - close tabs or extensions"@
}

/// The Node advisory.
pub open spec fn spec_node_rec(count: nat, mb: nat) -> Seq<char> {
    spec_decimal(count) + " node processes ("@ + spec_decimal(mb) + "MB) - exit unused sessions"@
}

/// The zombie-VM advisory.
pub open spec fn spec_zombie_vm_rec() -> Seq<char> {
    "Zombie Virtualization VM detected - Docker not running but VM is"@
}

/// The swap-thrashing advisory.
pub open spec fn spec_swap_rec(swap_mb: nat) -> Seq<char> {
    "Swap at "@ + spec_gb_tenths(swap_mb) + "GB - system is memory-thrashing"@
}

/// Some listed process name hints at a virtualization helper.
pub open spec fn spec_has_vm_name(procs: Seq<ProcessInfo>) -> bool {
    exists|i: int|
        0 <= i < procs.len() && crate::text::contains_seq(
            (#[trigger] procs[i]).name@,
            "Virtualization"@,
        )
}

/// Some listed process name hints at a container engine.
pub open spec fn spec_has_docker_name(procs: Seq<ProcessInfo>) -> bool {
    exists|i: int|
        0 <= i < procs.len() && (crate::text::contains_seq((#[trigger] procs[i]).name@, "Docker"@)
            || crate::text::contains_seq(procs[i].name@, "docker"@))
}

/// The advisories of a snapshot, in their fixed order. Any subset may
/// fire; each rule is judged on its own. The numeric bounds here
/// (2000 MB of browser memory, 50 Node processes, 10 GiB of swap) are
/// fixed, unlike the configurable pressure thresholds.
pub open spec fn spec_recommendations(s: SystemSnapshot) -> Seq<Seq<char>> {
    (if s.dev_server_count > 0 {
        seq![spec_dev_server_rec(s.dev_server_count as nat, s.dev_server_total_mb as nat)]
    } else {
        Seq::<Seq<char>>::empty()
    }) + (if s.browser_total_mb > 2000 {
        seq![spec_browser_rec(s.browser_total_mb as nat, s.browser_count as nat)]
    } else {
        Seq::<Seq<char>>::empty()
    }) + (if s.node_count > 50 {
        seq![spec_node_rec(s.node_count as nat, s.node_total_mb as nat)]
    } else {
        Seq::<Seq<char>>::empty()
    }) + (if spec_has_vm_name(s.top_processes@) && !spec_has_docker_name(s.top_processes@) {
        seq![spec_zombie_vm_rec()]
    } else {
        Seq::<Seq<char>>::empty()
    }) + (if s.used_swap_mb > 10240 {
        seq![spec_swap_rec(s.used_swap_mb as nat)]
    } else {
        Seq::<Seq<char>>::empty()
    })
}

fn has_vm_name(procs: &Vec<ProcessInfo>) -> (r: bool)
    ensures
        r == spec_has_vm_name(procs@),
{
    let mut i: usize = 0;
    while i < procs.len()
        invariant
            i <= procs@.len(),
            forall|k: int|
                0 <= k < i ==> !crate::text::contains_seq(
                    (#[trigger] procs@[k]).name@,
                    "Virtualization"@,
                ),
        decreases procs@.len() - i,
    {
        if crate::text::str_contains(procs[i].name.as_str(), "Virtualization") {
            return true;
        }
        i = i + 1;
    }
    false
}

fn has_docker_name(procs: &Vec<ProcessInfo>) -> (r: bool)
    ensures
        r == spec_has_docker_name(procs@),
{
    let mut i: usize = 0;
    while i < procs.len()
        invariant
            i <= procs@.len(),
            forall|k: int|
                0 <= k < i ==> !(crate::text::contains_seq((#[trigger] procs@[k]).name@, "Docker"@)
                    || crate::text::contains_seq(procs@[k].name@, "docker"@)),
        decreases procs@.len() - i,
    {
        let name = procs[i].name.as_str();
        if crate::text::str_contains(name, "Docker") || crate::text::str_contains(name, "docker") {
            return true;
        }
        i = i + 1;
    }
    false
}

/// Derive the advisories of a snapshot, in their fixed order.
pub fn recommendations(snapshot: &SystemSnapshot) -> (r: Vec<String>)
    ensures
        r.deep_view() == spec_recommendations(*snapshot),
{
    let mut recs: Vec<String> = Vec::new();
    if snapshot.dev_server_count > 0 {
        let mut m = String::from_str("Kill ");
        m.append(u64_to_string(snapshot.dev_server_count as u64).as_str());
        m.append(" dev server(s) to free ~");
        m.append(u64_to_string(snapshot.dev_server_total_mb).as_str());
        m.append("MB");
        proof {
            assert(m@ =~= spec_dev_server_rec(
                snapshot.dev_server_count as nat,
                snapshot.dev_server_total_mb as nat,
            ));
        }
        recs.push(m);
    }
    if snapshot.browser_total_mb > 2000 {
        let mut m = String::from_str("Browser using ");
        m.append(u64_to_string(snapshot.browser_total_mb).as_str());
        m.append("MB across ");
        m.append(u64_to_string(snapshot.browser_count as u64).as_str());
        m.append(" processes - close tabs or extensions");
        proof {
            assert(m@ =~= spec_browser_rec(
                snapshot.browser_total_mb as nat,
                snapshot.browser_count as nat,
            ));
        }
        recs.push(m);
    }
    if snapshot.node_count > 50 {
        let mut m = u64_to_string(snapshot.node_count as u64);
        m.append(" node processes (");
        m.append(u64_to_string(snapshot.node_total_mb).as_str());
        m.append("MB) - exit unused sessions");
        proof {
            assert(m@ =~= spec_node_rec(snapshot.node_count as nat, snapshot.node_total_mb as nat));
        }
        recs.push(m);
    }
    if has_vm_name(&snapshot.top_processes) && !has_docker_name(&snapshot.top_processes) {
        recs.push(String::from_str("Zombie Virtualization VM detected - Docker not running but VM is"));
    }
    if snapshot.used_swap_mb > 10240 {
        let mut m = String::from_str("Swap at ");
        m.append(gb_string(snapshot.used_swap_mb).as_str());
        m.append("GB - system is memory-thrashing");
        proof {
            assert(m@ =~= spec_swap_rec(snapshot.used_swap_mb as nat));
        }
        recs.push(m);
    }
    proof {
        assert(recs.deep_view() =~= spec_recommendations(*snapshot));
    }
    recs
}

/// One top-process entry of the snapshot summary.
pub open spec fn spec_top_entry(p: ProcessInfo) -> Seq<char> {
    p.name@ + " ("@ + spec_decimal(p.memory_mb as nat) + "MB)"@
}

/// Top-process entries joined with a comma and a space.
pub open spec fn spec_joined_top(procs: Seq<ProcessInfo>) -> Seq<char>
    decreases procs.len(),
{
    if procs.len() == 0 {
        Seq::empty()
    } else if procs.len() == 1 {
        spec_top_entry(procs[0])
    } else {
        spec_joined_top(procs.drop_last()) + ", "@ + spec_top_entry(procs.last())
    }
}

/// The two-line summary of a snapshot: the free-memory and swap
/// figures, then up to three of the heaviest processes.
pub open spec fn spec_format_snapshot(s: SystemSnapshot) -> Seq<char> {
    let line1 = "Free: "@ + spec_gb_tenths(s.free_memory_mb as nat) + " GB | Swap: "@
        + spec_gb_tenths(s.used_swap_mb as nat) + "/"@ + spec_gb_tenths(s.total_swap_mb as nat)
        + " GB"@;
    if s.top_processes@.len() == 0 {
        line1
    } else {
        let shown = if s.top_processes@.len() < 3 {
            s.top_processes@
        } else {
            s.top_processes@.take(3)
        };
        line1 + "\n"@ + "Top: "@ + spec_joined_top(shown)
    }
}

/// Render the two-line summary of a snapshot.
pub fn format_snapshot(snapshot: &SystemSnapshot) -> (r: String)
    ensures
        r@ == spec_format_snapshot(*snapshot),
{
    let mut line = String::from_str("Free: ");
    line.append(gb_string(snapshot.free_memory_mb).as_str());
    line.append(" GB | Swap: ");
    line.append(gb_string(snapshot.used_swap_mb).as_str());
    line.append("/");
    line.append(gb_string(snapshot.total_swap_mb).as_str());
    line.append(" GB");
    let n = snapshot.top_processes.len();
    if n == 0 {
        proof {
            assert(line@ =~= spec_format_snapshot(*snapshot));
        }
        return line;
    }
    let shown: usize = if n < 3 {
        n
    } else {
        3
    };
    let ghost shown_seq = if snapshot.top_processes@.len() < 3 {
        snapshot.top_processes@
    } else {
        snapshot.top_processes@.take(3)
    };
    line.append("\n");
    line.append("Top: ");
    let mut joined = String::new();
    let mut i: usize = 0;
    while i < shown
        invariant
            shown <= snapshot.top_processes@.len(),
            shown == shown_seq.len(),
            shown_seq == (if snapshot.top_processes@.len() < 3 {
                snapshot.top_processes@
            } else {
                snapshot.top_processes@.take(3)
            }),
            i <= shown,
            joined@ == spec_joined_top(shown_seq.take(i as int)),
        decreases shown - i,
    {
        proof {
            assert(shown_seq.take(i + 1).drop_last() =~= shown_seq.take(i as int));
            assert(shown_seq.take(i + 1).last() == shown_seq[i as int]);
            assert(shown_seq[i as int] == snapshot.top_processes@[i as int]);
        }
        if i > 0 {
            joined.append(", ");
        }
        let p = &snapshot.top_processes[i];
        joined.append(p.name.as_str());
        joined.append(" (");
        joined.append(u64_to_string(p.memory_mb).as_str());
        joined.append("MB)");
        proof {
            if i == 0 {
                assert(joined@ =~= spec_top_entry(shown_seq.take(1)[0]));
                assert(shown_seq.take(1).len() == 1);
            } else {
                assert(joined@ =~= spec_joined_top(shown_seq.take(i as int)) + ", "@
                    + spec_top_entry(shown_seq.take(i + 1).last()));
            }
        }
        i = i + 1;
    }
    proof {
        assert(shown_seq.take(shown as int) =~= shown_seq);
    }
    line.append(joined.as_str());
    proof {
        assert(line@ =~= spec_format_snapshot(*snapshot));
    }
    line
}

} // verus!

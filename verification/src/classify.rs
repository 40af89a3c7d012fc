//! Process classification.
//!
//! Pure predicates over a process's name and joined command line.
//! The browser check takes precedence over every other classification:
//! Chromium-style helper subprocesses carry arbitrary strings in their
//! command lines (dev-server pattern substrings among them), so nothing
//! that matches the browser check may ever be classified as a dev
//! server, nor terminated.

use crate::text::{contains_seq, matches_any, str_contains, any_pattern_matches};
use vstd::prelude::*;

verus! {

/// The name carries one of the fixed browser-engine identifiers.
pub open spec fn spec_browser_indicator(s: Seq<char>) -> bool {
    contains_seq(s, "Brave Browser"@) || contains_seq(s, "Google Chrome"@) || contains_seq(
        s,
        "Chromium"@,
    ) || contains_seq(s, "Firefox"@) || contains_seq(s, "Safari"@) || contains_seq(s, "Arc"@)
        || contains_seq(s, "Microsoft Edge"@) || contains_seq(s, "Opera"@)
}

/// The command line carries one of the fixed application-bundle path
/// fragments of a browser.
pub open spec fn spec_browser_bundle_path(cmd: Seq<char>) -> bool {
    contains_seq(cmd, "Brave Browser.app"@) || contains_seq(cmd, "Google Chrome.app"@)
        || contains_seq(cmd, "Chromium.app"@) || contains_seq(cmd, "Arc.app"@) || contains_seq(
        cmd,
        "Microsoft Edge.app"@,
    ) || contains_seq(cmd, "Opera.app"@)
}

/// A process is browser-classified if its name carries a browser
/// identifier, or it is a helper whose command line carries one, or its
/// command line carries a browser bundle path.
pub open spec fn spec_is_browser(name: Seq<char>, cmd: Seq<char>) -> bool {
    spec_browser_indicator(name) || (contains_seq(name, "Helper"@) && spec_browser_indicator(cmd))
        || spec_browser_bundle_path(cmd)
}

/// A process is dev-server-classified only if it is not
/// browser-classified and its name or command line carries a configured
/// dev-server pattern.
pub open spec fn spec_is_dev_server(name: Seq<char>, cmd: Seq<char>, pats: Seq<Seq<char>>) -> bool {
    !spec_is_browser(name, cmd) && matches_any(name, cmd, pats)
}

/// Whether `s` carries one of the fixed browser-engine identifiers.
pub fn browser_indicator(s: &str) -> (r: bool)
    ensures
        r == spec_browser_indicator(s@),
{
    str_contains(s, "Brave Browser") || str_contains(s, "Google Chrome") || str_contains(
        s,
        "Chromium",
    ) || str_contains(s, "Firefox") || str_contains(s, "Safari") || str_contains(s, "Arc")
        || str_contains(s, "Microsoft Edge") || str_contains(s, "Opera")
}

/// Whether a process is browser-classified from its name and command line.
pub fn is_browser(name: &str, cmd: &str) -> (r: bool)
    ensures
        r == spec_is_browser(name@, cmd@),
{
    if browser_indicator(name) {
        return true;
    }
    if str_contains(name, "Helper") && browser_indicator(cmd) {
        return true;
    }
    str_contains(cmd, "Brave Browser.app") || str_contains(cmd, "Google Chrome.app")
        || str_contains(cmd, "Chromium.app") || str_contains(cmd, "Arc.app") || str_contains(
        cmd,
        "Microsoft Edge.app",
    ) || str_contains(cmd, "Opera.app")
}

/// Whether a process is dev-server-classified: not a browser, and its
/// name or command line carries a configured dev-server pattern.
pub fn is_dev_server(name: &str, cmd: &str, pats: &Vec<String>) -> (r: bool)
    ensures
        r == spec_is_dev_server(name@, cmd@, pats.deep_view()),
{
    !is_browser(name, cmd) && any_pattern_matches(name, cmd, pats)
}

/// The name counts toward the Node aggregate.
pub open spec fn spec_counts_as_node(name: Seq<char>) -> bool {
    contains_seq(name, "node"@)
}

/// The name counts toward the browser aggregate. This indicator set is
/// deliberately narrower than the browser safety net above: the
/// aggregate is advisory, while kill-eligibility uses the stricter
/// check.
pub open spec fn spec_counts_as_browser(name: Seq<char>) -> bool {
    contains_seq(name, "Brave"@) || contains_seq(name, "Chrome"@) || contains_seq(
        name,
        "Firefox"@,
    )
}

/// Whether the name counts toward the Node aggregate.
pub fn counts_as_node(name: &str) -> (r: bool)
    ensures
        r == spec_counts_as_node(name@),
{
    str_contains(name, "node")
}

/// Whether the name counts toward the browser aggregate.
pub fn counts_as_browser(name: &str) -> (r: bool)
    ensures
        r == spec_counts_as_browser(name@),
{
    str_contains(name, "Brave") || str_contains(name, "Chrome") || str_contains(name, "Firefox")
}

} // verus!

use resmgr::classify::{counts_as_browser, counts_as_node, is_browser, is_dev_server};
use resmgr::config::default_dev_servers;

#[test]
fn browser_by_name() {
    assert!(is_browser("Google Chrome", ""));
    assert!(is_browser("Brave Browser", "--some-flag"));
    assert!(is_browser("Firefox", ""));
    assert!(!is_browser("next-server", "node /app/.next/server.js"));
}

#[test]
fn browser_helper_with_indicator_in_cmdline() {
    // A helper whose command line contains "vite" must still be a
    // browser: the helper marker plus the browser indicator win.
    assert!(is_browser(
        "Brave Browser Helper (Renderer)",
        "--type=renderer --utility-sub-type=network.mojom /Applications/Brave Browser.app vite build",
    ));
}

#[test]
fn browser_by_bundle_path() {
    assert!(is_browser("some-generic-name", "/Applications/Google Chrome.app/Contents/Framework"));
}

#[test]
fn helper_alone_is_not_a_browser() {
    assert!(!is_browser("Spotlight Helper", "--type=worker"));
}

#[test]
fn dev_server_requires_not_browser() {
    let pats = default_dev_servers();
    assert!(is_dev_server("next-server", "node next-server", &pats));
    assert!(is_dev_server("node", "node_modules/.bin/vite", &pats));
    // Same pattern in the command line, but a browser helper: never a
    // dev server.
    assert!(!is_dev_server(
        "Brave Browser Helper (Renderer)",
        "--type=renderer vite",
        &pats,
    ));
    assert!(!is_dev_server("bash", "bash -l", &pats));
}

#[test]
fn aggregation_indicators() {
    assert!(counts_as_node("node"));
    assert!(counts_as_node("my-node-worker"));
    assert!(!counts_as_node("Node"));
    assert!(counts_as_browser("Brave Browser Helper"));
    assert!(counts_as_browser("Google Chrome"));
    assert!(counts_as_browser("Firefox"));
    // The aggregation set is narrower than the browser safety net.
    assert!(!counts_as_browser("Safari"));
    assert!(!counts_as_browser("Microsoft Edge"));
}

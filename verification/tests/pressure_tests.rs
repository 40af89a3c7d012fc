use resmgr::config::{Config, Thresholds};
use resmgr::pressure::{assess, PressureLevel};

fn default_thresholds() -> Thresholds {
    Config::default().thresholds
}

#[test]
fn normal_when_plenty_free() {
    // 3.0 GiB free, 5 GiB swap
    let t = default_thresholds();
    assert_eq!(assess(3072, 5120, &t), PressureLevel::Normal);
}

#[test]
fn elevated_when_free_below_two_gb() {
    // 1.5 GiB free, 5 GiB swap
    let t = default_thresholds();
    assert_eq!(assess(1536, 5120, &t), PressureLevel::Elevated);
}

#[test]
fn high_when_free_below_one_gb() {
    // 0.8 GiB free, 5 GiB swap
    let t = default_thresholds();
    assert_eq!(assess(819, 5120, &t), PressureLevel::High);
}

#[test]
fn critical_needs_both_conditions() {
    // 0.4 GiB free but only 20 GiB swap: the swap condition is unmet,
    // so this is High, not Critical.
    let t = default_thresholds();
    assert_eq!(assess(410, 20480, &t), PressureLevel::High);
}

#[test]
fn critical_when_both_conditions_hold() {
    // 0.3 GiB free, 31 GiB swap
    let t = default_thresholds();
    assert_eq!(assess(307, 31744, &t), PressureLevel::Critical);
}

#[test]
fn elevated_on_swap_alone() {
    // plenty of free memory, 16 GiB swap
    let t = default_thresholds();
    assert_eq!(assess(8192, 16384, &t), PressureLevel::Elevated);
}

#[test]
fn high_on_swap_alone() {
    let t = default_thresholds();
    assert_eq!(assess(8192, 26624, &t), PressureLevel::High);
}

#[test]
fn pressure_never_drops_as_memory_tightens() {
    fn rank(l: PressureLevel) -> u32 {
        match l {
            PressureLevel::Normal => 0,
            PressureLevel::Elevated => 1,
            PressureLevel::High => 2,
            PressureLevel::Critical => 3,
        }
    }
    let t = default_thresholds();
    // Free memory falls and swap use rises step by step; the level
    // never falls.
    let readings = [
        (8192u64, 0u64),
        (2047, 0),
        (2047, 16000),
        (1023, 16000),
        (1023, 26000),
        (511, 30000),
        (511, 31000),
    ];
    let mut prev = 0;
    for (free, swap) in readings {
        let level = rank(assess(free, swap, &t));
        assert!(level >= prev);
        prev = level;
    }
}

#[test]
fn labels() {
    assert_eq!(PressureLevel::Normal.label(), "Normal");
    assert_eq!(PressureLevel::Elevated.label(), "Elevated");
    assert_eq!(PressureLevel::High.label(), "High");
    assert_eq!(PressureLevel::Critical.label(), "Critical");
}

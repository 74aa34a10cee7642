use touch_gui::level::LevelTracker;
use touch_gui::systick::{SysTimer, PERIOD_MS};

#[test]
fn timer_fires_on_every_five_hundredth_tick() {
    assert_eq!(PERIOD_MS, 500);
    let mut t = SysTimer::new();
    assert_eq!(t.elapsed_ms(), 0);
    let mut fired = Vec::new();
    for n in 1..=1500 {
        if t.tick() {
            fired.push(n);
            assert_eq!(t.elapsed_ms(), 0);
        }
    }
    assert_eq!(fired, vec![500, 1000, 1500]);
}

#[test]
fn timer_counts_between_firings() {
    let mut t = SysTimer::new();
    for n in 1..500 {
        assert!(!t.tick());
        assert_eq!(t.elapsed_ms(), n);
    }
    assert!(t.tick());
    assert_eq!(t.elapsed_ms(), 0);
    assert!(!t.tick());
    assert_eq!(t.elapsed_ms(), 1);
}

#[test]
fn tracker_reports_changes_only() {
    let mut t = LevelTracker::new();
    assert!(!t.is_high);
    assert_eq!(t.observe(false), None);
    assert_eq!(t.observe(true), Some(true));
    assert!(t.is_high);
    assert_eq!(t.observe(true), None);
    assert_eq!(t.observe(false), Some(false));
    assert!(!t.is_high);
    assert_eq!(t.observe(false), None);
}

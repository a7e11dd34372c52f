use creole_live_editor::autosave::{Autosave, SaveState, QUIET_MS, TICK_MS};
use creole_live_editor::storage::StoreOp;

fn put(key: &str, value: &str) -> Option<StoreOp> {
    Some(StoreOp::Put { key: key.to_string(), value: value.to_string() })
}

#[test]
fn debounce_edits_at_0_and_900() {
    let mut a = Autosave::new("doc".to_string());
    a.edit(0);
    a.edit(900);
    let mut flushes = 0;
    let mut t: u64 = 0;
    while t <= 4000 {
        if let Some(op) = a.tick(t, "text") {
            assert!(t >= 1900, "flushed at {t}");
            assert_eq!(Some(op), put("doc", "text"));
            flushes += 1;
            a.finish(t, true);
        }
        t += TICK_MS;
    }
    assert_eq!(flushes, 1);
    assert_eq!(a.state, SaveState::Idle);
    assert_eq!(a.last_flush_time, 2000);
}

#[test]
fn tick_exactly_at_quiet_period_flushes() {
    let mut a = Autosave::new("doc".to_string());
    a.edit(900);
    assert!(!a.is_flush_due(1899));
    assert_eq!(a.tick(1899, "x"), None);
    assert!(a.is_flush_due(900 + QUIET_MS));
    assert_eq!(a.tick(1900, "x"), put("doc", "x"));
    assert_eq!(a.state, SaveState::Flushing);
    assert_eq!(a.tick(5000, "x"), None);
}

#[test]
fn empty_buffer_flush_deletes() {
    let mut a = Autosave::new("doc".to_string());
    a.edit(10);
    assert_eq!(a.tick(2000, ""), Some(StoreOp::Delete { key: "doc".to_string() }));
}

#[test]
fn failed_flush_retries_next_tick() {
    let mut a = Autosave::new("k".to_string());
    a.edit(0);
    assert!(a.tick(1000, "v").is_some());
    a.finish(1000, false);
    assert_eq!(a.state, SaveState::Dirty);
    assert_eq!(a.last_flush_time, 0);
    assert_eq!(a.tick(1500, "v"), put("k", "v"));
    a.finish(1500, true);
    assert_eq!(a.state, SaveState::Idle);
    assert_eq!(a.tick(2000, "v"), None);
}

#[test]
fn edit_during_flush_keeps_dirty() {
    let mut a = Autosave::new("k".to_string());
    a.edit(0);
    assert!(a.tick(1000, "v1").is_some());
    a.edit(1200);
    a.finish(1300, true);
    assert_eq!(a.state, SaveState::Dirty);
    assert_eq!(a.last_flush_time, 1300);
    assert_eq!(a.tick(2000, "v2"), None);
    assert_eq!(a.tick(2200, "v2"), put("k", "v2"));
}

#[test]
fn no_second_write_while_one_is_in_flight() {
    let mut a = Autosave::new("k".to_string());
    a.edit(0);
    assert_eq!(a.tick(1000, "v1"), put("k", "v1"));
    assert!(a.in_flight);
    a.edit(1100);
    assert_eq!(a.state, SaveState::Dirty);
    assert_eq!(a.tick(5000, "v2"), None);
    a.finish(5100, true);
    assert!(!a.in_flight);
    assert_eq!(a.state, SaveState::Dirty);
    assert_eq!(a.tick(5500, "v2"), put("k", "v2"));
}

#[test]
fn finish_without_write_changes_nothing() {
    let mut a = Autosave::new("k".to_string());
    a.edit(0);
    a.finish(300, true);
    assert_eq!(a.state, SaveState::Dirty);
    assert_eq!(a.last_flush_time, 0);
}

#[test]
fn idle_never_flushes() {
    let mut a = Autosave::new("k".to_string());
    assert_eq!(a.tick(10_000, "v"), None);
    a.finish(10_000, true);
    assert_eq!(a.state, SaveState::Idle);
    assert_eq!(a.last_flush_time, 0);
}

#[test]
fn clock_going_back_does_not_flush() {
    let mut a = Autosave::new("k".to_string());
    a.edit(5000);
    assert_eq!(a.tick(100, "v"), None);
    assert_eq!(a.tick(u64::MAX, "v"), put("k", "v"));
}

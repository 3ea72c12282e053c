use std::time::Instant;

use ovim::double_tap::{DoubleTapKey, DoubleTapManager, DoubleTapTracker};

#[test]
fn test_double_tap_detection() {
    let mut tracker = DoubleTapTracker::new();

    // First tap
    tracker.on_press();
    assert!(!tracker.on_release());

    // Second tap (quick)
    tracker.on_press();
    assert!(tracker.on_release());
}

#[test]
fn test_tap_timeout() {
    let mut tracker = DoubleTapTracker::new();
    let now = Instant::now();

    // First tap
    tracker.press_at(now, 0);
    tracker.release_at(now, 10_000_000);

    // Second tap 350 ms later: too late for a double-tap
    tracker.press_at(now, 350_000_000);
    assert!(!tracker.release_at(now, 10_000_000));
}

#[test]
fn test_hold_resets() {
    let mut tracker = DoubleTapTracker::new();
    let now = Instant::now();

    // First tap
    tracker.press_at(now, 0);
    tracker.release_at(now, 10_000_000);

    // Held for 250 ms: no tap, and the first one is forgotten
    tracker.press_at(now, 10_000_000);
    assert!(!tracker.release_at(now, 250_000_000));
}

#[test]
fn limits_are_inclusive() {
    let now = Instant::now();
    let mut tracker = DoubleTapTracker::new();
    tracker.press_at(now, 0);
    assert!(!tracker.release_at(now, 200_000_000));
    tracker.press_at(now, 300_000_000);
    assert!(tracker.release_at(now, 200_000_000));
}

#[test]
fn three_quick_taps_give_one_double_tap() {
    let now = Instant::now();
    let mut tracker = DoubleTapTracker::new();
    tracker.press_at(now, 0);
    assert!(!tracker.release_at(now, 1));
    tracker.press_at(now, 1);
    assert!(tracker.release_at(now, 1));
    tracker.press_at(now, 1);
    assert!(!tracker.release_at(now, 1));
}

#[test]
fn reset_forgets_a_tap() {
    let now = Instant::now();
    let mut tracker = DoubleTapTracker::new();
    tracker.press_at(now, 0);
    tracker.release_at(now, 1);
    tracker.reset();
    tracker.press_at(now, 1);
    assert!(!tracker.release_at(now, 1));
}

#[test]
fn manager_detects_double_tap_on_command() {
    let mut m = DoubleTapManager::new();
    assert_eq!(m.process_flags_changed(true, false, false, false), None);
    assert_eq!(m.process_flags_changed(false, false, false, false), None);
    assert_eq!(m.process_flags_changed(true, false, false, false), None);
    assert_eq!(m.process_flags_changed(false, false, false, false), Some(DoubleTapKey::Command));
}

#[test]
fn manager_ignores_chords() {
    let mut m = DoubleTapManager::new();
    m.process_flags_changed(true, false, false, false);
    m.process_flags_changed(false, false, false, false);
    // Command and Shift together reset everything.
    assert_eq!(m.process_flags_changed(true, false, false, true), None);
    assert_eq!(m.process_flags_changed(false, false, false, false), None);
}

#[test]
fn another_key_between_taps_breaks_the_double_tap() {
    let mut m = DoubleTapManager::new();
    m.process_flags_changed(false, true, false, false);
    m.process_flags_changed(false, false, false, false);
    // Escape pressed in between resets the Option tracker.
    m.process_key_event(DoubleTapKey::Escape, true);
    m.process_key_event(DoubleTapKey::Escape, false);
    m.process_flags_changed(false, true, false, false);
    assert_eq!(m.process_flags_changed(false, false, false, false), None);
}

#[test]
fn escape_double_tap_through_key_events() {
    let mut m = DoubleTapManager::new();
    assert_eq!(m.process_key_event(DoubleTapKey::Escape, true), None);
    assert_eq!(m.process_key_event(DoubleTapKey::Escape, false), None);
    assert_eq!(m.process_key_event(DoubleTapKey::Escape, true), None);
    assert_eq!(m.process_key_event(DoubleTapKey::Escape, false), Some(DoubleTapKey::Escape));
    // Other keys are not tracked by key events.
    assert_eq!(m.process_key_event(DoubleTapKey::Shift, false), None);
}

#[test]
fn manager_reset_drops_a_pending_modifier_tap() {
    let mut m = DoubleTapManager::new();
    m.process_flags_changed(false, false, true, false);
    m.process_flags_changed(false, false, false, false);
    m.reset();
    assert_eq!(m.process_flags_changed(false, false, true, false), None);
    assert_eq!(m.process_flags_changed(false, false, false, false), None);
    assert_eq!(m.process_flags_changed(false, false, true, false), None);
    assert_eq!(m.process_flags_changed(false, false, false, false), Some(DoubleTapKey::Control));
}

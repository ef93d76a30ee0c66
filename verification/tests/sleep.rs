use tick_bridge::bridge::RuntimeBridge;
use tick_bridge::clock::wrap_add;
use tick_bridge::sleep::{elapsed_ticks, sleep_done};

#[test]
fn sleep_three_updates_resumes_only_after_third_tick() {
    let mut bridge: RuntimeBridge<u32> = RuntimeBridge::new();
    let start = bridge.current_tick();
    let updates_to_sleep: usize = 3;

    bridge.tick();
    assert!(!sleep_done(start, updates_to_sleep, bridge.current_tick()));
    bridge.tick();
    assert!(!sleep_done(start, updates_to_sleep, bridge.current_tick()));
    bridge.tick();
    assert!(sleep_done(start, updates_to_sleep, bridge.current_tick()));
}

#[test]
fn sleep_zero_updates_is_satisfied_at_once() {
    assert!(sleep_done(5, 0, 5));
}

#[test]
fn sleep_stays_done_on_later_ticks() {
    assert!(sleep_done(5, 2, 7));
    assert!(sleep_done(5, 2, 8));
    assert!(sleep_done(5, 2, 100));
}

#[test]
fn elapsed_counts_ticks_without_wraparound() {
    assert_eq!(elapsed_ticks(7, 10), 3);
    assert_eq!(elapsed_ticks(7, 7), 0);
}

#[test]
fn elapsed_counts_ticks_across_wraparound() {
    assert_eq!(elapsed_ticks(usize::MAX, 0), 1);
    assert_eq!(elapsed_ticks(usize::MAX - 1, 1), 3);
}

#[test]
fn sleep_target_wraps_and_still_wakes_at_it() {
    let start = usize::MAX - 1;
    let updates_to_sleep: usize = 3;
    let target = wrap_add(start, updates_to_sleep);
    assert_eq!(target, 1);

    assert!(!sleep_done(start, updates_to_sleep, usize::MAX));
    assert!(!sleep_done(start, updates_to_sleep, 0));
    assert!(sleep_done(start, updates_to_sleep, target));
}

#[test]
fn wrap_add_adds_and_wraps() {
    assert_eq!(wrap_add(2, 3), 5);
    assert_eq!(wrap_add(usize::MAX, 1), 0);
    assert_eq!(wrap_add(usize::MAX, 0), usize::MAX);
    assert_eq!(wrap_add(usize::MAX - 1, 4), 2);
}

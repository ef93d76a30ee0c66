use tick_bridge::bridge::RuntimeBridge;
use tick_bridge::queue::QueueClosed;

#[test]
fn fresh_bridge_starts_at_tick_zero() {
    let bridge: RuntimeBridge<u32> = RuntimeBridge::new();
    assert_eq!(bridge.current_tick(), 0);
}

#[test]
fn current_tick_counts_completed_ticks() {
    let mut bridge: RuntimeBridge<u32> = RuntimeBridge::new();
    for expected in 1..=5usize {
        let out = bridge.tick();
        assert_eq!(out.current_tick, expected);
        assert_eq!(bridge.current_tick(), expected);
    }
}

#[test]
fn tick_with_empty_queue_increments_and_runs_nothing() {
    let mut bridge: RuntimeBridge<u32> = RuntimeBridge::new();
    let out = bridge.tick();
    assert_eq!(out.current_tick, 1);
    assert!(out.callbacks.is_empty());
    let out = bridge.tick();
    assert_eq!(out.current_tick, 2);
    assert!(out.callbacks.is_empty());
}

#[test]
fn callback_observes_execution_tick_not_submission_tick() {
    let mut bridge: RuntimeBridge<&'static str> = RuntimeBridge::new();
    let submitted_at = bridge.current_tick();
    assert_eq!(submitted_at, 0);
    bridge.submit("probe").unwrap();
    let out = bridge.tick();
    assert_eq!(out.current_tick, 1);
    assert_eq!(out.callbacks, vec!["probe"]);
}

#[test]
fn callback_submitted_early_still_sees_late_execution_tick() {
    let mut bridge: RuntimeBridge<u32> = RuntimeBridge::new();
    bridge.tick();
    bridge.tick();
    bridge.submit(9).unwrap();
    bridge.tick();
    let out = bridge.tick();
    assert!(out.callbacks.is_empty());
    bridge.submit(11).unwrap();
    let out = bridge.tick();
    assert_eq!(out.current_tick, 5);
    assert_eq!(out.callbacks, vec![11]);
}

#[test]
fn callbacks_run_in_submission_order_across_tasks() {
    let mut bridge: RuntimeBridge<String> = RuntimeBridge::new();
    bridge.submit(String::from("A")).unwrap();
    bridge.submit(String::from("B")).unwrap();
    let out = bridge.tick();
    let mut log: Vec<String> = Vec::new();
    for entry in out.callbacks {
        log.push(entry);
    }
    assert_eq!(log, vec![String::from("A"), String::from("B")]);
}

#[test]
fn drain_takes_everything_queued_before_it() {
    let mut bridge: RuntimeBridge<u32> = RuntimeBridge::new();
    bridge.submit(1).unwrap();
    bridge.submit(2).unwrap();
    bridge.submit(3).unwrap();
    let out = bridge.tick();
    assert_eq!(out.callbacks, vec![1, 2, 3]);
    let out = bridge.tick();
    assert!(out.callbacks.is_empty());
}

#[test]
fn submit_after_close_reports_queue_closed() {
    let mut bridge: RuntimeBridge<u32> = RuntimeBridge::new();
    bridge.submit(1).unwrap();
    bridge.close();
    assert_eq!(bridge.submit(2), Err(QueueClosed));
    let out = bridge.tick();
    assert_eq!(out.callbacks, vec![1]);
}

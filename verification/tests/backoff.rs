use background_process_manager::crash_handler::{CrashHandler, RunMode};

#[test]
fn test_backoff_calculation() {
    let mut handler = CrashHandler::new(120, 1, 300);

    // First crash in release mode: 1 second (1 * 1.5^0 = 1)
    handler.crash_count = 1;
    assert_eq!(handler.calculate_backoff(), 1);

    // Second crash: 1.5 seconds (1 * 1.5^1 = 1.5 -> 1 as u64)
    handler.crash_count = 2;
    assert_eq!(handler.calculate_backoff(), 1);

    // Third crash: 2.25 seconds (1 * 1.5^2 = 2.25 -> 2 as u64)
    handler.crash_count = 3;
    assert_eq!(handler.calculate_backoff(), 2);

    // Fourth crash: 3.375 -> 3 seconds
    handler.crash_count = 4;
    assert_eq!(handler.calculate_backoff(), 3);

    // Max backoff
    handler.crash_count = 20;
    assert_eq!(handler.calculate_backoff(), 300); // capped at max
}

#[test]
fn test_reset() {
    let mut handler = CrashHandler::new(120, 1, 300);

    handler.crash_count = 2;
    assert_eq!(handler.get_crash_count(), 2);

    handler.reset_crash_count();
    assert_eq!(handler.get_crash_count(), 0);
}

#[test]
fn release_backoff_curve() {
    let mut handler = CrashHandler::new(120, 1, 300);
    let mut delays = Vec::new();
    for _ in 0..6 {
        delays.push(handler.delay_before_restart(RunMode::Release));
    }
    assert_eq!(delays, vec![1, 1, 2, 3, 5, 7]);
}

#[test]
fn dev_first_crash_wait() {
    let mut handler = CrashHandler::new(120, 1, 300);
    assert_eq!(handler.delay_before_restart(RunMode::Dev), 120);
    assert_eq!(handler.delay_before_restart(RunMode::Dev), 1);
}

#[test]
fn backoff_saturates_at_max() {
    let mut handler = CrashHandler::new(120, 7, 300);
    handler.crash_count = 200;
    assert_eq!(handler.calculate_backoff(), 300);
    handler.crash_count = 11;
    // 7 * 1.5^10 = 403.6... -> capped
    assert_eq!(handler.calculate_backoff(), 300);
    handler.crash_count = 10;
    // 7 * 1.5^9 = 269.09 -> 269
    assert_eq!(handler.calculate_backoff(), 269);
}

#[test]
fn backoff_with_zero_initial_is_zero() {
    let mut handler = CrashHandler::new(120, 0, 300);
    handler.crash_count = 5;
    assert_eq!(handler.calculate_backoff(), 0);
}

use background_process_manager::clock::now_unix_seconds;
use background_process_manager::crash_handler::RunMode;
use background_process_manager::mode::ModeManager;

#[test]
fn test_mode_manager() {
    let mut manager = ModeManager::new(1); // 1 hour timeout

    // Should start in release mode (designed for system boot)
    assert!(matches!(manager.get_mode(), RunMode::Release));

    // Switch to dev mode
    manager.switch_to_dev();
    assert!(matches!(manager.get_mode(), RunMode::Dev));

    // Initially should not need to switch back to release
    assert!(!manager.should_switch_to_release());

    // Simulate time passing by manually setting last_tool_call to the past
    manager.last_tool_call = now_unix_seconds() - 2 * 3600;

    // Now should switch back to release
    assert!(manager.should_switch_to_release());

    manager.switch_to_release();
    assert!(matches!(manager.get_mode(), RunMode::Release));
}

#[test]
fn test_tool_call_recording() {
    let mut manager = ModeManager::new(1);

    // Start in release mode, switch to dev
    manager.switch_to_dev();

    // Record a tool call
    manager.record_tool_call();

    // Should have time until release mode (close to 1 hour)
    let time_remaining = manager.get_time_until_release_mode();
    assert!(time_remaining.is_some());
    // Check we have at least 59 minutes remaining
    assert!(time_remaining.unwrap() / 60 >= 59);
}

#[test]
fn flip_condition_is_exact_at_the_boundary() {
    let mut manager = ModeManager::new(3);
    manager.switch_to_dev();
    manager.record_tool_call_at(10_000);

    // Exactly the window is not yet over the window.
    assert!(!manager.should_switch_to_release_at(10_000 + 3 * 3600));
    // One second past the window flips.
    assert!(manager.should_switch_to_release_at(10_000 + 3 * 3600 + 1));
}

#[test]
fn release_mode_never_asks_to_flip() {
    let manager = ModeManager::new(3);
    assert!(!manager.should_switch_to_release_at(i64::MAX));
    assert!(manager.get_time_until_release_mode_at(0).is_none());
}

#[test]
fn time_until_release_clamps_at_zero() {
    let mut manager = ModeManager::new(1);
    manager.switch_to_dev();
    manager.record_tool_call_at(0);
    assert_eq!(manager.get_time_until_release_mode_at(3600), Some(0));
    assert_eq!(manager.get_time_until_release_mode_at(10 * 3600), Some(0));
    assert_eq!(manager.get_time_until_release_mode_at(3599), Some(1));
    assert_eq!(manager.get_time_until_release_mode_at(0), Some(3600));
}

#[test]
fn clock_reads_a_real_time() {
    // Seconds since the epoch on any machine this runs on: after 2020.
    assert!(now_unix_seconds() > 1_600_000_000);
}

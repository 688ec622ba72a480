use block_template::{backoff_delay, BACKOFF_BASE, MAX_RPC_FAILURES};

#[test]
fn policy_constants() {
    assert_eq!(BACKOFF_BASE, 2);
    assert_eq!(MAX_RPC_FAILURES, 20);
}

#[test]
fn delay_after_first_failure_is_two_seconds() {
    assert_eq!(backoff_delay(1), Some(2));
}

#[test]
fn delay_doubles_with_every_failure() {
    let mut expected: u64 = 2;
    for failures in 1..=20u32 {
        assert_eq!(backoff_delay(failures), Some(expected));
        expected *= 2;
    }
}

#[test]
fn delay_is_base_to_the_power_of_failures() {
    for failures in 1..=20u32 {
        assert_eq!(backoff_delay(failures), Some(BACKOFF_BASE.pow(failures)));
    }
}

#[test]
fn selected_delays() {
    assert_eq!(backoff_delay(0), Some(1));
    assert_eq!(backoff_delay(2), Some(4));
    assert_eq!(backoff_delay(3), Some(8));
    assert_eq!(backoff_delay(10), Some(1024));
    assert_eq!(backoff_delay(16), Some(65_536));
    assert_eq!(backoff_delay(20), Some(1_048_576));
}

#[test]
fn no_delay_beyond_the_budget() {
    assert_eq!(backoff_delay(21), None);
    assert_eq!(backoff_delay(22), None);
    assert_eq!(backoff_delay(64), None);
    assert_eq!(backoff_delay(u32::MAX), None);
}

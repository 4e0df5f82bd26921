use streamline_wasm_sdk::{CircuitBreaker, CircuitState};

// Times are in milliseconds on the caller's clock; the breakers below start at 0.

#[test]
fn test_initial_state_is_closed() {
    let mut cb = CircuitBreaker::new(5, 2, 30000, 0);
    assert_eq!(cb.state(0), CircuitState::Closed);
}

#[test]
fn test_allow_when_closed() {
    let mut cb = CircuitBreaker::new(5, 2, 30000, 0);
    assert!(cb.allow(0));
}

#[test]
fn test_opens_after_threshold() {
    let mut cb = CircuitBreaker::new(3, 2, 30000, 0);
    for _ in 0..3 {
        cb.record_failure(10);
    }
    assert_eq!(cb.state(10), CircuitState::Open);
    assert!(!cb.allow(10));
}

#[test]
fn test_success_resets_failure_count() {
    let mut cb = CircuitBreaker::new(3, 2, 30000, 0);
    cb.record_failure(1);
    cb.record_failure(2);
    cb.record_success(3);
    assert_eq!(cb.failure_count(), 0);
    assert_eq!(cb.state(3), CircuitState::Closed);
}

#[test]
fn test_half_open_to_closed() {
    let mut cb = CircuitBreaker::new(3, 2, 1000, 0);
    for _ in 0..3 {
        cb.record_failure(5000);
    }
    assert_eq!(cb.state(5000), CircuitState::Open);
    // 2000 ms later the timeout has elapsed.
    assert!(cb.allow(7000));
    assert_eq!(cb.state(7000), CircuitState::HalfOpen);
    cb.record_success(7001);
    cb.record_success(7002);
    assert_eq!(cb.state(7002), CircuitState::Closed);
}

#[test]
fn test_half_open_failure_reopens() {
    let mut cb = CircuitBreaker::new(3, 2, 1000, 0);
    for _ in 0..3 {
        cb.record_failure(5000);
    }
    assert!(cb.allow(7000));
    assert_eq!(cb.state(7000), CircuitState::HalfOpen);
    cb.record_failure(7001);
    assert_eq!(cb.state(7001), CircuitState::Open);
}

#[test]
fn test_reset() {
    let mut cb = CircuitBreaker::new(3, 2, 30000, 0);
    for _ in 0..3 {
        cb.record_failure(1);
    }
    assert_eq!(cb.state(1), CircuitState::Open);
    cb.reset(2);
    assert_eq!(cb.state(2), CircuitState::Closed);
    assert_eq!(cb.failure_count(), 0);
}

#[test]
fn test_default_thresholds_on_zero() {
    let cb = CircuitBreaker::new(0, 0, 0, 0);
    assert_eq!(cb.failure_threshold(), 5);
    assert_eq!(cb.success_threshold(), 2);
    assert_eq!(cb.open_timeout_ms(), 30_000);
}

#[test]
fn test_half_open_max_requests() {
    let mut cb = CircuitBreaker::new(1, 2, 1000, 0);
    cb.record_failure(5000);
    assert!(cb.allow(7000));
    assert!(cb.allow(7000));
    assert!(cb.allow(7000));
    assert!(!cb.allow(7000));
}

#[test]
fn test_state_getter_auto_transitions_open_to_half_open() {
    let mut cb = CircuitBreaker::new(2, 1, 1000, 0);
    cb.record_failure(5000);
    cb.record_failure(5000);
    assert_eq!(cb.state(5000), CircuitState::Open);
    assert_eq!(cb.state(7000), CircuitState::HalfOpen);
}

#[test]
fn test_state_getter_stays_open_before_timeout() {
    let mut cb = CircuitBreaker::new(2, 1, 60_000, 0);
    cb.record_failure(5000);
    cb.record_failure(5000);
    assert_eq!(cb.state(5001), CircuitState::Open);
}

#[test]
fn test_success_count_getter() {
    let mut cb = CircuitBreaker::new(2, 3, 1000, 0);
    assert_eq!(cb.success_count(), 0);
    cb.record_failure(5000);
    cb.record_failure(5000);
    assert!(cb.allow(7000));
    cb.record_success(7001);
    assert_eq!(cb.success_count(), 1);
    cb.record_success(7002);
    assert_eq!(cb.success_count(), 2);
}

#[test]
fn test_failure_count_getter() {
    let mut cb = CircuitBreaker::new(5, 2, 30000, 0);
    assert_eq!(cb.failure_count(), 0);
    cb.record_failure(1);
    assert_eq!(cb.failure_count(), 1);
    cb.record_failure(2);
    assert_eq!(cb.failure_count(), 2);
}

#[test]
fn test_record_success_in_open_state_is_noop() {
    let mut cb = CircuitBreaker::new(2, 1, 60_000, 0);
    cb.record_failure(1);
    cb.record_failure(2);
    assert_eq!(cb.state(2), CircuitState::Open);
    cb.record_success(3);
    assert_eq!(cb.state(3), CircuitState::Open);
}

#[test]
fn test_record_failure_in_open_state_is_noop() {
    let mut cb = CircuitBreaker::new(2, 1, 60_000, 0);
    cb.record_failure(1);
    cb.record_failure(2);
    assert_eq!(cb.state(2), CircuitState::Open);
    cb.record_failure(3);
    assert_eq!(cb.state(3), CircuitState::Open);
}

#[test]
fn test_transition_idempotent_same_state() {
    let mut cb = CircuitBreaker::new(5, 2, 30000, 0);
    assert_eq!(cb.state(0), CircuitState::Closed);
    cb.reset(1);
    assert_eq!(cb.state(1), CircuitState::Closed);
}

#[test]
fn test_counters_reset_on_transition() {
    let mut cb = CircuitBreaker::new(3, 2, 1000, 0);
    cb.record_failure(1);
    cb.record_failure(2);
    assert_eq!(cb.failure_count(), 2);
    cb.record_failure(3);
    assert_eq!(cb.failure_count(), 0);
    assert_eq!(cb.success_count(), 0);
}

#[test]
fn test_full_cycle_closed_open_halfopen_closed() {
    let mut cb = CircuitBreaker::new(2, 2, 1000, 0);
    cb.record_failure(5000);
    cb.record_failure(5000);
    assert_eq!(cb.state(5000), CircuitState::Open);
    assert!(cb.allow(7000));
    assert_eq!(cb.state(7000), CircuitState::HalfOpen);
    cb.record_success(7001);
    assert_eq!(cb.state(7001), CircuitState::HalfOpen);
    cb.record_success(7002);
    assert_eq!(cb.state(7002), CircuitState::Closed);
    assert!(cb.allow(7003));
    assert_eq!(cb.failure_count(), 0);
}

#[test]
fn test_half_open_failure_then_full_recovery() {
    let mut cb = CircuitBreaker::new(2, 1, 1000, 0);
    cb.record_failure(5000);
    cb.record_failure(5000);
    assert!(cb.allow(7000));
    cb.record_failure(7001);
    assert!(cb.allow(9001));
    cb.record_success(9002);
    assert_eq!(cb.state(9002), CircuitState::Closed);
}

#[test]
fn test_single_failure_threshold() {
    let mut cb = CircuitBreaker::new(1, 1, 1000, 0);
    cb.record_failure(1);
    assert_eq!(cb.state(1), CircuitState::Open);
}

#[test]
fn test_circuit_state_debug_format() {
    assert_eq!(format!("{:?}", CircuitState::Closed), "Closed");
    assert_eq!(format!("{:?}", CircuitState::Open), "Open");
    assert_eq!(format!("{:?}", CircuitState::HalfOpen), "HalfOpen");
}

#[test]
#[allow(clippy::clone_on_copy)]
fn test_circuit_state_clone_copy() {
    let state = CircuitState::HalfOpen;
    let copied = state;
    let cloned = state.clone();
    assert_eq!(state, copied);
    assert_eq!(state, cloned);
}

#[test]
fn breaker_open_waits_exactly_the_timeout() {
    let mut cb = CircuitBreaker::new(1, 1, 1000, 0);
    cb.record_failure(5000);
    assert!(!cb.allow(5999));
    assert_eq!(cb.state(5999), CircuitState::Open);
    assert!(cb.allow(6000));
    assert_eq!(cb.state(6000), CircuitState::HalfOpen);
}

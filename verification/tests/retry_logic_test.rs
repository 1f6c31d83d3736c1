/// Tests of the retry policy: exponential backoff from the configured
/// delay, and at most `max_retries` retries of a retryable failure.
use russh_sftp::client::error::Error;
use russh_sftp::client::rawsession::{backoff_delay_ms, RetryDecision, SessionState};

fn create_test_session() -> SessionState {
    SessionState::new()
}

#[test]
fn test_retry_configuration_defaults() {
    let mut session = create_test_session();

    // Defaults: 3 retries, 100ms initial delay
    assert_eq!(session.retry_decision(0, &Error::Timeout), RetryDecision::RetryAfter(100));
    assert_eq!(session.retry_decision(3, &Error::Timeout), RetryDecision::GiveUp);

    session.set_max_retries(5);
    session.set_retry_delay(200);
    assert_eq!(session.retry_decision(4, &Error::Timeout), RetryDecision::RetryAfter(3200));

    session.set_max_retries(0);
    session.set_retry_delay(50);
    assert_eq!(session.retry_decision(0, &Error::Timeout), RetryDecision::GiveUp);
}

#[test]
fn test_exponential_backoff_timing() {
    // 100ms, 200ms, 400ms for 3 retries
    let mut session = create_test_session();
    session.set_max_retries(3);
    session.set_retry_delay(100);

    let expected_delays = [100u64, 200, 400];

    for (attempt, expected_ms) in expected_delays.iter().enumerate() {
        let calculated_delay = session.retry_delay_for(attempt as u32);
        assert_eq!(
            calculated_delay,
            *expected_ms,
            "Attempt {}: Expected {}ms, calculated {}ms",
            attempt + 1,
            expected_ms,
            calculated_delay
        );
    }
}

#[test]
fn test_retry_delay_calculation() {
    let test_cases = vec![
        (50, vec![50, 100, 200, 400]),
        (100, vec![100, 200, 400, 800]),
        (200, vec![200, 400, 800, 1600]),
    ];

    for (initial_delay, expected_sequence) in test_cases {
        for (attempt, expected) in expected_sequence.iter().enumerate() {
            let calculated = backoff_delay_ms(initial_delay, attempt as u32);
            assert_eq!(
                calculated,
                *expected,
                "Initial delay {}ms, attempt {}: expected {}ms, got {}ms",
                initial_delay,
                attempt + 1,
                expected,
                calculated
            );
        }
    }
}

#[test]
fn test_max_retries_zero_disables_retry() {
    let mut session = create_test_session();
    session.set_max_retries(0);
    assert_eq!(session.retry_decision(0, &Error::Timeout), RetryDecision::GiveUp);
}

#[test]
fn test_retry_delay_bounds() {
    let mut session = create_test_session();
    session.set_retry_delay(1);
    assert_eq!(session.retry_delay_for(0), 1);
    session.set_retry_delay(5000);
    assert_eq!(session.retry_delay_for(0), 5000);
    session.set_retry_delay(0);
    assert_eq!(session.retry_delay_for(2), 0);
}

#[test]
fn test_multiple_sessions_independent_retry_config() {
    let mut session1 = create_test_session();
    let mut session2 = create_test_session();

    session1.set_max_retries(3);
    session1.set_retry_delay(100);

    session2.set_max_retries(5);
    session2.set_retry_delay(200);

    assert_eq!(session1.retry_delay_for(1), 200);
    assert_eq!(session2.retry_delay_for(1), 400);
    assert_eq!(session1.retry_decision(3, &Error::Timeout), RetryDecision::GiveUp);
    assert_eq!(session2.retry_decision(3, &Error::Timeout), RetryDecision::RetryAfter(1600));
}

#[test]
fn test_retry_counter_behavior() {
    // With max_retries = 3 the attempts are 0, 1, 2, 3 (4 in total)
    let max_retries = 3u32;
    let mut session = create_test_session();
    session.set_max_retries(max_retries);
    let mut attempts = 0u32;

    for attempt in 0..=max_retries {
        attempts += 1;

        let should_retry = session.retry_decision(attempt, &Error::Timeout) != RetryDecision::GiveUp;

        if attempt == max_retries {
            assert!(!should_retry, "Should not retry after max_retries reached");
        } else {
            assert!(should_retry, "Should retry when attempt < max_retries");
        }
    }

    assert_eq!(
        attempts,
        max_retries + 1,
        "Should have exactly max_retries + 1 total attempts"
    );
}

#[test]
fn test_exponential_backoff_doesnt_overflow() {
    let initial_delay = 100u64;
    let max_safe_attempts = 20;

    for attempt in 0..max_safe_attempts {
        let multiplier = 1u64 << attempt;
        let delay = initial_delay.checked_mul(multiplier);

        assert!(
            delay.is_some(),
            "Overflow detected at attempt {} (2^{})",
            attempt,
            attempt
        );
        assert_eq!(backoff_delay_ms(initial_delay, attempt), delay.unwrap());
    }
}

#[test]
fn test_session_timeout_configuration() {
    let mut session = create_test_session();
    assert_eq!(session.timeout(), 10);
    session.set_timeout(5);
    assert_eq!(session.timeout(), 5);
    session.set_timeout(30);
    session.set_timeout(1);
    assert_eq!(session.timeout(), 1);
}

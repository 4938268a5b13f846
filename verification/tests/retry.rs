use album_notifier::policy::RetryPolicy;
use album_notifier::retry::{execute, replay, Action, RetryNotice, RetryState, Status};
use std::cell::Cell;
use std::cell::RefCell;

fn no_wait(_notice: RetryNotice, _failure: &String) {}

#[test]
fn standard_policy_is_ten_retries_a_minute_apart() {
    let policy = RetryPolicy::standard();
    assert_eq!(policy.max_retries, 10);
    assert_eq!(policy.delay_secs, 60);
    assert_eq!(policy, RetryPolicy::new(10, 60));
}

#[test]
fn a_fresh_call_has_attempted_nothing() {
    let state = RetryState::begin(RetryPolicy::new(3, 5));
    assert_eq!(state.attempts(), 0);
    assert_eq!(state.pauses(), 0);
    assert_eq!(state.status(), Status::Running);
    assert_eq!(state.total_delay_secs(), 0);
    assert_eq!(state.policy(), RetryPolicy::new(3, 5));
}

#[test]
fn record_success_returns_at_once() {
    let mut state = RetryState::begin(RetryPolicy::new(3, 5));
    assert_eq!(state.record(true), Action::Return);
    assert_eq!(state.attempts(), 1);
    assert_eq!(state.pauses(), 0);
    assert_eq!(state.status(), Status::Succeeded);
}

#[test]
fn record_failure_asks_for_a_wait_with_the_notice() {
    let mut state = RetryState::begin(RetryPolicy::new(2, 7));
    assert_eq!(
        state.record(false),
        Action::Wait(RetryNotice { retry: 1, limit: 2, delay_secs: 7 })
    );
    assert_eq!(state.status(), Status::Running);
    assert_eq!(
        state.record(false),
        Action::Wait(RetryNotice { retry: 2, limit: 2, delay_secs: 7 })
    );
    assert_eq!(state.record(false), Action::Propagate);
    assert_eq!(state.status(), Status::Exhausted);
    assert_eq!(state.attempts(), 3);
    assert_eq!(state.pauses(), 2);
    assert_eq!(state.total_delay_secs(), 14);
}

#[test]
fn a_settled_call_records_nothing_more() {
    let mut state = RetryState::begin(RetryPolicy::new(1, 1));
    state.record(true);
    assert_eq!(state.record(false), Action::Return);
    assert_eq!(state.record(true), Action::Return);
    assert_eq!(state.attempts(), 1);
    let mut spent = RetryState::begin(RetryPolicy::new(0, 1));
    spent.record(false);
    assert_eq!(spent.record(true), Action::Propagate);
    assert_eq!(spent.attempts(), 1);
    assert_eq!(spent.status(), Status::Exhausted);
}

#[test]
fn replay_of_nothing_is_a_fresh_call() {
    let state = replay(RetryPolicy::new(4, 9), &[]);
    assert_eq!(state.attempts(), 0);
    assert_eq!(state.status(), Status::Running);
}

#[test]
fn always_failing_makes_limit_plus_one_attempts() {
    for limit in [0u8, 1, 2, 10, 255] {
        let policy = RetryPolicy::new(limit, 60);
        let outcomes = vec![false; limit as usize + 5];
        let state = replay(policy, &outcomes);
        assert_eq!(state.status(), Status::Exhausted);
        assert_eq!(state.attempts(), limit as u16 + 1);
        assert_eq!(state.pauses(), limit);
        assert_eq!(state.total_delay_secs(), limit as u128 * 60);
    }
}

#[test]
fn success_after_failures_stops_with_no_further_delay() {
    let policy = RetryPolicy::new(10, 60);
    for failures in 0usize..=10 {
        let mut outcomes = vec![false; failures];
        outcomes.push(true);
        outcomes.push(false);
        outcomes.push(false);
        let state = replay(policy, &outcomes);
        assert_eq!(state.status(), Status::Succeeded);
        assert_eq!(state.attempts() as usize, failures + 1);
        assert_eq!(state.pauses() as usize, failures);
        assert_eq!(state.total_delay_secs(), failures as u128 * 60);
    }
}

#[test]
fn no_retries_means_one_attempt_and_no_delay() {
    let state = replay(RetryPolicy::new(0, 60), &[false, true]);
    assert_eq!(state.status(), Status::Exhausted);
    assert_eq!(state.attempts(), 1);
    assert_eq!(state.pauses(), 0);
    assert_eq!(state.total_delay_secs(), 0);
}

#[test]
fn total_delay_does_not_overflow_at_the_extremes() {
    let policy = RetryPolicy::new(255, u64::MAX);
    let state = replay(policy, &vec![false; 300]);
    assert_eq!(state.attempts(), 256);
    assert_eq!(state.total_delay_secs(), 255u128 * u64::MAX as u128);
}

#[test]
fn notice_is_described_as_the_waiting_line() {
    let notice = RetryNotice { retry: 1, limit: 10, delay_secs: 60 };
    assert_eq!(notice.describe(), "Waiting 60 seconds and retrying... (Retry 1/10)");
    let other = RetryNotice { retry: 255, limit: 255, delay_secs: 0 };
    assert_eq!(other.describe(), "Waiting 0 seconds and retrying... (Retry 255/255)");
}

#[test]
fn execute_returns_the_first_success_without_waiting() {
    let calls = Cell::new(0u32);
    let waits = Cell::new(0u32);
    let finished = execute(
        RetryPolicy::new(3, 60),
        || -> Result<u32, String> {
            calls.set(calls.get() + 1);
            Ok(41 + calls.get())
        },
        |_notice: RetryNotice, _failure: &String| waits.set(waits.get() + 1),
    );
    assert_eq!(finished.outcome, Ok(42));
    assert_eq!(calls.get(), 1);
    assert_eq!(waits.get(), 0);
    assert_eq!(finished.state.attempts(), 1);
    assert_eq!(finished.state.status(), Status::Succeeded);
    assert_eq!(finished.state.total_delay_secs(), 0);
}

#[test]
fn execute_always_failing_attempts_limit_plus_one_times() {
    for limit in [0u8, 1, 3, 10] {
        let calls = Cell::new(0u32);
        let notices = RefCell::new(Vec::new());
        let finished = execute(
            RetryPolicy::new(limit, 60),
            || -> Result<(), String> {
                calls.set(calls.get() + 1);
                Err(format!("failure {}", calls.get()))
            },
            |notice: RetryNotice, failure: &String| notices.borrow_mut().push((notice, failure.clone())),
        );
        assert_eq!(calls.get(), limit as u32 + 1);
        assert_eq!(finished.outcome, Err(format!("failure {}", limit as u32 + 1)));
        assert_eq!(finished.state.status(), Status::Exhausted);
        assert_eq!(finished.state.attempts(), limit as u16 + 1);
        assert_eq!(finished.state.pauses(), limit);
        assert_eq!(finished.state.total_delay_secs(), limit as u128 * 60);
        let notices = notices.into_inner();
        assert_eq!(notices.len(), limit as usize);
        for (index, (notice, failure)) in notices.iter().enumerate() {
            assert_eq!(*notice, RetryNotice { retry: index as u8 + 1, limit, delay_secs: 60 });
            assert_eq!(*failure, format!("failure {}", index + 1));
        }
    }
}

#[test]
fn execute_succeeds_after_failures_within_the_limit() {
    for failures in 0u32..=4 {
        let calls = Cell::new(0u32);
        let waits = Cell::new(0u32);
        let finished = execute(
            RetryPolicy::new(4, 30),
            || -> Result<&'static str, String> {
                calls.set(calls.get() + 1);
                if calls.get() <= failures {
                    Err(String::from("down"))
                } else {
                    Ok("up")
                }
            },
            |_notice: RetryNotice, _failure: &String| waits.set(waits.get() + 1),
        );
        assert_eq!(finished.outcome, Ok("up"));
        assert_eq!(calls.get(), failures + 1);
        assert_eq!(waits.get(), failures);
        assert_eq!(finished.state.attempts() as u32, failures + 1);
        assert_eq!(finished.state.total_delay_secs(), failures as u128 * 30);
    }
}

#[test]
fn execute_without_retries_propagates_at_once() {
    let calls = Cell::new(0u32);
    let finished = execute(
        RetryPolicy::new(0, 60),
        || -> Result<(), String> {
            calls.set(calls.get() + 1);
            Err(String::from("refused"))
        },
        no_wait,
    );
    assert_eq!(finished.outcome, Err(String::from("refused")));
    assert_eq!(calls.get(), 1);
    assert_eq!(finished.state.pauses(), 0);
    assert_eq!(finished.state.total_delay_secs(), 0);
}

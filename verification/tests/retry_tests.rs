use schedules_direct::retry::{
    run, ErrorClass, PolicyError, Retrier, RetryDecision, RetryPolicy, DEFAULT_MULTIPLIER_PERMILLE,
};
use std::cell::{Cell, RefCell};

fn policy(initial: u64, permille: u64, cap: u64, limit: u64) -> RetryPolicy {
    RetryPolicy::new(initial, permille, cap, limit).unwrap()
}

#[test]
fn default_policy_matches_backoff_defaults() {
    let p = RetryPolicy::default();
    assert_eq!(p.initial_interval(), 500);
    assert_eq!(p.multiplier_permille(), 1500);
    assert_eq!(p.max_interval(), 60_000);
    assert_eq!(p.max_elapsed_time(), 900_000);
    assert_eq!(DEFAULT_MULTIPLIER_PERMILLE, 1500);
}

#[test]
fn policy_keeps_the_numbers_it_was_made_with() {
    let p = policy(7, 2000, 90, 1234);
    assert_eq!(p.initial_interval(), 7);
    assert_eq!(p.multiplier_permille(), 2000);
    assert_eq!(p.max_interval(), 90);
    assert_eq!(p.max_elapsed_time(), 1234);
}

#[test]
fn policy_rejects_zero_initial_interval() {
    assert_eq!(RetryPolicy::new(0, 1500, 10, 10).err(), Some(PolicyError::ZeroInitialInterval));
    assert_eq!(RetryPolicy::new(0, 10, 0, 0).err(), Some(PolicyError::ZeroInitialInterval));
}

#[test]
fn policy_rejects_shrinking_multiplier() {
    assert_eq!(RetryPolicy::new(5, 999, 10, 10).err(), Some(PolicyError::ShrinkingMultiplier));
    assert_eq!(RetryPolicy::new(5, 0, 1, 10).err(), Some(PolicyError::ShrinkingMultiplier));
}

#[test]
fn policy_rejects_cap_below_initial_interval() {
    assert_eq!(RetryPolicy::new(5, 1000, 4, 10).err(), Some(PolicyError::CapBelowInitialInterval));
}

#[test]
fn policy_accepts_the_edges() {
    assert!(RetryPolicy::new(1, 1000, 1, 0).is_ok());
    assert!(RetryPolicy::new(5, 1000, 5, 0).is_ok());
    assert!(RetryPolicy::new(u64::MAX, u64::MAX, u64::MAX, u64::MAX).is_ok());
}

#[test]
fn next_interval_multiplies_rounds_down_and_caps() {
    let p = RetryPolicy::default();
    assert_eq!(p.next_interval(500), 750);
    assert_eq!(p.next_interval(1125), 1687);
    assert_eq!(p.next_interval(1687), 2530);
    assert_eq!(p.next_interval(40_000), 60_000);
    assert_eq!(p.next_interval(39_999), 59_998);
    assert_eq!(p.next_interval(60_000), 60_000);
    assert_eq!(p.next_interval(0), 0);
    let same = policy(3, 1000, 10, 100);
    assert_eq!(same.next_interval(3), 3);
    let huge = policy(1, u64::MAX, u64::MAX, 0);
    assert_eq!(huge.next_interval(u64::MAX), u64::MAX);
    assert_eq!(huge.next_interval(1000), u64::MAX);
    assert_eq!(huge.next_interval(999), 18_428_297_329_635_842_063);
}

#[test]
fn default_waits_follow_the_documented_table() {
    let mut r = Retrier::new(RetryPolicy::default());
    let expected = [500u64, 750, 1125, 1687, 2530, 3795, 5692, 8538, 12807, 19210];
    for e in expected.iter() {
        assert_eq!(r.on_failure(ErrorClass::Retryable), RetryDecision::RetryAfter(*e));
    }
    assert_eq!(r.retries(), 10);
    assert_eq!(r.waited(), 56_634);
}

#[test]
fn fresh_retrier_has_granted_nothing() {
    let r = Retrier::new(policy(10, 2000, 100, 1000));
    assert_eq!(r.retries(), 0);
    assert_eq!(r.waited(), 0);
    assert_eq!(r.policy().initial_interval(), 10);
}

#[test]
fn fatal_failure_gives_up_and_changes_nothing() {
    let mut r = Retrier::new(RetryPolicy::default());
    assert_eq!(r.on_failure(ErrorClass::Fatal), RetryDecision::GiveUp);
    assert_eq!(r.retries(), 0);
    assert_eq!(r.waited(), 0);
    assert_eq!(r.on_failure(ErrorClass::Retryable), RetryDecision::RetryAfter(500));
    assert_eq!(r.on_failure(ErrorClass::Fatal), RetryDecision::GiveUp);
    assert_eq!(r.retries(), 1);
    assert_eq!(r.waited(), 500);
}

#[test]
fn retryable_failure_is_not_retried_when_limit_is_below_initial_interval() {
    let mut r = Retrier::new(policy(100, 2000, 1000, 99));
    assert_eq!(r.on_failure(ErrorClass::Retryable), RetryDecision::GiveUp);
    assert_eq!(r.retries(), 0);
}

#[test]
fn retryable_failure_is_retried_when_limit_equals_initial_interval() {
    let mut r = Retrier::new(policy(100, 2000, 1000, 100));
    assert_eq!(r.on_failure(ErrorClass::Retryable), RetryDecision::RetryAfter(100));
    assert_eq!(r.on_failure(ErrorClass::Retryable), RetryDecision::GiveUp);
    assert_eq!(r.on_failure(ErrorClass::Retryable), RetryDecision::GiveUp);
    assert_eq!(r.waited(), 100);
}

#[test]
fn waits_never_shrink_stay_capped_and_sum_within_limit() {
    let p = policy(3, 1700, 250, 5000);
    let mut r = Retrier::new(p);
    let mut last = 0u64;
    let mut sum = 0u64;
    let mut granted = 0u64;
    loop {
        match r.on_failure(ErrorClass::Retryable) {
            RetryDecision::RetryAfter(ms) => {
                assert!(ms >= last);
                assert!(ms <= 250);
                assert!(ms >= 1);
                last = ms;
                sum += ms;
                granted += 1;
                assert!(sum <= 5000);
                assert_eq!(r.waited(), sum);
                assert_eq!(r.retries(), granted);
            }
            RetryDecision::GiveUp => break,
        }
    }
    assert_eq!(last, 250);
    assert!(sum + 250 > 5000);
    // 3, 5, 8, 13, 22, 37, 62, 105, 178, then 250 each
    assert_eq!(sum, 433 + 18 * 250);
    assert_eq!(granted, 9 + 18);
}

#[test]
fn run_retries_until_success() {
    let calls = Cell::new(0u32);
    let sleeps = RefCell::new(Vec::new());
    let report = run(
        || {
            calls.set(calls.get() + 1);
            if calls.get() < 3 { Err(502u16) } else { Ok("decoded") }
        },
        RetryPolicy::default(),
        |_e: &u16| ErrorClass::Retryable,
        |ms| sleeps.borrow_mut().push(ms),
    );
    assert_eq!(report.result, Ok("decoded"));
    assert_eq!(report.retries, 2);
    assert_eq!(calls.get(), 3);
    assert_eq!(*sleeps.borrow(), vec![500, 750]);
    assert_eq!(report.waited, 1250);
    assert_eq!(report.failures, vec![ErrorClass::Retryable, ErrorClass::Retryable]);
}

#[test]
fn run_returns_first_success_without_waiting() {
    let calls = Cell::new(0u32);
    let sleeps = Cell::new(0u32);
    let report = run(
        || -> Result<u8, ()> {
            calls.set(calls.get() + 1);
            Ok(7)
        },
        RetryPolicy::default(),
        |_e: &()| ErrorClass::Retryable,
        |_ms| sleeps.set(sleeps.get() + 1),
    );
    assert_eq!(report.result, Ok(7));
    assert_eq!(report.retries, 0);
    assert_eq!(report.waited, 0);
    assert!(report.failures.is_empty());
    assert_eq!(calls.get(), 1);
    assert_eq!(sleeps.get(), 0);
}

#[test]
fn run_attempts_exactly_once_on_fatal_error() {
    let calls = Cell::new(0u32);
    let sleeps = Cell::new(0u32);
    let report = run(
        || -> Result<(), &'static str> {
            calls.set(calls.get() + 1);
            Err("bad request")
        },
        RetryPolicy::default(),
        |_e: &&'static str| ErrorClass::Fatal,
        |_ms| sleeps.set(sleeps.get() + 1),
    );
    assert_eq!(report.result, Err("bad request"));
    assert_eq!(calls.get(), 1);
    assert_eq!(sleeps.get(), 0);
    assert_eq!(report.retries, 0);
    assert_eq!(report.waited, 0);
    assert_eq!(report.failures, vec![ErrorClass::Fatal]);
}

#[test]
fn run_stops_at_fatal_error_after_retryable_ones() {
    let calls = Cell::new(0u32);
    let sleeps = RefCell::new(Vec::new());
    let report = run(
        || -> Result<(), u16> {
            calls.set(calls.get() + 1);
            if calls.get() < 3 { Err(503) } else { Err(404) }
        },
        policy(10, 3000, 1000, 10_000),
        |e: &u16| if *e >= 500 { ErrorClass::Retryable } else { ErrorClass::Fatal },
        |ms| sleeps.borrow_mut().push(ms),
    );
    assert_eq!(report.result, Err(404));
    assert_eq!(calls.get(), 3);
    assert_eq!(*sleeps.borrow(), vec![10, 30]);
    assert_eq!(report.retries, 2);
    assert_eq!(report.waited, 40);
    assert_eq!(
        report.failures,
        vec![ErrorClass::Retryable, ErrorClass::Retryable, ErrorClass::Fatal]
    );
}

#[test]
fn run_gives_up_when_the_limit_is_reached() {
    let calls = Cell::new(0u32);
    let sleeps = RefCell::new(Vec::new());
    let report = run(
        || -> Result<(), u32> {
            calls.set(calls.get() + 1);
            Err(calls.get())
        },
        policy(100, 2000, 400, 1000),
        |_e: &u32| ErrorClass::Retryable,
        |ms| sleeps.borrow_mut().push(ms),
    );
    // 100 + 200 + 400 = 700; another 400 would pass 1000
    assert_eq!(*sleeps.borrow(), vec![100, 200, 400]);
    assert_eq!(calls.get(), 4);
    assert_eq!(report.result, Err(4));
    assert_eq!(report.retries, 3);
    assert_eq!(report.waited, 700);
    assert_eq!(report.failures, vec![ErrorClass::Retryable; 4]);
}

#[test]
fn run_attempts_once_when_limit_is_below_initial_interval() {
    let calls = Cell::new(0u32);
    let report = run(
        || -> Result<(), ()> {
            calls.set(calls.get() + 1);
            Err(())
        },
        policy(500, 1500, 60_000, 499),
        |_e: &()| ErrorClass::Retryable,
        |_ms| panic!("no wait fits"),
    );
    assert_eq!(calls.get(), 1);
    assert_eq!(report.retries, 0);
    assert_eq!(report.failures, vec![ErrorClass::Retryable]);
}

#[test]
fn run_with_default_policy_ends_within_fifteen_minutes_of_waiting() {
    let calls = Cell::new(0u64);
    let total = Cell::new(0u64);
    let report = run(
        || -> Result<(), ()> {
            calls.set(calls.get() + 1);
            Err(())
        },
        RetryPolicy::default(),
        |_e: &()| ErrorClass::Retryable,
        |ms| {
            assert!(ms <= 60_000);
            total.set(total.get() + ms);
        },
    );
    assert_eq!(report.waited, total.get());
    assert!(report.waited <= 900_000);
    assert!(report.waited + 60_000 > 900_000);
    assert_eq!(calls.get(), report.retries + 1);
    // 12 growing waits (128,671 ms in all), then 12 waits of one minute
    assert_eq!(report.retries, 24);
    assert_eq!(report.waited, 848_671);
}

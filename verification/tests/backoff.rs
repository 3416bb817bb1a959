use codex_longwatch::backoff::{
    AttemptLedger, Real, RetryPolicy, RetryPolicyError, WakeDetector, DAY_NANOS,
};

const SECOND: i128 = 1_000_000_000;
const START: i128 = 1_785_196_800 * SECOND;

fn number(value: f64) -> Real {
    Real { bits: value.to_bits() }
}

#[test]
fn custom_interval_cannot_drop_below_fifteen_seconds() {
    let policy = RetryPolicy {
        base_delay_secs: 14,
        ..RetryPolicy::default()
    };
    assert_eq!(
        policy.validate(),
        Err(RetryPolicyError::IntervalTooShort(14))
    );
    assert_eq!(
        RetryPolicyError::IntervalTooShort(14).message(),
        "重试间隔 14 秒低于 15 秒安全下限"
    );
}

#[test]
fn wake_detector_handles_monotonic_clocks_that_include_suspend_time() {
    let wall = START;
    let monotonic: u128 = 5_000_000_000;
    let mut detector = WakeDetector::new(wall, monotonic);

    assert!(detector.observe(
        wall + 5 * 60 * SECOND,
        monotonic + 5 * 60 * 1_000_000_000
    ));
}

#[test]
fn wake_detector_notices_a_wall_clock_that_ran_ahead() {
    let mut detector = WakeDetector::new(START, 0);
    assert!(!detector.observe(START + 30 * SECOND, 10_000_000_000));
    assert!(detector.observe(START + 61 * SECOND, 20_000_000_000));
    assert!(!detector.observe(START, 30_000_000_000));
}

#[test]
fn default_policy_holds_the_documented_numbers() {
    let policy = RetryPolicy::default();
    assert_eq!(policy.base_delay_secs, 30);
    assert_eq!(policy.multiplier, number(1.7));
    assert_eq!(policy.max_delay_secs, 600);
    assert_eq!(policy.jitter_ratio, number(0.15));
    assert_eq!(policy.max_empty_replies, 5);
    assert_eq!(policy.wake_delay_secs, 60);
    assert_eq!(policy.validate(), Ok(()));
}

#[test]
fn each_policy_problem_is_reported() {
    let base = RetryPolicy::default();
    assert_eq!(
        RetryPolicy { max_delay_secs: 29, ..base }.validate(),
        Err(RetryPolicyError::MaxBelowBase)
    );
    for multiplier in [0.999_999, -2.0, 0.0, f64::NAN, f64::INFINITY] {
        assert_eq!(
            RetryPolicy { multiplier: number(multiplier), ..base }.validate(),
            Err(RetryPolicyError::InvalidMultiplier)
        );
    }
    for jitter in [0.500_001, -0.1, f64::NAN, f64::NEG_INFINITY] {
        assert_eq!(
            RetryPolicy { jitter_ratio: number(jitter), ..base }.validate(),
            Err(RetryPolicyError::InvalidJitter)
        );
    }
    for jitter in [0.0, -0.0, 0.5, f64::MIN_POSITIVE] {
        assert_eq!(RetryPolicy { jitter_ratio: number(jitter), ..base }.validate(), Ok(()));
    }
    assert_eq!(RetryPolicy { multiplier: number(1.0), ..base }.validate(), Ok(()));
    assert_eq!(
        RetryPolicy { wake_delay_secs: 59, ..base }.validate(),
        Err(RetryPolicyError::WakeDelayTooShort)
    );
    assert!(base.equals(&base));
    let odd = RetryPolicy { jitter_ratio: number(f64::NAN), ..base };
    assert!(!odd.equals(&odd));
    assert!(RetryPolicy { jitter_ratio: number(-0.0), ..base }
        .equals(&RetryPolicy { jitter_ratio: number(0.0), ..base }));
}

#[test]
fn delays_have_a_floor() {
    assert_eq!(RetryPolicy::delay_for(3), 15);
    assert_eq!(RetryPolicy::delay_for(47), 47);
    let policy = RetryPolicy { wake_delay_secs: 5, ..RetryPolicy::default() };
    assert_eq!(policy.wake_delay(), 60);
}

#[test]
fn ledger_keeps_the_attempts_of_one_day() {
    let mut ledger = AttemptLedger(vec![START - DAY_NANOS, START - 1, START + 1]);
    ledger.record(START);
    assert_eq!(ledger, AttemptLedger(vec![START - 1, START]));
}

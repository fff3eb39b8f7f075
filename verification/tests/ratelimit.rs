use rust_basics::ratelimit::{nonzero, Limiter, RateLimited};

#[test]
fn allows_burst_then_limits_per_key() {
    let limiter: Limiter<&str> = Limiter::per_second(2);
    assert!(limiter.check(&"alice").is_ok());
    assert!(limiter.check(&"alice").is_ok());
    assert!(
        limiter.check(&"alice").is_err(),
        "3rd within the second is limited"
    );
}

#[test]
fn keys_have_independent_budgets() {
    let limiter: Limiter<u32> = Limiter::per_second(1);
    assert!(limiter.check(&1).is_ok());
    assert!(limiter.check(&1).is_err());
    assert!(
        limiter.check(&2).is_ok(),
        "a different key has its own budget"
    );
}

#[test]
fn zero_rate_is_clamped_to_one() {
    assert_eq!(nonzero(0), 1);
    assert_eq!(nonzero(7), 7);
    let limiter: Limiter<String> = Limiter::per_minute(0);
    assert!(limiter.check(&"k".to_owned()).is_ok());
    assert!(limiter.check(&"k".to_owned()).is_err());
    limiter.retain_recent();
}

#[test]
fn rate_limited_message() {
    assert_eq!(RateLimited.to_string(), "rate limited");
}

#[test]
fn custom_quota_sets_the_burst() {
    let quota = governor::Quota::per_second(std::num::NonZeroU32::new(1).unwrap())
        .allow_burst(std::num::NonZeroU32::new(3).unwrap());
    let limiter: Limiter<u8> = Limiter::with_quota(quota);
    assert!(limiter.check(&0).is_ok());
    assert!(limiter.check(&0).is_ok());
    assert!(limiter.check(&0).is_ok());
    assert!(limiter.check(&0).is_err());
}

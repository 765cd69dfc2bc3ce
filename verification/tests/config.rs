use bb8_redis::config::{has_elapsed, Builder, ConfigError, Configuration, Retry};

fn sample() -> Configuration {
    Builder::new().max_size(4).min_idle(1).retry(2, 100).build().unwrap()
}

#[test]
fn defaults_are_valid() {
    let c = Builder::new().build().unwrap();
    assert_eq!(c.min_idle, 0);
    assert_eq!(c.max_size, 10);
    assert_eq!(c.connection_timeout, 30_000);
    assert_eq!(c.idle_timeout, Some(600_000));
    assert_eq!(c.max_lifetime, Some(1_800_000));
    assert_eq!(c.max_retries, 0);
    assert_eq!(c.retry_backoff, 0);
    assert!(c.is_valid());
}

#[test]
fn zero_max_size_is_rejected() {
    assert_eq!(Builder::new().max_size(0).build(), Err(ConfigError::ZeroMaxSize));
}

#[test]
fn min_idle_above_max_size_is_rejected() {
    assert_eq!(
        Builder::new().max_size(2).min_idle(3).build(),
        Err(ConfigError::MinIdleAboveMaxSize)
    );
}

#[test]
fn min_idle_equal_to_max_size_is_accepted() {
    let c = Builder::new().max_size(2).min_idle(2).build().unwrap();
    assert_eq!(c.min_idle, 2);
    assert_eq!(c.max_size, 2);
}

#[test]
fn zero_max_size_wins_over_min_idle() {
    assert_eq!(Builder::new().max_size(0).min_idle(3).build(), Err(ConfigError::ZeroMaxSize));
}

#[test]
fn setters_change_one_field_each() {
    let c = Builder::new()
        .connection_timeout(5)
        .idle_timeout(None)
        .max_lifetime(Some(7))
        .build()
        .unwrap();
    assert_eq!(c.connection_timeout, 5);
    assert_eq!(c.idle_timeout, None);
    assert_eq!(c.max_lifetime, Some(7));
    assert_eq!(c.max_size, 10);
}

#[test]
fn retry_grows_linearly_until_the_bound() {
    let c = sample();
    assert_eq!(c.retry(0), Retry::Again { attempt: 1, delay: 100 });
    assert_eq!(c.retry(1), Retry::Again { attempt: 2, delay: 200 });
    assert_eq!(c.retry(2), Retry::GiveUp);
    assert_eq!(c.retry(u32::MAX), Retry::GiveUp);
}

#[test]
fn retry_delay_saturates() {
    let c = Builder::new().retry(u32::MAX, u64::MAX).build().unwrap();
    assert_eq!(c.retry(0), Retry::Again { attempt: 1, delay: u64::MAX });
    assert_eq!(c.retry(1), Retry::Again { attempt: 2, delay: u64::MAX });
    assert_eq!(c.retry(u32::MAX - 1), Retry::Again { attempt: u32::MAX, delay: u64::MAX });
}

#[test]
fn without_retries_the_first_failure_gives_up() {
    let c = Builder::new().build().unwrap();
    assert_eq!(c.retry(0), Retry::GiveUp);
}

#[test]
fn deadline_adds_the_timeout_and_saturates() {
    let c = Builder::new().connection_timeout(250).build().unwrap();
    assert_eq!(c.deadline(1_000), 1_250);
    assert_eq!(c.deadline(u64::MAX - 10), u64::MAX);
    assert_eq!(c.deadline(u64::MAX - 250), u64::MAX);
}

#[test]
fn elapsed_needs_a_limit_and_the_full_span() {
    assert!(!has_elapsed(None, 0, u64::MAX));
    assert!(!has_elapsed(Some(10), 100, 109));
    assert!(has_elapsed(Some(10), 100, 110));
    assert!(has_elapsed(Some(10), 100, 111));
    assert!(has_elapsed(Some(0), 100, 100));
}

#[test]
fn elapsed_is_false_when_the_clock_is_behind() {
    assert!(!has_elapsed(Some(0), 100, 99));
    assert!(!has_elapsed(Some(10), 100, 0));
}

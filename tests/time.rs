use xng_rs::time::{
    duration_from_xtime_t, since_boot_from, Duration, DurationFromInt, Instant, TimeError,
};
use xng_rs::{XngError, X_INVALID_MODE, X_NO_ERROR};

#[test]
fn non_negative_raw_time_converts_to_micros() {
    assert_eq!(duration_from_xtime_t(0).unwrap().as_micros(), 0);
    assert_eq!(duration_from_xtime_t(1500).unwrap().as_micros(), 1500);
    assert_eq!(
        duration_from_xtime_t(i64::MAX).unwrap().as_micros(),
        i64::MAX as u128
    );
}

#[test]
fn negative_raw_time_is_infinite() {
    assert_eq!(duration_from_xtime_t(-1), Err(TimeError::InfiniteTime));
    assert_eq!(duration_from_xtime_t(i64::MIN), Err(TimeError::InfiniteTime));
}

#[test]
fn since_boot_from_kernel_answer() {
    assert_eq!(since_boot_from(X_NO_ERROR, 250), Ok(Duration::from_micros(250)));
    assert_eq!(
        since_boot_from(X_NO_ERROR, -5),
        Err(XngError::TimeError(TimeError::InfiniteTime))
    );
    assert_eq!(since_boot_from(X_INVALID_MODE, 250), Err(XngError::InvalidMode));
}

#[test]
fn saturating_duration_since_clamps_to_zero() {
    let a = Instant::from_raw(100);
    let b = Instant::from_raw(250);
    assert_eq!(a.saturating_duration_since(b).as_micros(), 0);
    assert_eq!(b.saturating_duration_since(a).as_micros(), 150);
    assert_eq!(a.saturating_duration_since(a).as_micros(), 0);
}

#[test]
fn saturating_duration_since_extremes() {
    let lo = Instant::from_raw(i64::MIN);
    let hi = Instant::from_raw(i64::MAX);
    assert_eq!(hi.saturating_duration_since(lo).as_micros(), u64::MAX as u128);
    assert_eq!(lo.saturating_duration_since(hi).as_micros(), 0);
}

#[test]
fn duration_constructors() {
    assert_eq!(Duration::zero().as_micros(), 0);
    assert_eq!(Duration::from_millis(3).as_micros(), 3000);
    assert_eq!(Duration::from_secs(2).as_micros(), 2_000_000);
    assert_eq!(
        Duration::from_secs(u64::MAX).as_micros(),
        u64::MAX as u128 * 1_000_000
    );
}

#[test]
fn duration_from_int_units() {
    assert_eq!(2u8.secs().as_micros(), 2_000_000);
    assert_eq!(3u16.ms().as_micros(), 3000);
    assert_eq!(7u32.us().as_micros(), 7);
    assert_eq!(5u64.secs(), Duration::from_secs(5));
    assert_eq!(u32::MAX.ms().as_micros(), u32::MAX as u128 * 1000);
    assert_eq!(255u8.us(), Duration::from_micros(255));
}

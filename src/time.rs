//! Time as the kernel sees it.
//!
//! The kernel counts time in signed microseconds (`xTime_t`), where a negative value stands for
//! "no value" or "infinite". `Instant` wraps such a raw timestamp; `Duration` is a non-negative
//! count of microseconds.
use vstd::prelude::*;

use crate::{status_result, ReturnCode, XngError};

verus! {

/// The raw time type of the kernel ABI (`xTime_t`): microseconds, negative for "no value".
pub type RawTime = i64;

/// A non-negative span of time, counted in microseconds
#[derive(Debug, Clone, Copy, PartialEq, Eq, Structural)]
pub struct Duration {
    micros: u128,
}

impl View for Duration {
    type V = nat;

    /// The length of the span in microseconds.
    closed spec fn view(&self) -> nat {
        self.micros as nat
    }
}

impl Duration {
    /// The empty span.
    pub fn zero() -> (d: Duration)
        ensures
            d@ == 0,
    {
        Duration { micros: 0 }
    }

    /// A span of `micros` microseconds.
    pub fn from_micros(micros: u64) -> (d: Duration)
        ensures
            d@ == micros,
    {
        Duration { micros: micros as u128 }
    }

    /// A span of `millis` milliseconds.
    pub fn from_millis(millis: u64) -> (d: Duration)
        ensures
            d@ == millis * 1000,
    {
        Duration { micros: millis as u128 * 1000 }
    }

    /// A span of `secs` seconds.
    pub fn from_secs(secs: u64) -> (d: Duration)
        ensures
            d@ == secs * 1_000_000,
    {
        Duration { micros: secs as u128 * 1_000_000 }
    }

    /// The length of the span in whole microseconds.
    pub fn as_micros(&self) -> (r: u128)
        ensures
            r == self@,
    {
        self.micros
    }
}

/// Error during operations with time
#[derive(Debug, Clone, Copy, PartialEq, Eq, Structural)]
pub enum TimeError {
    /// A raw time value was negative, the kernel's sentinel for "infinite" or "no value".
    InfiniteTime,
}

/// What a raw kernel timestamp means as a span: its microseconds, or `InfiniteTime` when it is
/// negative.
pub open spec fn duration_of(time: RawTime) -> Result<nat, TimeError> {
    if time < 0 {
        Err(TimeError::InfiniteTime)
    } else {
        Ok(time as nat)
    }
}

/// Converts a raw kernel timestamp into a `Duration`.
///
/// A negative value is the kernel's sentinel for an infinite time and is rejected; any other value
/// is a count of microseconds and converts without loss.
pub fn duration_from_xtime_t(time: RawTime) -> (r: Result<Duration, TimeError>)
    ensures
        match duration_of(time) {
            Ok(micros) => r is Ok && r->Ok_0@ == micros,
            Err(e) => r == Err::<Duration, TimeError>(e),
        },
{
    if time < 0 {
        Err(TimeError::InfiniteTime)
    } else {
        Ok(Duration::from_micros(time as u64))
    }
}

/// Interprets the kernel's answer to a system-time request: its return code and the raw time it
/// wrote.
///
/// A kernel error is passed on as it is; otherwise the time since boot is the raw time converted by
/// `duration_from_xtime_t`.
pub fn since_boot_from(code: ReturnCode, time: RawTime) -> (r: Result<Duration, XngError>)
    ensures
        status_result(code) is Err ==> r == Err::<Duration, XngError>(status_result(code)->Err_0),
        status_result(code) is Ok && time < 0 ==> r == Err::<Duration, XngError>(
            XngError::TimeError(TimeError::InfiniteTime),
        ),
        status_result(code) is Ok && time >= 0 ==> r is Ok && r->Ok_0@ == time,
{
    match XngError::from(code) {
        Err(e) => Err(e),
        Ok(()) => match duration_from_xtime_t(time) {
            Ok(d) => Ok(d),
            Err(te) => Err(XngError::TimeError(te)),
        },
    }
}

/// A point in time as the kernel reports it: a raw signed count of microseconds
#[derive(Debug, Clone, Copy, PartialEq, Eq, Structural)]
pub struct Instant {
    /// The raw timestamp in microseconds
    pub raw: RawTime,
}

/// The span from `earlier` to `later`, or zero when `earlier` is in fact later.
pub open spec fn elapsed(later: RawTime, earlier: RawTime) -> nat {
    if later >= earlier {
        (later - earlier) as nat
    } else {
        0
    }
}

/// The span since a later instant is zero: `saturating_duration_since` never underflows.
pub proof fn lemma_since_later_is_zero(a: Instant, b: Instant)
    requires
        b.raw > a.raw,
    ensures
        elapsed(a.raw, b.raw) == 0,
{
}

/// Every raw timestamp that is not negative converts to exactly that many microseconds; every
/// negative one is an infinite time.
pub proof fn lemma_raw_time_conversion(time: RawTime)
    ensures
        time >= 0 ==> duration_of(time) == Ok::<nat, TimeError>(time as nat),
        time < 0 ==> duration_of(time) == Err::<nat, TimeError>(TimeError::InfiniteTime),
{
}

impl Instant {
    /// The instant at the given raw timestamp.
    pub fn from_raw(raw: RawTime) -> (r: Instant)
        ensures
            r.raw == raw,
    {
        Instant { raw }
    }

    /// The time elapsed from `earlier` to `self`, clamped to zero when `earlier` is later than
    /// `self`. It never underflows and never panics.
    pub fn saturating_duration_since(&self, earlier: Instant) -> (r: Duration)
        ensures
            r@ == elapsed(self.raw, earlier.raw),
    {
        if self.raw >= earlier.raw {
            let diff: i128 = self.raw as i128 - earlier.raw as i128;
            Duration { micros: diff as u128 }
        } else {
            Duration::zero()
        }
    }
}

/// Extension trait that adds convenience constructors of `Duration` to the unsigned integer types
pub trait DurationFromInt: Sized {
    /// The number that the value stands for.
    spec fn amount(self) -> nat;

    /// Duration in seconds
    fn secs(self) -> (d: Duration)
        ensures
            d@ == self.amount() * 1_000_000,
    ;

    /// Duration in milliseconds
    fn ms(self) -> (d: Duration)
        ensures
            d@ == self.amount() * 1000,
    ;

    /// Duration in microseconds
    fn us(self) -> (d: Duration)
        ensures
            d@ == self.amount(),
    ;
}

impl DurationFromInt for u64 {
    open spec fn amount(self) -> nat {
        self as nat
    }

    fn secs(self) -> (d: Duration) {
        Duration::from_secs(self)
    }

    fn ms(self) -> (d: Duration) {
        Duration::from_millis(self)
    }

    fn us(self) -> (d: Duration) {
        Duration::from_micros(self)
    }
}

impl DurationFromInt for u32 {
    open spec fn amount(self) -> nat {
        self as nat
    }

    fn secs(self) -> (d: Duration) {
        Duration::from_secs(self as u64)
    }

    fn ms(self) -> (d: Duration) {
        Duration::from_millis(self as u64)
    }

    fn us(self) -> (d: Duration) {
        Duration::from_micros(self as u64)
    }
}

impl DurationFromInt for u16 {
    open spec fn amount(self) -> nat {
        self as nat
    }

    fn secs(self) -> (d: Duration) {
        Duration::from_secs(self as u64)
    }

    fn ms(self) -> (d: Duration) {
        Duration::from_millis(self as u64)
    }

    fn us(self) -> (d: Duration) {
        Duration::from_micros(self as u64)
    }
}

impl DurationFromInt for u8 {
    open spec fn amount(self) -> nat {
        self as nat
    }

    fn secs(self) -> (d: Duration) {
        Duration::from_secs(self as u64)
    }

    fn ms(self) -> (d: Duration) {
        Duration::from_millis(self as u64)
    }

    fn us(self) -> (d: Duration) {
        Duration::from_micros(self as u64)
    }
}

} // verus!

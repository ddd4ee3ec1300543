//! Sampling ports: a single slot that keeps the last message written.
use vstd::prelude::*;

use super::channel::{SamplingChannel, SamplingChannelView};
use super::{
    check_recv_size, check_send_size, direction_code, is_validity_code, recv_size_check,
    send_size_check, validity_to_bool, PortDirection, X_VALID_MESSAGE,
};
use crate::time::{duration_from_xtime_t, Duration, Instant, RawTime, TimeError};
use crate::{kernel_error, status_result, ReturnCode, XngError, X_NOT_AVAILABLE, X_NO_ERROR};

verus! {

/// The type of a sampling port's id
pub type SamplingPortId = u32;

/// The parameters of a sampling-port creation request, besides the port's name
#[derive(Debug, Clone, Copy, PartialEq, Eq, Structural)]
pub struct SamplingPortConfig {
    /// The largest message the port carries, in bytes
    pub max_message_size: u32,
    /// Whether the caller writes or reads the port
    pub direction: PortDirection,
    /// How long a message stays valid after it was written, in microseconds
    pub refresh_period: RawTime,
}

/// The status of a sampling port as the kernel reports it (`xSamplingPortStatus_t`)
#[derive(Debug, Clone, Copy, PartialEq, Eq, Structural)]
pub struct RawSamplingPortStatus {
    /// The refresh period in microseconds
    pub refresh_period: RawTime,
    /// When the last message was written, negative if none ever was
    pub last_message_timestamp: RawTime,
    /// The size of the last message in bytes
    pub last_message_size: u32,
    /// The validity code of the last message
    pub last_message_validity: u32,
}

/// What the kernel's answer to a read request means: `None` when no message is available, the
/// kernel's error for any other failure, and otherwise the number of bytes received with the
/// message's validity.
pub open spec fn read_outcome(code: ReturnCode, bytes_read: u32, validity: u32) -> Result<
    Option<(usize, bool)>,
    XngError,
> {
    if code == X_NOT_AVAILABLE {
        Ok(None)
    } else if code != X_NO_ERROR {
        Err(kernel_error(code))
    } else {
        Ok(Some((bytes_read as usize, validity == X_VALID_MESSAGE)))
    }
}

/// Interprets the kernel's answer to a sampling read request.
///
/// `X_NOT_AVAILABLE` means that no message was ever written: that is an empty port, reported as
/// `Ok(None)`, not a failure. Every other error code is passed on. On success the validity code is
/// read afresh, since a message can expire between two reads.
pub fn read_result(code: ReturnCode, bytes_read: u32, validity: u32) -> (r: Result<
    Option<(usize, bool)>,
    XngError,
>)
    requires
        code == X_NO_ERROR ==> is_validity_code(validity),
    ensures
        r == read_outcome(code, bytes_read, validity),
{
    match XngError::from(code) {
        Err(XngError::NotAvailable) => Ok(None),
        Err(e) => Err(e),
        Ok(()) => Ok(Some((bytes_read as usize, validity_to_bool(validity)))),
    }
}

/// What a receive of a port with capacity `n` through `channel` yields, for a buffer of
/// `buf_len` bytes at time `now`.
pub open spec fn recv_outcome(
    n: usize,
    channel: SamplingChannelView,
    port_id: SamplingPortId,
    buf_len: usize,
    now: int,
) -> Result<Option<(usize, bool)>, XngError> {
    if recv_size_check(buf_len, n) is Err {
        Err(recv_size_check(buf_len, n)->Err_0)
    } else {
        read_outcome(
            channel.read_code(port_id, buf_len as nat),
            channel.message->Some_0.len() as u32,
            channel.validity(now),
        )
    }
}

/// Keeps the last (if any) sent value
pub struct SamplingReceiver<const N: usize> {
    port_id: SamplingPortId,
}

impl<const N: usize> SamplingReceiver<N> {
    /// The identifier of the port.
    pub closed spec fn port_id(&self) -> SamplingPortId {
        self.port_id
    }

    /// The creation request of a destination port of capacity `N` whose messages stay valid for
    /// `ttl` after they were written.
    ///
    /// A time to live that the kernel's signed microsecond time cannot hold is refused with
    /// `TimeError::InfiniteTime`.
    pub fn config(ttl: Duration) -> (r: Result<SamplingPortConfig, XngError>)
        requires
            N <= u32::MAX,
        ensures
            ttl@ <= i64::MAX ==> r == Ok::<SamplingPortConfig, XngError>(
                SamplingPortConfig {
                    max_message_size: N as u32,
                    direction: PortDirection::Destination,
                    refresh_period: ttl@ as RawTime,
                },
            ),
            ttl@ > i64::MAX ==> r == Err::<SamplingPortConfig, XngError>(
                XngError::TimeError(TimeError::InfiniteTime),
            ),
    {
        let micros = ttl.as_micros();
        if micros > i64::MAX as u128 {
            Err(XngError::TimeError(TimeError::InfiniteTime))
        } else {
            Ok(
                SamplingPortConfig {
                    max_message_size: N as u32,
                    direction: PortDirection::Destination,
                    refresh_period: micros as RawTime,
                },
            )
        }
    }

    /// The receiver for the kernel's answer to its creation request: the port it was given, or the
    /// kernel's error.
    pub fn from_created(code: ReturnCode, port_id: SamplingPortId) -> (r: Result<Self, XngError>)
        ensures
            code == X_NO_ERROR ==> r is Ok && r->Ok_0.port_id() == port_id,
            code != X_NO_ERROR ==> r == Err::<Self, XngError>(kernel_error(code)),
    {
        match XngError::from(code) {
            Ok(()) => Ok(SamplingReceiver { port_id }),
            Err(e) => Err(e),
        }
    }

    /// Creates a destination port of capacity `N` on `channel`, whose messages stay valid for
    /// `ttl` after they were written.
    pub fn new(channel: &mut SamplingChannel, ttl: Duration) -> (r: Result<Self, XngError>)
        requires
            N <= u32::MAX,
        ensures
            ttl@ > i64::MAX ==> r == Err::<Self, XngError>(
                XngError::TimeError(TimeError::InfiniteTime),
            ) && *final(channel) == *old(channel),
            ttl@ <= i64::MAX ==> {
                let config = SamplingPortConfig {
                    max_message_size: N as u32,
                    direction: PortDirection::Destination,
                    refresh_period: ttl@ as RawTime,
                };
                let code = old(channel)@.open_code(config);
                &&& final(channel)@ == old(channel)@.opened(config)
                &&& code == X_NO_ERROR ==> r is Ok && r->Ok_0.port_id() == old(channel)@.port_id
                &&& code != X_NO_ERROR ==> r == Err::<Self, XngError>(kernel_error(code))
            },
    {
        let config = match Self::config(ttl) {
            Ok(c) => c,
            Err(e) => return Err(e),
        };
        let (code, port_id) = channel.open(config);
        Self::from_created(code, port_id)
    }

    /// Receives a message into `buf`
    ///
    /// `buf` must hold at least `N` bytes; a smaller one is refused with `BufTooSmall` before the
    /// port is asked. Returns `Ok(Some((len, valid)))` when a message is held: its `len` bytes
    /// are at the front of `buf`, and `valid` says whether it is still within its refresh period
    /// at `now`. Returns `Ok(None)` when no message was ever written, and the kernel's error
    /// otherwise.
    pub fn recv(&self, channel: &SamplingChannel, buf: &mut [u8], now: Instant) -> (r: Result<
        Option<(usize, bool)>,
        XngError,
    >)
        ensures
            r == recv_outcome(N, channel@, self.port_id(), old(buf)@.len() as usize, now.raw as int),
            r is Err ==> final(buf)@ == old(buf)@,
            r is Ok && r->Ok_0 is Some ==> {
                let n = r->Ok_0->Some_0.0;
                &&& n == channel@.message->Some_0.len()
                &&& final(buf)@.len() == old(buf)@.len()
                &&& final(buf)@.subrange(0, n as int) == channel@.message->Some_0
            },
    {
        match check_recv_size(buf.len(), N) {
            Err(e) => return Err(e),
            Ok(()) => {},
        }
        let (code, bytes_read, validity) = channel.read(self.port_id, buf, now);
        read_result(code, bytes_read, validity)
    }

    /// Get the id of this sampling port
    pub fn id(&self) -> (r: SamplingPortId)
        ensures
            r == self.port_id(),
    {
        self.port_id
    }

    /// Get the status of the port
    pub fn status(&self, channel: &SamplingChannel, now: Instant) -> (r: Result<
        SamplingPortStatus,
        XngError,
    >)
        ensures
            status_result_matches(
                channel@.status_code(self.port_id()),
                channel@.raw_status(now.raw as int),
                r,
            ),
    {
        let (code, raw) = channel.status(self.port_id, now);
        SamplingPortStatus::new(code, raw)
    }
}

/// Allows to store one message in the port
pub struct SamplingSender<const N: usize> {
    port_id: SamplingPortId,
}

impl<const N: usize> SamplingSender<N> {
    /// The identifier of the port.
    pub closed spec fn port_id(&self) -> SamplingPortId {
        self.port_id
    }

    /// The creation request of a source port of capacity `N`.
    ///
    /// A sender does not use a time to live, but the kernel asks for a positive one: the request
    /// carries the smallest, one microsecond.
    pub fn config() -> (r: SamplingPortConfig)
        requires
            N <= u32::MAX,
        ensures
            r == (SamplingPortConfig {
                max_message_size: N as u32,
                direction: PortDirection::Source,
                refresh_period: 1,
            }),
    {
        SamplingPortConfig {
            max_message_size: N as u32,
            direction: PortDirection::Source,
            refresh_period: 1,
        }
    }

    /// The sender for the kernel's answer to its creation request: the port it was given, or the
    /// kernel's error.
    pub fn from_created(code: ReturnCode, port_id: SamplingPortId) -> (r: Result<Self, XngError>)
        ensures
            code == X_NO_ERROR ==> r is Ok && r->Ok_0.port_id() == port_id,
            code != X_NO_ERROR ==> r == Err::<Self, XngError>(kernel_error(code)),
    {
        match XngError::from(code) {
            Ok(()) => Ok(SamplingSender { port_id }),
            Err(e) => Err(e),
        }
    }

    /// Creates a source port of capacity `N` on `channel`.
    pub fn new(channel: &mut SamplingChannel) -> (r: Result<Self, XngError>)
        requires
            N <= u32::MAX,
        ensures
            ({
                let config = SamplingPortConfig {
                    max_message_size: N as u32,
                    direction: PortDirection::Source,
                    refresh_period: 1,
                };
                let code = old(channel)@.open_code(config);
                &&& final(channel)@ == old(channel)@.opened(config)
                &&& code == X_NO_ERROR ==> r is Ok && r->Ok_0.port_id() == old(channel)@.port_id
                &&& code != X_NO_ERROR ==> r == Err::<Self, XngError>(kernel_error(code))
            }),
    {
        let (code, port_id) = channel.open(Self::config());
        Self::from_created(code, port_id)
    }

    /// Sends a message
    ///
    /// `buf` must not be longer than `N`; a longer one is refused with `BufTooBig` and the port is
    /// not touched. Otherwise `buf` replaces the message that the port holds, stamped with `now`,
    /// and the result is what the port answered.
    pub fn send(&self, channel: &mut SamplingChannel, buf: &[u8], now: Instant) -> (r: Result<
        (),
        XngError,
    >)
        ensures
            buf@.len() > N ==> r == send_size_check(buf@.len() as usize, N) && *final(channel)
                == *old(channel),
            buf@.len() <= N ==> r == status_result(
                old(channel)@.write_code(self.port_id(), buf@.len()),
            ) && final(channel)@ == old(channel)@.written(self.port_id(), buf@, now.raw as int),
    {
        match check_send_size(buf.len(), N) {
            Err(e) => return Err(e),
            Ok(()) => {},
        }
        let code = channel.write(self.port_id, buf, now);
        XngError::from(code)
    }

    /// Get the id of this sampling port
    pub fn id(&self) -> (r: SamplingPortId)
        ensures
            r == self.port_id(),
    {
        self.port_id
    }

    /// Get the status of the port
    pub fn status(&self, channel: &SamplingChannel, now: Instant) -> (r: Result<
        SamplingPortStatus,
        XngError,
    >)
        ensures
            status_result_matches(
                channel@.status_code(self.port_id()),
                channel@.raw_status(now.raw as int),
                r,
            ),
    {
        let (code, raw) = channel.status(self.port_id, now);
        SamplingPortStatus::new(code, raw)
    }
}

/// The current status of a Sampling Port
#[derive(Debug, Clone, Copy, PartialEq, Eq, Structural)]
pub struct SamplingPortStatus {
    /// Refresh period as defined via the kernel's configuration
    pub refresh_period: Duration,
    /// Timestamp of last message - None if no message ever was received
    pub last_message_ts: Option<Duration>,
    /// Size in bytes of the last message which was received
    pub last_message_size: usize,
    /// Whether the last message was valid
    pub last_message_valid: bool,
}

/// Whether `status` is the snapshot that a raw kernel status stands for.
pub open spec fn status_matches(status: SamplingPortStatus, raw: RawSamplingPortStatus) -> bool {
    &&& status.refresh_period@ == raw.refresh_period
    &&& match status.last_message_ts {
        Some(ts) => raw.last_message_timestamp >= 0 && ts@ == raw.last_message_timestamp,
        None => raw.last_message_timestamp < 0,
    }
    &&& status.last_message_size == raw.last_message_size
    &&& status.last_message_valid == (raw.last_message_validity == X_VALID_MESSAGE)
}

/// Whether a kernel answer to a status request is turned into `r`: the kernel's error, an
/// `InfiniteTime` error for a negative refresh period, or the matching snapshot.
pub open spec fn status_result_matches(
    code: ReturnCode,
    raw: RawSamplingPortStatus,
    r: Result<SamplingPortStatus, XngError>,
) -> bool {
    if code != X_NO_ERROR {
        r == Err::<SamplingPortStatus, XngError>(kernel_error(code))
    } else if raw.refresh_period < 0 {
        r == Err::<SamplingPortStatus, XngError>(XngError::TimeError(TimeError::InfiniteTime))
    } else {
        r is Ok && status_matches(r->Ok_0, raw)
    }
}

/// A port that was never written answers a receive with `Ok(None)`: an empty port is an absence,
/// not an error.
pub proof fn lemma_recv_before_any_send(
    n: usize,
    channel: SamplingChannelView,
    buf_len: usize,
    now: int,
)
    requires
        channel.message is None,
        buf_len >= n,
    ensures
        recv_outcome(n, channel, channel.port_id, buf_len, now) == Ok::<Option<(usize, bool)>, XngError>(None),
{
}

/// A message written at `sent` to a port whose destination was created with a time to live of
/// `ttl` is reported valid by every receive before `ttl` has elapsed, and invalid by every receive
/// once it has, as long as nothing else is written in between.
pub proof fn lemma_validity_follows_ttl(
    n: usize,
    channel: SamplingChannelView,
    ttl: Duration,
    msg: Seq<u8>,
    sent: int,
    now: int,
    buf_len: usize,
)
    requires
        n <= channel.max_message_size,
        1 <= ttl@ <= i64::MAX,
        msg.len() <= n,
        buf_len >= n,
    ensures
        ({
            let config = SamplingPortConfig {
                max_message_size: n as u32,
                direction: PortDirection::Destination,
                refresh_period: ttl@ as RawTime,
            };
            let opened = channel.opened(config);
            let written = opened.written(channel.port_id, msg, sent);
            &&& channel.open_code(config) == X_NO_ERROR
            &&& recv_outcome(n, written, channel.port_id, buf_len, now) == Ok::<
                Option<(usize, bool)>,
                XngError,
            >(Some((msg.len() as usize, now - sent < ttl@)))
        }),
{
}

/// Round trip: a message of at most `N` bytes sent through a port and then received through the
/// paired port of the same capacity comes back whole. The send succeeds, the port then holds
/// exactly the bytes sent, and the receive reports that many bytes, which its contract places at
/// the front of the buffer.
pub proof fn lemma_round_trip(
    n: usize,
    channel: SamplingChannelView,
    msg: Seq<u8>,
    sent: int,
    now: int,
    buf_len: usize,
)
    requires
        msg.len() <= n,
        n <= channel.max_message_size,
        buf_len >= n,
    ensures
        send_size_check(msg.len() as usize, n) is Ok,
        status_result(channel.write_code(channel.port_id, msg.len())) is Ok,
        ({
            let written = channel.written(channel.port_id, msg, sent);
            &&& written.message == Some(msg)
            &&& recv_outcome(n, written, channel.port_id, buf_len, now) matches Ok(Some((len, _)))
                && len == msg.len()
        }),
{
}

impl SamplingPortStatus {
    /// Builds the snapshot from the kernel's answer to a status request.
    ///
    /// A kernel error is passed on. A negative refresh period is refused as an infinite time,
    /// while a negative last-message timestamp, the kernel's sentinel for a port that never
    /// received a message, becomes `None`.
    pub fn new(code: ReturnCode, raw: RawSamplingPortStatus) -> (r: Result<SamplingPortStatus, XngError>)
        requires
            code == X_NO_ERROR ==> is_validity_code(raw.last_message_validity),
        ensures
            status_result_matches(code, raw, r),
    {
        match XngError::from(code) {
            Err(e) => return Err(e),
            Ok(()) => {},
        }
        let refresh_period = match duration_from_xtime_t(raw.refresh_period) {
            Ok(d) => d,
            Err(te) => return Err(XngError::TimeError(te)),
        };
        let last_message_ts = match duration_from_xtime_t(raw.last_message_timestamp) {
            Ok(d) => Some(d),
            Err(_) => None,
        };
        Ok(
            SamplingPortStatus {
                refresh_period,
                last_message_ts,
                last_message_size: raw.last_message_size as usize,
                last_message_valid: validity_to_bool(raw.last_message_validity),
            },
        )
    }
}

} // verus!

//! In-memory port services.
//!
//! A `SamplingChannel` and a `QueuingChannel` answer the same requests as the kernel's sampling
//! and queuing port services, with the same return codes, validity codes and sentinels, but keep
//! the port's contents in memory. They let partition code built on the typed ports run on a host
//! without the kernel, and they give the port contracts a model to speak of: what a port holds,
//! what a write does to it and what a read returns.
use vstd::prelude::*;

use super::queuing::{QueuingPortConfig, QueuingPortId};
use super::sampling::{RawSamplingPortStatus, SamplingPortConfig, SamplingPortId};
use super::{PortDirection, X_INVALID_MESSAGE, X_VALID_MESSAGE};
use crate::time::{Instant, RawTime};
use crate::{ReturnCode, X_INVALID_CONFIG, X_INVALID_PARAM, X_NOT_AVAILABLE, X_NO_ERROR};

verus! {

/// Copies `msg` into the front of `buf`, leaving the rest of `buf` as it was.
fn copy_into(buf: &mut [u8], msg: &Vec<u8>)
    requires
        msg@.len() <= old(buf)@.len(),
    ensures
        final(buf)@.len() == old(buf)@.len(),
        final(buf)@.subrange(0, msg@.len() as int) == msg@,
        final(buf)@.subrange(msg@.len() as int, old(buf)@.len() as int) == old(buf)@.subrange(
            msg@.len() as int,
            old(buf)@.len() as int,
        ),
{
    let mut i: usize = 0;
    while i < msg.len()
        invariant
            i <= msg@.len(),
            msg@.len() <= buf@.len(),
            buf@.len() == old(buf)@.len(),
            forall|j: int| 0 <= j < i ==> buf@[j] == msg@[j],
            forall|j: int| i <= j < buf@.len() ==> buf@[j] == old(buf)@[j],
        decreases msg@.len() - i,
    {
        buf[i] = msg[i];
        i = i + 1;
    }
    assert(buf@.subrange(0, msg@.len() as int) =~= msg@);
    assert(buf@.subrange(msg@.len() as int, old(buf)@.len() as int) =~= old(buf)@.subrange(
        msg@.len() as int,
        old(buf)@.len() as int,
    ));
}

/// An owned copy of a byte slice.
fn copy_of(msg: &[u8]) -> (r: Vec<u8>)
    ensures
        r@ == msg@,
{
    let mut r: Vec<u8> = Vec::new();
    let mut i: usize = 0;
    while i < msg.len()
        invariant
            i <= msg@.len(),
            r@ == msg@.subrange(0, i as int),
        decreases msg@.len() - i,
    {
        r.push(msg[i]);
        i = i + 1;
        assert(r@ =~= msg@.subrange(0, i as int));
    }
    assert(msg@.subrange(0, msg@.len() as int) =~= msg@);
    r
}

/// What a sampling channel holds.
pub struct SamplingChannelView {
    /// The identifier that the port's users address it by
    pub port_id: SamplingPortId,
    /// The largest message the port takes, in bytes
    pub max_message_size: u32,
    /// How long a message stays valid after it was written, in microseconds, as set by the
    /// destination's creation request
    pub refresh_period: int,
    /// The last message written, if any
    pub message: Option<Seq<u8>>,
    /// When the last message was written, in raw microseconds
    pub timestamp: int,
}

impl SamplingChannelView {
    /// The return code of a creation request.
    pub open spec fn open_code(self, config: SamplingPortConfig) -> ReturnCode {
        if config.max_message_size > self.max_message_size {
            X_INVALID_CONFIG
        } else if config.direction == PortDirection::Destination && config.refresh_period < 1 {
            X_INVALID_PARAM
        } else {
            X_NO_ERROR
        }
    }

    /// The channel after a creation request.
    pub open spec fn opened(self, config: SamplingPortConfig) -> SamplingChannelView {
        if self.open_code(config) == X_NO_ERROR && config.direction == PortDirection::Destination {
            SamplingChannelView { refresh_period: config.refresh_period as int, ..self }
        } else {
            self
        }
    }

    /// The return code of a write of `len` bytes through port `port_id`.
    pub open spec fn write_code(self, port_id: SamplingPortId, len: nat) -> ReturnCode {
        if port_id != self.port_id || len > self.max_message_size {
            X_INVALID_PARAM
        } else {
            X_NO_ERROR
        }
    }

    /// The channel after a write of `msg` through port `port_id` at time `now`: the message
    /// replaces the one held, and its freshness counts from `now`.
    pub open spec fn written(self, port_id: SamplingPortId, msg: Seq<u8>, now: int) -> SamplingChannelView {
        if self.write_code(port_id, msg.len()) == X_NO_ERROR {
            SamplingChannelView { message: Some(msg), timestamp: now, ..self }
        } else {
            self
        }
    }

    /// The return code of a read through port `port_id` into a buffer of `buf_len` bytes.
    pub open spec fn read_code(self, port_id: SamplingPortId, buf_len: nat) -> ReturnCode {
        if port_id != self.port_id {
            X_INVALID_PARAM
        } else if self.message is None {
            X_NOT_AVAILABLE
        } else if buf_len < self.message->Some_0.len() {
            X_INVALID_PARAM
        } else {
            X_NO_ERROR
        }
    }

    /// The return code of a status request through port `port_id`.
    pub open spec fn status_code(self, port_id: SamplingPortId) -> ReturnCode {
        if port_id == self.port_id {
            X_NO_ERROR
        } else {
            X_INVALID_PARAM
        }
    }

    /// The raw status that a status request at time `now` reports.
    pub open spec fn raw_status(self, now: int) -> RawSamplingPortStatus {
        match self.message {
            Some(m) => RawSamplingPortStatus {
                refresh_period: self.refresh_period as RawTime,
                last_message_timestamp: self.timestamp as RawTime,
                last_message_size: m.len() as u32,
                last_message_validity: self.validity(now),
            },
            None => RawSamplingPortStatus {
                refresh_period: self.refresh_period as RawTime,
                last_message_timestamp: -1i64,
                last_message_size: 0,
                last_message_validity: X_INVALID_MESSAGE,
            },
        }
    }

    /// Whether the held message is still within its refresh period at time `now`.
    pub open spec fn is_fresh(self, now: int) -> bool {
        now - self.timestamp < self.refresh_period
    }

    /// The validity code that a read at time `now` reports.
    pub open spec fn validity(self, now: int) -> u32 {
        if self.is_fresh(now) {
            X_VALID_MESSAGE
        } else {
            X_INVALID_MESSAGE
        }
    }
}

/// An in-memory sampling port: one slot that keeps the last message written
pub struct SamplingChannel {
    port_id: SamplingPortId,
    max_message_size: u32,
    refresh_period: RawTime,
    message: Option<Vec<u8>>,
    timestamp: RawTime,
}

impl View for SamplingChannel {
    type V = SamplingChannelView;

    closed spec fn view(&self) -> SamplingChannelView {
        SamplingChannelView {
            port_id: self.port_id,
            max_message_size: self.max_message_size,
            refresh_period: self.refresh_period as int,
            message: match self.message {
                Some(m) => Some(m@),
                None => None,
            },
            timestamp: self.timestamp as int,
        }
    }
}

impl SamplingChannel {
    #[verifier::type_invariant]
    spec fn inv(self) -> bool {
        match self.message {
            Some(m) => m@.len() <= self.max_message_size,
            None => true,
        }
    }

    /// An empty sampling port with the given identifier and maximum message size. Its refresh
    /// period is set when a destination port is created on it.
    pub fn new(port_id: SamplingPortId, max_message_size: u32) -> (r: SamplingChannel)
        ensures
            r@ == (SamplingChannelView {
                port_id,
                max_message_size,
                refresh_period: 0,
                message: None,
                timestamp: -1,
            }),
    {
        SamplingChannel { port_id, max_message_size, refresh_period: 0, message: None, timestamp: -1 }
    }

    /// Answers a creation request: the identifier of the port, or `X_INVALID_CONFIG` when the
    /// requested message size exceeds the port's. A destination sets the refresh period.
    pub fn open(&mut self, config: SamplingPortConfig) -> (r: (ReturnCode, SamplingPortId))
        ensures
            r.0 == old(self)@.open_code(config),
            r.1 == old(self)@.port_id,
            final(self)@ == old(self)@.opened(config),
    {
        proof {
            use_type_invariant(&*self);
        }
        if config.max_message_size > self.max_message_size {
            (X_INVALID_CONFIG, self.port_id)
        } else if config.direction == PortDirection::Destination && config.refresh_period < 1 {
            (X_INVALID_PARAM, self.port_id)
        } else {
            if config.direction == PortDirection::Destination {
                self.refresh_period = config.refresh_period;
            }
            (X_NO_ERROR, self.port_id)
        }
    }

    /// Answers a write request: `msg` replaces the message held, stamped with `now`.
    pub fn write(&mut self, port_id: SamplingPortId, msg: &[u8], now: Instant) -> (r: ReturnCode)
        ensures
            r == old(self)@.write_code(port_id, msg@.len()),
            final(self)@ == old(self)@.written(port_id, msg@, now.raw as int),
    {
        if port_id != self.port_id || msg.len() > self.max_message_size as usize {
            X_INVALID_PARAM
        } else {
            self.message = Some(copy_of(msg));
            self.timestamp = now.raw;
            X_NO_ERROR
        }
    }

    /// Answers a read request: on success the message is copied to the front of `buf`, and the
    /// reply holds its length and its validity code at time `now`. A port that was never written
    /// answers `X_NOT_AVAILABLE`. Nothing of `buf` changes unless the read succeeds.
    pub fn read(&self, port_id: SamplingPortId, buf: &mut [u8], now: Instant) -> (r: (
        ReturnCode,
        u32,
        u32,
    ))
        ensures
            r.0 == self@.read_code(port_id, old(buf)@.len()),
            r.0 == X_NO_ERROR ==> {
                let m = self@.message->Some_0;
                &&& r.1 == m.len()
                &&& r.2 == self@.validity(now.raw as int)
                &&& final(buf)@.len() == old(buf)@.len()
                &&& final(buf)@.subrange(0, m.len() as int) == m
                &&& final(buf)@.subrange(m.len() as int, old(buf)@.len() as int)
                    == old(buf)@.subrange(m.len() as int, old(buf)@.len() as int)
            },
            r.0 != X_NO_ERROR ==> final(buf)@ == old(buf)@,
    {
        proof {
            use_type_invariant(self);
        }
        if port_id != self.port_id {
            return (X_INVALID_PARAM, 0, X_INVALID_MESSAGE);
        }
        match &self.message {
            None => (X_NOT_AVAILABLE, 0, X_INVALID_MESSAGE),
            Some(m) => {
                if buf.len() < m.len() {
                    (X_INVALID_PARAM, 0, X_INVALID_MESSAGE)
                } else {
                    copy_into(buf, m);
                    let fresh = (now.raw as i128) - (self.timestamp as i128) < self.refresh_period as i128;
                    let validity = if fresh {
                        X_VALID_MESSAGE
                    } else {
                        X_INVALID_MESSAGE
                    };
                    (X_NO_ERROR, m.len() as u32, validity)
                }
            },
        }
    }

    /// Answers a status request with the port's raw status at time `now`. A port that was never
    /// written reports the negative timestamp sentinel, a size of zero and an invalid message.
    pub fn status(&self, port_id: SamplingPortId, now: Instant) -> (r: (ReturnCode, RawSamplingPortStatus))
        ensures
            r.0 == self@.status_code(port_id),
            r.0 == X_NO_ERROR ==> r.1 == self@.raw_status(now.raw as int),
    {
        proof {
            use_type_invariant(self);
        }
        let none = RawSamplingPortStatus {
            refresh_period: self.refresh_period,
            last_message_timestamp: -1,
            last_message_size: 0,
            last_message_validity: X_INVALID_MESSAGE,
        };
        if port_id != self.port_id {
            return (X_INVALID_PARAM, none);
        }
        match &self.message {
            None => (X_NO_ERROR, none),
            Some(m) => {
                let fresh = (now.raw as i128) - (self.timestamp as i128) < self.refresh_period as i128;
                let validity = if fresh {
                    X_VALID_MESSAGE
                } else {
                    X_INVALID_MESSAGE
                };
                (
                    X_NO_ERROR,
                    RawSamplingPortStatus {
                        refresh_period: self.refresh_period,
                        last_message_timestamp: self.timestamp,
                        last_message_size: m.len() as u32,
                        last_message_validity: validity,
                    },
                )
            },
        }
    }
}

/// What a queuing port does with a message sent while it is full
#[derive(Debug, Clone, Copy, PartialEq, Eq, Structural)]
pub enum OverflowPolicy {
    /// The new message is refused with `X_NOT_AVAILABLE` and the queue stays as it is
    Reject,
    /// The oldest message is dropped to make room for the new one
    DropOldest,
}

/// What a queuing channel holds.
pub struct QueuingChannelView {
    /// The identifier that the port's users address it by
    pub port_id: QueuingPortId,
    /// The largest message the port takes, in bytes
    pub max_message_size: u32,
    /// The most messages the port holds at once
    pub max_nb_messages: u32,
    /// What a send to a full port does
    pub policy: OverflowPolicy,
    /// The messages held, oldest first
    pub messages: Seq<Seq<u8>>,
}

impl QueuingChannelView {
    /// The return code of a creation request.
    pub open spec fn open_code(self, config: QueuingPortConfig) -> ReturnCode {
        if config.max_message_size > self.max_message_size || config.max_nb_messages
            > self.max_nb_messages {
            X_INVALID_CONFIG
        } else {
            X_NO_ERROR
        }
    }

    /// Whether the port holds as many messages as it can.
    pub open spec fn is_full(self) -> bool {
        self.messages.len() >= self.max_nb_messages
    }

    /// The return code of a send of `len` bytes through port `port_id`.
    pub open spec fn send_code(self, port_id: QueuingPortId, len: nat) -> ReturnCode {
        if port_id != self.port_id || len > self.max_message_size {
            X_INVALID_PARAM
        } else if self.is_full() && (self.policy == OverflowPolicy::Reject || self.messages.len()
            == 0) {
            X_NOT_AVAILABLE
        } else {
            X_NO_ERROR
        }
    }

    /// The channel after a send of `msg` through port `port_id`: the message joins the back of the
    /// queue, after the oldest one was dropped if the queue was full.
    pub open spec fn sent(self, port_id: QueuingPortId, msg: Seq<u8>) -> QueuingChannelView {
        if self.send_code(port_id, msg.len()) != X_NO_ERROR {
            self
        } else if self.is_full() {
            QueuingChannelView { messages: self.messages.drop_first().push(msg), ..self }
        } else {
            QueuingChannelView { messages: self.messages.push(msg), ..self }
        }
    }

    /// The return code of a receive through port `port_id` into a buffer of `buf_len` bytes.
    pub open spec fn receive_code(self, port_id: QueuingPortId, buf_len: nat) -> ReturnCode {
        if port_id != self.port_id {
            X_INVALID_PARAM
        } else if self.messages.len() == 0 {
            X_NOT_AVAILABLE
        } else if buf_len < self.messages[0].len() {
            X_INVALID_PARAM
        } else {
            X_NO_ERROR
        }
    }

    /// The channel after a receive through port `port_id` into a buffer of `buf_len` bytes: the
    /// oldest message leaves the queue.
    pub open spec fn received(self, port_id: QueuingPortId, buf_len: nat) -> QueuingChannelView {
        if self.receive_code(port_id, buf_len) == X_NO_ERROR {
            QueuingChannelView { messages: self.messages.drop_first(), ..self }
        } else {
            self
        }
    }
}

/// An in-memory queuing port: a bounded FIFO of messages
pub struct QueuingChannel {
    port_id: QueuingPortId,
    max_message_size: u32,
    max_nb_messages: u32,
    policy: OverflowPolicy,
    messages: Vec<Vec<u8>>,
}

impl View for QueuingChannel {
    type V = QueuingChannelView;

    closed spec fn view(&self) -> QueuingChannelView {
        QueuingChannelView {
            port_id: self.port_id,
            max_message_size: self.max_message_size,
            max_nb_messages: self.max_nb_messages,
            policy: self.policy,
            messages: self.messages@.map_values(|m: Vec<u8>| m@),
        }
    }
}

impl QueuingChannel {
    /// An empty queuing port with the given identifier, maximum message size, depth and overflow
    /// policy.
    pub fn new(
        port_id: QueuingPortId,
        max_message_size: u32,
        max_nb_messages: u32,
        policy: OverflowPolicy,
    ) -> (r: QueuingChannel)
        ensures
            r@ == (QueuingChannelView {
                port_id,
                max_message_size,
                max_nb_messages,
                policy,
                messages: Seq::empty(),
            }),
    {
        let r = QueuingChannel { port_id, max_message_size, max_nb_messages, policy, messages: Vec::new() };
        assert(r@.messages =~= Seq::empty());
        r
    }

    /// Answers a creation request: the identifier of the port, or `X_INVALID_CONFIG` when the
    /// requested message size or depth exceeds the port's.
    pub fn open(&self, config: QueuingPortConfig) -> (r: (ReturnCode, QueuingPortId))
        ensures
            r.0 == self@.open_code(config),
            r.1 == self@.port_id,
    {
        if config.max_message_size > self.max_message_size || config.max_nb_messages
            > self.max_nb_messages {
            (X_INVALID_CONFIG, self.port_id)
        } else {
            (X_NO_ERROR, self.port_id)
        }
    }

    /// Answers a send request: `msg` joins the back of the queue. A full queue refuses it with
    /// `X_NOT_AVAILABLE`, or drops its oldest message first, as its policy says.
    pub fn send(&mut self, port_id: QueuingPortId, msg: &[u8]) -> (r: ReturnCode)
        ensures
            r == old(self)@.send_code(port_id, msg@.len()),
            final(self)@ == old(self)@.sent(port_id, msg@),
    {
        if port_id != self.port_id || msg.len() > self.max_message_size as usize {
            return X_INVALID_PARAM;
        }
        let full = self.messages.len() >= self.max_nb_messages as usize;
        if full && (self.policy == OverflowPolicy::Reject || self.messages.len() == 0) {
            return X_NOT_AVAILABLE;
        }
        let ghost before = self@.messages;
        if full {
            let _dropped = self.messages.remove(0);
            assert(self@.messages =~= before.drop_first());
        }
        let ghost middle = self@.messages;
        self.messages.push(copy_of(msg));
        assert(self@.messages =~= middle.push(msg@));
        X_NO_ERROR
    }

    /// Answers a receive request: on success the oldest message leaves the queue and is copied to
    /// the front of `buf`, and the reply holds its length. An empty queue answers
    /// `X_NOT_AVAILABLE`. Nothing of `buf` changes unless the receive succeeds.
    pub fn receive(&mut self, port_id: QueuingPortId, buf: &mut [u8]) -> (r: (ReturnCode, usize))
        ensures
            r.0 == old(self)@.receive_code(port_id, old(buf)@.len()),
            final(self)@ == old(self)@.received(port_id, old(buf)@.len()),
            r.0 == X_NO_ERROR ==> {
                let m = old(self)@.messages[0];
                &&& r.1 == m.len()
                &&& final(buf)@.len() == old(buf)@.len()
                &&& final(buf)@.subrange(0, m.len() as int) == m
                &&& final(buf)@.subrange(m.len() as int, old(buf)@.len() as int)
                    == old(buf)@.subrange(m.len() as int, old(buf)@.len() as int)
            },
            r.0 != X_NO_ERROR ==> final(buf)@ == old(buf)@,
    {
        if port_id != self.port_id {
            return (X_INVALID_PARAM, 0);
        }
        if self.messages.len() == 0 {
            return (X_NOT_AVAILABLE, 0);
        }
        if buf.len() < self.messages[0].len() {
            return (X_INVALID_PARAM, 0);
        }
        let ghost before = self@.messages;
        let m = self.messages.remove(0);
        assert(self@.messages =~= before.drop_first());
        copy_into(buf, &m);
        (X_NO_ERROR, m.len())
    }
}

} // verus!

//! Queuing ports: a bounded FIFO of messages between exactly two partitions.
use vstd::prelude::*;

use super::channel::{QueuingChannel, QueuingChannelView};
use super::{check_recv_size, check_send_size, recv_size_check, send_size_check, PortDirection};
use crate::{kernel_error, status_result, ReturnCode, XngError, X_NOT_AVAILABLE, X_NO_ERROR};

verus! {

/// The type of a queuing port's id
pub type QueuingPortId = u32;

/// The parameters of a queuing-port creation request, besides the port's name
#[derive(Debug, Clone, Copy, PartialEq, Eq, Structural)]
pub struct QueuingPortConfig {
    /// The largest message the port carries, in bytes
    pub max_message_size: u32,
    /// The most messages the port holds at once
    pub max_nb_messages: u32,
    /// Whether the caller sends to or receives from the port
    pub direction: PortDirection,
}

/// What the kernel's answer to a queuing receive request means: `None` when the queue is empty,
/// the kernel's error for any other failure, and otherwise the number of bytes received.
pub open spec fn receive_outcome(code: ReturnCode, bytes_read: usize) -> Result<Option<usize>, XngError> {
    if code == X_NOT_AVAILABLE {
        Ok(None)
    } else if code != X_NO_ERROR {
        Err(kernel_error(code))
    } else {
        Ok(Some(bytes_read))
    }
}

/// Interprets the kernel's answer to a queuing receive request.
///
/// `X_NOT_AVAILABLE` means that no message is queued: that is an empty queue, reported as
/// `Ok(None)`, not a failure. Every other error code is passed on.
pub fn receive_result(code: ReturnCode, bytes_read: usize) -> (r: Result<Option<usize>, XngError>)
    ensures
        r == receive_outcome(code, bytes_read),
{
    match XngError::from(code) {
        Err(XngError::NotAvailable) => Ok(None),
        Err(e) => Err(e),
        Ok(()) => Ok(Some(bytes_read)),
    }
}

/// What a receive of a port with capacity `n` through `channel` yields, for a buffer of
/// `buf_len` bytes.
pub open spec fn queue_recv_outcome(
    n: usize,
    channel: QueuingChannelView,
    port_id: QueuingPortId,
    buf_len: usize,
) -> Result<Option<usize>, XngError> {
    if recv_size_check(buf_len, n) is Err {
        Err(recv_size_check(buf_len, n)->Err_0)
    } else {
        receive_outcome(
            channel.receive_code(port_id, buf_len as nat),
            channel.messages[0].len() as usize,
        )
    }
}

/// The channel after a receive of a port with capacity `n`: unchanged when the buffer is refused.
pub open spec fn queue_after_recv(
    n: usize,
    channel: QueuingChannelView,
    port_id: QueuingPortId,
    buf_len: usize,
) -> QueuingChannelView {
    if recv_size_check(buf_len, n) is Err {
        channel
    } else {
        channel.received(port_id, buf_len as nat)
    }
}

/// The channel after each of `msgs` was sent through port `port_id`, in order, with no receive in
/// between.
pub open spec fn sent_all(
    channel: QueuingChannelView,
    port_id: QueuingPortId,
    msgs: Seq<Seq<u8>>,
) -> QueuingChannelView
    decreases msgs.len(),
{
    if msgs.len() == 0 {
        channel
    } else {
        sent_all(channel, port_id, msgs.drop_last()).sent(port_id, msgs.last())
    }
}

/// The messages that up to `k` successive receives of a port with capacity `n`, each into a
/// buffer of `buf_len` bytes, hand out, in the order they hand them out. It stops at the first
/// receive that yields no message.
pub open spec fn drained(
    n: usize,
    channel: QueuingChannelView,
    port_id: QueuingPortId,
    buf_len: usize,
    k: nat,
) -> Seq<Seq<u8>>
    decreases k,
{
    if k == 0 || !(queue_recv_outcome(n, channel, port_id, buf_len) matches Ok(Some(_))) {
        Seq::empty()
    } else {
        seq![channel.messages[0]] + drained(
            n,
            queue_after_recv(n, channel, port_id, buf_len),
            port_id,
            buf_len,
            (k - 1) as nat,
        )
    }
}

/// Sending messages that all fit, while the queue has room for them, appends them in order.
proof fn lemma_sent_all_appends(channel: QueuingChannelView, msgs: Seq<Seq<u8>>)
    requires
        channel.messages.len() + msgs.len() <= channel.max_nb_messages,
        forall|i: int| 0 <= i < msgs.len() ==> #[trigger] msgs[i].len() <= channel.max_message_size,
    ensures
        sent_all(channel, channel.port_id, msgs) == (QueuingChannelView {
            messages: channel.messages + msgs,
            ..channel
        }),
    decreases msgs.len(),
{
    if msgs.len() == 0 {
        assert(channel.messages + msgs =~= channel.messages);
    } else {
        let init = msgs.drop_last();
        assert forall|i: int| 0 <= i < init.len() implies #[trigger] init[i].len()
            <= channel.max_message_size by {
            assert(init[i] == msgs[i]);
        }
        lemma_sent_all_appends(channel, init);
        assert(msgs.last().len() <= channel.max_message_size);
        assert(channel.messages + init.push(msgs.last()) =~= (channel.messages + init).push(
            msgs.last(),
        ));
        assert(init.push(msgs.last()) =~= msgs);
    }
}

/// Receiving as many times as messages are queued hands them all out, oldest first.
proof fn lemma_drained_in_order(
    n: usize,
    channel: QueuingChannelView,
    buf_len: usize,
)
    requires
        buf_len >= n,
        forall|i: int|
            0 <= i < channel.messages.len() ==> #[trigger] channel.messages[i].len() <= buf_len,
    ensures
        drained(n, channel, channel.port_id, buf_len, channel.messages.len()) == channel.messages,
    decreases channel.messages.len(),
{
    let k = channel.messages.len();
    if k == 0 {
        assert(drained(n, channel, channel.port_id, buf_len, k) =~= channel.messages);
    } else {
        let rest = queue_after_recv(n, channel, channel.port_id, buf_len);
        assert(rest.messages == channel.messages.drop_first());
        assert forall|i: int| 0 <= i < rest.messages.len() implies #[trigger] rest.messages[i].len()
            <= buf_len by {
            assert(rest.messages[i] == channel.messages[i + 1]);
        }
        lemma_drained_in_order(n, rest, buf_len);
        assert(seq![channel.messages[0]] + channel.messages.drop_first() =~= channel.messages);
    }
}

/// FIFO order: when messages `m1, ..., mk` of at most `N` bytes each, no more than the queue's
/// depth, are sent to an empty queuing port with no receive in between, `k` receives of the
/// paired port of the same capacity hand them out as `m1, ..., mk`, in that order.
pub proof fn lemma_fifo(
    n: usize,
    channel: QueuingChannelView,
    msgs: Seq<Seq<u8>>,
    buf_len: usize,
)
    requires
        channel.messages.len() == 0,
        msgs.len() <= channel.max_nb_messages,
        n <= channel.max_message_size,
        forall|i: int| 0 <= i < msgs.len() ==> #[trigger] msgs[i].len() <= n,
        buf_len >= n,
    ensures
        forall|i: int| 0 <= i < msgs.len() ==> send_size_check(#[trigger] msgs[i].len() as usize, n) is Ok,
        drained(n, sent_all(channel, channel.port_id, msgs), channel.port_id, buf_len, msgs.len())
            == msgs,
{
    lemma_sent_all_appends(channel, msgs);
    let full = sent_all(channel, channel.port_id, msgs);
    assert(full.messages =~= msgs);
    lemma_drained_in_order(n, full, buf_len);
}

/// The creation request of a queuing port of capacity `N`, depth `max_nb_messages`, in the
/// given direction.
fn queuing_config<const N: usize>(max_nb_messages: u32, direction: PortDirection) -> (r:
    QueuingPortConfig)
    requires
        N <= u32::MAX,
    ensures
        r == (QueuingPortConfig { max_message_size: N as u32, max_nb_messages, direction }),
{
    QueuingPortConfig { max_message_size: N as u32, max_nb_messages, direction }
}

/// The sending end of a queuing port
pub struct QueuingSender<const N: usize> {
    port_id: QueuingPortId,
}

impl<const N: usize> QueuingSender<N> {
    /// The identifier of the port.
    pub closed spec fn port_id(&self) -> QueuingPortId {
        self.port_id
    }

    /// The creation request of a source port of capacity `N` holding up to `max_nb_messages`.
    pub fn config(max_nb_messages: u32) -> (r: QueuingPortConfig)
        requires
            N <= u32::MAX,
        ensures
            r == (QueuingPortConfig {
                max_message_size: N as u32,
                max_nb_messages,
                direction: PortDirection::Source,
            }),
    {
        queuing_config::<N>(max_nb_messages, PortDirection::Source)
    }

    /// The sender for the kernel's answer to its creation request: the port it was given, or the
    /// kernel's error.
    pub fn from_created(code: ReturnCode, port_id: QueuingPortId) -> (r: Result<Self, XngError>)
        ensures
            code == X_NO_ERROR ==> r is Ok && r->Ok_0.port_id() == port_id,
            code != X_NO_ERROR ==> r == Err::<Self, XngError>(kernel_error(code)),
    {
        match XngError::from(code) {
            Ok(()) => Ok(QueuingSender { port_id }),
            Err(e) => Err(e),
        }
    }

    /// Creates a source port of capacity `N` holding up to `max_nb_messages` on `channel`.
    pub fn new(channel: &QueuingChannel, max_nb_messages: u32) -> (r: Result<Self, XngError>)
        requires
            N <= u32::MAX,
        ensures
            ({
                let code = channel@.open_code(
                    QueuingPortConfig {
                        max_message_size: N as u32,
                        max_nb_messages,
                        direction: PortDirection::Source,
                    },
                );
                &&& code == X_NO_ERROR ==> r is Ok && r->Ok_0.port_id() == channel@.port_id
                &&& code != X_NO_ERROR ==> r == Err::<Self, XngError>(kernel_error(code))
            }),
    {
        let (code, port_id) = channel.open(Self::config(max_nb_messages));
        Self::from_created(code, port_id)
    }

    /// Sends a message
    ///
    /// `buf` must not be longer than `N`; a longer one is refused with `BufTooBig` and the port is
    /// not touched. Otherwise `buf` joins the back of the queue, and the result is what the port
    /// answered; a full queue acts as its overflow policy says.
    pub fn send(&self, channel: &mut QueuingChannel, buf: &[u8]) -> (r: Result<(), XngError>)
        ensures
            buf@.len() > N ==> r == send_size_check(buf@.len() as usize, N) && *final(channel)
                == *old(channel),
            buf@.len() <= N ==> r == status_result(old(channel)@.send_code(self.port_id(), buf@.len()))
                && final(channel)@ == old(channel)@.sent(self.port_id(), buf@),
    {
        match check_send_size(buf.len(), N) {
            Err(e) => return Err(e),
            Ok(()) => {},
        }
        let code = channel.send(self.port_id, buf);
        XngError::from(code)
    }

    /// Get the id of this queuing port
    pub fn id(&self) -> (r: QueuingPortId)
        ensures
            r == self.port_id(),
    {
        self.port_id
    }
}

/// The receiving end of a queuing port
pub struct QueuingReceiver<const N: usize> {
    port_id: QueuingPortId,
}

impl<const N: usize> QueuingReceiver<N> {
    /// The identifier of the port.
    pub closed spec fn port_id(&self) -> QueuingPortId {
        self.port_id
    }

    /// The creation request of a destination port of capacity `N` holding up to
    /// `max_nb_messages`.
    pub fn config(max_nb_messages: u32) -> (r: QueuingPortConfig)
        requires
            N <= u32::MAX,
        ensures
            r == (QueuingPortConfig {
                max_message_size: N as u32,
                max_nb_messages,
                direction: PortDirection::Destination,
            }),
    {
        queuing_config::<N>(max_nb_messages, PortDirection::Destination)
    }

    /// The receiver for the kernel's answer to its creation request: the port it was given, or
    /// the kernel's error.
    pub fn from_created(code: ReturnCode, port_id: QueuingPortId) -> (r: Result<Self, XngError>)
        ensures
            code == X_NO_ERROR ==> r is Ok && r->Ok_0.port_id() == port_id,
            code != X_NO_ERROR ==> r == Err::<Self, XngError>(kernel_error(code)),
    {
        match XngError::from(code) {
            Ok(()) => Ok(QueuingReceiver { port_id }),
            Err(e) => Err(e),
        }
    }

    /// Creates a destination port of capacity `N` holding up to `max_nb_messages` on `channel`.
    pub fn new(channel: &QueuingChannel, max_nb_messages: u32) -> (r: Result<Self, XngError>)
        requires
            N <= u32::MAX,
        ensures
            ({
                let code = channel@.open_code(
                    QueuingPortConfig {
                        max_message_size: N as u32,
                        max_nb_messages,
                        direction: PortDirection::Destination,
                    },
                );
                &&& code == X_NO_ERROR ==> r is Ok && r->Ok_0.port_id() == channel@.port_id
                &&& code != X_NO_ERROR ==> r == Err::<Self, XngError>(kernel_error(code))
            }),
    {
        let (code, port_id) = channel.open(Self::config(max_nb_messages));
        Self::from_created(code, port_id)
    }

    /// Receives the oldest queued message into `buf`
    ///
    /// `buf` must hold at least `N` bytes; a smaller one is refused with `BufTooSmall` before the
    /// port is asked. Returns `Ok(Some(len))` when a message was queued: it has left the queue and
    /// its `len` bytes are at the front of `buf`. Returns `Ok(None)` when the queue is empty, and
    /// the kernel's error otherwise.
    pub fn recv(&self, channel: &mut QueuingChannel, buf: &mut [u8]) -> (r: Result<
        Option<usize>,
        XngError,
    >)
        ensures
            r == queue_recv_outcome(N, old(channel)@, self.port_id(), old(buf)@.len() as usize),
            final(channel)@ == queue_after_recv(
                N,
                old(channel)@,
                self.port_id(),
                old(buf)@.len() as usize,
            ),
            r is Err ==> final(buf)@ == old(buf)@,
            r is Ok && r->Ok_0 is Some ==> {
                let n = r->Ok_0->Some_0;
                &&& n == old(channel)@.messages[0].len()
                &&& final(buf)@.len() == old(buf)@.len()
                &&& final(buf)@.subrange(0, n as int) == old(channel)@.messages[0]
            },
    {
        match check_recv_size(buf.len(), N) {
            Err(e) => return Err(e),
            Ok(()) => {},
        }
        let (code, bytes_read) = channel.receive(self.port_id, buf);
        receive_result(code, bytes_read)
    }

    /// Get the id of this queuing port
    pub fn id(&self) -> (r: QueuingPortId)
        ensures
            r == self.port_id(),
    {
        self.port_id
    }
}

} // verus!

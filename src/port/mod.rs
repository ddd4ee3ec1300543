//! Ports allow communication between the partitions in XNG
//!
//! # Types of Ports
//!
//! There are two different types of ports which differ slightly in semantics.
//!
//! A __Sampling Port__ retains the last message (if any). It allows for single producer multiple
//! consumer (SPMC). The maximum size of a message is capped at `N`, shorter messages however are
//! permissible.
//!
//! In contrast, a __Queuing Port__ retains up to `M` messages, of which each might be up to `N`
//! bytes big. The messages are guaranteed to be served in FIFO order. This type of port is single
//! producer single consumer (SPSC), so only two partitions can use one Queuing Port.
//!
//! Every operation checks the caller's buffer against `N` before the kernel is asked, so that a
//! message is never truncated and no buffer is ever overrun at the ABI boundary.
use vstd::prelude::*;

use crate::XngError;

pub mod channel;
pub mod queuing;
pub mod sampling;

verus! {

/// The kernel's code for a source port (`xSourcePort`).
pub const X_SOURCE_PORT: u32 = 0;

/// The kernel's code for a destination port (`xDestinationPort`).
pub const X_DESTINATION_PORT: u32 = 1;

/// The kernel's validity code of a message whose time to live has elapsed (`xInvalidMessage`).
pub const X_INVALID_MESSAGE: u32 = 0;

/// The kernel's validity code of a message that is still fresh (`xValidMessage`).
pub const X_VALID_MESSAGE: u32 = 1;

/// The direction of a port
#[derive(Debug, Clone, Copy, PartialEq, Eq, Structural)]
pub enum PortDirection {
    /// This port is a source
    Source,
    /// This port is a destination
    Destination,
}

/// The kernel's code of a port direction.
pub open spec fn direction_code(direction: PortDirection) -> u32 {
    match direction {
        PortDirection::Source => X_SOURCE_PORT,
        PortDirection::Destination => X_DESTINATION_PORT,
    }
}

impl PortDirection {
    /// The code that the kernel ABI uses for this direction.
    pub fn code(&self) -> (r: u32)
        ensures
            r == direction_code(*self),
    {
        match self {
            PortDirection::Source => X_SOURCE_PORT,
            PortDirection::Destination => X_DESTINATION_PORT,
        }
    }
}

/// Whether a number is one of the two validity codes of the kernel.
pub open spec fn is_validity_code(validity: u32) -> bool {
    validity == X_INVALID_MESSAGE || validity == X_VALID_MESSAGE
}

/// Checks if a message is valid
///
/// Returns true if the validity code says that the message was valid. The kernel promises to
/// report one of its two validity codes; any other number is a broken kernel contract and is not
/// accepted.
pub fn validity_to_bool(validity: u32) -> (r: bool)
    requires
        is_validity_code(validity),
    ensures
        r == (validity == X_VALID_MESSAGE),
{
    validity == X_VALID_MESSAGE
}

/// The pre-flight check of an outgoing message of `len` bytes against a capacity of `n` bytes.
pub open spec fn send_size_check(len: usize, n: usize) -> Result<(), XngError> {
    if len > n {
        Err(XngError::BufTooBig { buf_size: len, max_allowed: n })
    } else {
        Ok(())
    }
}

/// The pre-flight check of a receive buffer of `len` bytes against a capacity of `n` bytes.
pub open spec fn recv_size_check(len: usize, n: usize) -> Result<(), XngError> {
    if len < n {
        Err(XngError::BufTooSmall { buf_size: len, min_required: n })
    } else {
        Ok(())
    }
}

/// Checks an outgoing message of `len` bytes against a port capacity of `n` bytes.
///
/// A message longer than the port's capacity is refused with `BufTooBig`, so that no truncated
/// write is ever attempted.
pub fn check_send_size(len: usize, n: usize) -> (r: Result<(), XngError>)
    ensures
        r == send_size_check(len, n),
{
    if len > n {
        Err(XngError::BufTooBig { buf_size: len, max_allowed: n })
    } else {
        Ok(())
    }
}

/// Checks a receive buffer of `len` bytes against a port capacity of `n` bytes.
///
/// A buffer that could not hold a full message is refused with `BufTooSmall`, so that a message is
/// never cut short silently.
pub fn check_recv_size(len: usize, n: usize) -> (r: Result<(), XngError>)
    ensures
        r == recv_size_check(len, n),
{
    if len < n {
        Err(XngError::BufTooSmall { buf_size: len, min_required: n })
    } else {
        Ok(())
    }
}

} // verus!

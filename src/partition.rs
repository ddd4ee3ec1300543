//! Partition identity.
//!
//! The kernel assigns each partition an identifier in its static configuration. A partition finds
//! its own implicitly and a peer's by its configured name; both requests answer with a return code
//! and the identifier.
use vstd::prelude::*;

use crate::{kernel_error, ReturnCode, XngError, X_NO_ERROR};

verus! {

/// One partition's id type
pub type PartitionId = u32;

/// Interprets the kernel's answer to a partition-id request: the identifier it wrote, or the
/// kernel's error.
pub fn partition_id_from(code: ReturnCode, id: PartitionId) -> (r: Result<PartitionId, XngError>)
    ensures
        code == X_NO_ERROR ==> r == Ok::<PartitionId, XngError>(id),
        code != X_NO_ERROR ==> r == Err::<PartitionId, XngError>(kernel_error(code)),
{
    match XngError::from(code) {
        Ok(()) => Ok(id),
        Err(e) => Err(e),
    }
}

} // verus!

//! Reports to the kernel's health monitor.
//!
//! A fault that partition code cannot handle is reported to the health monitor with a short
//! diagnostic text. The kernel caps the length of such a message: a longer text is cut to the cap,
//! never written past it.
use vstd::prelude::*;

verus! {

/// The report message for a diagnostic `text` under a cap of `max_len` bytes: the text itself, cut
/// to its first `max_len` bytes when it is longer.
pub fn hm_message(text: &[u8], max_len: usize) -> (r: Vec<u8>)
    ensures
        r@.len() <= max_len,
        text@.len() <= max_len ==> r@ == text@,
        text@.len() > max_len ==> r@ == text@.subrange(0, max_len as int),
{
    let len: usize = if text.len() < max_len {
        text.len()
    } else {
        max_len
    };
    let mut r: Vec<u8> = Vec::new();
    let mut i: usize = 0;
    while i < len
        invariant
            len <= text@.len(),
            len <= max_len,
            i <= len,
            r@ == text@.subrange(0, i as int),
        decreases len - i,
    {
        r.push(text[i]);
        i = i + 1;
        assert(r@ =~= text@.subrange(0, i as int));
    }
    assert(text@.len() <= max_len ==> text@.subrange(0, len as int) =~= text@);
    r
}

} // verus!

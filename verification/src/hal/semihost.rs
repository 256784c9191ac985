//! ARM semihosting console (QEMU with `-semihosting`).
use vstd::prelude::*;

verus! {

/// Size of the buffer handed to SYS_WRITE0, terminator included.
pub const SEMIHOST_BUF_LEN: usize = 96;

/// Number of message bytes that fit before the terminating zero.
pub open spec fn kept(len: nat) -> int {
    if len < 95 {
        len as int
    } else {
        95
    }
}

/// The zero-terminated buffer SYS_WRITE0 prints: the first (at most 95) bytes of
/// `msg`, then zeros.
pub fn message_buffer(msg: &[u8]) -> (r: [u8; 96])
    ensures
        forall|i: int|
            0 <= i < 96 ==> #[trigger] r@[i] == (if i < kept(msg@.len()) {
                msg@[i]
            } else {
                0
            }),
{
    let mut buf = [0u8; 96];
    let len = if msg.len() < 95 {
        msg.len()
    } else {
        95
    };
    let mut i: usize = 0;
    while i < len
        invariant
            len == kept(msg@.len()),
            len <= msg@.len(),
            i <= len,
            buf@.len() == 96,
            forall|k: int| 0 <= k < 96 ==> #[trigger] buf@[k] == (if k < i { msg@[k] } else { 0 }),
        decreases len - i,
    {
        buf[i] = msg[i];
        i = i + 1;
    }
    buf
}

} // verus!

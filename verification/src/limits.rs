//! The numbers that the handle and its callers agree on.

use vstd::prelude::*;

verus! {

/// The descriptor value that stands for "no resource held".
pub const UNSET_FD: i32 = -1;

/// The code answered for a request that is turned down before it reaches the
/// OS.
pub const RET_ERR: i32 = -1;

/// The most packets a caller takes off the socket in one cycle.
pub const ONCE_PROCESS_NETPACKET_LIMIT: i32 = 100;

/// The largest packet buffer, in bytes, that a caller hands over.
pub const MAX_PACKET_BUF_SIZE: usize = 256;

/// How long a caller sleeps between two attempts to send, in microseconds.
pub const SEND_RETRY_SLEEP_TIME: u64 = 10000;

/// How many attempts to send a caller makes before it gives up.
pub const SEND_RETRY_LIMIT: i32 = 32;

/// A descriptor names an open resource exactly when it is not negative.
pub open spec fn is_open(fd: i32) -> bool {
    fd >= 0
}

} // verus!

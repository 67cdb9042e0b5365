//! Requests to change what an epoll instance watches.

use vstd::prelude::*;

verus! {

/// The operation code that takes a descriptor out of an epoll instance.
pub const EPOLL_CTL_DEL: i32 = 2;

/// What is watched for on a descriptor, and the word that the OS hands back
/// when it happens.
#[derive(Clone, Copy, Debug, PartialEq, Eq, Structural)]
pub struct EpollEvent {
    /// The events of interest, one bit each.
    pub events: u32,
    /// The caller's own word, returned with every report.
    pub data: u64,
}

/// One control call, argument by argument, as the host is to place it.
#[derive(Clone, Copy, Debug, PartialEq, Eq)]
pub struct CtlCall {
    /// The epoll instance to act on.
    pub epoll_fd: i32,
    /// The operation code.
    pub op: i32,
    /// The descriptor whose registration changes.
    pub fd: i32,
    /// The event description to pass along; `None` stands for a null pointer.
    pub event: Option<EpollEvent>,
}

/// Reads `libc::EPOLL_CTL_DEL`. libc gives that constant the value 2 on every
/// target on which it declares the epoll calls; the contract claims no more
/// than that.
#[verifier::external_body]
pub(crate) fn delete_op() -> (code: i32)
    ensures
        code == EPOLL_CTL_DEL,
{
    libc::EPOLL_CTL_DEL
}

} // verus!

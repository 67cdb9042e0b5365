//! What holds of the handle in every state and for every answer of the OS.

use crate::handle::EpollManager;
use crate::limits::{is_open, UNSET_FD};
use vstd::prelude::*;

verus! {

/// After a successful creation the handle holds the new descriptor, which is
/// open, and leaves the socket alone. It reports a usable epoll descriptor
/// exactly when that descriptor is strictly positive: 0 is open and not
/// usable.
pub proof fn created_descriptor_is_kept(handle: EpollManager, created: i32)
    requires
        is_open(created),
    ensures
        handle.after_create(created).epoll_fd == created,
        is_open(handle.after_create(created).epoll_fd),
        handle.after_create(created).is_valid_epoll() <==> created > 0,
        handle.after_create(created).socket_fd == handle.socket_fd,
{
}

/// A failed creation leaves the handle exactly as it was.
pub proof fn failed_creation_changes_nothing(handle: EpollManager, code: i32)
    requires
        !is_open(code),
    ensures
        handle.after_create(code) == handle,
{
}

/// Closing the epoll descriptor of a handle that holds none changes nothing,
/// so closing twice is closing once.
pub proof fn epoll_close_is_idempotent(handle: EpollManager)
    ensures
        !is_open(handle.epoll_fd) ==> handle.after_epoll_close() == handle,
        handle.after_epoll_close().after_epoll_close() == handle.after_epoll_close(),
{
}

/// Closing the socket descriptor of a handle that holds none changes nothing,
/// so closing twice is closing once.
pub proof fn socket_close_is_idempotent(handle: EpollManager)
    ensures
        !is_open(handle.socket_fd) ==> handle.after_socket_close() == handle,
        handle.after_socket_close().after_socket_close() == handle.after_socket_close(),
{
}

/// Closing an open epoll descriptor leaves the unset value in its place and
/// the socket descriptor untouched. The transition reads no answer of the OS,
/// so none can alter it.
pub proof fn epoll_close_unsets(handle: EpollManager)
    requires
        is_open(handle.epoll_fd),
    ensures
        handle.after_epoll_close().epoll_fd == UNSET_FD,
        handle.after_epoll_close().socket_fd == handle.socket_fd,
        !handle.after_epoll_close().is_valid_epoll(),
{
}

/// Closing an open socket descriptor leaves the unset value in its place and
/// the epoll descriptor untouched. The transition reads no answer of the OS,
/// so none can alter it.
pub proof fn socket_close_unsets(handle: EpollManager)
    requires
        is_open(handle.socket_fd),
    ensures
        handle.after_socket_close().socket_fd == UNSET_FD,
        handle.after_socket_close().epoll_fd == handle.epoll_fd,
{
}

/// Whatever the handle held, after a close the descriptor in question is not
/// open.
pub proof fn closed_descriptor_is_not_open(handle: EpollManager)
    ensures
        !is_open(handle.after_epoll_close().epoll_fd),
        !is_open(handle.after_socket_close().socket_fd),
{
}

} // verus!

//! The handle: two descriptors and the transitions between their states.

use crate::control::{delete_op, CtlCall, EpollEvent, EPOLL_CTL_DEL};
use crate::limits::{is_open, RET_ERR, UNSET_FD};
use vstd::prelude::*;

verus! {

/// An epoll descriptor and the descriptor of the socket polled through it.
///
/// Each field holds either an open descriptor (not negative) or a negative
/// value, by default [`UNSET_FD`], that stands for "nothing held".
pub struct EpollManager {
    /// Descriptor of the socket.
    pub socket_fd: i32,
    /// Descriptor of the epoll instance.
    pub epoll_fd: i32,
}

impl Default for EpollManager {
    /// A handle that holds nothing.
    fn default() -> (fresh: Self)
        ensures
            fresh.socket_fd == UNSET_FD,
            fresh.epoll_fd == UNSET_FD,
            !fresh.is_valid_epoll(),
    {
        Self { socket_fd: UNSET_FD, epoll_fd: UNSET_FD }
    }
}

impl EpollManager {
    /// Whether the epoll descriptor counts as usable: strictly positive.
    /// Descriptor 0 is an open descriptor and yet not a usable epoll one.
    pub open spec fn valid_epoll(&self) -> bool {
        self.epoll_fd > 0
    }

    /// The handle once the OS has answered a request for a new epoll
    /// instance with `created`: a descriptor is kept, a failure changes
    /// nothing.
    pub open spec fn after_create(self, created: i32) -> Self {
        if is_open(created) {
            EpollManager { socket_fd: self.socket_fd, epoll_fd: created }
        } else {
            self
        }
    }

    /// The handle once its epoll descriptor has been given up for closing.
    pub open spec fn after_epoll_close(self) -> Self {
        if is_open(self.epoll_fd) {
            EpollManager { socket_fd: self.socket_fd, epoll_fd: UNSET_FD }
        } else {
            self
        }
    }

    /// The handle once its socket descriptor has been given up for closing.
    pub open spec fn after_socket_close(self) -> Self {
        if is_open(self.socket_fd) {
            EpollManager { socket_fd: UNSET_FD, epoll_fd: self.epoll_fd }
        } else {
            self
        }
    }

    /// The socket descriptor as stored.
    pub fn socket_fd(&self) -> (fd: i32)
        ensures
            fd == self.socket_fd,
    {
        self.socket_fd
    }

    /// The epoll descriptor as stored.
    pub fn epoll_fd(&self) -> (fd: i32)
        ensures
            fd == self.epoll_fd,
    {
        self.epoll_fd
    }

    /// Whether the epoll descriptor is usable, that is strictly positive.
    #[verifier::when_used_as_spec(valid_epoll)]
    pub fn is_valid_epoll(&self) -> (valid: bool)
        ensures
            valid == (self.epoll_fd > 0),
    {
        self.epoll_fd > 0
    }

    /// Stores `fd` as the socket descriptor, whatever its value.
    pub fn socket_set_fd(&mut self, fd: i32)
        ensures
            final(self).socket_fd == fd,
            final(self).epoll_fd == old(self).epoll_fd,
    {
        self.socket_fd = fd
    }

    /// Takes in `created`, the answer of the OS to a request for a new epoll
    /// instance. A descriptor (not negative) replaces the stored epoll
    /// descriptor and comes back as `Ok`; a failure code leaves the handle as
    /// it was and comes back as `Err`.
    pub fn create_epoll_fd(&mut self, created: i32) -> (outcome: Result<i32, i32>)
        ensures
            *final(self) == old(self).after_create(created),
            is_open(created) ==> outcome == Ok::<i32, i32>(created),
            !is_open(created) ==> outcome == Err::<i32, i32>(created),
    {
        if created < 0 {
            Err(created)
        } else {
            self.epoll_fd = created;
            Ok(created)
        }
    }

    /// Decides what becomes of a request to add, modify or delete the
    /// registration of `fd` in the epoll instance `epoll_fd`.
    ///
    /// A delete is always placed, and always without an event description:
    /// the OS ignores it there. Any other operation needs one: without it the
    /// request is turned down with [`RET_ERR`] and no call is to be made;
    /// with it the call is placed as given. What the OS answers to a placed
    /// call is the caller's result as it stands.
    pub fn epoll_ctl(
        fd: i32,
        op: i32,
        event: Option<EpollEvent>,
        epoll_fd: i32,
    ) -> (request: Result<CtlCall, i32>)
        ensures
            op == EPOLL_CTL_DEL ==> request == Ok::<CtlCall, i32>(
                (CtlCall { epoll_fd, op, fd, event: None }),
            ),
            op != EPOLL_CTL_DEL && event is Some ==> request == Ok::<CtlCall, i32>(
                (CtlCall { epoll_fd, op, fd, event }),
            ),
            op != EPOLL_CTL_DEL && event is None ==> request == Err::<CtlCall, i32>(RET_ERR),
    {
        if op == delete_op() {
            Ok(CtlCall { epoll_fd, op, fd, event: None })
        } else {
            match event {
                Some(_) => Ok(CtlCall { epoll_fd, op, fd, event }),
                None => Err(RET_ERR),
            }
        }
    }

    /// Reads `ret`, the answer of the OS to a wait on an epoll instance: the
    /// number of ready events, 0 when the timeout ran out, or a negative
    /// failure code. A failure comes back as `Err`, anything else as `Ok`,
    /// each with `ret` itself. Nothing is retried here.
    pub fn epoll_wait(ret: i32) -> (outcome: Result<i32, i32>)
        ensures
            ret >= 0 ==> outcome == Ok::<i32, i32>(ret),
            ret < 0 ==> outcome == Err::<i32, i32>(ret),
    {
        if ret < 0 {
            Err(ret)
        } else {
            Ok(ret)
        }
    }

    /// Gives up the epoll descriptor. An open one is handed out for the host
    /// to close and the handle forgets it at once, so that no answer of the
    /// OS can keep it; otherwise nothing changes.
    pub fn epoll_close(&mut self) -> (to_close: Option<i32>)
        ensures
            *final(self) == old(self).after_epoll_close(),
            is_open(old(self).epoll_fd) ==> to_close == Some(old(self).epoll_fd),
            !is_open(old(self).epoll_fd) ==> to_close is None,
    {
        if self.epoll_fd >= 0 {
            let fd: i32 = self.epoll_fd;
            self.epoll_fd = UNSET_FD;
            Some(fd)
        } else {
            None
        }
    }

    /// Gives up the socket descriptor. An open one is handed out for the host
    /// to close and the handle forgets it at once, so that no answer of the
    /// OS can keep it; otherwise nothing changes.
    pub fn socket_close(&mut self) -> (to_close: Option<i32>)
        ensures
            *final(self) == old(self).after_socket_close(),
            is_open(old(self).socket_fd) ==> to_close == Some(old(self).socket_fd),
            !is_open(old(self).socket_fd) ==> to_close is None,
    {
        if self.socket_fd >= 0 {
            let fd: i32 = self.socket_fd;
            self.socket_fd = UNSET_FD;
            Some(fd)
        } else {
            None
        }
    }

    /// Reads `res`, the answer of the OS to closing the socket. Only a
    /// strictly positive answer is taken for a failure. The OS reports a
    /// failed close with a negative value, which therefore passes as `Ok`:
    /// callers rely on exactly this reading.
    pub fn socket_close_outcome(res: i32) -> (outcome: Result<(), i32>)
        ensures
            res > 0 ==> outcome == Err::<(), i32>(res),
            res <= 0 ==> outcome == Ok::<(), i32>(()),
    {
        if res > 0 {
            Err(res)
        } else {
            Ok(())
        }
    }
}

} // verus!

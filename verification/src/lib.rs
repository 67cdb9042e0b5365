//! Descriptor bookkeeping for an epoll instance and the socket that is polled
//! through it.
//!
//! The host process owns the system calls. This crate owns the decisions
//! around them: which call is placed, with which arguments, and how the
//! handle's two descriptors change once the OS has answered. Every decision
//! is a function from plain values to plain values and carries a contract.

pub mod control;
pub mod handle;
pub mod laws;
pub mod limits;

pub use control::{CtlCall, EpollEvent, EPOLL_CTL_DEL};
pub use handle::EpollManager;
pub use limits::{
    MAX_PACKET_BUF_SIZE, ONCE_PROCESS_NETPACKET_LIMIT, RET_ERR, SEND_RETRY_LIMIT,
    SEND_RETRY_SLEEP_TIME, UNSET_FD,
};

//! A non-blocking TCP connection driven by readiness notifications from a reactor:
//! it decodes readiness masks, keeps a small lifecycle state, buffers input with
//! CRLF line framing, sends bytes and files, and closes its socket on release.
pub mod buffer;
pub mod connection;
pub mod readiness;
mod sys;

pub use buffer::{Buffer, ReadStatus};
pub use sys::ReadFault;
pub use connection::{transfer_count, Connection, EventLoop, InetAddr, NetError, READ_INTEREST};
pub use readiness::{EventSet, Revents, State};

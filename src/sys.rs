//! The system calls that a connection makes, through nix.
use vstd::prelude::*;
use nix::errno::Errno;
use crate::connection::InetAddr;

verus! {

#[verifier::external_type_specification]
#[verifier::external_body]
pub struct ExErrno(nix::errno::Errno);


/// Why a read brought no bytes, other than an orderly end of stream.
#[derive(Debug)]
pub enum ReadFault {
    /// Nothing is available now on a non-blocking descriptor.
    WouldBlock,
    /// Any other failure of the call.
    Os(Errno),
}

/// Relies on nix::unistd::read: it fills at most `buf.len()` bytes of `buf` and
/// reports how many, or fails; `EAGAIN` is told apart from the other failures.
#[verifier::external_body]
pub(crate) fn read_fd(fd: i32, buf: &mut Vec<u8>) -> (r: Result<usize, ReadFault>)
    ensures
        final(buf)@.len() == old(buf)@.len(),
        r matches Ok(n) ==> n <= old(buf)@.len(),
{
    match nix::unistd::read(fd, buf.as_mut_slice()) {
        Ok(n) => Ok(n),
        Err(Errno::EAGAIN) => Err(ReadFault::WouldBlock),
        Err(e) => Err(ReadFault::Os(e)),
    }
}

/// Relies on nix::unistd::write: one write of `buf`, reporting how many bytes
/// the descriptor took, at most `buf.len()`.
#[verifier::external_body]
pub(crate) fn write_fd(fd: i32, buf: &[u8]) -> (r: Result<usize, Errno>)
    ensures
        r matches Ok(n) ==> n <= buf@.len(),
{
    nix::unistd::write(fd, buf)
}

/// Relies on nix::sys::socket::getsockname into a `SockaddrStorage` and its
/// `Display`: the local address of a socket, `host:port` for an IP socket. An address
/// that nix cannot hold comes back as an error, never as a panic.
#[verifier::external_body]
pub(crate) fn local_address(fd: i32) -> (r: Result<String, Errno>) {
    match nix::sys::socket::getsockname::<nix::sys::socket::SockaddrStorage>(fd) {
        Ok(a) => Ok(a.to_string()),
        Err(e) => Err(e),
    }
}

/// Relies on nix::sys::socket::getpeername into a `SockaddrStorage` and its
/// `Display`: the peer address of a connected socket, `host:port` for an IP socket.
/// An address that nix cannot hold comes back as an error, never as a panic.
#[verifier::external_body]
pub(crate) fn peer_address(fd: i32) -> (r: Result<String, Errno>) {
    match nix::sys::socket::getpeername::<nix::sys::socket::SockaddrStorage>(fd) {
        Ok(a) => Ok(a.to_string()),
        Err(e) => Err(e),
    }
}

/// Relies on nix::sys::socket::socket: a new IPv4 TCP stream socket with
/// close-on-exec set. A descriptor that the kernel hands out is never negative.
#[verifier::external_body]
pub(crate) fn tcp_socket() -> (r: Result<i32, Errno>)
    ensures
        r matches Ok(fd) ==> fd >= 0,
{
    nix::sys::socket::socket(
        nix::sys::socket::AddressFamily::Inet,
        nix::sys::socket::SockType::Stream,
        nix::sys::socket::SockFlag::SOCK_CLOEXEC,
        nix::sys::socket::SockProtocol::Tcp,
    )
}

/// Relies on nix::sys::socket::connect, with the address built by
/// nix::sys::socket::SockaddrIn::new: connects `fd` to `addr`.
#[verifier::external_body]
pub(crate) fn connect_fd(fd: i32, addr: &InetAddr) -> (r: Result<(), Errno>) {
    let sin = nix::sys::socket::SockaddrIn::new(addr.a, addr.b, addr.c, addr.d, addr.port);
    nix::sys::socket::connect(fd, &sin)
}

/// Relies on nix::sys::socket::accept4: takes one pending connection off a
/// listener, with close-on-exec and non-blocking set at once.
#[verifier::external_body]
pub(crate) fn accept_fd(listen_fd: i32) -> (r: Result<i32, Errno>)
    ensures
        r matches Ok(fd) ==> fd >= 0,
{
    nix::sys::socket::accept4(
        listen_fd,
        nix::sys::socket::SockFlag::SOCK_CLOEXEC | nix::sys::socket::SockFlag::SOCK_NONBLOCK,
    )
}

/// Relies on nix::sys::socket::setsockopt with `sockopt::TcpNoDelay`.
#[verifier::external_body]
pub(crate) fn set_tcp_no_delay(fd: i32, on: bool) -> (r: Result<(), Errno>) {
    nix::sys::socket::setsockopt(fd, nix::sys::socket::sockopt::TcpNoDelay, &on)
}

/// Relies on nix::sys::socket::setsockopt with `sockopt::KeepAlive`.
#[verifier::external_body]
pub(crate) fn set_keep_alive(fd: i32, on: bool) -> (r: Result<(), Errno>) {
    nix::sys::socket::setsockopt(fd, nix::sys::socket::sockopt::KeepAlive, &on)
}

/// Relies on nix::sys::socket::shutdown with `Shutdown::Both`.
#[verifier::external_body]
pub(crate) fn shutdown_both(fd: i32) -> (r: Result<(), Errno>)
    opens_invariants none
    no_unwind
{
    nix::sys::socket::shutdown(fd, nix::sys::socket::Shutdown::Both)
}

/// Relies on nix::fcntl::fcntl with `F_GETFL`: it succeeds exactly on an open
/// descriptor.
#[verifier::external_body]
pub(crate) fn is_open(fd: i32) -> (r: bool)
    opens_invariants none
    no_unwind
{
    nix::fcntl::fcntl(fd, nix::fcntl::FcntlArg::F_GETFL).is_ok()
}

/// Relies on nix::unistd::close: releases the descriptor.
#[verifier::external_body]
pub(crate) fn close_fd(fd: i32) -> (r: Result<(), Errno>)
    opens_invariants none
    no_unwind
{
    nix::unistd::close(fd)
}

/// Relies on nix::fcntl::open: opens `path` read-only.
#[verifier::external_body]
pub(crate) fn open_read_only(path: &str) -> (r: Result<i32, Errno>)
    ensures
        r matches Ok(fd) ==> fd >= 0,
{
    nix::fcntl::open(path, nix::fcntl::OFlag::O_RDONLY, nix::sys::stat::Mode::empty())
}

/// Relies on nix::sys::stat::fstat: the size in bytes of the open file `fd`,
/// which the kernel never reports as negative.
#[verifier::external_body]
pub(crate) fn file_size(fd: i32) -> (r: Result<u64, Errno>) {
    match nix::sys::stat::fstat(fd) {
        Ok(st) => Ok(st.st_size as u64),
        Err(e) => Err(e),
    }
}

/// Relies on nix::sys::sendfile::sendfile: copies up to `count` bytes from the
/// current offset of `in_fd` to `out_fd` inside the kernel, and reports how many.
#[verifier::external_body]
pub(crate) fn send_file_fd(out_fd: i32, in_fd: i32, count: usize) -> (r: Result<usize, Errno>)
    ensures
        r matches Ok(n) ==> n <= count,
{
    nix::sys::sendfile::sendfile(out_fd, in_fd, None, count)
}

} // verus!

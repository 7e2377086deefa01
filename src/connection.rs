//! One TCP connection: its descriptor, lifecycle state, buffers and addresses.
use std::collections::HashMap;
use vstd::prelude::*;
use nix::errno::Errno;
use crate::buffer::{line_of, rest_of, opt_bytes, Buffer, ReadStatus};
use crate::readiness::{next_state, EventSet, Revents, State, EPOLLERR, EPOLLHUP, EPOLLIN, EPOLLOUT};
use crate::sys::{
    accept_fd, close_fd, connect_fd, file_size, is_open, local_address, open_read_only,
    peer_address, send_file_fd, set_keep_alive, set_tcp_no_delay, shutdown_both, tcp_socket,
    write_fd,
};

verus! {

/// The interest set that `register_read` asks for: hang-up, error, output and input,
/// level-triggered (no edge-trigger bit).
pub const READ_INTEREST: u32 = EPOLLHUP | EPOLLERR | EPOLLOUT | EPOLLIN;

/// Why a connection could not be made or an operation failed.
#[derive(Debug)]
pub enum NetError {
    /// The descriptor is not one that a connection can own.
    InvalidDescriptor,
    /// The local or peer address of the socket could not be read.
    Address(Errno),
    /// No socket could be created.
    Socket(Errno),
    /// No pending connection could be accepted.
    Accept(Errno),
    /// A socket option could not be set.
    SockOpt(Errno),
    /// The file could not be opened.
    Open(Errno),
    /// The size of the file could not be read.
    Stat(Errno),
    /// The kernel transfer from the file failed.
    Transfer(Errno),
}

/// The registrations that the reactor keeps: the interest set of each watched
/// descriptor. The reactor's multiplexing consults it; connections ask it to watch
/// them or to stop.
pub struct EventLoop {
    interests: HashMap<i32, u32>,
}

impl EventLoop {
    /// The interest set registered for each descriptor.
    pub closed spec fn registrations(&self) -> Map<i32, u32> {
        self.interests@
    }

    /// A table with no registration.
    pub fn new() -> (r: EventLoop)
        ensures
            r.registrations() == Map::<i32, u32>::empty(),
    {
        EventLoop { interests: HashMap::new() }
    }

    /// Registers `fd` (again) with the interest set `interest`.
    pub fn reregister(&mut self, fd: i32, interest: u32)
        ensures
            final(self).registrations() == old(self).registrations().insert(fd, interest),
    {
        broadcast use vstd::std_specs::hash::group_hash_axioms;

        self.interests.insert(fd, interest);
    }

    /// Removes the registration of `fd`.
    pub fn deregister(&mut self, fd: i32)
        ensures
            final(self).registrations() == old(self).registrations().remove(fd),
    {
        broadcast use vstd::std_specs::hash::group_hash_axioms;

        self.interests.remove(&fd);
    }

    /// The interest set registered for `fd`, if any.
    pub fn interest(&self, fd: i32) -> (r: Option<u32>)
        ensures
            r == (if self.registrations().contains_key(fd) {
                Some(self.registrations()[fd])
            } else {
                None
            }),
    {
        broadcast use vstd::std_specs::hash::group_hash_axioms;

        match self.interests.get(&fd) {
            Some(i) => Some(*i),
            None => None,
        }
    }
}

/// An IPv4 socket address: the four octets of the host, most significant first,
/// and a port.
#[derive(Debug, Clone, Copy, PartialEq, Eq, Structural)]
pub struct InetAddr {
    pub a: u8,
    pub b: u8,
    pub c: u8,
    pub d: u8,
    pub port: u16,
}

/// How many bytes one transfer of a file of `size` bytes asks for: the whole file,
/// or as much as a `usize` can count.
pub fn transfer_count(size: u64) -> (r: usize)
    ensures
        r as int == if size <= usize::MAX as u64 {
            size as int
        } else {
            usize::MAX as int
        },
{
    if size <= usize::MAX as u64 {
        size as usize
    } else {
        usize::MAX
    }
}

/// A non-blocking TCP connection that owns its descriptor.
pub struct Connection {
    fd: i32,
    state: State,
    input_buf: Buffer,
    output_buf: Buffer,
    local_addr: String,
    peer_addr: String,
    revents: Revents,
}

impl Connection {
    pub closed spec fn descriptor(&self) -> i32 {
        self.fd
    }

    pub closed spec fn state_spec(&self) -> State {
        self.state
    }

    pub closed spec fn input(&self) -> Buffer {
        self.input_buf
    }

    pub closed spec fn output(&self) -> Buffer {
        self.output_buf
    }

    pub closed spec fn local(&self) -> Seq<char> {
        self.local_addr@
    }

    pub closed spec fn peer(&self) -> Seq<char> {
        self.peer_addr@
    }

    pub closed spec fn last_revents(&self) -> Revents {
        self.revents
    }

    /// Everything but the state and the input buffer is as in `o`.
    pub open spec fn same_but_state_and_input(&self, o: Connection) -> bool {
        &&& self.descriptor() == o.descriptor()
        &&& self.output() == o.output()
        &&& self.local() == o.local()
        &&& self.peer() == o.peer()
        &&& self.last_revents() == o.last_revents()
    }

    /// A connection owns a valid descriptor, never 0 or negative. The constructors
    /// establish this, and no operation changes the descriptor.
    pub open spec fn wf(&self) -> bool {
        self.descriptor() > 0
    }

    /// A connection as made: valid, `Ready`, with empty buffers, no refill attempted
    /// and an empty mask.
    pub open spec fn is_fresh(&self) -> bool {
        &&& self.wf()
        &&& self.state_spec() == State::Ready
        &&& self.input()@ == Seq::<u8>::empty()
        &&& self.output()@ == Seq::<u8>::empty()
        &&& self.input().fills() == 0
        &&& self.last_revents().bits == 0
    }

    /// Whether the connection is still open, as seen from its state.
    pub open spec fn connected_spec(&self) -> bool {
        self.state_spec() != State::Closed
    }

    /// Wraps the connected socket `fd`, reading its local and peer addresses once.
    /// The connection starts `Ready`, with empty buffers and an empty mask.
    pub fn new(fd: i32) -> (r: Result<Connection, NetError>)
        requires
            fd > 0,
        ensures
            r matches Ok(c) ==> c.descriptor() == fd && c.is_fresh(),
            r matches Err(e) ==> e is Address,
    {
        let local_addr = match local_address(fd) {
            Ok(a) => a,
            Err(e) => return Err(NetError::Address(e)),
        };
        let peer_addr = match peer_address(fd) {
            Ok(a) => a,
            Err(e) => return Err(NetError::Address(e)),
        };
        Ok(
            Connection {
                fd,
                state: State::Ready,
                input_buf: Buffer::new(),
                output_buf: Buffer::new(),
                local_addr,
                peer_addr,
                revents: Revents::empty(),
            },
        )
    }

    /// Takes ownership of the descriptor `fd` that a system call handed out and wraps
    /// it. A descriptor that is 0 or negative is refused; where it cannot be wrapped,
    /// `fd` is closed again.
    pub fn adopt(fd: i32) -> (r: Result<Connection, NetError>)
        ensures
            fd <= 0 <==> r matches Err(NetError::InvalidDescriptor),
            r matches Ok(c) ==> c.descriptor() == fd && c.is_fresh(),
            r matches Err(e) ==> e is InvalidDescriptor || e is Address,
    {
        if fd <= 0 {
            if fd == 0 {
                let _ = close_fd(fd);
            }
            return Err(NetError::InvalidDescriptor);
        }
        let r = Connection::new(fd);
        if r.is_err() {
            let _ = close_fd(fd);
        }
        r
    }

    /// Opens an IPv4 TCP socket (close-on-exec, in blocking mode), connects it to
    /// `addr` and wraps it. The outcome of the connect itself is not checked: where it
    /// failed, the socket has no peer, reading the peer address fails, and the result
    /// is `Err(Address)` with the socket closed again.
    pub fn connect(addr: &InetAddr) -> (r: Result<Connection, NetError>)
        ensures
            r matches Ok(c) ==> c.is_fresh(),
            r matches Err(e) ==> e is Socket || e is Address || e is InvalidDescriptor,
    {
        let fd = match tcp_socket() {
            Ok(fd) => fd,
            Err(e) => return Err(NetError::Socket(e)),
        };
        let _ = connect_fd(fd, addr);
        Connection::adopt(fd)
    }

    /// Accepts one pending connection on `listen_fd` (close-on-exec and non-blocking),
    /// turns on no-delay and keep-alive, and wraps it. The accepted socket is closed
    /// again where a later step fails.
    pub fn accept(listen_fd: i32) -> (r: Result<Connection, NetError>)
        ensures
            r matches Ok(c) ==> c.is_fresh(),
            r matches Err(e) ==> e is Accept || e is SockOpt || e is Address
                || e is InvalidDescriptor,
    {
        let fd = match accept_fd(listen_fd) {
            Ok(fd) => fd,
            Err(e) => return Err(NetError::Accept(e)),
        };
        if let Err(e) = set_tcp_no_delay(fd, true) {
            let _ = close_fd(fd);
            return Err(NetError::SockOpt(e));
        }
        if let Err(e) = set_keep_alive(fd, true) {
            let _ = close_fd(fd);
            return Err(NetError::SockOpt(e));
        }
        Connection::adopt(fd)
    }

    /// Turns the no-delay option of the socket on or off.
    pub fn set_no_delay(&mut self, on: bool) -> (r: Result<(), NetError>)
        ensures
            *final(self) == *old(self),
            r matches Err(e) ==> e is SockOpt,
    {
        match set_tcp_no_delay(self.fd, on) {
            Ok(()) => Ok(()),
            Err(e) => Err(NetError::SockOpt(e)),
        }
    }

    /// Records `revents` as the last mask seen.
    pub fn set_revents(&mut self, revents: &Revents)
        ensures
            final(self).last_revents() == *revents,
            final(self).state_spec() == old(self).state_spec(),
            final(self).input() == old(self).input(),
            final(self).output() == old(self).output(),
            final(self).descriptor() == old(self).descriptor(),
            final(self).local() == old(self).local(),
            final(self).peer() == old(self).peer(),
    {
        self.revents = *revents;
    }

    /// The last mask seen.
    pub fn get_revents(&self) -> (r: Revents)
        ensures
            r == self.last_revents(),
    {
        self.revents
    }

    /// Whether the connection has not reached `Closed`.
    pub fn connected(&self) -> (r: bool)
        ensures
            r == self.connected_spec(),
    {
        self.state != State::Closed
    }

    /// The peer address, as read when the connection was made.
    pub fn get_peer_addr(&self) -> (r: String)
        ensures
            r@ == self.peer(),
    {
        self.peer_addr.clone()
    }

    /// The local address, as read when the connection was made.
    pub fn get_local_addr(&self) -> (r: String)
        ensures
            r@ == self.local(),
    {
        self.local_addr.clone()
    }

    /// Handles one readiness notification. The state is set to `Ready` (a closed
    /// connection stays closed); pending input is read into the input buffer; pending
    /// output is written as far as the socket takes it; an error, or a hang-up with no
    /// input left, closes the connection. Returns the new state.
    pub fn dispatch(&mut self, revents: Revents) -> (r: State)
        ensures
            r == next_state(old(self).state_spec(), revents),
            r == final(self).state_spec(),
            revents.error_spec() ==> r == State::Closed,
            revents.hup_spec() && !revents.readable_spec() ==> r == State::Closed,
            final(self).last_revents() == revents,
            final(self).descriptor() == old(self).descriptor(),
            final(self).local() == old(self).local(),
            final(self).peer() == old(self).peer(),
            revents.readable_spec() ==> {
                &&& final(self).input().fills() == old(self).input().fills() + 1
                &&& old(self).input()@.is_prefix_of(final(self).input()@)
            },
            !revents.readable_spec() ==> final(self).input() == old(self).input(),
            revents.writeable_spec() ==> exists|n: int|
                0 <= n <= old(self).output()@.len()
                    && final(self).output()@ == old(self).output()@.skip(n),
            !revents.writeable_spec() ==> final(self).output() == old(self).output(),
    {
        self.revents = revents;
        if self.state != State::Closed {
            self.state = State::Ready;
        }
        if revents.is_readable() {
            let _ = self.input_buf.read(self.fd);
            assert(old(self).input()@.is_prefix_of(self.input_buf@));
        }
        if revents.is_writeable() {
            let n = self.output_buf.write(self.fd);
            assert(self.output_buf@ == old(self).output()@.skip(n as int));
        }
        if revents.is_error() {
            self.state = State::Closed;
        } else if revents.is_close() {
            self.state = State::Closed;
        }
        self.state
    }

    /// The descriptor owned by the connection.
    pub fn get_fd(&self) -> (r: i32)
        ensures
            r == self.descriptor(),
    {
        self.fd
    }

    /// The current state.
    pub fn get_state(&self) -> (r: State)
        ensures
            r == self.state_spec(),
    {
        self.state
    }

    /// Asks `event_loop` to watch the descriptor for `READ_INTEREST`.
    pub fn register_read(&mut self, event_loop: &mut EventLoop)
        ensures
            *final(self) == *old(self),
            final(event_loop).registrations() == old(event_loop).registrations().insert(
                old(self).descriptor(),
                READ_INTEREST,
            ),
    {
        event_loop.reregister(self.fd, READ_INTEREST);
    }

    /// Asks `event_loop` to stop watching the descriptor, then shuts the socket down.
    pub fn deregister(&mut self, event_loop: &mut EventLoop)
        ensures
            final(event_loop).registrations() == old(event_loop).registrations().remove(
                old(self).descriptor(),
            ),
            final(self).state_spec() == State::Closed,
            !final(self).connected_spec(),
            final(self).same_but_state_and_input(*old(self)),
            final(self).input() == old(self).input(),
    {
        event_loop.deregister(self.fd);
        self.shutdown();
    }

    /// Shuts the socket down in both directions and marks the connection `Closed`,
    /// whether or not the system call succeeds.
    pub fn shutdown(&mut self)
        ensures
            final(self).state_spec() == State::Closed,
            !final(self).connected_spec(),
            final(self).same_but_state_and_input(*old(self)),
            final(self).input() == old(self).input(),
        opens_invariants none
        no_unwind
    {
        self.state = State::Closed;
        let _ = shutdown_both(self.fd);
    }

    /// Sends the whole file at `path` to the socket in one kernel transfer and
    /// returns how many bytes went out. The file is opened read-only and closed again.
    pub fn send_file(&mut self, path: &str) -> (r: Result<usize, NetError>)
        ensures
            *final(self) == *old(self),
            r matches Err(e) ==> e is Open || e is Stat || e is Transfer,
    {
        let file = match open_read_only(path) {
            Ok(fd) => fd,
            Err(e) => return Err(NetError::Open(e)),
        };
        let size = match file_size(file) {
            Ok(n) => n,
            Err(e) => {
                let _ = close_fd(file);
                return Err(NetError::Stat(e));
            },
        };
        let sent = send_file_fd(self.fd, file, transfer_count(size));
        let _ = close_fd(file);
        match sent {
            Ok(n) => Ok(n),
            Err(e) => Err(NetError::Transfer(e)),
        }
    }

    /// Makes one non-blocking write of `buf`. Bytes that the socket does not take
    /// are not kept for a later write, and a failure is not reported: the send is
    /// best effort. Nothing fills the output buffer, so the flush that `dispatch`
    /// makes on a writable notification always finds it empty.
    pub fn send(&mut self, buf: &[u8])
        ensures
            *final(self) == *old(self),
    {
        let _ = write_fd(self.fd, buf);
    }

    /// Makes one refill attempt, then hands out every buffered byte and empties the
    /// input buffer.
    pub fn read_buf(&mut self) -> (r: Vec<u8>)
        ensures
            old(self).input()@.is_prefix_of(r@),
            final(self).input().last_status() matches ReadStatus::Data(n)
                ==> r@.len() == old(self).input()@.len() + n,
            !(final(self).input().last_status() is Data) ==> r@ == old(self).input()@,
            final(self).input()@ == Seq::<u8>::empty(),
            final(self).input().fills() == old(self).input().fills() + 1,
            final(self).state_spec() == old(self).state_spec(),
            final(self).same_but_state_and_input(*old(self)),
    {
        let _ = self.input_buf.read(self.fd);
        self.input_buf.read_buf()
    }

    /// Makes one refill attempt, then takes out the next line ended by `\r\n`. After an
    /// orderly end of stream or a failed read no line comes back; otherwise the first
    /// complete line, if the buffer holds one. Whatever is not returned stays buffered.
    pub fn read_msg(&mut self) -> (r: Option<Vec<u8>>)
        ensures
            exists|b: Seq<u8>|
                #![trigger line_of(b)]
                {
                    let st = final(self).input().last_status();
                    &&& old(self).input()@.is_prefix_of(b)
                    &&& st matches ReadStatus::Data(n) ==> b.len() == old(self).input()@.len() + n
                    &&& !(st is Data) ==> b == old(self).input()@
                    &&& (st is Eof || st is Failed) ==> r is None && final(self).input()@ == b
                    &&& !(st is Eof || st is Failed) ==> opt_bytes(r) == line_of(b)
                        && final(self).input()@ == rest_of(b)
                },
            final(self).input().fills() == old(self).input().fills() + 1,
            final(self).state_spec() == old(self).state_spec(),
            final(self).same_but_state_and_input(*old(self)),
    {
        let status = self.input_buf.read(self.fd);
        let ghost b = self.input_buf@;
        assert(old(self).input()@.is_prefix_of(b));
        self.input_buf.line_after(status)
    }
}

impl Drop for Connection {
    /// Where the descriptor is still open when the connection is released, shuts the
    /// socket down and closes the descriptor.
    fn drop(&mut self)
        ensures
            final(self).state_spec() == State::Closed || *final(self) == *old(self),
            final(self).same_but_state_and_input(*old(self)),
            final(self).input() == old(self).input(),
        opens_invariants none
        no_unwind
    {
        if is_open(self.fd) {
            self.shutdown();
            let _ = close_fd(self.fd);
        }
    }
}

} // verus!

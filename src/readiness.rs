//! Readiness masks as delivered by epoll, and the lifecycle states of a connection.
use vstd::prelude::*;

verus! {

/// Input is ready (epoll's `EPOLLIN`).
pub const EPOLLIN: u32 = 0x1;

/// Urgent data is ready (epoll's `EPOLLPRI`).
pub const EPOLLPRI: u32 = 0x2;

/// Output is ready (epoll's `EPOLLOUT`).
pub const EPOLLOUT: u32 = 0x4;

/// An error is pending on the descriptor (epoll's `EPOLLERR`).
pub const EPOLLERR: u32 = 0x8;

/// The peer hung up (epoll's `EPOLLHUP`).
pub const EPOLLHUP: u32 = 0x10;

/// Where a connection stands. Only `Closed` is terminal.
#[derive(Debug, Clone, Copy, PartialEq, Eq, Structural)]
pub enum State {
    Reading,
    Ready,
    Writing,
    Finished,
    Closed,
}

/// The five facts that a readiness mask carries.
pub trait EventSet {
    spec fn readable_spec(&self) -> bool;

    spec fn writeable_spec(&self) -> bool;

    spec fn close_spec(&self) -> bool;

    spec fn error_spec(&self) -> bool;

    spec fn hup_spec(&self) -> bool;

    /// Input or urgent data can be read.
    fn is_readable(&self) -> (r: bool)
        ensures
            r == self.readable_spec(),
    ;

    /// Output can be written.
    fn is_writeable(&self) -> (r: bool)
        ensures
            r == self.writeable_spec(),
    ;

    /// The peer hung up and no input is left to drain.
    fn is_close(&self) -> (r: bool)
        ensures
            r == self.close_spec(),
    ;

    /// An error is pending.
    fn is_error(&self) -> (r: bool)
        ensures
            r == self.error_spec(),
    ;

    /// The peer hung up.
    fn is_hup(&self) -> (r: bool)
        ensures
            r == self.hup_spec(),
    ;
}

/// A raw readiness mask, one bit per condition, with epoll's bit values.
#[derive(Debug, Clone, Copy, PartialEq, Eq, Structural)]
pub struct Revents {
    pub bits: u32,
}

impl Revents {
    /// The mask with no condition set.
    pub fn empty() -> (r: Revents)
        ensures
            r.bits == 0,
    {
        Revents { bits: 0 }
    }

    /// The mask with exactly the given bits set.
    pub fn from_bits(bits: u32) -> (r: Revents)
        ensures
            r.bits == bits,
    {
        Revents { bits }
    }

    pub open spec fn has(self, flag: u32) -> bool {
        self.bits & flag != 0
    }
}

impl EventSet for Revents {
    open spec fn readable_spec(&self) -> bool {
        self.has(EPOLLIN) || self.has(EPOLLPRI)
    }

    open spec fn writeable_spec(&self) -> bool {
        self.has(EPOLLOUT)
    }

    open spec fn close_spec(&self) -> bool {
        self.has(EPOLLHUP) && !self.has(EPOLLIN)
    }

    open spec fn error_spec(&self) -> bool {
        self.has(EPOLLERR)
    }

    open spec fn hup_spec(&self) -> bool {
        self.has(EPOLLHUP)
    }

    fn is_readable(&self) -> (r: bool) {
        self.bits & EPOLLIN != 0 || self.bits & EPOLLPRI != 0
    }

    fn is_writeable(&self) -> (r: bool) {
        self.bits & EPOLLOUT != 0
    }

    fn is_close(&self) -> (r: bool) {
        self.bits & EPOLLHUP != 0 && self.bits & EPOLLIN == 0
    }

    fn is_error(&self) -> (r: bool) {
        self.bits & EPOLLERR != 0
    }

    fn is_hup(&self) -> (r: bool) {
        self.bits & EPOLLHUP != 0
    }
}

/// The state that a notification with mask `m` leaves behind, from state `s`:
/// an error or a hang-up with nothing left to read closes the connection, a closed
/// connection stays closed, and anything else leaves it ready.
pub open spec fn next_state(s: State, m: Revents) -> State {
    if s == State::Closed || m.error_spec() || m.close_spec() {
        State::Closed
    } else {
        State::Ready
    }
}

/// A hang-up without readable data closes the connection, whatever else the mask holds.
pub proof fn lemma_hup_without_input_closes(s: State, m: Revents)
    requires
        m.hup_spec(),
        !m.readable_spec(),
    ensures
        m.close_spec(),
        next_state(s, m) == State::Closed,
{
}

/// An error closes the connection, whatever else the mask holds.
pub proof fn lemma_error_closes(s: State, m: Revents)
    requires
        m.error_spec(),
    ensures
        next_state(s, m) == State::Closed,
{
}

/// A closed connection stays closed under every notification.
pub proof fn lemma_closed_is_terminal(m: Revents)
    ensures
        next_state(State::Closed, m) == State::Closed,
{
}

/// A hang-up that arrives with pending input does not close by itself: the input
/// is drained first, and the connection closes only on an error.
pub proof fn lemma_hup_with_input_drains_first(s: State, m: Revents)
    requires
        m.hup_spec(),
        m.has(EPOLLIN),
        !m.error_spec(),
        s != State::Closed,
    ensures
        m.readable_spec(),
        !m.close_spec(),
        next_state(s, m) == State::Ready,
{
}

} // verus!

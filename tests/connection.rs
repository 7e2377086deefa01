use netconn::{
    transfer_count, Buffer, Connection, EventLoop, EventSet, InetAddr, NetError, ReadFault, ReadStatus,
    Revents, State, READ_INTEREST,
};
use nix::errno::Errno;
use nix::fcntl::{fcntl, open, FcntlArg, OFlag};
use nix::sys::socket::{
    bind, getsockname, listen, socket, socketpair, AddressFamily, SockFlag, SockType, SockaddrIn,
};
use nix::sys::stat::Mode;
use nix::unistd::{close, read, unlink};

const IN: u32 = 0x1;
const PRI: u32 = 0x2;
const OUT: u32 = 0x4;
const ERR: u32 = 0x8;
const HUP: u32 = 0x10;

fn pair() -> (i32, i32) {
    socketpair(AddressFamily::Unix, SockType::Stream, None, SockFlag::SOCK_CLOEXEC).unwrap()
}

fn nonblocking_pair() -> (i32, i32) {
    socketpair(
        AddressFamily::Unix,
        SockType::Stream,
        None,
        SockFlag::SOCK_CLOEXEC | SockFlag::SOCK_NONBLOCK,
    )
    .unwrap()
}

fn read_exact(fd: i32, n: usize) -> Vec<u8> {
    let mut out = Vec::new();
    let mut chunk = vec![0u8; 4096];
    while out.len() < n {
        let got = read(fd, &mut chunk).unwrap();
        assert!(got > 0);
        out.extend_from_slice(&chunk[..got]);
    }
    out
}

#[test]
fn test_send_rev_msg() {
    let (rev, send) = pair();
    let rev = Connection::new(rev).unwrap();
    let mut send = Connection::new(send).unwrap();
    assert_eq!(rev.connected(), true);
    assert_eq!(send.connected(), true);
    send.send(b"ping");
    assert_eq!(read_exact(rev.get_fd(), 4), b"ping".to_vec());
}

#[test]
fn test_send_rev_file() {
    let path = String::from("/tmp/netconn_test_send_rev_file");
    let body: Vec<u8> = (0..10000u32).map(|i| (i % 251) as u8).collect();
    let f = open(path.as_str(), OFlag::O_CREAT | OFlag::O_WRONLY | OFlag::O_TRUNC, Mode::S_IRUSR | Mode::S_IWUSR).unwrap();
    assert_eq!(nix::unistd::write(f, &body).unwrap(), body.len());
    close(f).unwrap();

    let (a, b) = pair();
    let mut sender = Connection::new(a).unwrap();
    let receiver = Connection::new(b).unwrap();
    let sent = sender.send_file(path.as_str()).unwrap();
    assert_eq!(sent, 10000);
    assert_eq!(read_exact(receiver.get_fd(), 10000), body);
    unlink(path.as_str()).unwrap();
}

#[test]
fn send_file_of_missing_path_fails_to_open() {
    let (a, _b) = pair();
    let mut c = Connection::new(a).unwrap();
    let r = c.send_file("/nonexistent/netconn/file");
    assert!(matches!(r, Err(NetError::Open(Errno::ENOENT))));
    assert!(c.connected());
}

#[test]
fn read_msg_returns_lines_in_order() {
    let (a, b) = nonblocking_pair();
    let mut c = Connection::new(a).unwrap();
    assert_eq!(nix::unistd::write(b, b"GET /\r\nHOST\r\n").unwrap(), 13);
    assert_eq!(c.read_msg(), Some(b"GET /".to_vec()));
    assert_eq!(c.read_msg(), Some(b"HOST".to_vec()));
    assert_eq!(c.read_msg(), None);
    close(b).unwrap();
}

#[test]
fn read_msg_keeps_a_partial_line() {
    let (a, b) = nonblocking_pair();
    let mut c = Connection::new(a).unwrap();
    assert_eq!(nix::unistd::write(b, b"GE").unwrap(), 2);
    assert_eq!(c.read_msg(), None);
    assert_eq!(nix::unistd::write(b, b"T /\r").unwrap(), 4);
    assert_eq!(c.read_msg(), None);
    assert_eq!(nix::unistd::write(b, b"\nrest").unwrap(), 5);
    assert_eq!(c.read_msg(), Some(b"GET /".to_vec()));
    assert_eq!(c.read_buf(), b"rest".to_vec());
    close(b).unwrap();
}

#[test]
fn read_msg_after_peer_close_gives_nothing() {
    let (a, b) = nonblocking_pair();
    let mut c = Connection::new(a).unwrap();
    close(b).unwrap();
    assert_eq!(c.read_msg(), None);
}

#[test]
fn read_buf_drains_everything() {
    let (a, b) = nonblocking_pair();
    let mut c = Connection::new(a).unwrap();
    assert_eq!(nix::unistd::write(b, b"ab\r\ncd").unwrap(), 6);
    assert_eq!(c.read_buf(), b"ab\r\ncd".to_vec());
    assert_eq!(c.read_buf(), Vec::<u8>::new());
    close(b).unwrap();
}

#[test]
fn buffer_lines_round_trip() {
    let mut buf = Buffer::new();
    buf.extend(b"GET /\r\nHOST\r\n");
    assert_eq!(buf.get_crlf_line(), Some(b"GET /".to_vec()));
    assert_eq!(buf.get_crlf_line(), Some(b"HOST".to_vec()));
    assert_eq!(buf.get_crlf_line(), None);
    assert_eq!(buf.len(), 0);
}

#[test]
fn buffer_partial_line_waits_for_terminator() {
    let mut buf = Buffer::new();
    buf.extend(b"HEL");
    assert_eq!(buf.get_crlf_line(), None);
    assert_eq!(buf.len(), 3);
    buf.extend(b"LO\r");
    assert_eq!(buf.get_crlf_line(), None);
    buf.extend(b"\n\r\nX");
    assert_eq!(buf.get_crlf_line(), Some(b"HELLO".to_vec()));
    assert_eq!(buf.get_crlf_line(), Some(Vec::new()));
    assert_eq!(buf.get_crlf_line(), None);
    assert_eq!(buf.read_buf(), b"X".to_vec());
}

#[test]
fn buffer_lone_cr_or_lf_is_not_a_terminator() {
    let mut buf = Buffer::new();
    buf.extend(b"a\nb\rc\n\r");
    assert_eq!(buf.get_crlf_line(), None);
    assert_eq!(buf.len(), 7);
}

#[test]
fn line_after_end_of_stream_or_failure_gives_nothing() {
    let mut buf = Buffer::new();
    buf.extend(b"A\r\n");
    assert_eq!(buf.line_after(ReadStatus::Eof), None);
    assert_eq!(buf.line_after(ReadStatus::Failed), None);
    assert_eq!(buf.len(), 3);
    assert_eq!(buf.line_after(ReadStatus::Empty), Some(b"A".to_vec()));
    buf.extend(b"B\r\n");
    assert_eq!(buf.line_after(ReadStatus::Data(3)), Some(b"B".to_vec()));
}

#[test]
fn buffer_consume_drops_a_prefix() {
    let mut buf = Buffer::new();
    buf.extend(b"abcdef");
    buf.consume(4);
    assert_eq!(buf.read_buf(), b"ef".to_vec());
}

#[test]
fn readiness_predicates() {
    let m = Revents::from_bits(PRI);
    assert!(m.is_readable());
    assert!(!m.is_writeable());
    assert!(!m.is_hup());
    assert!(Revents::from_bits(IN).is_readable());
    assert!(Revents::from_bits(OUT).is_writeable());
    assert!(Revents::from_bits(ERR).is_error());
    assert!(Revents::from_bits(HUP).is_close());
    assert!(Revents::from_bits(HUP | PRI).is_close());
    assert!(!Revents::from_bits(HUP | IN).is_close());
    assert!(Revents::from_bits(HUP | IN).is_hup());
    assert!(!Revents::empty().is_readable());
    assert!(!Revents::empty().is_error());
}

#[test]
fn dispatch_hangup_without_input_closes() {
    let (a, _b) = nonblocking_pair();
    let mut c = Connection::new(a).unwrap();
    assert_eq!(c.dispatch(Revents::from_bits(HUP)), State::Closed);
    assert!(!c.connected());
    assert_eq!(c.get_revents(), Revents::from_bits(HUP));
}

#[test]
fn dispatch_hangup_with_input_drains_first() {
    let (a, b) = nonblocking_pair();
    let mut c = Connection::new(a).unwrap();
    assert_eq!(nix::unistd::write(b, b"last words\r\n").unwrap(), 12);
    close(b).unwrap();
    assert_eq!(c.dispatch(Revents::from_bits(HUP | IN)), State::Ready);
    assert!(c.connected());
    assert_eq!(c.read_buf(), b"last words\r\n".to_vec());
}

#[test]
fn dispatch_hangup_with_urgent_data_drains_then_closes() {
    let (a, b) = nonblocking_pair();
    let mut c = Connection::new(a).unwrap();
    assert_eq!(nix::unistd::write(b, b"xy").unwrap(), 2);
    assert_eq!(c.dispatch(Revents::from_bits(HUP | PRI)), State::Closed);
    assert_eq!(c.read_buf(), b"xy".to_vec());
    close(b).unwrap();
}

#[test]
fn dispatch_error_closes_whatever_else_is_set() {
    let (a, _b) = nonblocking_pair();
    let mut c = Connection::new(a).unwrap();
    assert_eq!(c.dispatch(Revents::from_bits(ERR | IN | OUT)), State::Closed);
    let (d, _e) = nonblocking_pair();
    let mut c2 = Connection::new(d).unwrap();
    assert_eq!(c2.dispatch(Revents::from_bits(ERR)), State::Closed);
}

#[test]
fn dispatch_plain_events_leave_ready() {
    let (a, _b) = nonblocking_pair();
    let mut c = Connection::new(a).unwrap();
    assert_eq!(c.dispatch(Revents::from_bits(OUT)), State::Ready);
    assert_eq!(c.dispatch(Revents::empty()), State::Ready);
    assert_eq!(c.dispatch(Revents::from_bits(IN)), State::Ready);
    assert_eq!(c.get_state(), State::Ready);
}

#[test]
fn closed_stays_closed() {
    let (a, _b) = nonblocking_pair();
    let mut c = Connection::new(a).unwrap();
    assert!(c.connected());
    c.shutdown();
    assert!(!c.connected());
    assert_eq!(c.dispatch(Revents::from_bits(IN | OUT)), State::Closed);
    c.send(b"ignored");
    assert_eq!(c.read_msg(), None);
    assert!(!c.connected());
}

#[test]
fn register_and_deregister_talk_to_the_loop() {
    let (a, _b) = nonblocking_pair();
    let mut c = Connection::new(a).unwrap();
    let mut el = EventLoop::new();
    c.register_read(&mut el);
    assert_eq!(el.interest(a), Some(0x1d));
    assert_eq!(READ_INTEREST, 0x1d);
    assert!(c.connected());
    c.deregister(&mut el);
    assert_eq!(el.interest(a), None);
    assert_eq!(c.get_state(), State::Closed);
    assert!(!c.connected());
}

#[test]
fn release_closes_the_descriptor() {
    let (a, _b) = pair();
    let c = Connection::new(a).unwrap();
    assert!(fcntl(a, FcntlArg::F_GETFL).is_ok());
    drop(c);
    assert_eq!(fcntl(a, FcntlArg::F_GETFL), Err(Errno::EBADF));
}

#[test]
fn release_after_shutdown_closes_the_descriptor() {
    let (a, _b) = pair();
    let mut c = Connection::new(a).unwrap();
    c.shutdown();
    drop(c);
    assert_eq!(fcntl(a, FcntlArg::F_GETFL), Err(Errno::EBADF));
}

#[test]
fn new_on_a_non_socket_fails_on_addresses() {
    let f = open("/dev/null", OFlag::O_RDONLY, Mode::empty()).unwrap();
    assert!(matches!(Connection::new(f), Err(NetError::Address(Errno::ENOTSOCK))));
    close(f).unwrap();
}

#[test]
fn connect_without_a_listener_fails_on_peer_address() {
    let addr = InetAddr { a: 127, b: 0, c: 0, d: 1, port: 1 };
    let r = Connection::connect(&addr);
    assert!(matches!(r, Err(NetError::Address(Errno::ENOTCONN))));
}

#[test]
fn accept_on_an_idle_listener_fails() {
    let listener = socket(
        AddressFamily::Inet,
        SockType::Stream,
        SockFlag::SOCK_CLOEXEC | SockFlag::SOCK_NONBLOCK,
        None,
    )
    .unwrap();
    let any = SockaddrIn::new(127, 0, 0, 1, 0);
    bind(listener, &any).unwrap();
    listen(listener, 4).unwrap();
    assert!(getsockname::<SockaddrIn>(listener).is_ok());
    assert!(matches!(Connection::accept(listener), Err(NetError::Accept(Errno::EAGAIN))));
    close(listener).unwrap();
}

#[test]
fn set_no_delay_on_a_unix_socket_fails() {
    let (a, _b) = pair();
    let mut c = Connection::new(a).unwrap();
    assert!(matches!(c.set_no_delay(true), Err(NetError::SockOpt(_))));
}

#[test]
fn accept_on_a_non_listener_fails() {
    let (a, _b) = pair();
    assert!(matches!(Connection::accept(a), Err(NetError::Accept(_))));
}

#[test]
fn set_revents_records_the_mask() {
    let (a, _b) = pair();
    let mut c = Connection::new(a).unwrap();
    assert_eq!(c.get_revents(), Revents::empty());
    c.set_revents(&Revents::from_bits(OUT | HUP));
    assert_eq!(c.get_revents().bits, 0x14);
    assert!(c.connected());
}

#[test]
fn adopt_refuses_a_negative_descriptor() {
    assert!(matches!(Connection::adopt(-1), Err(NetError::InvalidDescriptor)));
}

#[test]
fn adopt_wraps_a_socket() {
    let (a, _b) = pair();
    let c = Connection::adopt(a).unwrap();
    assert_eq!(c.get_fd(), a);
    assert_eq!(c.get_state(), State::Ready);
    assert_eq!(c.get_revents(), Revents::empty());
    assert_eq!(c.get_peer_addr(), "<unbound UNIX socket>");
}

#[test]
fn adopt_closes_what_it_cannot_wrap() {
    let f = open("/dev/null", OFlag::O_RDONLY, Mode::empty()).unwrap();
    assert!(matches!(Connection::adopt(f), Err(NetError::Address(Errno::ENOTSOCK))));
    assert_eq!(fcntl(f, FcntlArg::F_GETFL), Err(Errno::EBADF));
}

#[test]
fn transfer_count_is_the_file_size() {
    assert_eq!(transfer_count(0), 0);
    assert_eq!(transfer_count(10000), 10000);
    assert_eq!(transfer_count(u64::MAX), usize::MAX);
}

#[test]
fn event_loop_tracks_registrations() {
    let (a, _b) = pair();
    let mut c = Connection::new(a).unwrap();
    let mut reg = EventLoop::new();
    assert_eq!(reg.interest(a), None);
    c.register_read(&mut reg);
    assert_eq!(reg.interest(a), Some(READ_INTEREST));
    reg.reregister(a, 0x1);
    assert_eq!(reg.interest(a), Some(0x1));
    c.deregister(&mut reg);
    assert_eq!(reg.interest(a), None);
    assert!(!c.connected());
}

#[test]
fn absorb_appends_what_was_read() {
    let mut buf = Buffer::new();
    buf.extend(b"ab");
    assert_eq!(buf.absorb(Ok(3), b"cde\r\n"), ReadStatus::Data(3));
    assert_eq!(buf.read_buf(), b"abcde".to_vec());
}

#[test]
fn absorb_reports_end_would_block_and_failure() {
    let mut buf = Buffer::new();
    buf.extend(b"x");
    assert_eq!(buf.absorb(Ok(0), b"zzz"), ReadStatus::Eof);
    assert_eq!(buf.absorb(Err(ReadFault::WouldBlock), b"zzz"), ReadStatus::Empty);
    assert_eq!(buf.absorb(Err(ReadFault::Os(Errno::EIO)), b"zzz"), ReadStatus::Failed);
    assert_eq!(buf.read_buf(), b"x".to_vec());
}

#[test]
fn buffer_read_from_a_socket() {
    let (a, b) = nonblocking_pair();
    let mut buf = Buffer::new();
    assert_eq!(buf.read(a), ReadStatus::Empty);
    assert_eq!(nix::unistd::write(b, b"hey").unwrap(), 3);
    assert_eq!(buf.read(a), ReadStatus::Data(3));
    close(b).unwrap();
    assert_eq!(buf.read(a), ReadStatus::Eof);
    assert_eq!(buf.read_buf(), b"hey".to_vec());
    close(a).unwrap();
}

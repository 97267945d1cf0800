use netstack::addr::{IpAddr, SocketAddr};
use netstack::calls::{BindCall, PcbCall};
use netstack::connect::{Binding, Dialing, Wait, Waiting};
use netstack::error::ErrorKind;
use netstack::tcp_args::{tcp_connect_cb, tcp_err_cb, TcpContext};
use netstack::tcp_stream::TcpStream;

fn src() -> SocketAddr {
    SocketAddr::V4 { ip: 0x0a000001, port: 0 }
}

fn dest() -> SocketAddr {
    SocketAddr::V6 { ip: 1, port: 80, flowinfo: 0, scope_id: 0 }
}

fn local() -> SocketAddr {
    SocketAddr::V4 { ip: 0x0a000001, port: 49152 }
}

fn binding() -> Binding {
    match TcpStream::connect(src(), dest()).created(5) {
        Ok(binding) => binding,
        Err(error) => panic!("{}", error.message),
    }
}

fn dialing() -> (Dialing, TcpContext) {
    match binding().bound(0, "10.0.0.1:0", local()) {
        Ok(next) => next,
        Err(error) => panic!("{}", error.message),
    }
}

fn waiting() -> (Waiting, TcpContext) {
    let (dialing, context) = dialing();
    match dialing.dialed(0) {
        Ok(waiting) => (waiting, context),
        Err(refused) => panic!("{}", refused.error.message),
    }
}

#[test]
fn steps_hand_their_addresses_on() {
    let start = TcpStream::connect(src(), dest());
    assert_eq!((start.src_addr, start.dest_addr), (src(), dest()));
    let binding = binding();
    assert_eq!(binding.pcb, 5);
    assert_eq!(binding.bind, BindCall { addr: Some(IpAddr::V4(0x0a000001)), port: 0 });
    assert_eq!((binding.src_addr, binding.dest_addr), (src(), dest()));
    let (dialing, context) = dialing();
    assert_eq!(context.pcb, 5);
    assert!(context.is_close());
    assert_eq!(dialing.stream.src_addr(), local());
    assert_eq!(dialing.stream.dest_addr(), dest());
}

#[test]
fn control_block_cannot_be_made() {
    match TcpStream::connect(src(), dest()).created(0) {
        Ok(_) => panic!("made"),
        Err(error) => {
            assert_eq!(error.kind, ErrorKind::Other);
            assert_eq!(error.message, "tcp_new failed: is_null");
        }
    }
}

#[test]
fn address_cannot_be_bound() {
    match binding().bound(-8, "10.0.0.1:0", local()) {
        Ok(_) => panic!("bound"),
        Err(error) => {
            assert_eq!(error.kind, ErrorKind::Other);
            assert_eq!(error.message, "bind TCP failed: 10.0.0.1:0 -8");
        }
    }
}

#[test]
fn request_cannot_be_sent() {
    let (dialing, _context) = dialing();
    match dialing.dialed(-4) {
        Ok(_) => panic!("dialed"),
        Err(refused) => {
            assert_eq!(refused.error.kind, ErrorKind::Other);
            assert_eq!(refused.error.message, "listen TCP failed: -4");
            assert_eq!(refused.stream.dest_addr(), dest());
        }
    }
}

#[test]
fn connection_is_opened() {
    let (mut waiting, mut context) = waiting();
    tcp_connect_cb(Some(&mut context.tcp_args), 0);
    assert!(waiting.settled(Wait::Changed).is_ok());
    assert_eq!(waiting.stream.src_addr(), local());
    assert_eq!(waiting.stream.dest_addr(), dest());
    assert!(!context.is_close());
}

#[test]
fn connection_is_refused() {
    let (mut waiting, mut context) = waiting();
    tcp_connect_cb(Some(&mut context.tcp_args), -13);
    match waiting.settled(Wait::Changed) {
        Ok(()) => panic!("connected"),
        Err(error) => {
            assert_eq!(error.kind, ErrorKind::ConnectionRefused);
            assert_eq!(error.message, "ConnectionRefused");
        }
    }
}

#[test]
fn connection_is_freed_while_it_is_waited_for() {
    let (mut waiting, context) = waiting();
    drop(context);
    match waiting.settled(Wait::Gone) {
        Ok(()) => panic!("connected"),
        Err(error) => {
            assert_eq!(error.kind, ErrorKind::ConnectionRefused);
            assert_eq!(error.message, "ConnectionRefused");
        }
    }
}

#[test]
fn connection_takes_too_long() {
    let (mut waiting, _context) = waiting();
    match waiting.settled(Wait::TimedOut) {
        Ok(()) => panic!("connected"),
        Err(error) => {
            assert_eq!(error.kind, ErrorKind::TimedOut);
            assert_eq!(error.message, "TimedOut");
        }
    }
}

#[test]
fn waiting_ends_with_a_new_state() {
    let (mut waiting, mut context) = waiting();
    assert!(matches!(waiting.state_receiver.has_changed(), Ok(false)));
    tcp_connect_cb(Some(&mut context.tcp_args), 0);
    assert!(matches!(waiting.state_receiver.has_changed(), Ok(true)));
    assert_eq!(*waiting.state_receiver.borrow_and_update(), 1);
}

#[test]
fn outcome_of_the_waiting() {
    assert!(Waiting::outcome(Wait::Changed, 1).is_ok());
    assert!(Waiting::outcome(Wait::Changed, 0).is_ok());
    assert!(Waiting::outcome(Wait::Changed, 2).is_err());
    assert!(Waiting::outcome(Wait::Gone, 1).is_err());
    assert!(Waiting::outcome(Wait::TimedOut, 1).is_err());
}

#[test]
fn calls_around_the_request() {
    assert_eq!(Dialing::prepare(), vec![PcbCall::Arg(true), PcbCall::OnErr(true)]);
    assert_eq!(
        Waiting::complete(),
        vec![PcbCall::OnRecv(true), PcbCall::OnSent(true), PcbCall::Tune]
    );
}

#[test]
fn connection_that_lwip_gives_up_is_refused() {
    let (mut waiting, mut context) = waiting();
    tcp_err_cb(Some(&mut context.tcp_args));
    match waiting.settled(Wait::Changed) {
        Ok(()) => panic!("connected"),
        Err(error) => assert_eq!(error.kind, ErrorKind::ConnectionRefused),
    }
}

#[test]
fn state_is_looked_at_only_when_it_is_new() {
    let (mut waiting, mut context) = waiting();
    tcp_connect_cb(Some(&mut context.tcp_args), 0);
    match waiting.settled(Wait::TimedOut) {
        Ok(()) => panic!("connected"),
        Err(error) => assert_eq!(error.kind, ErrorKind::TimedOut),
    }
    assert!(waiting.settled(Wait::Changed).is_ok());
}

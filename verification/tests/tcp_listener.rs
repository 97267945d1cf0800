use std::sync::atomic::{AtomicUsize, Ordering};
use std::sync::Arc;
use std::task::{Context, Wake, Waker};

use netstack::addr::SocketAddr;
use netstack::calls::{BindCall, PcbCall};
use netstack::error::{ErrorKind, ERR_CONN, ERR_OK};
use netstack::sync::Polled;
use netstack::tcp_listener::{
    tcp_accept_cb, tcp_accepted, AcceptStep, Incoming, TcpListener, ACCEPT_QUEUE,
};
use netstack::tcp_stream::TcpStream;
use tokio::sync::mpsc::Sender;

struct Counter(AtomicUsize);

impl Wake for Counter {
    fn wake(self: Arc<Self>) {
        self.0.fetch_add(1, Ordering::SeqCst);
    }
}

struct Quiet;

impl Wake for Quiet {
    fn wake(self: Arc<Self>) {}
}

fn listener() -> (TcpListener, Sender<Incoming>) {
    let call = match TcpListener::new(2).bound(0) {
        Ok(call) => call,
        Err(error) => panic!("{}", error.message),
    };
    assert_eq!((call.pcb, call.backlog), (2, 255));
    match call.listening(3, 0) {
        Ok(both) => both,
        Err(error) => panic!("{}", error.message),
    }
}

fn incoming(context: usize) -> Incoming {
    let addr = SocketAddr::V4 { ip: 1, port: context as u16 };
    let (stream, _) = TcpStream::new(context, addr, addr);
    Incoming { stream, context }
}

fn accept(listener: &mut TcpListener) -> Polled<Incoming> {
    let waker = Waker::from(Arc::new(Quiet));
    listener.accept(&mut Context::from_waker(&waker))
}

#[test]
fn address_of_a_listener_cannot_be_bound() {
    match TcpListener::new(2).bound(-8) {
        Ok(_) => panic!("bound"),
        Err(error) => {
            assert_eq!(error.kind, ErrorKind::Other);
            assert_eq!(error.message, "bind TCP failed: -8");
        }
    }
}

#[test]
fn control_block_cannot_listen() {
    match TcpListener::new(2).bound(0) {
        Ok(call) => match call.listening(0, -1) {
            Ok(_) => panic!("listening"),
            Err(error) => {
                assert_eq!(error.kind, ErrorKind::Other);
                assert_eq!(error.message, "listen TCP failed: -1");
            }
        },
        Err(error) => panic!("{}", error.message),
    }
}

#[test]
fn what_is_done_for_an_accepted_connection() {
    assert_eq!(tcp_accept_cb(false, 1, 0), AcceptStep::Reply(ERR_CONN));
    assert_eq!(tcp_accept_cb(true, 0, 0), AcceptStep::Reply(ERR_OK));
    assert_eq!(tcp_accept_cb(true, 0, -1), AcceptStep::Reply(ERR_OK));
    assert_eq!(tcp_accept_cb(true, 1, -1), AcceptStep::Reply(ERR_OK));
    assert_eq!(tcp_accept_cb(true, 1, 0), AcceptStep::Open);
}

#[test]
fn connections_are_accepted_in_order() {
    let (mut listener, mut sender) = listener();
    assert_eq!(listener.pcb(), 3);
    assert!(matches!(accept(&mut listener), Polled::Pending));
    for context in 10..13 {
        let (code, rejected) = tcp_accepted(&mut sender, incoming(context));
        assert_eq!(code, ERR_OK);
        assert!(rejected.is_none());
    }
    for context in 10..13 {
        match accept(&mut listener) {
            Polled::Ready(Ok(incoming)) => {
                assert_eq!(incoming.context, context);
                assert_eq!(incoming.stream.src_addr().port(), context as u16);
            }
            _ => panic!("no connection"),
        }
    }
    assert!(matches!(accept(&mut listener), Polled::Pending));
}

#[test]
fn listener_without_sender_is_at_its_end() {
    let (mut listener, sender) = listener();
    drop(sender);
    match accept(&mut listener) {
        Polled::Ready(Err(error)) => {
            assert_eq!(error.kind, ErrorKind::UnexpectedEof);
            assert_eq!(error.message, "close");
        }
        _ => panic!("not at its end"),
    }
}

#[test]
fn listener_takes_no_more_than_its_queue_holds() {
    let (mut listener, mut sender) = listener();
    for context in 0..ACCEPT_QUEUE {
        assert_eq!(tcp_accepted(&mut sender, incoming(context)).0, ERR_OK);
    }
    let (code, rejected) = tcp_accepted(&mut sender, incoming(999));
    assert_eq!(code, ERR_CONN);
    assert!(matches!(rejected, Some(Incoming { context: 999, .. })));
    let lost = listener.discard();
    assert_eq!(lost.len(), ACCEPT_QUEUE);
    assert_eq!(lost[0].context, 0);
    assert_eq!(lost[254].context, 254);
    assert!(listener.discard().is_empty());
}

#[test]
fn connection_without_listener_is_rejected() {
    let (listener, mut sender) = listener();
    drop(listener);
    let (code, rejected) = tcp_accepted(&mut sender, incoming(4));
    assert_eq!(code, ERR_CONN);
    assert!(matches!(rejected, Some(Incoming { context: 4, .. })));
}

#[test]
fn listener_registers_and_takes_back_its_callback() {
    assert_eq!(TcpListener::attach(), vec![PcbCall::Arg(true), PcbCall::OnAccept(true)]);
    assert_eq!(
        TcpListener::detach(),
        vec![PcbCall::Arg(false), PcbCall::OnAccept(false), PcbCall::Close]
    );
}

#[test]
fn waiting_listener_is_woken() {
    let (mut listener, mut sender) = listener();
    let counter = Arc::new(Counter(AtomicUsize::new(0)));
    let waker = Waker::from(counter.clone());
    let polled = listener.accept(&mut Context::from_waker(&waker));
    assert!(matches!(polled, Polled::Pending));
    assert_eq!(counter.0.load(Ordering::SeqCst), 0);
    tcp_accepted(&mut sender, incoming(4));
    assert_eq!(counter.0.load(Ordering::SeqCst), 1);
}

#[test]
fn listener_that_is_gone_takes_no_connection() {
    let (mut listener, mut sender) = listener();
    tcp_accepted(&mut sender, incoming(4));
    assert_eq!(listener.discard().len(), 1);
    assert_eq!(tcp_accepted(&mut sender, incoming(5)).0, ERR_CONN);
}

#[test]
fn listener_is_bound_to_any_address() {
    let binding = TcpListener::new(2);
    assert_eq!(binding.pcb, 2);
    assert_eq!(binding.bind, BindCall { addr: None, port: 0 });
}

#[test]
fn idle_listener_stays_open() {
    let (mut listener, mut sender) = listener();
    for context in 1..4 {
        assert!(matches!(accept(&mut listener), Polled::Pending));
        assert_eq!(tcp_accepted(&mut sender, incoming(context)).0, ERR_OK);
        assert!(matches!(accept(&mut listener), Polled::Ready(Ok(_))));
    }
}

use std::sync::Arc;
use std::task::{Context, Wake, Waker};

use netstack::addr::SocketAddr;
use netstack::calls::BindCall;
use netstack::error::ErrorKind;
use netstack::pbuf::Pbuf;
use netstack::sync::Polled;
use netstack::udp::{
    udp_recv_cb, Datagram, UdpCall, UdpReference, UdpSend, UdpSocket, UdpSocketWriteInner,
    DATAGRAM_QUEUE,
};
use tokio::sync::mpsc::Sender;

struct Silent;

impl Wake for Silent {
    fn wake(self: Arc<Self>) {}
}

fn here() -> SocketAddr {
    SocketAddr::V4 { ip: 0x7f000001, port: 53 }
}

fn there() -> SocketAddr {
    SocketAddr::V6 { ip: 2, port: 5353, flowinfo: 0, scope_id: 0 }
}

fn socket() -> (UdpSocket, Sender<Datagram>) {
    let bind = match UdpSocket::new(6) {
        Ok(bind) => bind,
        Err(error) => panic!("{}", error.message),
    };
    assert_eq!(bind.pcb, 6);
    assert_eq!(bind.bind, BindCall { addr: None, port: 0 });
    match bind.bound(0) {
        Ok(both) => both,
        Err(error) => panic!("{}", error.message),
    }
}

fn recv(socket: &mut UdpSocket) -> Polled<Datagram> {
    let waker = Waker::from(Arc::new(Silent));
    socket.recv(&mut Context::from_waker(&waker))
}

fn reference(send: UdpSend) -> UdpReference {
    match send {
        UdpSend::Reference(call) => call,
        UdpSend::Nothing => panic!("nothing to send"),
    }
}

#[test]
fn socket_cannot_be_made() {
    match UdpSocket::new(0) {
        Ok(_) => panic!("made"),
        Err(error) => {
            assert_eq!(error.kind, ErrorKind::Other);
            assert_eq!(error.message, "udp_new failed: is_null");
        }
    }
}

#[test]
fn socket_cannot_be_bound() {
    match UdpSocket::new(6) {
        Ok(bind) => match bind.bound(-8) {
            Ok(_) => panic!("bound"),
            Err(error) => {
                assert_eq!(error.kind, ErrorKind::Other);
                assert_eq!(error.message, "bind UDP failed: -8");
            }
        },
        Err(error) => panic!("{}", error.message),
    }
}

#[test]
fn datagrams_are_received_in_order() {
    let (mut socket, mut sender) = socket();
    assert!(matches!(recv(&mut socket), Polled::Pending));
    let free = udp_recv_cb(Some(&mut sender), Pbuf::new(0x100, vec![1, 2]), here(), there());
    assert_eq!(free, Some(0x100));
    let free = udp_recv_cb(Some(&mut sender), Pbuf::new(0x200, vec![]), there(), here());
    assert_eq!(free, Some(0x200));
    match recv(&mut socket) {
        Polled::Ready(Ok(datagram)) => assert_eq!(datagram, (vec![1, 2], here(), there())),
        _ => panic!("no datagram"),
    }
    match recv(&mut socket) {
        Polled::Ready(Ok(datagram)) => assert_eq!(datagram, (vec![], there(), here())),
        _ => panic!("no datagram"),
    }
}

#[test]
fn datagram_for_a_closed_socket_is_not_freed() {
    assert_eq!(udp_recv_cb(None, Pbuf::new(0x100, vec![1]), here(), there()), None);
}

#[test]
fn datagrams_beyond_the_queue_are_lost() {
    let (mut socket, mut sender) = socket();
    for i in 0..DATAGRAM_QUEUE + 1 {
        let p = Pbuf::new(0x100, vec![(i % 256) as u8]);
        assert_eq!(udp_recv_cb(Some(&mut sender), p, here(), there()), Some(0x100));
    }
    let (_, mut read) = socket_halves(&mut socket);
    let waker = Waker::from(Arc::new(Silent));
    let mut count: usize = 0;
    while let Polled::Ready(Ok(_)) = read.recv(&mut Context::from_waker(&waker)) {
        count += 1;
    }
    assert_eq!(count, DATAGRAM_QUEUE);
}

fn socket_halves(
    taken: &mut UdpSocket,
) -> (netstack::udp::UdpSocketWrite, netstack::udp::UdpSocketRead) {
    let (other, _) = socket();
    std::mem::replace(taken, other).into_split()
}

#[test]
fn socket_without_sender_is_at_its_end() {
    let (mut socket, sender) = socket();
    drop(sender);
    match recv(&mut socket) {
        Polled::Ready(Err(error)) => {
            assert_eq!(error.kind, ErrorKind::UnexpectedEof);
            assert_eq!(error.message, "close");
        }
        _ => panic!("not at its end"),
    }
}

#[test]
fn datagram_is_sent() {
    let (socket, _sender) = socket();
    let call = reference(socket.send(&[1, 2, 3], &here(), &there()));
    assert_eq!((call.len, call.pcb), (3, 6));
    assert_eq!((call.src_addr, call.dst_addr), (here(), there()));
    match call.referenced(0x500) {
        Ok(call) => {
            assert_eq!((call.pbuf, call.pcb), (0x500, 6));
            assert_eq!((call.src_addr, call.dst_addr), (here(), there()));
            let sent = call.sent(0);
            assert_eq!(sent.free, 0x500);
            assert!(sent.result.is_ok());
        }
        Err(error) => panic!("{}", error.message),
    }
}

#[test]
fn empty_datagram_is_not_sent() {
    let (socket, _sender) = socket();
    assert!(matches!(socket.send(&[], &here(), &there()), UdpSend::Nothing));
}

#[test]
fn copies_send_through_the_same_control_block() {
    let (socket, _sender) = socket();
    let (write, _read) = socket.into_split();
    let copy = write.clone();
    assert_eq!(reference(copy.send(&[1], &here(), &there())).pcb, 6);
    assert_eq!(reference(write.inner.send(&[1], &here(), &there())).pcb, 6);
}

#[test]
fn longer_datagrams_are_cut_to_sixteen_bits() {
    let (socket, _sender) = socket();
    assert_eq!(reference(socket.send(&[0; 65535], &here(), &there())).len, 65535);
    assert_eq!(reference(socket.send(&[0; 65540], &here(), &there())).len, 4);
}

#[test]
fn datagram_that_lwip_refuses() {
    let (socket, _sender) = socket();
    match reference(socket.send(&[1], &here(), &there())).referenced(0) {
        Ok(_) => panic!("referenced"),
        Err(error) => {
            assert_eq!(error.kind, ErrorKind::WouldBlock);
            assert_eq!(error.message, "");
        }
    }
    match reference(socket.send(&[1], &here(), &there())).referenced(9) {
        Ok(call) => {
            let sent = call.sent(-4);
            assert_eq!(sent.free, 9);
            match sent.result {
                Ok(()) => panic!("sent"),
                Err(error) => {
                    assert_eq!(error.kind, ErrorKind::Other);
                    assert_eq!(error.message, "udp_sendto error: -4");
                }
            }
        }
        Err(error) => panic!("{}", error.message),
    }
}

#[test]
fn socket_registers_and_takes_back_its_callback() {
    assert_eq!(UdpSocketWriteInner::attach(), vec![UdpCall::OnRecv(true)]);
    assert_eq!(
        UdpSocketWriteInner::detach(),
        vec![UdpCall::OnRecv(false), UdpCall::Disconnect, UdpCall::Remove]
    );
}

#[test]
fn datagrams_come_before_the_end() {
    let (mut socket, mut sender) = socket();
    for i in 0..3 {
        udp_recv_cb(Some(&mut sender), Pbuf::new(0x100, vec![i]), here(), there());
    }
    drop(sender);
    for i in 0..3 {
        match recv(&mut socket) {
            Polled::Ready(Ok(datagram)) => assert_eq!(datagram, (vec![i], here(), there())),
            _ => panic!("no datagram"),
        }
    }
    for _ in 0..2 {
        assert!(matches!(recv(&mut socket), Polled::Ready(Err(_))));
    }
}

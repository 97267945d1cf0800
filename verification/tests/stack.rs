use std::sync::Arc;
use std::task::{Context, Wake, Waker};

use netstack::error::{ErrorKind, ERR_OK};
use netstack::pbuf::Pbuf;
use netstack::stack::{
    frame, output, output_ip4, InputCall, NetStack, Packet, StackGlobals, PACKET_QUEUE,
    TIMER_INTERVAL,
};
use netstack::sync::Polled;

struct Idle;

impl Wake for Idle {
    fn wake(self: Arc<Self>) {}
}

fn recv(stack: &mut NetStack) -> Polled<Packet> {
    let waker = Waker::from(Arc::new(Idle));
    stack.recv_ip(&mut Context::from_waker(&waker))
}

#[test]
fn stack_is_set_up_with_what_was_asked_for() {
    let (_stack, setup) = NetStack::new(14, 4, 1500);
    assert_eq!((setup.head_reserved, setup.tail_reserved, setup.mtu), (14, 4, 1500));
    assert_eq!(setup.writer.max_capacity(), PACKET_QUEUE);
    assert_eq!(PACKET_QUEUE, 1024);
    assert_eq!(TIMER_INTERVAL, 250);
}

#[test]
fn packets_are_framed() {
    let p = Pbuf::new(1, vec![5, 6, 7]);
    assert_eq!(frame(&p, 2, 1), (vec![0, 0, 5, 6, 7, 0], 2, 5));
    assert_eq!(frame(&p, 0, 0), (vec![5, 6, 7], 0, 3));
    assert_eq!(frame(&Pbuf::new(1, vec![]), 2, 0), (vec![0, 0], 2, 2));
}

#[test]
fn packets_leave_in_order() {
    let (mut stack, mut setup) = NetStack::new(1, 0, 1500);
    assert!(matches!(recv(&mut stack), Polled::Pending));
    let p = Pbuf::new(1, vec![5]);
    let q = Pbuf::new(2, vec![6]);
    assert_eq!(output(Some(&p), 1, 0, Some(&mut setup.writer)), ERR_OK);
    assert_eq!(output_ip4(Some(&q), 1, 0, Some(&mut setup.writer)), ERR_OK);
    match recv(&mut stack) {
        Polled::Ready(Ok(packet)) => assert_eq!(packet, (vec![0, 5], 1, 2)),
        _ => panic!("no packet"),
    }
    match recv(&mut stack) {
        Polled::Ready(Ok(packet)) => assert_eq!(packet, (vec![0, 6], 1, 2)),
        _ => panic!("no packet"),
    }
    assert!(matches!(recv(&mut stack), Polled::Pending));
}

#[test]
fn nothing_leaves_without_a_buffer_or_a_reader() {
    let (mut stack, mut setup) = NetStack::new(0, 0, 1500);
    assert_eq!(output(None, 0, 0, Some(&mut setup.writer)), ERR_OK);
    assert!(matches!(recv(&mut stack), Polled::Pending));
    assert_eq!(output(Some(&Pbuf::new(1, vec![5])), 0, 0, None), ERR_OK);
    assert!(matches!(recv(&mut stack), Polled::Pending));
}

#[test]
fn packets_beyond_the_queue_are_lost() {
    let (stack, mut setup) = NetStack::new(0, 0, 1500);
    let (_write, mut read) = stack.into_split();
    let p = Pbuf::new(1, vec![5]);
    for _ in 0..PACKET_QUEUE + 2 {
        assert_eq!(output(Some(&p), 0, 0, Some(&mut setup.writer)), ERR_OK);
    }
    let waker = Waker::from(Arc::new(Idle));
    let mut count: usize = 0;
    while let Polled::Ready(Ok(_)) = read.recv_ip(&mut Context::from_waker(&waker)) {
        count += 1;
    }
    assert_eq!(count, PACKET_QUEUE);
}

#[test]
fn stack_without_writer_is_at_its_end() {
    let (mut stack, setup) = NetStack::new(0, 0, 1500);
    drop(setup);
    match recv(&mut stack) {
        Polled::Ready(Err(error)) => {
            assert_eq!(error.kind, ErrorKind::UnexpectedEof);
            assert_eq!(error.message, "");
        }
        _ => panic!("not at its end"),
    }
}

#[test]
fn packet_goes_in() {
    let (stack, _setup) = NetStack::new(0, 0, 1500);
    let done = stack.send_ip(&[1, 2, 3]).input(Some(0));
    assert!(!done.free);
    assert!(done.result.is_ok());
}

#[test]
fn length_of_a_packet_has_sixteen_bits() {
    let (stack, _setup) = NetStack::new(0, 0, 1500);
    let (write, _read) = stack.into_split();
    assert_eq!(write.clone().send_ip(&[0; 65535]).len, 65535);
    assert_eq!(write.send_ip(&[0; 65537]).len, 1);
}

#[test]
fn packet_that_the_interface_refuses() {
    let done = InputCall { len: 1 }.input(Some(-5));
    assert!(done.free);
    match done.result {
        Err(error) => {
            assert_eq!(error.kind, ErrorKind::Interrupted);
            assert_eq!(error.message, "input error: -5");
        }
        Ok(()) => panic!("taken"),
    }
}

#[test]
fn interface_without_input_function() {
    let done = InputCall { len: 1 }.input(None);
    assert!(done.free);
    match done.result {
        Err(error) => {
            assert_eq!(error.kind, ErrorKind::Interrupted);
            assert_eq!(error.message, "input fn not set");
        }
        Ok(()) => panic!("taken"),
    }
}

#[test]
fn later_stack_takes_over() {
    let mut globals = StackGlobals::new();
    let p = Pbuf::new(1, vec![5]);
    assert_eq!(globals.output(Some(&p)), ERR_OK);
    let (mut first, setup) = NetStack::new(1, 0, 1400);
    let start = globals.install(setup);
    assert_eq!((start.init, start.mtu), (true, 1400));
    globals.output(Some(&p));
    globals.output(Some(&p));
    let (mut second, setup) = NetStack::new(0, 2, 1500);
    let start = globals.install(setup);
    assert_eq!((start.init, start.mtu), (false, 1500));
    assert_eq!(globals.reserved(), (0, 2));
    globals.output(Some(&p));
    for _ in 0..2 {
        match recv(&mut first) {
            Polled::Ready(Ok(packet)) => assert_eq!(packet, (vec![0, 5], 1, 2)),
            _ => panic!("no packet"),
        }
    }
    for _ in 0..2 {
        assert!(matches!(recv(&mut first), Polled::Ready(Err(_))));
    }
    match recv(&mut second) {
        Polled::Ready(Ok(packet)) => assert_eq!(packet, (vec![5, 0, 0], 0, 1)),
        _ => panic!("no packet"),
    }
    assert!(matches!(recv(&mut second), Polled::Pending));
    globals.release();
    assert!(matches!(recv(&mut second), Polled::Ready(Err(_))));
    assert_eq!(globals.output(Some(&p)), ERR_OK);
}

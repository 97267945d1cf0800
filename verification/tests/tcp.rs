use std::sync::atomic::{AtomicUsize, Ordering};
use std::sync::Arc;
use std::task::{Context, Wake, Waker};

use netstack::addr::SocketAddr;
use netstack::calls::PcbCall;
use netstack::connect::Waiting;
use netstack::error::{ErrorKind, ERR_OK};
use netstack::pbuf::Pbuf;
use netstack::read_item::Recved;
use netstack::tcp_args::{
    tcp_connect_cb, tcp_err_cb, tcp_poll_cb, tcp_recv_cb, tcp_sent_cb, Half, TcpContext,
    READ_QUEUE,
};
use netstack::tcp_read::{ReadPoll, TcpStreamRead};
use netstack::tcp_stream::{PcbOptions, TcpStream};
use netstack::tcp_write::{TcpStreamWrite, WriteCall, WriteReply, WriteStep};

struct Counter(AtomicUsize);

impl Wake for Counter {
    fn wake(self: Arc<Self>) {
        self.0.fetch_add(1, Ordering::SeqCst);
    }
}

fn counter() -> (Arc<Counter>, Waker) {
    let counter = Arc::new(Counter(AtomicUsize::new(0)));
    let waker = Waker::from(counter.clone());
    (counter, waker)
}

fn remote() -> SocketAddr {
    SocketAddr::V4 { ip: 0x0a000002, port: 1234 }
}

fn local() -> SocketAddr {
    SocketAddr::V4 { ip: 0x0a000001, port: 80 }
}

fn accepted() -> (TcpStreamWrite, TcpStreamRead, TcpContext) {
    let (stream, context) = TcpStream::new(7, remote(), local());
    let (write, read) = stream.into_split();
    (write, read, context)
}

fn receive(context: &mut TcpContext, addr: usize, bytes: &[u8]) -> Option<usize> {
    let p = Some(Pbuf::new(addr, bytes.to_vec()));
    let reply = tcp_recv_cb(Some(&mut context.tcp_args), 7, p, 0);
    assert_eq!(reply.code, ERR_OK);
    reply.free
}

fn poll(
    read: &mut TcpStreamRead,
    context: &TcpContext,
    buf: &mut [u8],
    filled: usize,
    capacity: usize,
) -> ReadPoll {
    let (_, waker) = counter();
    read.poll_read(context, &mut Context::from_waker(&waker), buf, filled, capacity)
}

fn filled(r: ReadPoll) -> (usize, Option<Recved>) {
    match r {
        ReadPoll::Filled { filled, recved } => (filled, recved),
        _ => panic!("nothing was read"),
    }
}

fn failed(r: ReadPoll) -> Option<usize> {
    match r {
        ReadPoll::Failed { error, free } => {
            assert_eq!(error.kind, ErrorKind::UnexpectedEof);
            assert_eq!(error.message, "close");
            free
        }
        _ => panic!("no end of the data"),
    }
}

// A connection whose state is still watched, before lwIP has connected it.
fn dialing() -> (Waiting, TcpContext) {
    let binding = match TcpStream::connect(local(), remote()).created(9) {
        Ok(binding) => binding,
        Err(error) => panic!("{}", error.message),
    };
    let (dialing, context) = match binding.bound(0, "", local()) {
        Ok(next) => next,
        Err(error) => panic!("{}", error.message),
    };
    match dialing.dialed(0) {
        Ok(waiting) => (waiting, context),
        Err(refused) => panic!("{}", refused.error.message),
    }
}

#[test]
fn accepted_connection_has_both_addresses_and_stands() {
    let (stream, context) = TcpStream::new(7, remote(), local());
    assert_eq!(stream.src_addr(), remote());
    assert_eq!(stream.dest_addr(), local());
    assert_eq!(context.pcb, 7);
    assert!(!context.is_close());
    let (write, _read) = stream.into_split();
    assert_eq!(write.src_addr(), remote());
    assert_eq!(write.dest_addr(), local());
}

#[test]
fn received_bytes_are_read_in_order() {
    let (_write, mut read, mut context) = accepted();
    assert_eq!(receive(&mut context, 0x100, &[1, 2, 3, 4, 5]), None);
    assert_eq!(receive(&mut context, 0x200, &[6, 7]), None);
    let mut got = Vec::new();
    let mut freed = Vec::new();
    for _ in 0..4 {
        let mut buf = [0u8; 2];
        let (n, recved) = filled(poll(&mut read, &context, &mut buf, 0, 2));
        got.extend_from_slice(&buf[..n]);
        freed.extend(recved);
    }
    assert_eq!(got, vec![1, 2, 3, 4, 5, 6, 7]);
    assert_eq!(
        freed,
        vec![
            Recved { free: 0x100, t_pcb: 7, len: 5 },
            Recved { free: 0x200, t_pcb: 7, len: 2 },
        ]
    );
}

#[test]
fn one_poll_reads_from_one_item() {
    let (_write, mut read, mut context) = accepted();
    receive(&mut context, 0x100, &[1, 2]);
    receive(&mut context, 0x200, &[3]);
    let mut buf = [0u8; 8];
    let (n, recved) = filled(poll(&mut read, &context, &mut buf, 0, 8));
    assert_eq!(n, 2);
    assert_eq!(recved, Some(Recved { free: 0x100, t_pcb: 7, len: 2 }));
    assert_eq!(&buf[..3], &[1, 2, 0]);
}

#[test]
fn reader_without_data_waits_and_is_woken() {
    let (_write, mut read, mut context) = accepted();
    let (counter, waker) = counter();
    let mut buf = [0u8; 4];
    let r = read.poll_read(&context, &mut Context::from_waker(&waker), &mut buf, 0, 4);
    assert!(matches!(r, ReadPoll::Pending));
    assert_eq!(counter.0.load(Ordering::SeqCst), 0);
    receive(&mut context, 0x100, &[1]);
    assert_eq!(counter.0.load(Ordering::SeqCst), 1);
    assert_eq!(filled(poll(&mut read, &context, &mut buf, 0, 4)).0, 1);
}

#[test]
fn end_of_the_data_comes_after_the_data() {
    let (_write, mut read, mut context) = accepted();
    receive(&mut context, 0x100, &[1]);
    let reply = tcp_recv_cb(Some(&mut context.tcp_args), 7, None, 0);
    assert_eq!((reply.code, reply.free), (ERR_OK, None));
    let mut buf = [0u8; 4];
    assert_eq!(filled(poll(&mut read, &context, &mut buf, 0, 4)).0, 1);
    assert_eq!(failed(poll(&mut read, &context, &mut buf, 0, 4)), None);
}

#[test]
fn empty_buffer_ends_the_reading_and_is_freed() {
    let (_write, mut read, mut context) = accepted();
    receive(&mut context, 0x300, &[]);
    assert_eq!(failed(poll(&mut read, &context, &mut [0u8; 4], 0, 4)), Some(0x300));
}

#[test]
fn reader_ends_when_the_context_is_gone() {
    let (_write, mut read, context) = accepted();
    drop(context);
    let (_, other) = TcpStream::new(8, remote(), local());
    assert_eq!(failed(poll(&mut read, &other, &mut [0u8; 4], 0, 4)), None);
}

#[test]
fn buffer_that_was_filled_is_written_from_its_front() {
    let (_write, mut read, mut context) = accepted();
    receive(&mut context, 0x100, &[1, 2, 3, 4, 5]);
    let mut buf = [9u8; 4];
    let (n, recved) = filled(poll(&mut read, &context, &mut buf, 2, 4));
    assert_eq!(n, 4);
    assert_eq!(recved, None);
    assert_eq!(buf, [1, 2, 3, 4]);
    let mut buf = [9u8; 4];
    let (n, recved) = filled(poll(&mut read, &context, &mut buf, 0, 4));
    assert_eq!(n, 1);
    assert_eq!(buf, [5, 9, 9, 9]);
    assert_eq!(recved, Some(Recved { free: 0x100, t_pcb: 7, len: 5 }));
}

#[test]
fn data_does_not_reach_beyond_what_is_initialised() {
    let (_write, mut read, mut context) = accepted();
    receive(&mut context, 0x100, &[1, 2, 3]);
    receive(&mut context, 0x200, &[4, 5, 6]);
    // A new item is given up.
    let r = poll(&mut read, &context, &mut [0u8; 2], 0, 4);
    assert!(matches!(r, ReadPoll::Overrun { free: Some(0x100) }));
    // One that was read in part is kept.
    assert_eq!(filled(poll(&mut read, &context, &mut [0u8; 1], 0, 1)).0, 1);
    let r = poll(&mut read, &context, &mut [0u8; 1], 0, 4);
    assert!(matches!(r, ReadPoll::Overrun { free: None }));
    let mut buf = [0u8; 4];
    assert_eq!(filled(poll(&mut read, &context, &mut buf, 0, 4)).0, 2);
    assert_eq!(buf, [5, 6, 0, 0]);
}

#[test]
fn full_queue_loses_a_buffer_without_freeing_it() {
    let (_write, mut read, mut context) = accepted();
    for i in 0..READ_QUEUE {
        assert_eq!(receive(&mut context, i + 1, &[1]), None);
    }
    assert_eq!(receive(&mut context, 0x9999, &[2]), None);
    let free = read.discard();
    assert_eq!(free.len(), READ_QUEUE);
    assert_eq!(free[0], 1);
    assert_eq!(free[READ_QUEUE - 1], READ_QUEUE);
    assert!(!free.contains(&0x9999));
}

#[test]
fn buffer_that_nobody_reads_is_freed() {
    let (_write, read, mut context) = accepted();
    drop(read);
    assert_eq!(receive(&mut context, 0x100, &[1]), Some(0x100));
}

#[test]
fn reader_gives_up_what_it_holds() {
    let (_write, mut read, mut context) = accepted();
    receive(&mut context, 0x100, &[1, 2]);
    receive(&mut context, 0x200, &[3]);
    context.tcp_args.close_read();
    receive(&mut context, 0x300, &[4]);
    filled(poll(&mut read, &context, &mut [0u8; 1], 0, 1));
    assert_eq!(read.discard(), vec![0x200, 0x300, 0x100]);
    assert_eq!(read.discard(), Vec::<usize>::new());
    assert_eq!(receive(&mut context, 0x400, &[5]), Some(0x400));
}

#[test]
fn callbacks_of_a_closed_connection_do_nothing() {
    let p = Some(Pbuf::new(0x100, vec![1]));
    let reply = tcp_recv_cb(None, 7, p, 0);
    assert_eq!((reply.code, reply.free), (ERR_OK, None));
    assert_eq!(tcp_connect_cb(None, -1), ERR_OK);
    let (code, waker) = tcp_sent_cb(None);
    assert!(code == ERR_OK && waker.is_none());
    let (code, waker) = tcp_poll_cb(None);
    assert!(code == ERR_OK && waker.is_none());
    tcp_err_cb(None);
}

#[test]
fn waiting_writer_is_woken_once() {
    let (_write, _read, mut context) = accepted();
    let (counter, waker) = counter();
    context.tcp_args.park(waker);
    let (code, woken) = tcp_sent_cb(Some(&mut context.tcp_args));
    assert_eq!(code, ERR_OK);
    if let Some(waker) = woken {
        waker.wake();
    }
    assert_eq!(counter.0.load(Ordering::SeqCst), 1);
    let (_, woken) = tcp_poll_cb(Some(&mut context.tcp_args));
    assert!(woken.is_none());
}

#[test]
fn poll_callback_wakes_a_waiting_writer() {
    let (_write, _read, mut context) = accepted();
    let (_, waker) = counter();
    context.tcp_args.park(waker);
    let (code, woken) = tcp_poll_cb(Some(&mut context.tcp_args));
    assert!(code == ERR_OK && woken.is_some());
    assert!(tcp_sent_cb(Some(&mut context.tcp_args)).1.is_none());
}

#[test]
fn later_writer_replaces_an_earlier_one() {
    let (_write, _read, mut context) = accepted();
    let (first, waker) = counter();
    context.tcp_args.park(waker);
    let (second, waker) = counter();
    context.tcp_args.park(waker);
    if let Some(waker) = tcp_sent_cb(Some(&mut context.tcp_args)).1 {
        waker.wake();
    }
    assert_eq!(first.0.load(Ordering::SeqCst), 0);
    assert_eq!(second.0.load(Ordering::SeqCst), 1);
}

#[test]
fn error_ends_the_reading_of_an_accepted_connection_whose_state_stays() {
    let (_write, mut read, mut context) = accepted();
    tcp_err_cb(Some(&mut context.tcp_args));
    assert!(!context.is_close());
    assert_eq!(failed(poll(&mut read, &context, &mut [0u8; 4], 0, 4)), None);
}

#[test]
fn state_of_a_watched_connection_changes() {
    let (waiting, mut context) = dialing();
    assert!(context.is_close());
    assert_eq!(tcp_connect_cb(Some(&mut context.tcp_args), 0), ERR_OK);
    assert!(!context.is_close());
    assert_eq!(tcp_connect_cb(Some(&mut context.tcp_args), -13), ERR_OK);
    assert!(context.is_close());
    assert_eq!(tcp_connect_cb(Some(&mut context.tcp_args), 0), ERR_OK);
    tcp_err_cb(Some(&mut context.tcp_args));
    assert!(context.is_close());
    assert_eq!(tcp_connect_cb(Some(&mut context.tcp_args), 0), ERR_OK);
    drop(waiting);
    context.tcp_args.close();
    assert!(!context.is_close());
}

#[test]
fn closed_connection_neither_reads_nor_writes() {
    let (waiting, mut context) = dialing();
    let (write, mut read) = waiting.stream.into_split();
    receive(&mut context, 0x100, &[1]);
    assert_eq!(failed(poll(&mut read, &context, &mut [0u8; 4], 0, 4)), None);
    match start_write(&write, &mut context, &[1], 100) {
        WriteStep::Failed(error) => {
            assert_eq!(error.kind, ErrorKind::UnexpectedEof);
            assert_eq!(error.message, "close");
        }
        _ => panic!("written"),
    }
    assert!(tcp_sent_cb(Some(&mut context.tcp_args)).1.is_none());
    match write.poll_flush(&context) {
        Err(error) => {
            assert_eq!(error.kind, ErrorKind::UnexpectedEof);
            assert_eq!(error.message, "close");
        }
        Ok(()) => panic!("flushed"),
    }
}

fn start_write(
    write: &TcpStreamWrite,
    context: &mut TcpContext,
    buf: &[u8],
    snd_buf: usize,
) -> WriteStep {
    let (_, waker) = counter();
    write.poll_write(context, waker, buf, snd_buf)
}

fn write_call(
    write: &TcpStreamWrite,
    context: &mut TcpContext,
    buf: &[u8],
    snd_buf: usize,
) -> WriteCall {
    match start_write(write, context, buf, snd_buf) {
        WriteStep::Write(call) => call,
        _ => panic!("not written"),
    }
}

#[test]
fn writer_offers_what_there_is_room_for() {
    let (write, _read, mut context) = accepted();
    let call = write_call(&write, &mut context, &[1, 2, 3], 2);
    assert_eq!((call.len, call.flags, call.to_write), (2, 1, 2));
    match call.written(&mut context, 0) {
        WriteReply::Output(call) => assert!(matches!(call.output(0), Ok(2))),
        _ => panic!("no output"),
    }
    let call = write_call(&write, &mut context, &[1, 2, 3], 9);
    assert_eq!((call.len, call.flags, call.to_write), (3, 1, 3));
    assert!(tcp_sent_cb(Some(&mut context.tcp_args)).1.is_none());
}

#[test]
fn writer_without_room_waits_until_it_is_woken() {
    let (write, _read, mut context) = accepted();
    let (counter, waker) = counter();
    let step = write.poll_write(&mut context, waker, &[1], 0);
    assert!(matches!(step, WriteStep::Pending));
    assert_eq!(counter.0.load(Ordering::SeqCst), 0);
    if let Some(waker) = tcp_sent_cb(Some(&mut context.tcp_args)).1 {
        waker.wake();
    }
    assert_eq!(counter.0.load(Ordering::SeqCst), 1);
}

#[test]
fn writer_without_data_waits() {
    let (write, _read, mut context) = accepted();
    let step = start_write(&write, &mut context, &[], 10);
    assert!(matches!(step, WriteStep::Pending));
    assert!(tcp_poll_cb(Some(&mut context.tcp_args)).1.is_some());
}

#[test]
fn writer_waits_for_memory() {
    let (write, _read, mut context) = accepted();
    let (counter, waker) = counter();
    match write.poll_write(&mut context, waker, &[1], 9) {
        WriteStep::Write(call) => {
            assert!(matches!(call.written(&mut context, -1), WriteReply::Pending));
        }
        _ => panic!("not written"),
    }
    if let Some(waker) = tcp_sent_cb(Some(&mut context.tcp_args)).1 {
        waker.wake();
    }
    assert_eq!(counter.0.load(Ordering::SeqCst), 1);
}

#[test]
fn longer_writes_are_cut_to_sixteen_bits() {
    let (write, _read, mut context) = accepted();
    let data = vec![0u8; 70000];
    let call = write_call(&write, &mut context, &data, 65535);
    assert_eq!((call.len, call.to_write), (65535, 65535));
    let call = write_call(&write, &mut context, &data, 100000);
    assert_eq!((call.len, call.to_write), (4464, 70000));
}

#[test]
fn write_that_lwip_refuses() {
    let (write, _read, mut context) = accepted();
    match write_call(&write, &mut context, &[1], 9).written(&mut context, -11) {
        WriteReply::Failed(error) => {
            assert_eq!(error.kind, ErrorKind::Interrupted);
            assert_eq!(error.message, "netstack tcp_write error -11");
        }
        _ => panic!("taken"),
    }
    match write_call(&write, &mut context, &[1], 9).written(&mut context, 0) {
        WriteReply::Output(call) => match call.output(-4) {
            Err(error) => {
                assert_eq!(error.kind, ErrorKind::Interrupted);
                assert_eq!(error.message, "netstack tcp_output error -4");
            }
            Ok(_) => panic!("sent"),
        },
        _ => panic!("no output"),
    }
    assert!(tcp_sent_cb(Some(&mut context.tcp_args)).1.is_none());
}

#[test]
fn flush_and_shutdown_report_what_lwip_answers() {
    let (write, _read, context) = accepted();
    assert!(write.poll_flush(&context).is_ok());
    assert!(TcpStreamWrite::flushed(0).is_ok());
    match TcpStreamWrite::flushed(-2) {
        Err(error) => {
            assert_eq!(error.kind, ErrorKind::Interrupted);
            assert_eq!(error.message, "netstack tcp_output error -2");
        }
        Ok(()) => panic!("flushed"),
    }
    assert_eq!(TcpStreamWrite::poll_shutdown(), PcbCall::Shutdown { rx: false, tx: true });
    assert!(TcpStreamWrite::shut_down(0).is_ok());
    match TcpStreamWrite::shut_down(-11) {
        Err(error) => {
            assert_eq!(error.kind, ErrorKind::Interrupted);
            assert_eq!(error.message, "netstack tcp_shutdown tx error -11");
        }
        Ok(()) => panic!("shut down"),
    }
}

#[test]
fn connection_registers_and_takes_back_its_callbacks() {
    assert_eq!(
        TcpStream::attach(),
        vec![
            PcbCall::Arg(true),
            PcbCall::OnErr(true),
            PcbCall::OnRecv(true),
            PcbCall::OnSent(true),
            PcbCall::Tune,
        ]
    );
    assert_eq!(
        TcpContext::detach(),
        vec![
            PcbCall::Arg(false),
            PcbCall::OnRecv(false),
            PcbCall::OnSent(false),
            PcbCall::OnErr(false),
            PcbCall::OnPoll(false),
        ]
    );
}

#[test]
fn tuning_keeps_other_options() {
    let options = PcbOptions { snd_buf: 10, so_options: 0x24, flags: 0x101 }.tuned();
    assert_eq!(options, PcbOptions { snd_buf: 65535, so_options: 0x2c, flags: 0x141 });
    assert_eq!(options.tuned(), options);
}

#[test]
fn context_goes_after_both_halves() {
    for (first, second) in [(Half::Read, Half::Write), (Half::Write, Half::Read)] {
        let (_write, _read, mut context) = accepted();
        let rx = first == Half::Read;
        assert_eq!(context.leave(first), vec![PcbCall::Shutdown { rx, tx: !rx }]);
        let mut due = vec![PcbCall::Shutdown { rx: !rx, tx: rx }];
        due.extend(TcpContext::detach());
        assert_eq!(context.leave(second), due);
    }
}

#[test]
fn whole_data_is_read_before_a_wait() {
    let (_write, mut read, mut context) = accepted();
    receive(&mut context, 0x100, &[1, 2, 3]);
    receive(&mut context, 0x200, &[4]);
    let mut got = Vec::new();
    loop {
        let mut buf = [0u8; 2];
        match poll(&mut read, &context, &mut buf, 0, 2) {
            ReadPoll::Filled { filled, .. } => got.extend_from_slice(&buf[..filled]),
            ReadPoll::Pending => break,
            _ => panic!("failed"),
        }
    }
    assert_eq!(got, vec![1, 2, 3, 4]);
}

#[test]
fn quiet_connection_stays_open() {
    let (_write, mut read, mut context) = accepted();
    for i in 1..4 {
        let mut buf = [0u8; 4];
        assert!(matches!(poll(&mut read, &context, &mut buf, 0, 4), ReadPoll::Pending));
        assert_eq!(receive(&mut context, i, &[5]), None);
        assert_eq!(filled(poll(&mut read, &context, &mut buf, 0, 4)).0, 1);
    }
}

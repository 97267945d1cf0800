//! UDP sockets.
use std::task::Context;
use tokio::sync::mpsc;
use vstd::prelude::*;

use crate::addr::SocketAddr;
use crate::calls::BindCall;
use crate::error::{code_text, Error, ErrorKind};
use crate::pbuf::Pbuf;
use crate::sync;
use crate::sync::{Answer, Next, Polled};
use crate::udp::{
    send_udp, udp_recv_cb, Datagram, UdpBind, UdpCall, UdpReference, UdpSend, UdpSendTo, UdpSent,
    UdpSocket, UdpSocketRead, UdpSocketWrite, UdpSocketWriteInner,
};

verus! {

/// A datagram goes out from its source to its destination, through the given control
/// block, and in full, where its length fits in 16 bits; an empty one does not go out.
pub proof fn law_datagram_goes_out_as_it_is(
    src_addr: SocketAddr,
    dst_addr: SocketAddr,
    pcb: usize,
    data: &[u8],
    r: UdpSend,
)
    requires
        call_ensures(send_udp, (&src_addr, &dst_addr, pcb, data), r),
    ensures
        r is Nothing <==> data@.len() == 0,
        r matches UdpSend::Reference(call) ==> {
            &&& call.pcb == pcb
            &&& call.src_addr == src_addr
            &&& call.dst_addr == dst_addr
            &&& data@.len() <= 0xffff ==> call.len == data@.len()
            &&& exists|k: int| #![trigger k * 0x10000] data@.len() == k * 0x10000 + call.len
        },
{
    if let UdpSend::Reference(call) = r {
        let k = (data@.len() as int) / 0x10000;
        assert(data@.len() == k * 0x10000 + call.len);
    }
}

/// Every way to send a datagram through a socket sends it through the control block that
/// the socket was opened with, from its source to its destination.
pub proof fn law_socket_sends_through_its_control_block(
    pcb: usize,
    bind: UdpBind,
    socket: UdpSocket,
    sender: mpsc::Sender<Datagram>,
    write: UdpSocketWrite,
    read: UdpSocketRead,
    copy: UdpSocketWrite,
    data: &[u8],
    src_addr: SocketAddr,
    dst_addr: SocketAddr,
    whole: UdpSend,
    half: UdpSend,
    copied: UdpSend,
    inner: UdpSend,
)
    requires
        call_ensures(UdpSocket::new, (pcb,), Ok::<UdpBind, Error>(bind)),
        call_ensures(
            UdpBind::bound,
            (bind, 0i8),
            Ok::<(UdpSocket, mpsc::Sender<Datagram>), Error>((socket, sender)),
        ),
        call_ensures(UdpSocket::into_split, (socket,), (write, read)),
        call_ensures(UdpSocketWrite::clone, (&write,), copy),
        call_ensures(UdpSocket::send, (&socket, data, &src_addr, &dst_addr), whole),
        call_ensures(UdpSocketWrite::send, (&write, data, &src_addr, &dst_addr), half),
        call_ensures(UdpSocketWrite::send, (&copy, data, &src_addr, &dst_addr), copied),
        call_ensures(UdpSocketWriteInner::send, (&*write.inner, data, &src_addr, &dst_addr), inner),
    ensures
        write.inner.udp_pcb == pcb,
        copy.inner == write.inner,
        whole is Nothing <==> data@.len() == 0,
        whole matches UdpSend::Reference(call) ==> {
            &&& call.pcb == pcb
            &&& call.src_addr == src_addr
            &&& call.dst_addr == dst_addr
            &&& data@.len() <= 0xffff ==> call.len == data@.len()
            &&& exists|k: int| #![trigger k * 0x10000] data@.len() == k * 0x10000 + call.len
        },
        half is Nothing <==> data@.len() == 0,
        half matches UdpSend::Reference(call) ==> {
            &&& call.pcb == pcb
            &&& call.src_addr == src_addr
            &&& call.dst_addr == dst_addr
            &&& data@.len() <= 0xffff ==> call.len == data@.len()
            &&& exists|k: int| #![trigger k * 0x10000] data@.len() == k * 0x10000 + call.len
        },
        copied is Nothing <==> data@.len() == 0,
        copied matches UdpSend::Reference(call) ==> {
            &&& call.pcb == pcb
            &&& call.src_addr == src_addr
            &&& call.dst_addr == dst_addr
            &&& data@.len() <= 0xffff ==> call.len == data@.len()
            &&& exists|k: int| #![trigger k * 0x10000] data@.len() == k * 0x10000 + call.len
        },
        inner is Nothing <==> data@.len() == 0,
        inner matches UdpSend::Reference(call) ==> {
            &&& call.pcb == pcb
            &&& call.src_addr == src_addr
            &&& call.dst_addr == dst_addr
            &&& data@.len() <= 0xffff ==> call.len == data@.len()
            &&& exists|k: int| #![trigger k * 0x10000] data@.len() == k * 0x10000 + call.len
        },
{
    let k = (data@.len() as int) / 0x10000;
    if let UdpSend::Reference(call) = whole {
        assert(data@.len() == k * 0x10000 + call.len);
    }
    if let UdpSend::Reference(call) = half {
        assert(data@.len() == k * 0x10000 + call.len);
    }
    if let UdpSend::Reference(call) = copied {
        assert(data@.len() == k * 0x10000 + call.len);
    }
    if let UdpSend::Reference(call) = inner {
        assert(data@.len() == k * 0x10000 + call.len);
    }
}

/// What is sent is handed on from step to step unchanged; it fails exactly if there is no
/// buffer for it or lwIP answers with an error; and the buffer is freed either way.
pub proof fn law_datagram_is_handed_on(
    reference: UdpReference,
    pbuf: usize,
    r: Result<UdpSendTo, Error>,
    err: i8,
    text: String,
    call: UdpSendTo,
    done: UdpSent,
)
    requires
        call_ensures(UdpReference::referenced, (reference, pbuf), r),
        call_ensures(code_text, (err,), text),
        call_ensures(UdpSendTo::sent, (call, err), done),
    ensures
        r is Ok <==> pbuf != 0,
        r matches Ok(to) ==> to.pbuf == pbuf && to.pcb == reference.pcb && to.src_addr
            == reference.src_addr && to.dst_addr == reference.dst_addr,
        r matches Err(error) ==> error.kind == ErrorKind::WouldBlock && error.message@ == ""@,
        done.free == call.pbuf,
        done.result is Ok <==> err == 0,
        done.result matches Err(error) ==> error.kind == ErrorKind::Other && error.message@
            == "udp_sendto error: "@ + text@,
{
}

/// A socket is opened exactly if lwIP makes a control block and binds it, to any address
/// and port. Its reader gets what goes into its sender, nothing yet.
pub proof fn law_socket_is_opened(
    pcb: usize,
    made: Result<UdpBind, Error>,
    bind: UdpBind,
    err: i8,
    text: String,
    r: Result<(UdpSocket, mpsc::Sender<Datagram>), Error>,
)
    requires
        call_ensures(UdpSocket::new, (pcb,), made),
        call_ensures(code_text, (err,), text),
        call_ensures(UdpBind::bound, (bind, err), r),
    ensures
        made is Ok <==> pcb != 0,
        made matches Ok(next) ==> next.pcb == pcb && next.bind == (BindCall {
            addr: None,
            port: 0,
        }),
        made matches Err(error) ==> error.kind == ErrorKind::Other && error.message@
            == "udp_new failed: is_null"@,
        r is Ok <==> err == 0,
        r matches Err(error) ==> error.kind == ErrorKind::Other && error.message@
            == "bind UDP failed: "@ + text@,
        r matches Ok((socket, sender)) ==> forall|write: UdpSocketWrite, read: UdpSocketRead|
            #[trigger] call_ensures(UdpSocket::into_split, (socket,), (write, read)) ==> {
                let queue = sync::datagram_sender(sender);
                &&& write.inner.udp_pcb == bind.pcb
                &&& queue.capacity == 1024
                &&& queue.offers.len() == 0
                &&& queue.carried == read.queue().carried
                &&& queue.total == read.queue().total
                &&& read.queue().polls.len() == 0
                &&& !read.queue().closed
            },
{
}

/// A datagram that was received is offered to the reader once, with its bytes, its source
/// and its destination, and its buffer is freed; without a socket nothing happens.
pub proof fn law_received_datagram_is_offered(
    sender: &mut mpsc::Sender<Datagram>,
    p: Pbuf,
    at: usize,
    src_addr: SocketAddr,
    dst_addr: SocketAddr,
    free: Option<usize>,
    none: Option<usize>,
)
    requires
        call_ensures(Pbuf::addr, (&p,), at),
        call_ensures(udp_recv_cb, (Some(sender), p, src_addr, dst_addr), free),
        call_ensures(
            udp_recv_cb,
            (None::<&mut mpsc::Sender<Datagram>>, p, src_addr, dst_addr),
            none,
        ),
    ensures
        free == Some(at),
        none is None,
        ({
            let before = sync::datagram_sender(*old(sender));
            let after = sync::datagram_sender(*final(sender));
            &&& after.offers.len() == before.offers.len() + 1
            &&& after.offers.drop_last() == before.offers
            &&& after.offers.last().0.0@ == p@
            &&& after.offers.last().0.1 == src_addr
            &&& after.offers.last().0.2 == dst_addr
            &&& after.carried == before.carried
            &&& after.total == before.total
        }),
{
    let before = sync::datagram_sender(*old(sender));
    let after = sync::datagram_sender(*final(sender));
    assert(after.offers.drop_last() =~= before.offers);
}

/// A call of `recv` asks the queue once, without closing it, and tells what it answered;
/// one that waits is woken.
pub proof fn law_recv_tells_the_answer(
    read: &mut UdpSocketRead,
    cx: &mut Context<'_>,
    r: Polled<Datagram>,
)
    requires
        call_ensures(UdpSocketRead::recv, (read, cx), r),
    ensures
        final(read).queue().polls.len() == old(read).queue().polls.len() + 1,
        final(read).queue().polls.drop_last() == old(read).queue().polls,
        final(read).queue().closed == old(read).queue().closed,
        final(read).queue().carried == old(read).queue().carried,
        match final(read).queue().polls.last() {
            Next::Item(datagram) => r == Polled::Ready(Ok::<Datagram, Error>(datagram)),
            Next::Ended => r matches Polled::Ready(Err(error)) && error.kind
                == ErrorKind::UnexpectedEof && error.message@ == "close"@,
            Next::Pending => r is Pending && final(read).queue().waiting == Some(
                sync::waker_of(*old(cx)),
            ),
        },
{
    assert(final(read).queue().polls.drop_last() =~= old(read).queue().polls);
}

/// A socket receives as its reading half does.
pub proof fn law_socket_receives_like_its_half(
    socket: &mut UdpSocket,
    cx: &mut Context<'_>,
    r: Polled<Datagram>,
    write: UdpSocketWrite,
    read: UdpSocketRead,
    later_write: UdpSocketWrite,
    later: UdpSocketRead,
)
    requires
        call_ensures(UdpSocket::into_split, (*old(socket),), (write, read)),
        call_ensures(UdpSocket::recv, (socket, cx), r),
        call_ensures(UdpSocket::into_split, (*final(socket),), (later_write, later)),
    ensures
        later_write == write,
        later.queue().polls.len() == read.queue().polls.len() + 1,
        later.queue().polls.drop_last() == read.queue().polls,
        later.queue().closed == read.queue().closed,
        match later.queue().polls.last() {
            Next::Item(datagram) => r == Polled::Ready(Ok::<Datagram, Error>(datagram)),
            Next::Ended => r matches Polled::Ready(Err(error)) && error.kind
                == ErrorKind::UnexpectedEof && error.message@ == "close"@,
            Next::Pending => r is Pending && later.queue().waiting == Some(
                sync::waker_of(*old(cx)),
            ),
        },
{
    assert(later.queue().polls.drop_last() =~= read.queue().polls);
}

/// What comes out of a new socket is what was received: the first datagram that its
/// reader gets is the first one that its queue took.
pub proof fn law_first_datagram_is_the_one_received(
    bind: UdpBind,
    socket: UdpSocket,
    sender: &mut mpsc::Sender<Datagram>,
    p: Pbuf,
    src_addr: SocketAddr,
    dst_addr: SocketAddr,
    free: Option<usize>,
    later: &mut UdpSocket,
    cx: &mut Context<'_>,
    r: Polled<Datagram>,
)
    requires
        call_ensures(
            UdpBind::bound,
            (bind, 0i8),
            Ok::<(UdpSocket, mpsc::Sender<Datagram>), Error>((socket, *old(sender))),
        ),
        call_ensures(udp_recv_cb, (Some(sender), p, src_addr, dst_addr), free),
        sync::datagram_sender(*final(sender)).offers.last().1 == Answer::Accepted,
        *old(later) == socket,
        call_ensures(UdpSocket::recv, (later, cx), r),
    ensures
        r matches Polled::Ready(Ok(datagram)) ==> datagram.0@ == p@ && datagram.1 == src_addr
            && datagram.2 == dst_addr,
        !(r matches Polled::Ready(Err(_))),
{
    let tx = sync::datagram_sender(*final(sender));
    let was = sync::datagram_sender(*old(sender));
    assert(tx.offers.drop_last() =~= was.offers);
    assert(sync::accepted(was.offers).len() == 0);
    assert(sync::accepted(tx.offers)[0] == tx.offers.last().0);
    let before = socket.spec_read().queue();
    let after = final(later).spec_read().queue();
    sync::lemma_items_push(before.polls, after.polls.last());
    assert(sync::items(before.polls).len() == 0);
    if let Next::Item(item) = after.polls.last() {
        assert(sync::items(after.polls)[0] == item);
    }
    assert(after.polls[after.polls.len() - 1] == after.polls.last());
}

/// A socket that is gone takes its callback back before its control block is removed.
pub proof fn law_socket_goes_in_order(register: Vec<UdpCall>, due: Vec<UdpCall>)
    requires
        call_ensures(UdpSocketWriteInner::attach, (), register),
        call_ensures(UdpSocketWriteInner::detach, (), due),
    ensures
        register@.contains(UdpCall::OnRecv(true)),
        !register@.contains(UdpCall::Remove),
        due@.len() > 0,
        due@[0] == UdpCall::OnRecv(false),
        due@.last() == UdpCall::Remove,
        due@.contains(UdpCall::Disconnect),
        !due@.contains(UdpCall::OnRecv(true)),
{
    assert(register@[0] == UdpCall::OnRecv(true));
    assert(due@[1] == UdpCall::Disconnect);
}

} // verus!

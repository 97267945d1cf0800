//! What the operations can be called with.
use std::task::{Context, Waker};
use tokio::sync::mpsc;
use vstd::prelude::*;

use crate::addr::SocketAddr;
use crate::connect::{Binding, Connecting, Dialing, Wait, Waiting};
use crate::error::code_text;
use crate::pbuf::Pbuf;
use crate::read_item::ReadItem;
use crate::stack::{
    frame, output, output_ip4, InputCall, NetStack, NetStackRead, NetStackWrite, Packet,
    StackGlobals, StackSetup,
};
use crate::tcp_args::{
    tcp_connect_cb, tcp_err_cb, tcp_poll_cb, tcp_recv_cb, tcp_sent_cb, Half, TcpArgs, TcpContext,
};
use crate::tcp_listener::{
    tcp_accept_cb, tcp_accepted, Incoming, ListenCall, TcpBind, TcpListener,
};
use crate::tcp_read::TcpStreamRead;
use crate::tcp_stream::{PcbOptions, TcpStream};
use crate::tcp_write::{OutputCall, TcpStreamWrite, WriteCall};
use crate::udp::{
    send_udp, udp_recv_cb, Datagram, UdpBind, UdpReference, UdpSendTo, UdpSocket, UdpSocketRead,
    UdpSocketWrite, UdpSocketWriteInner,
};

verus! {

/// A buffer can be made of up to 65535 bytes, and any part of it copied to where there is
/// room. Every item can be asked for its length and given up, and one with a buffer read.
pub proof fn law_buffers_take_any_input(
    addr: usize,
    payload: Vec<u8>,
    p: Pbuf,
    buf: &mut [u8],
    len: usize,
    offset: usize,
    t_pcb: usize,
    some: Option<Pbuf>,
    item: &mut ReadItem,
    whole: &mut [u8],
    any: ReadItem,
)
    requires
        payload@.len() <= 0xffff,
        offset + len <= p@.len(),
        len <= old(buf)@.len(),
        old(item).buffer() is Some,
    ensures
        call_requires(Pbuf::new, (addr, payload)),
        call_requires(Pbuf::copy_partial, (&p, buf, len, offset)),
        call_requires(Pbuf::addr, (&p,)),
        call_requires(Pbuf::tot_len, (&p,)),
        call_requires(Pbuf::into_bytes, (p,)),
        call_requires(ReadItem::new, (t_pcb, some)),
        call_requires(ReadItem::new_null, ()),
        call_requires(ReadItem::len, (&any,)),
        call_requires(ReadItem::is_empty, (&any,)),
        call_requires(ReadItem::read, (item, whole)),
        any.buffer() is Some ==> call_requires(ReadItem::recved, (any,)),
        call_requires(ReadItem::back, (any,)),
        call_requires(ReadItem::discard, (any,)),
{
}

/// The callbacks of a connection, and what its halves do, can be called at any time.
pub proof fn law_connections_take_any_input(
    args: &mut TcpArgs,
    err: i8,
    t_pcb: usize,
    p: Option<Pbuf>,
    waker: Waker,
    context: &mut TcpContext,
    read: &mut TcpStreamRead,
    write: &TcpStreamWrite,
    buf: &[u8],
    snd_buf: usize,
    call: WriteCall,
    output_call: OutputCall,
    half: Half,
    options: PcbOptions,
)
    requires
        half == Half::Read ==> old(context).read,
        half == Half::Write ==> old(context).write,
    ensures
        call_requires(tcp_connect_cb, (Some(args), err)),
        call_requires(tcp_connect_cb, (None::<&mut TcpArgs>, err)),
        call_requires(tcp_recv_cb, (Some(args), t_pcb, p, err)),
        call_requires(tcp_recv_cb, (None::<&mut TcpArgs>, t_pcb, p, err)),
        call_requires(tcp_sent_cb, (Some(args),)),
        call_requires(tcp_sent_cb, (None::<&mut TcpArgs>,)),
        call_requires(tcp_poll_cb, (Some(args),)),
        call_requires(tcp_poll_cb, (None::<&mut TcpArgs>,)),
        call_requires(tcp_err_cb, (Some(args),)),
        call_requires(tcp_err_cb, (None::<&mut TcpArgs>,)),
        call_requires(TcpArgs::close, (args,)),
        call_requires(TcpArgs::close_read, (args,)),
        call_requires(TcpArgs::park, (args, waker)),
        call_requires(TcpContext::is_close, (&*old(context),)),
        call_requires(TcpContext::leave, (context, half)),
        call_requires(TcpStreamRead::discard, (read,)),
        call_requires(TcpStreamWrite::poll_write, (write, context, waker, buf, snd_buf)),
        call_requires(WriteCall::written, (call, context, err)),
        call_requires(OutputCall::output, (output_call, err)),
        call_requires(TcpStreamWrite::poll_flush, (write, &*old(context))),
        call_requires(TcpStreamWrite::flushed, (err,)),
        call_requires(TcpStreamWrite::shut_down, (err,)),
        call_requires(PcbOptions::tuned, (options,)),
{
}

/// A connection can be opened with any addresses, and every step takes any answer of lwIP.
pub proof fn law_opening_takes_any_input(
    pcb: usize,
    src_addr: SocketAddr,
    dest_addr: SocketAddr,
    connecting: Connecting,
    binding: Binding,
    err: i8,
    words: &str,
    local: SocketAddr,
    dialing: Dialing,
    waiting: &mut Waiting,
    wait: Wait,
    state: usize,
    stream: TcpStream,
)
    ensures
        call_requires(TcpStream::new, (pcb, src_addr, dest_addr)),
        call_requires(TcpStream::connect, (src_addr, dest_addr)),
        call_requires(Connecting::created, (connecting, pcb)),
        call_requires(Binding::bound, (binding, err, words, local)),
        call_requires(Dialing::dialed, (dialing, err)),
        call_requires(Waiting::settled, (waiting, wait)),
        call_requires(Waiting::outcome, (wait, state)),
        call_requires(TcpStream::into_split, (stream,)),
        call_requires(TcpStream::src_addr, (&stream,)),
        call_requires(TcpStream::dest_addr, (&stream,)),
        call_requires(code_text, (err,)),
        call_requires(SocketAddr::ip, (&src_addr,)),
        call_requires(SocketAddr::port, (&src_addr,)),
{
}

/// A listener can be asked and told at any time, and takes any answer of lwIP.
pub proof fn law_listeners_take_any_input(
    pcb: usize,
    bind: TcpBind,
    err: i8,
    call: ListenCall,
    listening: bool,
    sender: &mut mpsc::Sender<Incoming>,
    incoming: Incoming,
    listener: &mut TcpListener,
    cx: &mut Context<'_>,
)
    ensures
        call_requires(TcpListener::new, (pcb,)),
        call_requires(TcpBind::bound, (bind, err)),
        call_requires(ListenCall::listening, (call, pcb, err)),
        call_requires(tcp_accept_cb, (listening, pcb, err)),
        call_requires(tcp_accepted, (sender, incoming)),
        call_requires(TcpListener::accept, (listener, cx)),
        call_requires(TcpListener::discard, (listener,)),
{
}

/// A socket sends any datagram between any addresses, can be asked at any time, and takes
/// any answer of lwIP.
pub proof fn law_sockets_take_any_input(
    pcb: usize,
    bind: UdpBind,
    err: i8,
    socket: &mut UdpSocket,
    read: &mut UdpSocketRead,
    write: &UdpSocketWrite,
    inner: &UdpSocketWriteInner,
    cx: &mut Context<'_>,
    data: &[u8],
    src_addr: SocketAddr,
    dst_addr: SocketAddr,
    reference: UdpReference,
    call: UdpSendTo,
    sender: &mut mpsc::Sender<Datagram>,
    p: Pbuf,
)
    ensures
        call_requires(UdpSocket::new, (pcb,)),
        call_requires(UdpBind::bound, (bind, err)),
        call_requires(UdpSocket::recv, (socket, cx)),
        call_requires(UdpSocketRead::recv, (read, cx)),
        call_requires(UdpSocket::send, (&*old(socket), data, &src_addr, &dst_addr)),
        call_requires(UdpSocketWrite::send, (write, data, &src_addr, &dst_addr)),
        call_requires(UdpSocketWriteInner::send, (inner, data, &src_addr, &dst_addr)),
        call_requires(send_udp, (&src_addr, &dst_addr, pcb, data)),
        call_requires(UdpReference::referenced, (reference, pcb)),
        call_requires(UdpSendTo::sent, (call, err)),
        call_requires(udp_recv_cb, (Some(sender), p, src_addr, dst_addr)),
        call_requires(
            udp_recv_cb,
            (None::<&mut mpsc::Sender<Datagram>>, p, src_addr, dst_addr),
        ),
{
}

/// A stack takes any packet, and any room around it that a buffer can have; it can be set
/// up, asked and given up at any time.
pub proof fn law_stacks_take_any_input(
    p: &Pbuf,
    head: usize,
    tail: usize,
    mtu: u16,
    writer: &mut mpsc::Sender<Packet>,
    globals: &mut StackGlobals,
    setup: StackSetup,
    stack: &mut NetStack,
    read: &mut NetStackRead,
    write: &NetStackWrite,
    cx: &mut Context<'_>,
    buf: &[u8],
    call: InputCall,
    reply: Option<i8>,
)
    requires
        p@.len() + head + tail <= isize::MAX,
        p@.len() + old(globals).head() + old(globals).tail() <= isize::MAX,
    ensures
        call_requires(frame, (p, head, tail)),
        call_requires(output, (Some(p), head, tail, Some(writer))),
        call_requires(output_ip4, (Some(p), head, tail, Some(writer))),
        call_requires(StackGlobals::install, (globals, setup)),
        call_requires(StackGlobals::reserved, (&*old(globals),)),
        call_requires(StackGlobals::output, (globals, Some(p))),
        call_requires(StackGlobals::release, (globals,)),
        call_requires(NetStack::new, (head, tail, mtu)),
        call_requires(NetStack::recv_ip, (stack, cx)),
        call_requires(NetStackRead::recv_ip, (read, cx)),
        call_requires(NetStack::send_ip, (&*old(stack), buf)),
        call_requires(NetStackWrite::send_ip, (write, buf)),
        call_requires(InputCall::input, (call, reply)),
{
}

} // verus!

//! UDP sockets.
use std::sync::Arc;
use std::task::{Context, Waker};
use tokio::sync::mpsc;
use vstd::prelude::*;

use crate::addr::SocketAddr;
use crate::calls::BindCall;
use crate::error::{Error, ErrorKind, ERR_OK};
use crate::pbuf::Pbuf;
use crate::sync;
use crate::sync::{Polled, ReceiveCall, ReceiverView};

verus! {

/// A received datagram: its bytes, where it comes from, and where it goes to.
pub type Datagram = (Vec<u8>, SocketAddr, SocketAddr);

/// How many datagrams wait for the reader at most.
pub const DATAGRAM_QUEUE: usize = 1024;

/// lwIP has received a datagram: it is handed to the reader, and lost if the reader
/// has no room for it. The buffer is to be freed either way, except where the socket
/// is gone.
pub fn udp_recv_cb(
    arg: Option<&mut mpsc::Sender<Datagram>>,
    p: Pbuf,
    src_addr: SocketAddr,
    dst_addr: SocketAddr,
) -> (free: Option<usize>)
    ensures
        match arg {
            None => free is None,
            Some(sender) => {
                let now = sync::datagram_sender(*final(sender));
                let (datagram, answer) = now.offers.last();
                &&& free == Some(p.at())
                &&& now.offered(sync::datagram_sender(*sender), datagram, answer)
                &&& datagram.0@ == p@
                &&& datagram.1 == src_addr
                &&& datagram.2 == dst_addr
            },
        },
{
    match arg {
        None => None,
        Some(sender) => {
            let addr: usize = p.addr();
            let _ = sync::datagram_try_send(sender, (p.into_bytes(), src_addr, dst_addr));
            Some(addr)
        },
    }
}

/// A socket.
pub struct UdpSocket {
    write: UdpSocketWrite,
    read: UdpSocketRead,
}

/// The half of a socket that receives.
pub struct UdpSocketRead {
    receiver: mpsc::Receiver<Datagram>,
}

/// The half of a socket that sends. Its copies send through the same control block.
pub struct UdpSocketWrite {
    pub inner: Arc<UdpSocketWriteInner>,
}

impl Clone for UdpSocketWrite {
    fn clone(&self) -> (r: UdpSocketWrite)
        ensures
            r.inner == self.inner,
    {
        UdpSocketWrite { inner: self.inner.clone() }
    }
}

/// The control block that a socket sends through.
pub struct UdpSocketWriteInner {
    pub udp_pcb: usize,
}

/// `udp_bind` is to be called for `pcb`.
pub struct UdpBind {
    pub pcb: usize,
    pub bind: BindCall,
}

/// What is to be done to send a datagram.
pub enum UdpSend {
    /// There is nothing to send.
    Nothing,
    /// A buffer is to be made that refers to the first `len` bytes of the data.
    Reference(UdpReference),
}

/// A call of `pbuf_alloc_reference` for a datagram.
pub struct UdpReference {
    pub len: u16,
    pub pcb: usize,
    pub src_addr: SocketAddr,
    pub dst_addr: SocketAddr,
}

/// A call of `udp_sendto`.
pub struct UdpSendTo {
    pub pbuf: usize,
    pub pcb: usize,
    pub src_addr: SocketAddr,
    pub dst_addr: SocketAddr,
}

/// What is to be done once a datagram was sent.
pub struct UdpSent {
    /// The buffer to be freed.
    pub free: usize,
    pub result: Result<(), Error>,
}

/// What is due when the last half of a socket that sends is gone, in this order.
#[derive(Clone, Copy, Debug, PartialEq, Eq, Structural)]
pub enum UdpCall {
    /// `udp_recv`: a callback is registered or taken back.
    OnRecv(bool),
    /// `udp_disconnect`
    Disconnect,
    /// `udp_remove`
    Remove,
}

impl UdpBind {
    /// `udp_bind` has answered `err`. What is handed to the reader goes into the
    /// sender.
    pub fn bound(self, err: i8) -> (r: Result<(UdpSocket, mpsc::Sender<Datagram>), Error>)
        ensures
            match r {
                Ok((socket, sender)) => {
                    &&& err == ERR_OK
                    &&& socket.spec_write().inner.udp_pcb == self.pcb
                    &&& socket.spec_read().queue().is_new()
                    &&& sync::datagram_sender(sender).is_new(DATAGRAM_QUEUE as nat)
                    &&& sync::datagram_sender(sender).joins(socket.spec_read().queue())
                },
                Err(error) => err != ERR_OK && error.says(
                    ErrorKind::Other,
                    "bind UDP failed: "@ + crate::error::decimal(err as int),
                ),
            },
    {
        if err != ERR_OK {
            return Err(Error::with_code(ErrorKind::Other, "bind UDP failed: ", err));
        }
        let (sender, receiver) = sync::datagram_channel(DATAGRAM_QUEUE);
        let write = UdpSocketWrite { inner: Arc::new(UdpSocketWriteInner { udp_pcb: self.pcb }) };
        Ok((UdpSocket { write, read: UdpSocketRead { receiver } }, sender))
    }
}

impl UdpReference {
    /// `pbuf_alloc_reference` has answered `pbuf`.
    pub fn referenced(self, pbuf: usize) -> (r: Result<UdpSendTo, Error>)
        ensures
            match r {
                Ok(call) => {
                    &&& pbuf != 0
                    &&& call == (UdpSendTo {
                        pbuf,
                        pcb: self.pcb,
                        src_addr: self.src_addr,
                        dst_addr: self.dst_addr,
                    })
                },
                Err(error) => pbuf == 0 && error.says(ErrorKind::WouldBlock, ""@),
            },
    {
        if pbuf == 0 {
            return Err(Error::new(ErrorKind::WouldBlock, ""));
        }
        Ok(
            UdpSendTo {
                pbuf,
                pcb: self.pcb,
                src_addr: self.src_addr,
                dst_addr: self.dst_addr,
            },
        )
    }
}

impl UdpSendTo {
    /// `udp_sendto` has answered `err`.
    pub fn sent(self, err: i8) -> (r: UdpSent)
        ensures
            r.free == self.pbuf,
            match r.result {
                Ok(_) => err == ERR_OK,
                Err(error) => err != ERR_OK && error.says(
                    ErrorKind::Other,
                    "udp_sendto error: "@ + crate::error::decimal(err as int),
                ),
            },
    {
        if err != ERR_OK {
            let error = Error::with_code(ErrorKind::Other, "udp_sendto error: ", err);
            return UdpSent { free: self.pbuf, result: Err(error) };
        }
        UdpSent { free: self.pbuf, result: Ok(()) }
    }
}

/// Starts to send a datagram through `pcb`. An empty one is not sent; lwIP is given a
/// length of 16 bits.
pub open spec fn sends(
    r: UdpSend,
    pcb: usize,
    data: Seq<u8>,
    src_addr: SocketAddr,
    dst_addr: SocketAddr,
) -> bool {
    if data.len() == 0 {
        r is Nothing
    } else {
        &&& r matches UdpSend::Reference(call)
        &&& call.len == data.len() % 0x10000
        &&& call.pcb == pcb
        &&& call.src_addr == src_addr
        &&& call.dst_addr == dst_addr
    }
}

/// Starts to send a datagram through `pcb`.
pub fn send_udp(
    src_addr: &SocketAddr,
    dst_addr: &SocketAddr,
    pcb: usize,
    data: &[u8],
) -> (r: UdpSend)
    ensures
        sends(r, pcb, data@, *src_addr, *dst_addr),
{
    let len: usize = data.len();
    if len == 0 {
        return UdpSend::Nothing;
    }
    UdpSend::Reference(
        UdpReference {
            len: (len % 0x10000) as u16,
            pcb,
            src_addr: *src_addr,
            dst_addr: *dst_addr,
        },
    )
}

impl UdpSocketWriteInner {
    /// Sends a datagram.
    pub fn send(&self, buf: &[u8], src_addr: &SocketAddr, dst_addr: &SocketAddr) -> (r: UdpSend)
        ensures
            sends(r, self.udp_pcb, buf@, *src_addr, *dst_addr),
    {
        send_udp(src_addr, dst_addr, self.udp_pcb, buf)
    }

    /// The calls that register the socket.
    pub fn attach() -> (r: Vec<UdpCall>)
        ensures
            r@ == seq![UdpCall::OnRecv(true)],
    {
        vec![UdpCall::OnRecv(true)]
    }

    /// The calls that are due when nothing can be sent any more.
    pub fn detach() -> (r: Vec<UdpCall>)
        ensures
            r@ == seq![UdpCall::OnRecv(false), UdpCall::Disconnect, UdpCall::Remove],
    {
        vec![UdpCall::OnRecv(false), UdpCall::Disconnect, UdpCall::Remove]
    }
}

impl UdpSocketWrite {
    /// Sends a datagram.
    pub fn send(&self, buf: &[u8], src_addr: &SocketAddr, dst_addr: &SocketAddr) -> (r: UdpSend)
        ensures
            sends(r, self.inner.udp_pcb, buf@, *src_addr, *dst_addr),
    {
        self.inner.send(buf, src_addr, dst_addr)
    }
}

impl UdpSocketRead {
    /// What is known of the queue of datagrams.
    pub closed spec fn queue(self) -> ReceiverView<Datagram> {
        sync::datagram_receiver(self.receiver)
    }

    /// The next datagram.
    pub fn recv(&mut self, cx: &mut Context<'_>) -> (r: Polled<Datagram>)
        ensures
            final(self).queue().receives(
                old(self).queue(),
                sync::waker_of(*old(cx)),
                "close"@,
                r,
            ),
            sync::waker_of(*final(cx)) == sync::waker_of(*old(cx)),
    {
        sync::tell(sync::datagram_poll(&mut self.receiver, cx), "close")
    }
}

impl UdpSocket {
    pub closed spec fn spec_write(self) -> UdpSocketWrite {
        self.write
    }

    pub closed spec fn spec_read(self) -> UdpSocketRead {
        self.read
    }

    /// Starts to open a socket, for any address and any port: `udp_new` has answered
    /// `pcb`.
    pub fn new(pcb: usize) -> (r: Result<UdpBind, Error>)
        ensures
            match r {
                Ok(call) => pcb != 0 && call.pcb == pcb && call.bind.is_any(),
                Err(error) => pcb == 0 && error.says(
                    ErrorKind::Other,
                    "udp_new failed: is_null"@,
                ),
            },
    {
        if pcb == 0 {
            return Err(Error::new(ErrorKind::Other, "udp_new failed: is_null"));
        }
        Ok(UdpBind { pcb, bind: BindCall::any() })
    }

    /// The next datagram.
    pub fn recv(&mut self, cx: &mut Context<'_>) -> (r: Polled<Datagram>)
        ensures
            final(self).spec_write() == old(self).spec_write(),
            final(self).spec_read().queue().receives(
                old(self).spec_read().queue(),
                sync::waker_of(*old(cx)),
                "close"@,
                r,
            ),
            sync::waker_of(*final(cx)) == sync::waker_of(*old(cx)),
    {
        self.read.recv(cx)
    }

    /// Sends a datagram.
    pub fn send(&self, buf: &[u8], src_addr: &SocketAddr, dst_addr: &SocketAddr) -> (r: UdpSend)
        ensures
            sends(r, self.spec_write().inner.udp_pcb, buf@, *src_addr, *dst_addr),
    {
        self.write.send(buf, src_addr, dst_addr)
    }

    /// Both halves of the socket.
    pub fn into_split(self) -> (r: (UdpSocketWrite, UdpSocketRead))
        ensures
            r.0 == self.spec_write(),
            r.1 == self.spec_read(),
    {
        (self.write, self.read)
    }
}

/// The datagrams that are read are those that were received, in the same order.
pub proof fn law_datagrams_are_read_in_order(read: UdpSocketRead, sender: mpsc::Sender<Datagram>)
    requires
        sync::datagram_sender(sender).valid(),
        read.queue().valid(),
        sync::datagram_sender(sender).joins(read.queue()),
    ensures
        sync::keeps_order(sync::datagram_sender(sender), read.queue()),
{
    sync::law_channel_keeps_order(sync::datagram_sender(sender), read.queue());
}

/// Each call of `recv` gives the first datagram that was received and not given out yet,
/// with its addresses. While the sender of the socket is left it does not fail; once it
/// is gone and everything was given out, it does.
pub proof fn law_recv_gives_the_next_datagram(
    sender: mpsc::Sender<Datagram>,
    before: UdpSocketRead,
    after: UdpSocketRead,
    waker: Waker,
    r: Polled<Datagram>,
)
    requires
        sync::datagram_sender(sender).valid(),
        sync::datagram_sender(sender).joins(before.queue()),
        after.queue().receives(before.queue(), waker, "close"@, r),
    ensures
        sync::next_in_line(sync::datagram_sender(sender), before.queue(), after.queue(), r),
{
    sync::law_next_in_line(
        sync::datagram_sender(sender),
        before.queue(),
        after.queue(),
        waker,
        "close"@,
        r,
    );
}

/// Once the sender of a socket is gone, `recv` gives out the datagrams that are left, in
/// the order in which they were received, and then fails from one call to the next.
pub proof fn law_datagrams_come_before_the_end(
    sender: mpsc::Sender<Datagram>,
    read: UdpSocketRead,
    calls: Seq<ReceiveCall<Datagram>>,
)
    requires
        sync::datagram_sender(sender).valid(),
        sync::datagram_sender(sender).joins(read.queue()),
        sync::accepted(sync::datagram_sender(sender).offers).len() == sync::datagram_sender(
            sender,
        ).total,
        sync::in_a_row(calls, "close"@),
        calls[0].before == read.queue(),
    ensures
        sync::gives_the_rest(
            calls,
            sync::accepted(sync::datagram_sender(sender).offers),
            sync::items(read.queue().polls).len() as int,
            "close"@,
        ),
{
    sync::law_rest_comes_before_the_end(sync::datagram_sender(sender), calls, "close"@);
}

/// All of a datagram of up to 65535 bytes is sent, and an empty one is not.
pub proof fn law_whole_datagram_is_sent(
    r: UdpSend,
    pcb: usize,
    data: Seq<u8>,
    src_addr: SocketAddr,
    dst_addr: SocketAddr,
)
    requires
        data.len() <= 0xffff,
        sends(r, pcb, data, src_addr, dst_addr),
    ensures
        r is Nothing <==> data.len() == 0,
        r matches UdpSend::Reference(call) ==> data.take(call.len as int) == data,
{
    if let UdpSend::Reference(call) = r {
        assert(data.take(call.len as int) =~= data);
    }
}

} // verus!

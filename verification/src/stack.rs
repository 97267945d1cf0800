//! IP packets in and out of the stack.
use std::task::{Context, Waker};
use tokio::sync::mpsc;
use vstd::prelude::*;

use crate::error::{Error, ErrorKind, ERR_OK};
use crate::pbuf::Pbuf;
use crate::sync;
use crate::sync::{Polled, ReceiveCall, ReceiverView};

verus! {

/// A packet on its way out: a buffer, and where the packet starts and ends in it.
pub type Packet = (Vec<u8>, usize, usize);

/// How many packets wait for the reader at most.
pub const PACKET_QUEUE: usize = 1024;

/// How often the timers of lwIP are looked at, in milliseconds.
pub const TIMER_INTERVAL: u64 = 250;

/// A packet buffer with `head` zero bytes in front of the packet and `tail` zero bytes
/// behind it.
pub open spec fn framed(packet: Packet, payload: Seq<u8>, head: nat, tail: nat) -> bool {
    &&& packet.0@ == Seq::new(head, |i: int| 0u8) + payload + Seq::new(tail, |i: int| 0u8)
    &&& packet.1 == head
    &&& packet.2 == head + payload.len()
}

/// The packet that is sent for `p` with room of `head` and `tail` bytes around it.
pub fn frame(p: &Pbuf, head: usize, tail: usize) -> (r: Packet)
    requires
        p@.len() + head + tail <= isize::MAX,
    ensures
        framed(r, p@, head as nat, tail as nat),
{
    let payload: usize = p.tot_len() as usize;
    let len: usize = payload + head + tail;
    let mut buf: Vec<u8> = Vec::with_capacity(len);
    buf.resize(len, 0);
    let (_, rest) = buf.as_mut_slice().split_at_mut(head);
    p.copy_partial(rest, payload, 0);
    assert(buf@ =~= Seq::new(head as nat, |i: int| 0u8) + p@ + Seq::new(tail as nat, |i: int| 0u8));
    (buf, head, head + payload)
}

/// Since `before`, the packet that is sent for `p` was offered to the reader; without
/// a buffer, nothing was.
pub open spec fn puts_out(
    after: mpsc::Sender<Packet>,
    before: mpsc::Sender<Packet>,
    p: Option<&Pbuf>,
    head: nat,
    tail: nat,
) -> bool {
    let now = sync::packet_sender(after);
    match p {
        None => now == sync::packet_sender(before),
        Some(p) => {
            let (packet, answer) = now.offers.last();
            &&& now.offered(sync::packet_sender(before), packet, answer)
            &&& framed(packet, p@, head, tail)
        },
    }
}

/// A packet leaves the stack: it is handed to the reader, if there is one, and lost
/// if the reader has no room for it.
pub fn output(
    p: Option<&Pbuf>,
    head_reserved: usize,
    tail_reserved: usize,
    writer: Option<&mut mpsc::Sender<Packet>>,
) -> (r: i8)
    requires
        p is Some ==> (p->0)@.len() + head_reserved + tail_reserved <= isize::MAX,
    ensures
        r == ERR_OK,
        match writer {
            None => true,
            Some(sender) => puts_out(
                *final(sender),
                *sender,
                p,
                head_reserved as nat,
                tail_reserved as nat,
            ),
        },
{
    if let Some(p) = p {
        let packet = frame(p, head_reserved, tail_reserved);
        if let Some(sender) = writer {
            let _ = sync::packet_try_send(sender, packet);
        }
    }
    ERR_OK
}

/// An IPv4 packet leaves the stack, whichever address it goes to.
pub fn output_ip4(
    p: Option<&Pbuf>,
    head_reserved: usize,
    tail_reserved: usize,
    writer: Option<&mut mpsc::Sender<Packet>>,
) -> (r: i8)
    requires
        p is Some ==> (p->0)@.len() + head_reserved + tail_reserved <= isize::MAX,
    ensures
        r == ERR_OK,
        match writer {
            None => true,
            Some(sender) => puts_out(
                *final(sender),
                *sender,
                p,
                head_reserved as nat,
                tail_reserved as nat,
            ),
        },
{
    output(p, head_reserved, tail_reserved, writer)
}

/// Both directions of the stack.
pub struct NetStack {
    write: NetStackWrite,
    read: NetStackRead,
}

/// The packets that leave the stack.
pub struct NetStackRead {
    receiver: mpsc::Receiver<Packet>,
}

/// The way into the stack.
pub struct NetStackWrite {}

impl Clone for NetStackWrite {
    fn clone(&self) -> (r: NetStackWrite)
        ensures
            r == *self,
    {
        NetStackWrite {  }
    }
}

/// What the stack is set up with.
pub struct StackSetup {
    pub head_reserved: usize,
    pub tail_reserved: usize,
    pub mtu: u16,
    pub writer: mpsc::Sender<Packet>,
}

/// What the stack runs with. There is one for the whole process, and each new stack
/// takes it over.
pub struct StackGlobals {
    head_reserved: usize,
    tail_reserved: usize,
    writer: Option<mpsc::Sender<Packet>>,
    started: bool,
}

/// What is to be done in lwIP for a new stack.
pub struct StackStart {
    /// Whether lwIP is to be started, and given the output function.
    pub init: bool,
    /// The largest packet that the interface takes.
    pub mtu: u16,
}

impl StackGlobals {
    pub closed spec fn head(self) -> usize {
        self.head_reserved
    }

    pub closed spec fn tail(self) -> usize {
        self.tail_reserved
    }

    /// Where packets go that leave the stack.
    pub closed spec fn out(self) -> Option<mpsc::Sender<Packet>> {
        self.writer
    }

    /// Whether lwIP was started.
    pub closed spec fn running(self) -> bool {
        self.started
    }

    /// Since `before`, a stack was set up with `setup`.
    pub open spec fn installs(
        self,
        before: StackGlobals,
        setup: StackSetup,
        start: StackStart,
    ) -> bool {
        &&& self.head() == setup.head_reserved
        &&& self.tail() == setup.tail_reserved
        &&& self.out() == Some(setup.writer)
        &&& self.running()
        &&& start.init == !before.running()
        &&& start.mtu == setup.mtu
    }

    /// Since `before`, `p` left the stack.
    pub open spec fn outputs(self, before: StackGlobals, p: Option<&Pbuf>) -> bool {
        &&& self.head() == before.head()
        &&& self.tail() == before.tail()
        &&& self.running() == before.running()
        &&& match before.out() {
            None => self.out() is None,
            Some(writer) => self.out() is Some && puts_out(
                self.out()->0,
                writer,
                p,
                before.head() as nat,
                before.tail() as nat,
            ),
        }
    }

    /// Before there is a stack.
    pub fn new() -> (r: StackGlobals)
        ensures
            r.head() == 0,
            r.tail() == 0,
            r.out() is None,
            !r.running(),
    {
        StackGlobals { head_reserved: 0, tail_reserved: 0, writer: None, started: false }
    }

    /// Sets up a new stack, in place of the one before.
    pub fn install(&mut self, setup: StackSetup) -> (r: StackStart)
        ensures
            final(self).installs(*old(self), setup, r),
    {
        let init: bool = !self.started;
        self.head_reserved = setup.head_reserved;
        self.tail_reserved = setup.tail_reserved;
        self.writer = Some(setup.writer);
        self.started = true;
        StackStart { init, mtu: setup.mtu }
    }

    /// The room in front of and behind a packet that leaves the stack.
    pub fn reserved(&self) -> (r: (usize, usize))
        ensures
            r == (self.head(), self.tail()),
    {
        (self.head_reserved, self.tail_reserved)
    }

    /// A packet leaves the stack that was set up last.
    pub fn output(&mut self, p: Option<&Pbuf>) -> (r: i8)
        requires
            p is Some ==> (p->0)@.len() + old(self).head() + old(self).tail() <= isize::MAX,
        ensures
            r == ERR_OK,
            final(self).outputs(*old(self), p),
    {
        match &mut self.writer {
            Some(writer) => output_ip4(p, self.head_reserved, self.tail_reserved, Some(writer)),
            None => output_ip4(p, self.head_reserved, self.tail_reserved, None),
        }
    }

    /// Nobody reads any more what leaves the stack.
    pub fn release(&mut self)
        ensures
            final(self).out() is None,
            final(self).head() == old(self).head(),
            final(self).tail() == old(self).tail(),
            final(self).running() == old(self).running(),
    {
        self.writer = None;
    }
}

/// A call of the input function of the network interface, with a new buffer that
/// holds the first `len` bytes of what is sent.
pub struct InputCall {
    pub len: u16,
}

/// What is to be done once a packet went in.
pub struct InputReply {
    /// Whether the buffer is to be freed.
    pub free: bool,
    pub result: Result<(), Error>,
}

impl InputCall {
    /// The input function has answered `reply`; there is no answer where the
    /// interface has no such function. A buffer that was taken is lwIP's to free.
    pub fn input(self, reply: Option<i8>) -> (r: InputReply)
        ensures
            r.free == (reply != Some(ERR_OK)),
            match r.result {
                Ok(_) => reply == Some(ERR_OK),
                Err(error) => match reply {
                    Some(err) => err != ERR_OK && error.says(
                        ErrorKind::Interrupted,
                        "input error: "@ + crate::error::decimal(err as int),
                    ),
                    None => error.says(ErrorKind::Interrupted, "input fn not set"@),
                },
            },
    {
        match reply {
            Some(err) => {
                if err == ERR_OK {
                    InputReply { free: false, result: Ok(()) }
                } else {
                    let error = Error::with_code(ErrorKind::Interrupted, "input error: ", err);
                    InputReply { free: true, result: Err(error) }
                }
            },
            None => {
                let error = Error::new(ErrorKind::Interrupted, "input fn not set");
                InputReply { free: true, result: Err(error) }
            },
        }
    }
}

impl NetStackWrite {
    /// Sends a packet into the stack. lwIP is given a length of 16 bits.
    pub fn send_ip(&self, buf: &[u8]) -> (r: InputCall)
        ensures
            r.len == buf@.len() % 0x10000,
    {
        InputCall { len: (buf.len() % 0x10000) as u16 }
    }
}

impl NetStackRead {
    /// What is known of the queue of packets.
    pub closed spec fn queue(self) -> ReceiverView<Packet> {
        sync::packet_receiver(self.receiver)
    }

    /// The next packet that leaves the stack.
    pub fn recv_ip(&mut self, cx: &mut Context<'_>) -> (r: Polled<Packet>)
        ensures
            final(self).queue().receives(
                old(self).queue(),
                sync::waker_of(*old(cx)),
                ""@,
                r,
            ),
            sync::waker_of(*final(cx)) == sync::waker_of(*old(cx)),
    {
        sync::tell(sync::packet_poll(&mut self.receiver, cx), "")
    }
}

impl NetStack {
    pub closed spec fn spec_write(self) -> NetStackWrite {
        self.write
    }

    pub closed spec fn spec_read(self) -> NetStackRead {
        self.read
    }

    /// A stack whose packets leave with `head_reserved` bytes in front of them and
    /// `tail_reserved` behind, and what it is to be set up with.
    pub fn new(head_reserved: usize, tail_reserved: usize, mtu: u16) -> (r: (NetStack, StackSetup))
        ensures
            r.0.spec_read().queue().is_new(),
            r.1.head_reserved == head_reserved,
            r.1.tail_reserved == tail_reserved,
            r.1.mtu == mtu,
            sync::packet_sender(r.1.writer).is_new(PACKET_QUEUE as nat),
            sync::packet_sender(r.1.writer).joins(r.0.spec_read().queue()),
    {
        let (writer, receiver) = sync::packet_channel(PACKET_QUEUE);
        (
            NetStack { write: NetStackWrite {  }, read: NetStackRead { receiver } },
            StackSetup { head_reserved, tail_reserved, mtu, writer },
        )
    }

    /// The next packet that leaves the stack.
    pub fn recv_ip(&mut self, cx: &mut Context<'_>) -> (r: Polled<Packet>)
        ensures
            final(self).spec_write() == old(self).spec_write(),
            final(self).spec_read().queue().receives(
                old(self).spec_read().queue(),
                sync::waker_of(*old(cx)),
                ""@,
                r,
            ),
            sync::waker_of(*final(cx)) == sync::waker_of(*old(cx)),
    {
        self.read.recv_ip(cx)
    }

    /// Sends a packet into the stack.
    pub fn send_ip(&self, buf: &[u8]) -> (r: InputCall)
        ensures
            r.len == buf@.len() % 0x10000,
    {
        self.write.send_ip(buf)
    }

    /// Both directions of the stack.
    pub fn into_split(self) -> (r: (NetStackWrite, NetStackRead))
        ensures
            r.0 == self.spec_write(),
            r.1 == self.spec_read(),
    {
        (self.write, self.read)
    }
}

/// A packet that leaves the stack is found where its buffer says it is, and around
/// it lies the room that was asked for.
pub proof fn law_packet_is_framed(packet: Packet, payload: Seq<u8>, head: nat, tail: nat)
    requires
        framed(packet, payload, head, tail),
    ensures
        packet.1 <= packet.2 <= packet.0@.len(),
        packet.0@.subrange(packet.1 as int, packet.2 as int) == payload,
        packet.1 == head,
        packet.0@.len() - packet.2 == tail,
{
    assert(packet.0@.subrange(packet.1 as int, packet.2 as int) =~= payload);
}

/// The packets that are read are those that left the stack, in the same order.
pub proof fn law_packets_are_read_in_order(read: NetStackRead, writer: mpsc::Sender<Packet>)
    requires
        sync::packet_sender(writer).valid(),
        read.queue().valid(),
        sync::packet_sender(writer).joins(read.queue()),
    ensures
        sync::keeps_order(sync::packet_sender(writer), read.queue()),
{
    sync::law_channel_keeps_order(sync::packet_sender(writer), read.queue());
}

/// Each call of `recv_ip` gives the first packet that left the stack and was not given
/// out yet. While the writer of the stack is left it does not fail; once it is gone and
/// everything was given out, it does.
pub proof fn law_recv_ip_gives_the_next_packet(
    writer: mpsc::Sender<Packet>,
    before: NetStackRead,
    after: NetStackRead,
    waker: Waker,
    r: Polled<Packet>,
)
    requires
        sync::packet_sender(writer).valid(),
        sync::packet_sender(writer).joins(before.queue()),
        after.queue().receives(before.queue(), waker, ""@, r),
    ensures
        sync::next_in_line(sync::packet_sender(writer), before.queue(), after.queue(), r),
{
    sync::law_next_in_line(
        sync::packet_sender(writer),
        before.queue(),
        after.queue(),
        waker,
        ""@,
        r,
    );
}

/// Once the writer of a stack is gone, as when a later stack takes over, `recv_ip` gives
/// out the packets that are left, in the order in which they left the stack, and then
/// fails from one call to the next.
pub proof fn law_packets_come_before_the_end(
    writer: mpsc::Sender<Packet>,
    read: NetStackRead,
    calls: Seq<ReceiveCall<Packet>>,
)
    requires
        sync::packet_sender(writer).valid(),
        sync::packet_sender(writer).joins(read.queue()),
        sync::accepted(sync::packet_sender(writer).offers).len() == sync::packet_sender(
            writer,
        ).total,
        sync::in_a_row(calls, ""@),
        calls[0].before == read.queue(),
    ensures
        sync::gives_the_rest(
            calls,
            sync::accepted(sync::packet_sender(writer).offers),
            sync::items(read.queue().polls).len() as int,
            ""@,
        ),
{
    sync::law_rest_comes_before_the_end(sync::packet_sender(writer), calls, ""@);
}

/// Of two stacks that are set up, the later one is in force: lwIP is started at most
/// once, and not by the later one; the interface gets the later size; and a packet that
/// leaves is offered to the later stack, with its room around it.
pub proof fn law_later_stack_takes_over(
    at_first: StackGlobals,
    first: StackSetup,
    first_start: StackStart,
    between: StackGlobals,
    second: StackSetup,
    second_start: StackStart,
    set_up: StackGlobals,
    p: &Pbuf,
    after: StackGlobals,
)
    requires
        between.installs(at_first, first, first_start),
        set_up.installs(between, second, second_start),
        after.outputs(set_up, Some(p)),
    ensures
        first_start.init == !at_first.running(),
        !second_start.init,
        second_start.mtu == second.mtu,
        after.out() is Some,
        ({
            let now = sync::packet_sender(after.out()->0);
            let (packet, answer) = now.offers.last();
            &&& now.offered(sync::packet_sender(second.writer), packet, answer)
            &&& framed(
                packet,
                p@,
                second.head_reserved as nat,
                second.tail_reserved as nat,
            )
            &&& packet.0@.len() == second.head_reserved + p@.len() + second.tail_reserved
        }),
{
}

/// All of a packet of up to 65535 bytes goes into the stack.
pub proof fn law_whole_packet_goes_in(buf: Seq<u8>, call: InputCall)
    requires
        buf.len() <= 0xffff,
        call.len == buf.len() % 0x10000,
    ensures
        buf.take(call.len as int) == buf,
{
    assert(buf.take(call.len as int) =~= buf);
}

} // verus!

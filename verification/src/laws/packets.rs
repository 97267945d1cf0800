//! IP packets in and out of the stack.
use std::task::Context;
use tokio::sync::mpsc;
use vstd::prelude::*;

use crate::error::{code_text, Error, ErrorKind};
use crate::pbuf::Pbuf;
use crate::stack::{
    frame, output, output_ip4, InputCall, InputReply, NetStack, NetStackRead, NetStackWrite,
    Packet, StackGlobals, StackSetup, StackStart,
};
use crate::sync;
use crate::sync::{Answer, Next, Polled};

verus! {

/// A packet lies in its buffer behind the zero bytes and in front of the room that was
/// asked for, where the buffer says that it is.
pub proof fn law_packet_is_laid_out(p: &Pbuf, head: usize, tail: usize, r: Packet)
    requires
        call_ensures(frame, (p, head, tail), r),
    ensures
        r.1 == head,
        r.2 - r.1 == p@.len(),
        r.0@.len() - r.2 == tail,
        r.0@.subrange(r.1 as int, r.2 as int) == p@,
        forall|i: int| 0 <= i < head ==> #[trigger] r.0@[i] == 0,
{
    assert(r.0@.subrange(r.1 as int, r.2 as int) =~= p@);
}

/// A packet that leaves is offered to the writer once, laid out; lwIP is always told that
/// all is well. Nothing is offered where there is no packet.
pub proof fn law_output_offers_the_packet(
    p: &Pbuf,
    head: usize,
    tail: usize,
    writer: &mut mpsc::Sender<Packet>,
    r: i8,
    writer_ip4: &mut mpsc::Sender<Packet>,
    r_ip4: i8,
    idle: &mut mpsc::Sender<Packet>,
    r_idle: i8,
    r_none: i8,
)
    requires
        call_ensures(output, (Some(p), head, tail, Some(writer)), r),
        call_ensures(output_ip4, (Some(p), head, tail, Some(writer_ip4)), r_ip4),
        call_ensures(output, (None::<&Pbuf>, head, tail, Some(idle)), r_idle),
        call_ensures(output, (Some(p), head, tail, None::<&mut mpsc::Sender<Packet>>), r_none),
    ensures
        r == 0,
        r_ip4 == 0,
        r_idle == 0,
        r_none == 0,
        ({
            let now = sync::packet_sender(*final(writer));
            let was = sync::packet_sender(*old(writer));
            let packet = now.offers.last().0;
            &&& now.offers.len() == was.offers.len() + 1
            &&& now.offers.drop_last() == was.offers
            &&& now.carried == was.carried
            &&& now.total == was.total
            &&& packet.1 == head
            &&& packet.2 - packet.1 == p@.len()
            &&& packet.0@.len() - packet.2 == tail
            &&& packet.0@.subrange(packet.1 as int, packet.2 as int) == p@
            &&& forall|i: int| 0 <= i < head ==> #[trigger] packet.0@[i] == 0
        }),
        ({
            let now = sync::packet_sender(*final(writer_ip4));
            let was = sync::packet_sender(*old(writer_ip4));
            let packet = now.offers.last().0;
            &&& now.offers.len() == was.offers.len() + 1
            &&& now.offers.drop_last() == was.offers
            &&& now.carried == was.carried
            &&& now.total == was.total
            &&& packet.1 == head
            &&& packet.2 - packet.1 == p@.len()
            &&& packet.0@.len() - packet.2 == tail
            &&& packet.0@.subrange(packet.1 as int, packet.2 as int) == p@
            &&& forall|i: int| 0 <= i < head ==> #[trigger] packet.0@[i] == 0
        }),
        sync::packet_sender(*final(idle)) == sync::packet_sender(*old(idle)),
{
    assert(sync::packet_sender(*final(writer)).offers.drop_last() =~= sync::packet_sender(
        *old(writer),
    ).offers);
    assert(sync::packet_sender(*final(writer_ip4)).offers.drop_last() =~= sync::packet_sender(
        *old(writer_ip4),
    ).offers);
    let packet = sync::packet_sender(*final(writer)).offers.last().0;
    assert(packet.0@.subrange(packet.1 as int, packet.2 as int) =~= p@);
    let packet = sync::packet_sender(*final(writer_ip4)).offers.last().0;
    assert(packet.0@.subrange(packet.1 as int, packet.2 as int) =~= p@);
}

/// Whatever was set up before, and also where nothing was, a new stack is in force: its
/// room is reserved, its size goes to the interface, and lwIP is started if it was not.
pub proof fn law_new_stack_is_in_force(
    globals: &mut StackGlobals,
    setup: StackSetup,
    start: StackStart,
    reserved: (usize, usize),
    again: &mut StackGlobals,
    other: StackSetup,
    restart: StackStart,
)
    requires
        call_ensures(StackGlobals::install, (globals, setup), start),
        call_ensures(StackGlobals::reserved, (&*final(globals),), reserved),
        *old(again) == *final(globals),
        call_ensures(StackGlobals::install, (again, other), restart),
    ensures
        reserved == (setup.head_reserved, setup.tail_reserved),
        start.mtu == setup.mtu,
        final(globals).out() == Some(setup.writer),
        start.init == !old(globals).running(),
        !restart.init,
        restart.mtu == other.mtu,
        final(again).out() == Some(other.writer),
{
}

/// Before there is a stack, no room is reserved, nothing is put out and lwIP was not
/// started: the first stack starts it.
pub proof fn law_first_stack_starts(
    globals: &mut StackGlobals,
    reserved: (usize, usize),
    setup: StackSetup,
    start: StackStart,
)
    requires
        call_ensures(StackGlobals::new, (), *old(globals)),
        call_ensures(StackGlobals::reserved, (&*old(globals),), reserved),
        call_ensures(StackGlobals::install, (globals, setup), start),
    ensures
        reserved == (0usize, 0usize),
        old(globals).out() is None,
        start.init,
{
}

/// A packet that leaves after a stack was set up is offered to that stack, with the room
/// that it asked for around it; and from then on the stack is in force as before.
pub proof fn law_packet_leaves_the_new_stack(
    globals: &mut StackGlobals,
    setup: StackSetup,
    start: StackStart,
    later: &mut StackGlobals,
    p: &Pbuf,
    r: i8,
    reserved: (usize, usize),
)
    requires
        call_ensures(StackGlobals::install, (globals, setup), start),
        *old(later) == *final(globals),
        call_ensures(StackGlobals::output, (later, Some(p)), r),
        call_ensures(StackGlobals::reserved, (&*final(later),), reserved),
    ensures
        r == 0,
        final(later).out() is Some,
        ({
            let now = sync::packet_sender(final(later).out()->0);
            let was = sync::packet_sender(setup.writer);
            let packet = now.offers.last().0;
            &&& now.offers.len() == was.offers.len() + 1
            &&& now.offers.drop_last() == was.offers
            &&& now.carried == was.carried
            &&& now.total == was.total
            &&& packet.1 == setup.head_reserved
            &&& packet.2 - packet.1 == p@.len()
            &&& packet.0@.len() - packet.2 == setup.tail_reserved
            &&& packet.0@.subrange(packet.1 as int, packet.2 as int) == p@
            &&& forall|i: int| 0 <= i < setup.head_reserved ==> #[trigger] packet.0@[i] == 0
        }),
        reserved == (setup.head_reserved, setup.tail_reserved),
        final(later).running(),
{
    let writer = final(later).out()->0;
    assert(sync::packet_sender(writer).offers.drop_last() =~= sync::packet_sender(
        setup.writer,
    ).offers);
    let packet = sync::packet_sender(writer).offers.last().0;
    assert(packet.0@.subrange(packet.1 as int, packet.2 as int) =~= p@);
}

/// In every state, a packet that leaves is offered to the writer that is in force, with the
/// room that is reserved; without a writer it is lost.
pub proof fn law_packet_leaves_the_stack_in_force(
    globals: &mut StackGlobals,
    reserved: (usize, usize),
    p: &Pbuf,
    r: i8,
    later: (usize, usize),
)
    requires
        call_ensures(StackGlobals::reserved, (&*old(globals),), reserved),
        call_ensures(StackGlobals::output, (globals, Some(p)), r),
        call_ensures(StackGlobals::reserved, (&*final(globals),), later),
    ensures
        r == 0,
        later == reserved,
        final(globals).running() == old(globals).running(),
        match old(globals).out() {
            None => final(globals).out() is None,
            Some(writer) => final(globals).out() is Some && ({
                let now = sync::packet_sender(final(globals).out()->0);
                let was = sync::packet_sender(writer);
                let packet = now.offers.last().0;
                &&& now.offers.len() == was.offers.len() + 1
                &&& now.offers.drop_last() == was.offers
                &&& now.carried == was.carried
                &&& now.total == was.total
                &&& packet.1 == reserved.0
                &&& packet.2 - packet.1 == p@.len()
                &&& packet.0@.len() - packet.2 == reserved.1
                &&& packet.0@.subrange(packet.1 as int, packet.2 as int) == p@
                &&& forall|i: int| 0 <= i < reserved.0 ==> #[trigger] packet.0@[i] == 0
            }),
        },
{
    if let Some(writer) = old(globals).out() {
        let after = final(globals).out()->0;
        assert(sync::packet_sender(after).offers.drop_last() =~= sync::packet_sender(
            writer,
        ).offers);
        let packet = sync::packet_sender(after).offers.last().0;
        assert(packet.0@.subrange(packet.1 as int, packet.2 as int) =~= p@);
    }
}

/// A stack that nobody reads any more puts nothing out; all else stays.
pub proof fn law_released_stack_puts_nothing_out(
    globals: &mut StackGlobals,
    reserved: (usize, usize),
    later: (usize, usize),
)
    requires
        call_ensures(StackGlobals::reserved, (&*old(globals),), reserved),
        call_ensures(StackGlobals::release, (globals,), ()),
        call_ensures(StackGlobals::reserved, (&*final(globals),), later),
    ensures
        final(globals).out() is None,
        final(globals).running() == old(globals).running(),
        later == reserved,
{
}

/// A new stack is set up with what was asked for, and its reader gets what goes into its
/// writer, nothing yet.
pub proof fn law_stack_is_made_as_asked(
    head: usize,
    tail: usize,
    mtu: u16,
    stack: NetStack,
    setup: StackSetup,
    write: NetStackWrite,
    read: NetStackRead,
)
    requires
        call_ensures(NetStack::new, (head, tail, mtu), (stack, setup)),
        call_ensures(NetStack::into_split, (stack,), (write, read)),
    ensures
        setup.head_reserved == head,
        setup.tail_reserved == tail,
        setup.mtu == mtu,
        ({
            let queue = sync::packet_sender(setup.writer);
            &&& queue.capacity == 1024
            &&& queue.offers.len() == 0
            &&& queue.carried == read.queue().carried
            &&& queue.total == read.queue().total
            &&& read.queue().polls.len() == 0
            &&& !read.queue().closed
        }),
{
}

/// A packet that leaves a stack comes out of it: the first one that its queue takes is the
/// first one that it gives out, with the room that was asked for.
pub proof fn law_first_packet_comes_out(
    head: usize,
    tail: usize,
    mtu: u16,
    stack: NetStack,
    setup: StackSetup,
    globals: &mut StackGlobals,
    start: StackStart,
    running: &mut StackGlobals,
    p: &Pbuf,
    r: i8,
    reader: &mut NetStack,
    cx: &mut Context<'_>,
    told: Polled<Packet>,
)
    requires
        call_ensures(NetStack::new, (head, tail, mtu), (stack, setup)),
        call_ensures(StackGlobals::install, (globals, setup), start),
        *old(running) == *final(globals),
        call_ensures(StackGlobals::output, (running, Some(p)), r),
        final(running).out() matches Some(writer) && sync::packet_sender(writer).offers.last().1
            == Answer::Accepted,
        *old(reader) == stack,
        call_ensures(NetStack::recv_ip, (reader, cx), told),
    ensures
        told matches Polled::Ready(Ok(packet)) ==> {
            &&& packet.1 == head
            &&& packet.2 - packet.1 == p@.len()
            &&& packet.0@.len() - packet.2 == tail
            &&& packet.0@.subrange(packet.1 as int, packet.2 as int) == p@
            &&& forall|i: int| 0 <= i < head ==> #[trigger] packet.0@[i] == 0
        },
        !(told matches Polled::Ready(Err(_))),
{
    let tx = sync::packet_sender(final(running).out()->0);
    let was = sync::packet_sender(setup.writer);
    assert(tx.offers.drop_last() =~= was.offers);
    assert(sync::accepted(was.offers).len() == 0);
    assert(sync::accepted(tx.offers)[0] == tx.offers.last().0);
    let before = stack.spec_read().queue();
    let after = final(reader).spec_read().queue();
    sync::lemma_items_push(before.polls, after.polls.last());
    assert(sync::items(before.polls).len() == 0);
    if let Next::Item(item) = after.polls.last() {
        assert(sync::items(after.polls)[0] == item);
        assert(item.0@.subrange(item.1 as int, item.2 as int) =~= p@);
    }
    assert(after.polls[after.polls.len() - 1] == after.polls.last());
}

/// A call of `recv_ip` asks the queue once, without closing it, and tells what it
/// answered; one that waits is woken.
pub proof fn law_recv_ip_tells_the_answer(
    read: &mut NetStackRead,
    cx: &mut Context<'_>,
    r: Polled<Packet>,
)
    requires
        call_ensures(NetStackRead::recv_ip, (read, cx), r),
    ensures
        final(read).queue().polls.len() == old(read).queue().polls.len() + 1,
        final(read).queue().polls.drop_last() == old(read).queue().polls,
        final(read).queue().closed == old(read).queue().closed,
        final(read).queue().carried == old(read).queue().carried,
        match final(read).queue().polls.last() {
            Next::Item(packet) => r == Polled::Ready(Ok::<Packet, Error>(packet)),
            Next::Ended => r matches Polled::Ready(Err(error)) && error.kind
                == ErrorKind::UnexpectedEof && error.message@ == ""@,
            Next::Pending => r is Pending && final(read).queue().waiting == Some(
                sync::waker_of(*old(cx)),
            ),
        },
{
    assert(final(read).queue().polls.drop_last() =~= old(read).queue().polls);
}

/// A stack gives packets out as its reading half does.
pub proof fn law_stack_receives_like_its_half(
    stack: &mut NetStack,
    cx: &mut Context<'_>,
    r: Polled<Packet>,
    write: NetStackWrite,
    read: NetStackRead,
    later_write: NetStackWrite,
    later: NetStackRead,
)
    requires
        call_ensures(NetStack::into_split, (*old(stack),), (write, read)),
        call_ensures(NetStack::recv_ip, (stack, cx), r),
        call_ensures(NetStack::into_split, (*final(stack),), (later_write, later)),
    ensures
        later_write == write,
        later.queue().polls.len() == read.queue().polls.len() + 1,
        later.queue().polls.drop_last() == read.queue().polls,
        later.queue().closed == read.queue().closed,
        match later.queue().polls.last() {
            Next::Item(packet) => r == Polled::Ready(Ok::<Packet, Error>(packet)),
            Next::Ended => r matches Polled::Ready(Err(error)) && error.kind
                == ErrorKind::UnexpectedEof && error.message@ == ""@,
            Next::Pending => r is Pending && later.queue().waiting == Some(
                sync::waker_of(*old(cx)),
            ),
        },
{
    assert(later.queue().polls.drop_last() =~= read.queue().polls);
}

/// A packet that goes in is given to lwIP in full, where its length fits in 16 bits, by
/// the stack, by its writing half and by a copy of that.
pub proof fn law_packet_goes_in_whole(
    stack: &NetStack,
    write: &NetStackWrite,
    copy: NetStackWrite,
    buf: &[u8],
    whole: InputCall,
    half: InputCall,
    copied: InputCall,
)
    requires
        call_ensures(NetStackWrite::clone, (write,), copy),
        call_ensures(NetStack::send_ip, (stack, buf), whole),
        call_ensures(NetStackWrite::send_ip, (write, buf), half),
        call_ensures(NetStackWrite::send_ip, (&copy, buf), copied),
    ensures
        buf@.len() <= 0xffff ==> half.len == buf@.len(),
        exists|k: int| #![trigger k * 0x10000] buf@.len() == k * 0x10000 + half.len,
        whole == half,
        copied == half,
{
    let k = (buf@.len() as int) / 0x10000;
    assert(buf@.len() == k * 0x10000 + half.len);
}

/// A packet has gone in exactly if the interface has an input function and that answers
/// without an error; otherwise the buffer is freed and the failure told.
pub proof fn law_input_follows_the_answer(
    call: InputCall,
    err: i8,
    text: String,
    answered: InputReply,
    unset: InputReply,
)
    requires
        call_ensures(code_text, (err,), text),
        call_ensures(InputCall::input, (call, Some(err)), answered),
        call_ensures(InputCall::input, (call, None::<i8>), unset),
    ensures
        answered.result is Ok <==> err == 0,
        answered.free <==> err != 0,
        answered.result matches Err(error) ==> error.kind == ErrorKind::Interrupted
            && error.message@ == "input error: "@ + text@,
        unset.free,
        unset.result matches Err(error) && error.kind == ErrorKind::Interrupted && error.message@
            == "input fn not set"@,
{
}

} // verus!

//! Reading from a connection.
use std::task::Context;
use vstd::prelude::*;

use crate::addr::SocketAddr;
use crate::error::ErrorKind;
use crate::pbuf::Pbuf;
use crate::read_item::ReadItem;
use crate::sync;
use crate::sync::Next;
use crate::tcp_args::{TcpArgs, TcpContext};
use crate::tcp_read;
use crate::tcp_read::{ReadCall, ReadPoll, TcpStreamRead};
use crate::tcp_stream::TcpStream;
use crate::tcp_write::TcpStreamWrite;

verus! {

/// From a connection that is closed nothing is read.
pub proof fn law_closed_connection_gives_nothing(
    read: &mut TcpStreamRead,
    context: &TcpContext,
    cx: &mut Context<'_>,
    buf: &mut [u8],
    filled: usize,
    capacity: usize,
    r: ReadPoll,
)
    requires
        call_ensures(TcpContext::is_close, (context,), true),
        call_ensures(TcpStreamRead::poll_read, (read, context, cx, buf, filled, capacity), r),
    ensures
        r matches ReadPoll::Failed { error, free } && error.kind == ErrorKind::UnexpectedEof
            && error.message@ == "close"@ && free is None,
        final(buf)@ == old(buf)@,
        final(read).pending() == old(read).pending(),
        final(read).queue() == old(read).queue(),
{
}

/// What was left of a buffer is read before anything else, from where the last read
/// stopped, and to the front of the reader's buffer: as many bytes as there are, or up to
/// where it is filled then; behind them it is as before. A buffer that was read to its end
/// is settled, with its place, its connection and its length; of another one it is kept how
/// far it was read. The queue is not asked. Where the data reaches beyond the part of the
/// reader's buffer that is initialised, nothing happens.
pub proof fn law_leftover_is_read_first(
    read: &mut TcpStreamRead,
    context: &TcpContext,
    cx: &mut Context<'_>,
    buf: &mut [u8],
    filled: usize,
    capacity: usize,
    r: ReadPoll,
    item: ReadItem,
    p: Pbuf,
    at: usize,
)
    requires
        call_ensures(TcpContext::is_close, (context,), false),
        filled <= old(buf)@.len() <= capacity,
        old(read).pending() == Some(item),
        item.buffer() == Some(p),
        item.consumed() < p@.len(),
        call_ensures(Pbuf::addr, (&p,), at),
        call_ensures(TcpStreamRead::poll_read, (read, context, cx, buf, filled, capacity), r),
    ensures
        final(read).queue() == old(read).queue(),
        ({
            let k = item.consumed() as int;
            let left = p@.len() - k;
            let now = if capacity - filled < left {
                capacity as int
            } else {
                filled + left
            };
            let n = if now < left {
                now
            } else {
                left
            };
            if now > old(buf)@.len() {
                &&& r matches ReadPoll::Overrun { free } && free is None
                &&& final(buf)@ == old(buf)@
                &&& final(read).pending() == Some(item)
            } else {
                &&& r matches ReadPoll::Filled { filled: told, recved }
                &&& told == now
                &&& final(buf)@.len() == old(buf)@.len()
                &&& final(buf)@.take(n) == p@.subrange(k, k + n)
                &&& final(buf)@.skip(n) == old(buf)@.skip(n)
                &&& if n == left {
                    &&& final(read).pending() is None
                    &&& recved matches Some(done)
                    &&& done.free == at
                    &&& done.t_pcb == item.pcb()
                    &&& done.len == p@.len()
                } else {
                    &&& recved is None
                    &&& final(read).pending() matches Some(rest)
                    &&& rest.buffer() == Some(p)
                    &&& rest.pcb() == item.pcb()
                    &&& rest.consumed() == k + n
                }
            }
        }),
{
    let k = item.consumed() as int;
    let left = p@.len() - k;
    let now = if capacity - filled < left {
        capacity as int
    } else {
        filled + left
    };
    let n = if now < left {
        now
    } else {
        left
    };
    if left > 0 && now <= old(buf)@.len() {
        assert(final(buf)@.take(n) =~= p@.subrange(k, k + n));
        assert(final(buf)@.skip(n) =~= old(buf)@.skip(n));
    }
}

/// What is kept of a buffer always has bytes to be read.
pub proof fn law_leftover_has_bytes(
    read: &mut TcpStreamRead,
    context: &TcpContext,
    cx: &mut Context<'_>,
    buf: &mut [u8],
    filled: usize,
    capacity: usize,
    r: ReadPoll,
    item: ReadItem,
    p: Pbuf,
)
    requires
        call_ensures(TcpContext::is_close, (context,), false),
        filled <= old(buf)@.len() <= capacity,
        old(read).pending() is None,
        call_ensures(TcpStreamRead::poll_read, (read, context, cx, buf, filled, capacity), r),
        final(read).queue().polls.last() == Next::Item(item),
        item.buffer() == Some(p),
        item.consumed() <= p@.len(),
    ensures
        final(read).pending() matches Some(rest) ==> rest.buffer() == Some(p) && rest.consumed()
            < p@.len(),
{
}

/// Without a leftover the queue is asked once, and is not closed by it. Where there is
/// nothing yet, the task is woken later; the end of the queue, and an item without a
/// buffer, end the reading. Neither touches the reader's buffer.
pub proof fn law_queue_is_asked_next(
    read: &mut TcpStreamRead,
    context: &TcpContext,
    cx: &mut Context<'_>,
    buf: &mut [u8],
    filled: usize,
    capacity: usize,
    r: ReadPoll,
)
    requires
        call_ensures(TcpContext::is_close, (context,), false),
        filled <= old(buf)@.len() <= capacity,
        old(read).pending() is None,
        call_ensures(TcpStreamRead::poll_read, (read, context, cx, buf, filled, capacity), r),
    ensures
        final(read).queue().polls.len() == old(read).queue().polls.len() + 1,
        final(read).queue().polls.drop_last() == old(read).queue().polls,
        final(read).queue().closed == old(read).queue().closed,
        final(read).queue().carried == old(read).queue().carried,
        final(read).queue().total == old(read).queue().total,
        final(read).queue().polls.last() is Pending ==> {
            &&& r is Pending
            &&& final(buf)@ == old(buf)@
            &&& final(read).pending() is None
            &&& final(read).queue().waiting == Some(sync::waker_of(*old(cx)))
        },
        ({
            let answer = final(read).queue().polls.last();
            answer is Ended || (answer matches Next::Item(item) && item.buffer() is None)
        }) ==> {
            &&& r matches ReadPoll::Failed { error, free }
            &&& error.kind == ErrorKind::UnexpectedEof
            &&& error.message@ == "close"@
            &&& free is None
            &&& final(buf)@ == old(buf)@
            &&& final(read).pending() is None
        },
{
    assert(final(read).queue().polls.drop_last() =~= old(read).queue().polls);
}

/// A buffer that comes out of the queue is read as a leftover is, from where it was read
/// before. One without bytes ends the reading, and is freed; so is one whose data reaches
/// beyond the part of the reader's buffer that is initialised.
pub proof fn law_next_buffer_is_read(
    read: &mut TcpStreamRead,
    context: &TcpContext,
    cx: &mut Context<'_>,
    buf: &mut [u8],
    filled: usize,
    capacity: usize,
    r: ReadPoll,
    item: ReadItem,
    p: Pbuf,
    at: usize,
)
    requires
        call_ensures(TcpContext::is_close, (context,), false),
        filled <= old(buf)@.len() <= capacity,
        old(read).pending() is None,
        call_ensures(TcpStreamRead::poll_read, (read, context, cx, buf, filled, capacity), r),
        final(read).queue().polls.last() == Next::Item(item),
        item.buffer() == Some(p),
        item.consumed() <= p@.len(),
        call_ensures(Pbuf::addr, (&p,), at),
    ensures
        ({
            let k = item.consumed() as int;
            let left = p@.len() - k;
            let now = if capacity - filled < left {
                capacity as int
            } else {
                filled + left
            };
            let n = if now < left {
                now
            } else {
                left
            };
            if left == 0 {
                &&& r matches ReadPoll::Failed { error, free }
                &&& error.kind == ErrorKind::UnexpectedEof
                &&& error.message@ == "close"@
                &&& free == Some(at)
                &&& final(buf)@ == old(buf)@
                &&& final(read).pending() is None
            } else if now > old(buf)@.len() {
                &&& r matches ReadPoll::Overrun { free } && free == Some(at)
                &&& final(buf)@ == old(buf)@
                &&& final(read).pending() is None
            } else {
                &&& r matches ReadPoll::Filled { filled: told, recved }
                &&& told == now
                &&& final(buf)@.len() == old(buf)@.len()
                &&& final(buf)@.take(n) == p@.subrange(k, k + n)
                &&& final(buf)@.skip(n) == old(buf)@.skip(n)
                &&& if n == left {
                    &&& final(read).pending() is None
                    &&& recved matches Some(done)
                    &&& done.free == at
                    &&& done.t_pcb == item.pcb()
                    &&& done.len == p@.len()
                } else {
                    &&& recved is None
                    &&& final(read).pending() matches Some(rest)
                    &&& rest.buffer() == Some(p)
                    &&& rest.pcb() == item.pcb()
                    &&& rest.consumed() == k + n
                }
            }
        }),
{
    let k = item.consumed() as int;
    let left = p@.len() - k;
    let now = if capacity - filled < left {
        capacity as int
    } else {
        filled + left
    };
    let n = if now < left {
        now
    } else {
        left
    };
    if left > 0 && now <= old(buf)@.len() {
        assert(final(buf)@.take(n) =~= p@.subrange(k, k + n));
        assert(final(buf)@.skip(n) =~= old(buf)@.skip(n));
    }
}

/// A reader can always be polled: when it is new, and after every poll.
pub proof fn law_reader_can_be_polled_again(
    pcb: usize,
    remote: SocketAddr,
    local: SocketAddr,
    stream: TcpStream,
    context: TcpContext,
    write: TcpStreamWrite,
    fresh: &mut TcpStreamRead,
    read: &mut TcpStreamRead,
    some_context: &TcpContext,
    cx: &mut Context<'_>,
    buf: &mut [u8],
    filled: usize,
    capacity: usize,
    r: ReadPoll,
    again: &mut TcpStreamRead,
    next_cx: &mut Context<'_>,
    next_buf: &mut [u8],
    next_filled: usize,
    next_capacity: usize,
)
    requires
        call_ensures(TcpStream::new, (pcb, remote, local), (stream, context)),
        call_ensures(TcpStream::into_split, (stream,), (write, *old(fresh))),
        call_ensures(TcpStreamRead::poll_read, (read, some_context, cx, buf, filled, capacity), r),
        *old(again) == *final(read),
        next_filled <= old(next_buf)@.len() <= next_capacity,
    ensures
        call_requires(
            TcpStreamRead::poll_read,
            (fresh, some_context, next_cx, next_buf, next_filled, next_capacity),
        ),
        call_requires(
            TcpStreamRead::poll_read,
            (again, some_context, next_cx, next_buf, next_filled, next_capacity),
        ),
{
}

proof fn lemma_payloads(items: Seq<ReadItem>)
    requires
        forall|i: int| 0 <= i < items.len() ==> (#[trigger] items[i]).consumed() == 0,
    ensures
        tcp_read::bytes(items) == items.map_values(
            |item: ReadItem|
                match item.buffer() {
                    Some(p) => p@,
                    None => Seq::<u8>::empty(),
                },
        ).flatten(),
    decreases items.len(),
{
    let each = |item: ReadItem|
        match item.buffer() {
            Some(p) => p@,
            None => Seq::<u8>::empty(),
        };
    if items.len() > 0 {
        let earlier = items.drop_last();
        assert forall|i: int| 0 <= i < earlier.len() implies (#[trigger] earlier[i]).consumed()
            == 0 by {
            assert(earlier[i] == items[i]);
        }
        lemma_payloads(earlier);
        assert(items[items.len() - 1].consumed() == 0);
        assert(items.last().unread() =~= each(items.last()));
        assert(items.map_values(each) =~= earlier.map_values(each).push(each(items.last())));
        earlier.map_values(each).lemma_flatten_push(each(items.last()));
    } else {
        assert(items.map_values(each) =~= Seq::<Seq<u8>>::empty());
    }
}

proof fn lemma_received(calls: Seq<ReadCall>)
    ensures
        tcp_read::got_all(calls) == calls.map_values(
            |call: ReadCall|
                match call.r {
                    ReadPoll::Filled { filled, .. } => call.new_buf.take(filled as int),
                    _ => Seq::<u8>::empty(),
                },
        ).flatten(),
    decreases calls.len(),
{
    let each = |call: ReadCall|
        match call.r {
            ReadPoll::Filled { filled, .. } => call.new_buf.take(filled as int),
            _ => Seq::<u8>::empty(),
        };
    if calls.len() > 0 {
        let earlier = calls.drop_last();
        lemma_received(earlier);
        assert(calls.map_values(each) =~= earlier.map_values(each).push(each(calls.last())));
        earlier.map_values(each).lemma_flatten_push(each(calls.last()));
    } else {
        assert(calls.map_values(each) =~= Seq::<Seq<u8>>::empty());
    }
}

/// What the polls of a connection give, one after the other, is the beginning of the
/// payloads that lwIP received for it, one after the other: no byte is lost, repeated,
/// changed or out of order, whatever the sizes of the buffers. It is all of them once the
/// reader is told that there is nothing yet, unless its task had to make way, or that
/// nothing will come.
///
/// `args` is what the callbacks work on at the time of the last poll.
pub proof fn law_reads_are_the_payloads(
    pcb: usize,
    remote: SocketAddr,
    local: SocketAddr,
    stream: TcpStream,
    context: TcpContext,
    write: TcpStreamWrite,
    read: TcpStreamRead,
    args: TcpArgs,
    calls: Seq<ReadCall>,
)
    requires
        call_ensures(TcpStream::new, (pcb, remote, local), (stream, context)),
        call_ensures(TcpStream::into_split, (stream,), (write, read)),
        calls.len() > 0,
        calls[0].before == read,
        forall|i: int| 0 <= i < calls.len() ==> (#[trigger] calls[i]).valid(),
        forall|i: int|
            0 < i < calls.len() ==> (#[trigger] calls[i]).before == calls[i - 1].after,
        args.queue().valid(),
        args.queue().joins(calls.last().after.queue()),
        calls.last().after.queue().sent <= sync::accepted(args.queue().offers).len(),
        forall|i: int|
            0 <= i < sync::accepted(args.queue().offers).len() ==> (#[trigger] sync::accepted(
                args.queue().offers,
            )[i]).consumed() == 0,
    ensures
        ({
            let call = calls.last();
            let sent = sync::accepted(args.queue().offers);
            let received = sent.map_values(
                |item: ReadItem|
                    match item.buffer() {
                        Some(p) => p@,
                        None => Seq::<u8>::empty(),
                    },
            ).flatten();
            let got = calls.map_values(
                |call: ReadCall|
                    match call.r {
                        ReadPoll::Filled { filled, .. } => call.new_buf.take(filled as int),
                        _ => Seq::<u8>::empty(),
                    },
            ).flatten();
            &&& got.is_prefix_of(received)
            &&& call.r is Pending && !call.after.queue().spurious && call.after.queue().sent
                == sent.len() ==> got == received
            &&& call.after.queue().ended() && call.after.pending() is None ==> got == received
        }),
{
    tcp_read::law_reads_what_was_received(args, calls);
    lemma_payloads(sync::accepted(args.queue().offers));
    lemma_received(calls);
}

proof fn lemma_places(polls: Seq<Next<ReadItem>>)
    ensures
        tcp_read::buffers(polls) == polls.filter_map(
            |answer: Next<ReadItem>|
                match answer {
                    Next::Item(item) => match item.buffer() {
                        Some(p) => Some(p.at()),
                        None => None,
                    },
                    _ => None,
                },
        ),
    decreases polls.len(),
{
    if polls.len() > 0 {
        lemma_places(polls.drop_last());
    }
    assert(tcp_read::buffers(polls) =~= polls.filter_map(
        |answer: Next<ReadItem>|
            match answer {
                Next::Item(item) => match item.buffer() {
                    Some(p) => Some(p.at()),
                    None => None,
                },
                _ => None,
            },
    ));
}

/// With the reading half go all buffers that it has: those in the queue, each once and in
/// order, and the one that was read in part. The queue is closed and empty then.
pub proof fn law_reader_gives_all_buffers_up(
    read: &mut TcpStreamRead,
    free: Vec<usize>,
)
    requires
        call_ensures(TcpStreamRead::discard, (read,), free),
    ensures
        ({
            let n = old(read).queue().polls.len() as int;
            let after = final(read).queue();
            let taken = after.polls.skip(n);
            let waiting = taken.filter_map(
                |answer: Next<ReadItem>|
                    match answer {
                        Next::Item(item) => match item.buffer() {
                            Some(p) => Some(p.at()),
                            None => None,
                        },
                        _ => None,
                    },
            );
            &&& after.closed
            &&& after.carried == old(read).queue().carried
            &&& after.polls.take(n) == old(read).queue().polls
            &&& !(after.polls.last() is Item)
            &&& sync::items(after.polls).len() == after.sent
            &&& final(read).pending() is None
            &&& match old(read).pending() {
                Some(item) => match item.buffer() {
                    Some(p) => free@ == waiting.push(p.at()),
                    None => free@ == waiting,
                },
                None => free@ == waiting,
            }
        }),
        forall|p: Pbuf, at: usize| #[trigger] call_ensures(Pbuf::addr, (&p,), at) ==> at == p.at(),
{
    let n = old(read).queue().polls.len() as int;
    let taken = final(read).queue().polls.skip(n);
    lemma_places(taken);
    assert(final(read).queue().polls.take(n) =~= old(read).queue().polls);
    assert(taken.last() == final(read).queue().polls.last());
    let waiting = tcp_read::buffers(taken);
    if let Some(item) = old(read).pending() {
        if let Some(p) = item.buffer() {
            assert(free@ =~= waiting.push(p.at()));
        } else {
            assert(free@ =~= waiting);
        }
    } else {
        assert(free@ =~= waiting);
    }
}

} // verus!

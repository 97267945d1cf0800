//! Reading from a TCP connection.
use std::task::Context;
use tokio::sync::mpsc;
use vstd::prelude::*;

use crate::error::{Error, ErrorKind};
use crate::read_item;
use crate::read_item::{ReadItem, Recved};
use crate::sync;
use crate::sync::{Next, ReceiverView};
use crate::tcp_args::{TcpArgs, TcpContext, ESTABLISHED};

verus! {

/// The half of a connection that reads.
pub struct TcpStreamRead {
    receiver: mpsc::Receiver<ReadItem>,
    last: Option<ReadItem>,
}

/// What a reader gets when it polls.
pub enum ReadPoll {
    /// The reader's buffer is now filled up to `filled`.
    Filled { filled: usize, recved: Option<Recved> },
    /// There is nothing more to be read.
    Failed { error: Error, free: Option<usize> },
    /// Nothing yet.
    Pending,
    /// The reader's buffer has room that is not initialised, and the data reaches
    /// into it.
    Overrun { free: Option<usize> },
}

/// How far a reader's buffer is filled once it has taken up to `left` bytes more.
pub open spec fn advanced(filled: int, capacity: int, left: int) -> int {
    filled + read_item::min(capacity - filled, left)
}

/// How many of `left` bytes leave an item for a reader's buffer: everything up to
/// where the buffer is filled is written, from its front on.
pub open spec fn moved(filled: int, capacity: int, left: int) -> int {
    read_item::min(advanced(filled, capacity, left), left)
}

/// The bytes that came through a queue.
pub open spec fn stream(polls: Seq<Next<ReadItem>>) -> Seq<u8>
    decreases polls.len(),
{
    if polls.len() == 0 {
        Seq::empty()
    } else {
        let before = stream(polls.drop_last());
        match polls.last() {
            Next::Item(item) => before + item.unread(),
            _ => before,
        }
    }
}

/// Whether `recved` is what is owed to lwIP for `item`.
pub open spec fn owed(recved: Recved, item: ReadItem) -> bool {
    &&& Some(recved.free) == item.held()
    &&& recved.t_pcb == item.pcb()
    &&& recved.len == item.buffer()->0@.len()
}

/// The error of a connection that is closed.
pub open spec fn is_eof(error: Error) -> bool {
    error.says(ErrorKind::UnexpectedEof, "close"@)
}

/// What a poll does with `item`, which has something to be read: the bytes go to
/// the front of the buffer, and what does not fit waits for the next poll.
pub open spec fn item_read(
    item: ReadItem,
    filled: int,
    capacity: int,
    before: Seq<u8>,
    after: Seq<u8>,
    last: Option<ReadItem>,
    r: ReadPoll,
) -> bool {
    let left = item.unread().len() as int;
    let n = moved(filled, capacity, left);
    &&& after == item.unread().take(n) + before.skip(n)
    &&& r matches ReadPoll::Filled { filled: now, recved }
    &&& now == advanced(filled, capacity, left)
    &&& if n == left {
        &&& last is None
        &&& recved matches Some(done)
        &&& owed(done, item)
    } else {
        &&& last matches Some(rest)
        &&& read_item::rest_of(item, n, rest)
        &&& recved is None
    }
}

/// An error of a connection that is closed.
pub(crate) fn eof() -> (r: Error)
    ensures
        is_eof(r),
{
    Error::new(ErrorKind::UnexpectedEof, "close")
}

/// Moves bytes of `item` to a reader's buffer that is filled up to `filled`, of
/// which `buf` is the part that is initialised; returns how far it is filled then.
fn fill(item: &mut ReadItem, buf: &mut [u8], filled: usize, capacity: usize) -> (r: usize)
    requires
        old(item).buffer() is Some,
        filled <= old(buf)@.len() <= capacity,
        advanced(filled as int, capacity as int, old(item).unread().len() as int)
            <= old(buf)@.len(),
    ensures
        r == advanced(filled as int, capacity as int, old(item).unread().len() as int),
        ({
            let n = moved(filled as int, capacity as int, old(item).unread().len() as int);
            &&& final(buf)@ == old(item).unread().take(n) + old(buf)@.skip(n)
            &&& read_item::rest_of(*old(item), n, *final(item))
        }),
{
    let left: usize = item.len();
    let room: usize = capacity - filled;
    let now: usize = filled + (if room < left { room } else { left });
    let (front, _) = buf.split_at_mut(now);
    let _ = item.read(front);
    now
}

impl TcpStreamRead {
    /// What is known of the queue.
    pub closed spec fn queue(self) -> ReceiverView<ReadItem> {
        sync::read_receiver(self.receiver)
    }

    /// The answers that the queue gave.
    pub open spec fn polls(self) -> Seq<Next<ReadItem>> {
        self.queue().polls
    }

    /// The item that was read in part.
    pub closed spec fn pending(self) -> Option<ReadItem> {
        self.last
    }

    /// The bytes that were taken from the queue and not read yet.
    pub open spec fn unread(self) -> Seq<u8> {
        match self.pending() {
            Some(item) => item.unread(),
            None => Seq::empty(),
        }
    }

    /// What is kept for the next poll has bytes to be read, and they are the last
    /// that came through the queue.
    pub open spec fn wf(self) -> bool {
        let all = stream(self.polls());
        let left = self.unread();
        &&& self.queue().valid()
        &&& self.pending() is Some ==> left.len() > 0
        &&& left.len() <= all.len()
        &&& all.skip(all.len() - left.len()) == left
    }

    /// The bytes that went to the reader, if none were dropped on the way.
    pub open spec fn delivered(self) -> Seq<u8> {
        stream(self.polls()).take(stream(self.polls()).len() - self.unread().len())
    }

    /// A reader of a queue from which nothing was taken.
    pub(crate) fn over(receiver: mpsc::Receiver<ReadItem>) -> (r: TcpStreamRead)
        requires
            sync::read_receiver(receiver).is_new(),
        ensures
            r.wf(),
            r.queue() == sync::read_receiver(receiver),
            r.pending() is None,
    {
        let r = TcpStreamRead { receiver, last: None };
        proof {
            let all = stream(r.polls());
            assert(all.skip(all.len() as int) =~= Seq::<u8>::empty());
        }
        r
    }

    /// What a poll comes to.
    pub open spec fn poll_reads(
        self,
        before: TcpStreamRead,
        state: usize,
        filled: int,
        capacity: int,
        old_buf: Seq<u8>,
        new_buf: Seq<u8>,
        r: ReadPoll,
    ) -> bool {
        let answer = self.polls().last();
        if state != ESTABLISHED {
            &&& self == before
            &&& new_buf == old_buf
            &&& r matches ReadPoll::Failed { error, free }
            &&& is_eof(error)
            &&& free is None
        } else if before.pending() is Some {
            let item = before.pending()->0;
            &&& self.queue() == before.queue()
            &&& if advanced(filled, capacity, item.unread().len() as int) > old_buf.len() {
                &&& self.pending() == before.pending()
                &&& new_buf == old_buf
                &&& r == (ReadPoll::Overrun { free: None })
            } else {
                item_read(item, filled, capacity, old_buf, new_buf, self.pending(), r)
            }
        } else {
            &&& self.queue().answered(before.queue(), answer)
            &&& match answer {
                Next::Pending => {
                    &&& self.pending() is None
                    &&& new_buf == old_buf
                    &&& r == ReadPoll::Pending
                },
                Next::Ended => {
                    &&& self.pending() is None
                    &&& new_buf == old_buf
                    &&& r matches ReadPoll::Failed { error, free }
                    &&& is_eof(error)
                    &&& free is None
                },
                Next::Item(item) => {
                    if item.unread().len() == 0 {
                        &&& self.pending() is None
                        &&& new_buf == old_buf
                        &&& r matches ReadPoll::Failed { error, free }
                        &&& is_eof(error)
                        &&& free == item.held()
                    } else if advanced(filled, capacity, item.unread().len() as int)
                        > old_buf.len() {
                        &&& self.pending() is None
                        &&& new_buf == old_buf
                        &&& r == (ReadPoll::Overrun { free: item.held() })
                    } else {
                        item_read(item, filled, capacity, old_buf, new_buf, self.pending(), r)
                    }
                },
            }
        }
    }

    /// Reads into a buffer of `capacity` bytes that is filled up to `filled`, and of
    /// which `buf` is the part that is initialised. Where there is nothing yet, the task
    /// of `cx` is woken when it is worth polling again.
    pub fn poll_read(
        &mut self,
        context: &TcpContext,
        cx: &mut Context<'_>,
        buf: &mut [u8],
        filled: usize,
        capacity: usize,
    ) -> (r: ReadPoll)
        requires
            old(self).wf(),
            filled <= old(buf)@.len() <= capacity,
        ensures
            final(self).wf(),
            final(self).poll_reads(
                *old(self),
                context.tcp_args.state(),
                filled as int,
                capacity as int,
                old(buf)@,
                final(buf)@,
                r,
            ),
            r is Pending ==> final(self).queue().waiting == Some(sync::waker_of(*old(cx))),
            sync::waker_of(*final(cx)) == sync::waker_of(*old(cx)),
    {
        let r = self.read_step(context, cx, buf, filled, capacity);
        proof {
            law_reads_in_order(
                *old(self),
                *self,
                context.tcp_args.state(),
                filled as int,
                capacity as int,
                old(buf)@,
                buf@,
                r,
            );
        }
        r
    }

    /// One poll.
    fn read_step(
        &mut self,
        context: &TcpContext,
        cx: &mut Context<'_>,
        buf: &mut [u8],
        filled: usize,
        capacity: usize,
    ) -> (r: ReadPoll)
        requires
            old(self).wf(),
            filled <= old(buf)@.len() <= capacity,
        ensures
            final(self).poll_reads(
                *old(self),
                context.tcp_args.state(),
                filled as int,
                capacity as int,
                old(buf)@,
                final(buf)@,
                r,
            ),
            r is Pending ==> final(self).queue().waiting == Some(sync::waker_of(*old(cx))),
            sync::waker_of(*final(cx)) == sync::waker_of(*old(cx)),
    {
        if context.is_close() {
            return ReadPoll::Failed { error: eof(), free: None };
        }
        if let Some(mut item) = self.last.take() {
            if overruns(&item, buf.len(), filled, capacity) {
                self.last = Some(item);
                return ReadPoll::Overrun { free: None };
            }
            let now: usize = fill(&mut item, buf, filled, capacity);
            let recved = self.keep(item);
            return ReadPoll::Filled { filled: now, recved };
        }
        match sync::read_poll(&mut self.receiver, cx) {
            Next::Pending => ReadPoll::Pending,
            Next::Ended => ReadPoll::Failed { error: eof(), free: None },
            Next::Item(mut item) => {
                if item.is_empty() {
                    return ReadPoll::Failed { error: eof(), free: item.discard() };
                }
                if overruns(&item, buf.len(), filled, capacity) {
                    return ReadPoll::Overrun { free: item.discard() };
                }
                let now: usize = fill(&mut item, buf, filled, capacity);
                let recved = self.keep(item);
                ReadPoll::Filled { filled: now, recved }
            },
        }
    }

    /// Keeps what is left of an item for the next poll, or settles what is owed for
    /// it.
    fn keep(&mut self, item: ReadItem) -> (r: Option<Recved>)
        requires
            item.buffer() is Some,
            old(self).pending() is None,
        ensures
            final(self).queue() == old(self).queue(),
            if item.unread().len() == 0 {
                &&& final(self).pending() is None
                &&& r matches Some(done)
                &&& owed(done, item)
            } else {
                &&& final(self).pending() == Some(item)
                &&& r is None
            },
    {
        if item.is_empty() {
            Some(item.recved())
        } else {
            self.last = Some(item);
            None
        }
    }
}

/// The buffers that go with the items among some answers of a queue, in order.
pub open spec fn buffers(polls: Seq<Next<ReadItem>>) -> Seq<usize>
    decreases polls.len(),
{
    if polls.len() == 0 {
        Seq::empty()
    } else {
        let before = buffers(polls.drop_last());
        match polls.last() {
            Next::Item(item) => match item.held() {
                Some(addr) => before.push(addr),
                None => before,
            },
            _ => before,
        }
    }
}

/// The buffer that goes with an item, if there is one.
pub open spec fn held(item: Option<ReadItem>) -> Seq<usize> {
    match item {
        Some(item) => match item.held() {
            Some(addr) => seq![addr],
            None => Seq::empty(),
        },
        None => Seq::empty(),
    }
}

impl TcpStreamRead {
    /// Closes and empties the queue: the buffers to be freed with this half, those of
    /// the queue first.
    pub fn discard(&mut self) -> (free: Vec<usize>)
        ensures
            final(self).wf(),
            final(self).pending() is None,
            final(self).queue().closed,
            ({
                let taken = final(self).polls().skip(old(self).polls().len() as int);
                &&& final(self).polls() == old(self).polls() + taken
                &&& final(self).queue().carried == old(self).queue().carried
                &&& final(self).queue().total == old(self).queue().total
                &&& sync::emptied(taken)
                &&& sync::items(final(self).polls()).len() == final(self).queue().sent
                &&& free@ == buffers(taken) + held(old(self).pending())
            }),
    {
        sync::read_close(&mut self.receiver);
        let ghost before = self.polls();
        let ghost last = self.pending();
        let ghost mut taken: Seq<Next<ReadItem>> = Seq::empty();
        let mut free: Vec<usize> = Vec::new();
        let mut done: bool = false;
        while !done
            invariant
                self.queue().closed,
                self.polls() == before + taken,
                self.queue().carried == old(self).queue().carried,
                self.queue().total == old(self).queue().total,
                taken.len() > 0 ==> self.queue().valid(),
                self.pending() == last,
                free@ == buffers(taken),
                forall|j: int| 0 <= j < taken.len() - 1 ==> taken[j] is Item,
                done ==> taken.len() > 0 && !(taken.last() is Item) && sync::items(
                    self.polls(),
                ).len() == self.queue().sent,
                !done && taken.len() > 0 ==> taken.last() is Item,
            decreases
                    self.queue().total - sync::items(self.polls()).len(),
                    if done {
                        0int
                    } else {
                        1int
                    },
        {
            let ghost earlier = taken;
            let ghost polls = self.polls();
            let next = sync::read_try_recv(&mut self.receiver);
            proof {
                taken = taken.push(next);
                sync::lemma_items_push(polls, next);
                assert(taken.drop_last() =~= earlier);
                assert(before + taken =~= (before + earlier).push(next));
                assert(self.polls()[polls.len() as int] == next);
            }
            match next {
                Next::Item(item) => {
                    if let Some(addr) = item.discard() {
                        free.push(addr);
                    }
                },
                _ => {
                    done = true;
                },
            }
        }
        assert(self.polls().skip(before.len() as int) =~= taken);
        if let Some(item) = self.last.take() {
            if let Some(addr) = item.discard() {
                free.push(addr);
            }
        }
        proof {
            let all = stream(self.polls());
            assert(all.skip(all.len() as int) =~= Seq::<u8>::empty());
        }
        free
    }
}

/// Whether the data of `item` reaches beyond the `initialised` bytes of a buffer.
fn overruns(item: &ReadItem, initialised: usize, filled: usize, capacity: usize) -> (r: bool)
    requires
        filled <= initialised <= capacity,
    ensures
        r == (advanced(filled as int, capacity as int, item.unread().len() as int) > initialised),
{
    let left: usize = item.len();
    let room: usize = capacity - filled;
    let n: usize = if room < left { room } else { left };
    n > initialised - filled
}

/// What a reader gets are the bytes that came through the queue, in order and
/// without a gap: each poll that fills appends to what was delivered the bytes at
/// the front of the buffer, and any other poll that does not overrun the buffer
/// delivers nothing. With a buffer that was not filled before, these are the bytes
/// up to where it is filled now.
pub proof fn law_reads_in_order(
    before: TcpStreamRead,
    after: TcpStreamRead,
    state: usize,
    filled: int,
    capacity: int,
    old_buf: Seq<u8>,
    new_buf: Seq<u8>,
    r: ReadPoll,
)
    requires
        before.wf(),
        0 <= filled <= old_buf.len() <= capacity,
        after.poll_reads(before, state, filled, capacity, old_buf, new_buf, r),
    ensures
        after.wf(),
        ({
            let n = after.delivered().len() - before.delivered().len();
            &&& r is Filled ==> 0 <= n <= r->filled && after.delivered() == before.delivered()
                + new_buf.take(n)
            &&& r is Filled && filled == 0 ==> n == r->filled
            &&& r is Failed || r is Pending ==> after.delivered() == before.delivered()
        }),
{
    let all = stream(before.polls());
    let now = stream(after.polls());
    let left = before.unread();
    assert(now.skip(now.len() as int) =~= Seq::<u8>::empty());
    assert(all.skip(all.len() as int) =~= Seq::<u8>::empty());
    if state == ESTABLISHED {
        if before.pending() is Some {
            let item = before.pending()->0;
            let n = moved(filled, capacity, item.unread().len() as int);
            if r is Filled {
                assert(after.unread() =~= left.skip(n));
                assert(all.skip(all.len() - left.len() + n) =~= left.skip(n));
                assert(after.delivered() =~= before.delivered() + left.take(n));
                assert(new_buf.take(n) =~= left.take(n));
            }
        } else {
            assert(after.polls().drop_last() =~= before.polls());
            if let Next::Item(item) = after.polls().last() {
                let n = moved(filled, capacity, item.unread().len() as int);
                assert(now =~= all + item.unread());
                if r is Filled {
                    assert(after.unread() =~= item.unread().skip(n));
                    assert(now.skip(all.len() + n) =~= item.unread().skip(n));
                    assert(after.delivered() =~= all + item.unread().take(n));
                    assert(before.delivered() =~= all);
                    assert(new_buf.take(n) =~= item.unread().take(n));
                } else {
                    assert(after.unread() =~= Seq::<u8>::empty());
                    if r is Failed {
                        assert(now =~= all);
                        assert(after.delivered() =~= before.delivered());
                    }
                }
            } else {
                assert(now =~= all);
            }
        }
    }
}

/// One poll with a buffer that was not filled before.
pub struct ReadCall {
    pub before: TcpStreamRead,
    pub after: TcpStreamRead,
    pub state: usize,
    pub capacity: int,
    pub old_buf: Seq<u8>,
    pub new_buf: Seq<u8>,
    pub r: ReadPoll,
}

impl ReadCall {
    /// The poll went as polls do, and did not overrun the buffer.
    pub open spec fn valid(self) -> bool {
        &&& self.old_buf.len() <= self.capacity
        &&& self.after.poll_reads(
            self.before,
            self.state,
            0,
            self.capacity,
            self.old_buf,
            self.new_buf,
            self.r,
        )
        &&& !(self.r is Overrun)
    }

    /// The bytes that the reader got.
    pub open spec fn got(self) -> Seq<u8> {
        match self.r {
            ReadPoll::Filled { filled, .. } => self.new_buf.take(filled as int),
            _ => Seq::empty(),
        }
    }
}

/// The bytes that the reader got from some polls in a row.
pub open spec fn got_all(polls: Seq<ReadCall>) -> Seq<u8>
    decreases polls.len(),
{
    if polls.len() == 0 {
        Seq::empty()
    } else {
        got_all(polls.drop_last()) + polls.last().got()
    }
}

/// However often a reader polls, what it got together is what was delivered in
/// between; from the start on, that is everything that came through the queue but
/// what still waits to be read.
pub proof fn law_reads_the_stream(polls: Seq<ReadCall>)
    requires
        polls.len() > 0,
        polls[0].before.wf(),
        forall|i: int| 0 <= i < polls.len() ==> (#[trigger] polls[i]).valid(),
        forall|i: int|
            0 < i < polls.len() ==> (#[trigger] polls[i]).before == polls[i - 1].after,
    ensures
        polls.last().after.wf(),
        polls.last().after.delivered() == polls[0].before.delivered() + got_all(polls),
        polls[0].before.polls().len() == 0 ==> got_all(polls) + polls.last().after.unread()
            == stream(polls.last().after.polls()),
    decreases polls.len(),
{
    let call = polls.last();
    let earlier = polls.drop_last();
    if earlier.len() > 0 {
        assert forall|i: int| 0 <= i < earlier.len() implies (#[trigger] earlier[i]).valid() by {
            assert(earlier[i] == polls[i]);
        }
        assert forall|i: int| 0 < i < earlier.len() implies (#[trigger] earlier[i]).before
            == earlier[i - 1].after by {
            assert(earlier[i] == polls[i]);
        }
        law_reads_the_stream(earlier);
        assert(call.before == earlier.last().after);
    } else {
        assert(got_all(earlier) =~= Seq::<u8>::empty());
    }
    assert(polls[polls.len() - 1].valid());
    law_reads_in_order(
        call.before,
        call.after,
        call.state,
        0,
        call.capacity,
        call.old_buf,
        call.new_buf,
        call.r,
    );
    assert(call.after.delivered() =~= call.before.delivered() + call.got());
    assert(polls.last().after.delivered() =~= polls[0].before.delivered() + got_all(polls));
    if polls[0].before.polls().len() == 0 {
        let all = stream(call.after.polls());
        let left = call.after.unread();
        assert(polls[0].before.delivered() =~= Seq::<u8>::empty());
        assert(got_all(polls) =~= call.after.delivered());
        assert(all =~= all.take(all.len() - left.len()) + all.skip(all.len() - left.len()));
    }
}

/// The bytes of some items, one after the other.
pub open spec fn bytes(items: Seq<ReadItem>) -> Seq<u8>
    decreases items.len(),
{
    if items.len() == 0 {
        Seq::empty()
    } else {
        bytes(items.drop_last()) + items.last().unread()
    }
}

/// What came through a queue are the bytes of its items.
proof fn lemma_stream_is_bytes(polls: Seq<Next<ReadItem>>)
    ensures
        stream(polls) == bytes(sync::items(polls)),
    decreases polls.len(),
{
    if polls.len() > 0 {
        lemma_stream_is_bytes(polls.drop_last());
        if let Next::Item(item) = polls.last() {
            let earlier = sync::items(polls.drop_last());
            assert(earlier.push(item).drop_last() =~= earlier);
        }
    }
}

/// The first items hold the first bytes.
proof fn lemma_bytes_of_prefix(some: Seq<ReadItem>, all: Seq<ReadItem>)
    requires
        some.is_prefix_of(all),
    ensures
        bytes(some).is_prefix_of(bytes(all)),
    decreases all.len(),
{
    if some.len() < all.len() {
        assert(some =~= all.drop_last().subrange(0, some.len() as int));
        lemma_bytes_of_prefix(some, all.drop_last());
        assert(bytes(some) =~= bytes(all).subrange(0, bytes(some).len() as int));
    } else {
        assert(some =~= all);
        assert(bytes(some) =~= bytes(all).subrange(0, bytes(some).len() as int));
    }
}

/// What the reader of a connection takes is what was received for it, byte for byte
/// and in order: of the bytes that the callbacks had accepted and those that came to
/// the reader, the fewer are the beginning of the more. Those that came are the fewer,
/// where the callbacks are looked at no earlier than the reader; and all that were
/// accepted have come once the reader was told of the end.
pub proof fn law_received_is_read(args: TcpArgs, read: TcpStreamRead)
    requires
        args.queue().valid(),
        read.queue().valid(),
        args.queue().joins(read.queue()),
    ensures
        ({
            let received = bytes(sync::accepted(args.queue().offers));
            let came = stream(read.polls());
            &&& came.is_prefix_of(received) || received.is_prefix_of(came)
            &&& read.queue().sent <= sync::accepted(args.queue().offers).len()
                ==> came.is_prefix_of(received)
            &&& read.queue().ended() ==> received.is_prefix_of(came)
        }),
{
    sync::law_channel_keeps_order(args.queue(), read.queue());
    lemma_stream_is_bytes(read.polls());
    let sent = sync::accepted(args.queue().offers);
    let got = sync::items(read.polls());
    if got.is_prefix_of(sent) {
        lemma_bytes_of_prefix(got, sent);
    }
    if sent.is_prefix_of(got) {
        lemma_bytes_of_prefix(sent, got);
    }
}

/// However a reader polls from the start on, and whatever is received in between, what
/// it got is the beginning of what was received, byte for byte: nothing is lost,
/// repeated or out of order. It is all of it once the reader is told that there is
/// nothing yet, unless its task had to make way, or that nothing will come.
///
/// `args` is what the callbacks work on at the time of the last poll.
pub proof fn law_reads_what_was_received(args: TcpArgs, polls: Seq<ReadCall>)
    requires
        polls.len() > 0,
        polls[0].before.wf(),
        polls[0].before.polls().len() == 0,
        forall|i: int| 0 <= i < polls.len() ==> (#[trigger] polls[i]).valid(),
        forall|i: int|
            0 < i < polls.len() ==> (#[trigger] polls[i]).before == polls[i - 1].after,
        args.queue().valid(),
        args.queue().joins(polls.last().after.queue()),
        polls.last().after.queue().sent <= sync::accepted(args.queue().offers).len(),
    ensures
        ({
            let call = polls.last();
            let sent = sync::accepted(args.queue().offers);
            let received = bytes(sent);
            &&& got_all(polls).is_prefix_of(received)
            &&& call.r is Pending && !call.after.queue().spurious && call.after.queue().sent
                == sent.len() ==> got_all(polls) == received
            &&& call.after.queue().ended() && call.after.pending() is None ==> got_all(polls)
                == received
        }),
{
    let call = polls.last();
    let read = call.after;
    let sent = sync::accepted(args.queue().offers);
    let received = bytes(sent);
    let came = stream(read.polls());
    law_reads_the_stream(polls);
    law_received_is_read(args, read);
    assert(got_all(polls) =~= came.subrange(0, got_all(polls).len() as int));
    assert(got_all(polls) =~= received.subrange(0, got_all(polls).len() as int));
    if read.pending() is None {
        assert(got_all(polls) =~= came);
        if read.queue().ended() {
            assert(got_all(polls) =~= received);
        }
        if call.r is Pending && !read.queue().spurious && read.queue().sent == sent.len() {
            assert(polls[polls.len() - 1].valid());
            sync::law_channel_keeps_order(args.queue(), read.queue());
            assert(sync::items(read.polls()) =~= sent);
            lemma_stream_is_bytes(read.polls());
            assert(got_all(polls) =~= received);
        }
    }
}

/// What a poll takes from the queue.
pub open spec fn arrived(before: TcpStreamRead, after: TcpStreamRead) -> Option<ReadItem> {
    if after.polls().len() > before.polls().len() {
        match after.polls().last() {
            Next::Item(item) => Some(item),
            _ => None,
        }
    } else {
        None
    }
}

/// The buffer that a poll gives up.
pub open spec fn released(r: ReadPoll) -> Seq<usize> {
    match r {
        ReadPoll::Filled { recved: Some(recved), .. } => seq![recved.free],
        ReadPoll::Failed { free: Some(addr), .. } => seq![addr],
        ReadPoll::Overrun { free: Some(addr) } => seq![addr],
        _ => Seq::empty(),
    }
}

/// No buffer is lost and none is freed twice: what a poll had in hand and what it
/// took from the queue is given up by it or kept for the next one.
pub proof fn law_buffers_are_accounted_for(
    before: TcpStreamRead,
    after: TcpStreamRead,
    state: usize,
    filled: int,
    capacity: int,
    old_buf: Seq<u8>,
    new_buf: Seq<u8>,
    r: ReadPoll,
)
    requires
        before.wf(),
        0 <= filled <= old_buf.len() <= capacity,
        after.poll_reads(before, state, filled, capacity, old_buf, new_buf, r),
    ensures
        held(before.pending()) + held(arrived(before, after)) == released(r) + held(
            after.pending(),
        ),
{
    if let Some(item) = before.pending() {
        assert(item.buffer() is Some);
    }
    assert(held(before.pending()) + held(arrived(before, after)) =~= released(r) + held(
        after.pending(),
    ));
}

/// By how much the receive window grows with a poll.
pub open spec fn window(r: ReadPoll) -> nat {
    match r {
        ReadPoll::Filled { recved: Some(recved), .. } => recved.len as nat,
        _ => 0,
    }
}

/// How much of the receive window an item takes up.
pub open spec fn occupied(item: Option<ReadItem>) -> nat {
    match item {
        Some(item) => match item.buffer() {
            Some(p) => p@.len(),
            None => 0,
        },
        None => 0,
    }
}

/// A poll that fills gives the receive window back what the buffers that were read
/// to their end took up, no more and no less.
pub proof fn law_window_is_given_back(
    before: TcpStreamRead,
    after: TcpStreamRead,
    state: usize,
    filled: int,
    capacity: int,
    old_buf: Seq<u8>,
    new_buf: Seq<u8>,
    r: ReadPoll,
)
    requires
        before.wf(),
        0 <= filled <= old_buf.len() <= capacity,
        after.poll_reads(before, state, filled, capacity, old_buf, new_buf, r),
        r is Filled,
    ensures
        window(r) + occupied(after.pending()) == occupied(before.pending()) + occupied(
            arrived(before, after),
        ),
{
}

/// The item that marks the end of the data ends the reading, and nothing is freed
/// for it.
pub proof fn law_end_of_data(
    before: TcpStreamRead,
    after: TcpStreamRead,
    filled: int,
    capacity: int,
    old_buf: Seq<u8>,
    new_buf: Seq<u8>,
    r: ReadPoll,
)
    requires
        before.pending() is None,
        arrived(before, after) matches Some(item) && item.is_null(),
        after.poll_reads(before, ESTABLISHED, filled, capacity, old_buf, new_buf, r),
    ensures
        r matches ReadPoll::Failed { error, free } && is_eof(error) && free is None,
        new_buf == old_buf,
{
}

/// The end of the data comes after the data. Of a connection that stands, and for which
/// the marker of the end was accepted as item number `m`, behind
/// items that all hold bytes, a poll fails exactly if everything before the marker was
/// read and the poll takes the marker; then all the bytes before it were delivered.
pub proof fn law_end_follows_the_data(
    args: TcpArgs,
    m: int,
    before: TcpStreamRead,
    after: TcpStreamRead,
    filled: int,
    capacity: int,
    old_buf: Seq<u8>,
    new_buf: Seq<u8>,
    r: ReadPoll,
)
    requires
        args.queue().valid(),
        args.queue().joins(before.queue()),
        ({
            let sent = sync::accepted(args.queue().offers);
            &&& 0 <= m < sent.len()
            &&& sent[m].is_null()
            &&& forall|i: int| 0 <= i < m ==> (#[trigger] sent[i]).unread().len() > 0
        }),
        before.wf(),
        sync::items(before.polls()).len() <= m,
        0 <= filled <= old_buf.len() <= capacity,
        after.poll_reads(before, ESTABLISHED, filled, capacity, old_buf, new_buf, r),
    ensures
        r is Failed <==> before.pending() is None && arrived(before, after) is Some
            && sync::items(before.polls()).len() == m,
        r is Failed ==> after.delivered() == bytes(
            sync::accepted(args.queue().offers).take(m),
        ),
        r matches ReadPoll::Failed { error, free } ==> is_eof(error) && free is None,
{
    let sent = sync::accepted(args.queue().offers);
    let n = sync::items(before.polls()).len() as int;
    if before.pending() is None {
        let answer = after.polls().last();
        sync::lemma_items_push(before.polls(), answer);
        assert(after.polls()[after.polls().len() - 1] == answer);
        if let Next::Item(item) = answer {
            assert(sync::items(after.polls())[n] == item);
            assert(item == sent[n]);
            if n == m {
                lemma_stream_is_bytes(after.polls());
                let came = sync::items(after.polls());
                assert(came.drop_last() =~= sent.take(m));
                assert(item.unread() =~= Seq::<u8>::empty());
                assert(stream(after.polls()) =~= bytes(sent.take(m)));
                assert(after.delivered() =~= stream(after.polls()));
            }
        }
    }
}

} // verus!

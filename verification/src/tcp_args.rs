//! What the callbacks of a TCP connection work on, and the callbacks.
use std::task::Waker;
use tokio::sync::mpsc;
use tokio::sync::watch;
use vstd::prelude::*;

use crate::calls;
use crate::calls::PcbCall;
use crate::error::ERR_OK;
use crate::pbuf::Pbuf;
use crate::read_item::ReadItem;
use crate::sync;
use crate::sync::{Answer, Offer, SenderView, WatchView};

verus! {

/// The connection was asked for.
pub const SYN_SENT: usize = 0;

/// The connection stands.
pub const ESTABLISHED: usize = 1;

/// The connection is gone.
pub const CLOSE: usize = 2;

/// How many received buffers wait for the reader at most.
pub const READ_QUEUE: usize = 1024;

/// What the callbacks of a connection work on.
pub struct TcpArgs {
    buf_sender: mpsc::Sender<ReadItem>,
    state_sender: watch::Sender<usize>,
    notify: Option<Waker>,
}

impl TcpArgs {
    /// What is known of the announcements of the connection's state.
    pub closed spec fn watch(self) -> WatchView {
        sync::watch_sender(self.state_sender)
    }

    /// The state of the connection.
    pub open spec fn state(self) -> usize {
        self.watch().value
    }

    /// What is known of the queue to the reader.
    pub closed spec fn queue(self) -> SenderView<ReadItem> {
        sync::read_sender(self.buf_sender)
    }

    /// The writer that waits for room.
    pub closed spec fn waiting(self) -> Option<Waker> {
        self.notify
    }

    /// Since `before`, `state` was announced. Without anybody to hear of it, the
    /// announcement does not take, and the state stays.
    pub open spec fn announces(self, before: TcpArgs, state: usize) -> bool {
        self.watch().sent(before.watch(), state, self.watch().published.last().1)
    }

    /// Since `before`, one item was offered to the reader.
    pub open spec fn offers_one(self, before: TcpArgs) -> bool {
        let (item, answer) = self.queue().offers.last();
        self.queue().offered(before.queue(), item, answer)
    }

    /// Since `before`, the end of the data was offered to the reader.
    pub open spec fn ends_data(self, before: TcpArgs) -> bool {
        &&& self.offers_one(before)
        &&& self.queue().offers.last().0.is_null()
    }

    /// Since `before`, the writer of `waker` waits for room.
    pub open spec fn parks(self, before: TcpArgs, waker: Waker) -> bool {
        &&& self.waiting() == Some(waker)
        &&& self.watch() == before.watch()
        &&& self.queue() == before.queue()
    }

    /// Since `before`, the writer that waited, if one did, became `woken` and waits no
    /// more.
    pub open spec fn wakes(self, before: TcpArgs, woken: Option<Waker>) -> bool {
        &&& woken == before.waiting()
        &&& self.waiting() is None
        &&& self.watch() == before.watch()
        &&& self.queue() == before.queue()
    }

    /// What a connection starts with.
    pub open spec fn fresh(self, state: usize) -> bool {
        &&& self.watch().is_new(state)
        &&& self.idle()
    }

    /// Nothing was offered to the reader yet, and no writer waits.
    pub open spec fn idle(self) -> bool {
        &&& self.queue().is_new(READ_QUEUE as nat)
        &&& self.waiting() is None
    }

    /// What the callbacks of a connection work on that has just been made.
    pub(crate) fn new(
        buf_sender: mpsc::Sender<ReadItem>,
        state_sender: watch::Sender<usize>,
    ) -> (r: TcpArgs)
        ensures
            r.queue() == sync::read_sender(buf_sender),
            r.watch() == sync::watch_sender(state_sender),
            r.waiting() is None,
    {
        TcpArgs { buf_sender, state_sender, notify: None }
    }

    /// Announces a state.
    fn announce(&mut self, state: usize)
        ensures
            final(self).announces(*old(self), state),
            final(self).queue() == old(self).queue(),
            final(self).waiting() == old(self).waiting(),
    {
        let _ = sync::watch_send(&mut self.state_sender, state);
    }

    /// Marks the connection as gone and ends the data.
    pub fn close(&mut self)
        ensures
            final(self).announces(*old(self), CLOSE),
            final(self).ends_data(*old(self)),
            final(self).waiting() == old(self).waiting(),
    {
        self.announce(CLOSE);
        self.close_read();
    }

    /// Ends the data.
    pub fn close_read(&mut self)
        ensures
            final(self).ends_data(*old(self)),
            final(self).watch() == old(self).watch(),
            final(self).waiting() == old(self).waiting(),
    {
        let _ = sync::read_try_send(&mut self.buf_sender, ReadItem::new_null());
    }

    /// Lets a writer wait for room. One that waited before is forgotten.
    pub fn park(&mut self, waker: Waker)
        ensures
            final(self).parks(*old(self), waker),
    {
        self.notify = Some(waker);
    }
}

/// One half of a connection.
#[derive(Clone, Copy, Debug, PartialEq, Eq, Structural)]
pub enum Half {
    Read,
    Write,
}

impl Half {
    /// The other half.
    pub open spec fn other(self) -> Half {
        match self {
            Half::Read => Half::Write,
            Half::Write => Half::Read,
        }
    }
}

/// A control block of lwIP, what its callbacks work on, and which halves of the
/// connection there are.
pub struct TcpContext {
    pub pcb: usize,
    pub tcp_args: TcpArgs,
    /// Whether the reading half is there.
    pub read: bool,
    /// Whether the writing half is there.
    pub write: bool,
}

impl TcpContext {
    /// Whether a half of the connection is there.
    pub open spec fn has(self, half: Half) -> bool {
        match half {
            Half::Read => self.read,
            Half::Write => self.write,
        }
    }

    /// Since `before`, only what the callbacks work on has changed.
    pub open spec fn keeps(self, before: TcpContext) -> bool {
        &&& self.pcb == before.pcb
        &&& self.read == before.read
        &&& self.write == before.write
    }

    /// The context of a connection that has both halves.
    pub(crate) fn of(pcb: usize, tcp_args: TcpArgs) -> (r: TcpContext)
        ensures
            r.pcb == pcb,
            r.tcp_args == tcp_args,
            r.read && r.write,
    {
        TcpContext { pcb, tcp_args, read: true, write: true }
    }

    /// A half of the connection is gone: the calls that are due.
    pub fn leave(&mut self, half: Half) -> (r: Vec<PcbCall>)
        requires
            old(self).has(half),
        ensures
            r@ == calls::leave_calls(half == Half::Read, !old(self).has(half.other())),
            final(self).pcb == old(self).pcb,
            final(self).tcp_args == old(self).tcp_args,
            !final(self).has(half),
            final(self).has(half.other()) == old(self).has(half.other()),
    {
        let (rx, last) = match half {
            Half::Read => {
                self.read = false;
                (true, !self.write)
            },
            Half::Write => {
                self.write = false;
                (false, !self.read)
            },
        };
        let mut r = vec![PcbCall::Shutdown { rx, tx: !rx }];
        if last {
            let mut rest = TcpContext::detach();
            r.append(&mut rest);
        }
        r
    }

    /// Whether the connection is not, or no longer, established.
    pub fn is_close(&self) -> (r: bool)
        ensures
            r == (self.tcp_args.state() != ESTABLISHED),
    {
        sync::watch_value(&self.tcp_args.state_sender) != ESTABLISHED
    }

    /// The calls that are due when the last half of the connection is gone, before
    /// the context is freed.
    pub fn detach() -> (r: Vec<PcbCall>)
        ensures
            r@ == calls::detach_calls(),
    {
        vec![
            PcbCall::Arg(false),
            PcbCall::OnRecv(false),
            PcbCall::OnSent(false),
            PcbCall::OnErr(false),
            PcbCall::OnPoll(false),
        ]
    }
}

/// What becomes of a received buffer.
#[derive(Clone, Copy, Debug, PartialEq, Eq, Structural)]
pub struct RecvReply {
    /// The code that lwIP gets.
    pub code: i8,
    /// The buffer to be freed.
    pub free: Option<usize>,
}

/// lwIP has connected, or failed to.
pub fn tcp_connect_cb(arg: Option<&mut TcpArgs>, err: i8) -> (r: i8)
    ensures
        r == ERR_OK,
        match arg {
            None => true,
            Some(args) => {
                &&& final(args).announces(
                    *args,
                    if err == ERR_OK {
                        ESTABLISHED
                    } else {
                        CLOSE
                    },
                )
                &&& final(args).queue() == (*args).queue()
                &&& final(args).waiting() == (*args).waiting()
            },
        },
{
    match arg {
        None => ERR_OK,
        Some(args) => {
            if err == ERR_OK {
                args.announce(ESTABLISHED);
                return err;
            }
            args.announce(CLOSE);
            ERR_OK
        },
    }
}

/// lwIP has received `p`, or, without a buffer, the end of the data.
///
/// A buffer that the queue has no room for is neither kept nor freed; one that
/// comes when the reader is gone is freed.
pub fn tcp_recv_cb(arg: Option<&mut TcpArgs>, t_pcb: usize, p: Option<Pbuf>, _err: i8) -> (r:
    RecvReply)
    ensures
        r.code == ERR_OK,
        match arg {
            None => r.free is None,
            Some(args) => {
                &&& final(args).watch() == (*args).watch()
                &&& final(args).waiting() == (*args).waiting()
                &&& match p {
                    None => r.free is None && final(args).ends_data(*args),
                    Some(buffer) => {
                        let (item, answer) = final(args).queue().offers.last();
                        &&& final(args).offers_one(*args)
                        &&& item.pcb() == t_pcb
                        &&& item.buffer() == p
                        &&& item.consumed() == 0
                        &&& r.free == (if answer == Answer::Closed {
                            Some(buffer.at())
                        } else {
                            None
                        })
                    },
                }
            },
        },
{
    let Some(args) = arg else {
        return RecvReply { code: ERR_OK, free: None };
    };
    if p.is_none() {
        args.close_read();
        return RecvReply { code: ERR_OK, free: None };
    }
    let offer = sync::read_try_send(&mut args.buf_sender, ReadItem::new(t_pcb, p));
    let free = match offer {
        Offer::Accepted => None,
        Offer::Full(item) => item.back().discard(),
        Offer::Closed(item) => item.discard(),
    };
    RecvReply { code: ERR_OK, free }
}

/// lwIP has room again: the writer that is to be woken.
pub fn tcp_sent_cb(arg: Option<&mut TcpArgs>) -> (r: (i8, Option<Waker>))
    ensures
        r.0 == ERR_OK,
        match arg {
            None => r.1 is None,
            Some(args) => final(args).wakes(*args, r.1),
        },
{
    match arg {
        None => (ERR_OK, None),
        Some(args) => (ERR_OK, args.notify.take()),
    }
}

/// lwIP asks whether something is to be done: the writer that is to be woken.
pub fn tcp_poll_cb(arg: Option<&mut TcpArgs>) -> (r: (i8, Option<Waker>))
    ensures
        r.0 == ERR_OK,
        match arg {
            None => r.1 is None,
            Some(args) => final(args).wakes(*args, r.1),
        },
{
    match arg {
        None => (ERR_OK, None),
        Some(args) => (ERR_OK, args.notify.take()),
    }
}

/// lwIP has given up the connection.
pub fn tcp_err_cb(arg: Option<&mut TcpArgs>)
    ensures
        match arg {
            None => true,
            Some(args) => {
                &&& final(args).announces(*args, CLOSE)
                &&& final(args).ends_data(*args)
                &&& final(args).waiting() == (*args).waiting()
            },
        },
{
    if let Some(args) = arg {
        args.close();
    }
}

/// A writer that waits for room is woken by the next callback that wakes, whatever was
/// received or announced in between, and by no further one.
pub proof fn law_waiting_writer_is_woken_once(
    before: TcpArgs,
    parked: TcpArgs,
    waker: Waker,
    later: TcpArgs,
    after: TcpArgs,
    woken: Option<Waker>,
    last: TcpArgs,
    again: Option<Waker>,
)
    requires
        parked.parks(before, waker),
        later.waiting() == parked.waiting(),
        after.wakes(later, woken),
        last.wakes(after, again),
    ensures
        woken == Some(waker),
        again is None,
{
}

/// The state of an accepted connection, of which nobody hears, stays what it is
/// whatever is announced.
pub proof fn law_unwatched_state_stays(before: TcpArgs, after: TcpArgs, state: usize)
    requires
        before.watch().unwatched,
        after.announces(before, state),
    ensures
        after.state() == before.state(),
        after.watch().unwatched,
{
}

} // verus!

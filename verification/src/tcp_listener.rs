//! Listening for TCP connections.
use std::task::{Context, Waker};
use tokio::sync::mpsc;
use vstd::prelude::*;

use crate::calls;
use crate::calls::{BindCall, PcbCall};
use crate::error::{Error, ErrorKind, ERR_CONN, ERR_OK};
use crate::sync;
use crate::sync::{Answer, Next, Offer, Polled, ReceiverView};
use crate::tcp_stream::TcpStream;

verus! {

/// `TCP_DEFAULT_LISTEN_BACKLOG`: how many connections lwIP lets wait.
pub const TCP_DEFAULT_LISTEN_BACKLOG: u8 = 0xff;

/// How many accepted connections wait for the listener at most.
pub const ACCEPT_QUEUE: usize = 255;

/// An accepted connection and where its context stands.
pub struct Incoming {
    pub stream: TcpStream,
    pub context: usize,
}

/// What is to be done for a connection that lwIP accepted.
#[derive(Clone, Copy, Debug, PartialEq, Eq, Structural)]
pub enum AcceptStep {
    /// lwIP gets this code, and nothing else happens.
    Reply(i8),
    /// A stream is made for the connection, and handed to the listener.
    Open,
}

/// lwIP has accepted `new_pcb`, or failed to; `listening` says whether the listener
/// still exists.
pub fn tcp_accept_cb(listening: bool, new_pcb: usize, err: i8) -> (r: AcceptStep)
    ensures
        r == (if !listening {
            AcceptStep::Reply(ERR_CONN)
        } else if new_pcb == 0 || err != ERR_OK {
            AcceptStep::Reply(ERR_OK)
        } else {
            AcceptStep::Open
        }),
{
    if !listening {
        return AcceptStep::Reply(ERR_CONN);
    }
    if new_pcb == 0 {
        return AcceptStep::Reply(ERR_OK);
    }
    if err != ERR_OK {
        return AcceptStep::Reply(ERR_OK);
    }
    AcceptStep::Open
}

/// Since `before`, an accepted connection was offered to the listener, and `r` is what
/// came of it: the code that lwIP gets, and the connection, if it was not taken.
pub open spec fn hands(
    after: mpsc::Sender<Incoming>,
    before: mpsc::Sender<Incoming>,
    incoming: Incoming,
    r: (i8, Option<Incoming>),
) -> bool {
    let now = sync::stream_sender(after);
    let answer = now.offers.last().1;
    &&& now.offered(sync::stream_sender(before), incoming, answer)
    &&& r == (if answer == Answer::Accepted {
        (ERR_OK, None)
    } else {
        (ERR_CONN, Some(incoming))
    })
}

/// Hands an accepted connection to the listener: the code that lwIP gets, and the
/// connection, if the listener does not take it.
pub fn tcp_accepted(sender: &mut mpsc::Sender<Incoming>, incoming: Incoming) -> (r: (
    i8,
    Option<Incoming>,
))
    ensures
        hands(*final(sender), *old(sender), incoming, r),
{
    match sync::stream_try_send(sender, incoming) {
        Offer::Accepted => (ERR_OK, None),
        Offer::Full(incoming) => (ERR_CONN, Some(incoming)),
        Offer::Closed(incoming) => (ERR_CONN, Some(incoming)),
    }
}

/// A listener.
pub struct TcpListener {
    receiver: mpsc::Receiver<Incoming>,
    pcb: usize,
}

/// `tcp_bind` is to be called for `pcb`.
pub struct TcpBind {
    pub pcb: usize,
    pub bind: BindCall,
}

/// `tcp_listen_with_backlog_and_err` is to be called for `pcb`.
pub struct ListenCall {
    pub pcb: usize,
    pub backlog: u8,
}

impl TcpBind {
    /// `tcp_bind` has answered `err`.
    pub fn bound(self, err: i8) -> (r: Result<ListenCall, Error>)
        ensures
            match r {
                Ok(call) => {
                    &&& err == ERR_OK
                    &&& call.pcb == self.pcb
                    &&& call.backlog == TCP_DEFAULT_LISTEN_BACKLOG
                },
                Err(error) => err != ERR_OK && error.says(
                    ErrorKind::Other,
                    "bind TCP failed: "@ + crate::error::decimal(err as int),
                ),
            },
    {
        if err != ERR_OK {
            return Err(Error::with_code(ErrorKind::Other, "bind TCP failed: ", err));
        }
        Ok(ListenCall { pcb: self.pcb, backlog: TCP_DEFAULT_LISTEN_BACKLOG })
    }
}

impl ListenCall {
    /// lwIP has answered with the listening `pcb`, or with none for a `reason`. What
    /// is handed to the listener goes into the sender.
    pub fn listening(self, pcb: usize, reason: i8) -> (r: Result<
        (TcpListener, mpsc::Sender<Incoming>),
        Error,
    >)
        ensures
            match r {
                Ok((listener, sender)) => {
                    &&& pcb != 0
                    &&& listener.spec_pcb() == pcb
                    &&& listener.queue().is_new()
                    &&& sync::stream_sender(sender).is_new(ACCEPT_QUEUE as nat)
                    &&& sync::stream_sender(sender).joins(listener.queue())
                },
                Err(error) => pcb == 0 && error.says(
                    ErrorKind::Other,
                    "listen TCP failed: "@ + crate::error::decimal(reason as int),
                ),
            },
    {
        if pcb == 0 {
            return Err(Error::with_code(ErrorKind::Other, "listen TCP failed: ", reason));
        }
        let (sender, receiver) = sync::stream_channel(ACCEPT_QUEUE);
        Ok((TcpListener { receiver, pcb }, sender))
    }
}

impl TcpListener {
    /// The control block that listens.
    pub closed spec fn spec_pcb(self) -> usize {
        self.pcb
    }

    /// What is known of the queue of connections.
    pub closed spec fn queue(self) -> ReceiverView<Incoming> {
        sync::stream_receiver(self.receiver)
    }

    /// Starts to listen, for any address and any port: `tcp_new` has answered `pcb`.
    pub fn new(pcb: usize) -> (r: TcpBind)
        ensures
            r.pcb == pcb,
            r.bind.is_any(),
    {
        TcpBind { pcb, bind: BindCall::any() }
    }

    /// The control block that listens.
    pub fn pcb(&self) -> (r: usize)
        ensures
            r == self.spec_pcb(),
    {
        self.pcb
    }

    /// The calls that register the listener.
    pub fn attach() -> (r: Vec<PcbCall>)
        ensures
            r@ == calls::listen_calls(),
    {
        vec![PcbCall::Arg(true), PcbCall::OnAccept(true)]
    }

    /// The calls that are due when the listener is gone.
    pub fn detach() -> (r: Vec<PcbCall>)
        ensures
            r@ == calls::unlisten_calls(),
    {
        vec![PcbCall::Arg(false), PcbCall::OnAccept(false), PcbCall::Close]
    }

    /// The next connection.
    pub fn accept(&mut self, cx: &mut Context<'_>) -> (r: Polled<Incoming>)
        ensures
            final(self).spec_pcb() == old(self).spec_pcb(),
            final(self).queue().receives(
                old(self).queue(),
                sync::waker_of(*old(cx)),
                "close"@,
                r,
            ),
            sync::waker_of(*final(cx)) == sync::waker_of(*old(cx)),
    {
        sync::tell(sync::stream_poll(&mut self.receiver, cx), "close")
    }

    /// Closes and empties the queue: the connections that are lost with the listener.
    pub fn discard(&mut self) -> (lost: Vec<Incoming>)
        ensures
            final(self).spec_pcb() == old(self).spec_pcb(),
            final(self).queue().closed,
            ({
                let taken = final(self).queue().polls.skip(old(self).queue().polls.len() as int);
                &&& final(self).queue().polls == old(self).queue().polls + taken
                &&& final(self).queue().carried == old(self).queue().carried
                &&& final(self).queue().total == old(self).queue().total
                &&& final(self).queue().valid()
                &&& sync::emptied(taken)
                &&& sync::items(final(self).queue().polls).len() == final(self).queue().sent
                &&& lost@ == sync::items(taken)
            }),
    {
        sync::stream_close(&mut self.receiver);
        let ghost before = self.queue().polls;
        let ghost mut taken: Seq<Next<Incoming>> = Seq::empty();
        let mut lost: Vec<Incoming> = Vec::new();
        let mut done: bool = false;
        while !done
            invariant
                self.queue().closed,
                self.queue().polls == before + taken,
                self.queue().carried == old(self).queue().carried,
                self.queue().total == old(self).queue().total,
                taken.len() > 0 ==> self.queue().valid(),
                self.pcb == old(self).pcb,
                lost@ == sync::items(taken),
                forall|j: int| 0 <= j < taken.len() - 1 ==> taken[j] is Item,
                done ==> taken.len() > 0 && !(taken.last() is Item) && sync::items(
                    self.queue().polls,
                ).len() == self.queue().sent,
                !done && taken.len() > 0 ==> taken.last() is Item,
            decreases
                    self.queue().total - sync::items(self.queue().polls).len(),
                    if done {
                        0int
                    } else {
                        1int
                    },
        {
            let ghost earlier = taken;
            let ghost polls = self.queue().polls;
            let next = sync::stream_try_recv(&mut self.receiver);
            proof {
                taken = taken.push(next);
                sync::lemma_items_push(earlier, next);
                sync::lemma_items_push(polls, next);
                assert(before + taken =~= (before + earlier).push(next));
                assert(self.queue().polls[polls.len() as int] == next);
            }
            match next {
                Next::Item(incoming) => {
                    lost.push(incoming);
                },
                _ => {
                    done = true;
                },
            }
        }
        assert(self.queue().polls.skip(before.len() as int) =~= taken);
        lost
    }
}

/// Connections are accepted in the order in which they came.
pub proof fn law_connections_are_accepted_in_order(
    listener: TcpListener,
    sender: mpsc::Sender<Incoming>,
)
    requires
        sync::stream_sender(sender).valid(),
        listener.queue().valid(),
        sync::stream_sender(sender).joins(listener.queue()),
    ensures
        sync::keeps_order(sync::stream_sender(sender), listener.queue()),
{
    sync::law_channel_keeps_order(sync::stream_sender(sender), listener.queue());
}

/// Each call of `accept` gives the first connection that was handed to the listener and
/// not given out yet. While the sender of the listener is left, and until the listener
/// closes its queue, it does not fail.
pub proof fn law_accept_gives_the_next_connection(
    sender: mpsc::Sender<Incoming>,
    before: TcpListener,
    after: TcpListener,
    waker: Waker,
    r: Polled<Incoming>,
)
    requires
        sync::stream_sender(sender).valid(),
        sync::stream_sender(sender).joins(before.queue()),
        after.queue().receives(before.queue(), waker, "close"@, r),
    ensures
        sync::next_in_line(sync::stream_sender(sender), before.queue(), after.queue(), r),
{
    sync::law_next_in_line(
        sync::stream_sender(sender),
        before.queue(),
        after.queue(),
        waker,
        "close"@,
        r,
    );
}

/// One connection that is handed to a listener.
pub struct HandCall {
    pub before: mpsc::Sender<Incoming>,
    pub after: mpsc::Sender<Incoming>,
    pub incoming: Incoming,
    pub r: (i8, Option<Incoming>),
}

/// A listener from which nothing is accepted, and which is there, takes the first 255
/// connections that are handed to it, in order, and rejects every further one.
pub proof fn law_listener_takes_what_its_queue_holds(calls: Seq<HandCall>)
    requires
        calls.len() > 0,
        sync::stream_sender(calls[0].before).is_new(ACCEPT_QUEUE as nat),
        forall|i: int|
            0 <= i < calls.len() ==> hands(
                (#[trigger] calls[i]).after,
                calls[i].before,
                calls[i].incoming,
                calls[i].r,
            ) && sync::stream_sender(calls[i].after).offers.last().1 != Answer::Closed,
        forall|i: int|
            0 < i < calls.len() ==> (#[trigger] calls[i]).before == calls[i - 1].after,
        sync::stream_sender(calls.last().after).taken == 0,
    ensures
        forall|i: int|
            0 <= i < calls.len() ==> (#[trigger] calls[i]).r == (if i < 255 {
                (ERR_OK, None::<Incoming>)
            } else {
                (ERR_CONN, Some(calls[i].incoming))
            }),
        ({
            let queue = sync::accepted(sync::stream_sender(calls.last().after).offers);
            &&& queue.len() == (if calls.len() <= 255 {
                calls.len()
            } else {
                255
            })
            &&& forall|i: int| 0 <= i < queue.len() ==> #[trigger] queue[i] == calls[i].incoming
        }),
{
    let views = Seq::new(
        calls.len() + 1,
        |i: int|
            if i == 0 {
                sync::stream_sender(calls[0].before)
            } else {
                sync::stream_sender(calls[i - 1].after)
            },
    );
    assert forall|i: int| 0 < i < views.len() implies (#[trigger] views[i]).offered(
        views[i - 1],
        views[i].offers.last().0,
        views[i].offers.last().1,
    ) && views[i].offers.last().1 != Answer::Closed by {
        let call = calls[i - 1];
        assert(hands(call.after, call.before, call.incoming, call.r));
    }
    sync::law_channel_takes_its_capacity(views, ACCEPT_QUEUE as nat);
    assert forall|i: int| 0 <= i < calls.len() implies (#[trigger] calls[i]).r == (if i < 255 {
        (ERR_OK, None::<Incoming>)
    } else {
        (ERR_CONN, Some(calls[i].incoming))
    }) by {
        assert(views[i + 1].offers.last().1 == (if i + 1 <= 255 {
            Answer::Accepted
        } else {
            Answer::Full
        }));
    }
    let queue = sync::accepted(sync::stream_sender(calls.last().after).offers);
    assert forall|i: int| 0 <= i < queue.len() implies #[trigger] queue[i]
        == calls[i].incoming by {
        assert(queue[i] == views[i + 1].offers.last().0);
        assert(calls[i].after == calls[i].after);
        assert(hands(calls[i].after, calls[i].before, calls[i].incoming, calls[i].r));
    }
}

} // verus!

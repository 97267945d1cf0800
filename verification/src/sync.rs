//! The channels of `tokio` through which callbacks, readers and writers meet.
//!
//! A handle of a channel is opaque here. What is known of one is what went
//! through it: the offers made to a [`mpsc::Sender`] with the channel's answers,
//! the answers that an [`mpsc::Receiver`] gave when it was polled, the values that
//! were given to a [`watch::Sender`], and those that a [`watch::Receiver`] saw. The
//! two ends of a channel speak of the same items: [`SenderView::carried`] and
//! [`ReceiverView::carried`] number the items that the channel takes over its whole
//! life, in order, and so does [`WatchView::held`] with the values of a watch channel.
//!
//! The ends are used by different tasks. Each view therefore notes how far the other
//! end had come when this end was last answered.
use std::task::{Context, Poll, Waker};
use tokio::sync::mpsc;
use tokio::sync::mpsc::error::{TryRecvError, TrySendError};
use tokio::sync::watch;
use vstd::prelude::*;

use crate::error::{Error, ErrorKind};
use crate::read_item::ReadItem;
use crate::stack::Packet;
use crate::tcp_listener::Incoming;
use crate::udp::Datagram;

verus! {

/// Declares `tokio::sync::mpsc::Sender`; what is inside stays unknown.
#[verifier::external_type_specification]
#[verifier::external_body]
#[verifier::reject_recursive_types(T)]
pub struct ExMpscSender<T>(mpsc::Sender<T>);

/// Declares `tokio::sync::mpsc::Receiver`; what is inside stays unknown.
#[verifier::external_type_specification]
#[verifier::external_body]
#[verifier::reject_recursive_types(T)]
pub struct ExMpscReceiver<T>(mpsc::Receiver<T>);

/// Declares `tokio::sync::watch::Sender`; what is inside stays unknown.
#[verifier::external_type_specification]
#[verifier::external_body]
#[verifier::reject_recursive_types(T)]
pub struct ExWatchSender<T>(watch::Sender<T>);

/// Declares `tokio::sync::watch::Receiver`; what is inside stays unknown.
#[verifier::external_type_specification]
#[verifier::external_body]
#[verifier::reject_recursive_types(T)]
pub struct ExWatchReceiver<T>(watch::Receiver<T>);

/// Declares `std::task::Waker`; what is inside stays unknown.
#[verifier::external_type_specification]
#[verifier::external_body]
pub struct ExWaker(Waker);

/// Declares `std::task::Context`; what is inside stays unknown.
#[verifier::external_type_specification]
#[verifier::external_body]
pub struct ExContext<'a>(Context<'a>);

/// How a bounded channel answers an item that is offered to it without waiting.
/// An item that is not accepted comes back.
pub enum Offer<T> {
    Accepted,
    Full(T),
    Closed(T),
}

/// An [`Offer`] without the item.
#[derive(Clone, Copy, Debug, PartialEq, Eq, Structural)]
pub enum Answer {
    Accepted,
    Full,
    Closed,
}

impl<T> Offer<T> {
    pub open spec fn answer(self) -> Answer {
        match self {
            Offer::Accepted => Answer::Accepted,
            Offer::Full(_) => Answer::Full,
            Offer::Closed(_) => Answer::Closed,
        }
    }

    /// Whether this is an answer to the offer of `item`: the item is either
    /// accepted or given back.
    pub open spec fn answers(self, item: T) -> bool {
        match self {
            Offer::Accepted => true,
            Offer::Full(back) => back == item,
            Offer::Closed(back) => back == item,
        }
    }
}

/// How a channel answers a reader that polls it.
pub enum Next<T> {
    /// The next item.
    Item(T),
    /// Nothing is left and nothing will come.
    Ended,
    /// Nothing yet.
    Pending,
}

/// How a caller is answered that waits for something.
pub enum Polled<T> {
    /// It is there, or it will never be.
    Ready(Result<T, Error>),
    /// Not yet.
    Pending,
}

/// Whether `r` is what a caller is told when the channel that it waits for gives
/// `answer`: the item, or, at the end of the channel, an error with the given text.
pub open spec fn tells<T>(r: Polled<T>, answer: Next<T>, message: Seq<char>) -> bool {
    match answer {
        Next::Item(item) => r == Polled::Ready(Ok::<T, Error>(item)),
        Next::Ended => {
            &&& r matches Polled::Ready(Err(error))
            &&& error.says(ErrorKind::UnexpectedEof, message)
        },
        Next::Pending => r is Pending,
    }
}

/// What a caller is told when the channel that it waits for gives `answer`.
pub fn tell<T>(answer: Next<T>, message: &str) -> (r: Polled<T>)
    ensures
        tells(r, answer, message@),
{
    match answer {
        Next::Item(item) => Polled::Ready(Ok(item)),
        Next::Ended => Polled::Ready(Err(Error::new(ErrorKind::UnexpectedEof, message))),
        Next::Pending => Polled::Pending,
    }
}

/// The items among some answers of a channel, in order.
pub open spec fn items<T>(polls: Seq<Next<T>>) -> Seq<T>
    decreases polls.len(),
{
    if polls.len() == 0 {
        Seq::empty()
    } else {
        match polls.last() {
            Next::Item(item) => items(polls.drop_last()).push(item),
            _ => items(polls.drop_last()),
        }
    }
}

/// Some answers of a channel that is emptied: items, until one answer is none.
pub open spec fn emptied<T>(polls: Seq<Next<T>>) -> bool {
    &&& polls.len() > 0
    &&& forall|i: int| 0 <= i < polls.len() - 1 ==> polls[i] is Item
    &&& !(polls.last() is Item)
}

/// What is known of the sending end of a channel.
pub struct SenderView<T> {
    /// How many items the channel can hold.
    pub capacity: nat,
    /// The items that were offered, with the channel's answers.
    pub offers: Seq<(T, Answer)>,
    /// How many items the reader had taken when the last offer was answered.
    pub taken: nat,
    /// The items that the channel takes over its whole life, numbered in order.
    pub carried: Map<int, T>,
    /// How many they are.
    pub total: nat,
}

/// What is known of the receiving end of a channel.
pub struct ReceiverView<T> {
    /// The answers that the reader got.
    pub polls: Seq<Next<T>>,
    /// How many items had gone into the channel when the last answer was given.
    pub sent: nat,
    /// The reader has closed the channel.
    pub closed: bool,
    /// The last sender had been dropped when the last answer was given.
    pub gone: bool,
    /// The last answer says nothing of the channel: the task that polled had to make
    /// way for others.
    pub spurious: bool,
    /// The task that the last poll in vain left to be woken when it is worth polling
    /// again.
    pub waiting: Option<Waker>,
    /// The items that the channel takes over its whole life, numbered in order.
    pub carried: Map<int, T>,
    /// How many they are.
    pub total: nat,
}

/// The items among some offers that the channel took, in order.
pub open spec fn accepted<T>(offers: Seq<(T, Answer)>) -> Seq<T>
    decreases offers.len(),
{
    if offers.len() == 0 {
        Seq::empty()
    } else if offers.last().1 == Answer::Accepted {
        accepted(offers.drop_last()).push(offers.last().0)
    } else {
        accepted(offers.drop_last())
    }
}

/// The items in `some` are the first of those that a channel takes.
pub open spec fn leads<T>(some: Seq<T>, carried: Map<int, T>) -> bool {
    forall|i: int| 0 <= i < some.len() ==> #[trigger] some[i] == carried[i]
}

impl<T> SenderView<T> {
    /// The sending end of a new channel.
    pub open spec fn is_new(self, capacity: nat) -> bool {
        &&& self.capacity == capacity
        &&& self.offers.len() == 0
        &&& self.taken == 0
    }

    /// What was accepted is what the channel carries.
    pub open spec fn valid(self) -> bool {
        &&& leads(accepted(self.offers), self.carried)
        &&& accepted(self.offers).len() <= self.total
    }

    /// Since `before`, one item was offered. A channel that is not closed takes it
    /// exactly if it holds fewer items than it can.
    pub open spec fn offered(self, before: SenderView<T>, item: T, answer: Answer) -> bool {
        &&& self.capacity == before.capacity
        &&& self.offers == before.offers.push((item, answer))
        &&& self.carried == before.carried
        &&& self.total == before.total
        &&& self.valid()
        &&& before.taken <= self.taken <= accepted(before.offers).len()
        &&& answer == Answer::Accepted ==> accepted(before.offers).len() - self.taken
            < self.capacity
        &&& answer == Answer::Full ==> accepted(before.offers).len() - self.taken
            >= self.capacity
    }

    /// The other end of the channel is `receiver`.
    pub open spec fn joins(self, receiver: ReceiverView<T>) -> bool {
        &&& self.carried == receiver.carried
        &&& self.total == receiver.total
    }
}

impl<T> ReceiverView<T> {
    /// The receiving end of a new channel.
    pub open spec fn is_new(self) -> bool {
        &&& self.polls.len() == 0
        &&& self.sent == 0
        &&& !self.closed
        &&& !self.gone
        &&& self.waiting is None
    }

    /// The reader was told that nothing is left and nothing will come.
    pub open spec fn ended(self) -> bool {
        self.polls.contains(Next::Ended)
    }

    /// The reader has closed the channel, or no sender is left.
    pub open spec fn over(self) -> bool {
        self.closed || self.gone
    }

    /// What was taken is what the channel carries, and had gone in before. Without a
    /// sender, nothing more goes in. The end is told only of a channel that is over and
    /// from which everything was taken.
    pub open spec fn valid(self) -> bool {
        &&& leads(items(self.polls), self.carried)
        &&& items(self.polls).len() <= self.sent <= self.total
        &&& self.gone ==> self.sent == self.total
        &&& self.ended() ==> self.over() && items(self.polls).len() == self.total
    }

    /// Since `before`, the reader got one answer, which does not close the channel. That
    /// there is nothing yet is said only when everything was taken that had gone in and a
    /// sender is left, or when the task had to make way; and what has ended stays so.
    pub open spec fn answered(self, before: ReceiverView<T>, answer: Next<T>) -> bool {
        &&& self.polls == before.polls.push(answer)
        &&& self.carried == before.carried
        &&& self.total == before.total
        &&& self.valid()
        &&& before.sent <= self.sent
        &&& self.closed == before.closed
        &&& before.gone ==> self.gone
        &&& answer is Pending && !self.spurious ==> items(self.polls).len() == self.sent
            && !self.gone
        &&& before.ended() && !self.spurious ==> answer is Ended
    }

    /// Since `before`, the task of `waker` polled and got `answer`; if it is to wait, it
    /// is woken when it is worth polling again.
    pub open spec fn polled(self, before: ReceiverView<T>, answer: Next<T>, waker: Waker) -> bool {
        &&& self.answered(before, answer)
        &&& answer is Pending ==> self.waiting == Some(waker)
    }

    /// Since `before`, the task of `waker` polled and was told `r`; at the end of the
    /// channel that is an error with the given text.
    pub open spec fn receives(
        self,
        before: ReceiverView<T>,
        waker: Waker,
        message: Seq<char>,
        r: Polled<T>,
    ) -> bool {
        &&& self.polled(before, self.polls.last(), waker)
        &&& tells(r, self.polls.last(), message)
    }
}

/// What comes out of a channel is what went into it, in the same order: of the items
/// that were accepted at one end and those that were taken at the other, the shorter
/// list is the beginning of the longer one. It is the list of what was taken, where the
/// sender is looked at no earlier than the reader; and it is the list of what was
/// accepted once the reader was told of the end.
pub open spec fn keeps_order<T>(sender: SenderView<T>, receiver: ReceiverView<T>) -> bool {
    let sent = accepted(sender.offers);
    let got = items(receiver.polls);
    &&& got.is_prefix_of(sent) || sent.is_prefix_of(got)
    &&& receiver.sent <= sent.len() ==> got.is_prefix_of(sent)
    &&& receiver.ended() ==> sent.is_prefix_of(got) && receiver.over()
}

/// Every channel keeps the order of its items.
pub proof fn law_channel_keeps_order<T>(sender: SenderView<T>, receiver: ReceiverView<T>)
    requires
        sender.valid(),
        receiver.valid(),
        sender.joins(receiver),
    ensures
        keeps_order(sender, receiver),
{
    let sent = accepted(sender.offers);
    let got = items(receiver.polls);
    if got.len() <= sent.len() {
        assert(got =~= sent.subrange(0, got.len() as int));
    }
    if sent.len() <= got.len() {
        assert(sent =~= got.subrange(0, sent.len() as int));
    }
}

/// One answer more: the items among the answers.
pub(crate) proof fn lemma_items_push<T>(polls: Seq<Next<T>>, answer: Next<T>)
    ensures
        items(polls.push(answer)) == (match answer {
            Next::Item(item) => items(polls).push(item),
            _ => items(polls),
        }),
{
    assert(polls.push(answer).drop_last() =~= polls);
}

/// What a reader is told next: the first item that it has not got of those that the
/// channel took, and of the end only when there is none. While a sender is left, and the
/// reader has not closed the channel, it is never told of the end; without a sender, it
/// is told of the end once it has got everything, and of nothing else from then on. Only
/// where the task has to make way for others is it told to wait although there is
/// something to be told.
pub open spec fn next_in_line<T>(
    sender: SenderView<T>,
    before: ReceiverView<T>,
    after: ReceiverView<T>,
    r: Polled<T>,
) -> bool {
    let sent = accepted(sender.offers);
    let n = items(before.polls).len() as int;
    &&& match r {
        Polled::Ready(Ok(item)) => n < sent.len() ==> item == sent[n],
        Polled::Ready(Err(_)) => (before.closed || after.gone) && n >= sent.len(),
        Polled::Pending => after.spurious || n == after.sent,
    }
    &&& after.gone && !after.spurious ==> if n < after.total {
        r matches Polled::Ready(Ok(_))
    } else {
        r matches Polled::Ready(Err(_))
    }
    &&& before.ended() && !after.spurious ==> r matches Polled::Ready(Err(_))
}

/// Every reader is told what is next in line.
pub proof fn law_next_in_line<T>(
    sender: SenderView<T>,
    before: ReceiverView<T>,
    after: ReceiverView<T>,
    waker: Waker,
    message: Seq<char>,
    r: Polled<T>,
)
    requires
        sender.valid(),
        sender.joins(before),
        after.receives(before, waker, message, r),
    ensures
        next_in_line(sender, before, after, r),
{
    let answer = after.polls.last();
    lemma_items_push(before.polls, answer);
    let n = items(before.polls).len() as int;
    if let Next::Item(item) = answer {
        assert(items(after.polls)[n] == item);
    }
    if answer is Ended {
        assert(after.polls[after.polls.len() - 1] == Next::<T>::Ended);
    }
}

/// One poll of a reader.
pub struct ReceiveCall<T> {
    pub before: ReceiverView<T>,
    pub after: ReceiverView<T>,
    pub waker: Waker,
    pub r: Polled<T>,
}

/// Some polls of a reader in a row, each of which comes to an answer.
pub open spec fn in_a_row<T>(calls: Seq<ReceiveCall<T>>, message: Seq<char>) -> bool {
    &&& calls.len() > 0
    &&& forall|i: int|
        0 <= i < calls.len() ==> (#[trigger] calls[i]).after.receives(
            calls[i].before,
            calls[i].waker,
            message,
            calls[i].r,
        ) && calls[i].r is Ready
    &&& forall|i: int| 0 < i < calls.len() ==> (#[trigger] calls[i]).before == calls[i - 1].after
}

/// Of the items in `sent`, `n` were given out already: the polls give out the rest, one
/// each and in order, and every further poll fails with the given text.
pub open spec fn gives_the_rest<T>(
    calls: Seq<ReceiveCall<T>>,
    sent: Seq<T>,
    n: int,
    message: Seq<char>,
) -> bool {
    forall|i: int|
        0 <= i < calls.len() ==> if n + i < sent.len() {
            (#[trigger] calls[i]).r == Polled::Ready(Ok::<T, Error>(sent[n + i]))
        } else {
            calls[i].r matches Polled::Ready(Err(error)) && error.says(
                ErrorKind::UnexpectedEof,
                message,
            )
        }
}

/// Once nothing more goes into a channel, its reader gets what is left, in order, and is
/// then told of the end, again and again.
pub proof fn law_rest_comes_before_the_end<T>(
    sender: SenderView<T>,
    calls: Seq<ReceiveCall<T>>,
    message: Seq<char>,
)
    requires
        sender.valid(),
        accepted(sender.offers).len() == sender.total,
        in_a_row(calls, message),
        sender.joins(calls[0].before),
    ensures
        gives_the_rest(
            calls,
            accepted(sender.offers),
            items(calls[0].before.polls).len() as int,
            message,
        ),
        sender.joins(calls.last().after),
        items(calls.last().after.polls).len() == (if items(calls[0].before.polls).len()
            + calls.len() <= sender.total {
            items(calls[0].before.polls).len() + calls.len()
        } else {
            sender.total
        }),
    decreases calls.len(),
{
    let sent = accepted(sender.offers);
    let n = items(calls[0].before.polls).len() as int;
    let k = calls.len() - 1;
    let call = calls[k];
    let earlier = calls.drop_last();
    if earlier.len() > 0 {
        assert forall|i: int| 0 <= i < earlier.len() implies (#[trigger] earlier[i]).after.receives(
            earlier[i].before,
            earlier[i].waker,
            message,
            earlier[i].r,
        ) && earlier[i].r is Ready by {
            assert(earlier[i] == calls[i]);
        }
        assert forall|i: int| 0 < i < earlier.len() implies (#[trigger] earlier[i]).before
            == earlier[i - 1].after by {
            assert(earlier[i] == calls[i]);
        }
        law_rest_comes_before_the_end(sender, earlier, message);
        assert(call.before == earlier.last().after);
    }
    assert(call.after.receives(call.before, call.waker, message, call.r));
    let answer = call.after.polls.last();
    lemma_items_push(call.before.polls, answer);
    assert(call.after.polls[call.after.polls.len() - 1] == answer);
    if let Next::Item(item) = answer {
        assert(items(call.after.polls)[n + k] == item);
        assert(sent[n + k] == item);
    }
    assert forall|i: int| 0 <= i < calls.len() implies if n + i < sent.len() {
        (#[trigger] calls[i]).r == Polled::Ready(Ok::<T, Error>(sent[n + i]))
    } else {
        calls[i].r matches Polled::Ready(Err(error)) && error.says(
            ErrorKind::UnexpectedEof,
            message,
        )
    } by {
        if i < k {
            assert(earlier[i] == calls[i]);
        }
    }
}

/// While nothing is taken from a channel that nobody closes, it takes as many items as
/// it can hold, and refuses every further one. The views are those of the sender before
/// the first offer and after each one.
#[verifier::spinoff_prover]
#[verifier::rlimit(50)]
pub proof fn law_channel_takes_its_capacity<T>(views: Seq<SenderView<T>>, capacity: nat)
    requires
        views.len() > 0,
        views[0].is_new(capacity),
        forall|i: int|
            0 < i < views.len() ==> (#[trigger] views[i]).offered(
                views[i - 1],
                views[i].offers.last().0,
                views[i].offers.last().1,
            ) && views[i].offers.last().1 != Answer::Closed,
        views.last().taken == 0,
    ensures
        forall|i: int|
            0 < i < views.len() ==> (#[trigger] views[i]).offers.last().1 == (if i <= capacity {
                Answer::Accepted
            } else {
                Answer::Full
            }),
        accepted(views.last().offers).len() == (if views.len() - 1 <= capacity {
            views.len() - 1
        } else {
            capacity as int
        }),
        forall|i: int|
            0 <= i < accepted(views.last().offers).len() ==> #[trigger] accepted(
                views.last().offers,
            )[i] == views[i + 1].offers.last().0,
        views.last().capacity == capacity,
    decreases views.len(),
{
    if views.len() > 1 {
        let earlier = views.drop_last();
        let last = views[views.len() - 1];
        assert(last.offered(
            views[views.len() - 2],
            last.offers.last().0,
            last.offers.last().1,
        ));
        assert forall|i: int| 0 < i < earlier.len() implies (#[trigger] earlier[i]).offered(
            earlier[i - 1],
            earlier[i].offers.last().0,
            earlier[i].offers.last().1,
        ) && earlier[i].offers.last().1 != Answer::Closed by {
            assert(earlier[i] == views[i]);
        }
        law_channel_takes_its_capacity(earlier, capacity);
        assert(last.offers.drop_last() =~= earlier.last().offers);
        assert forall|i: int| 0 < i < views.len() implies (#[trigger] views[i]).offers.last().1
            == (if i <= capacity {
            Answer::Accepted
        } else {
            Answer::Full
        }) by {
            if i < earlier.len() {
                assert(earlier[i] == views[i]);
            }
        }
        let queue = accepted(last.offers);
        assert forall|i: int| 0 <= i < queue.len() implies #[trigger] queue[i]
            == views[i + 1].offers.last().0 by {
            let shorter = accepted(earlier.last().offers);
            if i < shorter.len() {
                assert(shorter[i] == earlier[i + 1].offers.last().0);
            }
        }
    }
}

/// The largest capacity that a bounded channel can be made with.
pub open spec fn capacity_limit() -> nat {
    usize::MAX as nat / 8
}

// ---- the state of a connection ----

/// What is known of the sender of a watch channel.
pub struct WatchView {
    /// The value that the channel holds.
    pub value: usize,
    /// The values that were given to the channel after it was made, each with whether
    /// the channel took it.
    pub published: Seq<(usize, bool)>,
    /// How many of them it took.
    pub number: nat,
    /// When it was made, or last given a value, the channel was without a receiver; it
    /// gets none any more.
    pub unwatched: bool,
    /// The values that the channel holds over its whole life, numbered in order.
    pub held: Map<int, usize>,
}

/// What is known of the receiver of a watch channel.
pub struct WatchedView {
    /// The values that were seen.
    pub seen: Seq<usize>,
    /// The number of the value that was seen last.
    pub at: nat,
    /// The values that the channel holds over its whole life, numbered in order.
    pub held: Map<int, usize>,
}

impl WatchView {
    /// The value that the channel holds is the one that it took last.
    pub open spec fn valid(self) -> bool {
        self.held[self.number as int] == self.value
    }

    /// The sender of a new channel that holds `value`.
    pub open spec fn is_new(self, value: usize) -> bool {
        &&& self.value == value
        &&& self.published.len() == 0
        &&& self.number == 0
        &&& self.valid()
    }

    /// Since `before`, `value` was given to the channel, which took it if there was a
    /// receiver.
    pub open spec fn sent(self, before: WatchView, value: usize, took: bool) -> bool {
        &&& self.published == before.published.push((value, took))
        &&& self.held == before.held
        &&& self.valid()
        &&& self.value == (if took {
            value
        } else {
            before.value
        })
        &&& self.number == before.number + (if took {
            1int
        } else {
            0int
        })
        &&& self.unwatched == !took
        &&& before.unwatched ==> self.unwatched
    }
}

impl WatchedView {
    /// The receiver of a new channel.
    pub open spec fn is_new(self) -> bool {
        &&& self.seen.len() == 0
        &&& self.at == 0
    }

    /// Since `before`, the value that the channel held was looked at, which was `value`.
    pub open spec fn looked(self, before: WatchedView, value: usize) -> bool {
        &&& self.seen == before.seen.push(value)
        &&& self.held == before.held
        &&& before.at <= self.at
        &&& self.held[self.at as int] == value
    }
}

/// What is known of the sender of a watch channel.
pub uninterp spec fn watch_sender(sender: watch::Sender<usize>) -> WatchView;

/// What is known of the receiver of a watch channel.
pub uninterp spec fn watch_receiver(receiver: watch::Receiver<usize>) -> WatchedView;

/// Calls `tokio::sync::watch::channel`: both ends of a new channel, which holds `init`.
/// Nothing was given to it yet, nothing was seen yet, and there is a receiver.
#[verifier::external_body]
pub(crate) fn watch_channel(init: usize) -> (r: (watch::Sender<usize>, watch::Receiver<usize>))
    ensures
        watch_sender(r.0).is_new(init),
        !watch_sender(r.0).unwatched,
        watch_receiver(r.1).is_new(),
        watch_receiver(r.1).held == watch_sender(r.0).held,
{
    watch::channel(init)
}

/// Calls `tokio::sync::watch::Sender::new`, which makes a channel and drops its
/// receiver: the channel holds `init`, nothing was given to it yet, and no
/// receiver is left.
#[verifier::external_body]
pub(crate) fn watch_alone(init: usize) -> (r: watch::Sender<usize>)
    ensures
        watch_sender(r).is_new(init),
        watch_sender(r).unwatched,
{
    watch::Sender::new(init)
}

/// Calls `tokio::sync::watch::Sender::send`. Without a receiver the value is
/// refused and the channel keeps what it holds; otherwise the channel holds the
/// value from now on. A channel without receivers stays without: only the sender
/// could make one, and none is made here.
///
/// Whether a channel that was not found without receivers still has one depends on
/// who holds the receiver at that moment, so it is left open.
#[verifier::external_body]
pub(crate) fn watch_send(sender: &mut watch::Sender<usize>, value: usize) -> (r: bool)
    ensures
        watch_sender(*final(sender)).sent(watch_sender(*old(sender)), value, r),
{
    sender.send(value).is_ok()
}

/// Calls `tokio::sync::watch::Sender::borrow` and copies the value that the
/// channel holds. Only the sender changes it, and no copy of a sender is made here.
#[verifier::external_body]
pub(crate) fn watch_value(sender: &watch::Sender<usize>) -> (r: usize)
    ensures
        r == watch_sender(*sender).value,
{
    *sender.borrow()
}

/// Calls `tokio::sync::watch::Receiver::borrow` and copies the value that the
/// channel holds at that moment: one of those that the channel holds over its life, and
/// none before one that was seen already. Which one depends on how far the sender has
/// come, so it is left open.
#[verifier::external_body]
pub(crate) fn watch_seen(receiver: &mut watch::Receiver<usize>) -> (r: usize)
    ensures
        watch_receiver(*final(receiver)).looked(watch_receiver(*old(receiver)), r),
{
    *receiver.borrow()
}

// ---- tasks ----

/// What wakes the task that polls with `cx`.
pub uninterp spec fn waker_of(cx: Context<'_>) -> Waker;

// ---- received TCP data ----

/// What is known of a sender of received TCP data.
pub uninterp spec fn read_sender(sender: mpsc::Sender<ReadItem>) -> SenderView<ReadItem>;

/// What is known of a receiver of received TCP data.
pub uninterp spec fn read_receiver(receiver: mpsc::Receiver<ReadItem>) -> ReceiverView<ReadItem>;

/// Calls `tokio::sync::mpsc::channel`, which panics on a capacity of zero and on
/// one over the limit: both ends of a new channel with that capacity, through which
/// nothing went yet.
#[verifier::external_body]
pub(crate) fn read_channel(
    capacity: usize,
) -> (r: (mpsc::Sender<ReadItem>, mpsc::Receiver<ReadItem>))
    requires
        0 < capacity <= capacity_limit(),
    ensures
        read_sender(r.0).is_new(capacity as nat),
        read_receiver(r.1).is_new(),
        read_sender(r.0).joins(read_receiver(r.1)),
{
    mpsc::channel(capacity)
}

/// Calls `tokio::sync::mpsc::Sender::try_send`: the item is accepted, or it comes
/// back because the channel is full or because its receiver is gone. A channel is full
/// when it holds as many items as it can: those that it accepted but for those that the
/// reader has taken. How many these are, and whether the receiver is gone, depends on
/// the reader, so it is left open. Items are carried in the order in which they are
/// accepted, as long as no copy of the sender is made, and none is made here.
#[verifier::external_body]
pub(crate) fn read_try_send(
    sender: &mut mpsc::Sender<ReadItem>,
    item: ReadItem,
) -> (r: Offer<ReadItem>)
    ensures
        r.answers(item),
        read_sender(*final(sender)).offered(read_sender(*old(sender)), item, r.answer()),
{
    match sender.try_send(item) {
        Ok(()) => Offer::Accepted,
        Err(TrySendError::Full(item)) => Offer::Full(item),
        Err(TrySendError::Closed(item)) => Offer::Closed(item),
    }
}

/// Calls `tokio::sync::mpsc::Receiver::poll_recv`: the next item, the end of the
/// channel, or neither yet. Items come in the order in which they were sent, each once.
/// The end comes when the channel is closed or without senders, after all that went in;
/// from then on it stays. Neither comes when there is nothing and a sender is left, or
/// when the task of `cx` has used up its budget; that task is then woken when it is worth
/// polling again. A poll does not close the channel. What had gone in at that moment, and
/// whether a sender was left, depends on the sender, so it is left open.
#[verifier::external_body]
pub(crate) fn read_poll(
    receiver: &mut mpsc::Receiver<ReadItem>,
    cx: &mut Context<'_>,
) -> (r: Next<ReadItem>)
    ensures
        read_receiver(*final(receiver)).polled(
            read_receiver(*old(receiver)),
            r,
            waker_of(*old(cx)),
        ),
        waker_of(*final(cx)) == waker_of(*old(cx)),
{
    match receiver.poll_recv(cx) {
        Poll::Ready(Some(item)) => Next::Item(item),
        Poll::Ready(None) => Next::Ended,
        Poll::Pending => Next::Pending,
    }
}

/// Calls `tokio::sync::mpsc::Receiver::close`, which closes the channel and takes
/// nothing from it.
#[verifier::external_body]
pub(crate) fn read_close(receiver: &mut mpsc::Receiver<ReadItem>)
    ensures
        read_receiver(*final(receiver)) == (ReceiverView {
            closed: true,
            ..read_receiver(*old(receiver))
        }),
{
    receiver.close()
}

/// Calls `tokio::sync::mpsc::Receiver::try_recv`: the next item, the end of the
/// channel, or neither yet, as in [`read_poll`], but without regard to a budget and
/// without a task to be woken.
#[verifier::external_body]
pub(crate) fn read_try_recv(receiver: &mut mpsc::Receiver<ReadItem>) -> (r: Next<ReadItem>)
    ensures
        read_receiver(*final(receiver)).answered(read_receiver(*old(receiver)), r),
        !read_receiver(*final(receiver)).spurious,
{
    match receiver.try_recv() {
        Ok(item) => Next::Item(item),
        Err(TryRecvError::Disconnected) => Next::Ended,
        Err(TryRecvError::Empty) => Next::Pending,
    }
}

// ---- accepted TCP connections ----

/// What is known of a sender of accepted connections.
pub uninterp spec fn stream_sender(sender: mpsc::Sender<Incoming>) -> SenderView<Incoming>;

/// What is known of a receiver of accepted connections.
pub uninterp spec fn stream_receiver(receiver: mpsc::Receiver<Incoming>) -> ReceiverView<Incoming>;

/// Calls `tokio::sync::mpsc::channel`, of which the same holds as in [`read_channel`].
#[verifier::external_body]
pub(crate) fn stream_channel(
    capacity: usize,
) -> (r: (mpsc::Sender<Incoming>, mpsc::Receiver<Incoming>))
    requires
        0 < capacity <= capacity_limit(),
    ensures
        stream_sender(r.0).is_new(capacity as nat),
        stream_receiver(r.1).is_new(),
        stream_sender(r.0).joins(stream_receiver(r.1)),
{
    mpsc::channel(capacity)
}

/// Calls `tokio::sync::mpsc::Sender::try_send`, of which the same holds as in
/// [`read_try_send`].
#[verifier::external_body]
pub(crate) fn stream_try_send(
    sender: &mut mpsc::Sender<Incoming>,
    item: Incoming,
) -> (r: Offer<Incoming>)
    ensures
        r.answers(item),
        stream_sender(*final(sender)).offered(stream_sender(*old(sender)), item, r.answer()),
{
    match sender.try_send(item) {
        Ok(()) => Offer::Accepted,
        Err(TrySendError::Full(item)) => Offer::Full(item),
        Err(TrySendError::Closed(item)) => Offer::Closed(item),
    }
}

/// Calls `tokio::sync::mpsc::Receiver::poll_recv`, of which the same holds as in
/// [`read_poll`].
#[verifier::external_body]
pub(crate) fn stream_poll(
    receiver: &mut mpsc::Receiver<Incoming>,
    cx: &mut Context<'_>,
) -> (r: Next<Incoming>)
    ensures
        stream_receiver(*final(receiver)).polled(
            stream_receiver(*old(receiver)),
            r,
            waker_of(*old(cx)),
        ),
        waker_of(*final(cx)) == waker_of(*old(cx)),
{
    match receiver.poll_recv(cx) {
        Poll::Ready(Some(item)) => Next::Item(item),
        Poll::Ready(None) => Next::Ended,
        Poll::Pending => Next::Pending,
    }
}

/// Calls `tokio::sync::mpsc::Receiver::close`, of which the same holds as in
/// [`read_close`].
#[verifier::external_body]
pub(crate) fn stream_close(receiver: &mut mpsc::Receiver<Incoming>)
    ensures
        stream_receiver(*final(receiver)) == (ReceiverView {
            closed: true,
            ..stream_receiver(*old(receiver))
        }),
{
    receiver.close()
}

/// Calls `tokio::sync::mpsc::Receiver::try_recv`, of which the same holds as in
/// [`read_try_recv`].
#[verifier::external_body]
pub(crate) fn stream_try_recv(receiver: &mut mpsc::Receiver<Incoming>) -> (r: Next<Incoming>)
    ensures
        stream_receiver(*final(receiver)).answered(stream_receiver(*old(receiver)), r),
        !stream_receiver(*final(receiver)).spurious,
{
    match receiver.try_recv() {
        Ok(item) => Next::Item(item),
        Err(TryRecvError::Disconnected) => Next::Ended,
        Err(TryRecvError::Empty) => Next::Pending,
    }
}

// ---- outgoing packets ----

/// What is known of a sender of outgoing packets.
pub uninterp spec fn packet_sender(sender: mpsc::Sender<Packet>) -> SenderView<Packet>;

/// What is known of a receiver of outgoing packets.
pub uninterp spec fn packet_receiver(receiver: mpsc::Receiver<Packet>) -> ReceiverView<Packet>;

/// Calls `tokio::sync::mpsc::channel`, of which the same holds as in [`read_channel`].
#[verifier::external_body]
pub(crate) fn packet_channel(capacity: usize) -> (r: (mpsc::Sender<Packet>, mpsc::Receiver<Packet>))
    requires
        0 < capacity <= capacity_limit(),
    ensures
        packet_sender(r.0).is_new(capacity as nat),
        packet_receiver(r.1).is_new(),
        packet_sender(r.0).joins(packet_receiver(r.1)),
{
    mpsc::channel(capacity)
}

/// Calls `tokio::sync::mpsc::Sender::try_send`, of which the same holds as in
/// [`read_try_send`].
#[verifier::external_body]
pub(crate) fn packet_try_send(sender: &mut mpsc::Sender<Packet>, item: Packet) -> (r: Offer<Packet>)
    ensures
        r.answers(item),
        packet_sender(*final(sender)).offered(packet_sender(*old(sender)), item, r.answer()),
{
    match sender.try_send(item) {
        Ok(()) => Offer::Accepted,
        Err(TrySendError::Full(item)) => Offer::Full(item),
        Err(TrySendError::Closed(item)) => Offer::Closed(item),
    }
}

/// Calls `tokio::sync::mpsc::Receiver::poll_recv`, of which the same holds as in
/// [`read_poll`].
#[verifier::external_body]
pub(crate) fn packet_poll(
    receiver: &mut mpsc::Receiver<Packet>,
    cx: &mut Context<'_>,
) -> (r: Next<Packet>)
    ensures
        packet_receiver(*final(receiver)).polled(
            packet_receiver(*old(receiver)),
            r,
            waker_of(*old(cx)),
        ),
        waker_of(*final(cx)) == waker_of(*old(cx)),
{
    match receiver.poll_recv(cx) {
        Poll::Ready(Some(item)) => Next::Item(item),
        Poll::Ready(None) => Next::Ended,
        Poll::Pending => Next::Pending,
    }
}

// ---- received UDP datagrams ----

/// What is known of a sender of received datagrams.
pub uninterp spec fn datagram_sender(sender: mpsc::Sender<Datagram>) -> SenderView<Datagram>;

/// What is known of a receiver of received datagrams.
pub uninterp spec fn datagram_receiver(
    receiver: mpsc::Receiver<Datagram>,
) -> ReceiverView<Datagram>;

/// Calls `tokio::sync::mpsc::channel`, of which the same holds as in [`read_channel`].
#[verifier::external_body]
pub(crate) fn datagram_channel(
    capacity: usize,
) -> (r: (mpsc::Sender<Datagram>, mpsc::Receiver<Datagram>))
    requires
        0 < capacity <= capacity_limit(),
    ensures
        datagram_sender(r.0).is_new(capacity as nat),
        datagram_receiver(r.1).is_new(),
        datagram_sender(r.0).joins(datagram_receiver(r.1)),
{
    mpsc::channel(capacity)
}

/// Calls `tokio::sync::mpsc::Sender::try_send`, of which the same holds as in
/// [`read_try_send`].
#[verifier::external_body]
pub(crate) fn datagram_try_send(
    sender: &mut mpsc::Sender<Datagram>,
    item: Datagram,
) -> (r: Offer<Datagram>)
    ensures
        r.answers(item),
        datagram_sender(*final(sender)).offered(datagram_sender(*old(sender)), item, r.answer()),
{
    match sender.try_send(item) {
        Ok(()) => Offer::Accepted,
        Err(TrySendError::Full(item)) => Offer::Full(item),
        Err(TrySendError::Closed(item)) => Offer::Closed(item),
    }
}

/// Calls `tokio::sync::mpsc::Receiver::poll_recv`, of which the same holds as in
/// [`read_poll`].
#[verifier::external_body]
pub(crate) fn datagram_poll(
    receiver: &mut mpsc::Receiver<Datagram>,
    cx: &mut Context<'_>,
) -> (r: Next<Datagram>)
    ensures
        datagram_receiver(*final(receiver)).polled(
            datagram_receiver(*old(receiver)),
            r,
            waker_of(*old(cx)),
        ),
        waker_of(*final(cx)) == waker_of(*old(cx)),
{
    match receiver.poll_recv(cx) {
        Poll::Ready(Some(item)) => Next::Item(item),
        Poll::Ready(None) => Next::Ended,
        Poll::Pending => Next::Pending,
    }
}

} // verus!

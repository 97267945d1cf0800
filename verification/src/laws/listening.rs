//! Listening for connections.
use std::task::Context;
use tokio::sync::mpsc;
use vstd::prelude::*;

use crate::calls::{BindCall, PcbCall};
use crate::error::{code_text, Error, ErrorKind};
use crate::sync;
use crate::sync::{Answer, Next, Polled};
use crate::tcp_listener::{
    tcp_accept_cb, tcp_accepted, AcceptStep, Incoming, ListenCall, TcpBind, TcpListener,
};

verus! {

/// A listener is bound to any address and port, and listens exactly if lwIP binds it and
/// gives it a control block; it is that one that it listens on. Its queue holds 255
/// connections, none yet, and it gives out what goes into its sender.
pub proof fn law_listener_is_opened(
    pcb: usize,
    bind: TcpBind,
    err: i8,
    text: String,
    bound: Result<ListenCall, Error>,
    call: ListenCall,
    listening: usize,
    reason: i8,
    why: String,
    r: Result<(TcpListener, mpsc::Sender<Incoming>), Error>,
)
    requires
        call_ensures(TcpListener::new, (pcb,), bind),
        call_ensures(code_text, (err,), text),
        call_ensures(TcpBind::bound, (bind, err), bound),
        call_ensures(code_text, (reason,), why),
        call_ensures(ListenCall::listening, (call, listening, reason), r),
    ensures
        bind.pcb == pcb,
        bind.bind == (BindCall { addr: None, port: 0 }),
        bound is Ok <==> err == 0,
        bound matches Ok(next) ==> next.pcb == pcb && next.backlog == 255,
        bound matches Err(error) ==> error.kind == ErrorKind::Other && error.message@
            == "bind TCP failed: "@ + text@,
        r is Ok <==> listening != 0,
        r matches Err(error) ==> error.kind == ErrorKind::Other && error.message@
            == "listen TCP failed: "@ + why@,
        r matches Ok((listener, sender)) ==> {
            let queue = sync::stream_sender(sender);
            &&& queue.capacity == 255
            &&& queue.offers.len() == 0
            &&& queue.carried == listener.queue().carried
            &&& queue.total == listener.queue().total
            &&& listener.queue().polls.len() == 0
            &&& !listener.queue().closed
            &&& forall|on: usize| #[trigger]
                call_ensures(TcpListener::pcb, (&listener,), on) ==> on == listening
        },
{
}

/// A connection that lwIP reports is opened exactly if there is a listener, a control
/// block and no error. Otherwise lwIP is told of an error only where the listener is gone.
pub proof fn law_accepted_connection_is_opened(
    listening: bool,
    new_pcb: usize,
    err: i8,
    r: AcceptStep,
)
    requires
        call_ensures(tcp_accept_cb, (listening, new_pcb, err), r),
    ensures
        r is Open <==> listening && new_pcb != 0 && err == 0,
        r matches AcceptStep::Reply(code) ==> (code == 0 <==> listening),
        r matches AcceptStep::Reply(code) ==> (code == -11 <==> !listening),
{
}

/// An opened connection is offered to the listener once, as it is. lwIP is told that all
/// is well exactly if it was taken; otherwise it comes back.
pub proof fn law_connection_is_offered(
    sender: &mut mpsc::Sender<Incoming>,
    incoming: Incoming,
    r: (i8, Option<Incoming>),
)
    requires
        call_ensures(tcp_accepted, (sender, incoming), r),
    ensures
        ({
            let before = sync::stream_sender(*old(sender));
            let after = sync::stream_sender(*final(sender));
            &&& after.offers.len() == before.offers.len() + 1
            &&& after.offers.drop_last() == before.offers
            &&& after.offers.last().0 == incoming
            &&& after.carried == before.carried
            &&& after.total == before.total
            &&& after.offers.last().1 == Answer::Accepted <==> r.0 == 0
            &&& after.offers.last().1 == Answer::Accepted <==> r.1 is None
        }),
        r.0 == 0 || r.0 == -11,
        r.1 matches Some(back) ==> back == incoming,
{
    let before = sync::stream_sender(*old(sender));
    let after = sync::stream_sender(*final(sender));
    assert(after.offers.drop_last() =~= before.offers);
}

/// A call of `accept` asks the queue once, without closing it, and tells what it answered;
/// one that waits is woken.
pub proof fn law_accept_tells_the_answer(
    listener: &mut TcpListener,
    cx: &mut Context<'_>,
    r: Polled<Incoming>,
    on: usize,
    still_on: usize,
)
    requires
        call_ensures(TcpListener::pcb, (&*old(listener),), on),
        call_ensures(TcpListener::accept, (listener, cx), r),
        call_ensures(TcpListener::pcb, (&*final(listener),), still_on),
    ensures
        still_on == on,
        final(listener).queue().polls.len() == old(listener).queue().polls.len() + 1,
        final(listener).queue().polls.drop_last() == old(listener).queue().polls,
        final(listener).queue().closed == old(listener).queue().closed,
        final(listener).queue().carried == old(listener).queue().carried,
        match final(listener).queue().polls.last() {
            Next::Item(incoming) => r == Polled::Ready(Ok::<Incoming, Error>(incoming)),
            Next::Ended => r matches Polled::Ready(Err(error)) && error.kind
                == ErrorKind::UnexpectedEof && error.message@ == "close"@,
            Next::Pending => r is Pending && final(listener).queue().waiting == Some(
                sync::waker_of(*old(cx)),
            ),
        },
{
    assert(final(listener).queue().polls.drop_last() =~= old(listener).queue().polls);
}

/// What a new listener accepts first is the first connection that it was handed, and it
/// does not fail.
pub proof fn law_first_connection_is_accepted(
    call: ListenCall,
    listening: usize,
    listener: &mut TcpListener,
    sender: &mut mpsc::Sender<Incoming>,
    incoming: Incoming,
    handed: (i8, Option<Incoming>),
    cx: &mut Context<'_>,
    r: Polled<Incoming>,
)
    requires
        call_ensures(
            ListenCall::listening,
            (call, listening, 0i8),
            Ok::<(TcpListener, mpsc::Sender<Incoming>), Error>((*old(listener), *old(sender))),
        ),
        call_ensures(tcp_accepted, (sender, incoming), handed),
        handed.0 == 0,
        call_ensures(TcpListener::accept, (listener, cx), r),
    ensures
        r matches Polled::Ready(Ok(got)) ==> got == incoming,
        !(r matches Polled::Ready(Err(_))),
{
    let tx = sync::stream_sender(*final(sender));
    let was = sync::stream_sender(*old(sender));
    assert(tx.offers.drop_last() =~= was.offers);
    assert(sync::accepted(was.offers).len() == 0);
    assert(sync::accepted(tx.offers)[0] == tx.offers.last().0);
    let before = old(listener).queue();
    let after = final(listener).queue();
    sync::lemma_items_push(before.polls, after.polls.last());
    assert(sync::items(before.polls).len() == 0);
    if let Next::Item(item) = after.polls.last() {
        assert(sync::items(after.polls)[0] == item);
    }
    assert(after.polls[after.polls.len() - 1] == after.polls.last());
}

/// With a listener goes every connection that waits in its queue, each once and in order;
/// the queue is closed and empty then.
pub proof fn law_listener_loses_what_waits(listener: &mut TcpListener, lost: Vec<Incoming>)
    requires
        call_ensures(TcpListener::discard, (listener,), lost),
    ensures
        ({
            let before = old(listener).queue();
            let after = final(listener).queue();
            let n = before.polls.len() as int;
            &&& after.closed
            &&& after.carried == before.carried
            &&& after.polls.len() == n + lost@.len() + 1
            &&& after.polls.take(n) == before.polls
            &&& forall|i: int|
                0 <= i < lost@.len() ==> after.polls[n + i] == Next::Item(#[trigger] lost@[i])
            &&& !(after.polls.last() is Item)
            &&& sync::items(after.polls).len() == after.sent
        }),
{
    let n = old(listener).queue().polls.len() as int;
    let taken = final(listener).queue().polls.skip(n);
    assert(final(listener).queue().polls.take(n) =~= old(listener).queue().polls);
    lemma_items_of_emptied(taken);
    assert(taken.last() == final(listener).queue().polls.last());
    assert forall|i: int| 0 <= i < lost@.len() implies final(listener).queue().polls[n + i]
        == Next::Item(#[trigger] lost@[i]) by {
        assert(taken[i] == final(listener).queue().polls[n + i]);
    }
}

/// A channel that is emptied gives its items one by one.
proof fn lemma_items_of_emptied<T>(polls: Seq<Next<T>>)
    requires
        sync::emptied(polls),
    ensures
        sync::items(polls).len() == polls.len() - 1,
        forall|i: int|
            0 <= i < polls.len() - 1 ==> polls[i] == Next::Item(#[trigger] sync::items(polls)[i]),
{
    lemma_items_of_items(polls.drop_last());
}

proof fn lemma_items_of_items<T>(polls: Seq<Next<T>>)
    requires
        forall|i: int| 0 <= i < polls.len() ==> polls[i] is Item,
    ensures
        sync::items(polls).len() == polls.len(),
        forall|i: int|
            0 <= i < polls.len() ==> polls[i] == Next::Item(#[trigger] sync::items(polls)[i]),
    decreases polls.len(),
{
    if polls.len() > 0 {
        lemma_items_of_items(polls.drop_last());
        assert forall|i: int| 0 <= i < polls.len() implies polls[i] == Next::Item(
            #[trigger] sync::items(polls)[i],
        ) by {
            if i < polls.len() - 1 {
                assert(polls[i] == polls.drop_last()[i]);
                assert(polls.drop_last()[i] == Next::Item(
                    sync::items(polls.drop_last())[i],
                ));
            }
        }
    }
}

/// A listener registers itself before lwIP can call it, and when it is gone takes
/// everything back before its control block is closed.
pub proof fn law_listener_goes_in_order(register: Vec<PcbCall>, due: Vec<PcbCall>)
    requires
        call_ensures(TcpListener::attach, (), register),
        call_ensures(TcpListener::detach, (), due),
    ensures
        register@.len() > 0,
        register@[0] == PcbCall::Arg(true),
        register@.contains(PcbCall::OnAccept(true)),
        !register@.contains(PcbCall::Close),
        due@.len() > 0,
        due@.contains(PcbCall::Arg(false)),
        due@.contains(PcbCall::OnAccept(false)),
        due@.last() == PcbCall::Close,
        !due@.contains(PcbCall::Arg(true)),
        !due@.contains(PcbCall::OnAccept(true)),
{
    assert(register@[1] == PcbCall::OnAccept(true));
    assert(due@[0] == PcbCall::Arg(false));
    assert(due@[1] == PcbCall::OnAccept(false));
}

} // verus!

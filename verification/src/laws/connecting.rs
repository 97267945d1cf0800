//! Connections: how they are opened, what their callbacks do, and how they are left.
use std::task::Waker;
use vstd::prelude::*;

use crate::addr::{IpAddr, SocketAddr};
use crate::calls::PcbCall;
use crate::connect::{Binding, Connecting, Dialing, Refused, Wait, Waiting};
use crate::error::{code_text, Error, ErrorKind};
use crate::pbuf::Pbuf;
use crate::sync;
use crate::sync::Answer;
use crate::tcp_args::{
    tcp_connect_cb, tcp_err_cb, tcp_poll_cb, tcp_recv_cb, tcp_sent_cb, Half, RecvReply, TcpArgs,
    TcpContext,
};
use crate::tcp_read::TcpStreamRead;
use crate::tcp_stream::{PcbOptions, TcpStream};
use crate::tcp_write::TcpStreamWrite;

verus! {

/// A connection that lwIP accepted runs from the remote address to the local one, stands,
/// and has received nothing.
pub proof fn law_accepted_connection_stands(
    pcb: usize,
    remote: SocketAddr,
    local: SocketAddr,
    stream: TcpStream,
    context: TcpContext,
    closed: bool,
)
    requires
        call_ensures(TcpStream::new, (pcb, remote, local), (stream, context)),
        call_ensures(TcpContext::is_close, (&context,), closed),
    ensures
        ({
            &&& forall|addr: SocketAddr| #[trigger]
                call_ensures(TcpStream::src_addr, (&stream,), addr) ==> addr == remote
            &&& forall|addr: SocketAddr| #[trigger]
                call_ensures(TcpStream::dest_addr, (&stream,), addr) ==> addr == local
            &&& forall|write: TcpStreamWrite, read: TcpStreamRead, addr: SocketAddr|
                #[trigger] call_ensures(
                    TcpStream::into_split,
                    (stream,),
                    (write, read),
                ) && #[trigger]
                    call_ensures(TcpStreamWrite::src_addr, (&write,), addr) ==> addr == remote
            &&& forall|write: TcpStreamWrite, read: TcpStreamRead, addr: SocketAddr|
                #[trigger] call_ensures(
                    TcpStream::into_split,
                    (stream,),
                    (write, read),
                ) && #[trigger]
                    call_ensures(TcpStreamWrite::dest_addr, (&write,), addr) ==> addr == local
            &&& context.read
            &&& context.write
            &&& context.tcp_args.waiting() is None
            &&& context.tcp_args.queue().capacity == 1024
            &&& context.tcp_args.queue().offers.len() == 0
            &&& forall|write: TcpStreamWrite, read: TcpStreamRead|
                #[trigger] call_ensures(TcpStream::into_split, (stream,), (write, read)) ==> {
                    &&& read.queue().carried == context.tcp_args.queue().carried
                    &&& read.queue().total == context.tcp_args.queue().total
                    &&& read.queue().polls.len() == 0
                    &&& read.pending() is None
                    &&& !read.queue().closed
                }
        }),
        context.pcb == pcb,
        !closed,
{
}

/// A connect binds the control block that lwIP made, if it made one, to the source that
/// was asked for.
pub proof fn law_connect_binds_its_source(
    src_addr: SocketAddr,
    dest_addr: SocketAddr,
    ip: IpAddr,
    port: u16,
    connecting: Connecting,
    pcb: usize,
    r: Result<Binding, Error>,
)
    requires
        call_ensures(SocketAddr::ip, (&src_addr,), ip),
        call_ensures(SocketAddr::port, (&src_addr,), port),
        call_ensures(TcpStream::connect, (src_addr, dest_addr), connecting),
        call_ensures(Connecting::created, (connecting, pcb), r),
    ensures
        r is Ok <==> pcb != 0,
        r matches Err(error) ==> error.kind == ErrorKind::Other && error.message@
            == "tcp_new failed: is_null"@,
        r matches Ok(binding) ==> {
            &&& binding.pcb == pcb
            &&& binding.bind.addr == Some(ip)
            &&& binding.bind.port == port
            &&& binding.src_addr == src_addr
            &&& binding.dest_addr == dest_addr
        },
{
}

/// A connection that was bound runs from the address that it was bound to, to the
/// destination that was asked for, whatever the addresses are; it does not stand yet.
pub proof fn law_bound_connection_has_its_addresses(
    src_addr: SocketAddr,
    dest_addr: SocketAddr,
    connecting: Connecting,
    pcb: usize,
    binding: Binding,
    err: i8,
    words: &str,
    text: String,
    local: SocketAddr,
    r: Result<(Dialing, TcpContext), Error>,
)
    requires
        call_ensures(TcpStream::connect, (src_addr, dest_addr), connecting),
        call_ensures(Connecting::created, (connecting, pcb), Ok::<Binding, Error>(binding)),
        call_ensures(code_text, (err,), text),
        call_ensures(Binding::bound, (binding, err, words, local), r),
    ensures
        r is Ok <==> err == 0,
        r matches Err(error) ==> error.kind == ErrorKind::Other && error.message@
            == "bind TCP failed: "@ + words@ + " "@ + text@,
        r matches Ok((dialing, context)) ==> {
            &&& forall|addr: SocketAddr| #[trigger]
                call_ensures(TcpStream::src_addr, (&dialing.stream,), addr) ==> addr == local
            &&& forall|addr: SocketAddr| #[trigger]
                call_ensures(TcpStream::dest_addr, (&dialing.stream,), addr) ==> addr == dest_addr
            &&& forall|write: TcpStreamWrite, read: TcpStreamRead, addr: SocketAddr|
                #[trigger] call_ensures(
                    TcpStream::into_split,
                    (dialing.stream,),
                    (write, read),
                ) && #[trigger]
                    call_ensures(TcpStreamWrite::src_addr, (&write,), addr) ==> addr == local
            &&& forall|write: TcpStreamWrite, read: TcpStreamRead, addr: SocketAddr|
                #[trigger] call_ensures(
                    TcpStream::into_split,
                    (dialing.stream,),
                    (write, read),
                ) && #[trigger]
                    call_ensures(TcpStreamWrite::dest_addr, (&write,), addr) ==> addr == dest_addr
            &&& context.read
            &&& context.write
            &&& context.tcp_args.waiting() is None
            &&& context.tcp_args.queue().capacity == 1024
            &&& context.tcp_args.queue().offers.len() == 0
            &&& forall|write: TcpStreamWrite, read: TcpStreamRead|
                #[trigger] call_ensures(
                    TcpStream::into_split,
                    (dialing.stream,),
                    (write, read),
                ) ==> {
                    &&& read.queue().carried == context.tcp_args.queue().carried
                    &&& read.queue().total == context.tcp_args.queue().total
                    &&& read.queue().polls.len() == 0
                    &&& read.pending() is None
                    &&& !read.queue().closed
                }
            &&& context.pcb == pcb
            &&& !context.tcp_args.watch().unwatched
            &&& sync::watch_receiver(dialing.state_receiver).held == context.tcp_args.watch().held
            &&& sync::watch_receiver(dialing.state_receiver).seen.len() == 0
            &&& forall|closed: bool| #[trigger]
                call_ensures(TcpContext::is_close, (&context,), closed) ==> closed
        },
{
}

/// A connection for which lwIP sends the request is waited for, as it is; otherwise the
/// failure is told, and the connection comes back.
pub proof fn law_request_follows_the_answer(
    dialing: Dialing,
    err: i8,
    text: String,
    r: Result<Waiting, Refused>,
)
    requires
        call_ensures(code_text, (err,), text),
        call_ensures(Dialing::dialed, (dialing, err), r),
    ensures
        r is Ok <==> err == 0,
        r matches Ok(waiting) ==> waiting.stream == dialing.stream && waiting.state_receiver
            == dialing.state_receiver,
        r matches Err(refused) ==> refused.stream == dialing.stream && refused.error.kind
            == ErrorKind::Other && refused.error.message@ == "listen TCP failed: "@ + text@,
{
}

/// A connection is open exactly if there is a new state and it is not the last one; it is
/// told apart whether the time was over or the connection was refused.
pub proof fn law_waiting_ends_as_told(wait: Wait, state: usize, r: Result<(), Error>)
    requires
        call_ensures(Waiting::outcome, (wait, state), r),
    ensures
        r is Ok <==> wait == Wait::Changed && state != 2,
        r matches Err(error) ==> if wait == Wait::TimedOut {
            error.kind == ErrorKind::TimedOut && error.message@ == "TimedOut"@
        } else {
            error.kind == ErrorKind::ConnectionRefused && error.message@ == "ConnectionRefused"@
        },
{
}

/// Where there is a new state, it is looked at once, and it decides; otherwise nothing is
/// looked at, and the connection is not open. It stays the same connection.
pub proof fn law_new_state_decides(waiting: &mut Waiting, wait: Wait, r: Result<(), Error>)
    requires
        call_ensures(Waiting::settled, (waiting, wait), r),
    ensures
        final(waiting).stream == old(waiting).stream,
        ({
            let before = sync::watch_receiver(old(waiting).state_receiver);
            let after = sync::watch_receiver(final(waiting).state_receiver);
            if wait == Wait::Changed {
                &&& after.seen.len() == before.seen.len() + 1
                &&& after.seen.drop_last() == before.seen
                &&& after.held == before.held
                &&& after.seen.last() == after.held[after.at as int]
                &&& r is Ok <==> after.seen.last() != 2
            } else {
                &&& after == before
                &&& r is Err
            }
        }),
        r matches Err(error) ==> if wait == Wait::TimedOut {
            error.kind == ErrorKind::TimedOut && error.message@ == "TimedOut"@
        } else {
            error.kind == ErrorKind::ConnectionRefused && error.message@ == "ConnectionRefused"@
        },
{
    if wait == Wait::Changed {
        assert(sync::watch_receiver(final(waiting).state_receiver).seen.drop_last()
            =~= sync::watch_receiver(old(waiting).state_receiver).seen);
    }
}

/// A connect as a whole: while it is listened for, the connect callback decides whether
/// the connection is open, and the context says the same; its addresses are the local one
/// and the destination.
pub proof fn law_connect_callback_decides(
    src_addr: SocketAddr,
    dest_addr: SocketAddr,
    connecting: Connecting,
    pcb: usize,
    binding: Binding,
    words: &str,
    local: SocketAddr,
    dialing: Dialing,
    context: TcpContext,
    waiting: &mut Waiting,
    args: &mut TcpArgs,
    err: i8,
    code: i8,
    r: Result<(), Error>,
    later: TcpContext,
    closed: bool,
)
    requires
        call_ensures(TcpStream::connect, (src_addr, dest_addr), connecting),
        call_ensures(Connecting::created, (connecting, pcb), Ok::<Binding, Error>(binding)),
        call_ensures(
            Binding::bound,
            (binding, 0i8, words, local),
            Ok::<(Dialing, TcpContext), Error>((dialing, context)),
        ),
        call_ensures(Dialing::dialed, (dialing, 0i8), Ok::<Waiting, Refused>(*old(waiting))),
        *old(args) == context.tcp_args,
        call_ensures(tcp_connect_cb, (Some(args), err), code),
        !final(args).watch().unwatched,
        call_ensures(Waiting::settled, (waiting, Wait::Changed), r),
        sync::watch_receiver(final(waiting).state_receiver).at == final(args).watch().number,
        later.tcp_args == *final(args),
        call_ensures(TcpContext::is_close, (&later,), closed),
    ensures
        r is Ok <==> err == 0,
        closed <==> err != 0,
        ({
            &&& forall|addr: SocketAddr| #[trigger]
                call_ensures(TcpStream::src_addr, (&final(waiting).stream,), addr) ==> addr == local
            &&& forall|addr: SocketAddr| #[trigger]
                call_ensures(TcpStream::dest_addr, (&final(waiting).stream,), addr)
                    ==> addr == dest_addr
            &&& forall|write: TcpStreamWrite, read: TcpStreamRead, addr: SocketAddr|
                #[trigger] call_ensures(
                    TcpStream::into_split,
                    (final(waiting).stream,),
                    (write, read),
                ) && #[trigger]
                    call_ensures(TcpStreamWrite::src_addr, (&write,), addr) ==> addr == local
            &&& forall|write: TcpStreamWrite, read: TcpStreamRead, addr: SocketAddr|
                #[trigger] call_ensures(
                    TcpStream::into_split,
                    (final(waiting).stream,),
                    (write, read),
                ) && #[trigger]
                    call_ensures(TcpStreamWrite::dest_addr, (&write,), addr) ==> addr == dest_addr
        }),
{
}

/// The connect callback makes a connection that is listened for stand, or closes it, as
/// lwIP says; of one that nobody listens for the state stays. lwIP is told that all is
/// well.
pub proof fn law_connect_callback_sets_the_state(
    args: &mut TcpArgs,
    err: i8,
    r: i8,
    none: i8,
    before: TcpContext,
    was_closed: bool,
    after: TcpContext,
    closed: bool,
)
    requires
        call_ensures(tcp_connect_cb, (Some(args), err), r),
        call_ensures(tcp_connect_cb, (None::<&mut TcpArgs>, err), none),
        before.tcp_args == *old(args),
        call_ensures(TcpContext::is_close, (&before,), was_closed),
        after.tcp_args == *final(args),
        call_ensures(TcpContext::is_close, (&after,), closed),
    ensures
        r == 0,
        none == 0,
        final(args).watch().published.len() == old(args).watch().published.len() + 1,
        final(args).watch().published.drop_last() == old(args).watch().published,
        final(args).watch().published.last().1 == !final(args).watch().unwatched,
        final(args).watch().held == old(args).watch().held,
        final(args).watch().published.last().0 == (if err == 0 {
            1
        } else {
            2int
        }),
        final(args).queue() == old(args).queue(),
        final(args).waiting() == old(args).waiting(),
        !final(args).watch().unwatched ==> (closed <==> err != 0),
        final(args).watch().unwatched ==> closed == was_closed,
        old(args).watch().unwatched ==> final(args).watch().unwatched,
{
    assert(final(args).watch().published.drop_last() =~= old(args).watch().published);
}

/// A connection that lwIP gives up, or that is closed, no longer stands, if it is listened
/// for; the end of the data goes to its reader either way.
pub proof fn law_error_closes_the_connection(
    args: &mut TcpArgs,
    before: TcpContext,
    was_closed: bool,
    after: TcpContext,
    closed: bool,
    own: &mut TcpArgs,
    own_after: TcpContext,
    own_closed: bool,
)
    requires
        call_ensures(tcp_err_cb, (Some(args),), ()),
        before.tcp_args == *old(args),
        call_ensures(TcpContext::is_close, (&before,), was_closed),
        after.tcp_args == *final(args),
        call_ensures(TcpContext::is_close, (&after,), closed),
        call_ensures(TcpArgs::close, (own,), ()),
        own_after.tcp_args == *final(own),
        call_ensures(TcpContext::is_close, (&own_after,), own_closed),
    ensures
        final(args).watch().published.len() == old(args).watch().published.len() + 1,
        final(args).watch().published.drop_last() == old(args).watch().published,
        final(args).watch().published.last().1 == !final(args).watch().unwatched,
        final(args).watch().held == old(args).watch().held,
        final(args).watch().published.last().0 == 2,
        final(args).queue().offers.len() == old(args).queue().offers.len() + 1,
        final(args).queue().offers.drop_last() == old(args).queue().offers,
        final(args).queue().carried == old(args).queue().carried,
        final(args).queue().total == old(args).queue().total,
        final(args).queue().capacity == old(args).queue().capacity,
        final(args).queue().offers.last().0.buffer() is None,
        final(args).waiting() == old(args).waiting(),
        !final(args).watch().unwatched ==> closed,
        final(args).watch().unwatched ==> closed == was_closed,
        final(own).watch().published.len() == old(own).watch().published.len() + 1,
        final(own).watch().published.drop_last() == old(own).watch().published,
        final(own).watch().published.last().1 == !final(own).watch().unwatched,
        final(own).watch().held == old(own).watch().held,
        final(own).watch().published.last().0 == 2,
        final(own).queue().offers.len() == old(own).queue().offers.len() + 1,
        final(own).queue().offers.drop_last() == old(own).queue().offers,
        final(own).queue().carried == old(own).queue().carried,
        final(own).queue().total == old(own).queue().total,
        final(own).queue().capacity == old(own).queue().capacity,
        final(own).queue().offers.last().0.buffer() is None,
        final(own).waiting() == old(own).waiting(),
        !final(own).watch().unwatched ==> own_closed,
{
    assert(final(args).watch().published.drop_last() =~= old(args).watch().published);
    assert(final(args).queue().offers.drop_last() =~= old(args).queue().offers);
    assert(final(own).watch().published.drop_last() =~= old(own).watch().published);
    assert(final(own).queue().offers.drop_last() =~= old(own).queue().offers);
}

/// A buffer that was received is offered to the reader once, whole and with its
/// connection. It is freed exactly if the reader is gone. The end of the data is offered
/// as an item without a buffer. Neither touches the state or the writer that waits.
pub proof fn law_received_buffer_is_offered(
    args: &mut TcpArgs,
    t_pcb: usize,
    p: Pbuf,
    at: usize,
    err: i8,
    r: RecvReply,
    ending: &mut TcpArgs,
    end: RecvReply,
    none: RecvReply,
)
    requires
        call_ensures(Pbuf::addr, (&p,), at),
        call_ensures(tcp_recv_cb, (Some(args), t_pcb, Some(p), err), r),
        call_ensures(tcp_recv_cb, (Some(ending), t_pcb, None::<Pbuf>, err), end),
        call_ensures(tcp_recv_cb, (None::<&mut TcpArgs>, t_pcb, Some(p), err), none),
    ensures
        r.code == 0,
        final(args).queue().offers.len() == old(args).queue().offers.len() + 1,
        final(args).queue().offers.drop_last() == old(args).queue().offers,
        final(args).queue().carried == old(args).queue().carried,
        final(args).queue().total == old(args).queue().total,
        final(args).queue().capacity == old(args).queue().capacity,
        ({
            let (item, answer) = final(args).queue().offers.last();
            &&& item.buffer() == Some(p)
            &&& item.consumed() == 0
            &&& item.pcb() == t_pcb
            &&& answer == Answer::Closed ==> r.free == Some(at)
            &&& answer != Answer::Closed ==> r.free is None
        }),
        final(args).watch() == old(args).watch(),
        final(args).waiting() == old(args).waiting(),
        end.code == 0,
        end.free is None,
        final(ending).queue().offers.len() == old(ending).queue().offers.len() + 1,
        final(ending).queue().offers.drop_last() == old(ending).queue().offers,
        final(ending).queue().carried == old(ending).queue().carried,
        final(ending).queue().total == old(ending).queue().total,
        final(ending).queue().capacity == old(ending).queue().capacity,
        final(ending).queue().offers.last().0.buffer() is None,
        final(ending).watch() == old(ending).watch(),
        final(ending).waiting() == old(ending).waiting(),
        none.code == 0,
        none.free is None,
{
    assert(final(args).queue().offers.drop_last() =~= old(args).queue().offers);
    assert(final(ending).queue().offers.drop_last() =~= old(ending).queue().offers);
}

/// Ending the data offers one item without a buffer, and touches nothing else.
pub proof fn law_end_of_data_is_offered(args: &mut TcpArgs)
    requires
        call_ensures(TcpArgs::close_read, (args,), ()),
    ensures
        final(args).queue().offers.len() == old(args).queue().offers.len() + 1,
        final(args).queue().offers.drop_last() == old(args).queue().offers,
        final(args).queue().carried == old(args).queue().carried,
        final(args).queue().total == old(args).queue().total,
        final(args).queue().capacity == old(args).queue().capacity,
        final(args).queue().offers.last().0.buffer() is None,
        final(args).watch() == old(args).watch(),
        final(args).waiting() == old(args).waiting(),
{
    assert(final(args).queue().offers.drop_last() =~= old(args).queue().offers);
}

/// A writer that is let wait is the one that both the sent and the poll callback give out
/// to be woken; after that nobody waits. Nothing else changes, and lwIP is told that all
/// is well.
pub proof fn law_waiting_writer_is_given_out(
    args: &mut TcpArgs,
    waker: Waker,
    sent: &mut TcpArgs,
    by_sent: (i8, Option<Waker>),
    polled: &mut TcpArgs,
    by_poll: (i8, Option<Waker>),
)
    requires
        call_ensures(TcpArgs::park, (args, waker), ()),
        *old(sent) == *final(args),
        call_ensures(tcp_sent_cb, (Some(sent),), by_sent),
        *old(polled) == *final(args),
        call_ensures(tcp_poll_cb, (Some(polled),), by_poll),
    ensures
        by_sent == (0i8, Some(waker)),
        by_poll == (0i8, Some(waker)),
        final(sent).waiting() is None,
        final(polled).waiting() is None,
        final(args).watch() == old(args).watch(),
        final(args).queue() == old(args).queue(),
        final(sent).watch() == old(args).watch(),
        final(sent).queue() == old(args).queue(),
        final(polled).watch() == old(args).watch(),
        final(polled).queue() == old(args).queue(),
{
}

/// Where nobody waits, or there is no connection, nobody is woken.
pub proof fn law_nobody_is_woken_for_nothing(
    sent: &mut TcpArgs,
    by_sent: (i8, Option<Waker>),
    polled: &mut TcpArgs,
    by_poll: (i8, Option<Waker>),
    none_sent: (i8, Option<Waker>),
    none_poll: (i8, Option<Waker>),
)
    requires
        old(sent).waiting() is None,
        call_ensures(tcp_sent_cb, (Some(sent),), by_sent),
        old(polled).waiting() is None,
        call_ensures(tcp_poll_cb, (Some(polled),), by_poll),
        call_ensures(tcp_sent_cb, (None::<&mut TcpArgs>,), none_sent),
        call_ensures(tcp_poll_cb, (None::<&mut TcpArgs>,), none_poll),
    ensures
        by_sent == (0i8, None::<Waker>),
        by_poll == (0i8, None::<Waker>),
        none_sent == (0i8, None::<Waker>),
        none_poll == (0i8, None::<Waker>),
{
}

/// A half that is gone shuts its own side down, and only that one. With the last half, and
/// only then, everything is taken back.
pub proof fn law_half_is_left(context: &mut TcpContext, half: Half, due: Vec<PcbCall>)
    requires
        half == Half::Read ==> old(context).read,
        half == Half::Write ==> old(context).write,
        call_ensures(TcpContext::leave, (context, half), due),
    ensures
        due@.len() > 0,
        due@[0] == (PcbCall::Shutdown { rx: half == Half::Read, tx: half == Half::Write }),
        final(context).read == (old(context).read && half != Half::Read),
        final(context).write == (old(context).write && half != Half::Write),
        final(context).read || final(context).write ==> due@.len() == 1,
        !final(context).read && !final(context).write ==> {
            &&& due@.skip(1).contains(PcbCall::Arg(false))
            &&& due@.skip(1).contains(PcbCall::OnRecv(false))
            &&& due@.skip(1).contains(PcbCall::OnSent(false))
            &&& due@.skip(1).contains(PcbCall::OnErr(false))
            &&& due@.skip(1).contains(PcbCall::OnPoll(false))
            &&& due@.skip(1).len() == 5
        },
        final(context).pcb == old(context).pcb,
        final(context).tcp_args == old(context).tcp_args,
{
    if !final(context).read && !final(context).write {
        let rest = due@.skip(1);
        assert(rest[0] == PcbCall::Arg(false));
        assert(rest[1] == PcbCall::OnRecv(false));
        assert(rest[2] == PcbCall::OnSent(false));
        assert(rest[3] == PcbCall::OnErr(false));
        assert(rest[4] == PcbCall::OnPoll(false));
    }
}

/// What a connection takes back is all that it registers.
pub proof fn law_detach_takes_everything_back(due: Vec<PcbCall>)
    requires
        call_ensures(TcpContext::detach, (), due),
    ensures
        ({
            &&& due@.contains(PcbCall::Arg(false))
            &&& due@.contains(PcbCall::OnRecv(false))
            &&& due@.contains(PcbCall::OnSent(false))
            &&& due@.contains(PcbCall::OnErr(false))
            &&& due@.contains(PcbCall::OnPoll(false))
            &&& due@.len() == 5
        }),
{
    assert(due@[0] == PcbCall::Arg(false));
    assert(due@[1] == PcbCall::OnRecv(false));
    assert(due@[2] == PcbCall::OnSent(false));
    assert(due@[3] == PcbCall::OnErr(false));
    assert(due@[4] == PcbCall::OnPoll(false));
}

/// An accepted connection registers its callbacks, with what they work on first, and is
/// tuned; one that is asked for does the same in two steps, of which the first lets it hear
/// of errors.
pub proof fn law_connection_registers_its_callbacks(
    attach: Vec<PcbCall>,
    prepare: Vec<PcbCall>,
    complete: Vec<PcbCall>,
)
    requires
        call_ensures(TcpStream::attach, (), attach),
        call_ensures(Dialing::prepare, (), prepare),
        call_ensures(Waiting::complete, (), complete),
    ensures
        attach@ == prepare@ + complete@,
        attach@[0] == PcbCall::Arg(true),
        prepare@.contains(PcbCall::OnErr(true)),
        complete@.contains(PcbCall::OnRecv(true)),
        complete@.contains(PcbCall::OnSent(true)),
        complete@.contains(PcbCall::Tune),
        attach@.len() == 5,
        attach@.no_duplicates(),
{
    assert(attach@ =~= prepare@ + complete@);
    assert(prepare@[1] == PcbCall::OnErr(true));
    assert(complete@[0] == PcbCall::OnRecv(true));
    assert(complete@[1] == PcbCall::OnSent(true));
    assert(complete@[2] == PcbCall::Tune);
}

/// A connection is closed unless its state is the one of a connection that stands.
pub proof fn law_connection_stands_by_its_state(context: TcpContext, closed: bool)
    requires
        call_ensures(TcpContext::is_close, (&context,), closed),
    ensures
        closed <==> context.tcp_args.watch().value != 1,
{
}

/// Tuned options have full room, keep-alive and no delay, and every other option as it
/// was.
pub proof fn law_tuned_options(options: PcbOptions, tuned: PcbOptions)
    requires
        call_ensures(PcbOptions::tuned, (options,), tuned),
    ensures
        tuned.snd_buf == 65535,
        tuned.so_options & 0x08 == 0x08,
        tuned.so_options & !0x08u8 == options.so_options & !0x08u8,
        tuned.flags & 0x40 == 0x40,
        tuned.flags & !0x40u16 == options.flags & !0x40u16,
{
    let so_options = options.so_options;
    let flags = options.flags;
    assert((so_options | 0x08) & 0x08 == 0x08) by (bit_vector);
    assert((so_options | 0x08) & !0x08u8 == so_options & !0x08u8) by (bit_vector);
    assert((flags | 0x40) & 0x40 == 0x40) by (bit_vector);
    assert((flags | 0x40) & !0x40u16 == flags & !0x40u16) by (bit_vector);
}

} // verus!

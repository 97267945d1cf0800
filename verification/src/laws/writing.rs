//! Writing to a connection.
use std::task::Waker;
use vstd::prelude::*;

use crate::calls::PcbCall;
use crate::error::{code_text, Error, ErrorKind};
use crate::tcp_args::TcpContext;
use crate::tcp_write::{OutputCall, TcpStreamWrite, WriteCall, WriteReply, WriteStep};

verus! {

/// To a connection that is closed nothing is written, and nobody waits for it.
pub proof fn law_closed_connection_takes_nothing(
    write: &TcpStreamWrite,
    context: &mut TcpContext,
    waker: Waker,
    buf: &[u8],
    snd_buf: usize,
    step: WriteStep,
)
    requires
        call_ensures(TcpContext::is_close, (&*old(context),), true),
        call_ensures(TcpStreamWrite::poll_write, (write, context, waker, buf, snd_buf), step),
    ensures
        step matches WriteStep::Failed(error) && error.kind == ErrorKind::UnexpectedEof
            && error.message@ == "close"@,
        *final(context) == *old(context),
{
}

/// A write to a connection that stands waits exactly if there is nothing to write or no
/// room for it. Otherwise it offers as much as there is, or as much as there is room for,
/// and no more; lwIP is told all of it, where it fits in 16 bits.
pub proof fn law_write_offers_as_much_as_fits(
    write: &TcpStreamWrite,
    context: &mut TcpContext,
    waker: Waker,
    buf: &[u8],
    snd_buf: usize,
    step: WriteStep,
)
    requires
        call_ensures(TcpContext::is_close, (&*old(context),), false),
        call_ensures(TcpStreamWrite::poll_write, (write, context, waker, buf, snd_buf), step),
    ensures
        !(step is Failed),
        step is Pending <==> buf@.len() == 0 || snd_buf == 0,
        step is Pending ==> {
            &&& final(context).pcb == old(context).pcb
            &&& final(context).read == old(context).read
            &&& final(context).write == old(context).write
            &&& final(context).tcp_args.watch() == old(context).tcp_args.watch()
            &&& final(context).tcp_args.queue() == old(context).tcp_args.queue()
            &&& final(context).tcp_args.waiting() == Some(waker)
        },
        step matches WriteStep::Write(call) ==> {
            &&& call.to_write <= buf@.len()
            &&& call.to_write <= snd_buf
            &&& call.to_write == buf@.len() || call.to_write == snd_buf
            &&& call.to_write <= 0xffff ==> call.len == call.to_write
            &&& exists|k: int| #![trigger k * 0x10000] call.to_write == k * 0x10000 + call.len
            &&& call.flags == 1
            &&& call.waker == waker
            &&& *final(context) == *old(context)
        },
{
    if let WriteStep::Write(call) = step {
        let k = (call.to_write as int) / 0x10000;
        assert(call.to_write == k * 0x10000 + call.len);
    }
}

/// A write that lwIP takes and sends is reported with the number of bytes that were
/// offered.
pub proof fn law_write_is_told_in_full(
    write: &TcpStreamWrite,
    context: &mut TcpContext,
    waker: Waker,
    buf: &[u8],
    snd_buf: usize,
    call: WriteCall,
    later: &mut TcpContext,
    output: OutputCall,
    told: Result<usize, Error>,
)
    requires
        call_ensures(TcpContext::is_close, (&*old(context),), false),
        call_ensures(
            TcpStreamWrite::poll_write,
            (write, context, waker, buf, snd_buf),
            WriteStep::Write(call),
        ),
        call_ensures(WriteCall::written, (call, later, 0i8), WriteReply::Output(output)),
        call_ensures(OutputCall::output, (output, 0i8), told),
    ensures
        told matches Ok(n) && n > 0 && n <= buf@.len() && n <= snd_buf && (n == buf@.len() || n
            == snd_buf),
        *final(later) == *old(later),
{
}

/// What becomes of a write that lwIP answers with `err`: it goes on, waits for memory, or
/// fails with the code.
pub proof fn law_write_follows_the_answer(
    call: WriteCall,
    context: &mut TcpContext,
    err: i8,
    text: String,
    reply: WriteReply,
)
    requires
        call_ensures(code_text, (err,), text),
        call_ensures(WriteCall::written, (call, context, err), reply),
    ensures
        err == 0 <==> reply is Output,
        err == -1 <==> reply is Pending,
        reply matches WriteReply::Output(output) ==> output.to_write == call.to_write
            && *final(context) == *old(context),
        reply is Pending ==> {
            &&& final(context).pcb == old(context).pcb
            &&& final(context).read == old(context).read
            &&& final(context).write == old(context).write
            &&& final(context).tcp_args.watch() == old(context).tcp_args.watch()
            &&& final(context).tcp_args.queue() == old(context).tcp_args.queue()
            &&& final(context).tcp_args.waiting() == Some(call.waker)
        },
        reply matches WriteReply::Failed(error) ==> error.kind == ErrorKind::Interrupted
            && error.message@ == "netstack tcp_write error "@ + text@ && *final(context) == *old(
            context,
        ),
{
}

/// Sending succeeds exactly if lwIP answers without an error, both after a write and in a
/// flush; the failure tells the code.
pub proof fn law_sending_follows_the_answer(
    output: OutputCall,
    err: i8,
    text: String,
    told: Result<usize, Error>,
    flushed: Result<(), Error>,
)
    requires
        call_ensures(code_text, (err,), text),
        call_ensures(OutputCall::output, (output, err), told),
        call_ensures(TcpStreamWrite::flushed, (err,), flushed),
    ensures
        told is Ok <==> err == 0,
        told matches Ok(n) ==> n == output.to_write,
        told matches Err(error) ==> error.kind == ErrorKind::Interrupted && error.message@
            == "netstack tcp_output error "@ + text@,
        flushed is Ok <==> err == 0,
        flushed matches Err(error) ==> error.kind == ErrorKind::Interrupted && error.message@
            == "netstack tcp_output error "@ + text@,
{
}

/// A flush is refused exactly if the connection is closed.
pub proof fn law_flush_needs_a_connection(
    write: &TcpStreamWrite,
    context: &TcpContext,
    closed: bool,
    r: Result<(), Error>,
)
    requires
        call_ensures(TcpContext::is_close, (context,), closed),
        call_ensures(TcpStreamWrite::poll_flush, (write, context), r),
    ensures
        r is Err <==> closed,
        r matches Err(error) ==> error.kind == ErrorKind::UnexpectedEof && error.message@
            == "close"@,
{
}

/// Ending the writing shuts the sending side down, and only that one; it succeeds exactly
/// if lwIP answers without an error.
pub proof fn law_shutdown_is_of_the_sending_side(
    call: PcbCall,
    err: i8,
    text: String,
    r: Result<(), Error>,
)
    requires
        call_ensures(TcpStreamWrite::poll_shutdown, (), call),
        call_ensures(code_text, (err,), text),
        call_ensures(TcpStreamWrite::shut_down, (err,), r),
    ensures
        call matches PcbCall::Shutdown { rx, tx } && tx && !rx,
        r is Ok <==> err == 0,
        r matches Err(error) ==> error.kind == ErrorKind::Interrupted && error.message@
            == "netstack tcp_shutdown tx error "@ + text@,
{
}

} // verus!

//! Writing to a TCP connection.
use std::task::Waker;
use vstd::prelude::*;

use crate::addr::SocketAddr;
use crate::calls::PcbCall;
use crate::error::{Error, ErrorKind, ERR_MEM, ERR_OK};
use crate::read_item;
use crate::tcp_args::{TcpContext, ESTABLISHED};
use crate::tcp_read;

verus! {

/// `TCP_WRITE_FLAG_COPY`: lwIP copies the bytes that it is given.
pub const TCP_WRITE_FLAG_COPY: u8 = 1;

/// The half of a connection that writes.
pub struct TcpStreamWrite {
    src_addr: SocketAddr,
    dest_addr: SocketAddr,
}

/// What a writer is to do.
pub enum WriteStep {
    /// The connection is closed.
    Failed(Error),
    /// There is no room: the writer waits for it now.
    Pending,
    /// `tcp_write` is to be called.
    Write(WriteCall),
}

/// A call of `tcp_write` for the first `len` bytes of the writer's buffer.
pub struct WriteCall {
    pub len: u16,
    pub flags: u8,
    /// The number of bytes that the writer is told of in the end.
    pub to_write: usize,
    /// What wakes the writer, should it have to wait.
    pub waker: Waker,
}

/// What is to be done once `tcp_write` has answered.
pub enum WriteReply {
    /// `tcp_output` is to be called.
    Output(OutputCall),
    /// lwIP has no memory: the writer waits for it now.
    Pending,
    /// The bytes were not taken.
    Failed(Error),
}

/// A call of `tcp_output` after bytes were taken.
pub struct OutputCall {
    /// The number of bytes that the writer is told of.
    pub to_write: usize,
}

/// The number of bytes that a writer with `len` bytes offers when lwIP has room
/// for `snd_buf`.
pub open spec fn writable(len: nat, snd_buf: usize) -> int {
    read_item::min(len as int, snd_buf as int)
}

impl WriteCall {
    /// `tcp_write` has answered `err`.
    pub fn written(self, context: &mut TcpContext, err: i8) -> (r: WriteReply)
        ensures
            if err == ERR_OK {
                &&& r matches WriteReply::Output(call)
                &&& call.to_write == self.to_write
                &&& *final(context) == *old(context)
            } else if err == ERR_MEM {
                &&& r is Pending
                &&& final(context).keeps(*old(context))
                &&& final(context).tcp_args.parks(old(context).tcp_args, self.waker)
            } else {
                &&& r matches WriteReply::Failed(error)
                &&& error.says(
                    ErrorKind::Interrupted,
                    "netstack tcp_write error "@ + crate::error::decimal(err as int),
                )
                &&& *final(context) == *old(context)
            },
    {
        if err == ERR_OK {
            WriteReply::Output(OutputCall { to_write: self.to_write })
        } else if err == ERR_MEM {
            context.tcp_args.park(self.waker);
            WriteReply::Pending
        } else {
            WriteReply::Failed(
                Error::with_code(ErrorKind::Interrupted, "netstack tcp_write error ", err),
            )
        }
    }
}

impl OutputCall {
    /// `tcp_output` has answered `err`: what the writer is told.
    pub fn output(self, err: i8) -> (r: Result<usize, Error>)
        ensures
            match r {
                Ok(n) => err == ERR_OK && n == self.to_write,
                Err(error) => err != ERR_OK && error.says(
                    ErrorKind::Interrupted,
                    "netstack tcp_output error "@ + crate::error::decimal(err as int),
                ),
            },
    {
        if err == ERR_OK {
            Ok(self.to_write)
        } else {
            Err(Error::with_code(ErrorKind::Interrupted, "netstack tcp_output error ", err))
        }
    }
}

impl TcpStreamWrite {
    /// The writing half of a connection between two addresses.
    pub(crate) fn between(src_addr: SocketAddr, dest_addr: SocketAddr) -> (r: TcpStreamWrite)
        ensures
            r.spec_src_addr() == src_addr,
            r.spec_dest_addr() == dest_addr,
    {
        TcpStreamWrite { src_addr, dest_addr }
    }

    pub closed spec fn spec_src_addr(self) -> SocketAddr {
        self.src_addr
    }

    pub closed spec fn spec_dest_addr(self) -> SocketAddr {
        self.dest_addr
    }

    /// Where the data comes from.
    pub fn src_addr(&self) -> (r: SocketAddr)
        ensures
            r == self.spec_src_addr(),
    {
        self.src_addr
    }

    /// Where the data goes to.
    pub fn dest_addr(&self) -> (r: SocketAddr)
        ensures
            r == self.spec_dest_addr(),
    {
        self.dest_addr
    }

    /// Writes `buf` when lwIP has room for `snd_buf` bytes; without room the writer of
    /// `waker` waits. lwIP is given a length of 16 bits.
    pub fn poll_write(
        &self,
        context: &mut TcpContext,
        waker: Waker,
        buf: &[u8],
        snd_buf: usize,
    ) -> (r: WriteStep)
        ensures
            if old(context).tcp_args.state() != ESTABLISHED {
                &&& r matches WriteStep::Failed(error)
                &&& tcp_read::is_eof(error)
                &&& *final(context) == *old(context)
            } else if writable(buf@.len(), snd_buf) == 0 {
                &&& r is Pending
                &&& final(context).keeps(*old(context))
                &&& final(context).tcp_args.parks(old(context).tcp_args, waker)
            } else {
                &&& r matches WriteStep::Write(call)
                &&& call.to_write == writable(buf@.len(), snd_buf)
                &&& call.len == writable(buf@.len(), snd_buf) % 0x10000
                &&& call.flags == TCP_WRITE_FLAG_COPY
                &&& call.waker == waker
                &&& *final(context) == *old(context)
            },
    {
        if context.is_close() {
            return WriteStep::Failed(tcp_read::eof());
        }
        let len: usize = buf.len();
        let to_write: usize = if snd_buf < len { snd_buf } else { len };
        if to_write == 0 {
            context.tcp_args.park(waker);
            return WriteStep::Pending;
        }
        WriteStep::Write(
            WriteCall {
                len: (to_write % 0x10000) as u16,
                flags: TCP_WRITE_FLAG_COPY,
                to_write,
                waker,
            },
        )
    }

    /// Sends what was written: whether `tcp_output` is to be called.
    pub fn poll_flush(&self, context: &TcpContext) -> (r: Result<(), Error>)
        ensures
            match r {
                Ok(_) => context.tcp_args.state() == ESTABLISHED,
                Err(error) => context.tcp_args.state() != ESTABLISHED && tcp_read::is_eof(error),
            },
    {
        if context.is_close() {
            return Err(tcp_read::eof());
        }
        Ok(())
    }

    /// `tcp_output` has answered `err` to a flush.
    pub fn flushed(err: i8) -> (r: Result<(), Error>)
        ensures
            match r {
                Ok(_) => err == ERR_OK,
                Err(error) => err != ERR_OK && error.says(
                    ErrorKind::Interrupted,
                    "netstack tcp_output error "@ + crate::error::decimal(err as int),
                ),
            },
    {
        if err != ERR_OK {
            Err(Error::with_code(ErrorKind::Interrupted, "netstack tcp_output error ", err))
        } else {
            Ok(())
        }
    }

    /// Ends the writing: the call that is due.
    pub fn poll_shutdown() -> (r: PcbCall)
        ensures
            r == (PcbCall::Shutdown { rx: false, tx: true }),
    {
        PcbCall::Shutdown { rx: false, tx: true }
    }

    /// `tcp_shutdown` has answered `err`.
    pub fn shut_down(err: i8) -> (r: Result<(), Error>)
        ensures
            match r {
                Ok(_) => err == ERR_OK,
                Err(error) => err != ERR_OK && error.says(
                    ErrorKind::Interrupted,
                    "netstack tcp_shutdown tx error "@ + crate::error::decimal(err as int),
                ),
            },
    {
        if err != ERR_OK {
            Err(Error::with_code(ErrorKind::Interrupted, "netstack tcp_shutdown tx error ", err))
        } else {
            Ok(())
        }
    }
}

/// Where lwIP has room for up to 65535 bytes, it is given as many bytes as the writer
/// is told of, they are a part of the writer's data, and they fit.
pub proof fn law_write_is_reported(data: Seq<u8>, snd_buf: usize, call: WriteCall)
    requires
        snd_buf <= 0xffff,
        call.to_write == writable(data.len(), snd_buf),
        call.len == writable(data.len(), snd_buf) % 0x10000,
    ensures
        call.len == call.to_write,
        call.len <= data.len(),
        call.len <= snd_buf,
{
}

} // verus!

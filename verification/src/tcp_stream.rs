//! TCP connections.
use tokio::sync::watch;
use vstd::prelude::*;

use crate::addr::SocketAddr;
use crate::calls;
use crate::calls::PcbCall;
use crate::sync;
use crate::tcp_args::{TcpArgs, TcpContext, ESTABLISHED, READ_QUEUE};
use crate::tcp_read::{ReadPoll, TcpStreamRead};
use crate::tcp_write::TcpStreamWrite;

verus! {

/// Both halves of a connection.
pub struct TcpStream {
    write: TcpStreamWrite,
    read: TcpStreamRead,
}

impl TcpStream {
    pub closed spec fn spec_write(self) -> TcpStreamWrite {
        self.write
    }

    pub closed spec fn spec_read(self) -> TcpStreamRead {
        self.read
    }

    /// A connection between `src_addr` and `dest_addr` from which nothing was read.
    pub open spec fn fresh(self, src_addr: SocketAddr, dest_addr: SocketAddr) -> bool {
        &&& self.spec_write().spec_src_addr() == src_addr
        &&& self.spec_write().spec_dest_addr() == dest_addr
        &&& self.spec_read().wf()
        &&& self.spec_read().queue().is_new()
        &&& self.spec_read().pending() is None
    }

    /// The reading half gets what the callbacks that work on `args` receive.
    pub open spec fn reads_from(self, args: TcpArgs) -> bool {
        args.queue().joins(self.spec_read().queue())
    }

    /// A connection in the state that `state_sender` holds.
    pub(crate) fn with_state(
        pcb: usize,
        state_sender: watch::Sender<usize>,
        src_addr: SocketAddr,
        dest_addr: SocketAddr,
    ) -> (r: (TcpStream, TcpContext))
        ensures
            r.0.fresh(src_addr, dest_addr),
            r.0.reads_from(r.1.tcp_args),
            r.1.pcb == pcb,
            r.1.read && r.1.write,
            r.1.tcp_args.idle(),
            r.1.tcp_args.watch() == sync::watch_sender(state_sender),
    {
        let (buf_sender, buf_receiver) = sync::read_channel(READ_QUEUE);
        let write = TcpStreamWrite::between(src_addr, dest_addr);
        let read = TcpStreamRead::over(buf_receiver);
        let tcp_args = TcpArgs::new(buf_sender, state_sender);
        (TcpStream { write, read }, TcpContext::of(pcb, tcp_args))
    }

    /// The connection that lwIP accepted on `pcb`, between `remote` and `local`.
    /// Nobody hears of a new state of it.
    pub fn new(pcb: usize, remote: SocketAddr, local: SocketAddr) -> (r: (TcpStream, TcpContext))
        ensures
            r.0.fresh(remote, local),
            r.0.reads_from(r.1.tcp_args),
            r.1.pcb == pcb,
            r.1.read && r.1.write,
            r.1.tcp_args.fresh(ESTABLISHED),
            r.1.tcp_args.watch().unwatched,
    {
        TcpStream::with_state(pcb, sync::watch_alone(ESTABLISHED), remote, local)
    }

    /// The calls that register the callbacks of an accepted connection.
    pub fn attach() -> (r: Vec<PcbCall>)
        ensures
            r@ == calls::attach_calls(),
    {
        vec![
            PcbCall::Arg(true),
            PcbCall::OnErr(true),
            PcbCall::OnRecv(true),
            PcbCall::OnSent(true),
            PcbCall::Tune,
        ]
    }

    /// Both halves of the connection.
    pub fn into_split(self) -> (r: (TcpStreamWrite, TcpStreamRead))
        ensures
            r.0 == self.spec_write(),
            r.1 == self.spec_read(),
    {
        (self.write, self.read)
    }

    /// Where the data comes from.
    pub fn src_addr(&self) -> (r: SocketAddr)
        ensures
            r == self.spec_write().spec_src_addr(),
    {
        self.write.src_addr()
    }

    /// Where the data goes to.
    pub fn dest_addr(&self) -> (r: SocketAddr)
        ensures
            r == self.spec_write().spec_dest_addr(),
    {
        self.write.dest_addr()
    }
}

/// A read from a new connection, while lwIP has received nothing and the sender of the
/// connection is left, finds nothing yet: it neither fails nor touches the buffer.
pub proof fn law_new_connection_waits_for_data(
    stream: TcpStream,
    src_addr: SocketAddr,
    dest_addr: SocketAddr,
    args: TcpArgs,
    after: TcpStreamRead,
    filled: int,
    capacity: int,
    old_buf: Seq<u8>,
    new_buf: Seq<u8>,
    r: ReadPoll,
)
    requires
        stream.fresh(src_addr, dest_addr),
        stream.reads_from(args),
        args.fresh(ESTABLISHED),
        after.poll_reads(
            stream.spec_read(),
            args.state(),
            filled,
            capacity,
            old_buf,
            new_buf,
            r,
        ),
        after.queue().sent <= sync::accepted(args.queue().offers).len(),
        !after.queue().gone,
    ensures
        r is Pending,
        new_buf == old_buf,
        after.pending() is None,
{
    let before = stream.spec_read().queue();
    let answer = after.polls().last();
    sync::lemma_items_push(before.polls, answer);
    assert(after.polls()[after.polls().len() - 1] == answer);
}

/// The room that lwIP is told to have for a connection.
pub const SND_BUF: u32 = 65535;

/// `SOF_KEEPALIVE`: a connection without traffic is probed.
pub const SOF_KEEPALIVE: u8 = 0x08;

/// `TF_NODELAY`: small segments are not held back.
pub const TF_NODELAY: u16 = 0x40;

/// The fields of a control block that are tuned.
#[derive(Clone, Copy, Debug, PartialEq, Eq, Structural)]
pub struct PcbOptions {
    pub snd_buf: u32,
    pub so_options: u8,
    pub flags: u16,
}

impl PcbOptions {
    /// The options of a connection: full room, keep-alive, no delay; every other
    /// option stays.
    pub fn tuned(self) -> (r: PcbOptions)
        ensures
            r.snd_buf == SND_BUF,
            r.so_options == self.so_options | SOF_KEEPALIVE,
            r.flags == self.flags | TF_NODELAY,
    {
        PcbOptions {
            snd_buf: SND_BUF,
            so_options: self.so_options | SOF_KEEPALIVE,
            flags: self.flags | TF_NODELAY,
        }
    }
}

/// Tuning sets what it sets, keeps every other option, and changes nothing when it is
/// done again.
pub proof fn law_tuning_keeps_other_options(so_options: u8, flags: u16)
    ensures
        (so_options | SOF_KEEPALIVE) & SOF_KEEPALIVE == SOF_KEEPALIVE,
        (so_options | SOF_KEEPALIVE) & !SOF_KEEPALIVE == so_options & !SOF_KEEPALIVE,
        (so_options | SOF_KEEPALIVE) | SOF_KEEPALIVE == so_options | SOF_KEEPALIVE,
        (flags | TF_NODELAY) & TF_NODELAY == TF_NODELAY,
        (flags | TF_NODELAY) & !TF_NODELAY == flags & !TF_NODELAY,
        (flags | TF_NODELAY) | TF_NODELAY == flags | TF_NODELAY,
{
    assert((so_options | 0x08) & 0x08 == 0x08) by (bit_vector);
    assert((so_options | 0x08) & !0x08u8 == so_options & !0x08u8) by (bit_vector);
    assert((so_options | 0x08) | 0x08 == so_options | 0x08) by (bit_vector);
    assert((flags | 0x40) & 0x40 == 0x40) by (bit_vector);
    assert((flags | 0x40) & !0x40u16 == flags & !0x40u16) by (bit_vector);
    assert((flags | 0x40) | 0x40 == flags | 0x40) by (bit_vector);
}

} // verus!

//! Opening a connection, step by step: each step says what lwIP is to be called
//! with, and takes its answer.
use tokio::sync::watch;
use vstd::prelude::*;

use crate::addr::SocketAddr;
use crate::calls;
use crate::calls::{BindCall, PcbCall};
use crate::error::{Error, ErrorKind, ERR_OK};
use crate::sync;
use crate::sync::WatchedView;
use crate::tcp_args::{TcpArgs, TcpContext, CLOSE, SYN_SENT};
use crate::tcp_stream::TcpStream;

verus! {

/// `tcp_new` is to be called.
pub struct Connecting {
    pub state_sender: watch::Sender<usize>,
    pub state_receiver: watch::Receiver<usize>,
    pub src_addr: SocketAddr,
    pub dest_addr: SocketAddr,
}

/// `tcp_bind` is to be called for `pcb`.
pub struct Binding {
    pub pcb: usize,
    pub bind: BindCall,
    pub state_sender: watch::Sender<usize>,
    pub state_receiver: watch::Receiver<usize>,
    pub src_addr: SocketAddr,
    pub dest_addr: SocketAddr,
}

/// `tcp_connect` is to be called for the destination of `stream`.
pub struct Dialing {
    pub stream: TcpStream,
    pub state_receiver: watch::Receiver<usize>,
}

/// The first new state of the connection is waited for, up to a time limit.
/// `state_receiver` tells of it.
pub struct Waiting {
    pub stream: TcpStream,
    pub state_receiver: watch::Receiver<usize>,
}

/// A connection that could not be opened. What it holds is to be given up.
pub struct Refused {
    pub error: Error,
    pub stream: TcpStream,
}

/// How the waiting for a new state ended.
#[derive(Clone, Copy, Debug, PartialEq, Eq, Structural)]
pub enum Wait {
    /// There is a new state.
    Changed,
    /// There will be none: the connection was freed.
    Gone,
    /// The time is over.
    TimedOut,
}

/// Why an answer of `tcp_new` is an error.
pub open spec fn new_error(pcb: usize) -> Option<(ErrorKind, Seq<char>)> {
    if pcb == 0 {
        Some((ErrorKind::Other, "tcp_new failed: is_null"@))
    } else {
        None
    }
}

/// Why an answer of `tcp_bind` is an error; `src` is the source address in words.
pub open spec fn bind_error(err: i8, src: Seq<char>) -> Option<(ErrorKind, Seq<char>)> {
    if err != ERR_OK {
        Some(
            (
                ErrorKind::Other,
                "bind TCP failed: "@ + src + " "@ + crate::error::decimal(err as int),
            ),
        )
    } else {
        None
    }
}

/// Why an answer of `tcp_connect` is an error.
pub open spec fn dial_error(err: i8) -> Option<(ErrorKind, Seq<char>)> {
    if err != ERR_OK {
        Some((ErrorKind::Other, "listen TCP failed: "@ + crate::error::decimal(err as int)))
    } else {
        None
    }
}

/// Why the end of the waiting is an error; `state` is the state that was seen.
pub open spec fn wait_error(wait: Wait, state: usize) -> Option<(ErrorKind, Seq<char>)> {
    match wait {
        Wait::TimedOut => Some((ErrorKind::TimedOut, "TimedOut"@)),
        Wait::Gone => Some((ErrorKind::ConnectionRefused, "ConnectionRefused"@)),
        Wait::Changed => if state == CLOSE {
            Some((ErrorKind::ConnectionRefused, "ConnectionRefused"@))
        } else {
            None
        },
    }
}

/// Why a connection cannot be opened: the first error on the way.
pub open spec fn connect_error(
    pcb: usize,
    bound: i8,
    src: Seq<char>,
    dialed: i8,
    wait: Wait,
    state: usize,
) -> Option<(ErrorKind, Seq<char>)> {
    if new_error(pcb) is Some {
        new_error(pcb)
    } else if bind_error(bound, src) is Some {
        bind_error(bound, src)
    } else if dial_error(dialed) is Some {
        dial_error(dialed)
    } else {
        wait_error(wait, state)
    }
}

impl TcpStream {
    /// Starts to open a connection from `src_addr` to `dest_addr`.
    pub fn connect(src_addr: SocketAddr, dest_addr: SocketAddr) -> (r: Connecting)
        ensures
            r.src_addr == src_addr,
            r.dest_addr == dest_addr,
            sync::watch_sender(r.state_sender).is_new(SYN_SENT),
            !sync::watch_sender(r.state_sender).unwatched,
            sync::watch_receiver(r.state_receiver).is_new(),
            sync::watch_receiver(r.state_receiver).held == sync::watch_sender(
                r.state_sender,
            ).held,
    {
        let (state_sender, state_receiver) = sync::watch_channel(SYN_SENT);
        Connecting { state_sender, state_receiver, src_addr, dest_addr }
    }
}

impl Connecting {
    /// `tcp_new` has answered `pcb`.
    pub fn created(self, pcb: usize) -> (r: Result<Binding, Error>)
        ensures
            match r {
                Ok(next) => {
                    &&& new_error(pcb) is None
                    &&& next.pcb == pcb
                    &&& next.bind.addr == Some(self.src_addr.spec_ip())
                    &&& next.bind.port == self.src_addr.spec_port()
                    &&& next.state_sender == self.state_sender
                    &&& next.state_receiver == self.state_receiver
                    &&& next.src_addr == self.src_addr
                    &&& next.dest_addr == self.dest_addr
                },
                Err(error) => new_error(pcb) == Some((error.kind, error.message@)),
            },
    {
        if pcb == 0 {
            return Err(Error::new(ErrorKind::Other, "tcp_new failed: is_null"));
        }
        Ok(
            Binding {
                pcb,
                bind: BindCall::to(&self.src_addr),
                state_sender: self.state_sender,
                state_receiver: self.state_receiver,
                src_addr: self.src_addr,
                dest_addr: self.dest_addr,
            },
        )
    }
}

impl Binding {
    /// `tcp_bind` has answered `err`. The connection then has the source address
    /// `local`; `src` is the one that was asked for, in words.
    pub fn bound(self, err: i8, src: &str, local: SocketAddr) -> (r: Result<
        (Dialing, TcpContext),
        Error,
    >)
        ensures
            match r {
                Ok((next, context)) => {
                    &&& bind_error(err, src@) is None
                    &&& next.stream.fresh(local, self.dest_addr)
                    &&& next.stream.reads_from(context.tcp_args)
                    &&& next.state_receiver == self.state_receiver
                    &&& context.pcb == self.pcb
                    &&& context.read && context.write
                    &&& context.tcp_args.idle()
                    &&& context.tcp_args.watch() == sync::watch_sender(self.state_sender)
                },
                Err(error) => bind_error(err, src@) == Some((error.kind, error.message@)),
            },
    {
        if err != ERR_OK {
            let mut what = "bind TCP failed: ".to_owned();
            what.append(src);
            what.append(" ");
            return Err(Error::with_code(ErrorKind::Other, what.as_str(), err));
        }
        let (stream, context) = TcpStream::with_state(
            self.pcb,
            self.state_sender,
            local,
            self.dest_addr,
        );
        Ok((Dialing { stream, state_receiver: self.state_receiver }, context))
    }
}

impl Dialing {
    /// The calls before `tcp_connect`.
    pub fn prepare() -> (r: Vec<PcbCall>)
        ensures
            r@ == calls::dial_calls(),
    {
        vec![PcbCall::Arg(true), PcbCall::OnErr(true)]
    }

    /// `tcp_connect` has answered `err`.
    pub fn dialed(self, err: i8) -> (r: Result<Waiting, Refused>)
        ensures
            match r {
                Ok(next) => {
                    &&& dial_error(err) is None
                    &&& next.stream == self.stream
                    &&& next.state_receiver == self.state_receiver
                },
                Err(refused) => {
                    &&& dial_error(err) == Some((refused.error.kind, refused.error.message@))
                    &&& refused.stream == self.stream
                },
            },
    {
        if err != ERR_OK {
            let error = Error::with_code(ErrorKind::Other, "listen TCP failed: ", err);
            return Err(Refused { error, stream: self.stream });
        }
        Ok(Waiting { stream: self.stream, state_receiver: self.state_receiver })
    }
}

impl Waiting {
    /// The calls after `tcp_connect`.
    pub fn complete() -> (r: Vec<PcbCall>)
        ensures
            r@ == calls::dialed_calls(),
    {
        vec![PcbCall::OnRecv(true), PcbCall::OnSent(true), PcbCall::Tune]
    }

    /// The waiting is over, with `state` as the state that was seen.
    pub fn outcome(wait: Wait, state: usize) -> (r: Result<(), Error>)
        ensures
            match r {
                Ok(_) => wait_error(wait, state) is None,
                Err(error) => wait_error(wait, state) == Some((error.kind, error.message@)),
            },
    {
        match wait {
            Wait::TimedOut => Err(Error::new(ErrorKind::TimedOut, "TimedOut")),
            Wait::Gone => Err(Error::new(ErrorKind::ConnectionRefused, "ConnectionRefused")),
            Wait::Changed => if state == CLOSE {
                Err(Error::new(ErrorKind::ConnectionRefused, "ConnectionRefused"))
            } else {
                Ok(())
            },
        }
    }

    /// What is known of the announcements of the connection's state.
    pub open spec fn watch(self) -> WatchedView {
        sync::watch_receiver(self.state_receiver)
    }

    /// The announcements are those of the callbacks that work on `args`.
    pub open spec fn hears(self, args: TcpArgs) -> bool {
        self.watch().held == args.watch().held
    }

    /// Since `before`, the waiting ended with `wait` and came to `r`. Only where there is
    /// a new state is it looked at, and it decides.
    pub open spec fn settles(self, before: Waiting, wait: Wait, r: Result<(), Error>) -> bool {
        let state = self.watch().seen.last();
        &&& self.stream == before.stream
        &&& if wait == Wait::Changed {
            self.watch().looked(before.watch(), state)
        } else {
            self.state_receiver == before.state_receiver
        }
        &&& match r {
            Ok(_) => wait_error(wait, state) is None,
            Err(error) => wait_error(wait, state) == Some((error.kind, error.message@)),
        }
    }

    /// The waiting is over: whether the connection is open. Where there is a new state,
    /// it is looked at now. A connection that is not open is to be given up.
    pub fn settled(&mut self, wait: Wait) -> (r: Result<(), Error>)
        ensures
            final(self).settles(*old(self), wait, r),
    {
        let state: usize = match wait {
            Wait::Changed => sync::watch_seen(&mut self.state_receiver),
            _ => SYN_SENT,
        };
        Waiting::outcome(wait, state)
    }
}

/// A connect comes to what the callbacks announce: while somebody listens, an announced
/// state is the one that is looked at, until the next one, and the connection is open
/// unless it says that it is closed.
pub proof fn law_connect_hears_the_callbacks(
    earlier: TcpArgs,
    args: TcpArgs,
    state: usize,
    before: Waiting,
    after: Waiting,
    r: Result<(), Error>,
)
    requires
        args.announces(earlier, state),
        !args.watch().unwatched,
        before.hears(args),
        after.settles(before, Wait::Changed, r),
        after.watch().at == args.watch().number,
    ensures
        args.state() == state,
        r is Ok <==> state != CLOSE,
        r matches Err(error) ==> error.says(
            ErrorKind::ConnectionRefused,
            "ConnectionRefused"@,
        ),
{
}

/// A connection is opened exactly if lwIP made a control block, bound it, sent the
/// request, and reported within the time that the connection is not closed. Any
/// error before that is of the kind `Other`; one after it tells a connection that
/// was refused from one that took too long.
pub proof fn law_connect(
    pcb: usize,
    bound: i8,
    src: Seq<char>,
    dialed: i8,
    wait: Wait,
    state: usize,
)
    ensures
        ({
            let asked = pcb != 0 && bound == ERR_OK && dialed == ERR_OK;
            let error = connect_error(pcb, bound, src, dialed, wait, state);
            &&& error is None <==> asked && wait == Wait::Changed && state != CLOSE
            &&& (error is Some && (error->0).0 == ErrorKind::Other) <==> !asked
            &&& (error is Some && (error->0).0 == ErrorKind::TimedOut) <==> asked && wait
                == Wait::TimedOut
            &&& (error is Some && (error->0).0 == ErrorKind::ConnectionRefused) <==> asked && (wait
                == Wait::Gone || wait == Wait::Changed && state == CLOSE)
        }),
{
}

} // verus!

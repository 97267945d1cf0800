//! The calls that set up and tear down a connection in lwIP, and what they leave
//! registered.
use vstd::prelude::*;

use crate::addr::{IpAddr, SocketAddr};

verus! {

/// A call on a TCP control block. A flag says whether something is registered
/// (`true`) or taken back (`false`).
#[derive(Clone, Copy, Debug, PartialEq, Eq, Structural)]
pub enum PcbCall {
    /// `tcp_arg`: what the callbacks work on.
    Arg(bool),
    /// `tcp_recv`
    OnRecv(bool),
    /// `tcp_sent`
    OnSent(bool),
    /// `tcp_err`
    OnErr(bool),
    /// `tcp_poll`
    OnPoll(bool),
    /// `tcp_accept`
    OnAccept(bool),
    /// The options of the control block are tuned.
    Tune,
    /// `tcp_shutdown`
    Shutdown { rx: bool, tx: bool },
    /// `tcp_close`
    Close,
}

/// What a control block is bound to.
#[derive(Clone, Copy, Debug, PartialEq, Eq, Structural)]
pub struct BindCall {
    /// The address; none stands for any address, of either kind.
    pub addr: Option<IpAddr>,
    /// The port; 0 lets lwIP choose one.
    pub port: u16,
}

impl BindCall {
    /// Any address, and a port of lwIP's choice.
    pub open spec fn is_any(self) -> bool {
        &&& self.addr is None
        &&& self.port == 0
    }

    /// Any address, and a port of lwIP's choice.
    pub fn any() -> (r: BindCall)
        ensures
            r.is_any(),
    {
        BindCall { addr: None, port: 0 }
    }

    /// The given address and its port.
    pub fn to(addr: &SocketAddr) -> (r: BindCall)
        ensures
            r.addr == Some(addr.spec_ip()),
            r.port == addr.spec_port(),
    {
        BindCall { addr: Some(addr.ip()), port: addr.port() }
    }
}

/// What is registered with a control block.
pub struct Hooks {
    pub arg: bool,
    pub recv: bool,
    pub sent: bool,
    pub err: bool,
    pub poll: bool,
    pub accept: bool,
}

impl Hooks {
    /// Nothing is registered.
    pub open spec fn none() -> Hooks {
        Hooks { arg: false, recv: false, sent: false, err: false, poll: false, accept: false }
    }

    /// What is registered after one call.
    pub open spec fn after(self, call: PcbCall) -> Hooks {
        match call {
            PcbCall::Arg(on) => Hooks { arg: on, ..self },
            PcbCall::OnRecv(on) => Hooks { recv: on, ..self },
            PcbCall::OnSent(on) => Hooks { sent: on, ..self },
            PcbCall::OnErr(on) => Hooks { err: on, ..self },
            PcbCall::OnPoll(on) => Hooks { poll: on, ..self },
            PcbCall::OnAccept(on) => Hooks { accept: on, ..self },
            _ => self,
        }
    }

    /// What is registered after some calls in a row.
    pub open spec fn after_all(self, calls: Seq<PcbCall>) -> Hooks
        decreases calls.len(),
    {
        if calls.len() == 0 {
            self
        } else {
            self.after_all(calls.drop_last()).after(calls.last())
        }
    }
}

/// The calls for a connection that another side opened.
pub open spec fn attach_calls() -> Seq<PcbCall> {
    seq![
        PcbCall::Arg(true),
        PcbCall::OnErr(true),
        PcbCall::OnRecv(true),
        PcbCall::OnSent(true),
        PcbCall::Tune,
    ]
}

/// The calls before a connection is asked for.
pub open spec fn dial_calls() -> Seq<PcbCall> {
    seq![PcbCall::Arg(true), PcbCall::OnErr(true)]
}

/// The calls after a connection was asked for.
pub open spec fn dialed_calls() -> Seq<PcbCall> {
    seq![PcbCall::OnRecv(true), PcbCall::OnSent(true), PcbCall::Tune]
}

/// The calls when the last half of a connection is gone.
pub open spec fn detach_calls() -> Seq<PcbCall> {
    seq![
        PcbCall::Arg(false),
        PcbCall::OnRecv(false),
        PcbCall::OnSent(false),
        PcbCall::OnErr(false),
        PcbCall::OnPoll(false),
    ]
}

/// The calls when the reading half (`rx`) or the writing half of a connection is gone;
/// with the last half, everything is taken back.
pub open spec fn leave_calls(rx: bool, last: bool) -> Seq<PcbCall> {
    let shutdown = seq![PcbCall::Shutdown { rx, tx: !rx }];
    if last {
        shutdown + detach_calls()
    } else {
        shutdown
    }
}

/// The calls for a control block that listens.
pub open spec fn listen_calls() -> Seq<PcbCall> {
    seq![PcbCall::Arg(true), PcbCall::OnAccept(true)]
}

/// The calls when a listener is gone.
pub open spec fn unlisten_calls() -> Seq<PcbCall> {
    seq![PcbCall::Arg(false), PcbCall::OnAccept(false), PcbCall::Close]
}

/// Unfolds seven calls or fewer.
proof fn lemma_after_all(hooks: Hooks, calls: Seq<PcbCall>)
    ensures
        calls.len() == 1 ==> hooks.after_all(calls) == hooks.after(calls[0]),
        calls.len() == 2 ==> hooks.after_all(calls) == hooks.after(calls[0]).after(calls[1]),
        calls.len() == 3 ==> hooks.after_all(calls) == hooks.after(calls[0]).after(calls[1]).after(
            calls[2],
        ),
        calls.len() == 5 ==> hooks.after_all(calls) == hooks.after(calls[0]).after(calls[1]).after(
            calls[2],
        ).after(calls[3]).after(calls[4]),
        calls.len() == 7 ==> hooks.after_all(calls) == hooks.after(calls[0]).after(calls[1]).after(
            calls[2],
        ).after(calls[3]).after(calls[4]).after(calls[5]).after(calls[6]),
{
    reveal_with_fuel(Hooks::after_all, 8);
}

/// Whatever was registered with a connection, nothing but a listener's callback
/// is left once its last half is gone: no callback can reach what was freed.
pub proof fn law_detach_leaves_nothing(hooks: Hooks)
    ensures
        hooks.after_all(detach_calls()) == (Hooks { accept: hooks.accept, ..Hooks::none() }),
{
    lemma_after_all(hooks, detach_calls());
}

/// A connection whose halves go, in either order, is told so for each side. While one
/// half is left, everything stays registered; with the last one nothing of the
/// connection does. The control block itself is not closed by it.
pub proof fn law_connection_is_left(hooks: Hooks, rx_first: bool)
    ensures
        ({
            let first = leave_calls(rx_first, false);
            let second = leave_calls(!rx_first, true);
            &&& first.contains(PcbCall::Shutdown { rx: rx_first, tx: !rx_first })
            &&& second.contains(PcbCall::Shutdown { rx: !rx_first, tx: rx_first })
            &&& hooks.after_all(first) == hooks
            &&& hooks.after_all(first + second) == (Hooks {
                accept: hooks.accept,
                ..Hooks::none()
            })
            &&& !(first + second).contains(PcbCall::Close)
        }),
{
    let first = leave_calls(rx_first, false);
    let second = leave_calls(!rx_first, true);
    assert(first[0] == PcbCall::Shutdown { rx: rx_first, tx: !rx_first });
    assert(second[0] == PcbCall::Shutdown { rx: !rx_first, tx: rx_first });
    lemma_after_all(hooks, first);
    lemma_after_all(hooks, first + second);
}

/// Nothing is left registered with a listener that had only its own callback.
pub proof fn law_unlisten_leaves_nothing(hooks: Hooks)
    ensures
        hooks.after_all(unlisten_calls()) == (Hooks { arg: false, accept: false, ..hooks }),
        Hooks::none().after_all(listen_calls()).after_all(unlisten_calls()) == Hooks::none(),
{
    lemma_after_all(hooks, unlisten_calls());
    lemma_after_all(Hooks::none(), listen_calls());
    lemma_after_all(Hooks::none().after_all(listen_calls()), unlisten_calls());
}

/// A connection that was asked for and one that another side opened end up with
/// the same registrations.
pub proof fn law_both_sides_register_the_same(hooks: Hooks)
    ensures
        hooks.after_all(dial_calls()).after_all(dialed_calls()) == hooks.after_all(attach_calls()),
        hooks.after_all(attach_calls()) == (Hooks {
            arg: true,
            err: true,
            recv: true,
            sent: true,
            ..hooks
        }),
{
    lemma_after_all(hooks, dial_calls());
    lemma_after_all(hooks.after_all(dial_calls()), dialed_calls());
    lemma_after_all(hooks, attach_calls());
}

} // verus!

//! Server-side control: the connection acceptor and the per-connection
//! session, as event-driven state machines.
//!
//! The shell binds the listening endpoint, blocks on the transport, and feeds
//! each outcome to these machines; they decide what is dispatched, what is
//! skipped, and what ends. Failures are contained at their level: a bad
//! handshake never ends the acceptor, a stream-accept failure ends only its
//! own session, and an unreachable target ends only its own stream.

use vstd::prelude::*;

use crate::errors::TunnelError;
use crate::forward::{Forwarder, Policy};

verus! {

/// The outcome of blocking for one inbound connection attempt.
#[derive(Clone, Copy, PartialEq, Eq, Structural, Debug)]
pub enum AcceptEvent {
    /// An attempt failed at the handshake stage.
    HandshakeFailed,
    /// An attempt produced an established connection.
    Established,
    /// The transport reported the listening endpoint itself closed.
    EndpointClosed,
}

/// What the acceptor tells the shell to do next.
#[derive(Clone, Copy, PartialEq, Eq, Structural, Debug)]
pub enum AcceptAction {
    /// Log the failed attempt and keep accepting.
    Skip {
        /// What to log: the handshake failure, scoped to that one attempt.
        log: TunnelError,
    },
    /// Dispatch the connection to an independently scheduled session and
    /// keep accepting at once.
    DispatchSession,
    /// The listening endpoint is gone: the accept loop ends.
    Stop,
}

/// The connection acceptor: owns the listening identity and accepts
/// connections until the endpoint closes.
pub struct Acceptor {
    /// Whether the accept loop still runs.
    pub running: bool,
    /// How many sessions were dispatched so far.
    pub sessions: Ghost<nat>,
}

/// The acceptor's state after one event.
pub open spec fn acceptor_after(s: Acceptor, ev: AcceptEvent) -> Acceptor {
    match ev {
        AcceptEvent::HandshakeFailed => s,
        AcceptEvent::Established => Acceptor {
            running: s.running,
            sessions: Ghost(s.sessions@ + 1),
        },
        AcceptEvent::EndpointClosed => Acceptor { running: false, sessions: s.sessions },
    }
}

/// The action the acceptor takes on one event.
pub open spec fn acceptor_action(s: Acceptor, ev: AcceptEvent) -> AcceptAction {
    match ev {
        AcceptEvent::HandshakeFailed => AcceptAction::Skip { log: TunnelError::Handshake },
        AcceptEvent::Established => AcceptAction::DispatchSession,
        AcceptEvent::EndpointClosed => AcceptAction::Stop,
    }
}

impl Acceptor {
    /// React to one accept outcome.
    pub fn on_event(&mut self, ev: AcceptEvent) -> (act: AcceptAction)
        requires
            old(self).running,
        ensures
            *final(self) == acceptor_after(*old(self), ev),
            act == acceptor_action(*old(self), ev),
    {
        match ev {
            AcceptEvent::HandshakeFailed => AcceptAction::Skip { log: TunnelError::Handshake },
            AcceptEvent::Established => {
                proof {
                    self.sessions@ = self.sessions@ + 1;
                }
                AcceptAction::DispatchSession
            },
            AcceptEvent::EndpointClosed => {
                self.running = false;
                AcceptAction::Stop
            },
        }
    }
}

/// The acceptor exists only once the listening endpoint is bound; a bind
/// failure is fatal and the only way `serve` returns.
pub fn after_bind(bound: bool) -> (r: Result<Acceptor, TunnelError>)
    ensures
        bound ==> (r matches Ok(a) && a.running && a.sessions@ == 0),
        !bound ==> (r matches Err(e) && e is Bind),
{
    if bound {
        Ok(Acceptor { running: true, sessions: Ghost(0) })
    } else {
        Err(TunnelError::Bind)
    }
}

/// A failed handshake is logged and skipped: it leaves the acceptor exactly
/// as it was, still running, so an immediately following valid connection is
/// dispatched to a session just as it would have been without the failure.
pub proof fn lemma_handshake_failure_isolated(s: Acceptor)
    requires
        s.running,
    ensures
        acceptor_after(s, AcceptEvent::HandshakeFailed) == s,
        acceptor_after(s, AcceptEvent::HandshakeFailed).running,
        acceptor_action(
            acceptor_after(s, AcceptEvent::HandshakeFailed),
            AcceptEvent::Established,
        ) is DispatchSession,
        acceptor_after(
            acceptor_after(s, AcceptEvent::HandshakeFailed),
            AcceptEvent::Established,
        ).sessions@ == s.sessions@ + 1,
{
}

/// The outcome of blocking for one further stream on a connection.
#[derive(Clone, Copy, PartialEq, Eq, Structural, Debug)]
pub enum SessionEvent {
    /// The connection yielded a new bidirectional stream.
    StreamAccepted,
    /// The connection closed in an orderly way: no further streams will
    /// arrive.
    Closed,
    /// Accepting a further stream failed with a transport error: the
    /// connection is gone.
    AcceptFailed,
}

/// What the session tells the shell to do next.
#[derive(Clone, Copy, PartialEq, Eq, Structural, Debug)]
pub enum SessionAction {
    /// Dispatch the stream to an independently scheduled forwarding unit and
    /// keep accepting streams at once.
    DispatchForwarder,
    /// The session's accept loop ends. Already-dispatched forwarding units
    /// run on to completion; nothing cancels them.
    EndSession {
        /// What to log: the stream-accept failure that ended this session
        /// and nothing else, or nothing on an orderly close.
        log: Option<TunnelError>,
    },
}

/// One accepted connection's session: accepts its streams in a loop and
/// dispatches each to its own forwarding unit.
pub struct Session {
    /// Whether the stream-accept loop still runs.
    pub active: bool,
    /// How many forwarding units were dispatched so far.
    pub dispatched: Ghost<nat>,
}

/// The session's state after one event.
pub open spec fn session_after(s: Session, ev: SessionEvent) -> Session {
    match ev {
        SessionEvent::StreamAccepted => Session {
            active: s.active,
            dispatched: Ghost(s.dispatched@ + 1),
        },
        SessionEvent::Closed => Session { active: false, dispatched: s.dispatched },
        SessionEvent::AcceptFailed => Session { active: false, dispatched: s.dispatched },
    }
}

/// The action the session takes on one event.
pub open spec fn session_action(s: Session, ev: SessionEvent) -> SessionAction {
    match ev {
        SessionEvent::StreamAccepted => SessionAction::DispatchForwarder,
        SessionEvent::Closed => SessionAction::EndSession { log: None },
        SessionEvent::AcceptFailed => SessionAction::EndSession {
            log: Some(TunnelError::StreamAccept),
        },
    }
}

impl Session {
    /// The session owning one freshly accepted connection.
    pub fn new() -> (s: Session)
        ensures
            s.active,
            s.dispatched@ == 0,
    {
        Session { active: true, dispatched: Ghost(0) }
    }

    /// React to one stream-accept outcome.
    pub fn on_event(&mut self, ev: SessionEvent) -> (act: SessionAction)
        requires
            old(self).active,
        ensures
            *final(self) == session_after(*old(self), ev),
            act == session_action(*old(self), ev),
    {
        match ev {
            SessionEvent::StreamAccepted => {
                proof {
                    self.dispatched@ = self.dispatched@ + 1;
                }
                SessionAction::DispatchForwarder
            },
            SessionEvent::Closed => {
                self.active = false;
                SessionAction::EndSession { log: None }
            },
            SessionEvent::AcceptFailed => {
                self.active = false;
                SessionAction::EndSession { log: Some(TunnelError::StreamAccept) }
            },
        }
    }
}

/// A session's termination ends only its own accept loop: the record of
/// already-dispatched forwarding units is unchanged — none of them is
/// cancelled — and accepting a stream never ends the session. No event of a
/// single stream's forwarding even reaches the session.
pub proof fn lemma_termination_cancels_nothing(s: Session)
    requires
        s.active,
    ensures
        session_after(s, SessionEvent::Closed).dispatched@ == s.dispatched@,
        session_after(s, SessionEvent::AcceptFailed).dispatched@ == s.dispatched@,
        !(session_action(s, SessionEvent::StreamAccepted) is EndSession),
        session_after(s, SessionEvent::StreamAccepted).active,
{
}

/// Couple one accepted stream to the local target service, once the
/// target-connect attempt's outcome is known. An unreachable target is an
/// error scoped to this one stream: it is returned here, in this stream's
/// own result, and touches neither the session nor any other stream. On
/// success the stream is forwarded under the wait-for-both policy, so data
/// already in flight is fully delivered before the stream is torn down.
pub fn begin_stream_forwarding(target_connected: bool) -> (r: Result<Forwarder, TunnelError>)
    ensures
        target_connected ==> (r matches Ok(f) && f.is_initial(Policy::WaitBoth)),
        !target_connected ==> (r matches Err(e) && e is TargetUnreachable),
{
    if target_connected {
        Ok(Forwarder::new(Policy::WaitBoth))
    } else {
        Err(TunnelError::TargetUnreachable)
    }
}

} // verus!

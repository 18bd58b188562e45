//! The three kinds of channel a connection carries, and how an acceptance loop
//! for one of them ends.
use vstd::prelude::*;

verus! {

/// One of the three kinds of channel that a connection multiplexes.
#[derive(Clone, Copy, Debug, PartialEq, Eq, Structural)]
pub enum ChannelKind {
    /// A reliable, ordered stream with a send half and a receive half.
    Bidi,
    /// A reliable, ordered, receive-only (or send-only) stream.
    Uni,
    /// An unreliable, unordered datagram.
    Datagram,
}

/// Why an acceptance loop stopped.
#[derive(Clone, Debug, PartialEq, Eq)]
pub enum Termination {
    /// The peer closed the connection on purpose.
    Graceful,
    /// Any other connection-level error, with its description.
    Fault(String),
}

/// What one accept call on a connection completed with.
#[derive(Clone, Debug, PartialEq, Eq)]
pub enum AcceptOutcome {
    /// A new stream or datagram was accepted.
    Accepted,
    /// The peer closed the connection.
    PeerClosed,
    /// The connection failed, with the transport's description of the error.
    Failed(String),
}

/// The termination that an accept call's outcome brings, if any.
pub open spec fn termination_of(o: AcceptOutcome) -> Option<Termination> {
    match o {
        AcceptOutcome::Accepted => None,
        AcceptOutcome::PeerClosed => Some(Termination::Graceful),
        AcceptOutcome::Failed(d) => Some(Termination::Fault(d)),
    }
}

impl Termination {
    /// Whether the peer ended the session on purpose.
    pub fn is_graceful(&self) -> (r: bool)
        ensures
            r == (*self is Graceful),
    {
        match self {
            Termination::Graceful => true,
            Termination::Fault(_) => false,
        }
    }
}

} // verus!

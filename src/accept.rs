//! One acceptance loop: accept the next unit of one channel kind, hand it to
//! a handler of its own, and stop for good at the first graceful close or
//! fault of the connection.
use vstd::prelude::*;
use crate::channel::{AcceptOutcome, ChannelKind, Termination, termination_of};

verus! {

/// The handler that an accepted unit is given.
#[derive(Clone, Copy, Debug, PartialEq, Eq, Structural)]
pub enum HandlerKind {
    /// Read the stream's request and write the same bytes back.
    EchoWithReply,
    /// Read the stream to its end and record it; there is no way back.
    EchoReadOnly,
    /// Record the datagram; nothing is sent back.
    RecordDatagram,
}

/// The handler for a unit of each channel kind.
pub open spec fn handler_for(kind: ChannelKind) -> HandlerKind {
    match kind {
        ChannelKind::Bidi => HandlerKind::EchoWithReply,
        ChannelKind::Uni => HandlerKind::EchoReadOnly,
        ChannelKind::Datagram => HandlerKind::RecordDatagram,
    }
}

/// Whether a loop still accepts, or how it ended.
#[derive(Clone, Debug, PartialEq, Eq)]
pub enum LoopStatus {
    Running,
    Ended(Termination),
}

/// What the driver of a loop is to do after an accept call completed.
#[derive(Clone, Copy, Debug, PartialEq, Eq, Structural)]
pub enum LoopAction {
    /// Start the given handler on the accepted unit, then accept again.
    Spawn(HandlerKind),
    /// The loop has ended: make no further accept call.
    Stop,
}

/// The acceptance loop of one channel kind.
#[derive(Clone, Debug, PartialEq, Eq)]
pub struct AcceptLoop {
    pub kind: ChannelKind,
    pub status: LoopStatus,
}

/// The loop's next state and action after an accept call completed with `o`.
/// An ended loop stays as it is.
pub open spec fn loop_step(l: AcceptLoop, o: AcceptOutcome) -> (AcceptLoop, LoopAction) {
    match l.status {
        LoopStatus::Ended(_) => (l, LoopAction::Stop),
        LoopStatus::Running => match termination_of(o) {
            None => (l, LoopAction::Spawn(handler_for(l.kind))),
            Some(t) => (AcceptLoop { kind: l.kind, status: LoopStatus::Ended(t) }, LoopAction::Stop),
        },
    }
}

impl AcceptLoop {
    /// A loop that has not accepted anything yet.
    pub fn new(kind: ChannelKind) -> (r: AcceptLoop)
        ensures
            r.kind == kind,
            r.status == LoopStatus::Running,
    {
        AcceptLoop { kind, status: LoopStatus::Running }
    }

    /// Whether the driver is to make another accept call.
    pub fn wants_accept(&self) -> (r: bool)
        ensures
            r == (self.status is Running),
    {
        match self.status {
            LoopStatus::Running => true,
            LoopStatus::Ended(_) => false,
        }
    }

    /// Takes in what the latest accept call completed with.
    pub fn on_outcome(&mut self, o: AcceptOutcome) -> (a: LoopAction)
        ensures
            (*final(self), a) == loop_step(*old(self), o),
    {
        if let LoopStatus::Ended(_) = self.status {
            return LoopAction::Stop;
        }
        match o {
            AcceptOutcome::Accepted => LoopAction::Spawn(handler_of(self.kind)),
            AcceptOutcome::PeerClosed => {
                self.status = LoopStatus::Ended(Termination::Graceful);
                LoopAction::Stop
            },
            AcceptOutcome::Failed(d) => {
                self.status = LoopStatus::Ended(Termination::Fault(d));
                LoopAction::Stop
            },
        }
    }
}

/// The handler for a unit of the given channel kind.
pub fn handler_of(kind: ChannelKind) -> (r: HandlerKind)
    ensures
        r == handler_for(kind),
{
    match kind {
        ChannelKind::Bidi => HandlerKind::EchoWithReply,
        ChannelKind::Uni => HandlerKind::EchoReadOnly,
        ChannelKind::Datagram => HandlerKind::RecordDatagram,
    }
}

/// A loop of any kind whose accept call yields a graceful close ends with a
/// graceful status, and makes no further accept call whatever comes after.
pub proof fn lemma_close_ends_gracefully(l: AcceptLoop, later: AcceptOutcome)
    requires
        l.status is Running,
    ensures
        ({
            let (l1, a1) = loop_step(l, AcceptOutcome::PeerClosed);
            &&& a1 == LoopAction::Stop
            &&& l1.status == LoopStatus::Ended(Termination::Graceful)
            &&& l1.kind == l.kind
            &&& loop_step(l1, later) == (l1, LoopAction::Stop)
        }),
{
}

/// A loop of any kind whose accept call yields a fault ends with a fault
/// status that keeps the error's description, and makes no further accept
/// call whatever comes after.
pub proof fn lemma_fault_ends_with_error(l: AcceptLoop, detail: String, later: AcceptOutcome)
    requires
        l.status is Running,
    ensures
        ({
            let (l1, a1) = loop_step(l, AcceptOutcome::Failed(detail));
            &&& a1 == LoopAction::Stop
            &&& l1.status == LoopStatus::Ended(Termination::Fault(detail))
            &&& l1.kind == l.kind
            &&& loop_step(l1, later) == (l1, LoopAction::Stop)
        }),
{
}

} // verus!

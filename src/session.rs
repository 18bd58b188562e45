//! The lifecycle of one connection's session: its three acceptance loops run
//! side by side, and the first of them to end ends the session.
use vstd::prelude::*;
use crate::accept::{AcceptLoop, HandlerKind, LoopAction, LoopStatus, handler_for, loop_step};
use crate::channel::{AcceptOutcome, ChannelKind, Termination, termination_of};

verus! {

/// What the driver of a session is to do after an accept call of one of its
/// loops completed.
#[derive(Clone, Copy, Debug, PartialEq, Eq, Structural)]
pub enum SessionAction {
    /// Start the handler on the accepted unit; the loop accepts again.
    Spawn(HandlerKind),
    /// This loop ended the session: tear down the connection and the rest of
    /// its work.
    EndSession,
    /// The session has already ended: this loop makes no further call.
    Stop,
}

/// The three acceptance loops of one connection, and which of them ended the
/// session, with how.
#[derive(Clone, Debug, PartialEq, Eq)]
pub struct Session {
    pub bidi: AcceptLoop,
    pub uni: AcceptLoop,
    pub datagram: AcceptLoop,
    pub ended: Option<(ChannelKind, Termination)>,
}

impl Session {
    /// The loop of the given kind.
    pub open spec fn loop_of(self, kind: ChannelKind) -> AcceptLoop {
        match kind {
            ChannelKind::Bidi => self.bidi,
            ChannelKind::Uni => self.uni,
            ChannelKind::Datagram => self.datagram,
        }
    }

    /// The same session with the loop of the given kind replaced.
    pub open spec fn with_loop(self, kind: ChannelKind, l: AcceptLoop) -> Session {
        match kind {
            ChannelKind::Bidi => Session { bidi: l, ..self },
            ChannelKind::Uni => Session { uni: l, ..self },
            ChannelKind::Datagram => Session { datagram: l, ..self },
        }
    }

    /// Each loop has its own kind; while the session runs every loop runs, and
    /// once it has ended exactly the loop that ended it has stopped, with the
    /// recorded termination.
    pub open spec fn wf(self) -> bool {
        &&& self.bidi.kind == ChannelKind::Bidi
        &&& self.uni.kind == ChannelKind::Uni
        &&& self.datagram.kind == ChannelKind::Datagram
        &&& match self.ended {
            None => {
                &&& self.bidi.status is Running
                &&& self.uni.status is Running
                &&& self.datagram.status is Running
            },
            Some((e, t)) => {
                &&& self.loop_of(e).status == LoopStatus::Ended(t)
                &&& (e != ChannelKind::Bidi ==> self.bidi.status is Running)
                &&& (e != ChannelKind::Uni ==> self.uni.status is Running)
                &&& (e != ChannelKind::Datagram ==> self.datagram.status is Running)
            },
        }
    }

    /// Whether the session is still running.
    pub open spec fn is_running(self) -> bool {
        self.ended is None
    }
}

/// The session's next state and action after the loop of kind `kind` saw its
/// accept call complete with `o`. Once ended, a session stays as it is.
pub open spec fn session_step(s: Session, kind: ChannelKind, o: AcceptOutcome) -> (Session, SessionAction) {
    if s.ended is Some {
        (s, SessionAction::Stop)
    } else {
        let (l, a) = loop_step(s.loop_of(kind), o);
        match a {
            LoopAction::Spawn(h) => (s, SessionAction::Spawn(h)),
            LoopAction::Stop => (
                Session { ended: Some((kind, termination_of(o).unwrap())), ..s.with_loop(kind, l) },
                SessionAction::EndSession,
            ),
        }
    }
}

impl Session {
    /// A session whose three loops have not accepted anything yet.
    pub fn new() -> (r: Session)
        ensures
            r.wf(),
            r.is_running(),
    {
        let r = Session {
            bidi: AcceptLoop::new(ChannelKind::Bidi),
            uni: AcceptLoop::new(ChannelKind::Uni),
            datagram: AcceptLoop::new(ChannelKind::Datagram),
            ended: None,
        };
        r
    }

    /// Whether the loop of the given kind is to make another accept call.
    pub fn wants_accept(&self, kind: ChannelKind) -> (r: bool)
        requires
            self.wf(),
        ensures
            r == (self.is_running() && self.loop_of(kind).status is Running),
    {
        if self.ended.is_some() {
            return false;
        }
        match kind {
            ChannelKind::Bidi => self.bidi.wants_accept(),
            ChannelKind::Uni => self.uni.wants_accept(),
            ChannelKind::Datagram => self.datagram.wants_accept(),
        }
    }

    /// Takes in what the latest accept call of the loop of kind `kind`
    /// completed with.
    pub fn on_outcome(&mut self, kind: ChannelKind, o: AcceptOutcome) -> (a: SessionAction)
        requires
            old(self).wf(),
        ensures
            final(self).wf(),
            (*final(self), a) == session_step(*old(self), kind, o),
    {
        if self.ended.is_some() {
            return SessionAction::Stop;
        }
        let ghost s0 = *self;
        let ghost o0 = o;
        let t = match &o {
            AcceptOutcome::Accepted => None,
            AcceptOutcome::PeerClosed => Some(Termination::Graceful),
            AcceptOutcome::Failed(d) => Some(Termination::Fault(d.clone())),
        };
        let a = match kind {
            ChannelKind::Bidi => self.bidi.on_outcome(o),
            ChannelKind::Uni => self.uni.on_outcome(o),
            ChannelKind::Datagram => self.datagram.on_outcome(o),
        };
        assert(t == termination_of(o0));
        assert(self.loop_of(kind) == loop_step(s0.loop_of(kind), o0).0);
        assert(*self == s0.with_loop(kind, loop_step(s0.loop_of(kind), o0).0));
        match a {
            LoopAction::Spawn(h) => {
                assert(*self == s0);
                SessionAction::Spawn(h)
            },
            LoopAction::Stop => {
                assert(self.loop_of(kind).status == LoopStatus::Ended(t.unwrap()));
                self.ended = Some((kind, t.unwrap()));
                SessionAction::EndSession
            },
        }
    }
}

/// While a session runs, an accepted unit on any loop is handed to that
/// kind's handler and leaves the session, and so each of the three loops, as
/// it was.
pub proof fn lemma_accept_keeps_session(s: Session, kind: ChannelKind)
    requires
        s.wf(),
        s.is_running(),
    ensures
        session_step(s, kind, AcceptOutcome::Accepted) == (s, SessionAction::Spawn(handler_for(kind))),
{
}

/// While a session runs, the first loop whose accept call yields a graceful
/// close or a fault ends it, recording that loop and its termination (with a
/// fault's description kept). The teardown asked for is the same for both.
/// From then on no loop makes a further accept call, whatever completes.
pub proof fn lemma_first_end_ends_session(
    s: Session,
    kind: ChannelKind,
    o: AcceptOutcome,
    later_kind: ChannelKind,
    later: AcceptOutcome,
)
    requires
        s.wf(),
        s.is_running(),
        !(o is Accepted),
    ensures
        ({
            let (s1, a1) = session_step(s, kind, o);
            &&& a1 == SessionAction::EndSession
            &&& s1.wf()
            &&& o is PeerClosed ==> s1.ended == Some((kind, Termination::Graceful))
            &&& o is Failed ==> s1.ended == Some((kind, Termination::Fault(o->Failed_0)))
            &&& !s1.is_running()
            &&& session_step(s1, later_kind, later) == (s1, SessionAction::Stop)
        }),
{
}

} // verus!

//! The echo handler of one accepted stream: read the request up to a byte
//! budget, record it, and on a stream with a send half write the same bytes
//! back and finish that half.
use vstd::prelude::*;
use crate::accept::HandlerKind;
use crate::escape::{PayloadRecord, escaped, record_of};

verus! {

/// The byte budget of a request on a bidirectional or unidirectional stream.
pub const REQUEST_LIMIT: usize = 64 * 1024;

/// The byte budget of the answer to a stream that this side opened.
pub const RESPONSE_LIMIT: usize = 1024;

/// The budget of an informational stream that is read to its end.
pub const UNBOUNDED: usize = usize::MAX;

/// Why reading a stream failed.
#[derive(Clone, Debug, PartialEq, Eq)]
pub enum ReadFailure {
    /// The stream held more bytes than the budget.
    TooLong,
    /// The transport reported an error, with its description.
    Failed(String),
}

/// Why a handler gave up; it concerns its own stream only.
#[derive(Clone, Debug, PartialEq, Eq)]
pub enum EchoError {
    Read(ReadFailure),
    Write(String),
    Finish(String),
}

/// Where a handler stands.
#[derive(Clone, Copy, Debug, PartialEq, Eq, Structural)]
pub enum EchoPhase {
    Reading,
    Writing,
    Finishing,
    Done,
}

/// What the transport reported for the handler's latest action.
#[derive(Debug, PartialEq, Eq)]
pub enum EchoEvent {
    /// The stream was read to its end, or the read failed.
    ReadDone(Result<Vec<u8>, ReadFailure>),
    /// Writing the answer completed, or failed with the given description.
    Written(Result<(), String>),
    /// Finishing the send half completed, or failed with the given description.
    Finished(Result<(), String>),
}

/// What the driver of a handler is to do next.
#[derive(Debug, PartialEq, Eq)]
pub enum EchoAction {
    /// Write these bytes on the send half.
    Write(Vec<u8>),
    /// Signal the end of data on the send half.
    Finish,
    /// The handler is over, with its result.
    Done(Result<(), EchoError>),
    /// The event did not belong to the handler's phase; nothing to do.
    Ignore,
}

/// One step of a handler: what to do, and the record of the payload when one
/// was read.
#[derive(Debug, PartialEq, Eq)]
pub struct EchoStep {
    pub record: Option<PayloadRecord>,
    pub action: EchoAction,
}

/// The handler of one stream: whether it writes the request back, its byte
/// budget, whether its record shows the payload escaped (else as it came),
/// and its phase.
#[derive(Clone, Copy, Debug, PartialEq, Eq, Structural)]
pub struct EchoHandler {
    pub reply: bool,
    pub limit: usize,
    pub escape: bool,
    pub phase: EchoPhase,
}

/// The text that a handler records of a payload.
pub open spec fn record_text(h: EchoHandler, p: Seq<u8>) -> Seq<u8> {
    if h.escape {
        escaped(p)
    } else {
        p
    }
}

/// Whether the event brings a payload that the handler accepts, and so records.
pub open spec fn takes_payload(h: EchoHandler, e: EchoEvent) -> bool {
    &&& h.phase == EchoPhase::Reading
    &&& e matches EchoEvent::ReadDone(Ok(p))
    &&& p@.len() <= h.limit
}

/// The handler's next state and action after the event.
pub open spec fn echo_step(h: EchoHandler, e: EchoEvent) -> (EchoHandler, EchoAction) {
    let done = EchoHandler { phase: EchoPhase::Done, ..h };
    match (h.phase, e) {
        (EchoPhase::Reading, EchoEvent::ReadDone(Ok(p))) => {
            if p@.len() > h.limit {
                (done, EchoAction::Done(Err(EchoError::Read(ReadFailure::TooLong))))
            } else if h.reply {
                (EchoHandler { phase: EchoPhase::Writing, ..h }, EchoAction::Write(p))
            } else {
                (done, EchoAction::Done(Ok(())))
            }
        },
        (EchoPhase::Reading, EchoEvent::ReadDone(Err(f))) => (done, EchoAction::Done(Err(EchoError::Read(f)))),
        (EchoPhase::Writing, EchoEvent::Written(Ok(()))) => (
            EchoHandler { phase: EchoPhase::Finishing, ..h },
            EchoAction::Finish,
        ),
        (EchoPhase::Writing, EchoEvent::Written(Err(m))) => (done, EchoAction::Done(Err(EchoError::Write(m)))),
        (EchoPhase::Finishing, EchoEvent::Finished(Ok(()))) => (done, EchoAction::Done(Ok(()))),
        (EchoPhase::Finishing, EchoEvent::Finished(Err(m))) => (done, EchoAction::Done(Err(EchoError::Finish(m)))),
        _ => (h, EchoAction::Ignore),
    }
}

impl EchoHandler {
    /// A handler that reads a request of at most `REQUEST_LIMIT` bytes,
    /// records it escaped and, where `reply` holds, writes it back.
    pub fn request(reply: bool) -> (r: EchoHandler)
        ensures
            r == (EchoHandler { reply, limit: REQUEST_LIMIT, escape: true, phase: EchoPhase::Reading }),
    {
        EchoHandler { reply, limit: REQUEST_LIMIT, escape: true, phase: EchoPhase::Reading }
    }

    /// A handler that reads an informational stream to its end, records the
    /// payload as it came (to be shown decoded), and writes nothing back.
    pub fn read_to_end() -> (r: EchoHandler)
        ensures
            r == (EchoHandler { reply: false, limit: UNBOUNDED, escape: false, phase: EchoPhase::Reading }),
    {
        EchoHandler { reply: false, limit: UNBOUNDED, escape: false, phase: EchoPhase::Reading }
    }

    /// Takes in what the transport reported for the latest action.
    pub fn on_event(&mut self, e: EchoEvent) -> (r: EchoStep)
        ensures
            (*final(self), r.action) == echo_step(*old(self), e),
            r.record is Some <==> takes_payload(*old(self), e),
            r.record matches Some(rec) ==> e matches EchoEvent::ReadDone(Ok(p)) && rec.size == p@.len()
                && rec.text@ == record_text(*old(self), p@),
    {
        let phase = self.phase;
        match (phase, e) {
            (EchoPhase::Reading, EchoEvent::ReadDone(Ok(p))) => {
                if p.len() > self.limit {
                    self.phase = EchoPhase::Done;
                    EchoStep {
                        record: None,
                        action: EchoAction::Done(Err(EchoError::Read(ReadFailure::TooLong))),
                    }
                } else {
                    let record = if self.escape {
                        record_of(p.as_slice())
                    } else {
                        let text = p.clone();
                        assert(text@ =~= p@);
                        PayloadRecord { size: p.len(), text }
                    };
                    if self.reply {
                        self.phase = EchoPhase::Writing;
                        EchoStep { record: Some(record), action: EchoAction::Write(p) }
                    } else {
                        self.phase = EchoPhase::Done;
                        EchoStep { record: Some(record), action: EchoAction::Done(Ok(())) }
                    }
                }
            },
            (EchoPhase::Reading, EchoEvent::ReadDone(Err(f))) => {
                self.phase = EchoPhase::Done;
                EchoStep { record: None, action: EchoAction::Done(Err(EchoError::Read(f))) }
            },
            (EchoPhase::Writing, EchoEvent::Written(Ok(()))) => {
                self.phase = EchoPhase::Finishing;
                EchoStep { record: None, action: EchoAction::Finish }
            },
            (EchoPhase::Writing, EchoEvent::Written(Err(m))) => {
                self.phase = EchoPhase::Done;
                EchoStep { record: None, action: EchoAction::Done(Err(EchoError::Write(m))) }
            },
            (EchoPhase::Finishing, EchoEvent::Finished(Ok(()))) => {
                self.phase = EchoPhase::Done;
                EchoStep { record: None, action: EchoAction::Done(Ok(())) }
            },
            (EchoPhase::Finishing, EchoEvent::Finished(Err(m))) => {
                self.phase = EchoPhase::Done;
                EchoStep { record: None, action: EchoAction::Done(Err(EchoError::Finish(m))) }
            },
            _ => EchoStep { record: None, action: EchoAction::Ignore },
        }
    }
}

/// A handler of a bidirectional stream that reads a payload within the
/// request budget writes exactly that payload back, then finishes its send
/// half, and ends without error.
pub proof fn lemma_echo_round_trip(h: EchoHandler, p: Vec<u8>)
    requires
        h.reply,
        h.limit == REQUEST_LIMIT,
        h.phase == EchoPhase::Reading,
        p@.len() <= REQUEST_LIMIT,
    ensures
        ({
            let (h1, a1) = echo_step(h, EchoEvent::ReadDone(Ok(p)));
            let (h2, a2) = echo_step(h1, EchoEvent::Written(Ok(())));
            let (h3, a3) = echo_step(h2, EchoEvent::Finished(Ok(())));
            &&& a1 == EchoAction::Write(p)
            &&& a2 == EchoAction::Finish
            &&& a3 == EchoAction::Done(Ok(()))
            &&& h3.phase == EchoPhase::Done
        }),
{
}

/// A handler's state and the actions it asks for, after the given events
/// reached it in order.
pub open spec fn run_alone(h: EchoHandler, es: Seq<EchoEvent>) -> (EchoHandler, Seq<EchoAction>)
    decreases es.len(),
{
    if es.len() == 0 {
        (h, Seq::empty())
    } else {
        let (h1, acts) = run_alone(h, es.drop_last());
        let (h2, a) = echo_step(h1, es.last());
        (h2, acts.push(a))
    }
}

/// The events of a schedule that go to the handler at index `i`, in order.
pub open spec fn events_for(schedule: Seq<(int, EchoEvent)>, i: int) -> Seq<EchoEvent>
    decreases schedule.len(),
{
    if schedule.len() == 0 {
        Seq::empty()
    } else {
        let rest = events_for(schedule.drop_last(), i);
        if schedule.last().0 == i {
            rest.push(schedule.last().1)
        } else {
            rest
        }
    }
}

/// Many handlers, each fed the events that a schedule addresses to it, in the
/// schedule's interleaving: their states, and the actions each asked for.
pub open spec fn run_all(hs: Seq<EchoHandler>, schedule: Seq<(int, EchoEvent)>) -> (
    Seq<EchoHandler>,
    Seq<Seq<EchoAction>>,
)
    decreases schedule.len(),
{
    if schedule.len() == 0 {
        (hs, Seq::new(hs.len(), |i: int| Seq::<EchoAction>::empty()))
    } else {
        let (cur, acts) = run_all(hs, schedule.drop_last());
        let (i, e) = schedule.last();
        if 0 <= i < hs.len() {
            let (h2, a) = echo_step(cur[i], e);
            (cur.update(i, h2), acts.update(i, acts[i].push(a)))
        } else {
            (cur, acts)
        }
    }
}

/// However the events of many streams interleave, each handler ends as it
/// would alone on its own events, and asks for the same actions.
pub proof fn lemma_handlers_do_not_interfere(hs: Seq<EchoHandler>, schedule: Seq<(int, EchoEvent)>)
    ensures
        run_all(hs, schedule).0.len() == hs.len(),
        run_all(hs, schedule).1.len() == hs.len(),
        forall|i: int|
            0 <= i < hs.len() ==> {
                &&& (#[trigger] run_all(hs, schedule).0[i]) == run_alone(hs[i], events_for(schedule, i)).0
                &&& run_all(hs, schedule).1[i] == run_alone(hs[i], events_for(schedule, i)).1
            },
    decreases schedule.len(),
{
    if schedule.len() > 0 {
        lemma_handlers_do_not_interfere(hs, schedule.drop_last());
        let (j, e) = schedule.last();
        assert forall|i: int| 0 <= i < hs.len() implies {
            &&& (#[trigger] run_all(hs, schedule).0[i]) == run_alone(hs[i], events_for(schedule, i)).0
            &&& run_all(hs, schedule).1[i] == run_alone(hs[i], events_for(schedule, i)).1
        } by {
            let before = run_all(hs, schedule.drop_last());
            assert(before.0[i] == run_alone(hs[i], events_for(schedule.drop_last(), i)).0);
            if i == j {
                let es = events_for(schedule, i);
                assert(es.drop_last() =~= events_for(schedule.drop_last(), i));
            }
        }
    }
}

/// Given many bidirectional streams, each sending its own payload within the
/// request budget, in any interleaving of their events, each handler writes
/// back exactly its own payload, finishes, and ends without error.
pub proof fn lemma_concurrent_echoes(
    hs: Seq<EchoHandler>,
    payloads: Seq<Vec<u8>>,
    schedule: Seq<(int, EchoEvent)>,
)
    requires
        payloads.len() == hs.len(),
        forall|i: int|
            0 <= i < hs.len() ==> (#[trigger] hs[i]).reply && hs[i].limit == REQUEST_LIMIT && hs[i].phase
                == EchoPhase::Reading,
        forall|i: int| 0 <= i < hs.len() ==> (#[trigger] payloads[i])@.len() <= REQUEST_LIMIT,
        forall|i: int|
            0 <= i < hs.len() ==> #[trigger] events_for(schedule, i) == seq![
                EchoEvent::ReadDone(Ok(payloads[i])),
                EchoEvent::Written(Ok(())),
                EchoEvent::Finished(Ok(())),
            ],
    ensures
        forall|i: int|
            0 <= i < hs.len() ==> #[trigger] run_all(hs, schedule).1[i] == seq![
                EchoAction::Write(payloads[i]),
                EchoAction::Finish,
                EchoAction::Done(Ok(())),
            ],
{
    lemma_handlers_do_not_interfere(hs, schedule);
    assert forall|i: int| 0 <= i < hs.len() implies #[trigger] run_all(hs, schedule).1[i] == seq![
        EchoAction::Write(payloads[i]),
        EchoAction::Finish,
        EchoAction::Done(Ok(())),
    ] by {
        let es = events_for(schedule, i);
        assert(run_all(hs, schedule).0[i] == run_alone(hs[i], es).0);
        lemma_echo_round_trip(hs[i], payloads[i]);
        let e1 = es.drop_last().drop_last();
        let e2 = es.drop_last();
        assert(e1.drop_last() =~= Seq::<EchoEvent>::empty());
        assert(e1.last() == EchoEvent::ReadDone(Ok(payloads[i])));
        assert(e2.drop_last() == e1);
        assert(e2.last() == EchoEvent::Written(Ok(())));
        assert(es.last() == EchoEvent::Finished(Ok(())));
        let (h1, a1) = echo_step(hs[i], EchoEvent::ReadDone(Ok(payloads[i])));
        let (h2, a2) = echo_step(h1, EchoEvent::Written(Ok(())));
        let (h3, a3) = echo_step(h2, EchoEvent::Finished(Ok(())));
        assert(run_alone(hs[i], e1.drop_last()) == (hs[i], Seq::<EchoAction>::empty()));
        assert(run_alone(hs[i], e1) == (h1, seq![a1]));
        assert(run_alone(hs[i], e2) == (h2, seq![a1, a2]));
        assert(run_alone(hs[i], es) == (h3, seq![a1, a2, a3]));
        assert(run_alone(hs[i], es).1 =~= seq![
            EchoAction::Write(payloads[i]),
            EchoAction::Finish,
            EchoAction::Done(Ok(())),
        ]);
    }
}

/// The side of a connection a session runs on: the listening side echoes
/// what it is sent, the dialing side reads it to the end.
#[derive(Clone, Copy, Debug, PartialEq, Eq, Structural)]
pub enum Side {
    Server,
    Client,
}

/// The echo handler that a stream handed to `kind` gets on `side`; a datagram
/// gets none.
pub open spec fn spec_stream_handler(side: Side, kind: HandlerKind) -> Option<EchoHandler> {
    match (side, kind) {
        (_, HandlerKind::RecordDatagram) => None,
        (Side::Server, HandlerKind::EchoWithReply) => Some(
            EchoHandler { reply: true, limit: REQUEST_LIMIT, escape: true, phase: EchoPhase::Reading },
        ),
        (Side::Server, HandlerKind::EchoReadOnly) => Some(
            EchoHandler { reply: false, limit: REQUEST_LIMIT, escape: true, phase: EchoPhase::Reading },
        ),
        (Side::Client, _) => Some(
            EchoHandler { reply: false, limit: UNBOUNDED, escape: false, phase: EchoPhase::Reading },
        ),
    }
}

/// The echo handler for a stream that `kind` was dispatched to, on `side`.
pub fn stream_handler(side: Side, kind: HandlerKind) -> (r: Option<EchoHandler>)
    ensures
        r == spec_stream_handler(side, kind),
{
    match (side, kind) {
        (_, HandlerKind::RecordDatagram) => None,
        (Side::Server, HandlerKind::EchoWithReply) => Some(EchoHandler::request(true)),
        (Side::Server, HandlerKind::EchoReadOnly) => Some(EchoHandler::request(false)),
        (Side::Client, _) => Some(EchoHandler::read_to_end()),
    }
}

} // verus!

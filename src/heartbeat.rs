//! The heartbeat of a connection: on a fixed period it opens an outbound
//! channel and sends a small payload, until the first open or write fails. It
//! is best effort: a failure ends it silently and hands no error to the
//! session.
use vstd::prelude::*;
use crate::channel::ChannelKind;
use crate::echo::RESPONSE_LIMIT;

verus! {

/// Where a heartbeat stands.
#[derive(Clone, Copy, Debug, PartialEq, Eq, Structural)]
pub enum BeatPhase {
    /// Waiting for the next tick of its period.
    Waiting,
    /// Opening a stream, or sending a datagram.
    Opening,
    /// Writing the payload on the stream it opened and finishing it.
    Sending,
    /// Reading the answer on a bidirectional stream.
    AwaitingResponse,
    /// Over, after a failed open or write.
    Stopped,
}

/// What the driver reports to a heartbeat.
#[derive(Clone, Copy, Debug, PartialEq, Eq, Structural)]
pub enum BeatEvent {
    /// The period elapsed.
    Tick,
    /// The stream was opened, or the datagram was sent.
    Opened,
    /// Opening the stream, or sending the datagram, failed.
    OpenFailed,
    /// The payload was written and the stream finished.
    Sent,
    /// Writing the payload, or finishing the stream, failed.
    SendFailed,
    /// The answer was read, or reading it failed.
    ResponseDone,
}

/// What the driver of a heartbeat is to do next.
#[derive(Clone, Copy, Debug, PartialEq, Eq, Structural)]
pub enum BeatAction {
    /// Wait for the given number of milliseconds, then report a tick.
    Wait(u64),
    /// Open a stream of the given kind.
    Open(ChannelKind),
    /// Send the payload as a datagram.
    SendDatagram,
    /// Write the payload on the opened stream and finish it.
    Write,
    /// Read the answer, up to the given number of bytes.
    ReadResponse(usize),
    /// The heartbeat is over: do nothing more.
    Stop,
    /// The event did not belong to the heartbeat's phase; nothing to do.
    Ignore,
}

/// A heartbeat: the kind of channel it opens, its period, whether it reads
/// the answer on a bidirectional stream, its phase, and how many payloads it
/// has sent.
#[derive(Clone, Copy, Debug, PartialEq, Eq, Structural)]
pub struct Heartbeat {
    pub channel: ChannelKind,
    pub period_ms: u64,
    pub await_response: bool,
    pub phase: BeatPhase,
    pub sent: u64,
}

/// One more, stopping at the largest `u64`.
pub open spec fn bump(n: u64) -> u64 {
    if n < u64::MAX {
        (n + 1) as u64
    } else {
        n
    }
}

/// The heartbeat's next state and action after the event.
pub open spec fn beat_step(b: Heartbeat, e: BeatEvent) -> (Heartbeat, BeatAction) {
    let wait = BeatAction::Wait(b.period_ms);
    match (b.phase, e) {
        (BeatPhase::Stopped, _) => (b, BeatAction::Stop),
        (BeatPhase::Waiting, BeatEvent::Tick) => (
            Heartbeat { phase: BeatPhase::Opening, ..b },
            if b.channel == ChannelKind::Datagram {
                BeatAction::SendDatagram
            } else {
                BeatAction::Open(b.channel)
            },
        ),
        (BeatPhase::Opening, BeatEvent::OpenFailed) => (Heartbeat { phase: BeatPhase::Stopped, ..b }, BeatAction::Stop),
        (BeatPhase::Opening, BeatEvent::Opened) => {
            if b.channel == ChannelKind::Datagram {
                (Heartbeat { phase: BeatPhase::Waiting, sent: bump(b.sent), ..b }, wait)
            } else {
                (Heartbeat { phase: BeatPhase::Sending, ..b }, BeatAction::Write)
            }
        },
        (BeatPhase::Sending, BeatEvent::SendFailed) => (Heartbeat { phase: BeatPhase::Stopped, ..b }, BeatAction::Stop),
        (BeatPhase::Sending, BeatEvent::Sent) => {
            if b.channel == ChannelKind::Bidi && b.await_response {
                (
                    Heartbeat { phase: BeatPhase::AwaitingResponse, sent: bump(b.sent), ..b },
                    BeatAction::ReadResponse(RESPONSE_LIMIT),
                )
            } else {
                (Heartbeat { phase: BeatPhase::Waiting, sent: bump(b.sent), ..b }, wait)
            }
        },
        (BeatPhase::AwaitingResponse, BeatEvent::ResponseDone) => (Heartbeat { phase: BeatPhase::Waiting, ..b }, wait),
        _ => (b, BeatAction::Ignore),
    }
}

impl Heartbeat {
    /// A heartbeat that has sent nothing yet and waits for its first tick.
    pub fn new(channel: ChannelKind, period_ms: u64, await_response: bool) -> (r: Heartbeat)
        ensures
            r == (Heartbeat { channel, period_ms, await_response, phase: BeatPhase::Waiting, sent: 0 }),
    {
        Heartbeat { channel, period_ms, await_response, phase: BeatPhase::Waiting, sent: 0 }
    }

    /// Takes in what the driver reports.
    pub fn on_event(&mut self, e: BeatEvent) -> (a: BeatAction)
        ensures
            (*final(self), a) == beat_step(*old(self), e),
    {
        let wait = BeatAction::Wait(self.period_ms);
        let datagram = match self.channel {
            ChannelKind::Datagram => true,
            _ => false,
        };
        match (self.phase, e) {
            (BeatPhase::Stopped, _) => BeatAction::Stop,
            (BeatPhase::Waiting, BeatEvent::Tick) => {
                self.phase = BeatPhase::Opening;
                if datagram {
                    BeatAction::SendDatagram
                } else {
                    BeatAction::Open(self.channel)
                }
            },
            (BeatPhase::Opening, BeatEvent::OpenFailed) => {
                self.phase = BeatPhase::Stopped;
                BeatAction::Stop
            },
            (BeatPhase::Opening, BeatEvent::Opened) => {
                if datagram {
                    self.phase = BeatPhase::Waiting;
                    self.sent = self.sent.saturating_add(1);
                    wait
                } else {
                    self.phase = BeatPhase::Sending;
                    BeatAction::Write
                }
            },
            (BeatPhase::Sending, BeatEvent::SendFailed) => {
                self.phase = BeatPhase::Stopped;
                BeatAction::Stop
            },
            (BeatPhase::Sending, BeatEvent::Sent) => {
                self.sent = self.sent.saturating_add(1);
                let bidi = match self.channel {
                    ChannelKind::Bidi => true,
                    _ => false,
                };
                if bidi && self.await_response {
                    self.phase = BeatPhase::AwaitingResponse;
                    BeatAction::ReadResponse(RESPONSE_LIMIT)
                } else {
                    self.phase = BeatPhase::Waiting;
                    wait
                }
            },
            (BeatPhase::AwaitingResponse, BeatEvent::ResponseDone) => {
                self.phase = BeatPhase::Waiting;
                wait
            },
            _ => BeatAction::Ignore,
        }
    }
}

/// One attempt from a waiting heartbeat: a tick, then an open that succeeds
/// or fails, then, after a success, a write that succeeds and the rest of
/// that round.
pub open spec fn attempt(b: Heartbeat, opened: bool) -> Heartbeat {
    let b1 = beat_step(b, BeatEvent::Tick).0;
    if !opened {
        beat_step(b1, BeatEvent::OpenFailed).0
    } else {
        let b2 = beat_step(b1, BeatEvent::Opened).0;
        let b3 = beat_step(b2, BeatEvent::Sent).0;
        beat_step(b3, BeatEvent::ResponseDone).0
    }
}

/// The heartbeat after a run of attempts whose opens succeed or fail as
/// `opens` says, in order.
pub open spec fn run(b: Heartbeat, opens: Seq<bool>) -> Heartbeat
    decreases opens.len(),
{
    if opens.len() == 0 {
        b
    } else {
        attempt(run(b, opens.drop_last()), opens.last())
    }
}

proof fn lemma_successful_prefix(b: Heartbeat, opens: Seq<bool>, j: int)
    requires
        b.phase == BeatPhase::Waiting,
        b.sent == 0,
        0 <= j <= opens.len(),
        j <= u64::MAX,
        forall|i: int| 0 <= i < j ==> #[trigger] opens[i],
    ensures
        run(b, opens.take(j)) == (Heartbeat { sent: j as u64, ..b }),
    decreases j,
{
    if j > 0 {
        lemma_successful_prefix(b, opens, j - 1);
        assert(opens.take(j).drop_last() =~= opens.take(j - 1));
    }
}

/// A heartbeat whose open fails on the `k`-th attempt has sent exactly
/// `k - 1` payloads, has stopped without an error, and makes no further
/// attempt whatever is reported to it.
pub proof fn lemma_stops_at_first_failed_open(b: Heartbeat, opens: Seq<bool>, k: int, later: BeatEvent)
    requires
        b.phase == BeatPhase::Waiting,
        b.sent == 0,
        1 <= k <= opens.len(),
        k - 1 <= u64::MAX,
        forall|i: int| 0 <= i < k - 1 ==> #[trigger] opens[i],
        !opens[k - 1],
    ensures
        run(b, opens.take(k)).sent == k - 1,
        run(b, opens.take(k)).phase == BeatPhase::Stopped,
        run(b, opens) == run(b, opens.take(k)),
        beat_step(run(b, opens), later) == (run(b, opens), BeatAction::Stop),
{
    lemma_successful_prefix(b, opens, k - 1);
    assert(opens.take(k).drop_last() =~= opens.take(k - 1));
    lemma_stopped_stays(b, opens, k);
}

proof fn lemma_stopped_stays(b: Heartbeat, opens: Seq<bool>, n: int)
    requires
        1 <= n <= opens.len(),
        run(b, opens.take(n)).phase == BeatPhase::Stopped,
    ensures
        run(b, opens) == run(b, opens.take(n)),
    decreases opens.len() - n,
{
    if n < opens.len() {
        assert(opens.take(n + 1).drop_last() =~= opens.take(n));
        lemma_stopped_stays(b, opens, n + 1);
    } else {
        assert(opens.take(n) =~= opens);
    }
}

/// A heartbeat whose write (or finish) fails stops at once, without an
/// error and without counting that payload as sent, and makes no further
/// attempt whatever is reported to it.
pub proof fn lemma_stops_at_failed_write(b: Heartbeat, later: BeatEvent)
    requires
        b.phase == BeatPhase::Sending,
    ensures
        ({
            let (b1, a1) = beat_step(b, BeatEvent::SendFailed);
            &&& a1 == BeatAction::Stop
            &&& b1 == (Heartbeat { phase: BeatPhase::Stopped, ..b })
            &&& b1.sent == b.sent
            &&& beat_step(b1, later) == (b1, BeatAction::Stop)
        }),
{
}

} // verus!

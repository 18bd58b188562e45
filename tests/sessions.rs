use learn_quinn::accept::{AcceptLoop, HandlerKind, LoopAction, LoopStatus};
use learn_quinn::channel::{AcceptOutcome, ChannelKind, Termination};
use learn_quinn::echo::{EchoAction, EchoEvent, EchoHandler};
use learn_quinn::session::{Session, SessionAction};

const KINDS: [ChannelKind; 3] = [ChannelKind::Bidi, ChannelKind::Uni, ChannelKind::Datagram];

#[test]
fn accepted_units_go_to_their_handlers() {
    let mut l = AcceptLoop::new(ChannelKind::Bidi);
    assert_eq!(l.on_outcome(AcceptOutcome::Accepted), LoopAction::Spawn(HandlerKind::EchoWithReply));
    let mut l = AcceptLoop::new(ChannelKind::Uni);
    assert_eq!(l.on_outcome(AcceptOutcome::Accepted), LoopAction::Spawn(HandlerKind::EchoReadOnly));
    let mut l = AcceptLoop::new(ChannelKind::Datagram);
    assert_eq!(l.on_outcome(AcceptOutcome::Accepted), LoopAction::Spawn(HandlerKind::RecordDatagram));
    assert!(l.wants_accept());
}

#[test]
fn graceful_close_ends_every_loop_kind() {
    for kind in KINDS {
        let mut l = AcceptLoop::new(kind);
        assert!(l.wants_accept());
        assert_eq!(l.on_outcome(AcceptOutcome::PeerClosed), LoopAction::Stop);
        assert_eq!(l.status, LoopStatus::Ended(Termination::Graceful));
        assert!(!l.wants_accept());
        assert_eq!(l.on_outcome(AcceptOutcome::Accepted), LoopAction::Stop);
        assert_eq!(l.status, LoopStatus::Ended(Termination::Graceful));
    }
}

#[test]
fn fault_ends_every_loop_kind_with_its_detail() {
    for kind in KINDS {
        let mut l = AcceptLoop::new(kind);
        let action = l.on_outcome(AcceptOutcome::Failed("timed out".to_string()));
        assert_eq!(action, LoopAction::Stop);
        assert_eq!(l.status, LoopStatus::Ended(Termination::Fault("timed out".to_string())));
        assert!(!l.wants_accept());
        assert_eq!(l.on_outcome(AcceptOutcome::PeerClosed), LoopAction::Stop);
        assert_eq!(l.status, LoopStatus::Ended(Termination::Fault("timed out".to_string())));
    }
}

#[test]
fn first_loop_to_end_ends_the_session() {
    let mut s = Session::new();
    assert_eq!(s.on_outcome(ChannelKind::Uni, AcceptOutcome::Accepted), SessionAction::Spawn(HandlerKind::EchoReadOnly));
    assert_eq!(
        s.on_outcome(ChannelKind::Datagram, AcceptOutcome::Failed("reset".to_string())),
        SessionAction::EndSession
    );
    assert_eq!(s.ended, Some((ChannelKind::Datagram, Termination::Fault("reset".to_string()))));
    for kind in KINDS {
        assert!(!s.wants_accept(kind));
        assert_eq!(s.on_outcome(kind, AcceptOutcome::PeerClosed), SessionAction::Stop);
    }
    assert_eq!(s.ended, Some((ChannelKind::Datagram, Termination::Fault("reset".to_string()))));
    assert!(s.bidi.wants_accept());
}

#[test]
fn graceful_and_fault_tear_down_alike() {
    let mut a = Session::new();
    let mut b = Session::new();
    let ra = a.on_outcome(ChannelKind::Bidi, AcceptOutcome::PeerClosed);
    let rb = b.on_outcome(ChannelKind::Bidi, AcceptOutcome::Failed("idle timeout".to_string()));
    assert_eq!(ra, rb);
    assert!(a.ended.as_ref().unwrap().1.is_graceful());
    assert!(!b.ended.as_ref().unwrap().1.is_graceful());
}

#[test]
fn session_echoes_hello_on_a_bidi_stream() {
    let mut s = Session::new();
    assert!(s.wants_accept(ChannelKind::Bidi));
    let action = s.on_outcome(ChannelKind::Bidi, AcceptOutcome::Accepted);
    assert_eq!(action, SessionAction::Spawn(HandlerKind::EchoWithReply));
    let mut h = EchoHandler::request(true);
    let step = h.on_event(EchoEvent::ReadDone(Ok(b"hello".to_vec())));
    assert_eq!(step.action, EchoAction::Write(b"hello".to_vec()));
    assert_eq!(h.on_event(EchoEvent::Written(Ok(()))).action, EchoAction::Finish);
    assert_eq!(h.on_event(EchoEvent::Finished(Ok(()))).action, EchoAction::Done(Ok(())));
    assert!(s.wants_accept(ChannelKind::Bidi));
}

#[test]
fn datagram_is_recorded_without_reply() {
    let mut s = Session::new();
    let action = s.on_outcome(ChannelKind::Datagram, AcceptOutcome::Accepted);
    assert_eq!(action, SessionAction::Spawn(HandlerKind::RecordDatagram));
    assert!(s.wants_accept(ChannelKind::Datagram));
    assert!(s.ended.is_none());
}

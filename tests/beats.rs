use learn_quinn::channel::ChannelKind;
use learn_quinn::credential::{obtain_credentials, CredentialPair, CredentialSource};
use learn_quinn::echo::RESPONSE_LIMIT;
use learn_quinn::heartbeat::{BeatAction, BeatEvent, BeatPhase, Heartbeat};

/// Drives a heartbeat through attempts whose opens succeed as `opens` says.
fn drive(b: &mut Heartbeat, opens: &[bool]) -> usize {
    let mut attempts = 0;
    for &ok in opens {
        match b.on_event(BeatEvent::Tick) {
            BeatAction::Stop => break,
            _ => attempts += 1,
        }
        if !ok {
            assert_eq!(b.on_event(BeatEvent::OpenFailed), BeatAction::Stop);
            continue;
        }
        let a = b.on_event(BeatEvent::Opened);
        if a == BeatAction::Write {
            let a = b.on_event(BeatEvent::Sent);
            if let BeatAction::ReadResponse(limit) = a {
                assert_eq!(limit, RESPONSE_LIMIT);
                assert_eq!(b.on_event(BeatEvent::ResponseDone), BeatAction::Wait(b.period_ms));
            } else {
                assert_eq!(a, BeatAction::Wait(b.period_ms));
            }
        } else {
            assert_eq!(a, BeatAction::Wait(b.period_ms));
        }
    }
    attempts
}

#[test]
fn heartbeat_stops_at_third_failed_open() {
    let mut b = Heartbeat::new(ChannelKind::Uni, 1000, false);
    let attempts = drive(&mut b, &[true, true, false, true, true]);
    assert_eq!(attempts, 3);
    assert_eq!(b.sent, 2);
    assert_eq!(b.phase, BeatPhase::Stopped);
    assert_eq!(b.on_event(BeatEvent::Tick), BeatAction::Stop);
}

#[test]
fn heartbeat_failing_first_open_sends_nothing() {
    let mut b = Heartbeat::new(ChannelKind::Bidi, 0, true);
    assert_eq!(drive(&mut b, &[false, true]), 1);
    assert_eq!(b.sent, 0);
    assert_eq!(b.phase, BeatPhase::Stopped);
}

#[test]
fn heartbeat_bidi_reads_answers_and_datagrams_count() {
    let mut b = Heartbeat::new(ChannelKind::Bidi, 1000, true);
    assert_eq!(b.on_event(BeatEvent::Tick), BeatAction::Open(ChannelKind::Bidi));
    assert_eq!(b.on_event(BeatEvent::Opened), BeatAction::Write);
    assert_eq!(b.on_event(BeatEvent::Sent), BeatAction::ReadResponse(1024));
    assert_eq!(b.phase, BeatPhase::AwaitingResponse);
    assert_eq!(b.on_event(BeatEvent::ResponseDone), BeatAction::Wait(1000));
    assert_eq!(b.sent, 1);

    let mut d = Heartbeat::new(ChannelKind::Datagram, 500, false);
    assert_eq!(drive(&mut d, &[true, true, true, true, false]), 5);
    assert_eq!(d.sent, 4);
    assert_eq!(d.on_event(BeatEvent::Opened), BeatAction::Stop);
}

#[test]
fn heartbeat_ignores_events_out_of_phase() {
    let mut b = Heartbeat::new(ChannelKind::Uni, 1000, false);
    assert_eq!(b.on_event(BeatEvent::Sent), BeatAction::Ignore);
    assert_eq!(b, Heartbeat::new(ChannelKind::Uni, 1000, false));
}

#[test]
fn stored_credentials_are_used_as_they_are() {
    let pair = CredentialPair { certificate: vec![1, 2, 3], private_key: vec![4, 5] };
    let (got, source) = obtain_credentials(Some(pair.clone())).unwrap();
    assert_eq!(got, pair);
    assert_eq!(source, CredentialSource::Loaded);
}

#[test]
fn missing_credentials_are_generated() {
    let (got, source) = obtain_credentials(None).unwrap();
    assert_eq!(source, CredentialSource::Generated);
    assert!(!got.certificate.is_empty());
    assert!(!got.private_key.is_empty());
    assert_ne!(got.certificate, got.private_key);
}

#[test]
fn heartbeat_stops_at_failed_write() {
    let mut b = Heartbeat::new(ChannelKind::Uni, 1000, false);
    assert_eq!(drive(&mut b, &[true, true]), 2);
    assert_eq!(b.on_event(BeatEvent::Tick), BeatAction::Open(ChannelKind::Uni));
    assert_eq!(b.on_event(BeatEvent::Opened), BeatAction::Write);
    assert_eq!(b.on_event(BeatEvent::SendFailed), BeatAction::Stop);
    assert_eq!(b.phase, BeatPhase::Stopped);
    assert_eq!(b.sent, 2);
    assert_eq!(b.on_event(BeatEvent::Tick), BeatAction::Stop);
}

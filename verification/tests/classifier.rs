use demuxrs::classifier::{
    ClassifyEvent, ClassifyState, ConnectionSession, DETECT_BUFFER_CAPACITY,
};
use demuxrs::detect::Protocol;

#[test]
fn test_classifier_classifies_ssh() {
    let mut session = ConnectionSession::new();
    assert_eq!(session.remaining_capacity(), DETECT_BUFFER_CAPACITY);
    let step = session.classify_step(ClassifyEvent::Data(b"SSH-2.0-OpenSSH_8.1".to_vec()));
    assert_eq!(step, ClassifyState::Classified(Protocol::Ssh));
    // The prefix handed on for replay is exactly what the client sent.
    assert_eq!(session.into_prefix(), b"SSH-2.0-OpenSSH_8.1".to_vec());
}

#[test]
fn test_classifier_waits_for_xmpp_window() {
    let mut buf = vec![b'x'; 60];
    for (i, b) in b"jabber".iter().enumerate() {
        buf[52 + i] = *b;
    }
    let mut session = ConnectionSession::new();
    let step = session.classify_step(ClassifyEvent::Data(buf[..49].to_vec()));
    assert_eq!(step, ClassifyState::Collecting);
    let step = session.classify_step(ClassifyEvent::Data(buf[49..].to_vec()));
    assert_eq!(step, ClassifyState::Classified(Protocol::Xmpp));
    assert_eq!(session.into_prefix(), buf);
}

#[test]
fn test_classifier_timeout_gives_up() {
    // A client that sends too few bytes for any recognizer and then goes
    // silent is given up on once the deadline elapses.
    let mut session = ConnectionSession::new();
    let step = session.classify_step(ClassifyEvent::Data(b"SS".to_vec()));
    assert_eq!(step, ClassifyState::Collecting);
    let step = session.classify_step(ClassifyEvent::TimedOut);
    assert_eq!(step, ClassifyState::GaveUp);
}

#[test]
fn test_classifier_eof_gives_up() {
    let mut session = ConnectionSession::new();
    let step = session.classify_step(ClassifyEvent::Eof);
    assert_eq!(step, ClassifyState::GaveUp);
}

#[test]
fn test_classifier_full_buffer_gives_up() {
    // A client that fills the whole detection buffer without producing a
    // recognizable signature is given up on.
    let mut session = ConnectionSession::new();
    let step = session.classify_step(ClassifyEvent::Data(vec![0xAA; DETECT_BUFFER_CAPACITY]));
    assert_eq!(step, ClassifyState::GaveUp);
}

#[test]
fn test_classifier_capacity_tracks_reads() {
    let mut session = ConnectionSession::new();
    let step = session.classify_step(ClassifyEvent::Data(vec![b'z'; 100]));
    assert_eq!(step, ClassifyState::Collecting);
    assert_eq!(session.remaining_capacity(), DETECT_BUFFER_CAPACITY - 100);
}

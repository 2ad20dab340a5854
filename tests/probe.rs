use ssh_hostkey_probe::probe::{step, HostKey, ProbeAction, ProbeError, ProbeEvent, ProbeState};

fn key() -> ProbeEvent {
    ProbeEvent::HostKey(HostKey {
        blob: b"abc".to_vec(),
        algorithm: "ssh-ed25519".to_string(),
        fingerprint: "SHA256:fp1".to_string(),
    })
}

#[test]
fn successful_probe_emits_one_line() {
    let (s, a) = step(ProbeState::Init, &ProbeEvent::Connected);
    assert_eq!(s, ProbeState::Handshaking);
    assert!(matches!(a, ProbeAction::Wait));
    let (s, a) = step(s, &ProbeEvent::Other);
    assert_eq!(s, ProbeState::Handshaking);
    assert!(matches!(a, ProbeAction::Wait));
    let (s, a) = step(s, &key());
    assert_eq!(s, ProbeState::Disconnecting);
    match a {
        ProbeAction::Emit(line) => assert_eq!(line, "YWJj ssh-ed25519 SHA256:fp1"),
        _ => panic!("expected a line"),
    }
    let (s, a) = step(s, &ProbeEvent::Closed);
    assert_eq!(s, ProbeState::Terminal);
    assert!(matches!(a, ProbeAction::Finish));
}

#[test]
fn connect_failure_aborts_without_line() {
    let (s, a) = step(ProbeState::Init, &ProbeEvent::ConnectFailed);
    assert_eq!(s, ProbeState::Terminal);
    assert!(matches!(a, ProbeAction::Abort(ProbeError::Transport)));
}

#[test]
fn bad_signature_aborts_with_crypto_error() {
    let (s, _) = step(ProbeState::Init, &ProbeEvent::Connected);
    let (s, a) = step(s, &ProbeEvent::Failed(ProbeError::Crypto));
    assert_eq!(s, ProbeState::Terminal);
    assert!(matches!(a, ProbeAction::Abort(ProbeError::Crypto)));
}

#[test]
fn negotiation_failure_aborts() {
    let (s, _) = step(ProbeState::Init, &ProbeEvent::Connected);
    let (_, a) = step(s, &ProbeEvent::Failed(ProbeError::Negotiation));
    assert!(matches!(a, ProbeAction::Abort(ProbeError::Negotiation)));
}

#[test]
fn invalid_dh_value_aborts_with_protocol_error() {
    let (s, _) = step(ProbeState::Init, &ProbeEvent::Connected);
    let (_, a) = step(s, &ProbeEvent::Failed(ProbeError::Protocol));
    assert!(matches!(a, ProbeAction::Abort(ProbeError::Protocol)));
}

#[test]
fn close_before_key_is_transport_error() {
    let (s, _) = step(ProbeState::Init, &ProbeEvent::Connected);
    let (s, a) = step(s, &ProbeEvent::Closed);
    assert_eq!(s, ProbeState::Terminal);
    assert!(matches!(a, ProbeAction::Abort(ProbeError::Transport)));
}

#[test]
fn key_before_connect_is_protocol_error() {
    let (s, a) = step(ProbeState::Init, &key());
    assert_eq!(s, ProbeState::Terminal);
    assert!(matches!(a, ProbeAction::Abort(ProbeError::Protocol)));
}

#[test]
fn second_key_is_not_reported() {
    let (s, _) = step(ProbeState::Init, &ProbeEvent::Connected);
    let (s, _) = step(s, &key());
    let (s, a) = step(s, &key());
    assert_eq!(s, ProbeState::Terminal);
    assert!(matches!(a, ProbeAction::Finish));
    let (s, a) = step(s, &key());
    assert_eq!(s, ProbeState::Terminal);
    assert!(matches!(a, ProbeAction::Finish));
}

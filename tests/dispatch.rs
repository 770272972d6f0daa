use safe_launcher::dispatch::{classify, DispatchError, SessionEvent};
use safe_launcher::events::{
    AppAuthenticationEvent, ExternalEvent, IpcSessionEventCategory, RsaKeyExchangeEvent,
    SecureCommunicationEvent,
};

fn kind(msg: &[u8]) -> Result<SessionEvent<()>, DispatchError> {
    classify::<()>(msg)
}

#[test]
fn nonce_proof_is_authentication() {
    match kind(&[0, 0, b'N', b'1']) {
        Ok(ev) => {
            assert_eq!(ev.category(), IpcSessionEventCategory::AppAuthenticationEvent);
            match ev {
                SessionEvent::AppAuthentication(AppAuthenticationEvent::ReceivedNonce(s)) => assert_eq!(s, "N1"),
                _ => panic!("wrong payload"),
            }
        },
        Err(_) => panic!("rejected"),
    }
}

#[test]
fn empty_nonce_proof_is_empty_text() {
    match kind(&[0, 0]) {
        Ok(SessionEvent::AppAuthentication(AppAuthenticationEvent::ReceivedNonce(s))) => assert!(s.is_empty()),
        _ => panic!("wrong classification"),
    }
}

#[test]
fn non_utf8_proof_is_malformed() {
    assert!(matches!(kind(&[0, 0, 0xff, 0xfe]), Err(DispatchError::Malformed)));
}

#[test]
fn failure_messages() {
    assert!(matches!(kind(&[0, 1]), Ok(SessionEvent::AppAuthentication(AppAuthenticationEvent::Failed))));
    assert!(matches!(kind(&[1, 1]), Ok(SessionEvent::RsaKeyExchange(RsaKeyExchangeEvent::Failed))));
    assert!(matches!(kind(&[0, 1, 9]), Err(DispatchError::Malformed)));
}

#[test]
fn wrapped_key_payload_is_kept() {
    match kind(&[1, 0, 5, 6, 7]) {
        Ok(ev) => {
            assert_eq!(ev.category(), IpcSessionEventCategory::RsaKeyExchangeEvent);
            match ev {
                SessionEvent::RsaKeyExchange(RsaKeyExchangeEvent::SymmetricCipher(w)) => assert_eq!(w, vec![5, 6, 7]),
                _ => panic!("wrong payload"),
            }
        },
        Err(_) => panic!("rejected"),
    }
}

#[test]
fn secure_and_external_messages() {
    let ev = kind(&[2, 0]).ok().unwrap();
    assert_eq!(ev.category(), IpcSessionEventCategory::SecureCommunicationEvent);
    assert!(matches!(ev, SessionEvent::SecureCommunication(SecureCommunicationEvent::PlaceHolder)));
    let ev = kind(&[3, 1, 1]).ok().unwrap();
    assert_eq!(ev.category(), IpcSessionEventCategory::ExternalEvent);
    assert!(matches!(ev, SessionEvent::External(ExternalEvent::ChangeSafeDriveAccess(true))));
    assert!(matches!(kind(&[3, 1, 0]), Ok(SessionEvent::External(ExternalEvent::ChangeSafeDriveAccess(false)))));
    assert!(matches!(kind(&[3, 2]), Ok(SessionEvent::External(ExternalEvent::Terminate))));
}

#[test]
fn malformed_messages() {
    for msg in [&[][..], &[0][..], &[4, 0][..], &[2, 1][..], &[2, 0, 0][..], &[3, 0][..], &[3, 1, 2][..], &[3, 1][..], &[3, 2, 0][..]] {
        assert!(matches!(kind(msg), Err(DispatchError::Malformed)));
    }
}

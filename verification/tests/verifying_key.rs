use win_webauthn::error::{ErrorCause, ErrorKind};
use win_webauthn::verifying_key::{public_key_parse_result, signature_verification_result};

#[test]
fn public_key_parse_outcomes() {
    assert!(public_key_parse_result(Ok(())).is_ok());
    let e = public_key_parse_result(Err(ErrorCause::Windows(-2146893819))).unwrap_err();
    assert_eq!(e.kind, ErrorKind::WindowsInternal);
    assert_eq!(e.message, "Could not parse public key");
    assert!(matches!(e.cause, Some(ErrorCause::Windows(-2146893819))));
}

#[test]
fn signature_verification_outcomes() {
    assert!(signature_verification_result(Ok(())).is_ok());
    let e = signature_verification_result(Err(ErrorCause::Windows(-1073700542))).unwrap_err();
    assert_eq!(e.kind, ErrorKind::WindowsInternal);
    assert_eq!(e.message, "Failed to verify signature");
    assert!(matches!(e.cause, Some(ErrorCause::Windows(-1073700542))));
}

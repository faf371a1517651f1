use vstd::prelude::*;
use crate::error::{ErrorCause, ErrorKind, WinWebAuthnError, error_is};

verus! {

/// The outcome of reading the platform's public key blob (the key that signs
/// operation requests or user verification responses): a failure becomes a
/// platform error caused by the reader's error.
pub fn public_key_parse_result(outcome: Result<(), ErrorCause>) -> (res: Result<(), WinWebAuthnError>)
    ensures
        outcome is Ok <==> res is Ok,
        outcome matches Err(cause) ==> (res matches Err(e) && error_is(
            e,
            ErrorKind::WindowsInternal,
            "Could not parse public key"@,
            Some(cause),
        )),
{
    match outcome {
        Ok(()) => Ok(()),
        Err(cause) => Err(
            WinWebAuthnError::with_cause(ErrorKind::WindowsInternal, "Could not parse public key", cause),
        ),
    }
}

/// The outcome of checking a signature over a request hash with the
/// platform's public key: a failure becomes a platform error caused by the
/// checker's error.
pub fn signature_verification_result(outcome: Result<(), ErrorCause>) -> (res: Result<
    (),
    WinWebAuthnError,
>)
    ensures
        outcome is Ok <==> res is Ok,
        outcome matches Err(cause) ==> (res matches Err(e) && error_is(
            e,
            ErrorKind::WindowsInternal,
            "Failed to verify signature"@,
            Some(cause),
        )),
{
    match outcome {
        Ok(()) => Ok(()),
        Err(cause) => Err(
            WinWebAuthnError::with_cause(ErrorKind::WindowsInternal, "Failed to verify signature", cause),
        ),
    }
}

} // verus!

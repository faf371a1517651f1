use vstd::prelude::*;

verus! {

/// Broad classes of failure reported by the library.
#[derive(Clone, Copy, Debug, PartialEq, Eq, Structural)]
pub enum ErrorKind {
    /// The caller passed something the platform or the library cannot accept.
    InvalidArguments,
    /// The Windows platform reported a failure.
    WindowsInternal,
}

/// What lies beneath an error.
#[derive(Debug)]
pub enum ErrorCause {
    /// A failing HRESULT returned by the platform.
    Windows(i32),
    /// A count that does not fit in the 32-bit field the platform expects.
    CountOverflow,
    /// Another error of this library.
    Nested(Box<WinWebAuthnError>),
}

/// An error of the library: its kind, a message, and an optional cause.
#[derive(Debug)]
pub struct WinWebAuthnError {
    pub kind: ErrorKind,
    pub message: String,
    pub cause: Option<ErrorCause>,
}

/// `e` is of the given kind, message and cause.
pub open spec fn error_is(
    e: WinWebAuthnError,
    kind: ErrorKind,
    message: Seq<char>,
    cause: Option<ErrorCause>,
) -> bool {
    &&& e.kind == kind
    &&& e.message@ == message
    &&& e.cause == cause
}

impl WinWebAuthnError {
    /// An error with no cause.
    pub fn new(kind: ErrorKind, message: &str) -> (e: Self)
        ensures
            e.kind == kind,
            e.message@ == message@,
            e.cause is None,
    {
        WinWebAuthnError { kind, message: message.to_owned(), cause: None }
    }

    /// An error caused by `cause`.
    pub fn with_cause(kind: ErrorKind, message: &str, cause: ErrorCause) -> (e: Self)
        ensures
            e.kind == kind,
            e.message@ == message@,
            e.cause == Some(cause),
    {
        WinWebAuthnError { kind, message: message.to_owned(), cause: Some(cause) }
    }
}

/// Whether an HRESULT reports success: success and informational codes are
/// non-negative, failure codes have the severity bit set.
pub open spec fn hresult_succeeded(code: i32) -> bool {
    code >= 0
}

/// An HRESULT reads as success exactly when its severity bit (bit 31) is
/// clear; every code with the severity bit set is a failure.
pub proof fn lemma_hresult_severity_bit(code: i32)
    ensures
        hresult_succeeded(code) <==> ((code as u32) >> 31u32) == 0u32,
        hresult_succeeded(code) <==> code >= 0,
{
    assert((code >= 0) <==> (((code as u32) >> 31u32) == 0u32)) by (bit_vector);
}

/// Success test of an HRESULT, as `HRESULT::is_ok` performs it.
pub fn hresult_is_ok(code: i32) -> (ok: bool)
    ensures
        ok == hresult_succeeded(code),
        ok <==> code >= 0,
{
    code >= 0
}

/// The platform's answer to a call that returns only an HRESULT, as a result:
/// success, or an error of `kind` with `message`, caused by the failing code.
pub fn check_hresult(code: i32, kind: ErrorKind, message: &str) -> (res: Result<(), WinWebAuthnError>)
    ensures
        hresult_succeeded(code) <==> res is Ok,
        code >= 0 <==> res is Ok,
        res matches Err(e) ==> error_is(e, kind, message@, Some(ErrorCause::Windows(code))),
{
    if hresult_is_ok(code) {
        Ok(())
    } else {
        Err(WinWebAuthnError::with_cause(kind, message, ErrorCause::Windows(code)))
    }
}

} // verus!

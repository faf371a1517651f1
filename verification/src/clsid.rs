use vstd::prelude::*;
use crate::error::{ErrorCause, ErrorKind, WinWebAuthnError, error_is};

verus! {

/// A COM globally unique identifier, field by field as Windows lays it out.
#[derive(Clone, Copy, Debug)]
pub struct Guid {
    pub data1: u32,
    pub data2: u16,
    pub data3: u16,
    pub data4: [u8; 8],
}

/// The COM class identifier of a plugin authenticator.
#[derive(Clone, Copy, Debug)]
pub struct Clsid(Guid);

impl Clsid {
    /// The class identifier with the given GUID.
    pub fn from_guid(guid: Guid) -> (c: Self)
        ensures
            c.guid() == guid,
    {
        Clsid(guid)
    }

    /// The GUID of this class identifier.
    pub closed spec fn guid(&self) -> Guid {
        self.0
    }

    /// The GUID of this class identifier.
    pub fn as_guid(&self) -> (g: Guid)
        ensures
            g == self.guid(),
    {
        self.0
    }

    /// The class identifier read from a CLSID string, from the platform's
    /// parse of it: the parsed GUID, or the failing HRESULT, which becomes an
    /// invalid-arguments error.
    pub fn from_parse_result(parsed: Result<Guid, i32>) -> (res: Result<Clsid, WinWebAuthnError>)
        ensures
            parsed matches Ok(g) ==> (res matches Ok(c) && c.guid() == g),
            parsed matches Err(code) ==> (res matches Err(e) && error_is(
                e,
                ErrorKind::InvalidArguments,
                "Failed to parse CLSID"@,
                Some(ErrorCause::Windows(code)),
            )),
    {
        match parsed {
            Ok(guid) => Ok(Clsid(guid)),
            Err(code) => Err(
                WinWebAuthnError::with_cause(
                    ErrorKind::InvalidArguments,
                    "Failed to parse CLSID",
                    ErrorCause::Windows(code),
                ),
            ),
        }
    }
}

} // verus!

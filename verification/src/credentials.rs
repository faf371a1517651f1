use vstd::prelude::*;
use crate::authenticator::wide_matches;
use crate::error::{ErrorCause, ErrorKind, WinWebAuthnError, check_hresult, error_is, hresult_succeeded};
use crate::wide::{to_utf16, wide_string};

verus! {

/// Credential metadata to sync to the Windows Hello credential autofill list.
#[derive(Debug)]
pub struct PluginCredentialDetails {
    /// Credential ID.
    pub credential_id: Vec<u8>,
    /// Relying party ID.
    pub rp_id: String,
    /// Relying party display name.
    pub rp_friendly_name: Option<String>,
    /// User handle.
    pub user_id: Vec<u8>,
    /// User name (the `name` of the WebAuthn user entity).
    pub user_name: String,
    /// User display name (the `displayName` of the WebAuthn user entity).
    pub user_display_name: String,
}

/// The byte counts of a credential's identifiers fit the platform's 32-bit fields.
pub open spec fn details_fit(d: PluginCredentialDetails) -> bool {
    &&& d.credential_id@.len() <= u32::MAX
    &&& d.user_id@.len() <= u32::MAX
}

/// Credential metadata in the form the platform's autofill list takes: texts
/// as null-terminated wide strings, identifiers as bytes with their 32-bit counts.
#[derive(Debug)]
pub struct PluginCredentialDetailsRaw {
    pub credential_id: Vec<u8>,
    pub credential_id_byte_count: u32,
    pub rp_id: Vec<u16>,
    pub rp_friendly_name: Option<Vec<u16>>,
    pub user_id: Vec<u8>,
    pub user_id_byte_count: u32,
    pub user_name: Vec<u16>,
    pub user_display_name: Vec<u16>,
}

/// `raw` is the platform form of `d`.
pub open spec fn raw_matches(raw: PluginCredentialDetailsRaw, d: PluginCredentialDetails) -> bool {
    &&& raw.credential_id@ == d.credential_id@
    &&& raw.credential_id_byte_count == d.credential_id@.len()
    &&& raw.rp_id@ == wide_string(d.rp_id@)
    &&& wide_matches(raw.rp_friendly_name, d.rp_friendly_name)
    &&& raw.user_id@ == d.user_id@
    &&& raw.user_id_byte_count == d.user_id@.len()
    &&& raw.user_name@ == wide_string(d.user_name@)
    &&& raw.user_display_name@ == wide_string(d.user_display_name@)
}

fn copy_bytes(v: &Vec<u8>) -> (res: Vec<u8>)
    ensures
        res@ == v@,
{
    let res = v.clone();
    proof {
        assert(res@ =~= v@);
    }
    res
}

impl PluginCredentialDetailsRaw {
    /// The platform form of a credential's metadata.
    pub fn from_details(value: &PluginCredentialDetails) -> (raw: Self)
        requires
            details_fit(*value),
        ensures
            raw_matches(raw, *value),
    {
        let credential_id = copy_bytes(&value.credential_id);
        let user_id = copy_bytes(&value.user_id);
        let rp_id = to_utf16(value.rp_id.as_str());
        let rp_friendly_name = match &value.rp_friendly_name {
            Some(name) => Some(to_utf16(name.as_str())),
            None => None,
        };
        let user_name = to_utf16(value.user_name.as_str());
        let user_display_name = to_utf16(value.user_display_name.as_str());
        PluginCredentialDetailsRaw {
            credential_id_byte_count: credential_id.len() as u32,
            credential_id,
            rp_id,
            rp_friendly_name,
            user_id_byte_count: user_id.len() as u32,
            user_id,
            user_name,
            user_display_name,
        }
    }
}

/// The outcome of the platform's call adding a credential list to the
/// autofill store, from its HRESULT.
pub fn add_credentials_result(hresult: i32) -> (res: Result<(), WinWebAuthnError>)
    ensures
        hresult_succeeded(hresult) <==> res is Ok,
        hresult >= 0 <==> res is Ok,
        res matches Err(e) ==> error_is(
            e,
            ErrorKind::WindowsInternal,
            "Failed to add credential list to autofill store"@,
            Some(ErrorCause::Windows(hresult)),
        ),
{
    check_hresult(hresult, ErrorKind::WindowsInternal, "Failed to add credential list to autofill store")
}

/// The outcome of the platform's call removing all credentials of a plugin,
/// from its HRESULT.
pub fn remove_all_credentials_result(hresult: i32) -> (res: Result<(), WinWebAuthnError>)
    ensures
        hresult_succeeded(hresult) <==> res is Ok,
        hresult >= 0 <==> res is Ok,
        res matches Err(e) ==> error_is(
            e,
            ErrorKind::InvalidArguments,
            "Error removing credentials"@,
            Some(ErrorCause::Windows(hresult)),
        ),
{
    check_hresult(hresult, ErrorKind::InvalidArguments, "Error removing credentials")
}

} // verus!

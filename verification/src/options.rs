use vstd::prelude::*;

verus! {

/// The tri-state meaning of a CTAP option flag as the platform reports it:
/// a positive value is `true`, a negative one `false`, and zero means the
/// option was not given.
pub open spec fn optional_bool_of(value: i32) -> Option<bool> {
    if value > 0 {
        Some(true)
    } else if value < 0 {
        Some(false)
    } else {
        None
    }
}

/// The sign of a flag value: 1, -1 or 0.
pub open spec fn sign_of(value: i32) -> i32 {
    if value > 0 {
        1
    } else if value < 0 {
        -1i32
    } else {
        0
    }
}

/// Order of the tri-state flags: false below absent below true.
pub open spec fn flag_rank(flag: Option<bool>) -> int {
    match flag {
        Some(false) => 0,
        None => 1,
        Some(true) => 2,
    }
}

/// Only the sign of a flag value matters.
pub proof fn lemma_flag_depends_on_sign(value: i32)
    ensures
        optional_bool_of(value) == optional_bool_of(sign_of(value)),
{
}

/// Negating a flag value negates a given flag and keeps an absent one absent.
pub proof fn lemma_flag_negation(value: i32)
    requires
        value != i32::MIN,
    ensures
        optional_bool_of((-value) as i32) == match optional_bool_of(value) {
            Some(b) => Some(!b),
            None => None,
        },
{
}

/// A greater flag value never reads as a lesser flag.
pub proof fn lemma_flag_monotone(a: i32, b: i32)
    requires
        a <= b,
    ensures
        flag_rank(optional_bool_of(a)) <= flag_rank(optional_bool_of(b)),
{
}

/// CTAP authenticator options of a make-credential or get-assertion request,
/// as the platform passes them to a plugin.
#[derive(Clone, Copy, Debug, PartialEq, Eq, Structural)]
pub struct WebAuthnCtapCborAuthenticatorOptions {
    /// Version of the structure.
    pub dw_version: u32,
    /// User presence: positive for true, negative for false, zero if absent.
    pub l_up: i32,
    /// User verification: positive for true, negative for false, zero if absent.
    pub l_uv: i32,
    /// Resident key requirement: positive for true, negative for false, zero if absent.
    pub l_require_resident_key: i32,
}

impl WebAuthnCtapCborAuthenticatorOptions {
    /// Version of the options structure.
    pub fn version(&self) -> (v: u32)
        ensures
            v == self.dw_version,
    {
        self.dw_version
    }

    /// Whether user presence is requested, if the request says so.
    pub fn user_presence(&self) -> (r: Option<bool>)
        ensures
            r == optional_bool_of(self.l_up),
    {
        Self::to_optional_bool(self.l_up)
    }

    /// Whether user verification is requested, if the request says so.
    pub fn user_verification(&self) -> (r: Option<bool>)
        ensures
            r == optional_bool_of(self.l_uv),
    {
        Self::to_optional_bool(self.l_uv)
    }

    /// Whether a resident (discoverable) key is required, if the request says so.
    pub fn require_resident_key(&self) -> (r: Option<bool>)
        ensures
            r == optional_bool_of(self.l_require_resident_key),
    {
        Self::to_optional_bool(self.l_require_resident_key)
    }

    /// The tri-state flag a platform value stands for.
    pub fn to_optional_bool(value: i32) -> (r: Option<bool>)
        ensures
            r == optional_bool_of(value),
    {
        if value > 0 {
            Some(true)
        } else if value < 0 {
            Some(false)
        } else {
            None
        }
    }
}

} // verus!

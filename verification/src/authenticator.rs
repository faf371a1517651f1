use vstd::prelude::*;
use vstd::utf8::encode_utf8;
use crate::clsid::Clsid;
use crate::encoding::{
    base64_decode_standard, base64_encode_standard, base64_padded_len, base64_standard,
};
use crate::error::{
    ErrorCause, ErrorKind, WinWebAuthnError, error_is, hresult_is_ok, hresult_succeeded,
};
use crate::wide::{to_utf16, wide_string};

verus! {

/// The wide string handed to the platform for an SVG logo: the standard Base64
/// text of the SVG document's UTF-8 bytes, null-terminated.
pub open spec fn logo_wide(svg: Seq<char>) -> Seq<u16> {
    wide_string(base64_standard(encode_utf8(svg)))
}

/// The characters of a wide logo, its terminator left off.
pub open spec fn logo_text(w: Seq<u16>) -> Seq<char> {
    Seq::new((w.len() - 1) as nat, |i: int| w[i] as u32 as char)
}

/// A wide logo is null-terminated, and reading its characters back and
/// decoding their Base64 gives back exactly the SVG document's UTF-8 bytes.
pub proof fn lemma_logo_round_trip(svg: Seq<char>)
    ensures
        logo_wide(svg).last() == 0,
        base64_decode_standard(logo_text(logo_wide(svg))) == encode_utf8(svg),
{
    let bytes = encode_utf8(svg);
    let t = base64_standard(bytes);
    crate::encoding::lemma_base64_standard_shape(bytes);
    assert forall|i: int| 0 <= i < t.len() implies (#[trigger] t[i] as u32) < 0x10000 by {
        assert((t[i] as u32) < 0x80);
    }
    crate::wide::lemma_utf16_of_bmp(t);
    let w = logo_wide(svg);
    assert forall|i: int| 0 <= i < t.len() implies #[trigger] logo_text(w)[i] == t[i] by {
        assert(w[i] == crate::wide::utf16_of(t)[i]);
        assert(w[i] as u32 == t[i] as u32);
        vstd::utf8::char_u32_cast(t[i], w[i] as u32);
    }
    assert(logo_text(w) =~= t);
    crate::encoding::lemma_base64_round_trip(bytes);
}

/// An optional wide string stands for an optional text.
pub open spec fn wide_matches(w: Option<Vec<u16>>, s: Option<String>) -> bool {
    match (w, s) {
        (Some(w), Some(s)) => w@ == wide_string(s@),
        (None, None) => true,
        _ => false,
    }
}

/// An optional wide logo stands for an optional SVG document.
pub open spec fn logo_matches(w: Option<Vec<u16>>, svg: Option<String>) -> bool {
    match (w, svg) {
        (Some(w), Some(svg)) => w@ == logo_wide(svg@),
        (None, None) => true,
        _ => false,
    }
}

/// An SVG document short enough to be Base64-encoded in memory (any string
/// that fits in an address space qualifies).
pub open spec fn svg_encodable(svg: Option<String>) -> bool {
    svg matches Some(s) ==> encode_utf8(s@).len() <= usize::MAX / 2
}

/// What a plugin registers with the platform.
pub struct PluginAddAuthenticatorOptions {
    /// Authenticator name.
    pub authenticator_name: String,
    /// Plugin COM class identifier.
    pub clsid: Clsid,
    /// Plugin relying party identifier, required for a nested WebAuthn call
    /// originating from the plugin.
    pub rp_id: Option<String>,
    /// Logo for light themes: a valid SVG 1.1 document.
    pub light_theme_logo_svg: Option<String>,
    /// Logo for dark themes: a valid SVG 1.1 document.
    pub dark_theme_logo_svg: Option<String>,
    /// CTAP authenticatorGetInfo response, encoded.
    pub authenticator_info: Vec<u8>,
    /// Supported relying party identifiers; `None` when all are supported.
    pub supported_rp_ids: Option<Vec<String>>,
}

impl PluginAddAuthenticatorOptions {
    /// The light-theme logo as the platform takes it.
    pub fn light_theme_logo_b64(&self) -> (res: Option<Vec<u16>>)
        requires
            svg_encodable(self.light_theme_logo_svg),
        ensures
            logo_matches(res, self.light_theme_logo_svg),
    {
        match &self.light_theme_logo_svg {
            Some(svg) => Some(Self::encode_svg(svg.as_str())),
            None => None,
        }
    }

    /// The dark-theme logo as the platform takes it.
    pub fn dark_theme_logo_b64(&self) -> (res: Option<Vec<u16>>)
        requires
            svg_encodable(self.dark_theme_logo_svg),
        ensures
            logo_matches(res, self.dark_theme_logo_svg),
    {
        match &self.dark_theme_logo_svg {
            Some(svg) => Some(Self::encode_svg(svg.as_str())),
            None => None,
        }
    }

    /// An SVG document as the platform takes it: Base64 of its UTF-8 bytes, as
    /// a null-terminated wide string of one unit per Base64 character.
    pub fn encode_svg(svg: &str) -> (res: Vec<u16>)
        requires
            encode_utf8(svg@).len() <= usize::MAX / 2,
        ensures
            res@ == logo_wide(svg@),
            res@.len() == base64_padded_len(encode_utf8(svg@).len()) + 1,
    {
        let logo_b64 = base64_encode_standard(svg.as_bytes());
        let res = to_utf16(logo_b64.as_str());
        proof {
            let t = base64_standard(encode_utf8(svg@));
            crate::encoding::lemma_base64_standard_shape(encode_utf8(svg@));
            assert forall|i: int| 0 <= i < t.len() implies (#[trigger] t[i] as u32) < 0x10000 by {
                assert((t[i] as u32) < 0x80);
            }
            crate::wide::lemma_utf16_of_bmp(t);
        }
        res
    }
}

/// Supported relying party identifiers as wide strings, one for one and in order.
pub open spec fn wide_list_matches(w: Option<Vec<Vec<u16>>>, ids: Option<Vec<String>>) -> bool {
    match (w, ids) {
        (Some(w), Some(ids)) => w@.len() == ids@.len() && forall|i: int|
            0 <= i < ids@.len() ==> (#[trigger] w@[i])@ == wide_string(ids@[i]@),
        (None, None) => true,
        _ => false,
    }
}

/// Registration options in the form the platform's registration call reads:
/// every text as a null-terminated wide string, the logos Base64-encoded, and
/// the 32-bit counts that accompany the buffers.
pub struct PluginAddAuthenticatorOptionsRaw {
    pub clsid: Clsid,
    pub authenticator_name: Vec<u16>,
    pub rp_id: Option<Vec<u16>>,
    pub light_logo_b64: Option<Vec<u16>>,
    pub dark_logo_b64: Option<Vec<u16>>,
    pub authenticator_info: Vec<u8>,
    /// Byte count of `authenticator_info`, as the platform's 32-bit field holds it.
    pub authenticator_info_len: u32,
    pub supported_rp_ids: Option<Vec<Vec<u16>>>,
    /// Number of supported relying party identifiers; zero when all are supported.
    pub supported_rp_id_count: u32,
}

/// The wide strings of a list of texts, in order.
fn wide_strings(ids: &Vec<String>) -> (res: Vec<Vec<u16>>)
    ensures
        wide_list_matches(Some(res), Some(*ids)),
{
    let mut res: Vec<Vec<u16>> = Vec::new();
    let mut i: usize = 0;
    while i < ids.len()
        invariant
            i <= ids@.len(),
            res@.len() == i,
            forall|j: int| 0 <= j < i ==> (#[trigger] res@[j])@ == wide_string(ids@[j]@),
        decreases ids@.len() - i,
    {
        let w = to_utf16(ids[i].as_str());
        res.push(w);
        i = i + 1;
    }
    res
}

impl PluginAddAuthenticatorOptionsRaw {
    /// The registration options in the platform's form. Counts are the
    /// platform's 32-bit fields, taken from the lengths as `as u32` does.
    pub fn from_options(value: &PluginAddAuthenticatorOptions) -> (raw: Self)
        requires
            svg_encodable(value.light_theme_logo_svg),
            svg_encodable(value.dark_theme_logo_svg),
        ensures
            raw.clsid == value.clsid,
            raw.authenticator_name@ == wide_string(value.authenticator_name@),
            wide_matches(raw.rp_id, value.rp_id),
            logo_matches(raw.light_logo_b64, value.light_theme_logo_svg),
            logo_matches(raw.dark_logo_b64, value.dark_theme_logo_svg),
            raw.authenticator_info@ == value.authenticator_info@,
            raw.authenticator_info_len == value.authenticator_info@.len() as u32,
            wide_list_matches(raw.supported_rp_ids, value.supported_rp_ids),
            raw.supported_rp_id_count == match value.supported_rp_ids {
                Some(ids) => ids@.len() as u32,
                None => 0u32,
            },
    {
        let authenticator_name = to_utf16(value.authenticator_name.as_str());
        let rp_id = match &value.rp_id {
            Some(id) => Some(to_utf16(id.as_str())),
            None => None,
        };
        let light_logo_b64 = value.light_theme_logo_b64();
        let dark_logo_b64 = value.dark_theme_logo_b64();
        let authenticator_info = value.authenticator_info.clone();
        proof {
            assert(authenticator_info@ =~= value.authenticator_info@);
        }
        let authenticator_info_len = authenticator_info.len() as u32;
        let supported_rp_ids = match &value.supported_rp_ids {
            Some(ids) => Some(wide_strings(ids)),
            None => None,
        };
        let supported_rp_id_count = match &supported_rp_ids {
            Some(ids) => ids.len() as u32,
            None => 0,
        };
        PluginAddAuthenticatorOptionsRaw {
            clsid: value.clsid,
            authenticator_name,
            rp_id,
            light_logo_b64,
            dark_logo_b64,
            authenticator_info,
            authenticator_info_len,
            supported_rp_ids,
            supported_rp_id_count,
        }
    }
}

/// Response received when registering a plugin: the public key with which
/// the platform signs the operation requests it sends to the plugin.
#[derive(Debug)]
pub struct PluginAddAuthenticatorResponse {
    operation_signing_key: Vec<u8>,
}

impl PluginAddAuthenticatorResponse {
    /// The response carrying the given operation-signing public key.
    pub fn from_signing_key(key: Vec<u8>) -> (r: Self)
        ensures
            r.signing_key() == key@,
    {
        PluginAddAuthenticatorResponse { operation_signing_key: key }
    }

    /// The operation-signing public key, as bytes.
    pub closed spec fn signing_key(&self) -> Seq<u8> {
        self.operation_signing_key@
    }

    /// The public key with which the platform signs operation requests.
    pub fn plugin_operation_signing_key(&self) -> (key: &[u8])
        ensures
            key@ == self.signing_key(),
    {
        self.operation_signing_key.as_slice()
    }
}

/// The outcome of the platform's registration call, from its HRESULT and the
/// response it returned (`None` for a null response): a failing code is a
/// platform error caused by that code; a null response after success is a
/// platform error of its own; otherwise the response.
pub fn add_authenticator_result(hresult: i32, response: Option<Vec<u8>>) -> (res: Result<
    PluginAddAuthenticatorResponse,
    WinWebAuthnError,
>)
    ensures
        !hresult_succeeded(hresult) ==> (res matches Err(e) && error_is(
            e,
            ErrorKind::WindowsInternal,
            "Failed to add authenticator"@,
            Some(ErrorCause::Windows(hresult)),
        )),
        hresult_succeeded(hresult) && response is None ==> (res matches Err(e) && error_is(
            e,
            ErrorKind::WindowsInternal,
            "WebAuthNPluginAddAuthenticatorResponse returned null"@,
            None,
        )),
        hresult_succeeded(hresult) && response is Some ==> (res matches Ok(r) && r.signing_key()
            == response->0@),
        hresult < 0 ==> (res matches Err(e) && e.cause == Some(ErrorCause::Windows(hresult))),
        res is Ok <==> (hresult >= 0 && response is Some),
{
    if !hresult_is_ok(hresult) {
        return Err(
            WinWebAuthnError::with_cause(
                ErrorKind::WindowsInternal,
                "Failed to add authenticator",
                ErrorCause::Windows(hresult),
            ),
        );
    }
    match response {
        Some(key) => Ok(PluginAddAuthenticatorResponse::from_signing_key(key)),
        None => Err(
            WinWebAuthnError::new(
                ErrorKind::WindowsInternal,
                "WebAuthNPluginAddAuthenticatorResponse returned null",
            ),
        ),
    }
}

} // verus!

use base64::Engine;
use win_webauthn::authenticator::{
    add_authenticator_result, PluginAddAuthenticatorOptions, PluginAddAuthenticatorOptionsRaw,
    PluginAddAuthenticatorResponse,
};
use win_webauthn::clsid::{Clsid, Guid};
use win_webauthn::error::{ErrorCause, ErrorKind};
use win_webauthn::wide::to_utf16;

fn clsid() -> Clsid {
    Clsid::from_guid(Guid { data1: 1, data2: 2, data3: 3, data4: [4, 5, 6, 7, 8, 9, 10, 11] })
}

fn wide(s: &str) -> Vec<u16> {
    let mut v: Vec<u16> = s.encode_utf16().collect();
    v.push(0);
    v
}

fn options() -> PluginAddAuthenticatorOptions {
    PluginAddAuthenticatorOptions {
        authenticator_name: "Bitwarden".to_string(),
        clsid: clsid(),
        rp_id: Some("bitwarden.com".to_string()),
        light_theme_logo_svg: Some("<svg/>".to_string()),
        dark_theme_logo_svg: None,
        authenticator_info: vec![0xa1, 0x01, 0x81],
        supported_rp_ids: Some(vec!["a.example".to_string(), "b.example".to_string()]),
    }
}

#[test]
fn svg_is_base64_then_wide() {
    // base64("<svg/>") == "PHN2Zy8+"
    assert_eq!(PluginAddAuthenticatorOptions::encode_svg("<svg/>"), wide("PHN2Zy8+"));
}

#[test]
fn svg_padding_is_kept() {
    // base64("<svg>") == "PHN2Zz4="
    assert_eq!(PluginAddAuthenticatorOptions::encode_svg("<svg>"), wide("PHN2Zz4="));
    assert_eq!(PluginAddAuthenticatorOptions::encode_svg(""), vec![0]);
}

#[test]
fn svg_is_encoded_from_utf8_bytes() {
    // "é" is C3 A9 in UTF-8; base64 "w6k="
    assert_eq!(PluginAddAuthenticatorOptions::encode_svg("é"), wide("w6k="));
}

#[test]
fn logos_follow_options() {
    let o = options();
    assert_eq!(o.light_theme_logo_b64(), Some(wide("PHN2Zy8+")));
    assert_eq!(o.dark_theme_logo_b64(), None);
}

#[test]
fn raw_options_hold_platform_forms() {
    let o = options();
    let raw = PluginAddAuthenticatorOptionsRaw::from_options(&o);
    assert_eq!(raw.clsid.as_guid().data1, 1);
    assert_eq!(raw.authenticator_name, to_utf16("Bitwarden"));
    assert_eq!(raw.rp_id, Some(wide("bitwarden.com")));
    assert_eq!(raw.light_logo_b64, Some(wide("PHN2Zy8+")));
    assert_eq!(raw.dark_logo_b64, None);
    assert_eq!(raw.authenticator_info, vec![0xa1, 0x01, 0x81]);
    assert_eq!(raw.authenticator_info_len, 3);
    assert_eq!(raw.supported_rp_ids, Some(vec![wide("a.example"), wide("b.example")]));
    assert_eq!(raw.supported_rp_id_count, 2);
}

#[test]
fn raw_options_without_optional_parts() {
    let mut o = options();
    o.rp_id = None;
    o.light_theme_logo_svg = None;
    o.supported_rp_ids = None;
    let raw = PluginAddAuthenticatorOptionsRaw::from_options(&o);
    assert_eq!(raw.rp_id, None);
    assert_eq!(raw.light_logo_b64, None);
    assert_eq!(raw.supported_rp_ids, None);
    assert_eq!(raw.supported_rp_id_count, 0);
}

#[test]
fn response_exposes_signing_key() {
    let r = PluginAddAuthenticatorResponse::from_signing_key(vec![1, 2, 3]);
    assert_eq!(r.plugin_operation_signing_key(), &[1, 2, 3]);
}

#[test]
fn add_authenticator_success() {
    let r = add_authenticator_result(0, Some(vec![9, 8])).unwrap();
    assert_eq!(r.plugin_operation_signing_key(), &[9, 8]);
}

#[test]
fn add_authenticator_failing_hresult() {
    let e = add_authenticator_result(-2147024809, Some(vec![1])).unwrap_err();
    assert_eq!(e.kind, ErrorKind::WindowsInternal);
    assert_eq!(e.message, "Failed to add authenticator");
    assert!(matches!(e.cause, Some(ErrorCause::Windows(-2147024809))));
}

#[test]
fn add_authenticator_null_response() {
    let e = add_authenticator_result(0, None).unwrap_err();
    assert_eq!(e.kind, ErrorKind::WindowsInternal);
    assert_eq!(e.message, "WebAuthNPluginAddAuthenticatorResponse returned null");
    assert!(e.cause.is_none());
}

#[test]
fn svg_of_several_groups() {
    // base64("<svg></svg>") == "PHN2Zz48L3N2Zz4="
    assert_eq!(PluginAddAuthenticatorOptions::encode_svg("<svg></svg>"), wide("PHN2Zz48L3N2Zz4="));
}

#[test]
fn logo_decodes_back_to_svg_bytes() {
    let svg = "<svg xmlns=\"http://www.w3.org/2000/svg\">é😀</svg>";
    let w = PluginAddAuthenticatorOptions::encode_svg(svg);
    assert_eq!(w.last(), Some(&0));
    let text = String::from_utf16(&w[..w.len() - 1]).unwrap();
    let bytes = base64::engine::general_purpose::STANDARD.decode(text).unwrap();
    assert_eq!(bytes, svg.as_bytes());
}

use win_webauthn::credentials::{
    add_credentials_result, remove_all_credentials_result, PluginCredentialDetails,
    PluginCredentialDetailsRaw,
};
use win_webauthn::error::{ErrorCause, ErrorKind};

fn wide(s: &str) -> Vec<u16> {
    let mut v: Vec<u16> = s.encode_utf16().collect();
    v.push(0);
    v
}

fn details() -> PluginCredentialDetails {
    PluginCredentialDetails {
        credential_id: vec![1, 2, 3, 4],
        rp_id: "example.com".to_string(),
        rp_friendly_name: Some("Example".to_string()),
        user_id: vec![7; 16],
        user_name: "alice@example.com".to_string(),
        user_display_name: "Alice 😀".to_string(),
    }
}

#[test]
fn raw_details_hold_platform_forms() {
    let raw = PluginCredentialDetailsRaw::from_details(&details());
    assert_eq!(raw.credential_id, vec![1, 2, 3, 4]);
    assert_eq!(raw.credential_id_byte_count, 4);
    assert_eq!(raw.rp_id, wide("example.com"));
    assert_eq!(raw.rp_friendly_name, Some(wide("Example")));
    assert_eq!(raw.user_id, vec![7; 16]);
    assert_eq!(raw.user_id_byte_count, 16);
    assert_eq!(raw.user_name, wide("alice@example.com"));
    assert_eq!(raw.user_display_name, wide("Alice 😀"));
}

#[test]
fn raw_details_without_friendly_name() {
    let mut d = details();
    d.rp_friendly_name = None;
    let raw = PluginCredentialDetailsRaw::from_details(&d);
    assert_eq!(raw.rp_friendly_name, None);
}

#[test]
fn add_credentials_outcomes() {
    assert!(add_credentials_result(0).is_ok());
    let e = add_credentials_result(-2147024809).unwrap_err();
    assert_eq!(e.kind, ErrorKind::WindowsInternal);
    assert_eq!(e.message, "Failed to add credential list to autofill store");
    assert!(matches!(e.cause, Some(ErrorCause::Windows(-2147024809))));
}

#[test]
fn remove_all_credentials_outcomes() {
    assert!(remove_all_credentials_result(1).is_ok());
    let e = remove_all_credentials_result(-1).unwrap_err();
    assert_eq!(e.kind, ErrorKind::InvalidArguments);
    assert_eq!(e.message, "Error removing credentials");
    assert!(matches!(e.cause, Some(ErrorCause::Windows(-1))));
}

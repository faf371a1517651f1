use win_webauthn::clsid::{Clsid, Guid};
use win_webauthn::credentials::PluginCredentialDetails;
use win_webauthn::error::{ErrorCause, ErrorKind, WinWebAuthnError};
use win_webauthn::plugin::{SyncAction, SyncEvent, SyncStage, WebAuthnPlugin};

fn plugin() -> WebAuthnPlugin {
    WebAuthnPlugin::new(Clsid::from_guid(Guid { data1: 42, data2: 0, data3: 0, data4: [0; 8] }))
}

fn credential(n: u8) -> PluginCredentialDetails {
    PluginCredentialDetails {
        credential_id: vec![n],
        rp_id: format!("rp{}.example", n),
        rp_friendly_name: None,
        user_id: vec![n, n],
        user_name: format!("user{}", n),
        user_display_name: format!("User {}", n),
    }
}

fn platform_error() -> WinWebAuthnError {
    WinWebAuthnError::new(ErrorKind::WindowsInternal, "Failed to add credential list to autofill store")
}

#[test]
fn plugin_keeps_clsid() {
    assert_eq!(plugin().clsid().as_guid().data1, 42);
}

#[test]
fn sync_starts_by_removing() {
    let (sync, action) = plugin().sync_credentials(vec![credential(1)]);
    match action {
        SyncAction::RemoveAllCredentials(c) => assert_eq!(c.as_guid().data1, 42),
        _ => panic!("expected the existing credentials to be removed"),
    }
    assert_eq!(sync.current_stage(), SyncStage::RemovingExisting);
}

#[test]
fn empty_sync_succeeds_after_removal_without_adding() {
    let (mut sync, _) = plugin().sync_credentials(vec![]);
    let action = sync.on_event(SyncEvent::RemoveAllCompleted(Ok(())));
    assert!(matches!(action, SyncAction::Finish(Ok(()))));
    assert_eq!(sync.current_stage(), SyncStage::Finished);
}

#[test]
fn removal_failure_does_not_stop_sync() {
    let (mut sync, _) = plugin().sync_credentials(vec![credential(1), credential(2)]);
    let failed = WinWebAuthnError::with_cause(
        ErrorKind::InvalidArguments,
        "Error removing credentials",
        ErrorCause::Windows(-1),
    );
    let action = sync.on_event(SyncEvent::RemoveAllCompleted(Err(failed)));
    match action {
        SyncAction::AddCredentials(c, raws) => {
            assert_eq!(c.as_guid().data1, 42);
            assert_eq!(raws.len(), 2);
            assert_eq!(raws[0].credential_id, vec![1]);
            assert_eq!(raws[1].credential_id, vec![2]);
            assert_eq!(raws[1].user_id_byte_count, 2);
        }
        _ => panic!("expected the credentials to be added"),
    }
    assert_eq!(sync.current_stage(), SyncStage::AddingNew);
}

#[test]
fn sync_succeeds_when_add_succeeds() {
    let (mut sync, _) = plugin().sync_credentials(vec![credential(3)]);
    let _ = sync.on_event(SyncEvent::RemoveAllCompleted(Ok(())));
    let action = sync.on_event(SyncEvent::AddCredentialsCompleted(Ok(())));
    assert!(matches!(action, SyncAction::Finish(Ok(()))));
    assert_eq!(sync.current_stage(), SyncStage::Finished);
}

#[test]
fn add_failure_fails_sync_with_cause() {
    let (mut sync, _) = plugin().sync_credentials(vec![credential(3)]);
    let _ = sync.on_event(SyncEvent::RemoveAllCompleted(Ok(())));
    let action = sync.on_event(SyncEvent::AddCredentialsCompleted(Err(platform_error())));
    match action {
        SyncAction::Finish(Err(e)) => {
            assert_eq!(e.kind, ErrorKind::WindowsInternal);
            assert_eq!(
                e.message,
                "Failed to add credentials to Windows autofill list. Credentials list is now empty"
            );
            match e.cause {
                Some(ErrorCause::Nested(inner)) => {
                    assert_eq!(inner.message, "Failed to add credential list to autofill store")
                }
                _ => panic!("expected the addition's error as cause"),
            }
        }
        _ => panic!("expected the sync to fail"),
    }
}

#[test]
fn syncing_twice_hands_over_the_same_forms() {
    let p = plugin();
    let run = |p: &WebAuthnPlugin| {
        let (mut sync, _) = p.sync_credentials(vec![credential(1), credential(2)]);
        match sync.on_event(SyncEvent::RemoveAllCompleted(Ok(()))) {
            SyncAction::AddCredentials(_, raws) => raws
                .into_iter()
                .map(|r| (r.credential_id, r.rp_id, r.user_id, r.user_name, r.user_display_name))
                .collect::<Vec<_>>(),
            _ => panic!("expected the credentials to be added"),
        }
    };
    assert_eq!(run(&p), run(&p));
}

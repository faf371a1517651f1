use win_webauthn::clsid::{Clsid, Guid};
use win_webauthn::error::{ErrorCause, ErrorKind};

fn guid() -> Guid {
    Guid { data1: 0x0f7dc5d9, data2: 0x69ce, data3: 0x4652, data4: [0x85, 0x72, 0x68, 0x77, 0xfd, 0x69, 0x50, 0x62] }
}

#[test]
fn clsid_keeps_its_guid() {
    let c = Clsid::from_guid(guid());
    let g = c.as_guid();
    assert_eq!(g.data1, 0x0f7dc5d9);
    assert_eq!(g.data2, 0x69ce);
    assert_eq!(g.data3, 0x4652);
    assert_eq!(g.data4, [0x85, 0x72, 0x68, 0x77, 0xfd, 0x69, 0x50, 0x62]);
}

#[test]
fn parsed_guid_becomes_clsid() {
    let c = Clsid::from_parse_result(Ok(guid())).unwrap();
    assert_eq!(c.as_guid().data1, 0x0f7dc5d9);
}

#[test]
fn parse_failure_is_invalid_arguments() {
    // CO_E_CLASSSTRING
    let e = Clsid::from_parse_result(Err(-2147221005)).unwrap_err();
    assert_eq!(e.kind, ErrorKind::InvalidArguments);
    assert_eq!(e.message, "Failed to parse CLSID");
    assert!(matches!(e.cause, Some(ErrorCause::Windows(-2147221005))));
}

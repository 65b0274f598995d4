use ai_voice::{Error, HostStatus, TextEditMode};

#[test]
fn host_status_reads_the_four_codes() {
    assert_eq!(HostStatus::from_code(0).unwrap(), HostStatus::NotRunning);
    assert_eq!(HostStatus::from_code(1).unwrap(), HostStatus::NotConnected);
    assert_eq!(HostStatus::from_code(2).unwrap(), HostStatus::Idle);
    assert_eq!(HostStatus::from_code(3).unwrap(), HostStatus::Busy);
}

#[test]
fn host_status_refuses_other_codes() {
    for code in [-1, 4, 5, 100, i32::MIN, i32::MAX] {
        match HostStatus::from_code(code) {
            Err(Error::ProtocolMismatch { code: held }) => assert_eq!(held, code),
            other => panic!("code {} gave {:?}", code, other),
        }
    }
}

#[test]
fn text_edit_mode_codes_round_trip() {
    assert_eq!(TextEditMode::from_code(0).unwrap(), TextEditMode::Text);
    assert_eq!(TextEditMode::from_code(1).unwrap(), TextEditMode::List);
    assert_eq!(TextEditMode::Text.code(), 0);
    assert_eq!(TextEditMode::List.code(), 1);
    assert!(matches!(TextEditMode::from_code(2), Err(Error::ProtocolMismatch { code: 2 })));
}

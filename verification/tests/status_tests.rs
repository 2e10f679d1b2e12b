use launcher::status::decode_wait_status;
use launcher::status::ExitStatus;
use launcher::status::HabExitStatus;

#[test]
fn normal_exit_code_zero_decodes_to_exited() {
    assert_eq!(decode_wait_status(0), ExitStatus::Exited(0));
}

#[test]
fn graceful_termination_signal_decodes_to_signaled() {
    // A status describing termination by signal 15.
    assert_eq!(decode_wait_status(15), ExitStatus::Signaled(15));
}

#[test]
fn exit_code_sits_in_high_byte() {
    let raw: u32 = 3 << 8;
    assert_eq!(decode_wait_status(raw), ExitStatus::Exited(3));
    let st = HabExitStatus { status: Some(raw) };
    assert_eq!(st.code(), Some(3));
    assert_eq!(st.signal(), None);
}

#[test]
fn signaled_status_has_no_code() {
    let st = HabExitStatus { status: Some(9) };
    assert_eq!(st.code(), None);
    assert_eq!(st.signal(), Some(9));
}

#[test]
fn exactly_one_outcome_for_every_raw_status() {
    // Decoding is total and exclusive over a spread of raw values.
    for raw in [0u32, 1, 9, 15, 127, 128, 255, 256, 3 << 8, 0xffff, u32::MAX] {
        let st = HabExitStatus { status: Some(raw) };
        assert_ne!(st.code().is_some(), st.signal().is_some());
        match decode_wait_status(raw) {
            ExitStatus::Exited(code) => assert_eq!(st.code(), Some(code)),
            ExitStatus::Signaled(sig) => assert_eq!(st.signal(), Some(sig)),
        }
    }
}

#[test]
fn pending_status_reports_nothing() {
    let st = HabExitStatus { status: None };
    assert!(st.no_status());
    assert_eq!(st.code(), None);
    assert_eq!(st.signal(), None);
}

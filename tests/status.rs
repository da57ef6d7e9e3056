use rocksdb_rs::carrier::IntoResult;
use rocksdb_rs::error::{Code, Error, SubCode};
use rocksdb_rs::status::{
    default_status, new_status_with_code, new_status_with_code_and_subcode,
    new_status_with_code_subcode_retryable_data_loss_scope, Severity, Status, StatusCode, StatusSubCode,
};

fn status_with_state(code: StatusCode, subcode: StatusSubCode, state: &[u8]) -> Status {
    let mut status = new_status_with_code_and_subcode(code, subcode);
    status.set_state(Some(state));
    status
}

#[test]
fn status_to_string() {
    let mut status = Status::new_with_code(StatusCode::TryAgain);
    status.set_state(Some(b"Oops I did it again\0"));
    assert_eq!(status.to_string(), "Operation failed. Try again.: Oops I did it again");
}

#[test]
fn status_to_string_success_and_bare_codes() {
    assert_eq!(default_status().to_string(), "OK");
    assert_eq!(new_status_with_code(StatusCode::Corruption).to_string(), "Corruption: ");
    assert_eq!(
        new_status_with_code_and_subcode(StatusCode::Success, StatusSubCode::Overwritten).to_string(),
        "OK (overwritten)"
    );
    assert_eq!(
        new_status_with_code_and_subcode(StatusCode::IOError, StatusSubCode::NoSpace).to_string(),
        "IO error: No space left on device"
    );
}

#[test]
fn status_to_string_separates_subcode_and_state() {
    let status = status_with_state(StatusCode::IOError, StatusSubCode::NoSpace, b"disk full\0");
    assert_eq!(status.to_string(), "IO error: No space left on device: disk full");
    let status = status_with_state(StatusCode::Busy, StatusSubCode::NoSubCode, b"try later\0");
    assert_eq!(status.to_string(), "Resource busy: try later");
}

#[test]
fn set_state_stops_at_first_nul_and_null_gives_terminator() {
    let status = status_with_state(StatusCode::NotFound, StatusSubCode::NoSubCode, b"ab\0cd\0");
    assert_eq!(status.get_state(), b"ab\0");
    let mut status = new_status_with_code(StatusCode::NotFound);
    status.set_state(None);
    assert_eq!(status.get_state(), b"\0");
    assert_eq!(status.to_string(), "NotFound: ");
}

#[test]
fn status_constructors_fill_every_field() {
    let status = new_status_with_code_subcode_retryable_data_loss_scope(
        StatusCode::Aborted,
        StatusSubCode::MemoryLimit,
        true,
        true,
        3,
    );
    assert_eq!(status.code(), StatusCode::Aborted);
    assert_eq!(status.subcode(), StatusSubCode::MemoryLimit);
    assert_eq!(status.severity(), Severity::NoError);
    assert!(status.retryable);
    assert!(status.data_loss);
    assert_eq!(status.scope, 3);
    assert!(status.get_state().is_empty());
    let status = Status::default();
    assert!(status.ok());
    assert_eq!(status.subcode(), StatusSubCode::NoSubCode);
    status.permit_unchecked_error();
    status.must_check();
}

#[test]
fn status_predicates_look_at_code_and_subcode() {
    let s = |c, q| new_status_with_code_and_subcode(c, q);
    assert!(s(StatusCode::Success, StatusSubCode::Overwritten).is_ok_overwritten());
    assert!(!s(StatusCode::Success, StatusSubCode::NoSubCode).is_ok_overwritten());
    assert!(s(StatusCode::NotFound, StatusSubCode::NoSubCode).is_not_found());
    assert!(s(StatusCode::Corruption, StatusSubCode::NoSubCode).is_corruption());
    assert!(s(StatusCode::NotSupported, StatusSubCode::NoSubCode).is_not_supported());
    assert!(s(StatusCode::InvalidArgument, StatusSubCode::NoSubCode).is_invalid_argument());
    assert!(s(StatusCode::IOError, StatusSubCode::NoSubCode).is_io_error());
    assert!(s(StatusCode::MergeInProgress, StatusSubCode::NoSubCode).is_merge_in_progress());
    assert!(s(StatusCode::Incomplete, StatusSubCode::NoSubCode).is_incomplete());
    assert!(s(StatusCode::ShutdownInProgress, StatusSubCode::NoSubCode).is_shutdown_in_progress());
    assert!(s(StatusCode::TimedOut, StatusSubCode::NoSubCode).is_timed_out());
    assert!(s(StatusCode::Aborted, StatusSubCode::NoSubCode).is_aborted());
    assert!(s(StatusCode::Busy, StatusSubCode::NoSubCode).is_busy());
    assert!(s(StatusCode::Busy, StatusSubCode::Deadlock).is_deadlock());
    assert!(!s(StatusCode::Aborted, StatusSubCode::Deadlock).is_deadlock());
    assert!(s(StatusCode::Expired, StatusSubCode::NoSubCode).is_expired());
    assert!(s(StatusCode::TryAgain, StatusSubCode::NoSubCode).is_try_again());
    assert!(s(StatusCode::CompactionTooLarge, StatusSubCode::NoSubCode).is_compaction_too_large());
    assert!(s(StatusCode::ColumnFamilyDropped, StatusSubCode::NoSubCode).is_column_family_dropped());
    assert!(!s(StatusCode::CompactionTooLarge, StatusSubCode::NoSubCode).is_column_family_dropped());
    assert!(s(StatusCode::IOError, StatusSubCode::NoSpace).is_no_space());
    assert!(!s(StatusCode::IOError, StatusSubCode::NoSubCode).is_no_space());
    assert!(s(StatusCode::Aborted, StatusSubCode::MemoryLimit).is_memory_limit());
    assert!(s(StatusCode::IOError, StatusSubCode::PathNotFound).is_path_not_found());
    assert!(s(StatusCode::NotFound, StatusSubCode::PathNotFound).is_path_not_found());
    assert!(!s(StatusCode::Busy, StatusSubCode::PathNotFound).is_path_not_found());
    assert!(s(StatusCode::Incomplete, StatusSubCode::ManualCompactionPaused).is_manual_compaction_paused());
    assert!(s(StatusCode::InvalidArgument, StatusSubCode::TxnNotPrepared).is_txn_not_prepared());
    assert!(s(StatusCode::IOError, StatusSubCode::IOFenced).is_io_fenced());
    assert!(!s(StatusCode::NotFound, StatusSubCode::IOFenced).is_io_fenced());
}

#[test]
fn error_from_status_keeps_code_subcode_and_state() {
    let status = status_with_state(StatusCode::IOError, StatusSubCode::NoSpace, b"disk full\0");
    let error = Error::from(&status);
    assert_eq!(
        error,
        Error { code: Code::IOError, subcode: Some(SubCode::NoSpace), state: Some("disk full".to_string()) }
    );
    let error = Error::from(&new_status_with_code(StatusCode::ColumnFamilyDropped));
    assert_eq!(error, Error { code: Code::ColumnFamilyDropped, subcode: None, state: None });
}

#[test]
fn error_renders_as_the_status_it_came_from() {
    let cases: Vec<Status> = vec![
        status_with_state(StatusCode::TryAgain, StatusSubCode::NoSubCode, b"Oops I did it again\0"),
        status_with_state(StatusCode::IOError, StatusSubCode::NoSpace, b"disk full\0"),
        new_status_with_code_and_subcode(StatusCode::Busy, StatusSubCode::Deadlock),
        new_status_with_code(StatusCode::InvalidArgument),
        status_with_state(StatusCode::Incomplete, StatusSubCode::ManualCompactionPaused, b"x\0"),
    ];
    for status in cases {
        assert_eq!(Error::from(&status).to_string(), status.to_string());
    }
    let error = Error { code: Code::Busy, subcode: Some(SubCode::LockTimeout), state: Some("k".to_string()) };
    assert_eq!(error.to_string(), "Resource busy: Timeout waiting to lock key: k");
}

#[test]
fn error_state_is_decoded_lossily() {
    let status = status_with_state(StatusCode::Corruption, StatusSubCode::NoSubCode, b"bad \xff byte\0");
    let error = Error::from(&status);
    assert_eq!(error.state, Some("bad \u{FFFD} byte".to_string()));
    assert_eq!(status.to_string(), "Corruption: bad \u{FFFD} byte");
    let status = status_with_state(StatusCode::Corruption, StatusSubCode::NoSubCode, b"caf\xc3\xa9\0");
    assert_eq!(Error::from(&status).state, Some("caf\u{e9}".to_string()));
}

#[test]
fn code_and_subcode_mapping() {
    assert_eq!(Code::from_status_code(StatusCode::NotFound), Code::NotFound);
    assert_eq!(Code::from_status_code(StatusCode::ColumnFamilyDropped), Code::ColumnFamilyDropped);
    assert_eq!(SubCode::from_status_subcode(StatusSubCode::NoSubCode), None);
    assert_eq!(SubCode::from_status_subcode(StatusSubCode::IOFenced), Some(SubCode::IOFenced));
    assert_eq!(Code::TryAgain.prefix(), "Operation failed. Try again.: ");
    assert_eq!(SubCode::Overwritten.message(), " (overwritten)");
}

#[test]
fn bare_status_converts_to_result() {
    assert_eq!(default_status().into_result(), Ok(()));
    let mut status = new_status_with_code(StatusCode::InvalidArgument);
    status.set_state(Some(b"/tmp/db/CURRENT: does not exist (create_if_missing is false)\0"));
    assert_eq!(
        status.into_result(),
        Err(Error {
            code: Code::InvalidArgument,
            subcode: None,
            state: Some("/tmp/db/CURRENT: does not exist (create_if_missing is false)".to_string()),
        })
    );
    let status = new_status_with_code(StatusCode::NotFound);
    assert_eq!(status.into_result().unwrap_err().code, Code::NotFound);
}

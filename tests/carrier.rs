use rocksdb_rs::carrier::IntoResult;
use rocksdb_rs::error::{Code, Error, SubCode};
use rocksdb_rs::status::{new_status_with_code, new_status_with_code_and_subcode, Status, StatusCode, StatusSubCode};
use std::cell::Cell;

/// A carrier that records every time its value is taken.
struct Recording<'a> {
    status: Status,
    value: u32,
    taken: &'a Cell<u32>,
}

impl<'a> IntoResult<u32> for Recording<'a> {
    fn carried_status(&self) -> Status {
        self.status.clone()
    }

    fn status(&self) -> &Status {
        &self.status
    }

    fn get_value(&mut self) -> u32 {
        self.taken.set(self.taken.get() + 1);
        self.value
    }
}

#[test]
fn carrier_extracts_value_only_on_success() {
    let taken = Cell::new(0);
    let carrier = Recording { status: new_status_with_code(StatusCode::Success), value: 42, taken: &taken };
    assert_eq!(carrier.into_result(), Ok(42));
    assert_eq!(taken.get(), 1);
}

#[test]
fn carrier_never_extracts_on_failure() {
    let taken = Cell::new(0);
    let codes = [
        StatusCode::NotFound,
        StatusCode::Corruption,
        StatusCode::NotSupported,
        StatusCode::InvalidArgument,
        StatusCode::IOError,
        StatusCode::MergeInProgress,
        StatusCode::Incomplete,
        StatusCode::ShutdownInProgress,
        StatusCode::TimedOut,
        StatusCode::Aborted,
        StatusCode::Busy,
        StatusCode::Expired,
        StatusCode::TryAgain,
        StatusCode::CompactionTooLarge,
        StatusCode::ColumnFamilyDropped,
    ];
    for code in codes {
        let carrier = Recording { status: new_status_with_code(code), value: 7, taken: &taken };
        assert!(carrier.into_result().is_err());
    }
    assert_eq!(taken.get(), 0);
}

#[test]
fn carrier_failure_carries_the_error() {
    let taken = Cell::new(0);
    let status = new_status_with_code_and_subcode(StatusCode::Busy, StatusSubCode::Deadlock);
    let carrier = Recording { status, value: 7, taken: &taken };
    assert_eq!(
        carrier.into_result(),
        Err(Error { code: Code::Busy, subcode: Some(SubCode::Deadlock), state: None })
    );
    assert_eq!(taken.get(), 0);
}

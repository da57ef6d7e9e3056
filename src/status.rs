use vstd::prelude::*;

use crate::bytes::{char_ptr_to_bytes, decode_lossy, has_nul, slice_prefix, utf8_lossy, c_str_len};
use crate::error::{code_of, code_prefix, render, render_text, subcode_of, Code, SubCode};

verus! {

/// Primary outcome category of a native operation.
#[derive(Debug, Clone, Copy, PartialEq, Eq, Structural)]
pub enum StatusCode {
    Success,
    NotFound,
    Corruption,
    NotSupported,
    InvalidArgument,
    IOError,
    MergeInProgress,
    Incomplete,
    ShutdownInProgress,
    TimedOut,
    Aborted,
    Busy,
    Expired,
    TryAgain,
    CompactionTooLarge,
    ColumnFamilyDropped,
}

/// Secondary qualifier of a status; `NoSubCode` when there is none.
#[derive(Debug, Clone, Copy, PartialEq, Eq, Structural)]
pub enum StatusSubCode {
    NoSubCode,
    MutexTimeout,
    LockTimeout,
    LockLimit,
    NoSpace,
    Deadlock,
    StaleFile,
    MemoryLimit,
    SpaceLimit,
    PathNotFound,
    MergeOperandsInsufficientCapacity,
    ManualCompactionPaused,
    Overwritten,
    TxnNotPrepared,
    IOFenced,
    MergeOperatorFailed,
}

#[derive(Debug, Clone, Copy, PartialEq, Eq, Structural)]
pub enum Severity {
    NoError,
    SoftError,
    HardError,
    FatalError,
    UnrecoverableError,
}

/// The outcome of one native operation. `state`, when not empty, is a
/// nul-terminated diagnostic message.
#[derive(Debug, Clone, PartialEq, Eq)]
pub struct Status {
    pub code: StatusCode,
    pub subcode: StatusSubCode,
    pub sev: Severity,
    pub retryable: bool,
    pub data_loss: bool,
    pub scope: u8,
    pub state: Vec<u8>,
}

/// The number the native library gives a status code.
pub open spec fn native_code(v: StatusCode) -> u8 {
    match v {
        StatusCode::Success => 0,
        StatusCode::NotFound => 1,
        StatusCode::Corruption => 2,
        StatusCode::NotSupported => 3,
        StatusCode::InvalidArgument => 4,
        StatusCode::IOError => 5,
        StatusCode::MergeInProgress => 6,
        StatusCode::Incomplete => 7,
        StatusCode::ShutdownInProgress => 8,
        StatusCode::TimedOut => 9,
        StatusCode::Aborted => 10,
        StatusCode::Busy => 11,
        StatusCode::Expired => 12,
        StatusCode::TryAgain => 13,
        StatusCode::CompactionTooLarge => 14,
        StatusCode::ColumnFamilyDropped => 15,
    }
}

impl StatusCode {
    /// Reads a status code from its native number; numbers past the last one have none.
    pub fn from_native(v: u8) -> (r: Option<StatusCode>)
        ensures
            r matches Some(c) ==> native_code(c) == v,
            r is None <==> v >= 16,
    {
        match v {
            0 => Some(StatusCode::Success),
            1 => Some(StatusCode::NotFound),
            2 => Some(StatusCode::Corruption),
            3 => Some(StatusCode::NotSupported),
            4 => Some(StatusCode::InvalidArgument),
            5 => Some(StatusCode::IOError),
            6 => Some(StatusCode::MergeInProgress),
            7 => Some(StatusCode::Incomplete),
            8 => Some(StatusCode::ShutdownInProgress),
            9 => Some(StatusCode::TimedOut),
            10 => Some(StatusCode::Aborted),
            11 => Some(StatusCode::Busy),
            12 => Some(StatusCode::Expired),
            13 => Some(StatusCode::TryAgain),
            14 => Some(StatusCode::CompactionTooLarge),
            15 => Some(StatusCode::ColumnFamilyDropped),
            _ => None,
        }
    }
}

/// The number the native library gives a status subcode.
pub open spec fn native_subcode(v: StatusSubCode) -> u8 {
    match v {
        StatusSubCode::NoSubCode => 0,
        StatusSubCode::MutexTimeout => 1,
        StatusSubCode::LockTimeout => 2,
        StatusSubCode::LockLimit => 3,
        StatusSubCode::NoSpace => 4,
        StatusSubCode::Deadlock => 5,
        StatusSubCode::StaleFile => 6,
        StatusSubCode::MemoryLimit => 7,
        StatusSubCode::SpaceLimit => 8,
        StatusSubCode::PathNotFound => 9,
        StatusSubCode::MergeOperandsInsufficientCapacity => 10,
        StatusSubCode::ManualCompactionPaused => 11,
        StatusSubCode::Overwritten => 12,
        StatusSubCode::TxnNotPrepared => 13,
        StatusSubCode::IOFenced => 14,
        StatusSubCode::MergeOperatorFailed => 15,
    }
}

impl StatusSubCode {
    /// Reads a status subcode from its native number; numbers past the last one have none.
    pub fn from_native(v: u8) -> (r: Option<StatusSubCode>)
        ensures
            r matches Some(c) ==> native_subcode(c) == v,
            r is None <==> v >= 16,
    {
        match v {
            0 => Some(StatusSubCode::NoSubCode),
            1 => Some(StatusSubCode::MutexTimeout),
            2 => Some(StatusSubCode::LockTimeout),
            3 => Some(StatusSubCode::LockLimit),
            4 => Some(StatusSubCode::NoSpace),
            5 => Some(StatusSubCode::Deadlock),
            6 => Some(StatusSubCode::StaleFile),
            7 => Some(StatusSubCode::MemoryLimit),
            8 => Some(StatusSubCode::SpaceLimit),
            9 => Some(StatusSubCode::PathNotFound),
            10 => Some(StatusSubCode::MergeOperandsInsufficientCapacity),
            11 => Some(StatusSubCode::ManualCompactionPaused),
            12 => Some(StatusSubCode::Overwritten),
            13 => Some(StatusSubCode::TxnNotPrepared),
            14 => Some(StatusSubCode::IOFenced),
            15 => Some(StatusSubCode::MergeOperatorFailed),
            _ => None,
        }
    }
}

/// The opening text of a rendered status.
pub open spec fn status_code_prefix(code: StatusCode) -> Seq<char> {
    match code_of(code) {
        Some(c) => code_prefix(c),
        None => "OK"@,
    }
}

/// The diagnostic text of a rendered status: the state without its last byte, decoded.
pub open spec fn status_state_text(state: Seq<u8>) -> Option<Seq<char>> {
    if state.len() == 0 {
        None
    } else {
        Some(utf8_lossy(state.drop_last()))
    }
}

impl Status {
    /// The state is empty or one nul-terminated string.
    pub open spec fn wf(self) -> bool {
        self.state@.len() == 0 || crate::bytes::is_c_string(self.state@)
    }

    /// The rendered message of this status.
    pub open spec fn text(self) -> Seq<char> {
        render(status_code_prefix(self.code), subcode_of(self.subcode), status_state_text(self.state@))
    }

    pub fn new_with_code_subcode_retryable_data_loss_scope(
        code: StatusCode,
        subcode: StatusSubCode,
        retryable: bool,
        data_loss: bool,
        scope: u8,
    ) -> (r: Status)
        ensures
            r.code == code,
            r.subcode == subcode,
            r.sev == Severity::NoError,
            r.retryable == retryable,
            r.data_loss == data_loss,
            r.scope == scope,
            r.state@.len() == 0,
    {
        Status {
            code,
            subcode,
            sev: Severity::NoError,
            retryable,
            data_loss,
            scope,
            state: Vec::new(),
        }
    }

    pub fn new_with_code(code: StatusCode) -> (r: Status)
        ensures
            r.code == code,
            r.subcode == StatusSubCode::NoSubCode,
            r.sev == Severity::NoError,
            !r.retryable,
            !r.data_loss,
            r.scope == 0,
            r.state@.len() == 0,
    {
        Status::new_with_code_and_subcode(code, StatusSubCode::NoSubCode)
    }

    pub fn new_with_code_and_subcode(code: StatusCode, subcode: StatusSubCode) -> (r: Status)
        ensures
            r.code == code,
            r.subcode == subcode,
            r.sev == Severity::NoError,
            !r.retryable,
            !r.data_loss,
            r.scope == 0,
            r.state@.len() == 0,
    {
        Status {
            code,
            subcode,
            sev: Severity::NoError,
            retryable: false,
            data_loss: false,
            scope: 0,
            state: Vec::new(),
        }
    }

    /// Acknowledges a status that the caller deliberately leaves unchecked.
    pub fn permit_unchecked_error(&self) {
    }

    /// Marks a status that the caller has to check.
    pub fn must_check(&self) {
    }

    pub fn code(&self) -> (r: StatusCode)
        ensures
            r == self.code,
    {
        self.code
    }

    pub fn subcode(&self) -> (r: StatusSubCode)
        ensures
            r == self.subcode,
    {
        self.subcode
    }

    pub fn severity(&self) -> (r: Severity)
        ensures
            r == self.sev,
    {
        self.sev
    }

    /// The diagnostic message, terminator included; empty when there is none.
    pub fn get_state(&self) -> (r: &[u8])
        ensures
            r@ == self.state@,
    {
        self.state.as_slice()
    }

    /// Returns true iff the status indicates success.
    pub fn ok(&self) -> (r: bool)
        ensures
            r == (self.code == StatusCode::Success),
    {
        self.code == StatusCode::Success
    }

    /// Returns true iff the status indicates success with something overwritten.
    pub fn is_ok_overwritten(&self) -> (r: bool)
        ensures
            r == (self.code == StatusCode::Success && self.subcode == StatusSubCode::Overwritten),
    {
        self.code == StatusCode::Success && self.subcode == StatusSubCode::Overwritten
    }

    pub fn is_not_found(&self) -> (r: bool)
        ensures
            r == (self.code == StatusCode::NotFound),
    {
        self.code == StatusCode::NotFound
    }

    pub fn is_corruption(&self) -> (r: bool)
        ensures
            r == (self.code == StatusCode::Corruption),
    {
        self.code == StatusCode::Corruption
    }

    pub fn is_not_supported(&self) -> (r: bool)
        ensures
            r == (self.code == StatusCode::NotSupported),
    {
        self.code == StatusCode::NotSupported
    }

    pub fn is_invalid_argument(&self) -> (r: bool)
        ensures
            r == (self.code == StatusCode::InvalidArgument),
    {
        self.code == StatusCode::InvalidArgument
    }

    pub fn is_io_error(&self) -> (r: bool)
        ensures
            r == (self.code == StatusCode::IOError),
    {
        self.code == StatusCode::IOError
    }

    pub fn is_merge_in_progress(&self) -> (r: bool)
        ensures
            r == (self.code == StatusCode::MergeInProgress),
    {
        self.code == StatusCode::MergeInProgress
    }

    pub fn is_incomplete(&self) -> (r: bool)
        ensures
            r == (self.code == StatusCode::Incomplete),
    {
        self.code == StatusCode::Incomplete
    }

    pub fn is_shutdown_in_progress(&self) -> (r: bool)
        ensures
            r == (self.code == StatusCode::ShutdownInProgress),
    {
        self.code == StatusCode::ShutdownInProgress
    }

    pub fn is_timed_out(&self) -> (r: bool)
        ensures
            r == (self.code == StatusCode::TimedOut),
    {
        self.code == StatusCode::TimedOut
    }

    pub fn is_aborted(&self) -> (r: bool)
        ensures
            r == (self.code == StatusCode::Aborted),
    {
        self.code == StatusCode::Aborted
    }

    /// Returns true iff a resource is busy and could not be acquired for now.
    pub fn is_busy(&self) -> (r: bool)
        ensures
            r == (self.code == StatusCode::Busy),
    {
        self.code == StatusCode::Busy
    }

    pub fn is_deadlock(&self) -> (r: bool)
        ensures
            r == (self.code == StatusCode::Busy && self.subcode == StatusSubCode::Deadlock),
    {
        self.code == StatusCode::Busy && self.subcode == StatusSubCode::Deadlock
    }

    pub fn is_expired(&self) -> (r: bool)
        ensures
            r == (self.code == StatusCode::Expired),
    {
        self.code == StatusCode::Expired
    }

    /// Returns true iff the operation failed but may succeed if attempted again.
    pub fn is_try_again(&self) -> (r: bool)
        ensures
            r == (self.code == StatusCode::TryAgain),
    {
        self.code == StatusCode::TryAgain
    }

    pub fn is_compaction_too_large(&self) -> (r: bool)
        ensures
            r == (self.code == StatusCode::CompactionTooLarge),
    {
        self.code == StatusCode::CompactionTooLarge
    }

    pub fn is_column_family_dropped(&self) -> (r: bool)
        ensures
            r == (self.code == StatusCode::ColumnFamilyDropped),
    {
        self.code == StatusCode::ColumnFamilyDropped
    }

    /// Returns true iff an I/O error reported that the device is out of space.
    pub fn is_no_space(&self) -> (r: bool)
        ensures
            r == (self.code == StatusCode::IOError && self.subcode == StatusSubCode::NoSpace),
    {
        self.code == StatusCode::IOError && self.subcode == StatusSubCode::NoSpace
    }

    /// Returns true iff an operation was aborted at a memory limit.
    pub fn is_memory_limit(&self) -> (r: bool)
        ensures
            r == (self.code == StatusCode::Aborted && self.subcode == StatusSubCode::MemoryLimit),
    {
        self.code == StatusCode::Aborted && self.subcode == StatusSubCode::MemoryLimit
    }

    /// Returns true iff a file or directory was missing.
    pub fn is_path_not_found(&self) -> (r: bool)
        ensures
            r == ((self.code == StatusCode::IOError || self.code == StatusCode::NotFound)
                && self.subcode == StatusSubCode::PathNotFound),
    {
        (self.code == StatusCode::IOError || self.code == StatusCode::NotFound) && self.subcode
            == StatusSubCode::PathNotFound
    }

    /// Returns true iff a manual compaction was paused.
    pub fn is_manual_compaction_paused(&self) -> (r: bool)
        ensures
            r == (self.code == StatusCode::Incomplete && self.subcode
                == StatusSubCode::ManualCompactionPaused),
    {
        self.code == StatusCode::Incomplete && self.subcode == StatusSubCode::ManualCompactionPaused
    }

    pub fn is_txn_not_prepared(&self) -> (r: bool)
        ensures
            r == (self.code == StatusCode::InvalidArgument && self.subcode
                == StatusSubCode::TxnNotPrepared),
    {
        self.code == StatusCode::InvalidArgument && self.subcode == StatusSubCode::TxnNotPrepared
    }

    pub fn is_io_fenced(&self) -> (r: bool)
        ensures
            r == (self.code == StatusCode::IOError && self.subcode == StatusSubCode::IOFenced),
    {
        self.code == StatusCode::IOError && self.subcode == StatusSubCode::IOFenced
    }

    /// Renders the status: code prefix, subcode message, then the diagnostic message.
    pub fn to_string(&self) -> (r: String)
        ensures
            r@ == self.text(),
    {
        let prefix = if self.code == StatusCode::Success {
            "OK"
        } else {
            Code::from_status_code(self.code).prefix()
        };
        let n = self.state.len();
        if n == 0 {
            render_text(prefix, SubCode::from_status_subcode(self.subcode), None)
        } else {
            let bytes = slice_prefix(self.state.as_slice(), n - 1);
            assert(bytes@ =~= self.state@.drop_last());
            let state = decode_lossy(bytes.as_slice());
            render_text(prefix, SubCode::from_status_subcode(self.subcode), Some(state.as_str()))
        }
    }

    /// Attaches a diagnostic message read from native memory; `None` stands for a null
    /// pointer and gives an empty message.
    pub fn set_state(&mut self, state: Option<&[u8]>)
        requires
            state matches Some(b) ==> has_nul(b@),
        ensures
            final(self).code == old(self).code,
            final(self).subcode == old(self).subcode,
            final(self).sev == old(self).sev,
            final(self).retryable == old(self).retryable,
            final(self).data_loss == old(self).data_loss,
            final(self).scope == old(self).scope,
            match state {
                Some(b) => final(self).state@ == b@.take(c_str_len(b@) + 1int),
                None => final(self).state@ == seq![0u8],
            },
            final(self).wf(),
    {
        let bytes = match state {
            None => vec![0u8],
            Some(b) => char_ptr_to_bytes(Some(b)),
        };
        self.state = bytes;
    }
}

impl Default for Status {
    fn default() -> (r: Status)
        ensures
            r.code == StatusCode::Success,
            r.subcode == StatusSubCode::NoSubCode,
            r.sev == Severity::NoError,
            !r.retryable,
            !r.data_loss,
            r.scope == 0,
            r.state@.len() == 0,
    {
        Status {
            code: StatusCode::Success,
            subcode: StatusSubCode::NoSubCode,
            sev: Severity::NoError,
            retryable: false,
            data_loss: false,
            scope: 0,
            state: Vec::new(),
        }
    }
}

pub fn new_status_with_code_subcode_retryable_data_loss_scope(
    code: StatusCode,
    subcode: StatusSubCode,
    retryable: bool,
    data_loss: bool,
    scope: u8,
) -> (r: Status)
    ensures
        r.code == code,
        r.subcode == subcode,
        r.sev == Severity::NoError,
        r.retryable == retryable,
        r.data_loss == data_loss,
        r.scope == scope,
        r.state@.len() == 0,
{
    Status::new_with_code_subcode_retryable_data_loss_scope(code, subcode, retryable, data_loss, scope)
}

pub fn default_status() -> (r: Status)
    ensures
        r.code == StatusCode::Success,
        r.subcode == StatusSubCode::NoSubCode,
        r.sev == Severity::NoError,
        !r.retryable,
        !r.data_loss,
        r.scope == 0,
        r.state@.len() == 0,
{
    Status::default()
}

pub fn new_status_with_code(code: StatusCode) -> (r: Status)
    ensures
        r.code == code,
        r.subcode == StatusSubCode::NoSubCode,
        r.state@.len() == 0,
        r.sev == Severity::NoError,
        !r.retryable,
        !r.data_loss,
        r.scope == 0,
{
    Status::new_with_code(code)
}

pub fn new_status_with_code_and_subcode(code: StatusCode, subcode: StatusSubCode) -> (r: Status)
    ensures
        r.code == code,
        r.subcode == subcode,
        r.state@.len() == 0,
        r.sev == Severity::NoError,
        !r.retryable,
        !r.data_loss,
        r.scope == 0,
{
    Status::new_with_code_and_subcode(code, subcode)
}

} // verus!

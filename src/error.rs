use vstd::prelude::*;
use vstd::string::StringExecFns;

use crate::bytes::{c_str_len, c_str_len_of, decode_lossy, slice_prefix, utf8_lossy};
use crate::status::{Status, StatusCode, StatusSubCode};

verus! {

/// The failure categories a native call can report; success has no place here.
#[derive(Debug, Clone, Copy, PartialEq, Eq, Structural)]
pub enum Code {
    NotFound,
    Corruption,
    NotSupported,
    InvalidArgument,
    IOError,
    MergeInProgress,
    Incomplete,
    ShutdownInProgress,
    TimedOut,
    Aborted,
    Busy,
    Expired,
    TryAgain,
    CompactionTooLarge,
    ColumnFamilyDropped,
}

/// Secondary qualifiers of a failure.
#[derive(Debug, Clone, Copy, PartialEq, Eq, Structural)]
pub enum SubCode {
    MutexTimeout,
    LockTimeout,
    LockLimit,
    NoSpace,
    Deadlock,
    StaleFile,
    MemoryLimit,
    SpaceLimit,
    PathNotFound,
    MergeOperandsInsufficientCapacity,
    ManualCompactionPaused,
    Overwritten,
    TxnNotPrepared,
    IOFenced,
    MergeOperatorFailed,
}

/// The failure category of a status code; `None` for success.
pub open spec fn code_of(code: StatusCode) -> Option<Code> {
    match code {
        StatusCode::Success => None,
        StatusCode::NotFound => Some(Code::NotFound),
        StatusCode::Corruption => Some(Code::Corruption),
        StatusCode::NotSupported => Some(Code::NotSupported),
        StatusCode::InvalidArgument => Some(Code::InvalidArgument),
        StatusCode::IOError => Some(Code::IOError),
        StatusCode::MergeInProgress => Some(Code::MergeInProgress),
        StatusCode::Incomplete => Some(Code::Incomplete),
        StatusCode::ShutdownInProgress => Some(Code::ShutdownInProgress),
        StatusCode::TimedOut => Some(Code::TimedOut),
        StatusCode::Aborted => Some(Code::Aborted),
        StatusCode::Busy => Some(Code::Busy),
        StatusCode::Expired => Some(Code::Expired),
        StatusCode::TryAgain => Some(Code::TryAgain),
        StatusCode::CompactionTooLarge => Some(Code::CompactionTooLarge),
        StatusCode::ColumnFamilyDropped => Some(Code::ColumnFamilyDropped),
    }
}

/// The qualifier carried by a status subcode; `None` when there is none.
pub open spec fn subcode_of(subcode: StatusSubCode) -> Option<SubCode> {
    match subcode {
        StatusSubCode::NoSubCode => None,
        StatusSubCode::MutexTimeout => Some(SubCode::MutexTimeout),
        StatusSubCode::LockTimeout => Some(SubCode::LockTimeout),
        StatusSubCode::LockLimit => Some(SubCode::LockLimit),
        StatusSubCode::NoSpace => Some(SubCode::NoSpace),
        StatusSubCode::Deadlock => Some(SubCode::Deadlock),
        StatusSubCode::StaleFile => Some(SubCode::StaleFile),
        StatusSubCode::MemoryLimit => Some(SubCode::MemoryLimit),
        StatusSubCode::SpaceLimit => Some(SubCode::SpaceLimit),
        StatusSubCode::PathNotFound => Some(SubCode::PathNotFound),
        StatusSubCode::MergeOperandsInsufficientCapacity => Some(
            SubCode::MergeOperandsInsufficientCapacity,
        ),
        StatusSubCode::ManualCompactionPaused => Some(SubCode::ManualCompactionPaused),
        StatusSubCode::Overwritten => Some(SubCode::Overwritten),
        StatusSubCode::TxnNotPrepared => Some(SubCode::TxnNotPrepared),
        StatusSubCode::IOFenced => Some(SubCode::IOFenced),
        StatusSubCode::MergeOperatorFailed => Some(SubCode::MergeOperatorFailed),
    }
}

/// The fixed text that opens the rendering of a failure.
pub open spec fn code_prefix(code: Code) -> Seq<char> {
    match code {
        Code::NotFound => "NotFound: "@,
        Code::Corruption => "Corruption: "@,
        Code::NotSupported => "Not implemented: "@,
        Code::InvalidArgument => "Invalid argument: "@,
        Code::IOError => "IO error: "@,
        Code::MergeInProgress => "Merge in progress: "@,
        Code::Incomplete => "Result incomplete: "@,
        Code::ShutdownInProgress => "Shutdown in progress: "@,
        Code::TimedOut => "Operation timed out: "@,
        Code::Aborted => "Operation aborted: "@,
        Code::Busy => "Resource busy: "@,
        Code::Expired => "Operation expired: "@,
        Code::TryAgain => "Operation failed. Try again.: "@,
        Code::CompactionTooLarge => "Compaction too large: "@,
        Code::ColumnFamilyDropped => "Column family dropped: "@,
    }
}

/// The fixed text that a qualifier adds to a rendering.
pub open spec fn subcode_message(subcode: SubCode) -> Seq<char> {
    match subcode {
        SubCode::MutexTimeout => "Timeout Acquiring Mutex"@,
        SubCode::LockTimeout => "Timeout waiting to lock key"@,
        SubCode::LockLimit => "Failed to acquire lock due to max_num_locks limit"@,
        SubCode::NoSpace => "No space left on device"@,
        SubCode::Deadlock => "Deadlock"@,
        SubCode::StaleFile => "Stale file handle"@,
        SubCode::MemoryLimit => "Memory limit reached"@,
        SubCode::SpaceLimit => "Space limit reached"@,
        SubCode::PathNotFound => "No such file or directory"@,
        SubCode::MergeOperandsInsufficientCapacity => "Insufficient capacity for merge operands"@,
        SubCode::ManualCompactionPaused => "Manual compaction paused"@,
        SubCode::Overwritten => " (overwritten)"@,
        SubCode::TxnNotPrepared => "Txn not prepared"@,
        SubCode::IOFenced => "IO fenced off"@,
        SubCode::MergeOperatorFailed => "Merge operator failed"@,
    }
}

/// Prefix, then the qualifier's message if any, then the diagnostic text if any,
/// separated from the qualifier's message by ": " only when that message was written.
pub open spec fn render(prefix: Seq<char>, subcode: Option<SubCode>, state: Option<Seq<char>>) -> Seq<
    char,
> {
    match (subcode, state) {
        (None, None) => prefix,
        (None, Some(s)) => prefix + s,
        (Some(q), None) => prefix + subcode_message(q),
        (Some(q), Some(s)) => prefix + subcode_message(q) + ": "@ + s,
    }
}

pub open spec fn str_view(state: Option<&str>) -> Option<Seq<char>> {
    match state {
        Some(s) => Some(s@),
        None => None,
    }
}

pub fn render_text(prefix: &str, subcode: Option<SubCode>, state: Option<&str>) -> (r: String)
    ensures
        r@ == render(prefix@, subcode, str_view(state)),
{
    let mut result = String::from_str(prefix);
    if let Some(q) = subcode {
        result.append(q.message());
    }
    if let Some(s) = state {
        if subcode.is_some() {
            result.append(": ");
        }
        result.append(s);
    }
    result
}

impl Code {
    /// Maps a failure status code to its category; a success code has none.
    pub fn from_status_code(code: StatusCode) -> (r: Code)
        requires
            code != StatusCode::Success,
        ensures
            code_of(code) == Some(r),
    {
        match code {
            StatusCode::NotFound => Code::NotFound,
            StatusCode::Corruption => Code::Corruption,
            StatusCode::NotSupported => Code::NotSupported,
            StatusCode::InvalidArgument => Code::InvalidArgument,
            StatusCode::IOError => Code::IOError,
            StatusCode::MergeInProgress => Code::MergeInProgress,
            StatusCode::Incomplete => Code::Incomplete,
            StatusCode::ShutdownInProgress => Code::ShutdownInProgress,
            StatusCode::TimedOut => Code::TimedOut,
            StatusCode::Aborted => Code::Aborted,
            StatusCode::Busy => Code::Busy,
            StatusCode::Expired => Code::Expired,
            StatusCode::TryAgain => Code::TryAgain,
            StatusCode::CompactionTooLarge => Code::CompactionTooLarge,
            StatusCode::ColumnFamilyDropped => Code::ColumnFamilyDropped,
            StatusCode::Success => unreached(),
        }
    }

    pub fn prefix(self) -> (r: &'static str)
        ensures
            r@ == code_prefix(self),
    {
        match self {
            Code::NotFound => "NotFound: ",
            Code::Corruption => "Corruption: ",
            Code::NotSupported => "Not implemented: ",
            Code::InvalidArgument => "Invalid argument: ",
            Code::IOError => "IO error: ",
            Code::MergeInProgress => "Merge in progress: ",
            Code::Incomplete => "Result incomplete: ",
            Code::ShutdownInProgress => "Shutdown in progress: ",
            Code::TimedOut => "Operation timed out: ",
            Code::Aborted => "Operation aborted: ",
            Code::Busy => "Resource busy: ",
            Code::Expired => "Operation expired: ",
            Code::TryAgain => "Operation failed. Try again.: ",
            Code::CompactionTooLarge => "Compaction too large: ",
            Code::ColumnFamilyDropped => "Column family dropped: ",
        }
    }
}

impl SubCode {
    /// Maps a status subcode to a qualifier; the empty subcode gives none.
    pub fn from_status_subcode(subcode: StatusSubCode) -> (r: Option<SubCode>)
        ensures
            r == subcode_of(subcode),
    {
        match subcode {
            StatusSubCode::NoSubCode => None,
            StatusSubCode::MutexTimeout => Some(SubCode::MutexTimeout),
            StatusSubCode::LockTimeout => Some(SubCode::LockTimeout),
            StatusSubCode::LockLimit => Some(SubCode::LockLimit),
            StatusSubCode::NoSpace => Some(SubCode::NoSpace),
            StatusSubCode::Deadlock => Some(SubCode::Deadlock),
            StatusSubCode::StaleFile => Some(SubCode::StaleFile),
            StatusSubCode::MemoryLimit => Some(SubCode::MemoryLimit),
            StatusSubCode::SpaceLimit => Some(SubCode::SpaceLimit),
            StatusSubCode::PathNotFound => Some(SubCode::PathNotFound),
            StatusSubCode::MergeOperandsInsufficientCapacity => Some(
                SubCode::MergeOperandsInsufficientCapacity,
            ),
            StatusSubCode::ManualCompactionPaused => Some(SubCode::ManualCompactionPaused),
            StatusSubCode::Overwritten => Some(SubCode::Overwritten),
            StatusSubCode::TxnNotPrepared => Some(SubCode::TxnNotPrepared),
            StatusSubCode::IOFenced => Some(SubCode::IOFenced),
            StatusSubCode::MergeOperatorFailed => Some(SubCode::MergeOperatorFailed),
        }
    }

    pub fn message(self) -> (r: &'static str)
        ensures
            r@ == subcode_message(self),
    {
        match self {
            SubCode::MutexTimeout => "Timeout Acquiring Mutex",
            SubCode::LockTimeout => "Timeout waiting to lock key",
            SubCode::LockLimit => "Failed to acquire lock due to max_num_locks limit",
            SubCode::NoSpace => "No space left on device",
            SubCode::Deadlock => "Deadlock",
            SubCode::StaleFile => "Stale file handle",
            SubCode::MemoryLimit => "Memory limit reached",
            SubCode::SpaceLimit => "Space limit reached",
            SubCode::PathNotFound => "No such file or directory",
            SubCode::MergeOperandsInsufficientCapacity => "Insufficient capacity for merge operands",
            SubCode::ManualCompactionPaused => "Manual compaction paused",
            SubCode::Overwritten => " (overwritten)",
            SubCode::TxnNotPrepared => "Txn not prepared",
            SubCode::IOFenced => "IO fenced off",
            SubCode::MergeOperatorFailed => "Merge operator failed",
        }
    }
}

/// An owned projection of a failed status.
#[derive(Debug, Clone, PartialEq, Eq)]
pub struct Error {
    pub code: Code,
    pub subcode: Option<SubCode>,
    pub state: Option<String>,
}

/// The diagnostic text of a status as an error holds it: the bytes before the
/// first nul, decoded; absent when the status has no state.
pub open spec fn error_state_of(state: Seq<u8>) -> Option<Seq<char>> {
    if state.len() == 0 {
        None
    } else {
        Some(utf8_lossy(state.take(c_str_len(state) as int)))
    }
}

impl Error {
    pub open spec fn state_view(self) -> Option<Seq<char>> {
        match self.state {
            Some(s) => Some(s@),
            None => None,
        }
    }

    /// This error keeps the failure category of `status`, maps its subcode by the
    /// presence rule, and holds its diagnostic message when it has one.
    pub open spec fn is_projection_of(self, status: Status) -> bool {
        &&& code_of(status.code) == Some(self.code)
        &&& self.subcode == subcode_of(status.subcode)
        &&& self.state_view() == error_state_of(status.state@)
    }

    /// The rendered message of this error.
    pub open spec fn text(self) -> Seq<char> {
        render(code_prefix(self.code), self.subcode, self.state_view())
    }

    /// Projects a failed status into an owned error. A success status is not an
    /// error, and callers must not pass one.
    pub fn from(status: &Status) -> (r: Error)
        requires
            status.code != StatusCode::Success,
        ensures
            r.is_projection_of(*status),
    {
        let state = if status.state.len() == 0 {
            None
        } else {
            let n = c_str_len_of(status.state.as_slice());
            proof {
                crate::bytes::lemma_c_str_len(status.state@);
            }
            Some(decode_lossy(slice_prefix(status.state.as_slice(), n).as_slice()))
        };
        Error {
            code: Code::from_status_code(status.code),
            subcode: SubCode::from_status_subcode(status.subcode),
            state,
        }
    }

    /// Renders this error as the native library renders the status it came from.
    pub fn to_string(&self) -> (r: String)
        ensures
            r@ == self.text(),
    {
        let state = match &self.state {
            Some(s) => Some(s.as_str()),
            None => None,
        };
        render_text(self.code.prefix(), self.subcode, state)
    }
}

/// An error projected from a failed, well-formed status renders exactly as the
/// status does: same prefix, same subcode message, same diagnostic text.
pub proof fn lemma_error_renders_as_status(status: Status, error: Error)
    requires
        status.code != StatusCode::Success,
        status.wf(),
        error.is_projection_of(status),
    ensures
        error.text() == status.text(),
{
    let state = status.state@;
    if state.len() > 0 {
        crate::bytes::lemma_c_string_len(state);
        assert(state.take(c_str_len(state) as int) =~= state.drop_last());
    }
}

} // verus!

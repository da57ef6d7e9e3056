use vstd::prelude::*;
use vstd::string::StringExecFns;

use crate::bytes::{c_str_len, char_ptr_to_bytes, has_nul};

verus! {

/// The kind of a record stored under a key.
#[derive(Debug, Clone, Copy, PartialEq, Eq, Structural)]
pub enum ValueType {
    TypeDeletion,
    TypeValue,
    TypeMerge,
    TypeLogData,
    TypeColumnFamilyDeletion,
    TypeColumnFamilyValue,
    TypeColumnFamilyMerge,
    TypeSingleDeletion,
    TypeColumnFamilySingleDeletion,
    TypeBeginPrepareXID,
    TypeEndPrepareXID,
    TypeCommitXID,
    TypeRollbackXID,
    TypeNoop,
    TypeColumnFamilyRangeDeletion,
    TypeRangeDeletion,
    TypeColumnFamilyBlobIndex,
    TypeBlobIndex,
    TypeBeginPersistedPrepareXID,
    TypeBeginUnprepareXID,
    TypeDeletionWithTimestamp,
    TypeCommitXIDAndTimestamp,
    TypeWideColumnEntity,
    TypeColumnFamilyWideColumnEntity,
    TypeMaxValid,
    MaxValue,
}

/// The name under which a value type is shown.
pub open spec fn value_type_name(value_type: ValueType) -> Seq<char> {
    match value_type {
        ValueType::TypeDeletion => "TypeDeletion"@,
        ValueType::TypeValue => "TypeValue"@,
        ValueType::TypeMerge => "TypeMerge"@,
        ValueType::TypeLogData => "TypeLogData"@,
        ValueType::TypeColumnFamilyDeletion => "TypeColumnFamilyDeletion"@,
        ValueType::TypeColumnFamilyValue => "TypeColumnFamilyValue"@,
        ValueType::TypeColumnFamilyMerge => "TypeColumnFamilyMerge"@,
        ValueType::TypeSingleDeletion => "TypeSingleDeletion"@,
        ValueType::TypeColumnFamilySingleDeletion => "TypeColumnFamilySingleDeletion"@,
        ValueType::TypeBeginPrepareXID => "TypeBeginPrepareXID"@,
        ValueType::TypeEndPrepareXID => "TypeEndPrepareXID"@,
        ValueType::TypeCommitXID => "TypeCommitXID"@,
        ValueType::TypeRollbackXID => "TypeRollbackXID"@,
        ValueType::TypeNoop => "TypeNoop"@,
        ValueType::TypeColumnFamilyRangeDeletion => "TypeColumnFamilyRangeDeletion"@,
        ValueType::TypeRangeDeletion => "TypeRangeDeletion"@,
        ValueType::TypeColumnFamilyBlobIndex => "TypeColumnFamilyBlobIndex"@,
        ValueType::TypeBlobIndex => "TypeBlobIndex"@,
        ValueType::TypeBeginPersistedPrepareXID => "TypeBeginPersistedPrepareXID"@,
        ValueType::TypeBeginUnprepareXID => "TypeBeginUnprepareXID"@,
        ValueType::TypeDeletionWithTimestamp => "TypeDeletionWithTimestamp"@,
        ValueType::TypeCommitXIDAndTimestamp => "TypeCommitXIDAndTimestamp"@,
        ValueType::TypeWideColumnEntity => "TypeWideColumnEntity"@,
        ValueType::TypeColumnFamilyWideColumnEntity => "TypeColumnFamilyWideColumnEntity"@,
        ValueType::TypeMaxValid => "TypeMaxValid"@,
        ValueType::MaxValue => "MaxValue"@,
    }
}

/// Data of one version of a key. A database may hold several versions of one
/// user key at a time, because of snapshots or pending compaction.
#[derive(Debug, Clone, PartialEq, Eq)]
pub struct KeyVersion {
    pub user_key: Vec<u8>,
    pub value: Vec<u8>,
    pub sequence: u64,
    pub value_type: ValueType,
}

impl KeyVersion {
    pub fn new(user_key: Vec<u8>, value: Vec<u8>, sequence: u64, value_type: ValueType) -> (r:
        KeyVersion)
        ensures
            r.user_key@ == user_key@,
            r.value@ == value@,
            r.sequence == sequence,
            r.value_type == value_type,
    {
        KeyVersion { user_key, value, sequence, value_type }
    }

    pub fn get_type_name(&self) -> (r: String)
        ensures
            r@ == value_type_name(self.value_type),
    {
        let name = match self.value_type {
            ValueType::TypeDeletion => "TypeDeletion",
            ValueType::TypeValue => "TypeValue",
            ValueType::TypeMerge => "TypeMerge",
            ValueType::TypeLogData => "TypeLogData",
            ValueType::TypeColumnFamilyDeletion => "TypeColumnFamilyDeletion",
            ValueType::TypeColumnFamilyValue => "TypeColumnFamilyValue",
            ValueType::TypeColumnFamilyMerge => "TypeColumnFamilyMerge",
            ValueType::TypeSingleDeletion => "TypeSingleDeletion",
            ValueType::TypeColumnFamilySingleDeletion => "TypeColumnFamilySingleDeletion",
            ValueType::TypeBeginPrepareXID => "TypeBeginPrepareXID",
            ValueType::TypeEndPrepareXID => "TypeEndPrepareXID",
            ValueType::TypeCommitXID => "TypeCommitXID",
            ValueType::TypeRollbackXID => "TypeRollbackXID",
            ValueType::TypeNoop => "TypeNoop",
            ValueType::TypeColumnFamilyRangeDeletion => "TypeColumnFamilyRangeDeletion",
            ValueType::TypeRangeDeletion => "TypeRangeDeletion",
            ValueType::TypeColumnFamilyBlobIndex => "TypeColumnFamilyBlobIndex",
            ValueType::TypeBlobIndex => "TypeBlobIndex",
            ValueType::TypeBeginPersistedPrepareXID => "TypeBeginPersistedPrepareXID",
            ValueType::TypeBeginUnprepareXID => "TypeBeginUnprepareXID",
            ValueType::TypeDeletionWithTimestamp => "TypeDeletionWithTimestamp",
            ValueType::TypeCommitXIDAndTimestamp => "TypeCommitXIDAndTimestamp",
            ValueType::TypeWideColumnEntity => "TypeWideColumnEntity",
            ValueType::TypeColumnFamilyWideColumnEntity => "TypeColumnFamilyWideColumnEntity",
            ValueType::TypeMaxValid => "TypeMaxValid",
            ValueType::MaxValue => "MaxValue",
        };
        String::from_str(name)
    }
}

impl Default for KeyVersion {
    fn default() -> (r: KeyVersion)
        ensures
            r.user_key@.len() == 0,
            r.value@.len() == 0,
            r.sequence == 0,
            r.value_type == ValueType::TypeDeletion,
    {
        KeyVersion {
            user_key: Vec::new(),
            value: Vec::new(),
            sequence: 0,
            value_type: ValueType::TypeDeletion,
        }
    }
}

/// Builds a key version from two native nul-terminated strings, copying each up
/// to and including its terminator.
pub fn new_key_version(user_key: &[u8], value: &[u8], sequence: u64, value_type: ValueType) -> (r:
    KeyVersion)
    requires
        has_nul(user_key@),
        has_nul(value@),
    ensures
        r.user_key@ == user_key@.take(c_str_len(user_key@) + 1int),
        r.value@ == value@.take(c_str_len(value@) + 1int),
        r.sequence == sequence,
        r.value_type == value_type,
{
    KeyVersion::new(
        char_ptr_to_bytes(Some(user_key)),
        char_ptr_to_bytes(Some(value)),
        sequence,
        value_type,
    )
}

pub fn default_key_version() -> (r: KeyVersion)
    ensures
        r.user_key@.len() == 0,
        r.value@.len() == 0,
        r.sequence == 0,
        r.value_type == ValueType::TypeDeletion,
{
    KeyVersion::default()
}

} // verus!

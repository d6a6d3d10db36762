//! The decisions that every store operation takes, from what the store
//! reported to what happens next. A backend that keeps the tables elsewhere
//! puts the same questions to its storage and hands the answers to these
//! functions.

use crate::model::MAX_ACTIVE_WORDS;
use crate::records::StoreError;
use vstd::prelude::*;

verus! {

/// Guards every change of a record: `is_default` is the flag of the record
/// that the change aims at, `None` where there is no such record.
pub fn assert_mutable(is_default: Option<bool>) -> (r: Result<(), StoreError>)
    ensures
        r == if is_default == Some(true) {
            Err::<(), StoreError>(StoreError::ProtectedRecord)
        } else {
            Ok(())
        },
{
    match is_default {
        Some(true) => Err(StoreError::ProtectedRecord),
        _ => Ok(()),
    }
}

/// Guards the active set: `count` is the number of active words before one
/// more is added.
pub fn check_capacity(count: i64) -> (r: Result<(), StoreError>)
    ensures
        r == if count >= MAX_ACTIVE_WORDS {
            Err::<(), StoreError>(StoreError::CapacityExceeded)
        } else {
            Ok(())
        },
{
    if count >= MAX_ACTIVE_WORDS as i64 {
        Err(StoreError::CapacityExceeded)
    } else {
        Ok(())
    }
}

/// Whether a statement that touched `rows_affected` rows changed anything.
pub fn rows_changed(rows_affected: u64) -> (r: bool)
    ensures
        r == (rows_affected > 0),
{
    rows_affected > 0
}

/// Whether setting a value has to store a new setting: the update of the
/// existing one touched `rows_affected` rows.
pub fn needs_insert(rows_affected: u64) -> (r: bool)
    ensures
        r == (rows_affected == 0),
{
    rows_affected == 0
}

/// Whether a table that holds `count` rows still has to be seeded.
pub fn needs_seed(count: i64) -> (r: bool)
    ensures
        r == (count <= 0),
{
    !(count > 0)
}

} // verus!

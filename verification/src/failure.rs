//! How storage errors are reported to the recovery and reporting ports.

use vstd::prelude::*;

use crate::error::DbError;

verus! {

/// A recovery port failure that retrying will not cure.
#[derive(Debug, Clone, Copy, PartialEq, Eq, Structural)]
pub enum RecoveryPermanentFailure {
    UnsupportedSchema,
    IntegrityFailure,
    InvalidContract,
}

/// How a recovery port call failed.
#[derive(Debug, Clone, Copy, PartialEq, Eq, Structural)]
pub enum RecoveryPortFailure {
    RetryableFailure,
    PermanentFailure(RecoveryPermanentFailure),
}

/// How a reporting port call failed.
#[derive(Debug, Clone, Copy, PartialEq, Eq, Structural)]
pub enum ReportingError {
    CorruptReportingRecord,
    RetryableStorage,
    StorageUnavailable,
}

/// The SQLite result codes the storage layer tells apart.
#[derive(Debug, Clone, Copy, PartialEq, Eq, Structural)]
pub enum SqliteCodeKind {
    /// `SQLITE_BUSY`: the database file is locked by another connection.
    DatabaseBusy,
    /// `SQLITE_LOCKED`: a table is locked.
    DatabaseLocked,
    /// Any other result code.
    Other,
}

/// Which of the told-apart kinds rusqlite's `ErrorCode` value is.
pub uninterp spec fn sqlite_code_kind(code: rusqlite::ErrorCode) -> SqliteCodeKind;

/// Tells rusqlite's `ErrorCode` variants apart: `DatabaseBusy` and
/// `DatabaseLocked` map to the kinds of those names, every other variant to
/// `Other`. The code is opaque here, so the contract names the kind.
#[verifier::external_body]
fn code_kind(code: rusqlite::ErrorCode) -> (k: SqliteCodeKind)
    ensures
        k == sqlite_code_kind(code),
{
    match code {
        rusqlite::ErrorCode::DatabaseBusy => SqliteCodeKind::DatabaseBusy,
        rusqlite::ErrorCode::DatabaseLocked => SqliteCodeKind::DatabaseLocked,
        _ => SqliteCodeKind::Other,
    }
}

/// Whether a failure with this code may succeed when retried: another
/// connection held the database or a table.
pub open spec fn retryable_kind(k: SqliteCodeKind) -> bool {
    k is DatabaseBusy || k is DatabaseLocked
}

/// The recovery failure that a storage error becomes.
pub open spec fn recovery_failure_of(error: DbError) -> RecoveryPortFailure {
    match error {
        DbError::Migration(_) => RecoveryPortFailure::PermanentFailure(
            RecoveryPermanentFailure::UnsupportedSchema,
        ),
        DbError::LockPoisoned => RecoveryPortFailure::RetryableFailure,
        DbError::Sqlite { code, .. } => if retryable_kind(sqlite_code_kind(code)) {
            RecoveryPortFailure::RetryableFailure
        } else {
            RecoveryPortFailure::PermanentFailure(RecoveryPermanentFailure::IntegrityFailure)
        },
        _ => RecoveryPortFailure::PermanentFailure(RecoveryPermanentFailure::IntegrityFailure),
    }
}

/// Maps a storage error to the failure a recovery port reports: contention
/// and a poisoned lock may be retried, a schema from a migration that failed
/// is unsupported, and everything else is an integrity failure.
pub fn port_failure(error: DbError) -> (r: RecoveryPortFailure)
    ensures
        r == recovery_failure_of(error),
{
    match error {
        DbError::Migration(_) => RecoveryPortFailure::PermanentFailure(
            RecoveryPermanentFailure::UnsupportedSchema,
        ),
        DbError::Integrity(_) | DbError::Validation(_) | DbError::NotFound(_) => {
            RecoveryPortFailure::PermanentFailure(RecoveryPermanentFailure::IntegrityFailure)
        },
        DbError::Sqlite { code, .. } => {
            let kind = code_kind(code);
            if kind == SqliteCodeKind::DatabaseBusy || kind == SqliteCodeKind::DatabaseLocked {
                RecoveryPortFailure::RetryableFailure
            } else {
                RecoveryPortFailure::PermanentFailure(RecoveryPermanentFailure::IntegrityFailure)
            }
        },
        DbError::Connection(_) | DbError::Query(_) | DbError::Write(_) | DbError::Transaction(
            _,
        ) => RecoveryPortFailure::PermanentFailure(RecoveryPermanentFailure::IntegrityFailure),
        DbError::LockPoisoned => RecoveryPortFailure::RetryableFailure,
    }
}

/// The reporting failure that a storage error becomes.
pub open spec fn reporting_failure_of(error: DbError) -> ReportingError {
    match error {
        DbError::Migration(_) | DbError::Validation(_) | DbError::Integrity(_) => {
            ReportingError::CorruptReportingRecord
        },
        DbError::LockPoisoned | DbError::Connection(_) | DbError::Sqlite { .. }
        | DbError::Transaction(_) => ReportingError::RetryableStorage,
        DbError::Query(_) | DbError::Write(_) | DbError::NotFound(_) => {
            ReportingError::StorageUnavailable
        },
    }
}

/// Maps a storage error to the failure a reporting port reports: bad
/// stored data is a corrupt record, contention and lost connections may be
/// retried, and failed statements leave storage unavailable.
pub fn storage_failure(error: DbError) -> (r: ReportingError)
    ensures
        r == reporting_failure_of(error),
{
    match error {
        DbError::Migration(_) | DbError::Validation(_) | DbError::Integrity(_) => {
            ReportingError::CorruptReportingRecord
        },
        DbError::LockPoisoned | DbError::Connection(_) | DbError::Sqlite { .. }
        | DbError::Transaction(_) => ReportingError::RetryableStorage,
        DbError::Query(_) | DbError::Write(_) | DbError::NotFound(_) => {
            ReportingError::StorageUnavailable
        },
    }
}

} // verus!

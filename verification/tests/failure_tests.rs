use racoon_typper::error::DbError;
use racoon_typper::failure::{
    port_failure, storage_failure, RecoveryPermanentFailure, RecoveryPortFailure, ReportingError,
};

fn sqlite(code: rusqlite::ErrorCode) -> DbError {
    DbError::Sqlite { code, extended_code: 0, operation: "test" }
}

#[test]
fn contention_is_retryable_for_recovery() {
    assert_eq!(
        port_failure(sqlite(rusqlite::ErrorCode::DatabaseBusy)),
        RecoveryPortFailure::RetryableFailure
    );
    assert_eq!(
        port_failure(sqlite(rusqlite::ErrorCode::DatabaseLocked)),
        RecoveryPortFailure::RetryableFailure
    );
    assert_eq!(port_failure(DbError::LockPoisoned), RecoveryPortFailure::RetryableFailure);
}

#[test]
fn other_sqlite_codes_are_integrity_failures() {
    assert_eq!(
        port_failure(sqlite(rusqlite::ErrorCode::ConstraintViolation)),
        RecoveryPortFailure::PermanentFailure(RecoveryPermanentFailure::IntegrityFailure)
    );
    assert_eq!(
        port_failure(sqlite(rusqlite::ErrorCode::DatabaseCorrupt)),
        RecoveryPortFailure::PermanentFailure(RecoveryPermanentFailure::IntegrityFailure)
    );
}

#[test]
fn migration_failure_means_unsupported_schema() {
    assert_eq!(
        port_failure(DbError::Migration("v9".into())),
        RecoveryPortFailure::PermanentFailure(RecoveryPermanentFailure::UnsupportedSchema)
    );
    for e in [
        DbError::Integrity("x".into()),
        DbError::Validation("x".into()),
        DbError::NotFound("x".into()),
        DbError::Connection("x".into()),
        DbError::Query("x".into()),
        DbError::Write("x".into()),
        DbError::Transaction("x".into()),
    ] {
        assert_eq!(
            port_failure(e),
            RecoveryPortFailure::PermanentFailure(RecoveryPermanentFailure::IntegrityFailure)
        );
    }
}

#[test]
fn reporting_failures_by_kind() {
    assert_eq!(storage_failure(DbError::Migration("m".into())), ReportingError::CorruptReportingRecord);
    assert_eq!(storage_failure(DbError::Validation("v".into())), ReportingError::CorruptReportingRecord);
    assert_eq!(storage_failure(DbError::Integrity("i".into())), ReportingError::CorruptReportingRecord);
    assert_eq!(storage_failure(DbError::LockPoisoned), ReportingError::RetryableStorage);
    assert_eq!(storage_failure(DbError::Connection("c".into())), ReportingError::RetryableStorage);
    assert_eq!(
        storage_failure(sqlite(rusqlite::ErrorCode::ConstraintViolation)),
        ReportingError::RetryableStorage
    );
    assert_eq!(storage_failure(DbError::Transaction("t".into())), ReportingError::RetryableStorage);
    assert_eq!(storage_failure(DbError::Query("q".into())), ReportingError::StorageUnavailable);
    assert_eq!(storage_failure(DbError::Write("w".into())), ReportingError::StorageUnavailable);
    assert_eq!(storage_failure(DbError::NotFound("n".into())), ReportingError::StorageUnavailable);
}

#[test]
fn error_messages_name_their_kind() {
    assert_eq!(DbError::Connection("c".into()).message(), "DB connection error: c");
    assert_eq!(DbError::Migration("m".into()).message(), "DB migration error: m");
    assert_eq!(DbError::Query("q".into()).message(), "DB query error: q");
    assert_eq!(DbError::Write("w".into()).message(), "DB write error: w");
    assert_eq!(DbError::Transaction("t".into()).message(), "DB transaction error: t");
    assert_eq!(DbError::Integrity("i".into()).message(), "DB integrity error: i");
    assert_eq!(DbError::Validation("v".into()).message(), "Validation error: v");
    assert_eq!(DbError::LockPoisoned.message(), "Database state is unavailable after a panic");
    assert_eq!(DbError::NotFound("n".into()).message(), "Not found: n");
}

#[test]
fn sqlite_messages_carry_both_codes() {
    let e = DbError::Sqlite { code: rusqlite::ErrorCode::DatabaseBusy, extended_code: 5, operation: "open" };
    assert_eq!(e.message(), "SQLite open failure: DatabaseBusy (extended code 5)");
    let e = DbError::Sqlite { code: rusqlite::ErrorCode::ConstraintViolation, extended_code: 2067, operation: "insert" };
    assert_eq!(e.message(), "SQLite insert failure: ConstraintViolation (extended code 2067)");
    let e = DbError::Sqlite { code: rusqlite::ErrorCode::Unknown, extended_code: -7, operation: "x" };
    assert_eq!(e.message(), "SQLite x failure: Unknown (extended code -7)");
}

//! Errors of the storage layer.

use vstd::prelude::*;

use crate::text::{append_str, decimal, decimal_chars, string_from_chars};

verus! {

/// SQLite's primary result code, carried through unchanged.
#[verifier::external_type_specification]
#[verifier::external_body]
pub struct ExSqliteErrorCode(rusqlite::ErrorCode);

/// Errors of the storage layer and of the validation in front of it.
#[derive(Debug)]
pub enum DbError {
    Connection(String),
    Migration(String),
    Query(String),
    Write(String),
    Transaction(String),
    /// A structured SQLite failure, kept until a storage adapter maps it.
    Sqlite { code: rusqlite::ErrorCode, extended_code: i32, operation: &'static str },
    Integrity(String),
    Validation(String),
    LockPoisoned,
    NotFound(String),
}

/// How rusqlite's `ErrorCode` prints under `{:?}`: the variant's name.
pub uninterp spec fn sqlite_code_debug(code: rusqlite::ErrorCode) -> Seq<char>;

/// Formats rusqlite's `ErrorCode` with `{:?}`; the contract names the text,
/// which the derived `Debug` of the outside enum decides.
#[verifier::external_body]
fn sqlite_code_text(code: rusqlite::ErrorCode) -> (s: String)
    ensures
        s@ == sqlite_code_debug(code),
{
    format!("{:?}", code)
}

/// A signed number in decimal.
pub open spec fn signed_decimal(n: i32) -> Seq<char> {
    if n < 0 {
        "-"@ + decimal((-n) as nat)
    } else {
        decimal(n as nat)
    }
}

/// The message of an error.
pub open spec fn db_error_message(e: DbError) -> Seq<char> {
    match e {
        DbError::Connection(m) => "DB connection error: "@ + m@,
        DbError::Migration(m) => "DB migration error: "@ + m@,
        DbError::Query(m) => "DB query error: "@ + m@,
        DbError::Write(m) => "DB write error: "@ + m@,
        DbError::Transaction(m) => "DB transaction error: "@ + m@,
        DbError::Sqlite { code, extended_code, operation } => "SQLite "@ + operation@ + " failure: "@
            + sqlite_code_debug(code) + " (extended code "@ + signed_decimal(extended_code) + ")"@,
        DbError::Integrity(m) => "DB integrity error: "@ + m@,
        DbError::Validation(m) => "Validation error: "@ + m@,
        DbError::LockPoisoned => "Database state is unavailable after a panic"@,
        DbError::NotFound(m) => "Not found: "@ + m@,
    }
}

fn prefixed(prefix: &str, m: &String) -> (r: String)
    ensures
        r@ == prefix@ + m@,
{
    let mut out: Vec<char> = Vec::new();
    append_str(&mut out, prefix);
    append_str(&mut out, m.as_str());
    string_from_chars(out.as_slice())
}

impl DbError {
    /// The error's message, as shown to a user.
    pub fn message(&self) -> (r: String)
        ensures
            r@ == db_error_message(*self),
    {
        match self {
            DbError::Connection(m) => prefixed("DB connection error: ", m),
            DbError::Migration(m) => prefixed("DB migration error: ", m),
            DbError::Query(m) => prefixed("DB query error: ", m),
            DbError::Write(m) => prefixed("DB write error: ", m),
            DbError::Transaction(m) => prefixed("DB transaction error: ", m),
            DbError::Sqlite { code, extended_code, operation } => {
                let mut num: Vec<char> = Vec::new();
                if *extended_code < 0 {
                    append_str(&mut num, "-");
                    let magnitude: u64 = if *extended_code == i32::MIN {
                        2147483648u64
                    } else {
                        (-*extended_code) as u64
                    };
                    assert(magnitude as nat == (-*extended_code) as nat);
                    let mut d = decimal_chars(magnitude);
                    num.append(&mut d);
                } else {
                    num = decimal_chars(*extended_code as u64);
                }
                assert(num@ =~= signed_decimal(*extended_code));
                let mut out: Vec<char> = Vec::new();
                append_str(&mut out, "SQLite ");
                append_str(&mut out, operation);
                append_str(&mut out, " failure: ");
                let name = sqlite_code_text(*code);
                append_str(&mut out, name.as_str());
                append_str(&mut out, " (extended code ");
                out.append(&mut num);
                append_str(&mut out, ")");
                let r = string_from_chars(out.as_slice());
                assert(r@ =~= db_error_message(*self));
                r
            },
            DbError::Integrity(m) => prefixed("DB integrity error: ", m),
            DbError::Validation(m) => prefixed("Validation error: ", m),
            DbError::LockPoisoned => "Database state is unavailable after a panic".to_owned(),
            DbError::NotFound(m) => prefixed("Not found: ", m),
        }
    }
}

} // verus!

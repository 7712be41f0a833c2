//! The error type of the loaders and of the transfer to the ledger.

use vstd::prelude::*;
use vstd::std_specs::convert::FromSpecImpl;
use crate::utils::chars::{chars_to_string, push_str};

verus! {

#[verifier::external_type_specification]
#[verifier::external_body]
pub struct ExCsvError(csv::Error);

#[verifier::external_type_specification]
#[verifier::external_body]
pub struct ExYamlError(serde_yaml::Error);

#[verifier::external_type_specification]
#[verifier::external_body]
pub struct ExSqliteError(rusqlite::Error);

#[verifier::external_type_specification]
#[verifier::external_body]
pub struct ExIoError(std::io::Error);

/// Why loading or transferring failed.
#[derive(Debug)]
pub enum DbError {
    Csv(csv::Error),
    Yaml(serde_yaml::Error),
    Sqlite(rusqlite::Error),
    Std(std::io::Error),
    Other(String),
}

/// The text of a `csv::Error`, as its `Display` prints it.
#[verifier::external_body]
fn csv_error_text(e: &csv::Error) -> String {
    format!("{}", e)
}

/// The text of a `serde_yaml::Error`, as its `Display` prints it.
#[verifier::external_body]
fn yaml_error_text(e: &serde_yaml::Error) -> String {
    format!("{}", e)
}

/// The text of a `rusqlite::Error`, as its `Display` prints it.
#[verifier::external_body]
fn sqlite_error_text(e: &rusqlite::Error) -> String {
    format!("{}", e)
}

/// The text of a `std::io::Error`, as its `Display` prints it.
#[verifier::external_body]
fn io_error_text(e: &std::io::Error) -> String {
    format!("{}", e)
}

/// The prefix that `DbError::message` puts before the cause.
pub open spec fn error_prefix(e: DbError) -> Seq<char> {
    match e {
        DbError::Csv(_) => "CSV Error: "@,
        DbError::Yaml(_) => "YAML Error: "@,
        DbError::Sqlite(_) => "SQLite Error: "@,
        DbError::Std(_) => "Std Error: "@,
        DbError::Other(_) => "Error: "@,
    }
}

impl DbError {
    /// The error's text: a prefix naming its kind, then its cause.
    pub fn message(&self) -> (s: String)
        ensures
            s@.len() >= error_prefix(*self).len(),
            s@.take(error_prefix(*self).len() as int) == error_prefix(*self),
            *self matches DbError::Other(m) ==> s@ == "Error: "@ + m@,
    {
        let mut out: Vec<char> = Vec::new();
        let cause = match self {
            DbError::Csv(e) => {
                push_str(&mut out, "CSV Error: ");
                csv_error_text(e)
            },
            DbError::Yaml(e) => {
                push_str(&mut out, "YAML Error: ");
                yaml_error_text(e)
            },
            DbError::Sqlite(e) => {
                push_str(&mut out, "SQLite Error: ");
                sqlite_error_text(e)
            },
            DbError::Std(e) => {
                push_str(&mut out, "Std Error: ");
                io_error_text(e)
            },
            DbError::Other(m) => {
                push_str(&mut out, "Error: ");
                m.clone()
            },
        };
        let ghost prefix = out@;
        assert(prefix == error_prefix(*self));
        push_str(&mut out, cause.as_str());
        assert(out@.take(prefix.len() as int) =~= prefix);
        chars_to_string(out.as_slice())
    }
}

impl From<String> for DbError {
    fn from(e: String) -> (r: DbError) {
        DbError::Other(e)
    }
}

impl FromSpecImpl<String> for DbError {
    open spec fn obeys_from_spec() -> bool {
        true
    }

    open spec fn from_spec(v: String) -> DbError {
        DbError::Other(v)
    }
}

impl From<csv::Error> for DbError {
    fn from(e: csv::Error) -> (r: DbError) {
        DbError::Csv(e)
    }
}

impl FromSpecImpl<csv::Error> for DbError {
    open spec fn obeys_from_spec() -> bool {
        true
    }

    open spec fn from_spec(v: csv::Error) -> DbError {
        DbError::Csv(v)
    }
}

impl From<serde_yaml::Error> for DbError {
    fn from(e: serde_yaml::Error) -> (r: DbError) {
        DbError::Yaml(e)
    }
}

impl FromSpecImpl<serde_yaml::Error> for DbError {
    open spec fn obeys_from_spec() -> bool {
        true
    }

    open spec fn from_spec(v: serde_yaml::Error) -> DbError {
        DbError::Yaml(v)
    }
}

impl From<rusqlite::Error> for DbError {
    fn from(e: rusqlite::Error) -> (r: DbError) {
        DbError::Sqlite(e)
    }
}

impl FromSpecImpl<rusqlite::Error> for DbError {
    open spec fn obeys_from_spec() -> bool {
        true
    }

    open spec fn from_spec(v: rusqlite::Error) -> DbError {
        DbError::Sqlite(v)
    }
}

impl From<std::io::Error> for DbError {
    fn from(e: std::io::Error) -> (r: DbError) {
        DbError::Std(e)
    }
}

impl FromSpecImpl<std::io::Error> for DbError {
    open spec fn obeys_from_spec() -> bool {
        true
    }

    open spec fn from_spec(v: std::io::Error) -> DbError {
        DbError::Std(v)
    }
}

} // verus!

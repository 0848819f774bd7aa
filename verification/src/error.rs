//! The library's error type.
//!
//! Three variants carry errors of other libraries (I/O, CSV, JSON) as they
//! come; the rest carry a message of the library's own.
use vstd::prelude::*;

verus! {

#[verifier::external_type_specification]
#[verifier::external_body]
pub struct ExIoError(std::io::Error);

#[verifier::external_type_specification]
#[verifier::external_body]
pub struct ExCsvError(csv::Error);

#[verifier::external_type_specification]
#[verifier::external_body]
pub struct ExJsonError(serde_json::Error);

#[derive(Debug)]
pub enum ExoError {
    Io(std::io::Error),
    Csv(csv::Error),
    Json(serde_json::Error),
    Http(String),
    Parse(String),
    Model(String),
    MissingField { id: String, field: &'static str },
}

} // verus!

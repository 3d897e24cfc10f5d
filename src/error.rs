//! The error type of the library, and the outside error types it carries.

use vstd::prelude::*;

verus! {

/// The error `url::Url::parse` returns, carried as it is.
#[verifier::external_type_specification]
#[verifier::external_body]
pub struct ExUrlParseError(url::ParseError);

/// The error `serde_json::from_str` returns, carried as it is.
#[verifier::external_type_specification]
#[verifier::external_body]
pub struct ExJsonError(serde_json::Error);

/// Every way an operation of the library can fail.
#[derive(Debug)]
pub enum EDGARParserError {
    /// The connection could not be opened, written or read.
    HttpError(String),
    /// The response had no header/body delimiter, or an empty body.
    EmptyOrMissingBody(String),
    /// A document was not JSON, or not of the expected shape.
    JSONParseError(serde_json::Error),
    /// The requested resource (a ticker, a CIK) is absent.
    NotFound(String),
    /// A date is not eight digits forming a real `YYYYMMDD` calendar date.
    InvalidDateFormat(String),
    /// A string names no filing type of the catalog.
    FilingTypeNotFound,
    /// A string names no owner option.
    OwnerTypeNotFound,
    /// The assembled query is not a well-formed URL.
    UrlParseError(url::ParseError),
}

} // verus!

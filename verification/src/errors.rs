//! The one error shape every failure is normalised into.
//!
//! The remote service reports errors as a structured envelope; transport
//! failures, decode failures and protocol violations found by this crate are
//! converted into the same shape.  The constructors here are the only places
//! where those heterogeneous failure sources become an `APIError`.

use vstd::prelude::*;

verus! {

/// Error envelope as the API reports it; also used for this crate's own errors.
#[derive(Clone, Debug)]
pub struct APIError {
    pub error: AErr,
}

/// The body of an error report.
#[derive(Clone, Debug)]
pub struct AErr {
    pub status: u16,
    pub code: u16,
    pub detail: String,
    pub title: String,
    pub errors: Option<Vec<AError>>,
}

/// One specialized message inside an error report.
#[derive(Clone, Debug)]
pub struct AError {
    pub source: Source,
    pub detail: String,
}

/// Names the place an error was generated at.
#[derive(Clone, Debug)]
pub struct Source {
    pub pointer: String,
}

/// What `APIError::new(code, title, descr, loc)` promises of its result.
pub open spec fn is_api_error(
    e: APIError,
    code: u16,
    title: Seq<char>,
    descr: Seq<char>,
    loc: Seq<char>,
) -> bool {
    &&& e.error.status == code
    &&& e.error.code == code
    &&& e.error.title@ == title
    &&& e.error.detail@ == descr
    &&& e.error.errors matches Some(v) && v@.len() == 1 && v@[0].detail@ == descr
        && v@[0].source.pointer@ == loc
}

impl APIError {
    /// Generate a properly formatted `APIError`.
    pub fn new(code: u16, title: &str, descr: &str, loc: &str) -> (e: APIError)
        ensures
            is_api_error(e, code, title@, descr@, loc@),
    {
        APIError {
            error: AErr {
                status: code,
                code,
                detail: descr.to_owned(),
                title: title.to_owned(),
                errors: Some(
                    vec![AError {
                        detail: descr.to_owned(),
                        source: Source { pointer: loc.to_owned() },
                    }],
                ),
            },
        }
    }

    /// A text rendering of the error, for application-level display.
    pub fn text(&self) -> (r: String)
        ensures
            r@ == self.error.title@,
    {
        self.error.title.clone()
    }
}

/// The error reported when a `(category, operation)` pair has no entry in the
/// routing table: a programmer error, surfaced as a hard failure.
pub open spec fn is_invalid_operation_error(e: APIError) -> bool {
    is_api_error(
        e,
        500,
        "InvalidOperation"@,
        "no entry in the routing table"@,
        "resolve"@,
    )
}

/// Build the `InvalidOperation` error.
pub fn invalid_operation() -> (e: APIError)
    ensures
        is_invalid_operation_error(e),
{
    APIError::new(500, "InvalidOperation", "no entry in the routing table", "resolve")
}

/// Conversion rule for I/O failures: status 500, title "I/O error".
pub open spec fn is_io_error(e: APIError, descr: Seq<char>) -> bool {
    is_api_error(e, 500, "I/O error"@, descr, "io"@)
}

/// Normalise an I/O failure, reported by the caller as its message text.
pub fn from_io_failure(descr: &str) -> (e: APIError)
    ensures
        is_io_error(e, descr@),
{
    APIError::new(500, "I/O error", descr, "io")
}

/// Conversion rule for decode failures: status 500, title "decode".
pub open spec fn is_decode_error(e: APIError, descr: Seq<char>) -> bool {
    is_api_error(e, 500, "decode"@, descr, "decode"@)
}

/// Normalise a decode failure, reported by the caller as its message text.
pub fn from_decode_failure(descr: &str) -> (e: APIError)
    ensures
        is_decode_error(e, descr@),
{
    APIError::new(500, "decode", descr, "decode")
}

/// Conversion rule for transport failures: the transport status when there is
/// one, else 500; title "transport".
pub open spec fn is_transport_error(e: APIError, status: Option<u16>, descr: Seq<char>) -> bool {
    is_api_error(
        e,
        match status {
            Some(s) => s,
            None => 500,
        },
        "transport"@,
        descr,
        "transport"@,
    )
}

/// Normalise a transport failure, reported by the caller as an optional HTTP
/// status and its message text.
pub fn from_transport_failure(status: Option<u16>, descr: &str) -> (e: APIError)
    ensures
        is_transport_error(e, status, descr@),
{
    let code: u16 = match status {
        Some(s) => s,
        None => 500,
    };
    APIError::new(code, "transport", descr, "transport")
}

} // verus!

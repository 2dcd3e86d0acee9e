//! The errors of the exporter, and the address check that one of them comes
//! from.

use vstd::prelude::*;

verus! {

/// `http::Uri`, the parsed form of an address.
#[verifier::external_type_specification]
#[verifier::external_body]
pub struct ExUri(http::Uri);

/// `http::uri::InvalidUri`, the reason an address did not parse.
#[verifier::external_type_specification]
#[verifier::external_body]
pub struct ExInvalidUri(http::uri::InvalidUri);

/// Errors of the exporter.
pub enum Error {
    /// Message pack error
    MessagePackError,
    /// No transport was given to send requests with.
    NoHttpClient,
    /// The request could not be put together; the text says why.
    RequestError(String),
    /// The address of the intake is not a valid URI.
    InvalidUri(http::uri::InvalidUri),
    /// Other errors
    Other(String),
}

/// The name under which this exporter reports its errors.
pub const EXPORTER_NAME: &'static str = "datadog-traces";

impl Error {
    pub fn exporter_name(&self) -> (name: &'static str)
        ensures
            name@ == EXPORTER_NAME@,
    {
        EXPORTER_NAME
    }
}

/// Whether `http` accepts a text as a URI.
pub uninterp spec fn uri_text_is_valid(text: Seq<char>) -> bool;

/// Parses a text with `http::Uri`'s `FromStr`. The parser reads nothing but
/// the text, so whether it accepts is a property of the text; the contract
/// gives that property its name and says no more.
#[verifier::external_body]
pub(crate) fn parse_uri(text: &str) -> (parsed: Result<http::Uri, http::uri::InvalidUri>)
    ensures
        parsed.is_ok() == uri_text_is_valid(text@),
{
    text.parse::<http::Uri>()
}

} // verus!

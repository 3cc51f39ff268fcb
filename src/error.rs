use vstd::prelude::*;

use restson::Error as RestsonError;

verus! {

/// Errors which the service client reports.
#[non_exhaustive]
#[derive(Debug, PartialEq, Eq)]
pub enum Error {
    /// The transport decoded a value that is not a valid domain value.
    UnreadableResponse,
    /// A status token that names no known status.
    UnknownStatus,
    /// Any failure of the transport, with its description.
    HTTPError(String),
}

#[verifier::external_type_specification]
#[verifier::external_body]
pub struct ExRestsonError(RestsonError);

/// Relies on the `Display` of restson's `Error`: it writes a fixed, non-empty
/// description of the failure's kind, then the cause's own text, if any.
#[verifier::external_body]
fn transport_error_text(err: &RestsonError) -> (r: String)
    ensures
        r@.len() > 0,
{
    err.to_string()
}

impl From<RestsonError> for Error {
    /// A transport failure, with the transport's description of it.
    fn from(err: RestsonError) -> (r: Error)
        ensures
            r matches Error::HTTPError(description) && description@.len() > 0,
    {
        Error::HTTPError(transport_error_text(&err))
    }
}

impl vstd::std_specs::convert::FromSpecImpl<RestsonError> for Error {
    /// The description is the transport's, so no value is fixed in advance;
    /// what `from` returns is stated on the impl above.
    open spec fn obeys_from_spec() -> bool {
        false
    }

    open spec fn from_spec(err: RestsonError) -> Error {
        arbitrary()
    }
}

} // verus!

//! The ways in which a record can fail to be forwarded.

use vstd::prelude::*;

verus! {

/// Why a payload yields no destination topic.
#[derive(Clone, Copy, Debug, PartialEq, Eq, Structural)]
pub enum RoutingError {
    /// The payload bytes are not valid UTF-8.
    InvalidEncoding,
    /// The payload text is not a JSON document.
    InvalidJson,
    /// The document has no `payload.YEAR`, or it is not an integer in `0..=65535`.
    MissingField,
}

/// Why the driver went on to the next record without a delivered publication.
/// None of these ends the pipeline.
#[derive(Clone, Copy, Debug, PartialEq, Eq, Structural)]
pub enum Failure {
    /// The record was dropped because its payload could not be routed.
    Routing(RoutingError),
    /// The record was dropped because it carries no payload.
    NoPayload,
    /// The consumer reported an error instead of a record.
    Fetch,
    /// The producer reported that the publication was not delivered.
    Publish,
}

impl RoutingError {
    /// The name of the error kind, as it is reported.
    pub fn name(&self) -> (r: &'static str)
        ensures
            r@ == match *self {
                RoutingError::InvalidEncoding => "InvalidEncoding"@,
                RoutingError::InvalidJson => "InvalidJson"@,
                RoutingError::MissingField => "MissingField"@,
            },
    {
        match self {
            RoutingError::InvalidEncoding => "InvalidEncoding",
            RoutingError::InvalidJson => "InvalidJson",
            RoutingError::MissingField => "MissingField",
        }
    }
}

/// The one failure that ends the process: the source topic could not be
/// subscribed to at startup.
#[derive(Clone, Debug, PartialEq, Eq)]
pub enum AppError {
    /// The subscription failed; the text is the broker client's reason.
    ConnectionError(String),
}

impl AppError {
    /// The text that `message` returns.
    pub open spec fn spec_message(&self) -> Seq<char> {
        match *self {
            AppError::ConnectionError(reason) => "ConnectionError: "@ + reason@,
        }
    }

    /// The diagnostic for this error: `ConnectionError: ` and the reason.
    pub fn message(&self) -> (r: String)
        ensures
            r@ == self.spec_message(),
    {
        match self {
            AppError::ConnectionError(reason) => {
                String::from_str("ConnectionError: ").concat(reason.as_str())
            },
        }
    }
}

} // verus!

//! Payload bytes as text.

use vstd::prelude::*;
use vstd::string::StringSliceAdditionalSpecFns;
use vstd::utf8::{decode_utf8, encode_utf8_decode_utf8, valid_utf8};
use crate::error::RoutingError;

verus! {

/// `core::str::Utf8Error`, the reason why bytes are no text. Nothing inside
/// it is visible.
#[verifier::external_type_specification]
#[verifier::external_body]
pub struct ExUtf8Error(core::str::Utf8Error);

/// Calls `rdkafka::message::FromBytes::from_bytes` for `str`, the view that
/// the broker client gives of a message's payload as text.
///
/// Trusted: the call succeeds exactly on valid UTF-8, and the text it
/// returns is encoded by the very bytes it was given.
#[verifier::external_body]
fn view_as_text(bytes: &[u8]) -> (r: Result<&str, core::str::Utf8Error>)
    ensures
        r is Ok == valid_utf8(bytes@),
        r matches Ok(text) ==> text.spec_bytes() == bytes@,
{
    <str as rdkafka::message::FromBytes>::from_bytes(bytes)
}

/// What a payload decodes to: its characters, or `InvalidEncoding` where the
/// bytes are not valid UTF-8.
pub open spec fn spec_decode(bytes: Seq<u8>) -> Result<Seq<char>, RoutingError> {
    if valid_utf8(bytes) {
        Ok(decode_utf8(bytes))
    } else {
        Err(RoutingError::InvalidEncoding)
    }
}

/// The text of a payload. It is borrowed from the payload: no byte is
/// copied or changed.
pub fn decode(bytes: &[u8]) -> (r: Result<&str, RoutingError>)
    ensures
        match r {
            Ok(text) => spec_decode(bytes@) == Ok::<Seq<char>, RoutingError>(text@)
                && text.spec_bytes() == bytes@,
            Err(e) => spec_decode(bytes@) == Err::<Seq<char>, RoutingError>(e),
        },
{
    match view_as_text(bytes) {
        Ok(text) => {
            proof {
                encode_utf8_decode_utf8(text@);
            }
            Ok(text)
        },
        Err(_) => Err(RoutingError::InvalidEncoding),
    }
}

} // verus!

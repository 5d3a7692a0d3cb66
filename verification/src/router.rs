//! The record router: from payload bytes to the name of the destination topic.

use vstd::prelude::*;
use vstd::utf8::{decode_utf8, valid_utf8};
use crate::decimal::{append_decimal, decimal, lemma_decimal_injective};
use crate::error::RoutingError;
use crate::json::{parsed_unsigneds, routing_field, spec_routing_field, unsigned_at, year_path};
use crate::text::{decode, spec_decode};

verus! {

/// The largest routing key.
pub const MAX_ROUTING_KEY: u64 = 65535;

/// The routing key that a routing field stands for: the field itself when
/// there is one and it is at most `MAX_ROUTING_KEY`.
pub open spec fn spec_routing_key(field: Option<u64>) -> Result<u16, RoutingError> {
    match field {
        Some(year) => if year <= MAX_ROUTING_KEY {
            Ok(year as u16)
        } else {
            Err(RoutingError::MissingField)
        },
        None => Err(RoutingError::MissingField),
    }
}

/// The destination topic of a routing key: the prefix, then the key in
/// decimal, with nothing between them.
pub open spec fn spec_destination(prefix: Seq<char>, key: u16) -> Seq<char> {
    prefix + decimal(key as nat)
}

/// Where a payload is routed: the first failure among decoding the bytes,
/// parsing the text and reading the routing key, else the destination topic.
pub open spec fn spec_route(prefix: Seq<char>, payload: Seq<u8>) -> Result<Seq<char>, RoutingError> {
    match spec_decode(payload) {
        Err(e) => Err(e),
        Ok(text) => match spec_routing_field(text) {
            Err(e) => Err(e),
            Ok(field) => match spec_routing_key(field) {
                Err(e) => Err(e),
                Ok(key) => Ok(spec_destination(prefix, key)),
            },
        },
    }
}

/// Checks the range of a routing field.
pub fn routing_key(field: Option<u64>) -> (r: Result<u16, RoutingError>)
    ensures
        r == spec_routing_key(field),
{
    match field {
        Some(year) => {
            if year <= MAX_ROUTING_KEY {
                Ok(year as u16)
            } else {
                Err(RoutingError::MissingField)
            }
        },
        None => Err(RoutingError::MissingField),
    }
}

/// Names the destination topic of a routing key.
pub fn destination_topic(prefix: &str, key: u16) -> (r: String)
    ensures
        r@ == spec_destination(prefix@, key),
{
    let mut topic = String::from_str(prefix);
    append_decimal(&mut topic, key as u64);
    topic
}

/// Routes a payload: the destination topic, or the reason why there is none.
pub fn route(prefix: &str, payload: &[u8]) -> (r: Result<String, RoutingError>)
    ensures
        match r {
            Ok(topic) => spec_route(prefix@, payload@) == Ok::<Seq<char>, RoutingError>(topic@),
            Err(e) => spec_route(prefix@, payload@) == Err::<Seq<char>, RoutingError>(e),
        },
{
    let text = match decode(payload) {
        Ok(text) => text,
        Err(e) => {
            return Err(e);
        },
    };
    let field = match routing_field(text) {
        Ok(field) => field,
        Err(e) => {
            return Err(e);
        },
    };
    match routing_key(field) {
        Ok(key) => Ok(destination_topic(prefix, key)),
        Err(e) => Err(e),
    }
}

/// A payload that is valid UTF-8 and whose text is a JSON document holding
/// `year` under `payload.YEAR`, with `year` at most 65535, is routed to the
/// prefix followed by `year` in decimal.
pub proof fn lemma_route_of_year(prefix: Seq<char>, payload: Seq<u8>, year: u64)
    requires
        valid_utf8(payload),
        parsed_unsigneds(decode_utf8(payload)) matches Some(all) && unsigned_at(all, year_path())
            == Some(year),
        year <= 65535,
    ensures
        spec_route(prefix, payload) == Ok::<Seq<char>, RoutingError>(prefix + decimal(year as nat)),
{
}

/// Every other payload is refused, and the error says at which stage:
/// bytes that are not valid UTF-8, a text that is no JSON document, a
/// document without an integer of at most 65535 under `payload.YEAR`.
pub proof fn lemma_route_refusals(prefix: Seq<char>, payload: Seq<u8>)
    ensures
        spec_route(prefix, payload) == Err::<Seq<char>, RoutingError>(RoutingError::InvalidEncoding)
            <==> !valid_utf8(payload),
        spec_route(prefix, payload) == Err::<Seq<char>, RoutingError>(RoutingError::InvalidJson)
            <==> valid_utf8(payload) && parsed_unsigneds(decode_utf8(payload)) is None,
        spec_route(prefix, payload) == Err::<Seq<char>, RoutingError>(RoutingError::MissingField)
            <==> valid_utf8(payload) && (parsed_unsigneds(decode_utf8(payload)) matches Some(all)
            && !(unsigned_at(all, year_path()) matches Some(year) && year <= 65535)),
{
}

/// Routing depends on nothing but the prefix and the bytes of the payload:
/// two payloads with the same bytes have the same outcome.
pub proof fn lemma_route_deterministic(prefix: Seq<char>, first: Seq<u8>, second: Seq<u8>)
    requires
        first.len() == second.len(),
        forall|i: int| 0 <= i < first.len() ==> first[i] == second[i],
    ensures
        spec_route(prefix, first) == spec_route(prefix, second),
{
    assert(first =~= second);
}

/// Under one prefix, different routing keys have different destination topics.
pub proof fn lemma_destination_injective(prefix: Seq<char>, a: u16, b: u16)
    requires
        spec_destination(prefix, a) == spec_destination(prefix, b),
    ensures
        a == b,
{
    let n = prefix.len() as int;
    let left = spec_destination(prefix, a);
    let right = spec_destination(prefix, b);
    assert(left.subrange(n, left.len() as int) =~= decimal(a as nat));
    assert(right.subrange(n, right.len() as int) =~= decimal(b as nat));
    lemma_decimal_injective(a as nat, b as nat);
}

} // verus!

//! Reading the routing field out of a JSON text with `serde_json`.
//!
//! A parsed document stays a `serde_json::Value`, which is opaque here. The
//! contracts speak of one thing it holds: its unsigned integers, each under
//! the path of object member names that leads to it. That is all the router
//! reads of a document.

use vstd::prelude::*;
use crate::error::RoutingError;

verus! {

/// `serde_json::Value`, a parsed JSON value. Nothing inside it is visible.
#[verifier::external_type_specification]
#[verifier::external_body]
pub struct ExJsonValue(serde_json::Value);

/// `serde_json::Error`, the reason why a text did not parse. Nothing inside
/// it is visible.
#[verifier::external_type_specification]
#[verifier::external_body]
pub struct ExJsonError(serde_json::Error);

/// A path into a document: the member names to follow, outermost first.
pub type Path = Seq<Seq<char>>;

/// Unsigned integers by the path that leads to them.
pub type Unsigneds = Map<Seq<Seq<char>>, u64>;

/// The unsigned integers that a `serde_json::Value` holds. A path is in the
/// map when following its member names with `Value::get`, from this value
/// inwards, ends at a value for which `Value::as_u64` gives a number; the
/// path is mapped to that number. The empty path stands for the value itself.
pub uninterp spec fn unsigned_members(value: serde_json::Value) -> Map<Seq<Seq<char>>, u64>;

/// What `serde_json::from_str` makes of a text: `None` where it reports an
/// error, else the unsigned integers of the value it returns.
pub uninterp spec fn parsed_unsigneds(text: Seq<char>) -> Option<Map<Seq<Seq<char>>, u64>>;

/// The part of `all` that lies below the member `name`, with `name` taken
/// off the front of each path.
pub open spec fn below(all: Unsigneds, name: Seq<char>) -> Unsigneds {
    Map::new(
        |path: Path| all.contains_key(seq![name] + path),
        |path: Path| all[seq![name] + path],
    )
}

/// The unsigned integer at `path`, if there is one.
pub open spec fn unsigned_at(all: Unsigneds, path: Path) -> Option<u64> {
    if all.contains_key(path) {
        Some(all[path])
    } else {
        None
    }
}

/// Calls `serde_json::from_str` at the type `serde_json::Value`.
///
/// Trusted: the outcome of the call is the one that `parsed_unsigneds` names
/// for the same text, an error where it is `None` and else a value that
/// holds those unsigned integers.
#[verifier::external_body]
fn parse(text: &str) -> (r: Result<serde_json::Value, serde_json::Error>)
    ensures
        parsed_unsigneds(text@) == match r {
            Ok(value) => Some(unsigned_members(value)),
            Err(_) => None,
        },
{
    serde_json::from_str::<serde_json::Value>(text)
}

/// Calls `serde_json::Value::get` with a string index, which gives the
/// member of that name where the value is an object that has one.
///
/// Trusted: the unsigned integers of the member are those that the value
/// holds below `name`; where there is no such member, the value holds none
/// below `name`.
#[verifier::external_body]
fn member<'a>(value: &'a serde_json::Value, name: &str) -> (r: Option<&'a serde_json::Value>)
    ensures
        below(unsigned_members(*value), name@) == match r {
            Some(inner) => unsigned_members(*inner),
            None => Map::<Path, u64>::empty(),
        },
{
    value.get(name)
}

/// Calls `serde_json::Value::as_u64`, which gives the number where the value
/// is a non-negative integer that fits `u64`.
///
/// Trusted: that number is what `unsigned_members` holds under the empty path.
#[verifier::external_body]
fn unsigned(value: &serde_json::Value) -> (r: Option<u64>)
    ensures
        r == unsigned_at(unsigned_members(*value), Seq::<Seq<char>>::empty()),
{
    value.as_u64()
}

/// The path of the routing field, `payload.YEAR`.
pub open spec fn year_path() -> Path {
    seq!["payload"@, "YEAR"@]
}

/// What a text yields as its routing field: `InvalidJson` where the text is
/// no JSON document, else the unsigned integer under `payload.YEAR`, if any.
pub open spec fn spec_routing_field(text: Seq<char>) -> Result<Option<u64>, RoutingError> {
    match parsed_unsigneds(text) {
        None => Err(RoutingError::InvalidJson),
        Some(all) => Ok(unsigned_at(all, year_path())),
    }
}

/// Parses `text` and reads the unsigned integer under `payload.YEAR`.
/// Whatever else the document holds is not looked at.
pub fn routing_field(text: &str) -> (r: Result<Option<u64>, RoutingError>)
    ensures
        r == spec_routing_field(text@),
{
    match parse(text) {
        Err(_) => Err(RoutingError::InvalidJson),
        Ok(document) => {
            let ghost all = unsigned_members(document);
            let ghost inside = below(all, "payload"@);
            proof {
                assert(seq!["payload"@] + seq!["YEAR"@] =~= year_path());
                assert(seq!["YEAR"@] + Seq::<Seq<char>>::empty() =~= seq!["YEAR"@]);
            }
            match member(&document, "payload") {
                None => {
                    assert(!inside.contains_key(seq!["YEAR"@]));
                    Ok(None)
                },
                Some(inner) => match member(inner, "YEAR") {
                    None => {
                        assert(!below(inside, "YEAR"@).contains_key(Seq::<Seq<char>>::empty()));
                        Ok(None)
                    },
                    Some(year) => Ok(unsigned(year)),
                },
            }
        },
    }
}

} // verus!

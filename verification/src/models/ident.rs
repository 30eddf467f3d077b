//! Identifiers: the 128-bit values of UUIDs.

use vstd::prelude::*;

verus! {

/// The value of the UUID that `uuid::Uuid::parse_str` reads from `text`, or
/// `None` where it reads none.
pub uninterp spec fn parsed_uuid(text: Seq<char>) -> Option<u128>;

/// `uuid::Error`, the parser's error, declared so that it can be handed on.
/// Nothing is known of what is inside it.
#[verifier::external_type_specification]
#[verifier::external_body]
pub struct ExUuidError(uuid::Error);

/// Makes a new identifier: calls `uuid::Uuid::new_v4` and hands back the
/// 128-bit value of the UUID it made. The value is random, so nothing is
/// claimed of it.
#[verifier::external_body]
pub(crate) fn fresh_id() -> u128 {
    uuid::Uuid::new_v4().as_u128()
}

/// Calls `uuid::Uuid::parse_str` on `text`. The parser is a function of the
/// text alone: it succeeds exactly where `parsed_uuid` has a value, and then
/// returns that value.
#[verifier::external_body]
pub(crate) fn uuid_from_text(text: &str) -> (parsed: Result<u128, uuid::Error>)
    ensures
        parsed is Ok <==> parsed_uuid(text@) is Some,
        parsed matches Ok(id) ==> parsed_uuid(text@) == Some(id),
{
    match uuid::Uuid::parse_str(text) {
        Ok(uuid) => Ok(uuid.as_u128()),
        Err(error) => Err(error),
    }
}

/// The parser's own account of a failure: the text that `uuid::Error`
/// displays. Nothing is claimed of it.
#[verifier::external_body]
pub(crate) fn uuid_error_text(error: &uuid::Error) -> String {
    error.to_string()
}

} // verus!

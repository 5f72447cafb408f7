//! Local account identifiers: 128-bit values written as textual UUIDs at the
//! interface.

use vstd::prelude::*;

verus! {

/// The 128-bit value of a textual identifier; `None` when the text is not a
/// well-formed UUID. The result is a function of the text alone.
pub uninterp spec fn uuid_value_of(text: Seq<char>) -> Option<int>;

/// Relies on uuid::Uuid::parse_str and Uuid::as_u128: the 128-bit value of
/// the textual identifier.
#[verifier::external_body]
pub(crate) fn parse_uuid(text: &str) -> (r: Option<u128>)
    ensures
        r is Some <==> uuid_value_of(text@) is Some,
        r matches Some(v) ==> uuid_value_of(text@) == Some(v as int),
{
    match uuid::Uuid::parse_str(text) {
        Ok(u) => Some(u.as_u128()),
        Err(_) => None,
    }
}

/// Relies on uuid::Uuid::new_v4: a freshly generated random identifier.
/// Nothing is promised of the value.
#[verifier::external_body]
pub(crate) fn fresh_id() -> u128 {
    uuid::Uuid::new_v4().as_u128()
}

} // verus!

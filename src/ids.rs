//! Task identifiers are UUIDs, held by the library as their 128-bit value.
use vstd::prelude::*;

verus! {

/// The identifier that `uuid` reads from a text, if it reads one.
pub uninterp spec fn uuid_of_text(s: Seq<char>) -> Option<u128>;

/// The hyphenated lower-case text that `uuid` writes for an identifier.
pub uninterp spec fn uuid_text(id: u128) -> Seq<char>;

/// Relies on uuid::Uuid::new_v4: a random version-4 UUID, taken as its
/// 128-bit value. Nothing is promised of the value.
#[verifier::external_body]
pub(crate) fn fresh_id() -> (r: u128) {
    uuid::Uuid::new_v4().as_u128()
}

/// Relies on uuid::Uuid::parse_str: whether a text is a UUID, and which,
/// depends on the text alone; an empty text has the wrong length and is
/// refused.
#[verifier::external_body]
pub(crate) fn parse_id(s: &str) -> (r: Option<u128>)
    ensures
        r == uuid_of_text(s@),
        s@.len() == 0 ==> r is None,
{
    match uuid::Uuid::parse_str(s) {
        Ok(u) => Some(u.as_u128()),
        Err(_) => None,
    }
}

/// Relies on uuid::Uuid's `Display`: the hyphenated form, 36 characters.
#[verifier::external_body]
pub(crate) fn id_text(id: u128) -> (r: String)
    ensures
        r@ == uuid_text(id),
        r@.len() == 36,
{
    uuid::Uuid::from_u128(id).to_string()
}

} // verus!

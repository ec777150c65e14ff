//! Account identifiers: canonical UUID text.

use vstd::prelude::*;

verus! {

/// What `uuid::Uuid::parse_str` followed by `to_string` gives: the canonical hyphenated
/// lower-case text of a UUID, or `None` when the text is not one.
pub uninterp spec fn uuid_text(s: Seq<char>) -> Option<Seq<char>>;

/// Relies on `uuid::Uuid::parse_str` and the hyphenated `Display` of `Uuid`.
#[verifier::external_body]
pub(crate) fn canonical_uuid(s: &str) -> (r: Option<String>)
    ensures
        r is None <==> uuid_text(s@) is None,
        r matches Some(t) ==> uuid_text(s@) == Some(t@),
{
    uuid::Uuid::parse_str(s).ok().map(|u| u.to_string())
}

/// Relies on `uuid::Uuid::new_v4` and its hyphenated text form: a fresh random identifier.
#[verifier::external_body]
pub(crate) fn fresh_uuid_text() -> (r: String) {
    uuid::Uuid::new_v4().to_string()
}

} // verus!

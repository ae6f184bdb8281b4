use vstd::prelude::*;

verus! {

/// Relies on uuid::Uuid::new_v4 and its `Display`, which writes the
/// hyphenated form: a fresh random identifier of 36 characters.
#[verifier::external_body]
pub(crate) fn fresh_id() -> (r: String)
    ensures
        r@.len() == 36,
{
    uuid::Uuid::new_v4().to_string()
}

/// Relies on chrono::Utc::now and DateTime::to_rfc3339: the current time in
/// UTC, written in RFC 3339 form. It depends on the clock, so nothing more is
/// stated of it.
#[verifier::external_body]
pub(crate) fn now_rfc3339() -> (r: String) {
    chrono::Utc::now().to_rfc3339()
}

} // verus!

//! Declarations of the outside types that values of this library carry,
//! and the readings of the clock and of chance that the library makes.
use vstd::prelude::*;

verus! {

/// A JSON document, carried through unchanged.
#[verifier::external_type_specification]
#[verifier::external_body]
pub struct ExJsonValue(serde_json::Value);

/// A calendar date, carried through unchanged.
#[verifier::external_type_specification]
#[verifier::external_body]
pub struct ExNaiveDate(chrono::NaiveDate);

/// A UUID, carried through unchanged.
#[verifier::external_type_specification]
#[verifier::external_body]
pub struct ExUuid(uuid::Uuid);

/// `uuid::Uuid` derives `Clone` and `Copy`: a clone is the same value.
pub assume_specification[ <uuid::Uuid as Clone>::clone ](u: &uuid::Uuid) -> (r: uuid::Uuid)
    ensures
        r == *u,
;

/// A fresh random (version 4) UUID, from `uuid::Uuid::new_v4`. It is random,
/// so nothing is stated of it.
#[verifier::external_body]
pub(crate) fn new_uuid_v4() -> uuid::Uuid {
    uuid::Uuid::new_v4()
}

/// The text form of a fresh random (version 4) UUID, from `uuid::Uuid::new_v4`
/// and its `to_string`. It is random; what holds of every outcome is its
/// length: the hyphenated form has 36 characters.
#[verifier::external_body]
pub(crate) fn new_uuid_v4_text() -> (r: String)
    ensures
        r@.len() == 36,
{
    uuid::Uuid::new_v4().to_string()
}

/// The current UTC time as RFC 3339 text, from `chrono::Utc::now` and
/// `DateTime::to_rfc3339`. It depends on the clock, so nothing is stated of it.
#[verifier::external_body]
pub(crate) fn now_rfc3339() -> String {
    chrono::Utc::now().to_rfc3339()
}

} // verus!

//! Items of other crates, as far as the library uses them. Nothing here is
//! proved: each contract is taken on trust from the crate it speaks of.

use vstd::prelude::*;

verus! {

/// `uuid::Uuid`, the identifier of a record. Carried through unread.
#[verifier::external_type_specification]
#[verifier::external_body]
pub struct ExUuid(uuid::Uuid);

/// `time::Date`, a calendar date. Carried through unread.
#[verifier::external_type_specification]
#[verifier::external_body]
pub struct ExDate(time::Date);

/// `serde_json::Error`, what a failed JSON decoding reports. Carried through unread.
#[verifier::external_type_specification]
#[verifier::external_body]
pub struct ExJsonError(serde_json::Error);

/// Calls `uuid::Uuid::now_v7`, which builds a version 7 identifier from the
/// system clock and random bits. The outcome differs from call to call, so
/// nothing is claimed of it.
#[verifier::external_body]
pub(crate) fn fresh_id() -> (id: uuid::Uuid) {
    uuid::Uuid::now_v7()
}

} // verus!

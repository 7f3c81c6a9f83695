//! Record and user ids: UUIDs held as 128-bit numbers.
use vstd::prelude::*;

use crate::error::CpassError;

verus! {

/// The UUID that a text names, in any form that the uuid crate reads
/// (simple, hyphenated, braced or URN); `None` for other text.
pub uninterp spec fn uuid_parse(s: Seq<char>) -> Option<u128>;

/// The hyphenated lower-case text of a UUID.
pub uninterp spec fn uuid_text(id: u128) -> Seq<char>;

/// Relies on uuid::Uuid::parse_str and Uuid::as_u128: the UUID that the
/// text names, as a number, or `None`.
#[verifier::external_body]
fn uuid_from_str(s: &str) -> (r: Option<u128>)
    ensures
        r == uuid_parse(s@),
{
    uuid::Uuid::parse_str(s).ok().map(|u| u.as_u128())
}

/// Relies on uuid::Uuid::from_u128 and its Display: 36 characters in
/// hyphenated form, which Uuid::parse_str reads back.
#[verifier::external_body]
fn uuid_to_string(id: u128) -> (r: String)
    ensures
        r@ == uuid_text(id),
        r@.len() == 36,
        uuid_parse(r@) == Some(id),
{
    uuid::Uuid::from_u128(id).to_string()
}

/// The id that a path or field names; other text is an invalid request.
pub fn parse_record_id(s: &str) -> (r: Result<u128, CpassError>)
    ensures
        match uuid_parse(s@) {
            Some(id) => r == Ok::<u128, CpassError>(id),
            None => r matches Err(CpassError::InvalidRequest(_)),
        },
{
    match uuid_from_str(s) {
        Some(id) => Ok(id),
        None => Err(CpassError::InvalidRequest("can not parse the id as a UUID".to_string())),
    }
}

/// The text of an id; it parses back to the same id.
pub fn record_id_text(id: u128) -> (r: String)
    ensures
        r@ == uuid_text(id),
        uuid_parse(r@) == Some(id),
{
    uuid_to_string(id)
}

} // verus!

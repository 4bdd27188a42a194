//! Meal ids. An id is a UUID, held as its 128-bit number; the `uuid` crate
//! mints ids and turns them from and into text.

use vstd::prelude::*;

verus! {

/// What `uuid::Uuid::parse_str` makes of a text: the number of the UUID that
/// it reads, or nothing where the text is not a UUID.
pub uninterp spec fn uuid_parse(text: Seq<char>) -> Option<u128>;

/// The text that `uuid` writes for an id: lower-case hexadecimal digits in
/// hyphenated groups.
pub uninterp spec fn uuid_text(id: u128) -> Seq<char>;

/// An id carries the marks of a random UUID: version 4 and the RFC 4122 variant.
pub open spec fn is_random_uuid(id: u128) -> bool {
    (id >> 76u128) & 0xfu128 == 4u128 && (id >> 62u128) & 0x3u128 == 2u128
}

/// A random id is never the nil id.
pub proof fn random_uuid_is_not_nil(id: u128)
    requires
        is_random_uuid(id),
    ensures
        id != 0,
{
    assert((id >> 76u128) & 0xfu128 == 4u128 ==> id != 0u128) by (bit_vector);
}

/// Mints an id with `uuid::Uuid::new_v4`, which draws sixteen random bytes
/// from the operating system and stamps version and variant on them. Nothing
/// else is known of the outcome: two calls may even return the same id.
/// `new_v4` panics when the operating system cannot supply random bytes.
#[verifier::external_body]
pub(crate) fn fresh_id() -> (id: u128)
    ensures
        is_random_uuid(id),
{
    uuid::Uuid::new_v4().as_u128()
}

/// Reads an id with `uuid::Uuid::parse_str`. The contract names the result;
/// it does not say which texts are UUIDs.
#[verifier::external_body]
pub(crate) fn parse_id(text: &str) -> (id: Option<u128>)
    ensures
        id == uuid_parse(text@),
{
    match uuid::Uuid::parse_str(text) {
        Ok(uuid) => Some(uuid.as_u128()),
        Err(_) => None,
    }
}

/// Writes an id as `uuid` displays it. The contract names the text and claims
/// one thing of it: `parse_str` reads every format that the crate writes, so
/// the text reads back as the same id.
#[verifier::external_body]
pub(crate) fn id_text(id: u128) -> (text: String)
    ensures
        text@ == uuid_text(id),
        uuid_parse(text@) == Some(id),
{
    uuid::Uuid::from_u128(id).to_hyphenated().to_string()
}

} // verus!

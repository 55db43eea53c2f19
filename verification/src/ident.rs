//! Session identifiers, made and rendered by `uuid`.

use vstd::prelude::*;

verus! {

/// `uuid::Uuid`, opaque to the verifier.
#[verifier::external_type_specification]
#[verifier::external_body]
pub struct ExUuid(uuid::Uuid);

/// `uuid::Error`, opaque to the verifier.
#[verifier::external_type_specification]
#[verifier::external_body]
pub struct ExUuidError(uuid::Error);

/// The 128 bits that a `Uuid` holds, read as one big-endian number.
pub uninterp spec fn uuid_bits(id: uuid::Uuid) -> u128;

/// The text that `Uuid`'s `Display` gives for an identifier with these bits.
pub uninterp spec fn uuid_text(bits: u128) -> Seq<char>;

/// The bits of the identifier that `Uuid::parse_str` reads from a text, or
/// `None` where it rejects the text.
pub uninterp spec fn uuid_parse(text: Seq<char>) -> Option<u128>;

/// Calls `Uuid::new_v4`. The identifier is random: nothing is promised of it.
/// The call gives up where the system cannot supply random bytes.
#[verifier::external_body]
pub(crate) fn fresh() -> uuid::Uuid {
    uuid::Uuid::new_v4()
}

/// Calls `Uuid::as_u128`.
#[verifier::external_body]
pub(crate) fn bits(id: &uuid::Uuid) -> (r: u128)
    ensures
        r == uuid_bits(*id),
{
    id.as_u128()
}

/// Calls `Uuid::from_u128`, the inverse of `Uuid::as_u128`.
#[verifier::external_body]
pub(crate) fn from_bits(bits: u128) -> (r: uuid::Uuid)
    ensures
        uuid_bits(r) == bits,
{
    uuid::Uuid::from_u128(bits)
}

/// Calls `Uuid::to_string`, which renders through `Display`. The text depends
/// on the identifier's bits alone.
#[verifier::external_body]
pub(crate) fn text(id: &uuid::Uuid) -> (r: String)
    ensures
        r@ == uuid_text(uuid_bits(*id)),
{
    id.to_string()
}

/// Calls `Uuid::parse_str`. The outcome depends on the text alone.
#[verifier::external_body]
pub(crate) fn parse(text: &str) -> (r: Result<uuid::Uuid, uuid::Error>)
    ensures
        match r {
            Ok(id) => uuid_parse(text@) == Some(uuid_bits(id)),
            Err(_) => uuid_parse(text@).is_none(),
        },
{
    uuid::Uuid::parse_str(text)
}

} // verus!

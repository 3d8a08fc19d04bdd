use vstd::prelude::*;

verus! {

/// The identifier that `uuid::Uuid::parse_str` reads from a text, if it reads one.
pub uninterp spec fn uuid_parse(text: Seq<char>) -> Option<u128>;

/// Holds of the 128-bit value of every random (version 4) UUID: the version
/// field is 4 and the variant field is binary 10.
pub open spec fn is_random_id(id: u128) -> bool {
    (id >> 76) & 0xf == 4 && (id >> 62) & 0x3 == 2
}

/// Calls `uuid::Uuid::new_v4` and takes the result as a `u128` with
/// `Uuid::as_u128`. The value is random; the contract claims only the two
/// fixed fields that `new_v4` sets in every UUID it makes. The call panics
/// if the system's source of randomness fails.
#[verifier::external_body]
pub(crate) fn fresh_id() -> (id: u128)
    ensures
        is_random_id(id),
{
    uuid::Uuid::new_v4().as_u128()
}

/// Calls `uuid::Uuid::parse_str` on the text and takes a parsed UUID as a
/// `u128` with `Uuid::as_u128`. The contract names the result and claims
/// nothing else of it.
#[verifier::external_body]
pub(crate) fn parse_uuid(text: &str) -> (id: Option<u128>)
    ensures
        id == uuid_parse(text@),
{
    match uuid::Uuid::parse_str(text) {
        Ok(parsed) => Some(parsed.as_u128()),
        Err(_) => None,
    }
}

} // verus!

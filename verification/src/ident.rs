use vstd::prelude::*;

verus! {

/// The text that `uuid` writes for the identifier with these 128 bits: the
/// hyphenated lower-case form.
pub uninterp spec fn uuid_text(id: u128) -> Seq<char>;

/// The identifier that `uuid` reads from a text, if it reads one.
pub uninterp spec fn uuid_parse(text: Seq<char>) -> Option<u128>;

/// The bits that every random identifier has in common: version 4 in the
/// thirteenth hex digit, the RFC variant in the top two bits of the seventeenth.
pub open spec fn is_random_id(id: u128) -> bool {
    id & 0x0000_0000_0000_F000_C000_0000_0000_0000u128
        == 0x0000_0000_0000_4000_8000_0000_0000_0000u128
}

/// Calls `uuid::Uuid::new_v4` and hands back its 128 bits. The bits are random but
/// for the version and the variant, which the crate sets on every identifier it
/// makes; only that is claimed. The call panics on a machine that has no source of
/// random bytes, which no precondition can keep out.
#[verifier::external_body]
pub(crate) fn fresh_id() -> (id: u128)
    ensures
        is_random_id(id),
{
    uuid::Uuid::new_v4().as_u128()
}

/// Writes an identifier with `uuid::Uuid`'s `Display`. The result is named, and the
/// crate's promise that `parse_str` reads every form it writes is stated of it.
#[verifier::external_body]
pub(crate) fn id_text(id: u128) -> (text: String)
    ensures
        text@ == uuid_text(id),
        uuid_parse(text@) == Some(id),
{
    uuid::Uuid::from_u128(id).to_string()
}

/// Calls `uuid::Uuid::parse_str`; `None` where it reports an error.
#[verifier::external_body]
pub(crate) fn parse_id(text: &str) -> (id: Option<u128>)
    ensures
        id == uuid_parse(text@),
{
    uuid::Uuid::parse_str(text).ok().map(|id| id.as_u128())
}

} // verus!

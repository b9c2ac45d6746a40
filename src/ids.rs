use vstd::prelude::*;

verus! {

/// The identifier that `uuid::Uuid::parse_str` reads from a text, as an integer.
pub uninterp spec fn parsed_id(s: Seq<char>) -> Option<u128>;

/// Relies on `uuid::Uuid::from_str` (which is `Uuid::parse_str`) and
/// `Uuid::as_u128`: the result depends on the text alone, and only texts of
/// 32, 36, 38 or 45 ASCII characters are ever accepted.
#[verifier::external_body]
pub(crate) fn parse_id(s: &str) -> (r: Option<u128>)
    ensures
        r == parsed_id(s@),
        r is Some ==> (s@.len() == 32 || s@.len() == 36 || s@.len() == 38 || s@.len() == 45),
{
    <uuid::Uuid as std::str::FromStr>::from_str(s).ok().map(|u| u.as_u128())
}

/// Relies on `uuid::Uuid::new_v4` and `Uuid::as_u128`: a random identifier
/// whose version field is 4 and whose variant is the RFC one.
#[verifier::external_body]
pub(crate) fn new_id() -> (r: u128)
    ensures
        r & 0xF000_C000_0000_0000_0000u128 == 0x4000_8000_0000_0000_0000u128,
{
    uuid::Uuid::new_v4().as_u128()
}

} // verus!

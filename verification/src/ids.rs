use vstd::prelude::*;

verus! {

/// The 128-bit value of the UUID that `s` spells, or `None` where `s` spells none,
/// as the `uuid` crate parses it.
pub uninterp spec fn uuid_value(s: Seq<char>) -> Option<u128>;

/// Parses `s` with `Uuid::from_str` (the `uuid` crate, re-exported by sqlx) and
/// gives the UUID's 128-bit value. Trusted: the result is `uuid_value(s@)`, the
/// same for the same text; which texts parse, and to what, is not stated here.
#[verifier::external_body]
fn uuid_from_str(s: &str) -> (r: Option<u128>)
    ensures
        r == uuid_value(s@),
{
    match <sqlx::types::Uuid as std::str::FromStr>::from_str(s) {
        Ok(u) => Some(u.as_u128()),
        Err(_) => None,
    }
}

/// The 128-bit value of the UUID that `s` spells, if it spells one.
pub fn parse_uuid(s: &str) -> (r: Option<u128>)
    ensures
        r == uuid_value(s@),
{
    uuid_from_str(s)
}

} // verus!

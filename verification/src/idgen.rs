//! Server-side generation of API keys and flight-plan identifiers: a
//! uniform-random 128-bit value rendered as a compact hexadecimal string.

use vstd::prelude::*;

verus! {

/// A lowercase hexadecimal digit.
pub open spec fn is_lower_hex_digit(c: char) -> bool {
    ('0' <= c && c <= '9') || ('a' <= c && c <= 'f')
}

/// Every character of `s` is a lowercase hexadecimal digit.
pub open spec fn is_lower_hex_string(s: Seq<char>) -> bool {
    forall|i: int| 0 <= i < s.len() ==> is_lower_hex_digit(#[trigger] s[i])
}

/// Relies on `uuid::Uuid::new_v4` and uuid's `Simple` formatter: a freshly
/// drawn random 128-bit value rendered as exactly 32 lowercase hexadecimal
/// characters. The draw is random, so nothing relates one call's result to
/// another's; every outcome has this shape.
#[verifier::external_body]
pub(crate) fn fresh_hex_id() -> (r: String)
    ensures
        r@.len() == 32,
        is_lower_hex_string(r@),
{
    uuid::Uuid::new_v4().as_simple().to_string()
}

} // verus!

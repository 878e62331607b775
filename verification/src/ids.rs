//! Fresh identifiers, drawn from the clock and the random source of the
//! machine.
use vstd::prelude::*;

verus! {

/// Wraps `uuid::Uuid::now_v7` and `uuid::Uuid::as_u128`: the 128 bits of a
/// new time-ordered identifier. Nothing is known of the value: it depends on
/// the clock and on chance. `now_v7` reads the time since 1970 and panics on
/// a machine whose clock stands before that year.
#[verifier::external_body]
pub(crate) fn fresh_bits() -> u128 {
    uuid::Uuid::now_v7().as_u128()
}

/// The low 64 bits of `bits`, read as a signed number in two's complement.
pub open spec fn low_bits(bits: u128) -> i64 {
    bits as i64
}

/// The number under which a request is sent, cut from the bits of a fresh
/// identifier.
pub fn request_number(bits: u128) -> (n: i64)
    ensures
        n == low_bits(bits),
{
    #[verifier::truncate]
    (bits as i64)
}

/// A fresh identifier for a record.
pub fn fresh_id() -> u128 {
    fresh_bits()
}

} // verus!

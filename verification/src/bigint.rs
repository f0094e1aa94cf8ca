//! Arbitrary-precision integers, made by the `num-bigint` crate.
//!
//! The contracts in this file are believed, not proved: they say what the
//! outside functions return.

use crate::word::U256;
use num_bigint::BigInt;
use num_bigint::Sign;
use vstd::prelude::*;

verus! {

/// `num_bigint::BigInt`, carried through as an opaque value.
#[verifier::external_type_specification]
#[verifier::external_body]
pub struct ExBigInt(num_bigint::BigInt);

/// The non-negative big integer that `BigInt::from_bytes_be` makes of a byte
/// string with the sign `Sign::Plus`: the bytes read as one big-endian number.
pub uninterp spec fn bigint_from_be_bytes(bytes: Seq<u8>) -> BigInt;

/// The big integer that `BigInt::from` makes of a `u128`: the same number.
pub uninterp spec fn bigint_from_u128(value: u128) -> BigInt;

/// Calls `num_bigint::BigInt::from_bytes_be` with `Sign::Plus` on the 32 bytes
/// of `value`. The result depends on those bytes alone; it is the big integer
/// with the same value as the 256-bit word.
#[verifier::external_body]
pub(crate) fn u256_to_bigint256(value: &U256) -> (r: BigInt)
    ensures
        r == bigint_from_be_bytes(value.bytes@),
{
    BigInt::from_bytes_be(Sign::Plus, &value.bytes)
}

/// Calls `<num_bigint::BigInt as From<u128>>::from`. The result depends on
/// `value` alone; it is the big integer with that value.
#[verifier::external_body]
pub(crate) fn u128_to_bigint(value: u128) -> (r: BigInt)
    ensures
        r == bigint_from_u128(value),
{
    BigInt::from(value)
}

} // verus!

//! Trusted boundary to the arbitrary-precision decimal type of the
//! `bigdecimal` crate. The conversion engine carries decimals opaquely: it
//! never inspects one, it only creates them from 128-bit integers and moves
//! them around.
use vstd::prelude::*;
use bigdecimal::BigDecimal;

verus! {

#[verifier::external_type_specification]
#[verifier::external_body]
pub struct ExBigDecimal(BigDecimal);

/// The decimal that represents a signed 128-bit integer exactly.
pub uninterp spec fn decimal_of_i128(n: i128) -> BigDecimal;

/// The decimal that represents an unsigned 128-bit integer exactly.
pub uninterp spec fn decimal_of_u128(n: u128) -> BigDecimal;

/// Relies on the derived `Clone` of `BigDecimal`, which copies the digits
/// and the scale and so preserves the number.
pub assume_specification[ <BigDecimal as Clone>::clone ](d: &BigDecimal) -> (r: BigDecimal)
    ensures
        r == *d,
;

/// Relies on `FromPrimitive::from_i128` for `BigDecimal`, whose body is
/// `Some(BigDecimal::from(n))`: the result depends on the argument alone and
/// is present for every 128-bit input.
#[verifier::external_body]
pub(crate) fn decimal_from_i128(n: i128) -> (r: Option<BigDecimal>)
    ensures
        r == Some(decimal_of_i128(n)),
{
    <BigDecimal as bigdecimal::FromPrimitive>::from_i128(n)
}

/// Relies on `FromPrimitive::from_u128` for `BigDecimal`, whose body is
/// `Some(BigDecimal::from(n))`: the result depends on the argument alone and
/// is present for every 128-bit input.
#[verifier::external_body]
pub(crate) fn decimal_from_u128(n: u128) -> (r: Option<BigDecimal>)
    ensures
        r == Some(decimal_of_u128(n)),
{
    <BigDecimal as bigdecimal::FromPrimitive>::from_u128(n)
}

} // verus!

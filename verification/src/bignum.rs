//! The boundary to `num_bigint`: radix conversion of integers of any size.
//! Nothing in this file is proved; the contracts state what `num_bigint` does.

use crate::numeral::{is_numeral, numeral_text, numeral_value};
use num_bigint::BigInt;
use num_traits::Num;
use vstd::prelude::*;

verus! {

/// Declares `num_bigint::BigInt`. Of a value only `bigint_value` speaks.
#[verifier::external_type_specification]
#[verifier::external_body]
pub struct ExBigInt(num_bigint::BigInt);

/// The integer that a `BigInt` holds.
pub uninterp spec fn bigint_value(n: BigInt) -> int;

/// Calls `<BigInt as Num>::from_str_radix`. It panics on a radix outside
/// `2..=36`. A text made only of digits below the radix, and not empty, is
/// accepted, and the result holds the number that the digits denote. Of other
/// texts (signed ones, ones with `_` between digits, malformed ones) nothing is
/// claimed but that `None` stands for the crate's error.
#[verifier::external_body]
pub(crate) fn parse_radix(text: &str, radix: u32) -> (parsed: Option<BigInt>)
    requires
        2 <= radix <= 36,
    ensures
        is_numeral(text@, radix as int) ==> parsed.is_some() && bigint_value(parsed.unwrap())
            == numeral_value(text@, radix as int),
{
    BigInt::from_str_radix(text, radix).ok()
}

/// Calls `BigInt::to_str_radix`. It panics on a radix outside `2..=36`. For a
/// number that is not negative the result is its canonical text: lower-case
/// digits, no leading zero, `"0"` for zero.
#[verifier::external_body]
pub(crate) fn format_radix(n: &BigInt, radix: u32) -> (text: String)
    requires
        2 <= radix <= 36,
    ensures
        bigint_value(*n) >= 0 ==> text@ == numeral_text(bigint_value(*n) as nat, radix as int),
{
    n.to_str_radix(radix)
}

} // verus!

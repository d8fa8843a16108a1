//! Fixed-point ratios, 256-bit words and saturating conversions, taken from
//! `sp_arithmetic` and `primitive_types` and described over plain integers.
use primitive_types::U256;
use sp_arithmetic::traits::SaturatedConversion;
use sp_arithmetic::Perbill;
use vstd::prelude::*;

verus! {

/// One part in a billion: the accuracy of a `Perbill`.
pub const PERBILL_ACCURACY: u32 = 1_000_000_000;

/// The parts of `Perbill::from_percent(percent)`: the percent is capped at 100
/// and scaled to billionths.
pub open spec fn perbill_parts_from_percent(percent: int) -> int {
    (if percent > 100 { 100 } else { percent }) * 10_000_000
}

/// `Perbill::from_parts(parts) * n`: the exact product `n * parts / 10^9`
/// rounded to the nearest integer, an exact half rounded down; parts above
/// 10^9 count as 10^9.
pub open spec fn perbill_mul(parts: int, n: int) -> int {
    let p = if parts > PERBILL_ACCURACY { PERBILL_ACCURACY as int } else { parts };
    let prod = n * p;
    prod / (PERBILL_ACCURACY as int) + (if prod % (PERBILL_ACCURACY as int) > 500_000_000 {
        1int
    } else {
        0int
    })
}

/// `x` capped at `u64::MAX`.
pub open spec fn u64_cap(x: int) -> int {
    if x > u64::MAX { u64::MAX as int } else { x }
}

/// Calls `sp_arithmetic::Perbill::from_percent` and hands back the parts
/// (`deconstruct`). Claimed, from the crate's source: the percent is capped at
/// 100 and multiplied by 10^9 / 100.
#[verifier::external_body]
pub(crate) fn perbill_from_percent(percent: u32) -> (parts: u32)
    ensures
        parts == perbill_parts_from_percent(percent as int),
{
    Perbill::from_percent(percent).deconstruct()
}

/// Calls `<sp_arithmetic::Perbill as Mul<u64>>::mul` on `Perbill::from_parts(parts)`.
/// Claimed, from the crate's source (`overflow_prune_mul` with
/// `Rounding::NearestPrefDown`): the product rounded to nearest, ties down.
#[verifier::external_body]
pub(crate) fn perbill_mul_u64(parts: u32, n: u64) -> (r: u64)
    ensures
        r == perbill_mul(parts as int, n as int),
{
    Perbill::from_parts(parts) * n
}

/// Calls `sp_arithmetic::traits::SaturatedConversion::saturated_into::<u64>` on a
/// `u128`. Claimed: the value itself where it fits a `u64`, else `u64::MAX`.
#[verifier::external_body]
pub(crate) fn saturated_into_u64(x: u128) -> (r: u64)
    ensures
        r == u64_cap(x as int),
{
    x.saturated_into::<u64>()
}

/// 2^64, the weight of the second word of a 256-bit integer.
pub open spec fn word1() -> int {
    18446744073709551616int
}

/// 2^128.
pub open spec fn word2() -> int {
    340282366920938463463374607431768211456int
}

/// 2^192.
pub open spec fn word3() -> int {
    6277101735386680763835789423207666416102355444464034512896int
}

/// A 256-bit unsigned integer held as the four little-endian 64-bit words of a
/// `primitive_types::U256`.
pub struct U256Words {
    pub words: [u64; 4],
}

impl U256Words {
    /// The number the words stand for.
    pub open spec fn value(self) -> int {
        self.words@[0] as int + self.words@[1] as int * word1() + self.words@[2] as int * word2()
            + self.words@[3] as int * word3()
    }
}

/// Calls `<primitive_types::U256 as From<u128>>::from` and hands back its words.
/// Claimed, from the `uint` crate's source: the low 64 bits go to word 0, the
/// high 64 bits to word 1, and the other words are zero.
#[verifier::external_body]
fn u256_from_u128(x: u128) -> (r: U256Words)
    ensures
        r.words@[0] == x as int % word1(),
        r.words@[1] == x as int / word1(),
        r.words@[2] == 0,
        r.words@[3] == 0,
{
    U256Words { words: U256::from(x).0 }
}

/// The 256-bit integer that holds `x`.
pub fn u256_of(x: u128) -> (r: U256Words)
    ensures
        r.value() == x as int,
        r.words@[0] == x as int % word1(),
        r.words@[1] == x as int / word1(),
        r.words@[2] == 0,
        r.words@[3] == 0,
{
    let r = u256_from_u128(x);
    assert(x as int == (x as int / word1()) * word1() + x as int % word1()) by (nonlinear_arith);
    r
}

} // verus!

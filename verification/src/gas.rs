//! Block weight limits and the mapping between EVM gas and weight.
use crate::currency::{GIGAWEI, SUPPLY_FACTOR};
use crate::numeric::{perbill_from_percent, perbill_mul, perbill_mul_u64, perbill_parts_from_percent, u256_of, U256Words};
use vstd::prelude::*;

verus! {

/// Execution weight; one second of compute is `WEIGHT_PER_SECOND`.
pub type Weight = u64;

/// The number of blocks since genesis.
pub type BlockNumber = u32;

/// The weight of one second of compute (the value of FRAME's constant).
pub const WEIGHT_PER_SECOND: Weight = 1_000_000_000_000;

/// Maximum weight per block.
pub const MAXIMUM_BLOCK_WEIGHT: Weight = WEIGHT_PER_SECOND / 2;

/// The share of a block, in percent, that normal dispatches may fill.
pub const NORMAL_DISPATCH_PERCENT: u32 = 75;

/// The weight reserved for XCMP messages in each block.
pub const RESERVED_XCMP_WEIGHT: Weight = MAXIMUM_BLOCK_WEIGHT / 4;

pub const MILLISECS_PER_BLOCK: u64 = 12000;
pub const MINUTES: BlockNumber = 60_000 / (MILLISECS_PER_BLOCK as BlockNumber);
pub const HOURS: BlockNumber = MINUTES * 60;
pub const DAYS: BlockNumber = HOURS * 24;
pub const WEEKS: BlockNumber = DAYS * 7;

/// Current approximation of the gas/s consumption considering EVM execution
/// over compiled WASM (on a 4.4Ghz CPU).
pub const GAS_PER_SECOND: u64 = 40_000_000;

/// Approximate ratio of the amount of weight per gas.
pub const WEIGHT_PER_GAS: u64 = WEIGHT_PER_SECOND / GAS_PER_SECOND;

/// `gas * WEIGHT_PER_GAS`, saturated at `u64::MAX`.
pub open spec fn gas_weight(gas: int) -> int {
    if gas * WEIGHT_PER_GAS > u64::MAX { u64::MAX as int } else { gas * WEIGHT_PER_GAS }
}

/// The parts per billion of `NORMAL_DISPATCH_RATIO`.
pub fn normal_dispatch_ratio() -> (parts: u32)
    ensures
        parts == perbill_parts_from_percent(NORMAL_DISPATCH_PERCENT as int),
        parts == 750_000_000,
{
    perbill_from_percent(NORMAL_DISPATCH_PERCENT)
}

/// The mapping between EVM gas and weight.
pub struct MoonbeamGasWeightMapping;

impl MoonbeamGasWeightMapping {
    /// The weight that `gas` costs, saturating at the largest weight.
    pub fn gas_to_weight(gas: u64) -> (w: Weight)
        ensures
            w == gas_weight(gas as int),
    {
        match gas.checked_mul(WEIGHT_PER_GAS) {
            Some(w) => w,
            None => u64::MAX,
        }
    }

    /// The gas that `weight` pays for, rounded down.
    pub fn weight_to_gas(weight: Weight) -> (g: u64)
        ensures
            g == weight / WEIGHT_PER_GAS,
    {
        weight / WEIGHT_PER_GAS
    }
}

/// The gas price the EVM charges at least.
pub struct FixedGasPrice;

impl FixedGasPrice {
    /// One gigawei per unit of gas, as a 256-bit integer.
    pub fn min_gas_price() -> (p: U256Words)
        ensures
            p.value() == 1 * GIGAWEI * SUPPLY_FACTOR,
    {
        u256_of(1 * GIGAWEI * SUPPLY_FACTOR)
    }
}

/// The gas limit of a block: the normal dispatch share of the maximum block
/// weight, converted to gas.
pub struct BlockGasLimit;

impl BlockGasLimit {
    /// The normal share of the block weight divided by the weight per gas.
    pub fn get() -> (g: U256Words)
        ensures
            g.value() == perbill_mul(perbill_parts_from_percent(NORMAL_DISPATCH_PERCENT as int),
                MAXIMUM_BLOCK_WEIGHT as int) / WEIGHT_PER_GAS as int,
            g.value() == 15_000_000,
    {
        let ratio = normal_dispatch_ratio();
        let normal_weight = perbill_mul_u64(ratio, MAXIMUM_BLOCK_WEIGHT);
        assert(normal_weight == 375_000_000_000) by {
            assert(500_000_000_000int * 750_000_000int == 375_000_000_000_000_000_000int);
        }
        u256_of((normal_weight / WEIGHT_PER_GAS) as u128)
    }
}

/// Converting gas to weight and back gives the gas again, wherever the weight
/// does not saturate.
pub proof fn lemma_gas_round_trip(gas: u64)
    requires
        gas as int * WEIGHT_PER_GAS <= u64::MAX,
    ensures
        gas_weight(gas as int) / WEIGHT_PER_GAS as int == gas,
{
    assert((gas as int * 25_000) / 25_000 == gas as int) by (nonlinear_arith);
}

/// Converting weight to gas and back loses less than the weight of one unit of
/// gas, and never adds weight.
pub proof fn lemma_weight_round_trip(weight: u64)
    ensures
        gas_weight(weight as int / WEIGHT_PER_GAS as int) <= weight,
        weight - gas_weight(weight as int / WEIGHT_PER_GAS as int) < WEIGHT_PER_GAS,
{
    let g = weight as int / 25_000;
    assert(g * 25_000 <= weight && weight < g * 25_000 + 25_000) by (nonlinear_arith)
        requires g == weight as int / 25_000, weight >= 0;
}

/// More gas never costs less weight, and more weight never pays for less gas.
pub proof fn lemma_mapping_monotone(a: u64, b: u64)
    requires
        a <= b,
    ensures
        gas_weight(a as int) <= gas_weight(b as int),
        a as int / WEIGHT_PER_GAS as int <= b as int / WEIGHT_PER_GAS as int,
{
    assert(a as int * 25_000 <= b as int * 25_000) by (nonlinear_arith)
        requires a <= b;
    assert(a as int / 25_000 <= b as int / 25_000) by (nonlinear_arith)
        requires a <= b, a >= 0;
}

/// One unit of gas weighs 25_000, and gas costs its count times that weight,
/// saturating at `u64::MAX`.
pub proof fn lemma_gas_weight_exactly(gas: u64)
    ensures
        WEIGHT_PER_GAS == 25_000,
        gas as int * 25_000 <= u64::MAX ==> gas_weight(gas as int) == gas as int * 25_000,
        gas as int * 25_000 > u64::MAX ==> gas_weight(gas as int) == u64::MAX,
{
}

} // verus!

//! The admission of transactions into the pool and their priority there.
//!
//! The runtime charges substrate transactions through the transaction payment
//! pallet, so their priority does not follow a gas price. The pool gives each
//! such transaction an Ethereum-style effective gas price as its priority: the
//! fee it pays divided by the gas its weight stands for.
use crate::call::{Call, EthereumCall};
use crate::currency::Balance;
use crate::gas::{MoonbeamGasWeightMapping, Weight, WEIGHT_PER_GAS};
use crate::maintenance::{base_call_filter, base_filter_allows};
use crate::numeric::{saturated_into_u64, u64_cap};
use vstd::prelude::*;

verus! {

/// The class of a dispatch.
#[derive(Clone, Copy, Debug, PartialEq, Eq, Structural)]
pub enum DispatchClass {
    Normal,
    Operational,
    Mandatory,
}

/// Why a transaction does not enter the pool.
#[derive(Clone, Copy, Debug, PartialEq, Eq, Structural)]
pub enum PoolRejection<E> {
    /// The base call filter does not let the call through.
    FilteredCall,
    /// The executive found the transaction invalid, for this reason.
    Executive(E),
}

/// The tip a transaction offers: what its signed extension names, none for an
/// unsigned transaction.
pub fn transaction_tip(signed_tip: Option<Balance>) -> (tip: Balance)
    ensures
        tip == match signed_tip {
            Some(t) => t,
            None => 0,
        },
{
    match signed_tip {
        None => 0,
        Some(t) => t,
    }
}

/// The effective gas price of a transaction that pays `fee` for `weight`: the
/// fee, saturated to a `u64`, divided by the gas the weight stands for; where
/// the weight stands for no gas, the fee itself.
pub open spec fn effective_gas_price_of(fee: int, weight: int) -> int {
    let f = u64_cap(fee);
    let gas = weight / WEIGHT_PER_GAS as int;
    if gas > 0 { f / gas } else { f }
}

/// Whether the pool replaces the priority the executive gave a transaction of
/// call `c` and class `class`: it keeps the priority of Ethereum transactions,
/// already set by their gas price, and of dispatches that are not normal.
pub open spec fn reprioritized(c: Call, class: DispatchClass) -> bool {
    !(c is Ethereum) && class == DispatchClass::Normal
}

/// The priority of a transaction in the pool.
pub open spec fn pool_priority_of(c: Call, class: DispatchClass, executive_priority: int, fee: int, weight: int) -> int {
    if reprioritized(c, class) { effective_gas_price_of(fee, weight) } else { executive_priority }
}

/// The Ethereum-style gas price of a transaction that pays `fee` for `weight`.
pub fn effective_gas_price(fee: Balance, weight: Weight) -> (price: u64)
    ensures
        price == effective_gas_price_of(fee as int, weight as int),
{
    let fee: u64 = saturated_into_u64(fee);
    let effective_gas = MoonbeamGasWeightMapping::weight_to_gas(weight);
    if effective_gas > 0 {
        fee / effective_gas
    } else {
        fee
    }
}

/// The priority of a transaction of call `c` and class `class` in the pool,
/// where the executive gave it `executive_priority`, and it pays `fee` for
/// `weight`.
pub fn pool_priority(c: &Call, class: DispatchClass, executive_priority: u64, fee: Balance, weight: Weight) -> (priority: u64)
    ensures
        priority == pool_priority_of(*c, class, executive_priority as int, fee as int, weight as int),
{
    match c {
        Call::Ethereum(EthereumCall::Transact) => executive_priority,
        _ => {
            if class != DispatchClass::Normal {
                executive_priority
            } else {
                effective_gas_price(fee, weight)
            }
        },
    }
}

/// The verdict of the pool on a transaction of call `c` and class `class`: the
/// base call filter (with maintenance mode as given) comes first; then the
/// executive's verdict, with its priority replaced as `pool_priority` says.
pub fn validate_transaction<E>(
    maintenance_mode: bool,
    c: &Call,
    class: DispatchClass,
    executive: Result<u64, E>,
    fee: Balance,
    weight: Weight,
) -> (verdict: Result<u64, PoolRejection<E>>)
    ensures
        !base_filter_allows(maintenance_mode, *c) ==> verdict == Err::<u64, PoolRejection<E>>(PoolRejection::FilteredCall),
        base_filter_allows(maintenance_mode, *c) ==> match executive {
            Err(e) => verdict == Err::<u64, PoolRejection<E>>(PoolRejection::Executive(e)),
            Ok(p) => verdict == Ok::<u64, PoolRejection<E>>(
                pool_priority_of(*c, class, p as int, fee as int, weight as int) as u64),
        },
{
    if !base_call_filter(maintenance_mode, c) {
        return Err(PoolRejection::FilteredCall);
    }
    match executive {
        Err(e) => Err(PoolRejection::Executive(e)),
        Ok(p) => Ok(pool_priority(c, class, p, fee, weight)),
    }
}

/// A transaction that pays more for the same weight never ranks lower.
pub proof fn lemma_priority_monotone_in_fee(fee1: Balance, fee2: Balance, weight: Weight)
    requires
        fee1 <= fee2,
    ensures
        effective_gas_price_of(fee1 as int, weight as int) <= effective_gas_price_of(fee2 as int, weight as int),
{
    let gas = weight as int / WEIGHT_PER_GAS as int;
    let f1 = u64_cap(fee1 as int);
    let f2 = u64_cap(fee2 as int);
    if gas > 0 {
        assert(f1 / gas <= f2 / gas) by (nonlinear_arith)
            requires f1 <= f2, gas > 0, f1 >= 0;
    }
}

/// A transaction that pays the same fee for more weight never ranks higher.
pub proof fn lemma_priority_antitone_in_weight(fee: Balance, w1: Weight, w2: Weight)
    requires
        w1 <= w2,
    ensures
        effective_gas_price_of(fee as int, w2 as int) <= effective_gas_price_of(fee as int, w1 as int),
{
    let f = u64_cap(fee as int);
    let g1 = w1 as int / WEIGHT_PER_GAS as int;
    let g2 = w2 as int / WEIGHT_PER_GAS as int;
    assert(g1 <= g2) by (nonlinear_arith)
        requires w1 <= w2, g1 == w1 as int / 25_000int, g2 == w2 as int / 25_000int;
    if g1 > 0 {
        assert(f / g2 <= f / g1) by (nonlinear_arith)
            requires 0 < g1 <= g2, f >= 0;
    } else if g2 > 0 {
        assert(f / g2 <= f) by (nonlinear_arith)
            requires g2 > 0, f >= 0;
    }
}

/// The effective gas price never exceeds the fee, and a weight worth less than
/// one unit of gas prices the transaction at its whole fee.
pub proof fn lemma_price_bounded_by_fee(fee: Balance, weight: Weight)
    ensures
        effective_gas_price_of(fee as int, weight as int) <= u64_cap(fee as int),
        weight < WEIGHT_PER_GAS ==> effective_gas_price_of(fee as int, weight as int) == u64_cap(fee as int),
{
    let f = u64_cap(fee as int);
    let gas = weight as int / WEIGHT_PER_GAS as int;
    if gas > 0 {
        assert(f / gas <= f) by (nonlinear_arith)
            requires gas > 0, f >= 0;
    }
}

/// The pool keeps the priority of every Ethereum transaction and of every
/// dispatch that is not normal.
pub proof fn lemma_ethereum_priority_kept(c: Call, class: DispatchClass, p: u64, fee: Balance, weight: Weight)
    requires
        c is Ethereum || class != DispatchClass::Normal,
    ensures
        pool_priority_of(c, class, p as int, fee as int, weight as int) == p,
{
}

/// Every call other than an Ethereum transaction, dispatched in the normal
/// class, has its priority replaced by its effective gas price, whatever the
/// executive gave it.
pub proof fn lemma_substrate_normal_reprioritized(c: Call, p: u64, fee: Balance, weight: Weight)
    requires
        !(c is Ethereum),
    ensures
        pool_priority_of(c, DispatchClass::Normal, p as int, fee as int, weight as int)
            == effective_gas_price_of(fee as int, weight as int),
{
}

/// The effective gas price is the fee, capped at `u64::MAX`, divided (rounding
/// down) by the gas its weight stands for, one gas per 25_000 weight; a weight
/// worth no gas prices the transaction at the capped fee.
pub proof fn lemma_effective_price_is_fee_per_gas(fee: Balance, weight: Weight)
    ensures
        ({
            let f = if fee > u64::MAX { u64::MAX as int } else { fee as int };
            let gas = weight as int / 25_000;
            let price = effective_gas_price_of(fee as int, weight as int);
            &&& weight >= 25_000 ==> gas >= 1 && price * gas <= f && f < (price + 1) * gas
            &&& weight < 25_000 ==> price == f
            &&& 0 <= price <= u64::MAX
        }),
{
    let f = if fee > u64::MAX { u64::MAX as int } else { fee as int };
    let gas = weight as int / 25_000;
    assert(weight >= 25_000 ==> gas >= 1) by (nonlinear_arith)
        requires gas == weight as int / 25_000;
    assert(weight < 25_000 ==> gas == 0) by (nonlinear_arith)
        requires gas == weight as int / 25_000, weight >= 0;
    if gas > 0 {
        let price = f / gas;
        assert(price * gas <= f && f < (price + 1) * gas && 0 <= price <= f) by (nonlinear_arith)
            requires price == f / gas, gas > 0, f >= 0;
    }
}

} // verus!

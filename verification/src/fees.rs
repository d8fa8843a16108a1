//! What becomes of the fees that transactions pay: 80% are burned, 20% go to
//! the treasury.
use crate::currency::Balance;
use vstd::prelude::*;

verus! {

/// `a * b` saturated at `u128::MAX`.
pub open spec fn saturating_mul_u128(a: int, b: int) -> int {
    if a * b > u128::MAX { u128::MAX as int } else { a * b }
}

/// The two parts into which an imbalance of `amount` is rationed in the
/// proportion `first : second`: the first part is `amount * first / (first +
/// second)`, rounded down (the product saturating at `u128::MAX`, the sum at
/// `u32::MAX`), the second part the rest. With both weights zero both parts
/// are empty.
pub open spec fn ration_parts(amount: int, first: int, second: int) -> (int, int) {
    let total = if first + second > u32::MAX { u32::MAX as int } else { first + second };
    if total == 0 {
        (0, 0)
    } else {
        let part = saturating_mul_u128(amount, first) / total;
        let part = if part < amount { part } else { amount };
        (part, amount - part)
    }
}

/// Rations an imbalance of `amount` in the proportion `first : second`.
pub fn ration(amount: Balance, first: u32, second: u32) -> (parts: (Balance, Balance))
    ensures
        parts.0 == ration_parts(amount as int, first as int, second as int).0,
        parts.1 == ration_parts(amount as int, first as int, second as int).1,
{
    let total: u32 = first.saturating_add(second);
    if total == 0 {
        return (0, 0);
    }
    let product: u128 = match amount.checked_mul(first as u128) {
        Some(p) => p,
        None => u128::MAX,
    };
    let part: u128 = product / (total as u128);
    let part: u128 = if part < amount { part } else { amount };
    (part, amount - part)
}

/// The parts of a fee: what is burned and what goes to the treasury.
#[derive(Clone, Copy, Debug, PartialEq, Eq, Structural)]
pub struct FeeSplit {
    pub burned: Balance,
    pub to_treasury: Balance,
}

/// The split of a fee of `amount`: rationed 80 : 20 between burning and the
/// treasury.
pub open spec fn fee_split(amount: int) -> (int, int) {
    ration_parts(amount, 80, 20)
}

/// The split of a fee of `amount`, as a `FeeSplit`.
pub open spec fn fee_split_of(amount: Balance) -> FeeSplit {
    FeeSplit {
        burned: fee_split(amount as int).0 as Balance,
        to_treasury: fee_split(amount as int).1 as Balance,
    }
}

/// What handling the imbalances `fees_then_tips` (the fee first, then the
/// tips) splits: nothing where there is none, else the split of the fee.
pub open spec fn unbalanceds_outcome(fees_then_tips: Seq<Balance>) -> Option<FeeSplit> {
    if fees_then_tips.len() == 0 {
        None
    } else {
        Some(fee_split_of(fees_then_tips[0]))
    }
}

/// Handles the fees of transactions.
pub struct DealWithFees;

impl DealWithFees {
    /// Splits a fee paid for an Ethereum transaction: 80% burned, 20% to the
    /// treasury.
    pub fn on_nonzero_unbalanced(amount: Balance) -> (s: FeeSplit)
        ensures
            s.burned == fee_split(amount as int).0,
            s.to_treasury == fee_split(amount as int).1,
    {
        let (burned, to_treasury) = ration(amount, 80, 20);
        FeeSplit { burned, to_treasury }
    }

    /// Handles the fee and the tip of a substrate transaction, in that order:
    /// the fee is split 80% burned, 20% to the treasury; the tips are burned
    /// whole. Nothing is split where there is no fee.
    pub fn on_unbalanceds(fees_then_tips: &[Balance]) -> (s: Option<FeeSplit>)
        ensures
            s == unbalanceds_outcome(fees_then_tips@),
    {
        if fees_then_tips.len() == 0 {
            None
        } else {
            Some(Self::on_nonzero_unbalanced(fees_then_tips[0]))
        }
    }
}

/// A split neither creates nor destroys funds: the burned part and the
/// treasury's part add up to the fee.
pub proof fn lemma_fee_split_conserves(amount: Balance)
    ensures
        fee_split(amount as int).0 + fee_split(amount as int).1 == amount,
        0 <= fee_split(amount as int).0 <= amount,
        0 <= fee_split(amount as int).1 <= amount,
{
    let prod = saturating_mul_u128(amount as int, 80);
    assert(prod >= 0) by (nonlinear_arith)
        requires prod == saturating_mul_u128(amount as int, 80), amount >= 0;
}

/// The treasury gets a fifth of the fee, rounded up, and the rest is burned,
/// for every fee that the 80 : 20 product does not overflow.
pub proof fn lemma_fee_split_proportion(amount: Balance)
    requires
        amount as int * 80 <= u128::MAX,
    ensures
        fee_split(amount as int).0 == amount as int * 4 / 5,
        fee_split(amount as int).1 * 5 >= amount,
        fee_split(amount as int).1 * 5 < amount + 5,
{
    let a = amount as int;
    assert(saturating_mul_u128(a, 80) == a * 80);
    assert((a * 80) / 100 == a * 4 / 5) by (nonlinear_arith)
        requires a >= 0;
    assert(a * 4 / 5 <= a) by (nonlinear_arith)
        requires a >= 0;
    let b = a * 4 / 5;
    assert(b * 5 <= a * 4 && a * 4 < b * 5 + 5) by (nonlinear_arith)
        requires b == a * 4 / 5, a >= 0;
}

/// Only the first imbalance handed over, the fee, reaches the treasury: the
/// tips that follow it change nothing of the split.
pub proof fn lemma_tips_never_reach_treasury(fee: Balance, tips: Seq<Balance>, other_tips: Seq<Balance>)
    ensures
        unbalanceds_outcome(seq![fee] + tips) == Some(fee_split_of(fee)),
        unbalanceds_outcome(seq![fee] + tips) == unbalanceds_outcome(seq![fee] + other_tips),
{
    assert((seq![fee] + tips)[0] == fee);
    assert((seq![fee] + other_tips)[0] == fee);
}

/// Rationing splits the whole amount into a part proportional to `first` and
/// the rest: with no weight both parts are empty; otherwise the parts add up to
/// the amount, and where neither the product nor the sum of weights overflows
/// the first part is `amount * first / (first + second)`, rounded down.
pub proof fn lemma_ration_proportional(amount: Balance, first: u32, second: u32)
    ensures
        first as int + second as int == 0 ==> ration_parts(amount as int, first as int, second as int) == (0int, 0int),
        first as int + second as int > 0 ==> ration_parts(amount as int, first as int, second as int).0
            + ration_parts(amount as int, first as int, second as int).1 == amount,
        first as int + second as int > 0 ==> 0 <= ration_parts(amount as int, first as int, second as int).0 <= amount,
        (first as int + second as int > 0 && first as int + second as int <= u32::MAX
            && amount as int * first as int <= u128::MAX) ==> ration_parts(amount as int, first as int, second as int).0
            == amount as int * first as int / (first as int + second as int),
        (first as int + second as int > 0 && first as int + second as int <= u32::MAX
            && amount as int * first as int > u128::MAX) ==> ration_parts(amount as int, first as int, second as int).0
            == u128::MAX as int / (first as int + second as int),
        (first as int + second as int > u32::MAX && amount as int * first as int <= u128::MAX)
            ==> ration_parts(amount as int, first as int, second as int).0
            == (if amount as int * first as int / (u32::MAX as int) < amount as int {
                amount as int * first as int / (u32::MAX as int)
            } else {
                amount as int
            }),
{
    let a = amount as int;
    let f = first as int;
    let t = f + second as int;
    if t > 0 && t <= u32::MAX && a * f <= u128::MAX {
        assert(a * f / t <= a) by (nonlinear_arith)
            requires a >= 0, 0 <= f <= t, t > 0;
    }
    if t > 0 && t <= u32::MAX && a * f > u128::MAX {
        assert(u128::MAX as int / t <= a) by (nonlinear_arith)
            requires a * f > u128::MAX, 0 <= f <= t, t > 0, a >= 0;
    }
    assert(saturating_mul_u128(a, f) >= 0) by (nonlinear_arith)
        requires a >= 0, f >= 0;
}

/// Where the 80 : 20 product overflows, a hundredth of `u128::MAX` is burned
/// and the rest goes to the treasury.
pub proof fn lemma_fee_split_saturated(amount: Balance)
    requires
        amount as int * 80 > u128::MAX,
    ensures
        fee_split(amount as int).0 == u128::MAX as int / 100,
        fee_split(amount as int).1 == amount - u128::MAX as int / 100,
{
}

/// With no imbalance handed over nothing is split.
pub proof fn lemma_no_imbalance_no_split()
    ensures
        unbalanceds_outcome(Seq::<Balance>::empty()) is None,
{
}

} // verus!

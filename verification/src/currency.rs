//! MOVR, the native token, uses 18 decimals of precision.
use vstd::prelude::*;

verus! {

/// An amount of the native token, in its smallest unit.
pub type Balance = u128;

/// A common factor between runtimes, based on a supply of 10_000_000 tokens.
pub const SUPPLY_FACTOR: Balance = 1;

pub const WEI: Balance = 1;
pub const KILOWEI: Balance = 1_000;
pub const MEGAWEI: Balance = 1_000_000;
pub const GIGAWEI: Balance = 1_000_000_000;
pub const MICROMOVR: Balance = 1_000_000_000_000;
pub const MILLIMOVR: Balance = 1_000_000_000_000_000;
pub const MOVR: Balance = 1_000_000_000_000_000_000;
pub const KILOMOVR: Balance = 1_000_000_000_000_000_000_000;

pub const TRANSACTION_BYTE_FEE: Balance = 10 * MICROMOVR * SUPPLY_FACTOR;
pub const STORAGE_BYTE_FEE: Balance = 100 * MICROMOVR * SUPPLY_FACTOR;

/// The deposit for `items` storage items taking `bytes` bytes: one MOVR per
/// item and the storage byte fee per byte.
pub open spec fn deposit_amount(items: int, bytes: int) -> int {
    items * MOVR * SUPPLY_FACTOR + bytes * STORAGE_BYTE_FEE
}

/// The deposit for `items` storage items taking `bytes` bytes.
pub fn deposit(items: u32, bytes: u32) -> (d: Balance)
    ensures
        d == deposit_amount(items as int, bytes as int),
{
    items as Balance * 1 * MOVR * SUPPLY_FACTOR + (bytes as Balance) * STORAGE_BYTE_FEE
}

/// A deposit is one MOVR (10^18) per storage item and 100 micro-MOVR (10^14)
/// per byte.
pub proof fn lemma_deposit_per_item_and_byte(items: u32, bytes: u32)
    ensures
        deposit_amount(items as int, bytes as int) == items as int * 1_000_000_000_000_000_000
            + bytes as int * 100_000_000_000_000,
{
}

} // verus!

//! The runtime's monetary parameters: fee multipliers, governance and staking
//! minimums, and the deposits for identity, proxy and announcement storage.
use crate::currency::{deposit, deposit_amount, Balance, KILOMOVR, MOVR, STORAGE_BYTE_FEE, SUPPLY_FACTOR, TRANSACTION_BYTE_FEE};
use vstd::prelude::*;

verus! {

/// The fee per byte of a transaction.
pub struct TransactionByteFee;

impl TransactionByteFee {
    pub fn get() -> (b: Balance)
        ensures
            b == TRANSACTION_BYTE_FEE,
    {
        TRANSACTION_BYTE_FEE
    }
}

/// The factor by which operational dispatches pay more.
pub struct OperationalFeeMultiplier;

impl OperationalFeeMultiplier {
    pub fn get() -> (m: u8)
        ensures
            m == 5,
    {
        5
    }
}

/// The least deposit of a democracy proposal.
pub struct MinimumDeposit;

impl MinimumDeposit {
    pub fn get() -> (b: Balance)
        ensures
            b == 4 * MOVR * SUPPLY_FACTOR,
    {
        4 * MOVR * SUPPLY_FACTOR
    }
}

/// The deposit per byte of a democracy preimage.
pub struct PreimageByteDeposit;

impl PreimageByteDeposit {
    pub fn get() -> (b: Balance)
        ensures
            b == STORAGE_BYTE_FEE,
    {
        STORAGE_BYTE_FEE
    }
}

/// The least bond of a treasury spending proposal.
pub struct ProposalBondMinimum;

impl ProposalBondMinimum {
    pub fn get() -> (b: Balance)
        ensures
            b == 1 * MOVR * SUPPLY_FACTOR,
    {
        1 * MOVR * SUPPLY_FACTOR
    }
}

/// The deposit of an identity: one item in storage taking 258 bytes.
pub struct BasicDeposit;

impl BasicDeposit {
    pub fn get() -> (b: Balance)
        ensures
            b == deposit_amount(1, 258),
    {
        deposit(1, 258)
    }
}

/// The deposit per additional identity field: no new item, 66 bytes.
pub struct FieldDeposit;

impl FieldDeposit {
    pub fn get() -> (b: Balance)
        ensures
            b == deposit_amount(0, 66),
    {
        deposit(0, 66)
    }
}

/// The deposit per sub-account: one item in storage taking 53 bytes.
pub struct SubAccountDeposit;

impl SubAccountDeposit {
    pub fn get() -> (b: Balance)
        ensures
            b == deposit_amount(1, 53),
    {
        deposit(1, 53)
    }
}

/// The least stake of a collator.
pub struct MinCollatorStk;

impl MinCollatorStk {
    pub fn get() -> (b: Balance)
        ensures
            b == 1 * KILOMOVR * SUPPLY_FACTOR,
    {
        1 * KILOMOVR * SUPPLY_FACTOR
    }
}

/// The least stake reserved by a collator candidate.
pub struct MinCandidateStk;

impl MinCandidateStk {
    pub fn get() -> (b: Balance)
        ensures
            b == 1 * KILOMOVR * SUPPLY_FACTOR,
    {
        1 * KILOMOVR * SUPPLY_FACTOR
    }
}

/// The least stake reserved by a delegator.
pub struct MinDelegatorStk;

impl MinDelegatorStk {
    pub fn get() -> (b: Balance)
        ensures
            b == 5 * MOVR * SUPPLY_FACTOR,
    {
        5 * MOVR * SUPPLY_FACTOR
    }
}

/// The least crowdloan reward.
pub struct MinimumReward;

impl MinimumReward {
    pub fn get() -> (b: Balance)
        ensures
            b == 0,
    {
        0
    }
}

/// The deposit for mapping an author id to an account.
pub struct DepositAmount;

impl DepositAmount {
    pub fn get() -> (b: Balance)
        ensures
            b == 100 * MOVR * SUPPLY_FACTOR,
    {
        100 * MOVR * SUPPLY_FACTOR
    }
}

/// The base deposit of a proxy: one item with a 32-byte key and an 8-byte value.
pub struct ProxyDepositBase;

impl ProxyDepositBase {
    pub fn get() -> (b: Balance)
        ensures
            b == deposit_amount(1, 8),
    {
        deposit(1, 8)
    }
}

/// The deposit per proxy: 21 bytes (a 20-byte account and a 1-byte proxy type).
pub struct ProxyDepositFactor;

impl ProxyDepositFactor {
    pub fn get() -> (b: Balance)
        ensures
            b == deposit_amount(0, 21),
    {
        deposit(0, 21)
    }
}

/// The base deposit of an announcement.
pub struct AnnouncementDepositBase;

impl AnnouncementDepositBase {
    pub fn get() -> (b: Balance)
        ensures
            b == deposit_amount(1, 8),
    {
        deposit(1, 8)
    }
}

/// The deposit per announcement: 56 bytes (a 20-byte account, a 32-byte hash
/// and a 4-byte block number).
pub struct AnnouncementDepositFactor;

impl AnnouncementDepositFactor {
    pub fn get() -> (b: Balance)
        ensures
            b == deposit_amount(0, 56),
    {
        deposit(0, 56)
    }
}

} // verus!

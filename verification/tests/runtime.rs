use moonriver_runtime::call::{Call, EthereumCall, ProxyCall};
use moonriver_runtime::currency::{
    deposit, Balance, GIGAWEI, KILOMOVR, MICROMOVR, MOVR, STORAGE_BYTE_FEE, SUPPLY_FACTOR,
    TRANSACTION_BYTE_FEE,
};
use moonriver_runtime::fees::{ration, DealWithFees, FeeSplit};
use moonriver_runtime::gas::{
    normal_dispatch_ratio, BlockGasLimit, FixedGasPrice, MoonbeamGasWeightMapping, DAYS, HOURS,
    MAXIMUM_BLOCK_WEIGHT, MINUTES, RESERVED_XCMP_WEIGHT, WEEKS, WEIGHT_PER_GAS,
};
use moonriver_runtime::maintenance::{base_call_filter, PhaseThreeFilter};
use moonriver_runtime::numeric::u256_of;
use moonriver_runtime::params::{
    AnnouncementDepositBase, AnnouncementDepositFactor, BasicDeposit, DepositAmount,
    FieldDeposit, MinCandidateStk, MinCollatorStk, MinDelegatorStk, MinimumDeposit,
    MinimumReward, OperationalFeeMultiplier, PreimageByteDeposit, ProposalBondMinimum,
    ProxyDepositBase, ProxyDepositFactor, SubAccountDeposit, TransactionByteFee,
};
use moonriver_runtime::proxy::ProxyType;
use moonriver_runtime::txpool::{
    effective_gas_price, pool_priority, transaction_tip, validate_transaction, DispatchClass,
    PoolRejection,
};
use moonriver_runtime::version::{native_version, version};
use primitive_types::U256;

#[test]
fn currency_constants_are_correct() {
    assert_eq!(SUPPLY_FACTOR, 1);

    // txn fees
    assert_eq!(TRANSACTION_BYTE_FEE, Balance::from(10 * MICROMOVR));
    assert_eq!(OperationalFeeMultiplier::get(), 5_u8);
    assert_eq!(STORAGE_BYTE_FEE, Balance::from(100 * MICROMOVR));
    assert_eq!(U256(FixedGasPrice::min_gas_price().words), U256::from(1 * GIGAWEI));

    // democracy minimums
    assert_eq!(MinimumDeposit::get(), Balance::from(4 * MOVR));
    assert_eq!(PreimageByteDeposit::get(), Balance::from(100 * MICROMOVR));
    assert_eq!(ProposalBondMinimum::get(), Balance::from(1 * MOVR));

    // pallet_identity deposits
    assert_eq!(BasicDeposit::get(), Balance::from(1 * MOVR + 25800 * MICROMOVR));
    assert_eq!(FieldDeposit::get(), Balance::from(6600 * MICROMOVR));
    assert_eq!(SubAccountDeposit::get(), Balance::from(1 * MOVR + 5300 * MICROMOVR));

    // staking minimums
    assert_eq!(MinCollatorStk::get(), Balance::from(1 * KILOMOVR));
    assert_eq!(MinCandidateStk::get(), Balance::from(1 * KILOMOVR));
    assert_eq!(MinDelegatorStk::get(), Balance::from(5 * MOVR));

    // crowdloan min reward
    assert_eq!(MinimumReward::get(), Balance::from(0u128));

    // deposit for AuthorMapping
    assert_eq!(DepositAmount::get(), Balance::from(100 * MOVR));

    // proxy deposits
    assert_eq!(ProxyDepositBase::get(), Balance::from(1 * MOVR + 800 * MICROMOVR));
    assert_eq!(ProxyDepositFactor::get(), Balance::from(2100 * MICROMOVR));
    assert_eq!(AnnouncementDepositBase::get(), Balance::from(1 * MOVR + 800 * MICROMOVR));
    assert_eq!(AnnouncementDepositFactor::get(), Balance::from(5600 * MICROMOVR));
}

#[test]
fn transaction_byte_fee_parameter() {
    assert_eq!(TransactionByteFee::get(), 10 * MICROMOVR);
}

#[test]
fn deposit_counts_items_and_bytes() {
    assert_eq!(deposit(0, 0), 0);
    assert_eq!(deposit(2, 0), 2 * MOVR);
    assert_eq!(deposit(0, 3), 300 * MICROMOVR);
    assert_eq!(deposit(u32::MAX, u32::MAX), u32::MAX as u128 * MOVR + u32::MAX as u128 * STORAGE_BYTE_FEE);
}

#[test]
fn block_time_constants() {
    assert_eq!(MINUTES, 5);
    assert_eq!(HOURS, 300);
    assert_eq!(DAYS, 7200);
    assert_eq!(WEEKS, 50400);
    assert_eq!(MAXIMUM_BLOCK_WEIGHT, 500_000_000_000);
    assert_eq!(RESERVED_XCMP_WEIGHT, 125_000_000_000);
    assert_eq!(WEIGHT_PER_GAS, 25_000);
}

#[test]
fn gas_to_weight_scales_and_saturates() {
    assert_eq!(MoonbeamGasWeightMapping::gas_to_weight(0), 0);
    assert_eq!(MoonbeamGasWeightMapping::gas_to_weight(1), 25_000);
    assert_eq!(MoonbeamGasWeightMapping::gas_to_weight(21_000), 525_000_000);
    assert_eq!(MoonbeamGasWeightMapping::gas_to_weight(u64::MAX), u64::MAX);
    assert_eq!(MoonbeamGasWeightMapping::gas_to_weight(u64::MAX / 25_000 + 1), u64::MAX);
}

#[test]
fn weight_to_gas_rounds_down() {
    assert_eq!(MoonbeamGasWeightMapping::weight_to_gas(0), 0);
    assert_eq!(MoonbeamGasWeightMapping::weight_to_gas(24_999), 0);
    assert_eq!(MoonbeamGasWeightMapping::weight_to_gas(25_000), 1);
    assert_eq!(MoonbeamGasWeightMapping::weight_to_gas(74_999), 2);
    assert_eq!(MoonbeamGasWeightMapping::weight_to_gas(u64::MAX), u64::MAX / 25_000);
}

#[test]
fn gas_weight_round_trip_on_values() {
    for g in [0u64, 1, 21_000, 15_000_000] {
        let w = MoonbeamGasWeightMapping::gas_to_weight(g);
        assert_eq!(MoonbeamGasWeightMapping::weight_to_gas(w), g);
    }
    let w = 1_234_567u64;
    let back = MoonbeamGasWeightMapping::gas_to_weight(MoonbeamGasWeightMapping::weight_to_gas(w));
    assert!(back <= w && w - back < 25_000);
}

#[test]
fn block_gas_limit_is_fifteen_million() {
    assert_eq!(normal_dispatch_ratio(), 750_000_000);
    assert_eq!(U256(BlockGasLimit::get().words), U256::from(15_000_000u64));
}

#[test]
fn u256_of_splits_words() {
    assert_eq!(u256_of(0).words, [0, 0, 0, 0]);
    assert_eq!(u256_of(u128::MAX).words, [u64::MAX, u64::MAX, 0, 0]);
    assert_eq!(u256_of((1u128 << 64) + 5).words, [5, 1, 0, 0]);
    assert_eq!(U256(u256_of(123_456_789).words), U256::from(123_456_789u64));
}

#[test]
fn proxy_type_default_is_any() {
    assert_eq!(ProxyType::default(), ProxyType::Any);
}

#[test]
fn proxy_any_allows_everything() {
    let calls = [
        Call::System,
        Call::Balances,
        Call::EVM,
        Call::Ethereum(EthereumCall::Transact),
        Call::Proxy(ProxyCall::Proxy),
        Call::Treasury,
        Call::CrowdloanRewards,
    ];
    for c in calls.iter() {
        assert!(ProxyType::Any.filter(c));
    }
}

#[test]
fn proxy_non_transfer_filter() {
    let p = ProxyType::NonTransfer;
    assert!(p.filter(&Call::System));
    assert!(p.filter(&Call::Timestamp));
    assert!(p.filter(&Call::ParachainStaking));
    assert!(p.filter(&Call::Democracy));
    assert!(p.filter(&Call::CouncilCollective));
    assert!(p.filter(&Call::TechCommitteeCollective));
    assert!(p.filter(&Call::Utility));
    assert!(p.filter(&Call::Proxy(ProxyCall::AddProxy)));
    assert!(p.filter(&Call::AuthorMapping));
    assert!(!p.filter(&Call::Balances));
    assert!(!p.filter(&Call::EVM));
    assert!(!p.filter(&Call::Ethereum(EthereumCall::Transact)));
    assert!(!p.filter(&Call::Treasury));
    assert!(!p.filter(&Call::CrowdloanRewards));
    assert!(!p.filter(&Call::Identity));
}

#[test]
fn proxy_governance_staking_balances_filters() {
    assert!(ProxyType::Governance.filter(&Call::Democracy));
    assert!(ProxyType::Governance.filter(&Call::Utility));
    assert!(!ProxyType::Governance.filter(&Call::ParachainStaking));
    assert!(ProxyType::Staking.filter(&Call::ParachainStaking));
    assert!(ProxyType::Staking.filter(&Call::AuthorMapping));
    assert!(!ProxyType::Staking.filter(&Call::Democracy));
    assert!(ProxyType::Balances.filter(&Call::Balances));
    assert!(ProxyType::Balances.filter(&Call::Utility));
    assert!(!ProxyType::Balances.filter(&Call::EVM));
    assert!(ProxyType::AuthorMapping.filter(&Call::AuthorMapping));
    assert!(!ProxyType::AuthorMapping.filter(&Call::Utility));
}

#[test]
fn proxy_cancel_only_rejects_announcements() {
    let p = ProxyType::CancelProxy;
    assert!(p.filter(&Call::Proxy(ProxyCall::RejectAnnouncement)));
    assert!(!p.filter(&Call::Proxy(ProxyCall::RemoveAnnouncement)));
    assert!(!p.filter(&Call::Proxy(ProxyCall::Proxy)));
    assert!(!p.filter(&Call::Utility));
}

#[test]
fn proxy_is_superset() {
    let all = [
        ProxyType::Any,
        ProxyType::NonTransfer,
        ProxyType::Governance,
        ProxyType::Staking,
        ProxyType::CancelProxy,
        ProxyType::Balances,
        ProxyType::AuthorMapping,
    ];
    for a in all.iter() {
        assert!(a.is_superset(a));
        assert!(ProxyType::Any.is_superset(a));
        for b in all.iter() {
            if a != b && *a != ProxyType::Any {
                assert!(!a.is_superset(b));
            }
        }
    }
    assert!(!ProxyType::NonTransfer.is_superset(&ProxyType::Any));
}

#[test]
fn phase_three_filter() {
    assert!(!PhaseThreeFilter::contains(&Call::Balances));
    assert!(!PhaseThreeFilter::contains(&Call::CrowdloanRewards));
    assert!(!PhaseThreeFilter::contains(&Call::Ethereum(EthereumCall::Transact)));
    assert!(!PhaseThreeFilter::contains(&Call::EVM));
    assert!(PhaseThreeFilter::contains(&Call::System));
    assert!(PhaseThreeFilter::contains(&Call::Democracy));
    assert!(PhaseThreeFilter::contains(&Call::Proxy(ProxyCall::Proxy)));
    assert!(base_call_filter(false, &Call::Balances));
    assert!(!base_call_filter(true, &Call::Balances));
    assert!(base_call_filter(true, &Call::Utility));
}

#[test]
fn ration_splits_in_proportion() {
    assert_eq!(ration(100, 80, 20), (80, 20));
    assert_eq!(ration(101, 80, 20), (80, 21));
    assert_eq!(ration(7, 0, 0), (0, 0));
    assert_eq!(ration(7, 1, 0), (7, 0));
    assert_eq!(ration(7, 0, 1), (0, 7));
    assert_eq!(ration(u128::MAX, 80, 20), (u128::MAX / 100, u128::MAX - u128::MAX / 100));
    assert_eq!(ration(10, u32::MAX, u32::MAX), (10 * u32::MAX as u128 / u32::MAX as u128, 0));
}

#[test]
fn fees_are_split_80_20() {
    assert_eq!(
        DealWithFees::on_nonzero_unbalanced(1_000),
        FeeSplit { burned: 800, to_treasury: 200 }
    );
    assert_eq!(
        DealWithFees::on_nonzero_unbalanced(3),
        FeeSplit { burned: 2, to_treasury: 1 }
    );
    let s = DealWithFees::on_nonzero_unbalanced(123_456_789);
    assert_eq!(s.burned + s.to_treasury, 123_456_789);
}

#[test]
fn tips_are_burned() {
    assert_eq!(DealWithFees::on_unbalanceds(&[]), None);
    assert_eq!(
        DealWithFees::on_unbalanceds(&[1_000, 500]),
        Some(FeeSplit { burned: 800, to_treasury: 200 })
    );
    assert_eq!(
        DealWithFees::on_unbalanceds(&[1_000]),
        DealWithFees::on_unbalanceds(&[1_000, 9_999_999])
    );
}

#[test]
fn tip_of_unsigned_is_zero() {
    assert_eq!(transaction_tip(None), 0);
    assert_eq!(transaction_tip(Some(42)), 42);
}

#[test]
fn effective_gas_price_values() {
    // 100_000 weight is 4 gas
    assert_eq!(effective_gas_price(1_000_000, 100_000), 250_000);
    // a weight worth no gas prices at the whole fee
    assert_eq!(effective_gas_price(1_000_000, 24_999), 1_000_000);
    // the fee saturates at u64::MAX before the division
    assert_eq!(effective_gas_price(u128::MAX, 25_000), u64::MAX);
    assert_eq!(effective_gas_price(u64::MAX as u128 + 1, 50_000), u64::MAX / 2);
}

#[test]
fn pool_priority_cases() {
    let eth = Call::Ethereum(EthereumCall::Transact);
    assert_eq!(pool_priority(&eth, DispatchClass::Normal, 7, 1_000_000, 100_000), 7);
    assert_eq!(pool_priority(&Call::System, DispatchClass::Operational, 7, 1_000_000, 100_000), 7);
    assert_eq!(pool_priority(&Call::System, DispatchClass::Mandatory, 7, 1_000_000, 100_000), 7);
    assert_eq!(pool_priority(&Call::System, DispatchClass::Normal, 7, 1_000_000, 100_000), 250_000);
}

#[test]
fn validate_transaction_verdicts() {
    let r: Result<u64, PoolRejection<u8>> =
        validate_transaction(true, &Call::Balances, DispatchClass::Normal, Ok(1), 10, 25_000);
    assert_eq!(r, Err(PoolRejection::FilteredCall));
    let r = validate_transaction(true, &Call::Balances, DispatchClass::Normal, Err(3u8), 10, 25_000);
    assert_eq!(r, Err(PoolRejection::FilteredCall));
    let r = validate_transaction(false, &Call::Balances, DispatchClass::Normal, Err(3u8), 10, 25_000);
    assert_eq!(r, Err(PoolRejection::Executive(3)));
    let r: Result<u64, PoolRejection<u8>> =
        validate_transaction(false, &Call::Balances, DispatchClass::Normal, Ok(1), 1_000_000, 100_000);
    assert_eq!(r, Ok(250_000));
    let r: Result<u64, PoolRejection<u8>> = validate_transaction(
        true,
        &Call::Utility,
        DispatchClass::Operational,
        Ok(9),
        1_000_000,
        100_000,
    );
    assert_eq!(r, Ok(9));
}

#[test]
fn runtime_version_values() {
    let v = version();
    assert_eq!(v.spec_name, "moonriver");
    assert_eq!(v.impl_name, "moonriver");
    assert_eq!(v.authoring_version, 3);
    assert_eq!(v.spec_version, 900);
    assert_eq!(v.impl_version, 0);
    assert_eq!(v.transaction_version, 2);
    let n = native_version();
    assert_eq!(n.runtime_version, v);
    assert!(n.can_author_with.is_empty());
}

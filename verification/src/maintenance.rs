//! The calls that stay open while the chain is in maintenance mode.
use crate::call::Call;
use vstd::prelude::*;

verus! {

/// Whether call `c` is let through during phase three of the rollout: every
/// call but those of the balances, crowdloan rewards, Ethereum and EVM
/// pallets.
pub open spec fn phase_three_allows(c: Call) -> bool {
    !(c is Balances || c is CrowdloanRewards || c is Ethereum || c is EVM)
}

/// Whether the runtime's base call filter lets call `c` through: every call in
/// normal operation, the phase three calls in maintenance mode.
pub open spec fn base_filter_allows(maintenance_mode: bool, c: Call) -> bool {
    if maintenance_mode { phase_three_allows(c) } else { true }
}

/// Call filter used during phase three of the Moonriver rollout.
pub struct PhaseThreeFilter;

impl PhaseThreeFilter {
    /// Whether call `c` is let through in maintenance mode.
    pub fn contains(c: &Call) -> (ok: bool)
        ensures
            ok == phase_three_allows(*c),
    {
        match c {
            Call::Balances => false,
            Call::CrowdloanRewards => false,
            Call::Ethereum(_) => false,
            Call::EVM => false,
            _ => true,
        }
    }
}

/// The base call filter of the runtime: in normal operation every call passes
/// (`Everything`); in maintenance mode the phase three filter decides.
pub fn base_call_filter(maintenance_mode: bool, c: &Call) -> (ok: bool)
    ensures
        ok == base_filter_allows(maintenance_mode, *c),
{
    if maintenance_mode {
        PhaseThreeFilter::contains(c)
    } else {
        true
    }
}

/// Maintenance mode only ever takes calls away: what passes in maintenance
/// mode passes in normal operation, and governance and staking calls pass in
/// both.
pub proof fn lemma_maintenance_only_restricts(c: Call)
    ensures
        base_filter_allows(true, c) ==> base_filter_allows(false, c),
        (c is Democracy || c is CouncilCollective || c is TechCommitteeCollective
            || c is ParachainStaking || c is MaintenanceMode || c is System) ==> base_filter_allows(true, c),
{
}

/// In maintenance mode no call of the balances, crowdloan rewards, Ethereum or
/// EVM pallets passes.
pub proof fn lemma_maintenance_blocks_transfers(c: Call)
    requires
        c is Balances || c is CrowdloanRewards || c is Ethereum || c is EVM,
    ensures
        !base_filter_allows(true, c),
{
}

/// In normal operation the base filter lets every call through.
pub proof fn lemma_normal_operation_filters_nothing(c: Call)
    ensures
        base_filter_allows(false, c),
{
}

/// In maintenance mode exactly the calls outside the balances, crowdloan
/// rewards, Ethereum and EVM pallets pass.
pub proof fn lemma_maintenance_passes_exactly(c: Call)
    ensures
        phase_three_allows(c) <==> !(c == Call::Balances || c == Call::CrowdloanRewards || c == Call::EVM
            || exists|e: crate::call::EthereumCall| c == Call::Ethereum(e)),
        base_filter_allows(true, c) <==> phase_three_allows(c),
{
    if let Call::Ethereum(e) = c {
        assert(c == Call::Ethereum(e));
    }
}

} // verus!

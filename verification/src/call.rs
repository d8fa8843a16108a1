//! The dispatchable calls of the runtime, by pallet. Each variant stands for
//! every call of one pallet; the calls of the proxy and Ethereum pallets are
//! told apart, since the filters read them.
use vstd::prelude::*;

verus! {

/// The calls of the proxy pallet.
#[derive(Clone, Copy, Debug, PartialEq, Eq, Structural)]
pub enum ProxyCall {
    Proxy,
    AddProxy,
    RemoveProxy,
    RemoveProxies,
    Anonymous,
    KillAnonymous,
    Announce,
    RemoveAnnouncement,
    RejectAnnouncement,
    ProxyAnnounced,
}

/// The calls of the Ethereum pallet.
#[derive(Clone, Copy, Debug, PartialEq, Eq, Structural)]
pub enum EthereumCall {
    /// Executes a signed Ethereum transaction.
    Transact,
}

/// A call of the runtime, by the pallet that dispatches it.
#[derive(Clone, Copy, Debug, PartialEq, Eq, Structural)]
pub enum Call {
    System,
    ParachainSystem,
    Timestamp,
    Balances,
    ParachainStaking,
    AuthorInherent,
    AuthorFilter,
    AuthorMapping,
    Utility,
    Proxy(ProxyCall),
    MaintenanceMode,
    Identity,
    EVM,
    Ethereum(EthereumCall),
    Scheduler,
    Democracy,
    CouncilCollective,
    TechCommitteeCollective,
    Treasury,
    CrowdloanRewards,
}

} // verus!

//! The kinds of proxy the runtime allows, and the calls each may make.
use crate::call::{Call, ProxyCall};
use vstd::prelude::*;

verus! {

/// The type used to represent the kinds of proxying allowed.
#[derive(Clone, Copy, Debug, PartialEq, Eq, Structural, PartialOrd, Ord, Hash)]
pub enum ProxyType {
    /// All calls can be proxied. This is the trivial/most permissive filter.
    Any,
    /// Only extrinsics that do not transfer funds.
    NonTransfer,
    /// Only extrinsics related to governance (democracy and collectives).
    Governance,
    /// Only extrinsics related to staking.
    Staking,
    /// Allow to veto an announced proxy call.
    CancelProxy,
    /// Allow extrinsic related to Balances.
    Balances,
    /// Allow extrinsic related to AuthorMapping.
    AuthorMapping,
}

/// Whether a proxy of kind `p` may make call `c`.
pub open spec fn proxy_permits(p: ProxyType, c: Call) -> bool {
    match p {
        ProxyType::Any => true,
        ProxyType::NonTransfer => {
            ||| c is System
            ||| c is Timestamp
            ||| c is ParachainStaking
            ||| c is Democracy
            ||| c is CouncilCollective
            ||| c is TechCommitteeCollective
            ||| c is Utility
            ||| c is Proxy
            ||| c is AuthorMapping
        },
        ProxyType::Governance => {
            ||| c is Democracy
            ||| c is CouncilCollective
            ||| c is TechCommitteeCollective
            ||| c is Utility
        },
        ProxyType::Staking => {
            ||| c is ParachainStaking
            ||| c is Utility
            ||| c is AuthorMapping
        },
        ProxyType::CancelProxy => c == Call::Proxy(ProxyCall::RejectAnnouncement),
        ProxyType::Balances => c is Balances || c is Utility,
        ProxyType::AuthorMapping => c is AuthorMapping,
    }
}

/// Whether proxy kind `a` is declared to cover proxy kind `b`.
pub open spec fn proxy_covers(a: ProxyType, b: ProxyType) -> bool {
    a == b || a == ProxyType::Any
}

impl Default for ProxyType {
    fn default() -> (p: Self)
        ensures
            p == ProxyType::Any,
    {
        ProxyType::Any
    }
}

impl ProxyType {
    /// Whether a proxy of this kind may make call `c`.
    pub fn filter(&self, c: &Call) -> (ok: bool)
        ensures
            ok == proxy_permits(*self, *c),
    {
        match self {
            ProxyType::Any => true,
            ProxyType::NonTransfer => matches!(
                c,
                Call::System | Call::Timestamp | Call::ParachainStaking | Call::Democracy
                    | Call::CouncilCollective | Call::TechCommitteeCollective | Call::Utility
                    | Call::Proxy(..) | Call::AuthorMapping
            ),
            ProxyType::Governance => matches!(
                c,
                Call::Democracy | Call::CouncilCollective | Call::TechCommitteeCollective
                    | Call::Utility
            ),
            ProxyType::Staking => matches!(
                c,
                Call::ParachainStaking | Call::Utility | Call::AuthorMapping
            ),
            ProxyType::CancelProxy => matches!(c, Call::Proxy(ProxyCall::RejectAnnouncement)),
            ProxyType::Balances => matches!(c, Call::Balances | Call::Utility),
            ProxyType::AuthorMapping => matches!(c, Call::AuthorMapping),
        }
    }

    /// Whether this kind of proxy covers every call that kind `o` covers, as the
    /// runtime declares it: a kind covers itself, and `Any` covers all kinds.
    pub fn is_superset(&self, o: &Self) -> (r: bool)
        ensures
            r == proxy_covers(*self, *o),
    {
        if *self == *o {
            true
        } else {
            match (self, o) {
                (ProxyType::Any, _) => true,
                (_, ProxyType::Any) => false,
                _ => false,
            }
        }
    }
}

/// A proxy of kind `Any` may make every call.
pub proof fn lemma_any_permits_all(c: Call)
    ensures
        proxy_permits(ProxyType::Any, c),
{
}

/// What a kind is declared to cover, it does cover: if `a` is a superset of `b`,
/// every call that `b` permits, `a` permits too.
pub proof fn lemma_superset_sound(a: ProxyType, b: ProxyType, c: Call)
    requires
        proxy_covers(a, b),
        proxy_permits(b, c),
    ensures
        proxy_permits(a, c),
{
}

/// The superset relation is reflexive, and `Any` is a superset of every kind.
pub proof fn lemma_superset_reflexive_and_any(a: ProxyType)
    ensures
        proxy_covers(a, a),
        proxy_covers(ProxyType::Any, a),
{
}

/// Only `Any` is a superset of a kind other than itself, and no kind but `Any`
/// is a superset of `Any`.
pub proof fn lemma_superset_only_any(a: ProxyType, b: ProxyType)
    requires
        proxy_covers(a, b),
        a != b,
    ensures
        a == ProxyType::Any,
{
}

/// The superset relation is antisymmetric and transitive.
pub proof fn lemma_superset_partial_order(a: ProxyType, b: ProxyType, c: ProxyType)
    ensures
        proxy_covers(a, b) && proxy_covers(b, a) ==> a == b,
        proxy_covers(a, b) && proxy_covers(b, c) ==> proxy_covers(a, c),
{
}

/// Whether call `c` moves funds: balance transfers, EVM and Ethereum
/// execution, treasury spending and crowdloan reward payments.
pub open spec fn moves_funds(c: Call) -> bool {
    ||| c is Balances
    ||| c is EVM
    ||| c is Ethereum
    ||| c is Treasury
    ||| c is CrowdloanRewards
}

/// A `NonTransfer` proxy makes no call that moves funds.
pub proof fn lemma_non_transfer_moves_no_funds(c: Call)
    requires
        proxy_permits(ProxyType::NonTransfer, c),
    ensures
        !moves_funds(c),
{
}

/// A `Governance` proxy makes only democracy, collective and utility calls, and
/// all of them a `NonTransfer` proxy may make too.
pub proof fn lemma_governance_within_non_transfer(c: Call)
    requires
        proxy_permits(ProxyType::Governance, c),
    ensures
        proxy_permits(ProxyType::NonTransfer, c),
        c is Democracy || c is CouncilCollective || c is TechCommitteeCollective || c is Utility,
{
}

/// A `CancelProxy` proxy may only reject an announcement.
pub proof fn lemma_cancel_proxy_only_rejects(c: Call)
    requires
        proxy_permits(ProxyType::CancelProxy, c),
    ensures
        c == Call::Proxy(ProxyCall::RejectAnnouncement),
{
}

/// What each kind of proxy may do, call by call: `Any` everything;
/// `NonTransfer` system, timestamp, staking, democracy, both collectives,
/// utility, proxy and author mapping calls; `Governance` democracy, both
/// collectives and utility; `Staking` staking, utility and author mapping;
/// `CancelProxy` only the rejection of an announcement; `Balances` balances and
/// utility; `AuthorMapping` only author mapping.
pub proof fn lemma_proxy_permissions(c: Call)
    ensures
        proxy_permits(ProxyType::Any, c),
        proxy_permits(ProxyType::NonTransfer, c) <==> (c == Call::System || c == Call::Timestamp
            || c == Call::ParachainStaking || c == Call::Democracy || c == Call::CouncilCollective
            || c == Call::TechCommitteeCollective || c == Call::Utility || c == Call::AuthorMapping
            || exists|pc: ProxyCall| c == Call::Proxy(pc)),
        proxy_permits(ProxyType::Governance, c) <==> (c == Call::Democracy || c == Call::CouncilCollective
            || c == Call::TechCommitteeCollective || c == Call::Utility),
        proxy_permits(ProxyType::Staking, c) <==> (c == Call::ParachainStaking || c == Call::Utility
            || c == Call::AuthorMapping),
        proxy_permits(ProxyType::CancelProxy, c) <==> c == Call::Proxy(ProxyCall::RejectAnnouncement),
        proxy_permits(ProxyType::Balances, c) <==> (c == Call::Balances || c == Call::Utility),
        proxy_permits(ProxyType::AuthorMapping, c) <==> c == Call::AuthorMapping,
{
    if let Call::Proxy(pc) = c {
        assert(c == Call::Proxy(pc));
    }
}

/// Every kind of proxy but `CancelProxy` and `AuthorMapping` may make utility
/// calls, to batch what it may do.
pub proof fn lemma_utility_for_batching(p: ProxyType)
    requires
        p != ProxyType::CancelProxy,
        p != ProxyType::AuthorMapping,
    ensures
        proxy_permits(p, Call::Utility),
{
}

/// One kind covers another exactly when it is the same kind or `Any`.
pub proof fn lemma_superset_exactly(a: ProxyType, b: ProxyType)
    ensures
        proxy_covers(a, b) <==> (a == b || a == ProxyType::Any),
{
}

} // verus!

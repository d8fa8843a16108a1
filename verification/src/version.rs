//! The version of this runtime.
use vstd::prelude::*;

verus! {

/// The identity and version numbers of a runtime.
#[derive(Clone, Copy, Debug, PartialEq, Eq)]
pub struct RuntimeVersion {
    pub spec_name: &'static str,
    pub impl_name: &'static str,
    pub authoring_version: u32,
    /// Composed of 2x2 digits: the first 2 count major changes that can't be
    /// skipped, such as data migration upgrades; the last 2 minor changes that
    /// can be skipped.
    pub spec_version: u32,
    pub impl_version: u32,
    pub transaction_version: u32,
}

/// The version information used to identify this runtime when compiled
/// natively.
#[derive(Clone, Debug, PartialEq, Eq)]
pub struct NativeVersion {
    pub runtime_version: RuntimeVersion,
    /// The spec versions, other than its own, this native runtime can author
    /// blocks for.
    pub can_author_with: Vec<u32>,
}

/// This runtime version.
pub fn version() -> (v: RuntimeVersion)
    ensures
        v.spec_name@ == "moonriver"@,
        v.impl_name@ == "moonriver"@,
        v.authoring_version == 3,
        v.spec_version == 900,
        v.impl_version == 0,
        v.transaction_version == 2,
{
    RuntimeVersion {
        spec_name: "moonriver",
        impl_name: "moonriver",
        authoring_version: 3,
        spec_version: 900,
        impl_version: 0,
        transaction_version: 2,
    }
}

/// The native version: this runtime's version, authoring for no other.
pub fn native_version() -> (n: NativeVersion)
    ensures
        n.runtime_version.spec_name@ == "moonriver"@,
        n.runtime_version.impl_name@ == "moonriver"@,
        n.runtime_version.authoring_version == 3,
        n.runtime_version.spec_version == 900,
        n.runtime_version.impl_version == 0,
        n.runtime_version.transaction_version == 2,
        n.can_author_with@.len() == 0,
{
    NativeVersion { runtime_version: version(), can_author_with: Vec::new() }
}

} // verus!

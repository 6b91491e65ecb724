//! Events about identities.
use vstd::prelude::*;

use crate::events::EventInfo;

verus! {

/// An event about a change to an identity.
#[derive(Clone, Debug, PartialEq, Eq)]
pub struct IdentityEvent {
    /// Metadata that comes with every event.
    pub info: EventInfo,
    /// What changed.
    pub identity: IdentityData,
}

/// The identity data of an identity event.
#[derive(Clone, Debug, PartialEq, Eq)]
pub struct IdentityData {
    /// The DID of the identity.
    pub did: String,
    /// The handle of the identity, if it has one.
    pub handle: Option<String>,
    /// The sequence number of the change.
    pub seq: u64,
    /// When the change happened, in microseconds since the Unix epoch.
    pub time: i64,
}

} // verus!

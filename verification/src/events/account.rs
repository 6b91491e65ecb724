//! Events about accounts.
use vstd::prelude::*;

use crate::events::EventInfo;

verus! {

/// An event about a change to an account.
#[derive(Clone, Debug, PartialEq, Eq)]
pub struct AccountEvent {
    /// Metadata that comes with every event.
    pub info: EventInfo,
    /// What changed.
    pub account: AccountData,
}

/// The account data of an account event.
#[derive(Clone, Debug, PartialEq, Eq)]
pub struct AccountData {
    /// Whether the account is active.
    pub active: bool,
    /// The DID of the account.
    pub did: String,
    /// The sequence number of the change.
    pub seq: u64,
    /// When the change happened, in microseconds since the Unix epoch.
    pub time: i64,
    /// Why the account is inactive, when `active` is `false`.
    pub status: Option<AccountStatus>,
}

/// Why an account is inactive.
#[derive(Clone, Copy, Debug, PartialEq, Eq, Structural)]
pub enum AccountStatus {
    /// `deactivated`
    Deactivated,
    /// `deleted`
    Deleted,
    /// `suspended`
    Suspended,
    /// `takendown`
    TakenDown,
}

} // verus!

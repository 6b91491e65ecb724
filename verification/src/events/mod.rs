//! The events that a Jetstream instance sends.
use vstd::prelude::*;

pub mod account;
pub mod commit;
pub mod identity;

verus! {

/// Metadata that comes with every event.
#[derive(Clone, Debug, PartialEq, Eq)]
pub struct EventInfo {
    /// The DID of the repository or account the event is about.
    pub did: String,
    /// When the event was emitted, in microseconds since the Unix epoch.
    pub time_us: u64,
}

/// A Jetstream event, told apart by its `kind`.
#[derive(Clone, Debug, PartialEq, Eq)]
pub enum JetstreamEvent {
    /// `kind` is `commit`.
    Commit(commit::CommitEvent),
    /// `kind` is `identity`.
    Identity(identity::IdentityEvent),
    /// `kind` is `account`.
    Account(account::AccountEvent),
}

} // verus!

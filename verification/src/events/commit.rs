//! Events about repository commits.
use vstd::prelude::*;

use crate::events::EventInfo;

verus! {

/// An event about a commit to a repository.
#[derive(Clone, Debug, PartialEq, Eq)]
pub struct CommitEvent {
    /// Metadata that comes with every event.
    pub info: EventInfo,
    /// What the commit did.
    pub commit: CommitData,
}

/// What every commit event carries, and all that a deletion carries.
#[derive(Clone, Debug, PartialEq, Eq)]
pub struct CommitInfo {
    /// The revision of the commit.
    pub rev: String,
    /// The record key.
    pub rkey: String,
    /// The NSID of the record's collection.
    pub collection: String,
}

/// What a commit did, told apart by its `operation`.
#[derive(Clone, Debug, PartialEq, Eq)]
pub enum CommitData {
    /// `operation` is `create`.
    Create {
        /// The commit's common data.
        info: CommitInfo,
        /// The CID of the record.
        cid: String,
        /// The record, as JSON text.
        record: String,
    },
    /// `operation` is `update`.
    Update {
        /// The commit's common data.
        info: CommitInfo,
        /// The CID of the record.
        cid: String,
        /// The record, as JSON text.
        record: String,
    },
    /// `operation` is `delete`.
    Delete {
        /// The commit's common data.
        info: CommitInfo,
    },
}

} // verus!

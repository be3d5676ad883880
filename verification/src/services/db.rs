//! Types of the local record store.
//!
//! A recording's synchronization state is persisted as an upper-case
//! code; the remote service reports its own lower-case job states. Both
//! vocabularies parse into `SyncStatus`, and anything unrecognized falls
//! back to the draft state.

use vstd::prelude::*;
use vstd::string::StringExecFns;

verus! {

/// Where a recording stands between the local store and the remote
/// service.
#[derive(Clone, Copy, Debug, PartialEq, Eq, Structural)]
pub enum SyncStatus {
    DraftReady,
    Uploading,
    RemotePending,
    ProcessingRemote,
    CompletedSynced,
    Failed,
}

/// The status a stored or remote code denotes; unrecognized codes fall
/// back to the draft state.
pub open spec fn status_of_code(s: Seq<char>) -> SyncStatus {
    if s == "DRAFT_READY"@ {
        SyncStatus::DraftReady
    } else if s == "UPLOADING"@ {
        SyncStatus::Uploading
    } else if s == "REMOTE_PENDING"@ || s == "uploaded"@ || s == "pending"@ {
        SyncStatus::RemotePending
    } else if s == "PROCESSING_REMOTE"@ || s == "processing"@ {
        SyncStatus::ProcessingRemote
    } else if s == "COMPLETED_SYNCED"@ || s == "completed"@ {
        SyncStatus::CompletedSynced
    } else if s == "FAILED"@ || s == "failed"@ {
        SyncStatus::Failed
    } else {
        SyncStatus::DraftReady
    }
}

/// The code under which a status is persisted.
pub open spec fn status_code(st: SyncStatus) -> Seq<char> {
    match st {
        SyncStatus::DraftReady => "DRAFT_READY"@,
        SyncStatus::Uploading => "UPLOADING"@,
        SyncStatus::RemotePending => "REMOTE_PENDING"@,
        SyncStatus::ProcessingRemote => "PROCESSING_REMOTE"@,
        SyncStatus::CompletedSynced => "COMPLETED_SYNCED"@,
        SyncStatus::Failed => "FAILED"@,
    }
}

impl SyncStatus {
    /// The code under which this status is persisted.
    pub fn to_string(&self) -> (r: String)
        ensures
            r@ == status_code(*self),
    {
        match self {
            SyncStatus::DraftReady => String::from_str("DRAFT_READY"),
            SyncStatus::Uploading => String::from_str("UPLOADING"),
            SyncStatus::RemotePending => String::from_str("REMOTE_PENDING"),
            SyncStatus::ProcessingRemote => String::from_str("PROCESSING_REMOTE"),
            SyncStatus::CompletedSynced => String::from_str("COMPLETED_SYNCED"),
            SyncStatus::Failed => String::from_str("FAILED"),
        }
    }
}

/// The shapes of the eleven status codes: their lengths, and the first
/// characters of the pairs that share a length. Enough to tell any two
/// codes apart.
proof fn lemma_code_shapes()
    ensures
        "DRAFT_READY"@.len() == 11,
        "UPLOADING"@.len() == 9,
        "REMOTE_PENDING"@.len() == 14,
        "PROCESSING_REMOTE"@.len() == 17,
        "COMPLETED_SYNCED"@.len() == 16,
        "FAILED"@.len() == 6,
        "uploaded"@.len() == 8,
        "pending"@.len() == 7,
        "processing"@.len() == 10,
        "completed"@.len() == 9,
        "failed"@.len() == 6,
        "UPLOADING"@[0] == 'U',
        "completed"@[0] == 'c',
        "FAILED"@[0] == 'F',
        "failed"@[0] == 'f',
{
    reveal_strlit("DRAFT_READY");
    reveal_strlit("UPLOADING");
    reveal_strlit("REMOTE_PENDING");
    reveal_strlit("PROCESSING_REMOTE");
    reveal_strlit("COMPLETED_SYNCED");
    reveal_strlit("FAILED");
    reveal_strlit("uploaded");
    reveal_strlit("pending");
    reveal_strlit("processing");
    reveal_strlit("completed");
    reveal_strlit("failed");
}

impl From<String> for SyncStatus {
    /// Parse a stored or remote status code.
    fn from(s: String) -> (r: SyncStatus)
        ensures
            r == status_of_code(s@),
    {
        proof {
            lemma_code_shapes();
        }
        if s == String::from_str("DRAFT_READY") {
            SyncStatus::DraftReady
        } else if s == String::from_str("UPLOADING") {
            SyncStatus::Uploading
        } else if s == String::from_str("REMOTE_PENDING") {
            SyncStatus::RemotePending
        } else if s == String::from_str("PROCESSING_REMOTE") {
            SyncStatus::ProcessingRemote
        } else if s == String::from_str("COMPLETED_SYNCED") {
            SyncStatus::CompletedSynced
        } else if s == String::from_str("FAILED") {
            SyncStatus::Failed
        } else if s == String::from_str("uploaded") || s == String::from_str("pending") {
            SyncStatus::RemotePending
        } else if s == String::from_str("processing") {
            SyncStatus::ProcessingRemote
        } else if s == String::from_str("completed") {
            SyncStatus::CompletedSynced
        } else if s == String::from_str("failed") {
            SyncStatus::Failed
        } else {
            SyncStatus::DraftReady
        }
    }
}

impl vstd::std_specs::convert::FromSpecImpl<String> for SyncStatus {
    open spec fn obeys_from_spec() -> bool {
        true
    }

    open spec fn from_spec(s: String) -> SyncStatus {
        status_of_code(s@)
    }
}

/// Parsing a persisted code returns the status it was written from: the
/// six codes are pairwise distinct.
pub proof fn lemma_status_code_round_trip(st: SyncStatus)
    ensures
        status_of_code(status_code(st)) == st,
{
    lemma_code_shapes();
}

/// One speaker-name override recorded for a cached recording.
#[derive(Debug)]
pub struct CachedSpeakerMap {
    pub id: i64,
    pub local_recording_id: String,
    pub original_speaker_label: String,
    pub display_name: String,
}

} // verus!

//! Types of the background synchronization service.
//!
//! The service reconciles local records against the remote transcription
//! service; one remote job as the listing endpoint reports it is a
//! `RemoteJob`.

use vstd::prelude::*;

verus! {

/// One transcription job as the remote service lists it.
#[derive(Debug)]
pub struct RemoteJob {
    pub id: String,
    pub title: Option<String>,
    pub status: String,
    pub created_at: String,
    pub updated_at: Option<String>,
    pub deleted_at: Option<String>,
    pub transcript: Option<String>,
    pub summary: Option<String>,
    pub individual_transcripts: Option<String>,
}

} // verus!

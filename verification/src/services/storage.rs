//! Settings of the application layer.
//!
//! Settings are persisted by the application layer as a small document;
//! the rule for substituting a default output folder when none is
//! configured lives here.

use vstd::prelude::*;

verus! {

/// The user's configuration.
#[derive(Debug)]
pub struct Settings {
    /// Base address of the remote transcription service.
    pub scriberr_url: String,
    /// Credential sent with every request to the remote service.
    pub api_key: String,
    /// Folder that finished recordings are written to.
    pub output_path: String,
    /// When the last delta synchronization finished.
    pub last_sync_timestamp: Option<String>,
}

impl Settings {
    /// These settings with the default output folder substituted when
    /// none is configured; configured settings pass through unchanged.
    pub fn with_default_output(self, default_output: String) -> (r: Settings)
        ensures
            r.output_path@ == if self.output_path@.len() == 0 {
                default_output@
            } else {
                self.output_path@
            },
            r.scriberr_url == self.scriberr_url,
            r.api_key == self.api_key,
            r.last_sync_timestamp == self.last_sync_timestamp,
    {
        if self.output_path.as_str().is_empty() {
            Settings { output_path: default_output, ..self }
        } else {
            self
        }
    }
}

} // verus!

//! The records a recording session leaves behind, as handed to the storage
//! collaborator: plain snapshots of a session and of a folder grouping
//! sessions. Persistence itself is outside the pipeline.

use vstd::prelude::*;

verus! {

/// A stored recording session.
#[derive(Clone, Debug)]
pub struct SessionRecord {
    /// The session's unique identifier.
    pub id: String,
    /// The session's title.
    pub title: String,
    /// When the session was recorded.
    pub date: String,
    /// Length of the recording, in seconds.
    pub duration: i32,
    /// The transcript, once transcription has produced one.
    pub transcript: Option<String>,
    /// The summary, once one has been generated.
    pub summary: Option<String>,
    /// Auxiliary artifacts attached to the session.
    pub artifacts: Option<String>,
    /// The folder the session is filed under, if any.
    pub folder_id: Option<String>,
    /// When the record was created.
    pub created_at: String,
    /// When the record was last updated.
    pub updated_at: String,
}

/// A folder grouping stored sessions.
#[derive(Clone, Debug)]
pub struct FolderRecord {
    /// The folder's unique identifier.
    pub id: String,
    /// The folder's unique name.
    pub name: String,
    /// When the folder was created.
    pub created_at: String,
    /// When the folder was last updated.
    pub updated_at: String,
}

} // verus!

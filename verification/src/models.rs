//! Plain records that the library hands to the user interface.

use vstd::prelude::*;

verus! {

/// Progress of a background import, as reported while it runs.
pub struct AnalyzePayload {
    pub status: String,
    pub progress: String,
    pub is_running: bool,
}

/// One previewable table or view in the database browser's list.
pub struct DbTableSummary {
    pub name: String,
    pub label: String,
    pub description: String,
    pub storage: String,
    pub is_view: bool,
}

/// The display metadata of one column of a preview.
pub struct DbColumnMeta {
    pub name: String,
    pub label: String,
    pub description: String,
}

/// One page of a table preview with its metadata.
pub struct TableData {
    pub name: String,
    pub label: String,
    pub description: String,
    pub storage: String,
    pub columns: Vec<DbColumnMeta>,
    pub rows: Vec<Vec<String>>,
    pub total_rows: u32,
}

/// What the log viewer learns when a stream starts.
pub struct LogViewerMeta {
    pub session_id: String,
    pub archive_name: String,
    pub source_name: String,
}

/// One batch of classified log lines sent to the viewer.
///
/// Levels: 0 plain, 1 info, 2 warning, 3 error, 4 debug.
/// Categories: 0 plain, 1 world, 2 notification, 3 player join,
/// 4 player ready, 5 player left, 6 debug or system, 7 video link.
pub struct LogViewerChunk {
    pub session_id: String,
    pub timestamps: Vec<String>,
    pub levels: Vec<u8>,
    pub categories: Vec<u8>,
    pub raw_lines: Vec<String>,
    pub highlights: Vec<Option<String>>,
}

/// An archive offered in the archive picker.
pub struct ArchiveFileItem {
    pub name: String,
    pub size_bytes: u64,
}

/// A source log that is already archived and may be deleted.
pub struct DeletableLogInfo {
    pub file_name: String,
    pub size_bytes: u64,
}

} // verus!

//! Progress events emitted while model weights download.

use vstd::prelude::*;

verus! {

/// One step of a repository download, as reported to the frontend.
#[derive(Debug, PartialEq, Eq)]
pub enum DownloadProgressPayload {
    RepoDiscovered { repo_id: String, num_files: usize, total_bytes: u64 },
    FileStarted { repo_id: String, path: String, total_bytes: Option<u64> },
    BytesTransferred { repo_id: String, path: String, bytes: u64 },
    FileCompleted { repo_id: String, path: String },
    FileFailed { repo_id: String, path: String, error: String },
    Completed { repo_id: String, files_downloaded: usize, bytes_downloaded: u64 },
}

} // verus!

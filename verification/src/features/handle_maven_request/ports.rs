//! What the Maven repository requests read from their ports (artifact
//! store, repository manager, permission checker), and the errors the
//! ports report.

use vstd::prelude::*;

verus! {

/// Errors of reading artifacts and repositories.
#[derive(Debug)]
pub enum MavenReadError {
    NotFound(String),
    StorageError(String),
    PermissionDenied(String),
    RepositoryNotFound(String),
}

/// Errors of writing artifacts.
#[derive(Debug)]
pub enum MavenWriteError {
    WriteFailed(String),
    StorageError(String),
    PermissionDenied(String),
    AlreadyExists(String),
    RepositoryNotFound(String),
    OverwriteNotAllowed(String),
}

/// Metadata of a stored artifact.
#[derive(Debug, Clone)]
pub struct ArtifactMetadata {
    pub content_length: usize,
    pub content_type: String,
    pub last_modified: String,
    pub etag: String,
}

/// A repository and what it accepts.
#[derive(Debug, Clone)]
pub struct RepositoryInfo {
    pub id: String,
    pub name: String,
    pub repository_type: String,
    pub allow_snapshots: bool,
    pub allow_releases: bool,
}

} // verus!

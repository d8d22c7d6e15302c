//! Requests and responses of the Maven repository requests.

use vstd::prelude::*;
use crate::domain::MavenCoordinates;

verus! {

/// Request to read an artifact.
#[derive(Debug, Clone)]
pub struct MavenGetArtifactRequest {
    pub coordinates: MavenCoordinates,
    pub repository_id: String,
}

/// An artifact's content and metadata.
#[derive(Debug, Clone)]
pub struct MavenGetArtifactResponse {
    pub content: Vec<u8>,
    pub content_type: String,
    pub content_length: usize,
    pub last_modified: Option<String>,
    pub etag: Option<String>,
}

/// Request to upload an artifact.
#[derive(Debug, Clone)]
pub struct MavenPutArtifactRequest {
    pub coordinates: MavenCoordinates,
    pub content: Vec<u8>,
    pub content_type: String,
    pub repository_id: String,
    pub overwrite: bool,
}

/// The outcome of an upload.
#[derive(Debug, Clone)]
pub struct MavenPutArtifactResponse {
    pub success: bool,
    pub message: String,
    pub artifact_path: String,
    pub size_bytes: usize,
}

/// Request to probe an artifact.
#[derive(Debug, Clone)]
pub struct MavenHeadArtifactRequest {
    pub coordinates: MavenCoordinates,
    pub repository_id: String,
}

/// Whether an artifact exists, with its metadata when it does.
#[derive(Debug, Clone)]
pub struct MavenHeadArtifactResponse {
    pub exists: bool,
    pub content_length: Option<usize>,
    pub last_modified: Option<String>,
    pub etag: Option<String>,
}

/// Request to list the artifacts of a group.
#[derive(Debug, Clone)]
pub struct MavenListArtifactsRequest {
    pub group_id: String,
    pub repository_id: String,
    pub recursive: bool,
}

/// An artifact of a listing.
#[derive(Debug, Clone)]
pub struct MavenArtifactInfo {
    pub coordinates: MavenCoordinates,
    pub size_bytes: usize,
    pub last_modified: String,
}

/// A listing of artifacts.
#[derive(Debug, Clone)]
pub struct MavenListArtifactsResponse {
    pub artifacts: Vec<MavenArtifactInfo>,
    pub total_count: usize,
}

} // verus!

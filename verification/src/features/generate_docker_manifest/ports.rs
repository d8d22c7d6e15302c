//! What the manifest generation feature reads from and hands to its ports
//! (layer lister, generator and cache), and the errors each port reports.

use vstd::prelude::*;
use super::dto::DockerManifestDto;

verus! {

/// A layer of an image as stored.
#[derive(Debug, Clone)]
pub struct DockerLayerInfo {
    pub digest: String,
    pub size: u64,
    pub media_type: String,
    pub urls: Option<Vec<String>>,
}

/// The container configuration of an image as stored.
#[derive(Debug, Clone)]
pub struct DockerConfigInfo {
    pub digest: String,
    pub size: u64,
    pub media_type: String,
    pub content: Vec<u8>,
}

/// A manifest kept in the cache, with its digest.
#[derive(Debug, Clone)]
pub struct CachedDockerManifest {
    pub manifest: DockerManifestDto,
    pub digest: String,
    pub generated_at: String,
    pub media_type: String,
}

/// Errors of the manifest generator.
#[derive(Debug)]
pub enum DockerManifestGenerationError {
    GenerationFailed { reason: String },
    InvalidLayerConfig { reason: String },
    InvalidConfig { reason: String },
    UnsupportedVersion { version: String },
    Internal(String),
}

/// Errors of the layer listing.
#[derive(Debug)]
pub enum DockerLayerListingError {
    RepositoryNotFound { repository: String },
    TagNotFound { tag: String },
    NoLayersFound { repository: String, tag: String },
    StorageError(String),
    Internal(String),
}

/// Errors of the configuration retrieval.
#[derive(Debug)]
pub enum DockerConfigRetrievalError {
    RepositoryNotFound { repository: String },
    TagNotFound { tag: String },
    ConfigNotFound { repository: String, tag: String },
    StorageError(String),
    Internal(String),
}

/// Errors of the manifest cache.
#[derive(Debug)]
pub enum DockerCacheError {
    StorageError(String),
    SerializationError(String),
    CacheUnavailable,
    Internal(String),
}

} // verus!

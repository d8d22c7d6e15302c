//! Errors of the ports of the Maven metadata feature (generator, artifact
//! lister and cache), and their conversion into the feature's error.

use vstd::prelude::*;
use vstd::std_specs::convert::FromSpecImpl;
use super::dto::MavenMetadataError;

verus! {

/// Errors of the metadata generator.
#[derive(Debug)]
pub enum MavenMetadataGeneratorError {
    RepositoryNotFound { repository_id: String },
    ArtifactNotFound { coordinates: String },
    InvalidCoordinates { coordinates: String },
    StorageError { message: String },
    XmlGenerationError { message: String },
    InternalError { message: String },
    /// The artifact has no version to describe.
    NoVersionsAvailable { coordinates: String },
}

/// Errors of the artifact lister.
#[derive(Debug)]
pub enum MavenArtifactListerError {
    RepositoryNotFound { repository_id: String },
    StorageError { message: String },
    NetworkError { message: String },
    InternalError { message: String },
    /// No version of the artifact is stored in the repository.
    ArtifactNotFound { coordinates: String, repository_id: String },
    /// The document store could not be queried.
    DatabaseError { message: String },
}

/// Errors of the metadata cache.
#[derive(Debug)]
pub enum MavenMetadataCacheError {
    CacheError { message: String },
    SerializationError { message: String },
    InternalError { message: String },
}

/// Each generator error becomes the feature error of the same name.
pub open spec fn from_generator_error(e: MavenMetadataGeneratorError) -> MavenMetadataError {
    match e {
        MavenMetadataGeneratorError::RepositoryNotFound { repository_id } => MavenMetadataError::RepositoryNotFound { repository_id },
        MavenMetadataGeneratorError::ArtifactNotFound { coordinates } => MavenMetadataError::ArtifactNotFound { coordinates },
        MavenMetadataGeneratorError::InvalidCoordinates { coordinates } => MavenMetadataError::InvalidCoordinates { coordinates },
        MavenMetadataGeneratorError::StorageError { message } => MavenMetadataError::StorageError { message },
        MavenMetadataGeneratorError::XmlGenerationError { message } => MavenMetadataError::XmlGenerationError { message },
        MavenMetadataGeneratorError::InternalError { message } => MavenMetadataError::InternalError { message },
        MavenMetadataGeneratorError::NoVersionsAvailable { coordinates } => MavenMetadataError::ArtifactNotFound { coordinates },
    }
}

/// Each lister error becomes the feature error of the same name.
pub open spec fn from_lister_error(e: MavenArtifactListerError) -> MavenMetadataError {
    match e {
        MavenArtifactListerError::RepositoryNotFound { repository_id } => MavenMetadataError::RepositoryNotFound { repository_id },
        MavenArtifactListerError::StorageError { message } => MavenMetadataError::StorageError { message },
        MavenArtifactListerError::NetworkError { message } => MavenMetadataError::NetworkError { message },
        MavenArtifactListerError::InternalError { message } => MavenMetadataError::InternalError { message },
        MavenArtifactListerError::ArtifactNotFound { coordinates, .. } => MavenMetadataError::ArtifactNotFound { coordinates },
        MavenArtifactListerError::DatabaseError { message } => MavenMetadataError::StorageError { message },
    }
}

/// A cache error becomes a cache error; serialization and internal errors
/// become internal errors.
pub open spec fn from_cache_error(e: MavenMetadataCacheError) -> MavenMetadataError {
    match e {
        MavenMetadataCacheError::CacheError { message } => MavenMetadataError::CacheError { message },
        MavenMetadataCacheError::SerializationError { message } => MavenMetadataError::InternalError { message },
        MavenMetadataCacheError::InternalError { message } => MavenMetadataError::InternalError { message },
    }
}

impl From<MavenMetadataGeneratorError> for MavenMetadataError {
    fn from(error: MavenMetadataGeneratorError) -> (r: Self) {
        match error {
            MavenMetadataGeneratorError::RepositoryNotFound { repository_id } => MavenMetadataError::RepositoryNotFound { repository_id },
            MavenMetadataGeneratorError::ArtifactNotFound { coordinates } => MavenMetadataError::ArtifactNotFound { coordinates },
            MavenMetadataGeneratorError::InvalidCoordinates { coordinates } => MavenMetadataError::InvalidCoordinates { coordinates },
            MavenMetadataGeneratorError::StorageError { message } => MavenMetadataError::StorageError { message },
            MavenMetadataGeneratorError::XmlGenerationError { message } => MavenMetadataError::XmlGenerationError { message },
            MavenMetadataGeneratorError::InternalError { message } => MavenMetadataError::InternalError { message },
            MavenMetadataGeneratorError::NoVersionsAvailable { coordinates } => MavenMetadataError::ArtifactNotFound { coordinates },
        }
    }
}

impl FromSpecImpl<MavenMetadataGeneratorError> for MavenMetadataError {
    open spec fn obeys_from_spec() -> bool {
        true
    }

    open spec fn from_spec(v: MavenMetadataGeneratorError) -> Self {
        from_generator_error(v)
    }
}

impl From<MavenArtifactListerError> for MavenMetadataError {
    fn from(error: MavenArtifactListerError) -> (r: Self) {
        match error {
            MavenArtifactListerError::RepositoryNotFound { repository_id } => MavenMetadataError::RepositoryNotFound { repository_id },
            MavenArtifactListerError::StorageError { message } => MavenMetadataError::StorageError { message },
            MavenArtifactListerError::NetworkError { message } => MavenMetadataError::NetworkError { message },
            MavenArtifactListerError::InternalError { message } => MavenMetadataError::InternalError { message },
            MavenArtifactListerError::ArtifactNotFound { coordinates, .. } => MavenMetadataError::ArtifactNotFound { coordinates },
            MavenArtifactListerError::DatabaseError { message } => MavenMetadataError::StorageError { message },
        }
    }
}

impl FromSpecImpl<MavenArtifactListerError> for MavenMetadataError {
    open spec fn obeys_from_spec() -> bool {
        true
    }

    open spec fn from_spec(v: MavenArtifactListerError) -> Self {
        from_lister_error(v)
    }
}

impl From<MavenMetadataCacheError> for MavenMetadataError {
    fn from(error: MavenMetadataCacheError) -> (r: Self) {
        match error {
            MavenMetadataCacheError::CacheError { message } => MavenMetadataError::CacheError { message },
            MavenMetadataCacheError::SerializationError { message } => MavenMetadataError::InternalError { message },
            MavenMetadataCacheError::InternalError { message } => MavenMetadataError::InternalError { message },
        }
    }
}

impl FromSpecImpl<MavenMetadataCacheError> for MavenMetadataError {
    open spec fn obeys_from_spec() -> bool {
        true
    }

    open spec fn from_spec(v: MavenMetadataCacheError) -> Self {
        from_cache_error(v)
    }
}

} // verus!

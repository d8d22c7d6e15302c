//! The HTTP face of the Maven metadata feature: how a request is built
//! from the path, and with which status and label each error is answered.

use vstd::prelude::*;
use crate::domain::{valid_maven_id, valid_maven_version, MavenCoordinates};
use crate::text::concat3;
use super::dto::{metadata_error_message, GenerateMavenMetadataRequest, MavenMetadataError};
use super::use_case::GenerateMavenMetadataUseCase;

verus! {

/// The answer to an error: HTTP status, label and message.
pub struct ErrorAnswer {
    pub status: u16,
    pub error: String,
    pub message: String,
}

/// The status and label with which an error of a generation request is
/// answered.
pub open spec fn generation_error_label(e: MavenMetadataError) -> (u16, Seq<char>) {
    match e {
        MavenMetadataError::ArtifactNotFound { .. } => (404, "Artifact not found"@),
        MavenMetadataError::InvalidCoordinates { .. } => (400, "Invalid coordinates"@),
        MavenMetadataError::CacheError { .. } => (500, "Cache error"@),
        _ => (500, "Internal server error"@),
    }
}

/// The status and label with which an error of an artifact cache
/// invalidation is answered.
pub open spec fn invalidation_error_label(e: MavenMetadataError) -> (u16, Seq<char>) {
    match e {
        MavenMetadataError::InvalidCoordinates { .. } => (400, "Invalid coordinates"@),
        MavenMetadataError::CacheError { .. } => (500, "Cache error"@),
        _ => (500, "Internal server error"@),
    }
}

/// The status and label with which an error of a repository cache
/// invalidation is answered.
pub open spec fn repository_invalidation_error_label(e: MavenMetadataError) -> (u16, Seq<char>) {
    match e {
        MavenMetadataError::CacheError { .. } => (500, "Cache error"@),
        _ => (500, "Internal server error"@),
    }
}

fn answer(status: u16, label: &str, e: &MavenMetadataError) -> (r: ErrorAnswer)
    ensures
        r.status == status,
        r.error@ == label@,
        r.message@ == metadata_error_message(*e),
{
    ErrorAnswer { status, error: label.to_owned(), message: e.message() }
}

/// The metadata API over its use case.
pub struct GenerateMavenMetadataApi {
    pub use_case: GenerateMavenMetadataUseCase,
}

impl GenerateMavenMetadataApi {
    pub fn new(use_case: GenerateMavenMetadataUseCase) -> (r: Self)
        ensures
            r.use_case == use_case,
    {
        GenerateMavenMetadataApi { use_case }
    }

    /// The request for an artifact named by its path: its coordinates carry
    /// version "1.0.0"; refused ids are `InvalidCoordinates` of
    /// "group:artifact".
    pub fn request_for(
        &self,
        repository_id: String,
        group_id: &str,
        artifact_id: &str,
        force_regenerate: bool,
    ) -> (r: Result<GenerateMavenMetadataRequest, MavenMetadataError>)
        ensures
            r is Ok <==> valid_maven_id(group_id@) && valid_maven_id(artifact_id@) && valid_maven_version("1.0.0"@),
            r matches Ok(req) ==> req.coordinates.group_id@ == group_id@ && req.coordinates.artifact_id@
                == artifact_id@ && req.coordinates.version.value@ == "1.0.0"@ && req.repository_id
                == repository_id && req.force_regenerate == force_regenerate,
            r matches Err(e) ==> (e matches MavenMetadataError::InvalidCoordinates { coordinates: c } && c@
                == group_id@ + ":"@ + artifact_id@),
    {
        match MavenCoordinates::new(group_id, artifact_id, "1.0.0") {
            Ok(coordinates) => Ok(GenerateMavenMetadataRequest { coordinates, repository_id, force_regenerate }),
            Err(_) => Err(
                MavenMetadataError::InvalidCoordinates { coordinates: concat3(group_id, ":", artifact_id) },
            ),
        }
    }

    /// The answer to an error of a generation request.
    pub fn generation_error_answer(e: &MavenMetadataError) -> (r: ErrorAnswer)
        ensures
            (r.status, r.error@) == generation_error_label(*e),
            r.message@ == metadata_error_message(*e),
    {
        match e {
            MavenMetadataError::ArtifactNotFound { .. } => answer(404, "Artifact not found", e),
            MavenMetadataError::InvalidCoordinates { .. } => answer(400, "Invalid coordinates", e),
            MavenMetadataError::CacheError { .. } => answer(500, "Cache error", e),
            _ => answer(500, "Internal server error", e),
        }
    }

    /// The answer to an error of an artifact cache invalidation.
    pub fn invalidation_error_answer(e: &MavenMetadataError) -> (r: ErrorAnswer)
        ensures
            (r.status, r.error@) == invalidation_error_label(*e),
            r.message@ == metadata_error_message(*e),
    {
        match e {
            MavenMetadataError::InvalidCoordinates { .. } => answer(400, "Invalid coordinates", e),
            MavenMetadataError::CacheError { .. } => answer(500, "Cache error", e),
            _ => answer(500, "Internal server error", e),
        }
    }

    /// The answer to an error of a repository cache invalidation.
    pub fn repository_invalidation_error_answer(e: &MavenMetadataError) -> (r: ErrorAnswer)
        ensures
            (r.status, r.error@) == repository_invalidation_error_label(*e),
            r.message@ == metadata_error_message(*e),
    {
        match e {
            MavenMetadataError::CacheError { .. } => answer(500, "Cache error", e),
            _ => answer(500, "Internal server error", e),
        }
    }
}

} // verus!

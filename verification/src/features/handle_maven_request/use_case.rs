//! The decisions of the Maven repository requests: which request is refused
//! before any port is asked, how the repository, permission and existence
//! checks are answered, the repository's snapshot and release policy, and
//! what the responses hold. The caller asks each port in turn and hands
//! each outcome back.

use vstd::prelude::*;
use vstd::std_specs::convert::FromSpecImpl;
use crate::domain::{
    coordinates_error_matches, coordinates_path, is_snapshot_version, valid_coordinates,
    validate_maven_coordinates, MavenCoordinates, MavenValidationError,
};
use crate::text::{concat3, str_in};
use super::dto::{
    MavenGetArtifactRequest, MavenGetArtifactResponse, MavenHeadArtifactRequest,
    MavenHeadArtifactResponse, MavenPutArtifactRequest, MavenPutArtifactResponse,
};
use super::ports::{ArtifactMetadata, MavenReadError, MavenWriteError, RepositoryInfo};

verus! {

/// Errors of reading an artifact.
#[derive(Debug)]
pub enum MavenGetError {
    InvalidCoordinates(MavenValidationError),
    RepositoryNotFound(String),
    ArtifactNotFound(String),
    PermissionDenied,
    ReadFailed(MavenReadError),
}

/// Errors of uploading an artifact.
#[derive(Debug)]
pub enum MavenPutError {
    InvalidCoordinates(MavenValidationError),
    InvalidContentType(String),
    RepositoryNotFound(String),
    PermissionDenied,
    SnapshotsNotAllowed,
    ReleasesNotAllowed,
    WriteFailed(MavenWriteError),
    /// Reading the repository failed.
    ReadFailed(MavenReadError),
}

/// Errors of probing an artifact.
#[derive(Debug)]
pub enum MavenHeadError {
    InvalidCoordinates(MavenValidationError),
    RepositoryNotFound(String),
    PermissionDenied,
    ReadFailed(MavenReadError),
}

/// The text of coordinates: "group:artifact:version".
pub open spec fn coordinates_text(c: MavenCoordinates) -> Seq<char> {
    c.group_id@ + ":"@ + c.artifact_id@ + ":"@ + c.version.value@
}

/// The content types an upload may have.
pub open spec fn accepted_content_type(t: Seq<char>) -> bool {
    ||| t == "application/java-archive"@
    ||| t == "application/xml"@
    ||| t == "text/xml"@
    ||| t == "application/octet-stream"@
}

/// Whether a repository accepts an artifact of these coordinates: a
/// snapshot needs a repository that allows snapshots, a release one that
/// allows releases.
pub open spec fn policy_allows(c: MavenCoordinates, info: RepositoryInfo) -> bool {
    if is_snapshot_version(c.version.value@) {
        info.allow_snapshots
    } else {
        info.allow_releases
    }
}

/// Reading an artifact.
pub struct HandleMavenGetArtifactUseCase {}

impl HandleMavenGetArtifactUseCase {
    pub fn new() -> (r: Self) {
        HandleMavenGetArtifactUseCase {  }
    }

    /// Checks the coordinates.
    pub fn check(&self, request: &MavenGetArtifactRequest) -> (r: Result<(), MavenGetError>)
        ensures
            r is Ok <==> valid_coordinates(request.coordinates),
            r matches Err(e) ==> (e matches MavenGetError::InvalidCoordinates(v) && coordinates_error_matches(
                v,
                request.coordinates.group_id@,
                request.coordinates.artifact_id@,
                request.coordinates.version.value@,
            )),
    {
        match validate_maven_coordinates(&request.coordinates) {
            Ok(()) => Ok(()),
            Err(e) => Err(MavenGetError::InvalidCoordinates(e)),
        }
    }

    /// The answer to whether the repository exists.
    pub fn on_repository_exists(&self, request: &MavenGetArtifactRequest, outcome: Result<bool, MavenReadError>) -> (r:
        Result<(), MavenGetError>)
        ensures
            match outcome {
                Ok(true) => r is Ok,
                Ok(false) => r matches Err(MavenGetError::RepositoryNotFound(id)) && id@ == request.repository_id@,
                Err(e) => r == Err::<(), MavenGetError>(MavenGetError::ReadFailed(e)),
            },
    {
        match outcome {
            Ok(true) => Ok(()),
            Ok(false) => Err(MavenGetError::RepositoryNotFound(request.repository_id.as_str().to_owned())),
            Err(e) => Err(MavenGetError::ReadFailed(e)),
        }
    }

    /// The answer to the read permission check.
    pub fn on_permission(&self, outcome: Result<bool, MavenReadError>) -> (r: Result<(), MavenGetError>)
        ensures
            match outcome {
                Ok(true) => r is Ok,
                Ok(false) => r == Err::<(), MavenGetError>(MavenGetError::PermissionDenied),
                Err(e) => r == Err::<(), MavenGetError>(MavenGetError::ReadFailed(e)),
            },
    {
        match outcome {
            Ok(true) => Ok(()),
            Ok(false) => Err(MavenGetError::PermissionDenied),
            Err(e) => Err(MavenGetError::ReadFailed(e)),
        }
    }

    /// The answer to whether the artifact exists.
    pub fn on_artifact_exists(&self, request: &MavenGetArtifactRequest, outcome: Result<bool, MavenReadError>) -> (r:
        Result<(), MavenGetError>)
        ensures
            match outcome {
                Ok(true) => r is Ok,
                Ok(false) => r matches Err(MavenGetError::ArtifactNotFound(c)) && c@ == coordinates_text(
                    request.coordinates,
                ),
                Err(e) => r == Err::<(), MavenGetError>(MavenGetError::ReadFailed(e)),
            },
    {
        match outcome {
            Ok(true) => Ok(()),
            Ok(false) => Err(MavenGetError::ArtifactNotFound(request.coordinates.to_string())),
            Err(e) => Err(MavenGetError::ReadFailed(e)),
        }
    }

    /// The content read, or the answer to the reader's error.
    pub fn on_content(&self, outcome: Result<Vec<u8>, MavenReadError>) -> (r: Result<Vec<u8>, MavenGetError>)
        ensures
            match outcome {
                Ok(c) => r == Ok::<Vec<u8>, MavenGetError>(c),
                Err(e) => r == Err::<Vec<u8>, MavenGetError>(MavenGetError::ReadFailed(e)),
            },
    {
        match outcome {
            Ok(c) => Ok(c),
            Err(e) => Err(MavenGetError::ReadFailed(e)),
        }
    }

    /// The response from the content and the metadata read: the length
    /// given is that of the content returned.
    pub fn on_metadata(&self, content: Vec<u8>, outcome: Result<ArtifactMetadata, MavenReadError>) -> (r: Result<
        MavenGetArtifactResponse,
        MavenGetError,
    >)
        ensures
            match outcome {
                Ok(m) => r == Ok::<MavenGetArtifactResponse, MavenGetError>(
                    MavenGetArtifactResponse {
                        content,
                        content_type: m.content_type,
                        content_length: content.len(),
                        last_modified: Some(m.last_modified),
                        etag: Some(m.etag),
                    },
                ),
                Err(e) => r == Err::<MavenGetArtifactResponse, MavenGetError>(MavenGetError::ReadFailed(e)),
            },
    {
        match outcome {
            Ok(m) => {
                let content_length = content.len();
                Ok(
                    MavenGetArtifactResponse {
                        content,
                        content_type: m.content_type,
                        content_length,
                        last_modified: Some(m.last_modified),
                        etag: Some(m.etag),
                    },
                )
            },
            Err(e) => Err(MavenGetError::ReadFailed(e)),
        }
    }
}

/// Uploading an artifact.
pub struct HandleMavenPutArtifactUseCase {}

impl HandleMavenPutArtifactUseCase {
    pub fn new() -> (r: Self) {
        HandleMavenPutArtifactUseCase {  }
    }

    /// Checks that the content type is one an upload may have.
    pub fn validate_content_type(&self, content_type: &str) -> (r: Result<(), MavenPutError>)
        ensures
            r is Ok <==> accepted_content_type(content_type@),
            r matches Err(e) ==> (e matches MavenPutError::InvalidContentType(t) && t@ == content_type@),
    {
        let accepted = ["application/java-archive", "application/xml", "text/xml", "application/octet-stream"];
        if str_in(content_type, &accepted) {
            Ok(())
        } else {
            Err(MavenPutError::InvalidContentType(content_type.to_owned()))
        }
    }

    /// Checks the coordinates, then the content type.
    pub fn check(&self, request: &MavenPutArtifactRequest) -> (r: Result<(), MavenPutError>)
        ensures
            r is Ok <==> valid_coordinates(request.coordinates) && accepted_content_type(request.content_type@),
            !valid_coordinates(request.coordinates) ==> (r matches Err(MavenPutError::InvalidCoordinates(v))
                && coordinates_error_matches(
                v,
                request.coordinates.group_id@,
                request.coordinates.artifact_id@,
                request.coordinates.version.value@,
            )),
            valid_coordinates(request.coordinates) && !accepted_content_type(request.content_type@) ==> (r matches Err(
                MavenPutError::InvalidContentType(t),
            ) && t@ == request.content_type@),
    {
        match validate_maven_coordinates(&request.coordinates) {
            Ok(()) => self.validate_content_type(request.content_type.as_str()),
            Err(e) => Err(MavenPutError::InvalidCoordinates(e)),
        }
    }

    /// The answer to whether the repository exists.
    pub fn on_repository_exists(&self, request: &MavenPutArtifactRequest, outcome: Result<bool, MavenReadError>) -> (r:
        Result<(), MavenPutError>)
        ensures
            match outcome {
                Ok(true) => r is Ok,
                Ok(false) => r matches Err(MavenPutError::RepositoryNotFound(id)) && id@ == request.repository_id@,
                Err(e) => r == Err::<(), MavenPutError>(MavenPutError::ReadFailed(e)),
            },
    {
        match outcome {
            Ok(true) => Ok(()),
            Ok(false) => Err(MavenPutError::RepositoryNotFound(request.repository_id.as_str().to_owned())),
            Err(e) => Err(MavenPutError::ReadFailed(e)),
        }
    }

    /// The answer to the write permission check.
    pub fn on_permission(&self, outcome: Result<bool, MavenWriteError>) -> (r: Result<(), MavenPutError>)
        ensures
            match outcome {
                Ok(true) => r is Ok,
                Ok(false) => r == Err::<(), MavenPutError>(MavenPutError::PermissionDenied),
                Err(e) => r == Err::<(), MavenPutError>(MavenPutError::WriteFailed(e)),
            },
    {
        match outcome {
            Ok(true) => Ok(()),
            Ok(false) => Err(MavenPutError::PermissionDenied),
            Err(e) => Err(MavenPutError::WriteFailed(e)),
        }
    }

    /// The answer to the repository's policy: a snapshot into a repository
    /// without snapshots, or a release into one without releases, is
    /// refused.
    pub fn on_repository_info(&self, request: &MavenPutArtifactRequest, outcome: Result<RepositoryInfo, MavenReadError>) -> (r:
        Result<(), MavenPutError>)
        ensures
            match outcome {
                Ok(info) => if policy_allows(request.coordinates, info) {
                    r is Ok
                } else if is_snapshot_version(request.coordinates.version.value@) {
                    r == Err::<(), MavenPutError>(MavenPutError::SnapshotsNotAllowed)
                } else {
                    r == Err::<(), MavenPutError>(MavenPutError::ReleasesNotAllowed)
                },
                Err(e) => r == Err::<(), MavenPutError>(MavenPutError::ReadFailed(e)),
            },
    {
        match outcome {
            Err(e) => Err(MavenPutError::ReadFailed(e)),
            Ok(info) => {
                if request.coordinates.is_snapshot() && !info.allow_snapshots {
                    return Err(MavenPutError::SnapshotsNotAllowed);
                }
                if request.coordinates.is_release() && !info.allow_releases {
                    return Err(MavenPutError::ReleasesNotAllowed);
                }
                Ok(())
            },
        }
    }

    /// The response once the artifact was written: its path in the
    /// repository, its size, and a message naming the coordinates.
    pub fn on_written(&self, request: &MavenPutArtifactRequest, outcome: Result<(), MavenWriteError>) -> (r: Result<
        MavenPutArtifactResponse,
        MavenPutError,
    >)
        ensures
            match outcome {
                Ok(()) => r matches Ok(resp) && resp.success && resp.message@ == "Artifact "@ + coordinates_text(
                    request.coordinates,
                ) + " uploaded successfully"@ && resp.artifact_path@ == coordinates_path(request.coordinates)
                    && resp.size_bytes == request.content@.len(),
                Err(e) => r == Err::<MavenPutArtifactResponse, MavenPutError>(MavenPutError::WriteFailed(e)),
            },
    {
        match outcome {
            Err(e) => Err(MavenPutError::WriteFailed(e)),
            Ok(()) => {
                let text = request.coordinates.to_string();
                Ok(
                    MavenPutArtifactResponse {
                        success: true,
                        message: concat3("Artifact ", text.as_str(), " uploaded successfully"),
                        artifact_path: request.coordinates.to_path(),
                        size_bytes: request.content.len(),
                    },
                )
            },
        }
    }
}

/// Probing an artifact.
pub struct HandleMavenHeadArtifactUseCase {}

impl HandleMavenHeadArtifactUseCase {
    pub fn new() -> (r: Self) {
        HandleMavenHeadArtifactUseCase {  }
    }

    /// Checks the coordinates.
    pub fn check(&self, request: &MavenHeadArtifactRequest) -> (r: Result<(), MavenHeadError>)
        ensures
            r is Ok <==> valid_coordinates(request.coordinates),
            r matches Err(e) ==> (e matches MavenHeadError::InvalidCoordinates(v) && coordinates_error_matches(
                v,
                request.coordinates.group_id@,
                request.coordinates.artifact_id@,
                request.coordinates.version.value@,
            )),
    {
        match validate_maven_coordinates(&request.coordinates) {
            Ok(()) => Ok(()),
            Err(e) => Err(MavenHeadError::InvalidCoordinates(e)),
        }
    }

    /// The answer to whether the repository exists.
    pub fn on_repository_exists(&self, request: &MavenHeadArtifactRequest, outcome: Result<bool, MavenReadError>) -> (r:
        Result<(), MavenHeadError>)
        ensures
            match outcome {
                Ok(true) => r is Ok,
                Ok(false) => r matches Err(MavenHeadError::RepositoryNotFound(id)) && id@ == request.repository_id@,
                Err(e) => r == Err::<(), MavenHeadError>(MavenHeadError::ReadFailed(e)),
            },
    {
        match outcome {
            Ok(true) => Ok(()),
            Ok(false) => Err(MavenHeadError::RepositoryNotFound(request.repository_id.as_str().to_owned())),
            Err(e) => Err(MavenHeadError::ReadFailed(e)),
        }
    }

    /// The answer to the read permission check.
    pub fn on_permission(&self, outcome: Result<bool, MavenReadError>) -> (r: Result<(), MavenHeadError>)
        ensures
            match outcome {
                Ok(true) => r is Ok,
                Ok(false) => r == Err::<(), MavenHeadError>(MavenHeadError::PermissionDenied),
                Err(e) => r == Err::<(), MavenHeadError>(MavenHeadError::ReadFailed(e)),
            },
    {
        match outcome {
            Ok(true) => Ok(()),
            Ok(false) => Err(MavenHeadError::PermissionDenied),
            Err(e) => Err(MavenHeadError::ReadFailed(e)),
        }
    }

    /// The answer to whether the artifact exists: a missing artifact is
    /// answered at once, with no metadata; an existing one needs its
    /// metadata next (`None`).
    pub fn on_artifact_exists(&self, outcome: Result<bool, MavenReadError>) -> (r: Option<
        Result<MavenHeadArtifactResponse, MavenHeadError>,
    >)
        ensures
            match outcome {
                Ok(true) => r is None,
                Ok(false) => r == Some(
                    Ok::<MavenHeadArtifactResponse, MavenHeadError>(
                        MavenHeadArtifactResponse {
                            exists: false,
                            content_length: None,
                            last_modified: None,
                            etag: None,
                        },
                    ),
                ),
                Err(e) => r == Some(Err::<MavenHeadArtifactResponse, MavenHeadError>(MavenHeadError::ReadFailed(e))),
            },
    {
        match outcome {
            Ok(true) => None,
            Ok(false) => Some(
                Ok(MavenHeadArtifactResponse { exists: false, content_length: None, last_modified: None, etag: None }),
            ),
            Err(e) => Some(Err(MavenHeadError::ReadFailed(e))),
        }
    }

    /// The response for an existing artifact from its metadata.
    pub fn on_metadata(&self, outcome: Result<ArtifactMetadata, MavenReadError>) -> (r: Result<
        MavenHeadArtifactResponse,
        MavenHeadError,
    >)
        ensures
            match outcome {
                Ok(m) => r == Ok::<MavenHeadArtifactResponse, MavenHeadError>(
                    MavenHeadArtifactResponse {
                        exists: true,
                        content_length: Some(m.content_length),
                        last_modified: Some(m.last_modified),
                        etag: Some(m.etag),
                    },
                ),
                Err(e) => r == Err::<MavenHeadArtifactResponse, MavenHeadError>(MavenHeadError::ReadFailed(e)),
            },
    {
        match outcome {
            Ok(m) => Ok(
                MavenHeadArtifactResponse {
                    exists: true,
                    content_length: Some(m.content_length),
                    last_modified: Some(m.last_modified),
                    etag: Some(m.etag),
                },
            ),
            Err(e) => Err(MavenHeadError::ReadFailed(e)),
        }
    }
}

/// A repository that allows both snapshots and releases accepts every
/// artifact; one that allows neither accepts none; otherwise exactly the
/// artifacts of the allowed kind are accepted.
pub proof fn law_repository_policy(c: MavenCoordinates, info: RepositoryInfo)
    ensures
        info.allow_snapshots && info.allow_releases ==> policy_allows(c, info),
        !info.allow_snapshots && !info.allow_releases ==> !policy_allows(c, info),
        policy_allows(c, info) <==> (if is_snapshot_version(c.version.value@) {
            info.allow_snapshots
        } else {
            info.allow_releases
        }),
{
}

impl From<MavenReadError> for MavenGetError {
    fn from(error: MavenReadError) -> (r: Self) {
        MavenGetError::ReadFailed(error)
    }
}

impl FromSpecImpl<MavenReadError> for MavenGetError {
    open spec fn obeys_from_spec() -> bool {
        true
    }

    open spec fn from_spec(v: MavenReadError) -> Self {
        MavenGetError::ReadFailed(v)
    }
}

impl From<MavenReadError> for MavenHeadError {
    fn from(error: MavenReadError) -> (r: Self) {
        MavenHeadError::ReadFailed(error)
    }
}

impl FromSpecImpl<MavenReadError> for MavenHeadError {
    open spec fn obeys_from_spec() -> bool {
        true
    }

    open spec fn from_spec(v: MavenReadError) -> Self {
        MavenHeadError::ReadFailed(v)
    }
}

impl From<MavenWriteError> for MavenPutError {
    fn from(error: MavenWriteError) -> (r: Self) {
        MavenPutError::WriteFailed(error)
    }
}

impl FromSpecImpl<MavenWriteError> for MavenPutError {
    open spec fn obeys_from_spec() -> bool {
        true
    }

    open spec fn from_spec(v: MavenWriteError) -> Self {
        MavenPutError::WriteFailed(v)
    }
}

/// Uploads are accepted for exactly four content types: a Java archive,
/// XML (`application/xml` or `text/xml`, for POMs and metadata) and raw
/// bytes.
pub proof fn law_accepted_content_types(t: Seq<char>)
    ensures
        accepted_content_type("application/java-archive"@),
        accepted_content_type("application/xml"@),
        accepted_content_type("text/xml"@),
        accepted_content_type("application/octet-stream"@),
        accepted_content_type(t) ==> (t == "application/java-archive"@ || t == "application/xml"@ || t == "text/xml"@
            || t == "application/octet-stream"@),
{
}

} // verus!

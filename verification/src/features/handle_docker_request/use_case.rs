//! The decisions of the Docker Registry API requests: which request is
//! refused before any port is asked, how a permission check is answered,
//! how each port error becomes an API error, and what the responses hold.
//! For each request the caller checks it, asks the permission checker,
//! performs the operation on its port, and hands each outcome back.

use vstd::prelude::*;
use crate::text::{concat2, concat3, concat5, decimal, decimal_text, seq_starts_with, str_starts_with};
use super::dto::{
    api_error_status, digest_problem, repository_name_problem, tag_problem, validate_docker_digest,
    validate_docker_repository_name, validate_docker_tag, CompleteBlobUploadRequest,
    CompleteBlobUploadResponse, DeleteManifestRequest, DeleteManifestResponse, DockerApiError,
    DockerBlobInfo, DockerManifest, DockerManifestInfo, DockerManifestMediaType, DockerUploadSession,
    GetBlobRequest, GetBlobResponse, GetManifestRequest, GetManifestResponse, HeadManifestRequest,
    HeadManifestResponse, PutBlobRequest, PutBlobResponse, PutManifestRequest, PutManifestResponse,
    StartBlobUploadRequest, StartBlobUploadResponse,
};
use super::ports::{
    blob_reader_message, blob_writer_message, manifest_reader_message, manifest_writer_message,
    permission_message, DockerBlobReaderError, DockerBlobWriterError, DockerManifestReaderError,
    DockerManifestWriterError, DockerPermissionError,
};

verus! {

/// The largest blob accepted in one upload: 100 MiB.
pub const MAX_BLOB_SIZE: u64 = 100 * 1024 * 1024;

/// The answer to a repository name check.
pub open spec fn name_check(name: Seq<char>, r: Result<(), DockerApiError>) -> bool {
    match repository_name_problem(name) {
        Some(p) => r matches Err(DockerApiError::InvalidManifest(m)) && m@ == p,
        None => r is Ok,
    }
}

/// The answer to a digest check, once the name passed.
pub open spec fn digest_check(digest: Seq<char>, r: Result<(), DockerApiError>) -> bool {
    match digest_problem(digest) {
        Some(p) => r matches Err(DockerApiError::InvalidDigest(m)) && m@ == p,
        None => r is Ok,
    }
}

/// The answer to a check of a repository name and a manifest reference: a
/// reference that starts with "sha256:" is checked as a digest, any other
/// as a tag.
pub open spec fn name_and_reference_check(name: Seq<char>, reference: Seq<char>, r: Result<(), DockerApiError>) -> bool {
    if repository_name_problem(name) is Some {
        name_check(name, r)
    } else if seq_starts_with(reference, "sha256:"@) {
        digest_check(reference, r)
    } else {
        match tag_problem(reference) {
            Some(p) => r matches Err(DockerApiError::InvalidManifest(m)) && m@ == p,
            None => r is Ok,
        }
    }
}

/// The answer to a check of a repository name and a blob digest.
pub open spec fn name_and_digest_check(name: Seq<char>, digest: Seq<char>, r: Result<(), DockerApiError>) -> bool {
    if repository_name_problem(name) is Some {
        name_check(name, r)
    } else {
        digest_check(digest, r)
    }
}

/// The answer to a permission check: a failing checker and a refusal are
/// both `Forbidden`, the refusal naming the user, the action and the
/// repository.
pub open spec fn permission_answer(
    outcome: Result<bool, DockerPermissionError>,
    user: Seq<char>,
    repository: Seq<char>,
    action: Seq<char>,
    r: Result<(), DockerApiError>,
) -> bool {
    match outcome {
        Err(e) => r matches Err(DockerApiError::Forbidden(m)) && m@ == permission_message(e),
        Ok(false) => r matches Err(DockerApiError::Forbidden(m)) && m@ == "User "@ + user + " "@ + action
            + " repository "@ + repository,
        Ok(true) => r is Ok,
    }
}

/// How a manifest read error is answered.
pub open spec fn manifest_read_answer(e: DockerManifestReaderError, repository: Seq<char>, reference: Seq<char>, r: DockerApiError) -> bool {
    match e {
        DockerManifestReaderError::NotFound { .. } => r matches DockerApiError::ManifestNotFound(m) && m@
            == repository + "/"@ + reference,
        DockerManifestReaderError::RepositoryNotFound(_) => r matches DockerApiError::RepositoryNotFound(m) && m@ == repository,
        DockerManifestReaderError::PermissionDenied(_) => r matches DockerApiError::Forbidden(m) && m@ == "Permission denied"@,
        _ => r matches DockerApiError::InternalServerError(m) && m@ == manifest_reader_message(e),
    }
}

/// How a blob read error is answered.
pub open spec fn blob_read_answer(e: DockerBlobReaderError, repository: Seq<char>, digest: Seq<char>, r: DockerApiError) -> bool {
    match e {
        DockerBlobReaderError::NotFound { .. } => r matches DockerApiError::BlobNotFound(m) && m@ == repository
            + "/"@ + digest,
        DockerBlobReaderError::RepositoryNotFound(_) => r matches DockerApiError::RepositoryNotFound(m) && m@ == repository,
        DockerBlobReaderError::PermissionDenied(_) => r matches DockerApiError::Forbidden(m) && m@ == "Permission denied"@,
        _ => r matches DockerApiError::InternalServerError(m) && m@ == blob_reader_message(e),
    }
}

/// The content type of a manifest by its schema.
pub open spec fn manifest_content_type(m: DockerManifest) -> DockerManifestMediaType {
    match m {
        DockerManifest::V2(_) => DockerManifestMediaType::ManifestV2,
        DockerManifest::V1(_) => DockerManifestMediaType::ManifestV1,
    }
}

/// The location of a manifest: `/v2/{repository}/manifests/{reference}`.
pub open spec fn manifest_location(repository: Seq<char>, reference: Seq<char>) -> Seq<char> {
    "/v2/"@ + repository + "/manifests/"@ + reference
}

/// The location of a blob: `/v2/{repository}/blobs/{digest}`.
pub open spec fn blob_location(repository: Seq<char>, digest: Seq<char>) -> Seq<char> {
    "/v2/"@ + repository + "/blobs/"@ + digest
}

/// The location of an upload session: `/v2/{repository}/blobs/uploads/{uuid}`.
pub open spec fn upload_location(repository: Seq<char>, uuid: Seq<char>) -> Seq<char> {
    "/v2/"@ + repository + "/blobs/uploads/"@ + uuid
}

fn check_name_and_reference(name: &str, reference: &str) -> (r: Result<(), DockerApiError>)
    ensures
        name_and_reference_check(name@, reference@, r),
{
    validate_docker_repository_name(name)?;
    if str_starts_with(reference, "sha256:") {
        validate_docker_digest(reference)
    } else {
        validate_docker_tag(reference)
    }
}

fn check_name_and_digest(name: &str, digest: &str) -> (r: Result<(), DockerApiError>)
    ensures
        name_and_digest_check(name@, digest@, r),
{
    validate_docker_repository_name(name)?;
    validate_docker_digest(digest)
}

fn permission_outcome(
    outcome: Result<bool, DockerPermissionError>,
    user: &str,
    repository: &str,
    action: &str,
) -> (r: Result<(), DockerApiError>)
    ensures
        permission_answer(outcome, user@, repository@, action@, r),
{
    match outcome {
        Err(e) => Err(DockerApiError::Forbidden(e.message())),
        Ok(false) => {
            let head = concat5("User ", user, " ", action, " repository ");
            Err(DockerApiError::Forbidden(concat2(head.as_str(), repository)))
        },
        Ok(true) => Ok(()),
    }
}

fn map_manifest_read_error(e: DockerManifestReaderError, repository: &str, reference: &str) -> (r: DockerApiError)
    ensures
        manifest_read_answer(e, repository@, reference@, r),
{
    match e {
        DockerManifestReaderError::NotFound { .. } => DockerApiError::ManifestNotFound(concat3(repository, "/", reference)),
        DockerManifestReaderError::RepositoryNotFound(_) => DockerApiError::RepositoryNotFound(repository.to_owned()),
        DockerManifestReaderError::PermissionDenied(_) => DockerApiError::Forbidden("Permission denied".to_owned()),
        _ => DockerApiError::InternalServerError(e.message()),
    }
}

fn map_blob_read_error(e: DockerBlobReaderError, repository: &str, digest: &str) -> (r: DockerApiError)
    ensures
        blob_read_answer(e, repository@, digest@, r),
{
    match e {
        DockerBlobReaderError::NotFound { .. } => DockerApiError::BlobNotFound(concat3(repository, "/", digest)),
        DockerBlobReaderError::RepositoryNotFound(_) => DockerApiError::RepositoryNotFound(repository.to_owned()),
        DockerBlobReaderError::PermissionDenied(_) => DockerApiError::Forbidden("Permission denied".to_owned()),
        _ => DockerApiError::InternalServerError(e.message()),
    }
}

/// Reading a manifest.
pub struct HandleDockerGetManifestUseCase {}

impl HandleDockerGetManifestUseCase {
    pub fn new() -> (r: Self) {
        HandleDockerGetManifestUseCase {  }
    }

    /// Checks the repository name and the reference.
    pub fn check(&self, request: &GetManifestRequest) -> (r: Result<(), DockerApiError>)
        ensures
            name_and_reference_check(request.repository_name@, request.reference@, r),
    {
        check_name_and_reference(request.repository_name.as_str(), request.reference.as_str())
    }

    /// The answer to the read permission check.
    pub fn on_permission(&self, request: &GetManifestRequest, outcome: Result<bool, DockerPermissionError>) -> (r:
        Result<(), DockerApiError>)
        ensures
            permission_answer(outcome, request.user_id@, request.repository_name@, "cannot read from"@, r),
    {
        permission_outcome(outcome, request.user_id.as_str(), request.repository_name.as_str(), "cannot read from")
    }

    /// The manifest read, or the answer to the reader's error.
    pub fn on_manifest(
        &self,
        request: &GetManifestRequest,
        outcome: Result<DockerManifest, DockerManifestReaderError>,
    ) -> (r: Result<DockerManifest, DockerApiError>)
        ensures
            match outcome {
                Ok(m) => r == Ok::<DockerManifest, DockerApiError>(m),
                Err(e) => r matches Err(a) && manifest_read_answer(e, request.repository_name@, request.reference@, a),
            },
    {
        match outcome {
            Ok(m) => Ok(m),
            Err(e) => Err(map_manifest_read_error(e, request.repository_name.as_str(), request.reference.as_str())),
        }
    }

    /// The response for a manifest and its JSON text: the content type by
    /// its schema, the length of the JSON text, and "sha256:" followed by the
    /// reference as digest; a failed serialization is an internal error.
    pub fn respond(
        &self,
        request: &GetManifestRequest,
        manifest: DockerManifest,
        json: Result<Vec<u8>, String>,
    ) -> (r: Result<GetManifestResponse, DockerApiError>)
        ensures
            match json {
                Err(m) => r == Err::<GetManifestResponse, DockerApiError>(DockerApiError::InternalServerError(m)),
                Ok(bytes) => r matches Ok(resp) && resp.manifest == manifest && resp.content_type
                    == manifest_content_type(manifest) && resp.content_length == bytes@.len()
                    && resp.digest@ == "sha256:"@ + request.reference@ && resp.docker_content_digest@
                    == resp.digest@,
            },
    {
        match json {
            Err(m) => Err(DockerApiError::InternalServerError(m)),
            Ok(bytes) => {
                let content_type = match &manifest {
                    DockerManifest::V2(_) => DockerManifestMediaType::ManifestV2,
                    DockerManifest::V1(_) => DockerManifestMediaType::ManifestV1,
                };
                let digest = concat2("sha256:", request.reference.as_str());
                let docker_content_digest = concat2("sha256:", request.reference.as_str());
                let content_length = bytes.len() as u64;
                Ok(GetManifestResponse { manifest, content_type, digest, content_length, docker_content_digest })
            },
        }
    }
}

/// Writing a manifest.
pub struct HandleDockerPutManifestUseCase {}

impl HandleDockerPutManifestUseCase {
    pub fn new() -> (r: Self) {
        HandleDockerPutManifestUseCase {  }
    }

    /// Checks the repository name and the reference.
    pub fn check(&self, request: &PutManifestRequest) -> (r: Result<(), DockerApiError>)
        ensures
            name_and_reference_check(request.repository_name@, request.reference@, r),
    {
        check_name_and_reference(request.repository_name.as_str(), request.reference.as_str())
    }

    /// The answer to the write permission check.
    pub fn on_permission(&self, request: &PutManifestRequest, outcome: Result<bool, DockerPermissionError>) -> (r:
        Result<(), DockerApiError>)
        ensures
            permission_answer(outcome, request.user_id@, request.repository_name@, "cannot write to"@, r),
    {
        permission_outcome(outcome, request.user_id.as_str(), request.repository_name.as_str(), "cannot write to")
    }

    /// The response once the writer stored the manifest under a digest.
    pub fn on_put(&self, request: &PutManifestRequest, outcome: Result<String, DockerManifestWriterError>) -> (r:
        Result<PutManifestResponse, DockerApiError>)
        ensures
            match outcome {
                Ok(d) => r matches Ok(resp) && resp.docker_content_digest == d && resp.location@
                    == manifest_location(request.repository_name@, request.reference@),
                Err(e) => r matches Err(a) && match e {
                    DockerManifestWriterError::AlreadyExists { .. } => a matches DockerApiError::InternalServerError(m)
                        && m@ == "Manifest already exists"@,
                    DockerManifestWriterError::RepositoryNotFound(_) => a matches DockerApiError::RepositoryNotFound(m)
                        && m@ == request.repository_name@,
                    DockerManifestWriterError::PermissionDenied(_) => a matches DockerApiError::Forbidden(m) && m@
                        == "Permission denied"@,
                    DockerManifestWriterError::InvalidFormat(_) => a matches DockerApiError::InvalidManifest(m) && m@
                        == "Invalid manifest format"@,
                    _ => a matches DockerApiError::InternalServerError(m) && m@ == manifest_writer_message(e),
                },
            },
    {
        match outcome {
            Ok(d) => {
                let head = concat3("/v2/", request.repository_name.as_str(), "/manifests/");
                Ok(
                    PutManifestResponse {
                        location: concat2(head.as_str(), request.reference.as_str()),
                        docker_content_digest: d,
                    },
                )
            },
            Err(e) => Err(
                match e {
                    DockerManifestWriterError::AlreadyExists { .. } => DockerApiError::InternalServerError(
                        "Manifest already exists".to_owned(),
                    ),
                    DockerManifestWriterError::RepositoryNotFound(_) => DockerApiError::RepositoryNotFound(
                        request.repository_name.as_str().to_owned(),
                    ),
                    DockerManifestWriterError::PermissionDenied(_) => DockerApiError::Forbidden("Permission denied".to_owned()),
                    DockerManifestWriterError::InvalidFormat(_) => DockerApiError::InvalidManifest(
                        "Invalid manifest format".to_owned(),
                    ),
                    _ => DockerApiError::InternalServerError(e.message()),
                },
            ),
        }
    }
}

/// Reading a manifest's metadata.
pub struct HandleDockerHeadManifestUseCase {}

impl HandleDockerHeadManifestUseCase {
    pub fn new() -> (r: Self) {
        HandleDockerHeadManifestUseCase {  }
    }

    /// Checks the repository name and the reference.
    pub fn check(&self, request: &HeadManifestRequest) -> (r: Result<(), DockerApiError>)
        ensures
            name_and_reference_check(request.repository_name@, request.reference@, r),
    {
        check_name_and_reference(request.repository_name.as_str(), request.reference.as_str())
    }

    /// The answer to the read permission check.
    pub fn on_permission(&self, request: &HeadManifestRequest, outcome: Result<bool, DockerPermissionError>) -> (r:
        Result<(), DockerApiError>)
        ensures
            permission_answer(outcome, request.user_id@, request.repository_name@, "cannot read from"@, r),
    {
        permission_outcome(outcome, request.user_id.as_str(), request.repository_name.as_str(), "cannot read from")
    }

    /// The response from the manifest's metadata.
    pub fn on_manifest_info(
        &self,
        request: &HeadManifestRequest,
        outcome: Result<DockerManifestInfo, DockerManifestReaderError>,
    ) -> (r: Result<HeadManifestResponse, DockerApiError>)
        ensures
            match outcome {
                Ok(info) => r == Ok::<HeadManifestResponse, DockerApiError>(
                    HeadManifestResponse {
                        content_length: info.size,
                        docker_content_digest: info.digest,
                        content_type: info.media_type,
                    },
                ),
                Err(e) => r matches Err(a) && manifest_read_answer(e, request.repository_name@, request.reference@, a),
            },
    {
        match outcome {
            Ok(info) => Ok(
                HeadManifestResponse {
                    content_length: info.size,
                    docker_content_digest: info.digest,
                    content_type: info.media_type,
                },
            ),
            Err(e) => Err(map_manifest_read_error(e, request.repository_name.as_str(), request.reference.as_str())),
        }
    }
}

/// Deleting a manifest.
pub struct HandleDockerDeleteManifestUseCase {}

impl HandleDockerDeleteManifestUseCase {
    pub fn new() -> (r: Self) {
        HandleDockerDeleteManifestUseCase {  }
    }

    /// Checks the repository name and the reference.
    pub fn check(&self, request: &DeleteManifestRequest) -> (r: Result<(), DockerApiError>)
        ensures
            name_and_reference_check(request.repository_name@, request.reference@, r),
    {
        check_name_and_reference(request.repository_name.as_str(), request.reference.as_str())
    }

    /// The answer to the delete permission check.
    pub fn on_permission(&self, request: &DeleteManifestRequest, outcome: Result<bool, DockerPermissionError>) -> (r:
        Result<(), DockerApiError>)
        ensures
            permission_answer(outcome, request.user_id@, request.repository_name@, "cannot delete from"@, r),
    {
        permission_outcome(outcome, request.user_id.as_str(), request.repository_name.as_str(), "cannot delete from")
    }

    /// The response once the writer deleted the manifest.
    pub fn on_delete(&self, request: &DeleteManifestRequest, outcome: Result<(), DockerManifestWriterError>) -> (r:
        Result<DeleteManifestResponse, DockerApiError>)
        ensures
            match outcome {
                Ok(()) => r == Ok::<DeleteManifestResponse, DockerApiError>(DeleteManifestResponse { success: true }),
                Err(e) => r matches Err(a) && match e {
                    DockerManifestWriterError::RepositoryNotFound(_) => a matches DockerApiError::RepositoryNotFound(m)
                        && m@ == request.repository_name@,
                    DockerManifestWriterError::PermissionDenied(_) => a matches DockerApiError::Forbidden(m) && m@
                        == "Permission denied"@,
                    _ => a matches DockerApiError::InternalServerError(m) && m@ == manifest_writer_message(e),
                },
            },
    {
        match outcome {
            Ok(()) => Ok(DeleteManifestResponse { success: true }),
            Err(e) => Err(
                match e {
                    DockerManifestWriterError::RepositoryNotFound(_) => DockerApiError::RepositoryNotFound(
                        request.repository_name.as_str().to_owned(),
                    ),
                    DockerManifestWriterError::PermissionDenied(_) => DockerApiError::Forbidden("Permission denied".to_owned()),
                    _ => DockerApiError::InternalServerError(e.message()),
                },
            ),
        }
    }
}

/// Reading a blob.
pub struct HandleDockerGetBlobUseCase {}

impl HandleDockerGetBlobUseCase {
    pub fn new() -> (r: Self) {
        HandleDockerGetBlobUseCase {  }
    }

    /// Checks the repository name and the digest.
    pub fn check(&self, request: &GetBlobRequest) -> (r: Result<(), DockerApiError>)
        ensures
            name_and_digest_check(request.repository_name@, request.digest@, r),
    {
        check_name_and_digest(request.repository_name.as_str(), request.digest.as_str())
    }

    /// The answer to the read permission check.
    pub fn on_permission(&self, request: &GetBlobRequest, outcome: Result<bool, DockerPermissionError>) -> (r:
        Result<(), DockerApiError>)
        ensures
            permission_answer(outcome, request.user_id@, request.repository_name@, "cannot read from"@, r),
    {
        permission_outcome(outcome, request.user_id.as_str(), request.repository_name.as_str(), "cannot read from")
    }

    /// The blob's metadata, or the answer to the reader's error.
    pub fn on_blob_info(&self, request: &GetBlobRequest, outcome: Result<DockerBlobInfo, DockerBlobReaderError>) -> (r:
        Result<DockerBlobInfo, DockerApiError>)
        ensures
            match outcome {
                Ok(info) => r == Ok::<DockerBlobInfo, DockerApiError>(info),
                Err(e) => r matches Err(a) && blob_read_answer(e, request.repository_name@, request.digest@, a),
            },
    {
        match outcome {
            Ok(info) => Ok(info),
            Err(e) => Err(map_blob_read_error(e, request.repository_name.as_str(), request.digest.as_str())),
        }
    }

    /// The response from the blob's metadata and content.
    pub fn on_blob(
        &self,
        request: &GetBlobRequest,
        info: DockerBlobInfo,
        outcome: Result<Vec<u8>, DockerBlobReaderError>,
    ) -> (r: Result<GetBlobResponse, DockerApiError>)
        ensures
            match outcome {
                Ok(data) => r == Ok::<GetBlobResponse, DockerApiError>(
                    GetBlobResponse {
                        data,
                        digest: info.digest,
                        content_length: info.size,
                        content_type: info.media_type,
                    },
                ),
                Err(e) => r matches Err(a) && blob_read_answer(e, request.repository_name@, request.digest@, a),
            },
    {
        match outcome {
            Ok(data) => Ok(
                GetBlobResponse { data, digest: info.digest, content_length: info.size, content_type: info.media_type },
            ),
            Err(e) => Err(map_blob_read_error(e, request.repository_name.as_str(), request.digest.as_str())),
        }
    }
}

/// The answer to a check of a blob upload: the name, the digest, then the
/// size, which may not exceed `MAX_BLOB_SIZE`.
pub open spec fn put_blob_check(request: PutBlobRequest, r: Result<(), DockerApiError>) -> bool {
    if repository_name_problem(request.repository_name@) is Some || digest_problem(request.digest@) is Some {
        name_and_digest_check(request.repository_name@, request.digest@, r)
    } else if request.content_length > MAX_BLOB_SIZE {
        r == Err::<(), DockerApiError>(DockerApiError::BlobSizeExceeded(request.content_length))
    } else {
        r is Ok
    }
}

/// Uploading a blob in one request.
pub struct HandleDockerPutBlobUseCase {}

impl HandleDockerPutBlobUseCase {
    pub fn new() -> (r: Self) {
        HandleDockerPutBlobUseCase {  }
    }

    /// Checks the repository name, the digest and the size.
    pub fn check(&self, request: &PutBlobRequest) -> (r: Result<(), DockerApiError>)
        ensures
            put_blob_check(*request, r),
    {
        check_name_and_digest(request.repository_name.as_str(), request.digest.as_str())?;
        if request.content_length > MAX_BLOB_SIZE {
            return Err(DockerApiError::BlobSizeExceeded(request.content_length));
        }
        Ok(())
    }

    /// The answer to the write permission check.
    pub fn on_permission(&self, request: &PutBlobRequest, outcome: Result<bool, DockerPermissionError>) -> (r:
        Result<(), DockerApiError>)
        ensures
            permission_answer(outcome, request.user_id@, request.repository_name@, "cannot write to"@, r),
    {
        permission_outcome(outcome, request.user_id.as_str(), request.repository_name.as_str(), "cannot write to")
    }

    /// The response once the writer stored the blob under a digest.
    pub fn on_upload(&self, request: &PutBlobRequest, outcome: Result<String, DockerBlobWriterError>) -> (r: Result<
        PutBlobResponse,
        DockerApiError,
    >)
        ensures
            match outcome {
                Ok(d) => r matches Ok(resp) && resp.docker_content_digest == d && resp.location@ == blob_location(
                    request.repository_name@,
                    request.digest@,
                ),
                Err(e) => r matches Err(a) && match e {
                    DockerBlobWriterError::AlreadyExists { .. } => a matches DockerApiError::InternalServerError(m)
                        && m@ == "Blob already exists"@,
                    DockerBlobWriterError::RepositoryNotFound(_) => a matches DockerApiError::RepositoryNotFound(m)
                        && m@ == request.repository_name@,
                    DockerBlobWriterError::PermissionDenied(_) => a matches DockerApiError::Forbidden(m) && m@
                        == "Permission denied"@,
                    DockerBlobWriterError::InvalidDigest(_) => a matches DockerApiError::InvalidDigest(m) && m@
                        == "Invalid digest format"@,
                    DockerBlobWriterError::SizeExceeded { .. } => a == DockerApiError::BlobSizeExceeded(
                        request.content_length,
                    ),
                    _ => a matches DockerApiError::InternalServerError(m) && m@ == blob_writer_message(e),
                },
            },
    {
        match outcome {
            Ok(d) => {
                let head = concat3("/v2/", request.repository_name.as_str(), "/blobs/");
                Ok(PutBlobResponse { location: concat2(head.as_str(), request.digest.as_str()), docker_content_digest: d })
            },
            Err(e) => Err(
                match e {
                    DockerBlobWriterError::AlreadyExists { .. } => DockerApiError::InternalServerError(
                        "Blob already exists".to_owned(),
                    ),
                    DockerBlobWriterError::RepositoryNotFound(_) => DockerApiError::RepositoryNotFound(
                        request.repository_name.as_str().to_owned(),
                    ),
                    DockerBlobWriterError::PermissionDenied(_) => DockerApiError::Forbidden("Permission denied".to_owned()),
                    DockerBlobWriterError::InvalidDigest(_) => DockerApiError::InvalidDigest("Invalid digest format".to_owned()),
                    DockerBlobWriterError::SizeExceeded { .. } => DockerApiError::BlobSizeExceeded(request.content_length),
                    _ => DockerApiError::InternalServerError(e.message()),
                },
            ),
        }
    }
}

/// Starting a chunked blob upload.
pub struct HandleDockerStartBlobUploadUseCase {}

impl HandleDockerStartBlobUploadUseCase {
    pub fn new() -> (r: Self) {
        HandleDockerStartBlobUploadUseCase {  }
    }

    /// Checks the repository name.
    pub fn check(&self, request: &StartBlobUploadRequest) -> (r: Result<(), DockerApiError>)
        ensures
            name_check(request.repository_name@, r),
    {
        validate_docker_repository_name(request.repository_name.as_str())
    }

    /// The answer to the write permission check.
    pub fn on_permission(&self, request: &StartBlobUploadRequest, outcome: Result<bool, DockerPermissionError>) -> (r:
        Result<(), DockerApiError>)
        ensures
            permission_answer(outcome, request.user_id@, request.repository_name@, "cannot write to"@, r),
    {
        permission_outcome(outcome, request.user_id.as_str(), request.repository_name.as_str(), "cannot write to")
    }

    /// The response from the opened session: its location, its identifier
    /// and the byte range received so far, `0-{offset}`.
    pub fn on_session(
        &self,
        request: &StartBlobUploadRequest,
        outcome: Result<DockerUploadSession, DockerBlobWriterError>,
    ) -> (r: Result<StartBlobUploadResponse, DockerApiError>)
        ensures
            match outcome {
                Ok(s) => r matches Ok(resp) && resp.upload_uuid == s.upload_uuid && resp.upload_location@
                    == upload_location(request.repository_name@, s.upload_uuid@) && resp.range@ == "0-"@ + decimal(
                    s.offset as nat,
                ),
                Err(e) => r matches Err(a) && match e {
                    DockerBlobWriterError::RepositoryNotFound(_) => a matches DockerApiError::RepositoryNotFound(m)
                        && m@ == request.repository_name@,
                    DockerBlobWriterError::PermissionDenied(_) => a matches DockerApiError::Forbidden(m) && m@
                        == "Permission denied"@,
                    _ => a matches DockerApiError::InternalServerError(m) && m@ == blob_writer_message(e),
                },
            },
    {
        match outcome {
            Ok(s) => {
                let head = concat3("/v2/", request.repository_name.as_str(), "/blobs/uploads/");
                let upload_location = concat2(head.as_str(), s.upload_uuid.as_str());
                let offset = decimal_text(s.offset);
                let range = concat2("0-", offset.as_str());
                Ok(StartBlobUploadResponse { upload_location, upload_uuid: s.upload_uuid, range })
            },
            Err(e) => Err(
                match e {
                    DockerBlobWriterError::RepositoryNotFound(_) => DockerApiError::RepositoryNotFound(
                        request.repository_name.as_str().to_owned(),
                    ),
                    DockerBlobWriterError::PermissionDenied(_) => DockerApiError::Forbidden("Permission denied".to_owned()),
                    _ => DockerApiError::InternalServerError(e.message()),
                },
            ),
        }
    }
}

/// Completing a chunked blob upload.
pub struct HandleDockerCompleteBlobUploadUseCase {}

impl HandleDockerCompleteBlobUploadUseCase {
    pub fn new() -> (r: Self) {
        HandleDockerCompleteBlobUploadUseCase {  }
    }

    /// Checks the repository name and the digest.
    pub fn check(&self, request: &CompleteBlobUploadRequest) -> (r: Result<(), DockerApiError>)
        ensures
            name_and_digest_check(request.repository_name@, request.digest@, r),
    {
        check_name_and_digest(request.repository_name.as_str(), request.digest.as_str())
    }

    /// The answer to the write permission check.
    pub fn on_permission(&self, request: &CompleteBlobUploadRequest, outcome: Result<bool, DockerPermissionError>) -> (r:
        Result<(), DockerApiError>)
        ensures
            permission_answer(outcome, request.user_id@, request.repository_name@, "cannot write to"@, r),
    {
        permission_outcome(outcome, request.user_id.as_str(), request.repository_name.as_str(), "cannot write to")
    }

    /// The response once the writer completed the upload under a digest.
    pub fn on_complete(
        &self,
        request: &CompleteBlobUploadRequest,
        outcome: Result<String, DockerBlobWriterError>,
    ) -> (r: Result<CompleteBlobUploadResponse, DockerApiError>)
        ensures
            match outcome {
                Ok(d) => r matches Ok(resp) && resp.docker_content_digest == d && resp.location@ == blob_location(
                    request.repository_name@,
                    request.digest@,
                ) && resp.upload_uuid@ == request.upload_uuid@,
                Err(e) => r matches Err(a) && match e {
                    DockerBlobWriterError::UploadSessionNotFound(_) => a matches DockerApiError::UploadSessionNotFound(m)
                        && m@ == request.upload_uuid@,
                    DockerBlobWriterError::RepositoryNotFound(_) => a matches DockerApiError::RepositoryNotFound(m)
                        && m@ == request.repository_name@,
                    DockerBlobWriterError::PermissionDenied(_) => a matches DockerApiError::Forbidden(m) && m@
                        == "Permission denied"@,
                    DockerBlobWriterError::InvalidDigest(_) => a matches DockerApiError::InvalidDigest(m) && m@
                        == "Invalid digest format"@,
                    _ => a matches DockerApiError::InternalServerError(m) && m@ == blob_writer_message(e),
                },
            },
    {
        match outcome {
            Ok(d) => {
                let head = concat3("/v2/", request.repository_name.as_str(), "/blobs/");
                Ok(
                    CompleteBlobUploadResponse {
                        location: concat2(head.as_str(), request.digest.as_str()),
                        docker_content_digest: d,
                        upload_uuid: request.upload_uuid.as_str().to_owned(),
                    },
                )
            },
            Err(e) => Err(
                match e {
                    DockerBlobWriterError::UploadSessionNotFound(_) => DockerApiError::UploadSessionNotFound(
                        request.upload_uuid.as_str().to_owned(),
                    ),
                    DockerBlobWriterError::RepositoryNotFound(_) => DockerApiError::RepositoryNotFound(
                        request.repository_name.as_str().to_owned(),
                    ),
                    DockerBlobWriterError::PermissionDenied(_) => DockerApiError::Forbidden("Permission denied".to_owned()),
                    DockerBlobWriterError::InvalidDigest(_) => DockerApiError::InvalidDigest("Invalid digest format".to_owned()),
                    _ => DockerApiError::InternalServerError(e.message()),
                },
            ),
        }
    }
}

/// A permission check lets a request through only when the checker
/// granted it; a refusal and a failing checker are both answered 403.
pub proof fn law_only_granted_permission_passes(
    outcome: Result<bool, DockerPermissionError>,
    user: Seq<char>,
    repository: Seq<char>,
    action: Seq<char>,
    r: Result<(), DockerApiError>,
)
    requires
        permission_answer(outcome, user, repository, action, r),
    ensures
        r is Ok <==> outcome == Ok::<bool, DockerPermissionError>(true),
        r matches Err(e) ==> api_error_status(e) == 403,
{
}

/// A blob upload of a valid name and digest is refused with 413 exactly
/// when it is larger than `MAX_BLOB_SIZE`.
pub proof fn law_oversized_blob_is_refused(request: PutBlobRequest, r: Result<(), DockerApiError>)
    requires
        put_blob_check(request, r),
        repository_name_problem(request.repository_name@) is None,
        digest_problem(request.digest@) is None,
    ensures
        r is Err <==> request.content_length > MAX_BLOB_SIZE,
        r matches Err(e) ==> api_error_status(e) == 413,
{
}

/// A manifest reference that starts with "sha256:" is checked as a digest
/// and refused with 400; any other reference is checked as a tag.
pub proof fn law_reference_is_digest_or_tag(name: Seq<char>, reference: Seq<char>, r: Result<(), DockerApiError>)
    requires
        name_and_reference_check(name, reference, r),
        repository_name_problem(name) is None,
    ensures
        seq_starts_with(reference, "sha256:"@) ==> (r is Ok <==> digest_problem(reference) is None),
        !seq_starts_with(reference, "sha256:"@) ==> (r is Ok <==> tag_problem(reference) is None),
        r matches Err(e) ==> api_error_status(e) == 400,
{
}

/// A missing manifest or repository is answered 404, a denied read 403,
/// and any other read failure 500.
pub proof fn law_manifest_read_status(
    e: DockerManifestReaderError,
    repository: Seq<char>,
    reference: Seq<char>,
    a: DockerApiError,
)
    requires
        manifest_read_answer(e, repository, reference, a),
    ensures
        api_error_status(a) == (match e {
            DockerManifestReaderError::NotFound { .. } => 404u16,
            DockerManifestReaderError::RepositoryNotFound(_) => 404u16,
            DockerManifestReaderError::PermissionDenied(_) => 403u16,
            _ => 500u16,
        }),
{
}

/// A served manifest is labelled by its schema: a schema 1 manifest as
/// `ManifestV1`, a schema 2 manifest as `ManifestV2`, so a schema 1 manifest
/// is never labelled as schema 2.
pub proof fn law_served_content_type_follows_schema(manifest: DockerManifest, content_type: DockerManifestMediaType)
    requires
        content_type == manifest_content_type(manifest),
    ensures
        manifest is V1 ==> content_type == DockerManifestMediaType::ManifestV1,
        manifest is V2 ==> content_type == DockerManifestMediaType::ManifestV2,
        manifest is V1 ==> content_type != DockerManifestMediaType::ManifestV2,
{
}

} // verus!

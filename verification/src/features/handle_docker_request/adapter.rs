//! The storage-side logic of the Docker Registry API: where manifests,
//! blobs and upload sessions are stored, the digest of a stored manifest,
//! and the checks and sessions of blob uploads.

use vstd::prelude::*;
use crate::clock::rfc3339_instant;
use crate::digest::{sha256_digest_text, sha256_text};
use crate::text::{concat2, concat3, seq_contains, seq_starts_with, str_contains, str_starts_with};
use super::dto::{DockerBlobInfo, DockerManifestInfo, DockerManifestMediaType, DockerUploadSession};
use super::ports::{DockerBlobReaderError, DockerBlobWriterError, DockerManifestReaderError};
use super::use_case::MAX_BLOB_SIZE;

verus! {

/// The key of a manifest: `docker/{repository}/manifests/{reference}`.
pub open spec fn manifest_key(repository: Seq<char>, reference: Seq<char>) -> Seq<char> {
    "docker/"@ + repository + "/manifests/"@ + reference
}

/// The key of a blob: `docker/{repository}/blobs/{digest}`.
pub open spec fn blob_key(repository: Seq<char>, digest: Seq<char>) -> Seq<char> {
    "docker/"@ + repository + "/blobs/"@ + digest
}

/// The key of an upload session: `docker/{repository}/uploads/{uuid}`.
pub open spec fn upload_key(repository: Seq<char>, uuid: Seq<char>) -> Seq<char> {
    "docker/"@ + repository + "/uploads/"@ + uuid
}

fn key_of(head: &str, repository: &str, middle: &str, tail: &str) -> (r: String)
    ensures
        r@ == head@ + repository@ + middle@ + tail@,
{
    let first = concat3(head, repository, middle);
    concat2(first.as_str(), tail)
}

/// The text form of a UUID: 36 characters, hyphens at 8, 13, 18 and 23,
/// lowercase hexadecimal digits elsewhere.
pub open spec fn uuid_text(s: Seq<char>) -> bool {
    &&& s.len() == 36
    &&& forall|i: int|
        0 <= i < 36 ==> if i == 8 || i == 13 || i == 18 || i == 23 {
            s[i] == '-'
        } else {
            #[trigger] "0123456789abcdef"@.contains(s[i])
        }
}

/// Calls `uuid::Uuid::new_v4()` and formats it with `to_string`, which
/// writes the hyphenated lowercase form. The identifier is random; only its
/// form is stated.
#[verifier::external_body]
fn new_upload_uuid() -> (r: String)
    ensures
        uuid_text(r@),
{
    uuid::Uuid::new_v4().to_string()
}

/// Whether a storage error says that the object does not exist.
pub open spec fn is_missing_object(message: Seq<char>) -> bool {
    seq_contains(message, "NoSuchKey"@)
}

/// What a `HEAD` of a stored object tells.
#[derive(Debug, Clone)]
pub struct ObjectHead {
    pub e_tag: Option<String>,
    pub content_length: i64,
    pub content_type: Option<String>,
    /// RFC 3339 time of the last modification, when the store gave one.
    pub last_modified: Option<String>,
}

/// The answer to an existence check from the store's answer to a `HEAD`:
/// a missing object is `false`, another failure a storage error.
pub open spec fn existence_answer<E>(outcome: Result<(), String>, r: Result<bool, E>, storage_error: spec_fn(String) -> E) -> bool {
    match outcome {
        Ok(()) => r == Ok::<bool, E>(true),
        Err(m) => if is_missing_object(m@) {
            r == Ok::<bool, E>(false)
        } else {
            r == Err::<bool, E>(storage_error(m))
        },
    }
}

/// Reader of manifests kept in an object store bucket.
pub struct S3DockerManifestReader {
    pub bucket_name: String,
}

impl S3DockerManifestReader {
    pub fn new(bucket_name: String) -> (r: Self)
        ensures
            r.bucket_name == bucket_name,
    {
        S3DockerManifestReader { bucket_name }
    }

    pub fn get_manifest_key(&self, repository_name: &str, reference: &str) -> (r: String)
        ensures
            r@ == manifest_key(repository_name@, reference@),
    {
        key_of("docker/", repository_name, "/manifests/", reference)
    }

    /// The error of a failed manifest read: a missing object means the
    /// manifest was not found; any other failure is a storage error.
    pub fn read_error(&self, repository_name: &str, reference: &str, message: String) -> (r: DockerManifestReaderError)
        ensures
            is_missing_object(message@) ==> (r matches DockerManifestReaderError::NotFound { repository, reference: f }
                && repository@ == repository_name@ && f@ == reference@),
            !is_missing_object(message@) ==> r == DockerManifestReaderError::StorageError(message),
    {
        if str_contains(message.as_str(), "NoSuchKey") {
            DockerManifestReaderError::NotFound { repository: repository_name.to_owned(), reference: reference.to_owned() }
        } else {
            DockerManifestReaderError::StorageError(message)
        }
    }

    /// Whether a manifest exists, from the store's answer to a `HEAD`.
    pub fn exists_answer(&self, outcome: Result<(), String>) -> (r: Result<bool, DockerManifestReaderError>)
        ensures
            existence_answer(outcome, r, |m: String| DockerManifestReaderError::StorageError(m)),
    {
        match outcome {
            Ok(()) => Ok(true),
            Err(m) => if str_contains(m.as_str(), "NoSuchKey") {
                Ok(false)
            } else {
                Err(DockerManifestReaderError::StorageError(m))
            },
        }
    }

    /// The metadata of a manifest from its object's `HEAD`: the entity tag
    /// is its digest (a missing one is an invalid format), the content
    /// length its size (taken as unsigned), the last modification (or
    /// `now`) its creation time, and the reference its one tag; the media
    /// type is the Docker V2 manifest type.
    pub fn manifest_info(&self, reference: &str, head: ObjectHead, now: String) -> (r: Result<
        DockerManifestInfo,
        DockerManifestReaderError,
    >)
        ensures
            head.e_tag is None ==> (r matches Err(DockerManifestReaderError::InvalidFormat(m)) && m@ == "Missing ETag"@),
            head.e_tag matches Some(t) ==> (r matches Ok(info) && info.digest == t && info.size == head.content_length as u64
                && info.media_type == DockerManifestMediaType::ManifestV2 && info.created_at == (match head.last_modified {
                Some(l) => l,
                None => now,
            }) && info.tags@.len() == 1 && info.tags@[0]@ == reference@),
    {
        match head.e_tag {
            None => Err(DockerManifestReaderError::InvalidFormat("Missing ETag".to_owned())),
            Some(digest) => {
                let created_at = match head.last_modified {
                    Some(l) => l,
                    None => now,
                };
                let mut tags: Vec<String> = Vec::new();
                tags.push(reference.to_owned());
                Ok(
                    DockerManifestInfo {
                        digest,
                        media_type: DockerManifestMediaType::ManifestV2,
                        size: head.content_length as u64,
                        created_at,
                        tags,
                    },
                )
            },
        }
    }
}

/// Writer of manifests kept in an object store bucket.
pub struct S3DockerManifestWriter {
    pub bucket_name: String,
}

impl S3DockerManifestWriter {
    pub fn new(bucket_name: String) -> (r: Self)
        ensures
            r.bucket_name == bucket_name,
    {
        S3DockerManifestWriter { bucket_name }
    }

    pub fn get_manifest_key(&self, repository_name: &str, reference: &str) -> (r: String)
        ensures
            r@ == manifest_key(repository_name@, reference@),
    {
        key_of("docker/", repository_name, "/manifests/", reference)
    }

    /// The digest under which a manifest is stored, from its JSON text.
    pub fn manifest_digest(&self, manifest_json: &[u8]) -> (r: String)
        ensures
            r@ == sha256_text(manifest_json@),
            r@.len() == 71,
    {
        sha256_digest_text(manifest_json)
    }
}

/// Reader of blobs kept in an object store bucket.
pub struct S3DockerBlobReader {
    pub bucket_name: String,
}

impl S3DockerBlobReader {
    pub fn new(bucket_name: String) -> (r: Self)
        ensures
            r.bucket_name == bucket_name,
    {
        S3DockerBlobReader { bucket_name }
    }

    pub fn get_blob_key(&self, repository_name: &str, digest: &str) -> (r: String)
        ensures
            r@ == blob_key(repository_name@, digest@),
    {
        key_of("docker/", repository_name, "/blobs/", digest)
    }

    /// The error of a failed blob read: a missing object means the blob was
    /// not found; any other failure is a storage error.
    pub fn read_error(&self, repository_name: &str, digest: &str, message: String) -> (r: DockerBlobReaderError)
        ensures
            is_missing_object(message@) ==> (r matches DockerBlobReaderError::NotFound { repository, digest: d }
                && repository@ == repository_name@ && d@ == digest@),
            !is_missing_object(message@) ==> r == DockerBlobReaderError::StorageError(message),
    {
        if str_contains(message.as_str(), "NoSuchKey") {
            DockerBlobReaderError::NotFound { repository: repository_name.to_owned(), digest: digest.to_owned() }
        } else {
            DockerBlobReaderError::StorageError(message)
        }
    }

    /// Whether a blob exists, from the store's answer to a `HEAD`.
    pub fn exists_answer(&self, outcome: Result<(), String>) -> (r: Result<bool, DockerBlobReaderError>)
        ensures
            existence_answer(outcome, r, |m: String| DockerBlobReaderError::StorageError(m)),
    {
        match outcome {
            Ok(()) => Ok(true),
            Err(m) => if str_contains(m.as_str(), "NoSuchKey") {
                Ok(false)
            } else {
                Err(DockerBlobReaderError::StorageError(m))
            },
        }
    }

    /// The metadata of a blob from its object's `HEAD`: the digest asked
    /// for, the content length as size, the content type (by default
    /// `application/octet-stream`) and the last modification (or `now`).
    pub fn blob_info(&self, digest: &str, head: ObjectHead, now: String) -> (r: DockerBlobInfo)
        ensures
            r.digest@ == digest@,
            r.size == head.content_length as u64,
            r.media_type@ == (match head.content_type {
                Some(t) => t@,
                None => "application/octet-stream"@,
            }),
            r.created_at == (match head.last_modified {
                Some(l) => l,
                None => now,
            }),
    {
        let media_type = match head.content_type {
            Some(t) => t,
            None => "application/octet-stream".to_owned(),
        };
        let created_at = match head.last_modified {
            Some(l) => l,
            None => now,
        };
        DockerBlobInfo { digest: digest.to_owned(), size: head.content_length as u64, media_type, created_at }
    }
}

/// Writer of blobs and upload sessions kept in an object store bucket.
pub struct S3DockerBlobWriter {
    pub bucket_name: String,
}

impl S3DockerBlobWriter {
    pub fn new(bucket_name: String) -> (r: Self)
        ensures
            r.bucket_name == bucket_name,
    {
        S3DockerBlobWriter { bucket_name }
    }

    pub fn get_blob_key(&self, repository_name: &str, digest: &str) -> (r: String)
        ensures
            r@ == blob_key(repository_name@, digest@),
    {
        key_of("docker/", repository_name, "/blobs/", digest)
    }

    pub fn get_upload_key(&self, repository_name: &str, upload_uuid: &str) -> (r: String)
        ensures
            r@ == upload_key(repository_name@, upload_uuid@),
    {
        key_of("docker/", repository_name, "/uploads/", upload_uuid)
    }

    /// Checks a blob before it is stored: only SHA-256 digests are
    /// supported, and the blob may not exceed `MAX_BLOB_SIZE`.
    pub fn check_upload(&self, digest: &str, size: u64) -> (r: Result<(), DockerBlobWriterError>)
        ensures
            !seq_starts_with(digest@, "sha256:"@) ==> (r matches Err(DockerBlobWriterError::InvalidDigest(m))
                && m@ == "Only SHA256 digests are supported"@),
            seq_starts_with(digest@, "sha256:"@) && size > MAX_BLOB_SIZE ==> r == Err::<(), DockerBlobWriterError>(
                DockerBlobWriterError::SizeExceeded { size, max: MAX_BLOB_SIZE },
            ),
            seq_starts_with(digest@, "sha256:"@) && size <= MAX_BLOB_SIZE ==> r is Ok,
    {
        if !str_starts_with(digest, "sha256:") {
            return Err(DockerBlobWriterError::InvalidDigest("Only SHA256 digests are supported".to_owned()));
        }
        if size > MAX_BLOB_SIZE {
            return Err(DockerBlobWriterError::SizeExceeded { size, max: MAX_BLOB_SIZE });
        }
        Ok(())
    }

    /// The answer to completing an upload without data, from the store's
    /// answer to a `HEAD` of the session: the digest when the session
    /// exists, `UploadSessionNotFound` when it is missing, a storage error
    /// otherwise.
    pub fn session_answer(&self, upload_uuid: &str, digest: &str, outcome: Result<(), String>) -> (r: Result<
        String,
        DockerBlobWriterError,
    >)
        ensures
            outcome is Ok ==> (r matches Ok(d) && d@ == digest@),
            outcome matches Err(m) ==> (is_missing_object(m@) ==> (r matches Err(
                DockerBlobWriterError::UploadSessionNotFound(u),
            ) && u@ == upload_uuid@)),
            outcome matches Err(m) ==> (!is_missing_object(m@) ==> r == Err::<String, DockerBlobWriterError>(
                DockerBlobWriterError::StorageError(m),
            )),
    {
        match outcome {
            Ok(()) => Ok(digest.to_owned()),
            Err(m) => if str_contains(m.as_str(), "NoSuchKey") {
                Err(DockerBlobWriterError::UploadSessionNotFound(upload_uuid.to_owned()))
            } else {
                Err(DockerBlobWriterError::StorageError(m))
            },
        }
    }

    /// A new upload session of a repository, under the requested identifier
    /// or a new random one; it starts at offset 0, started and not
    /// completed, and expires an hour after its creation.
    pub fn start_session(&self, repository_name: &str, upload_uuid: Option<&str>) -> (r: DockerUploadSession)
        ensures
            r.repository_name@ == repository_name@,
            upload_uuid matches Some(u) ==> r.upload_uuid@ == u@,
            upload_uuid is None ==> uuid_text(r.upload_uuid@),
            r.offset == 0,
            r.started,
            !r.completed,
            rfc3339_instant(r.created_at@) matches Some(a) ==> (rfc3339_instant(r.expires_at@) matches Some(b) ==> (b.0
                == a.0 + 3600 && b.1 == a.1)),
    {
        let uuid = match upload_uuid {
            Some(u) => u.to_owned(),
            None => new_upload_uuid(),
        };
        let (created_at, expires_at) = crate::clock::now_and_later_rfc3339(3600);
        DockerUploadSession {
            upload_uuid: uuid,
            repository_name: repository_name.to_owned(),
            created_at,
            expires_at,
            offset: 0,
            started: true,
            completed: false,
        }
    }
}

} // verus!

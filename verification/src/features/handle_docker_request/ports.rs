//! The errors that the ports of the Docker Registry API (manifest and blob
//! stores, repository manager, permission checker) report, with their
//! messages.

use vstd::prelude::*;
use crate::text::{concat2, concat3, concat5, decimal, decimal_text};

verus! {

/// Errors of the manifest reader.
#[derive(Debug)]
pub enum DockerManifestReaderError {
    NotFound { repository: String, reference: String },
    InvalidFormat(String),
    RepositoryNotFound(String),
    PermissionDenied(String),
    StorageError(String),
    InternalError(String),
}

/// Errors of the manifest writer.
#[derive(Debug)]
pub enum DockerManifestWriterError {
    AlreadyExists { repository: String, reference: String },
    InvalidFormat(String),
    RepositoryNotFound(String),
    PermissionDenied(String),
    StorageError(String),
    InternalError(String),
}

/// Errors of the blob reader.
#[derive(Debug)]
pub enum DockerBlobReaderError {
    NotFound { repository: String, digest: String },
    InvalidDigest(String),
    RepositoryNotFound(String),
    PermissionDenied(String),
    StorageError(String),
    InternalError(String),
}

/// Errors of the blob writer.
#[derive(Debug)]
pub enum DockerBlobWriterError {
    AlreadyExists { repository: String, digest: String },
    UploadSessionNotFound(String),
    InvalidDigest(String),
    SizeExceeded { size: u64, max: u64 },
    RepositoryNotFound(String),
    PermissionDenied(String),
    StorageError(String),
    InternalError(String),
}

/// Errors of the repository manager.
#[derive(Debug)]
pub enum DockerRepositoryManagerError {
    RepositoryNotFound(String),
    InvalidRepositoryName(String),
    PermissionDenied(String),
    StorageError(String),
    InternalError(String),
}

/// Errors of the permission checker.
#[derive(Debug)]
pub enum DockerPermissionError {
    PermissionDenied(String),
    UserNotFound(String),
    RepositoryNotFound(String),
    PolicyEvaluationError(String),
    InternalError(String),
}

pub open spec fn manifest_reader_message(e: DockerManifestReaderError) -> Seq<char> {
    match e {
        DockerManifestReaderError::NotFound { repository, reference } => "Manifest not found: "@ + repository@ + "/"@ + reference@,
        DockerManifestReaderError::InvalidFormat(m) => "Invalid manifest format: "@ + m@,
        DockerManifestReaderError::RepositoryNotFound(m) => "Repository not found: "@ + m@,
        DockerManifestReaderError::PermissionDenied(m) => "Permission denied: "@ + m@,
        DockerManifestReaderError::StorageError(m) => "Storage error: "@ + m@,
        DockerManifestReaderError::InternalError(m) => "Internal error: "@ + m@,
    }
}

pub open spec fn manifest_writer_message(e: DockerManifestWriterError) -> Seq<char> {
    match e {
        DockerManifestWriterError::AlreadyExists { repository, reference } => "Manifest already exists: "@ + repository@ + "/"@ + reference@,
        DockerManifestWriterError::InvalidFormat(m) => "Invalid manifest format: "@ + m@,
        DockerManifestWriterError::RepositoryNotFound(m) => "Repository not found: "@ + m@,
        DockerManifestWriterError::PermissionDenied(m) => "Permission denied: "@ + m@,
        DockerManifestWriterError::StorageError(m) => "Storage error: "@ + m@,
        DockerManifestWriterError::InternalError(m) => "Internal error: "@ + m@,
    }
}

pub open spec fn blob_reader_message(e: DockerBlobReaderError) -> Seq<char> {
    match e {
        DockerBlobReaderError::NotFound { repository, digest } => "Blob not found: "@ + repository@ + "/"@ + digest@,
        DockerBlobReaderError::InvalidDigest(m) => "Invalid digest format: "@ + m@,
        DockerBlobReaderError::RepositoryNotFound(m) => "Repository not found: "@ + m@,
        DockerBlobReaderError::PermissionDenied(m) => "Permission denied: "@ + m@,
        DockerBlobReaderError::StorageError(m) => "Storage error: "@ + m@,
        DockerBlobReaderError::InternalError(m) => "Internal error: "@ + m@,
    }
}

pub open spec fn blob_writer_message(e: DockerBlobWriterError) -> Seq<char> {
    match e {
        DockerBlobWriterError::AlreadyExists { repository, digest } => "Blob already exists: "@ + repository@ + "/"@ + digest@,
        DockerBlobWriterError::UploadSessionNotFound(m) => "Upload session not found: "@ + m@,
        DockerBlobWriterError::InvalidDigest(m) => "Invalid digest format: "@ + m@,
        DockerBlobWriterError::SizeExceeded { size, max } => "Blob size exceeded limit: "@ + decimal(size as nat) + " bytes (max: "@
            + decimal(max as nat) + ")"@,
        DockerBlobWriterError::RepositoryNotFound(m) => "Repository not found: "@ + m@,
        DockerBlobWriterError::PermissionDenied(m) => "Permission denied: "@ + m@,
        DockerBlobWriterError::StorageError(m) => "Storage error: "@ + m@,
        DockerBlobWriterError::InternalError(m) => "Internal error: "@ + m@,
    }
}

pub open spec fn permission_message(e: DockerPermissionError) -> Seq<char> {
    match e {
        DockerPermissionError::PermissionDenied(m) => "Permission denied: "@ + m@,
        DockerPermissionError::UserNotFound(m) => "User not found: "@ + m@,
        DockerPermissionError::RepositoryNotFound(m) => "Repository not found: "@ + m@,
        DockerPermissionError::PolicyEvaluationError(m) => "Policy evaluation error: "@ + m@,
        DockerPermissionError::InternalError(m) => "Internal error: "@ + m@,
    }
}

impl DockerManifestReaderError {
    /// The message of the error.
    pub fn message(&self) -> (r: String)
        ensures
            r@ == manifest_reader_message(*self),
    {
        match self {
            DockerManifestReaderError::NotFound { repository, reference } => {
                let head = concat3("Manifest not found: ", repository.as_str(), "/");
                concat2(head.as_str(), reference.as_str())
            },
            DockerManifestReaderError::InvalidFormat(m) => concat2("Invalid manifest format: ", m.as_str()),
            DockerManifestReaderError::RepositoryNotFound(m) => concat2("Repository not found: ", m.as_str()),
            DockerManifestReaderError::PermissionDenied(m) => concat2("Permission denied: ", m.as_str()),
            DockerManifestReaderError::StorageError(m) => concat2("Storage error: ", m.as_str()),
            DockerManifestReaderError::InternalError(m) => concat2("Internal error: ", m.as_str()),
        }
    }
}

impl DockerManifestWriterError {
    /// The message of the error.
    pub fn message(&self) -> (r: String)
        ensures
            r@ == manifest_writer_message(*self),
    {
        match self {
            DockerManifestWriterError::AlreadyExists { repository, reference } => {
                let head = concat3("Manifest already exists: ", repository.as_str(), "/");
                concat2(head.as_str(), reference.as_str())
            },
            DockerManifestWriterError::InvalidFormat(m) => concat2("Invalid manifest format: ", m.as_str()),
            DockerManifestWriterError::RepositoryNotFound(m) => concat2("Repository not found: ", m.as_str()),
            DockerManifestWriterError::PermissionDenied(m) => concat2("Permission denied: ", m.as_str()),
            DockerManifestWriterError::StorageError(m) => concat2("Storage error: ", m.as_str()),
            DockerManifestWriterError::InternalError(m) => concat2("Internal error: ", m.as_str()),
        }
    }
}

impl DockerBlobReaderError {
    /// The message of the error.
    pub fn message(&self) -> (r: String)
        ensures
            r@ == blob_reader_message(*self),
    {
        match self {
            DockerBlobReaderError::NotFound { repository, digest } => {
                let head = concat3("Blob not found: ", repository.as_str(), "/");
                concat2(head.as_str(), digest.as_str())
            },
            DockerBlobReaderError::InvalidDigest(m) => concat2("Invalid digest format: ", m.as_str()),
            DockerBlobReaderError::RepositoryNotFound(m) => concat2("Repository not found: ", m.as_str()),
            DockerBlobReaderError::PermissionDenied(m) => concat2("Permission denied: ", m.as_str()),
            DockerBlobReaderError::StorageError(m) => concat2("Storage error: ", m.as_str()),
            DockerBlobReaderError::InternalError(m) => concat2("Internal error: ", m.as_str()),
        }
    }
}

impl DockerBlobWriterError {
    /// The message of the error.
    pub fn message(&self) -> (r: String)
        ensures
            r@ == blob_writer_message(*self),
    {
        match self {
            DockerBlobWriterError::AlreadyExists { repository, digest } => {
                let head = concat3("Blob already exists: ", repository.as_str(), "/");
                concat2(head.as_str(), digest.as_str())
            },
            DockerBlobWriterError::UploadSessionNotFound(m) => concat2("Upload session not found: ", m.as_str()),
            DockerBlobWriterError::InvalidDigest(m) => concat2("Invalid digest format: ", m.as_str()),
            DockerBlobWriterError::SizeExceeded { size, max } => {
                let s = decimal_text(*size);
                let m = decimal_text(*max);
                concat5("Blob size exceeded limit: ", s.as_str(), " bytes (max: ", m.as_str(), ")")
            },
            DockerBlobWriterError::RepositoryNotFound(m) => concat2("Repository not found: ", m.as_str()),
            DockerBlobWriterError::PermissionDenied(m) => concat2("Permission denied: ", m.as_str()),
            DockerBlobWriterError::StorageError(m) => concat2("Storage error: ", m.as_str()),
            DockerBlobWriterError::InternalError(m) => concat2("Internal error: ", m.as_str()),
        }
    }
}

impl DockerPermissionError {
    /// The message of the error.
    pub fn message(&self) -> (r: String)
        ensures
            r@ == permission_message(*self),
    {
        match self {
            DockerPermissionError::PermissionDenied(m) => concat2("Permission denied: ", m.as_str()),
            DockerPermissionError::UserNotFound(m) => concat2("User not found: ", m.as_str()),
            DockerPermissionError::RepositoryNotFound(m) => concat2("Repository not found: ", m.as_str()),
            DockerPermissionError::PolicyEvaluationError(m) => concat2("Policy evaluation error: ", m.as_str()),
            DockerPermissionError::InternalError(m) => concat2("Internal error: ", m.as_str()),
        }
    }
}

} // verus!

//! What the npm metadata feature reads from its ports (generator, package
//! lister and cache), and the errors each port reports.

use std::collections::HashMap;
use vstd::prelude::*;
use super::dto::NpmPackageMetadataDto;

verus! {

/// The published information of one version of a package.
#[derive(Debug, Clone)]
pub struct PackageInfo {
    pub name: String,
    pub version: String,
    pub description: Option<String>,
    pub keywords: Option<Vec<String>>,
    pub homepage: Option<String>,
    pub repository: Option<RepositoryInfo>,
    pub author: Option<AuthorInfo>,
    pub license: Option<String>,
    pub dependencies: Option<HashMap<String, String>>,
    pub dev_dependencies: Option<HashMap<String, String>>,
    pub optional_dependencies: Option<HashMap<String, String>>,
    pub peer_dependencies: Option<HashMap<String, String>>,
    pub scripts: Option<HashMap<String, String>>,
    pub main: Option<String>,
    pub bin: Option<BinInfo>,
    pub files: Option<Vec<String>>,
    pub engines: Option<HashMap<String, String>>,
    pub os: Option<Vec<String>>,
    pub cpu: Option<Vec<String>>,
    pub private: Option<bool>,
    pub publish_config: Option<PublishConfigInfo>,
    pub dist_tags: HashMap<String, String>,
    /// RFC 3339 time of publication.
    pub published_at: Option<String>,
    pub dist: Option<DistInfo>,
}

/// Source repository of a package.
#[derive(Debug, Clone)]
pub struct RepositoryInfo {
    pub repo_type: String,
    pub url: String,
    pub directory: Option<String>,
}

/// Author of a package, as a plain string or as an object.
#[derive(Debug, Clone)]
pub enum AuthorInfo {
    String(String),
    Object { name: String, email: Option<String>, url: Option<String> },
}

/// Executables of a package.
#[derive(Debug, Clone)]
pub enum BinInfo {
    Single(String),
    Multiple(HashMap<String, String>),
}

/// Publication settings of a package.
#[derive(Debug, Clone)]
pub struct PublishConfigInfo {
    pub registry: Option<String>,
    pub ignore: Option<Vec<String>>,
    pub included: Option<Vec<String>>,
    pub access: Option<String>,
    pub tag: Option<String>,
}

/// Distribution data of a package version.
#[derive(Debug, Clone)]
pub struct DistInfo {
    pub integrity: Option<String>,
    pub tarball: String,
    pub file_count: Option<u64>,
    pub unpacked_size: Option<u64>,
    pub shasum: Option<String>,
    pub size: Option<u64>,
}

/// Metadata kept in the cache, with the RFC 3339 time it was cached and
/// how long it stays fresh.
#[derive(Debug, Clone)]
pub struct CachedMetadata {
    pub metadata: NpmPackageMetadataDto,
    pub cached_at: String,
    pub ttl_seconds: u64,
}

/// Errors of the metadata generator.
#[derive(Debug)]
pub enum MetadataGeneratorError {
    PackageNotFound { package_name: String },
    InvalidPackageName { name: String },
    GenerationFailed { reason: String },
    RepositoryError(String),
}

/// Errors of the package lister.
#[derive(Debug)]
pub enum PackageListerError {
    PackageNotFound { package_name: String },
    RepositoryNotFound { repository_id: String },
    RepositoryError(String),
}

/// Errors of the metadata cache.
#[derive(Debug)]
pub enum MetadataCacheError {
    CacheError(String),
    SerializationError(String),
    StorageError(String),
}

} // verus!

//! Data carried by the manifest generation feature, and the validation of
//! Docker repository names, tags and manifest media types.

use vstd::prelude::*;
use crate::text::{
    concat2, concat3,
    all_alnum_or, all_alnum_or_any_of, all_parts_have_two_bytes, chars_of, parts_have_two_bytes,
    split_on, str_in, utf8_len, utf8_len_at_most,
};

verus! {

/// Request to generate a Docker manifest.
#[derive(Debug, Clone)]
pub struct GenerateDockerManifestRequest {
    /// Docker repository name (such as "library/nginx").
    pub repository_name: String,
    /// Manifest tag (such as "latest").
    pub tag: String,
    /// Identifier of the repository in the system.
    pub repository_id: String,
    /// Requested media type; the Docker V2.2 manifest type when absent.
    pub media_type: Option<String>,
    /// Ignore any cached manifest.
    pub force_regenerate: bool,
}

/// The generated manifest with its digest.
#[derive(Debug, Clone)]
pub struct GenerateDockerManifestResponse {
    pub manifest: DockerManifestDto,
    /// SHA-256 digest of the manifest, as "sha256:" and 64 hex digits.
    pub digest: String,
    /// RFC 3339 time of generation.
    pub generated_at: String,
    /// Whether the manifest came from the cache.
    pub cache_hit: bool,
    pub media_type: String,
}

/// A Docker manifest of schema version 1 (signed) or 2.
#[derive(Debug, Clone)]
pub enum DockerManifestDto {
    V2_1(DockerManifestV2_1),
    V2_2(DockerManifestV2_2),
}

/// Docker manifest V2, schema 1 (signed).
#[derive(Debug, Clone)]
pub struct DockerManifestV2_1 {
    pub schema_version: u32,
    pub name: String,
    pub tag: String,
    pub architecture: String,
    pub fs_layers: Vec<FsLayer>,
    pub history: Vec<HistoryEntry>,
    pub signatures: Vec<Signature>,
}

/// Docker manifest V2, schema 2.
#[derive(Debug, Clone)]
pub struct DockerManifestV2_2 {
    pub schema_version: u32,
    pub media_type: String,
    pub layers: Vec<Layer>,
    pub config: Config,
}

/// File system layer of a schema 1 manifest.
#[derive(Debug, Clone)]
pub struct FsLayer {
    pub blob_sum: String,
}

/// History entry of a schema 1 manifest.
#[derive(Debug, Clone)]
pub struct HistoryEntry {
    pub v1_compatibility: String,
}

/// Signature of a schema 1 manifest.
#[derive(Debug, Clone)]
pub struct Signature {
    pub header: SignatureHeader,
    pub signature: String,
    pub protected: String,
}

/// Header of a manifest signature.
#[derive(Debug, Clone)]
pub struct SignatureHeader {
    pub alg: String,
    pub jwk: Jwk,
}

/// JSON Web Key of a manifest signature.
#[derive(Debug, Clone)]
pub struct Jwk {
    pub kty: String,
    pub crv: String,
    pub x: String,
    pub y: String,
}

/// Layer of a schema 2 manifest.
#[derive(Debug, Clone)]
pub struct Layer {
    pub media_type: String,
    pub size: u64,
    pub digest: String,
    pub urls: Option<Vec<String>>,
}

/// Container configuration of a schema 2 manifest.
#[derive(Debug, Clone)]
pub struct Config {
    pub media_type: String,
    pub size: u64,
    pub digest: String,
}

/// A manifest list.
#[derive(Debug, Clone)]
pub struct ManifestList {
    pub schema_version: u32,
    pub media_type: String,
    pub manifests: Vec<ManifestDescriptor>,
}

/// Entry of a manifest list.
#[derive(Debug, Clone)]
pub struct ManifestDescriptor {
    pub media_type: String,
    pub size: u64,
    pub digest: String,
    pub platform: Option<Platform>,
}

/// Platform that a manifest list entry targets.
#[derive(Debug, Clone)]
pub struct Platform {
    pub architecture: String,
    pub os: String,
    pub os_version: Option<String>,
    pub variant: Option<String>,
    pub features: Option<Vec<String>>,
}

/// Command that drives the generation of a manifest.
#[derive(Debug, Clone)]
pub struct GenerateDockerManifestCommand {
    pub repository_name: String,
    pub tag: String,
    pub repository_id: String,
    pub media_type: Option<String>,
    pub force_regenerate: bool,
}

/// Errors of the manifest generation feature.
#[derive(Debug)]
pub enum GenerateDockerManifestError {
    InvalidRepositoryName { name: String },
    InvalidTag { tag: String },
    ManifestNotFound { repository: String, tag: String },
    ManifestGenerationFailed { reason: String },
    RepositoryError(String),
    CacheError(String),
    UnsupportedMediaType { media_type: String },
    PermissionDenied { repository: String },
}

/// Characters allowed in a Docker repository name besides the alphanumeric ones.
pub open spec fn repository_name_extra() -> Seq<char> {
    seq!['-', '_', '.', '/']
}

/// Characters allowed in a Docker tag besides the alphanumeric ones.
pub open spec fn tag_extra() -> Seq<char> {
    seq!['-', '_', '.']
}

/// A valid Docker repository name: not empty, at most 255 bytes of UTF-8,
/// made of alphanumeric characters and `- _ . /`, neither starting nor ending
/// with `-` or `.`, and every part between slashes at least two bytes long.
pub open spec fn valid_repository_name(name: Seq<char>) -> bool {
    &&& name.len() > 0
    &&& utf8_len(name) <= 255
    &&& all_alnum_or(name, repository_name_extra())
    &&& name[0] != '-' && name[0] != '.'
    &&& name.last() != '-' && name.last() != '.'
    &&& all_parts_have_two_bytes(split_on(name, '/'))
}

/// A valid Docker tag: not empty, at most 128 bytes of UTF-8, made of
/// alphanumeric characters and `- _ .`.
pub open spec fn valid_tag(tag: Seq<char>) -> bool {
    &&& tag.len() > 0
    &&& utf8_len(tag) <= 128
    &&& all_alnum_or(tag, tag_extra())
}

/// The manifest media types that the generator accepts.
pub open spec fn supported_media_type(m: Seq<char>) -> bool {
    ||| m == "application/vnd.docker.distribution.manifest.v1+json"@
    ||| m == "application/vnd.docker.distribution.manifest.v1+prettyjws"@
    ||| m == "application/vnd.docker.distribution.manifest.v2+json"@
    ||| m == "application/vnd.docker.distribution.manifest.list.v2+json"@
    ||| m == "application/vnd.oci.image.manifest.v1+json"@
    ||| m == "application/vnd.oci.image.index.v1+json"@
}

/// Checks a Docker repository name; the error carries the name.
pub fn validate_docker_repository_name(name: &str) -> (r: Result<(), GenerateDockerManifestError>)
    ensures
        r is Ok <==> valid_repository_name(name@),
        r matches Err(e) ==> (e matches GenerateDockerManifestError::InvalidRepositoryName { name: n } && n@ == name@),
{
    let v = chars_of(name);
    let ok = v.len() > 0 && utf8_len_at_most(&v, 255) && all_alnum_or_any_of(&v, &['-', '_', '.', '/'])
        && v[0] != '-' && v[0] != '.' && v[v.len() - 1] != '-' && v[v.len() - 1] != '.'
        && parts_have_two_bytes(&v, '/');
    proof {
        assert(seq!['-', '_', '.', '/'] =~= repository_name_extra());
    }
    if ok {
        Ok(())
    } else {
        Err(GenerateDockerManifestError::InvalidRepositoryName { name: name.to_owned() })
    }
}

/// Checks a Docker tag; the error carries the tag.
pub fn validate_docker_tag(tag: &str) -> (r: Result<(), GenerateDockerManifestError>)
    ensures
        r is Ok <==> valid_tag(tag@),
        r matches Err(e) ==> (e matches GenerateDockerManifestError::InvalidTag { tag: t } && t@ == tag@),
{
    let v = chars_of(tag);
    let ok = v.len() > 0 && utf8_len_at_most(&v, 128) && all_alnum_or_any_of(&v, &['-', '_', '.']);
    proof {
        assert(seq!['-', '_', '.'] =~= tag_extra());
    }
    if ok {
        Ok(())
    } else {
        Err(GenerateDockerManifestError::InvalidTag { tag: tag.to_owned() })
    }
}

/// Checks that a media type is one of the supported manifest media types.
pub fn validate_docker_media_type(media_type: &str) -> (r: Result<(), GenerateDockerManifestError>)
    ensures
        r is Ok <==> supported_media_type(media_type@),
        r matches Err(e) ==> (e matches GenerateDockerManifestError::UnsupportedMediaType { media_type: m } && m@ == media_type@),
{
    let supported = [
        "application/vnd.docker.distribution.manifest.v1+json",
        "application/vnd.docker.distribution.manifest.v1+prettyjws",
        "application/vnd.docker.distribution.manifest.v2+json",
        "application/vnd.docker.distribution.manifest.list.v2+json",
        "application/vnd.oci.image.manifest.v1+json",
        "application/vnd.oci.image.index.v1+json",
    ];
    if str_in(media_type, &supported) {
        Ok(())
    } else {
        Err(GenerateDockerManifestError::UnsupportedMediaType { media_type: media_type.to_owned() })
    }
}

/// The message of each error.
pub open spec fn manifest_error_message(e: GenerateDockerManifestError) -> Seq<char> {
    match e {
        GenerateDockerManifestError::InvalidRepositoryName { name } => "Invalid repository name: "@ + name@,
        GenerateDockerManifestError::InvalidTag { tag } => "Invalid tag: "@ + tag@,
        GenerateDockerManifestError::ManifestNotFound { repository, tag } => "Manifest not found: "@ + repository@
            + ":"@ + tag@,
        GenerateDockerManifestError::ManifestGenerationFailed { reason } => "Manifest generation failed: "@ + reason@,
        GenerateDockerManifestError::RepositoryError(m) => "Repository error: "@ + m@,
        GenerateDockerManifestError::CacheError(m) => "Cache error: "@ + m@,
        GenerateDockerManifestError::UnsupportedMediaType { media_type } => "Unsupported media type: "@ + media_type@,
        GenerateDockerManifestError::PermissionDenied { repository } => "Permission denied for repository "@
            + repository@,
    }
}

impl GenerateDockerManifestError {
    /// The message of the error.
    pub fn message(&self) -> (r: String)
        ensures
            r@ == manifest_error_message(*self),
    {
        match self {
            GenerateDockerManifestError::InvalidRepositoryName { name } => concat2("Invalid repository name: ", name.as_str()),
            GenerateDockerManifestError::InvalidTag { tag } => concat2("Invalid tag: ", tag.as_str()),
            GenerateDockerManifestError::ManifestNotFound { repository, tag } => {
                let head = concat3("Manifest not found: ", repository.as_str(), ":");
                concat2(head.as_str(), tag.as_str())
            },
            GenerateDockerManifestError::ManifestGenerationFailed { reason } => concat2(
                "Manifest generation failed: ",
                reason.as_str(),
            ),
            GenerateDockerManifestError::RepositoryError(m) => concat2("Repository error: ", m.as_str()),
            GenerateDockerManifestError::CacheError(m) => concat2("Cache error: ", m.as_str()),
            GenerateDockerManifestError::UnsupportedMediaType { media_type } => concat2(
                "Unsupported media type: ",
                media_type.as_str(),
            ),
            GenerateDockerManifestError::PermissionDenied { repository } => concat2(
                "Permission denied for repository ",
                repository.as_str(),
            ),
        }
    }
}

} // verus!

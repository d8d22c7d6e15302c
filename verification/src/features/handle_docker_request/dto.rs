//! Requests, responses and manifests of the Docker Registry API, its error
//! type, and the validation of repository names, tags and digests.

use vstd::prelude::*;
use vstd::string::*;
use crate::text::{
    concat2, concat3, decimal, decimal_text,
    all_alnum_or, all_alnum_or_any_of, at_most_once, chars_of, check_at_most_once, has_char,
    str_eq, utf8_len, utf8_len_at_most, join_with, lemma_split_once, lemma_split_parts, split_on,
};

verus! {

/// Errors of the Docker Registry API.
#[derive(Debug)]
pub enum DockerApiError {
    RepositoryNotFound(String),
    ManifestNotFound(String),
    BlobNotFound(String),
    InvalidDigest(String),
    InvalidManifest(String),
    BlobSizeExceeded(u64),
    Forbidden(String),
    Unauthorized(String),
    UploadSessionNotFound(String),
    InternalServerError(String),
    RepositoryError(String),
}

/// The HTTP status that answers each error.
pub open spec fn api_error_status(e: DockerApiError) -> u16 {
    match e {
        DockerApiError::RepositoryNotFound(_) => 404,
        DockerApiError::ManifestNotFound(_) => 404,
        DockerApiError::BlobNotFound(_) => 404,
        DockerApiError::InvalidDigest(_) => 400,
        DockerApiError::InvalidManifest(_) => 400,
        DockerApiError::BlobSizeExceeded(_) => 413,
        DockerApiError::Forbidden(_) => 403,
        DockerApiError::Unauthorized(_) => 401,
        DockerApiError::UploadSessionNotFound(_) => 404,
        DockerApiError::InternalServerError(_) => 500,
        DockerApiError::RepositoryError(_) => 500,
    }
}

impl DockerApiError {
    /// The HTTP status code of the error.
    pub fn to_http_status(&self) -> (r: u16)
        ensures
            r == api_error_status(*self),
    {
        match self {
            DockerApiError::RepositoryNotFound(_) => 404,
            DockerApiError::ManifestNotFound(_) => 404,
            DockerApiError::BlobNotFound(_) => 404,
            DockerApiError::InvalidDigest(_) => 400,
            DockerApiError::InvalidManifest(_) => 400,
            DockerApiError::BlobSizeExceeded(_) => 413,
            DockerApiError::Forbidden(_) => 403,
            DockerApiError::Unauthorized(_) => 401,
            DockerApiError::UploadSessionNotFound(_) => 404,
            DockerApiError::InternalServerError(_) => 500,
            DockerApiError::RepositoryError(_) => 500,
        }
    }
}

/// The message of each error.
pub open spec fn api_error_message(e: DockerApiError) -> Seq<char> {
    match e {
        DockerApiError::RepositoryNotFound(m) => "Repository not found: "@ + m@,
        DockerApiError::ManifestNotFound(m) => "Manifest not found: "@ + m@,
        DockerApiError::BlobNotFound(m) => "Blob not found: "@ + m@,
        DockerApiError::InvalidDigest(m) => "Invalid digest: "@ + m@,
        DockerApiError::InvalidManifest(m) => "Invalid manifest: "@ + m@,
        DockerApiError::BlobSizeExceeded(n) => "Blob size exceeds limit: "@ + decimal(n as nat) + " bytes"@,
        DockerApiError::Forbidden(m) => "Forbidden: "@ + m@,
        DockerApiError::Unauthorized(m) => "Unauthorized: "@ + m@,
        DockerApiError::UploadSessionNotFound(m) => "Upload session not found: "@ + m@,
        DockerApiError::InternalServerError(m) => "Internal server error: "@ + m@,
        DockerApiError::RepositoryError(m) => "Repository error: "@ + m@,
    }
}

impl DockerApiError {
    /// The message of the error.
    pub fn message(&self) -> (r: String)
        ensures
            r@ == api_error_message(*self),
    {
        match self {
            DockerApiError::RepositoryNotFound(m) => concat2("Repository not found: ", m.as_str()),
            DockerApiError::ManifestNotFound(m) => concat2("Manifest not found: ", m.as_str()),
            DockerApiError::BlobNotFound(m) => concat2("Blob not found: ", m.as_str()),
            DockerApiError::InvalidDigest(m) => concat2("Invalid digest: ", m.as_str()),
            DockerApiError::InvalidManifest(m) => concat2("Invalid manifest: ", m.as_str()),
            DockerApiError::BlobSizeExceeded(n) => {
                let size = decimal_text(*n);
                concat3("Blob size exceeds limit: ", size.as_str(), " bytes")
            },
            DockerApiError::Forbidden(m) => concat2("Forbidden: ", m.as_str()),
            DockerApiError::Unauthorized(m) => concat2("Unauthorized: ", m.as_str()),
            DockerApiError::UploadSessionNotFound(m) => concat2("Upload session not found: ", m.as_str()),
            DockerApiError::InternalServerError(m) => concat2("Internal server error: ", m.as_str()),
            DockerApiError::RepositoryError(m) => concat2("Repository error: ", m.as_str()),
        }
    }
}

/// Media types of Docker manifests.
#[derive(Debug, Clone, Copy, PartialEq, Eq)]
pub enum DockerManifestMediaType {
    ManifestV2,
    ManifestListV2,
    ManifestV1,
    ManifestV1Signed,
}

/// The media type text of each manifest media type.
pub open spec fn manifest_media_type_text(m: DockerManifestMediaType) -> Seq<char> {
    match m {
        DockerManifestMediaType::ManifestV2 => "application/vnd.docker.distribution.manifest.v2+json"@,
        DockerManifestMediaType::ManifestListV2 => "application/vnd.docker.distribution.manifest.list.v2+json"@,
        DockerManifestMediaType::ManifestV1 => "application/vnd.docker.distribution.manifest.v1+json"@,
        DockerManifestMediaType::ManifestV1Signed => "application/vnd.docker.distribution.manifest.v1+prettyjws"@,
    }
}

impl DockerManifestMediaType {
    /// The media type named by a `Content-Type` header's text, if any.
    pub fn from_text(t: &str) -> (r: Option<DockerManifestMediaType>)
        ensures
            match r {
                Some(m) => manifest_media_type_text(m) == t@,
                None => forall|m: DockerManifestMediaType| manifest_media_type_text(m) != t@,
            },
    {
        if str_eq(t, "application/vnd.docker.distribution.manifest.v2+json") {
            Some(DockerManifestMediaType::ManifestV2)
        } else if str_eq(t, "application/vnd.docker.distribution.manifest.list.v2+json") {
            Some(DockerManifestMediaType::ManifestListV2)
        } else if str_eq(t, "application/vnd.docker.distribution.manifest.v1+json") {
            Some(DockerManifestMediaType::ManifestV1)
        } else if str_eq(t, "application/vnd.docker.distribution.manifest.v1+prettyjws") {
            Some(DockerManifestMediaType::ManifestV1Signed)
        } else {
            proof {
                assert forall|m: DockerManifestMediaType| manifest_media_type_text(m) != t@ by {
                    match m {
                        DockerManifestMediaType::ManifestV2 => {},
                        DockerManifestMediaType::ManifestListV2 => {},
                        DockerManifestMediaType::ManifestV1 => {},
                        DockerManifestMediaType::ManifestV1Signed => {},
                    }
                }
            }
            None
        }
    }

    /// The media type, as it appears in a `Content-Type` header.
    pub fn to_string(&self) -> (r: String)
        ensures
            r@ == manifest_media_type_text(*self),
    {
        match self {
            DockerManifestMediaType::ManifestV2 => "application/vnd.docker.distribution.manifest.v2+json".to_owned(),
            DockerManifestMediaType::ManifestListV2 => "application/vnd.docker.distribution.manifest.list.v2+json".to_owned(),
            DockerManifestMediaType::ManifestV1 => "application/vnd.docker.distribution.manifest.v1+json".to_owned(),
            DockerManifestMediaType::ManifestV1Signed => "application/vnd.docker.distribution.manifest.v1+prettyjws".to_owned(),
        }
    }
}

/// Media types of Docker blobs.
#[derive(Debug, Clone, Copy, PartialEq, Eq)]
pub enum DockerBlobMediaType {
    LayerGzip,
    Config,
    PluginConfig,
}

/// Get manifest request.
#[derive(Debug, Clone)]
pub struct GetManifestRequest {
    pub repository_name: String,
    /// A tag or a digest.
    pub reference: String,
    pub user_id: String,
    pub accept_headers: Vec<String>,
}

/// Get manifest response.
#[derive(Debug, Clone)]
pub struct GetManifestResponse {
    pub manifest: DockerManifest,
    pub content_type: DockerManifestMediaType,
    pub digest: String,
    pub content_length: u64,
    pub docker_content_digest: String,
}

/// Put manifest request.
#[derive(Debug, Clone)]
pub struct PutManifestRequest {
    pub repository_name: String,
    pub reference: String,
    pub manifest: DockerManifest,
    pub content_type: DockerManifestMediaType,
    pub user_id: String,
    pub content_length: u64,
}

/// Put manifest response.
#[derive(Debug, Clone)]
pub struct PutManifestResponse {
    pub location: String,
    pub docker_content_digest: String,
}

/// Head manifest request.
#[derive(Debug, Clone)]
pub struct HeadManifestRequest {
    pub repository_name: String,
    pub reference: String,
    pub user_id: String,
}

/// Head manifest response.
#[derive(Debug, Clone)]
pub struct HeadManifestResponse {
    pub content_length: u64,
    pub docker_content_digest: String,
    pub content_type: DockerManifestMediaType,
}

/// Delete manifest request.
#[derive(Debug, Clone)]
pub struct DeleteManifestRequest {
    pub repository_name: String,
    pub reference: String,
    pub user_id: String,
}

/// Delete manifest response.
#[derive(Debug, Clone)]
pub struct DeleteManifestResponse {
    pub success: bool,
}

/// Get blob request.
#[derive(Debug, Clone)]
pub struct GetBlobRequest {
    pub repository_name: String,
    pub digest: String,
    pub user_id: String,
}

/// Get blob response.
#[derive(Debug, Clone)]
pub struct GetBlobResponse {
    pub data: Vec<u8>,
    pub digest: String,
    pub content_length: u64,
    pub content_type: String,
}

/// Put blob request.
#[derive(Debug, Clone)]
pub struct PutBlobRequest {
    pub repository_name: String,
    pub digest: String,
    pub data: Vec<u8>,
    pub user_id: String,
    pub content_length: u64,
}

/// Put blob response.
#[derive(Debug, Clone)]
pub struct PutBlobResponse {
    pub location: String,
    pub docker_content_digest: String,
}

/// Head blob request.
#[derive(Debug, Clone)]
pub struct HeadBlobRequest {
    pub repository_name: String,
    pub digest: String,
    pub user_id: String,
}

/// Head blob response.
#[derive(Debug, Clone)]
pub struct HeadBlobResponse {
    pub content_length: u64,
    pub docker_content_digest: String,
    pub content_type: String,
}

/// Delete blob request.
#[derive(Debug, Clone)]
pub struct DeleteBlobRequest {
    pub repository_name: String,
    pub digest: String,
    pub user_id: String,
}

/// Delete blob response.
#[derive(Debug, Clone)]
pub struct DeleteBlobResponse {
    pub success: bool,
}

/// Start blob upload request.
#[derive(Debug, Clone)]
pub struct StartBlobUploadRequest {
    pub repository_name: String,
    pub user_id: String,
    pub upload_uuid: Option<String>,
}

/// Start blob upload response.
#[derive(Debug, Clone)]
pub struct StartBlobUploadResponse {
    pub upload_location: String,
    pub upload_uuid: String,
    pub range: String,
}

/// Complete blob upload request.
#[derive(Debug, Clone)]
pub struct CompleteBlobUploadRequest {
    pub repository_name: String,
    pub upload_uuid: String,
    pub digest: String,
    pub data: Option<Vec<u8>>,
    pub user_id: String,
}

/// Complete blob upload response.
#[derive(Debug, Clone)]
pub struct CompleteBlobUploadResponse {
    pub location: String,
    pub docker_content_digest: String,
    pub upload_uuid: String,
}

/// A Docker manifest of schema 2 or schema 1.
#[derive(Debug, Clone)]
pub enum DockerManifest {
    V2(DockerManifestV2),
    V1(DockerManifestV1),
}

/// Docker manifest, schema 2.
#[derive(Debug, Clone)]
pub struct DockerManifestV2 {
    pub schema_version: u32,
    pub media_type: DockerManifestMediaType,
    pub config: DockerDescriptor,
    pub layers: Vec<DockerDescriptor>,
}

/// Docker manifest, schema 1.
#[derive(Debug, Clone)]
pub struct DockerManifestV1 {
    pub schema_version: u32,
    pub name: String,
    pub tag: String,
    pub architecture: String,
    pub fs_layers: Vec<DockerFsLayer>,
    pub history: Vec<DockerHistory>,
    pub signatures: Option<Vec<DockerSignature>>,
}

/// Content descriptor.
#[derive(Debug, Clone)]
pub struct DockerDescriptor {
    pub media_type: String,
    pub size: u64,
    pub digest: String,
    pub urls: Option<Vec<String>>,
}

/// File system layer of a schema 1 manifest.
#[derive(Debug, Clone)]
pub struct DockerFsLayer {
    pub blob_sum: String,
}

/// History entry of a schema 1 manifest.
#[derive(Debug, Clone)]
pub struct DockerHistory {
    pub v1_compatibility: String,
}

/// Signature of a schema 1 manifest.
#[derive(Debug, Clone)]
pub struct DockerSignature {
    pub header: DockerSignatureHeader,
    pub signature: String,
    pub protected: String,
}

/// Signature header.
#[derive(Debug, Clone)]
pub struct DockerSignatureHeader {
    pub jwk: DockerJwk,
    pub alg: String,
}

/// JSON Web Key.
#[derive(Debug, Clone)]
pub struct DockerJwk {
    pub crv: String,
    pub kid: String,
    pub kty: String,
    pub x: String,
    pub y: String,
}

/// Repository information; times are RFC 3339 strings.
#[derive(Debug, Clone)]
pub struct DockerRepositoryInfo {
    pub name: String,
    pub created_at: String,
    pub updated_at: String,
    pub manifest_count: u64,
    pub blob_count: u64,
    pub total_size: u64,
}

/// Tag information; times are RFC 3339 strings.
#[derive(Debug, Clone)]
pub struct DockerTagInfo {
    pub name: String,
    pub digest: String,
    pub created_at: String,
    pub updated_at: String,
    pub size: u64,
}

/// Catalog of repositories.
#[derive(Debug, Clone)]
pub struct DockerCatalogResponse {
    pub repositories: Vec<String>,
    pub next: Option<String>,
}

/// Tags of a repository.
#[derive(Debug, Clone)]
pub struct DockerTagsListResponse {
    pub name: String,
    pub tags: Vec<String>,
}

/// Blob upload session; times are RFC 3339 strings.
#[derive(Debug, Clone)]
pub struct DockerUploadSession {
    pub upload_uuid: String,
    pub repository_name: String,
    pub created_at: String,
    pub expires_at: String,
    pub offset: u64,
    pub started: bool,
    pub completed: bool,
}

/// Blob metadata; the time is an RFC 3339 string.
#[derive(Debug, Clone)]
pub struct DockerBlobInfo {
    pub digest: String,
    pub size: u64,
    pub media_type: String,
    pub created_at: String,
}

/// Manifest metadata; the time is an RFC 3339 string.
#[derive(Debug, Clone)]
pub struct DockerManifestInfo {
    pub digest: String,
    pub media_type: DockerManifestMediaType,
    pub size: u64,
    pub created_at: String,
    pub tags: Vec<String>,
}

/// The message of the first rule that a repository name breaks, if any:
/// not empty, at most 255 bytes, alphanumeric characters and `- _ /`, no
/// `-` and no `_` at either end.
pub open spec fn repository_name_problem(n: Seq<char>) -> Option<Seq<char>> {
    if n.len() == 0 {
        Some("Repository name cannot be empty"@)
    } else if utf8_len(n) > 255 {
        Some("Repository name too long"@)
    } else if !all_alnum_or(n, seq!['-', '_', '/']) {
        Some("Repository name contains invalid characters"@)
    } else if n[0] == '-' || n.last() == '-' {
        Some("Repository name cannot start or end with hyphen"@)
    } else if n[0] == '_' || n.last() == '_' {
        Some("Repository name cannot start or end with underscore"@)
    } else {
        None
    }
}

/// The message of the first rule that a tag breaks, if any: not empty, at
/// most 128 bytes, alphanumeric characters and `- _ .`.
pub open spec fn tag_problem(t: Seq<char>) -> Option<Seq<char>> {
    if t.len() == 0 {
        Some("Tag cannot be empty"@)
    } else if utf8_len(t) > 128 {
        Some("Tag too long"@)
    } else if !all_alnum_or(t, seq!['-', '_', '.']) {
        Some("Tag contains invalid characters"@)
    } else {
        None
    }
}

/// An ASCII hexadecimal digit.
pub open spec fn is_hex_digit(c: char) -> bool {
    ('0' <= c <= '9') || ('a' <= c <= 'f') || ('A' <= c <= 'F')
}

pub open spec fn all_hex(s: Seq<char>) -> bool {
    forall|i: int| 0 <= i < s.len() ==> #[trigger] is_hex_digit(s[i])
}

/// `s` holds exactly one `c`.
pub open spec fn exactly_once(s: Seq<char>, c: char) -> bool {
    s.contains(c) && at_most_once(s, c)
}

/// The index of the one `:` of a digest.
pub open spec fn colon_index(d: Seq<char>) -> int {
    choose|j: int| 0 <= j < d.len() && d[j] == ':'
}

/// The message of the first rule that a digest breaks, if any. A digest is
/// `algorithm:hash` with one colon; `sha256` takes 64 and `sha512` 128
/// hexadecimal digits; no other algorithm is supported.
pub open spec fn digest_problem(d: Seq<char>) -> Option<Seq<char>> {
    if d.len() == 0 {
        Some("Digest cannot be empty"@)
    } else if !exactly_once(d, ':') {
        Some("Invalid digest format"@)
    } else {
        let alg = d.take(colon_index(d));
        let hash = d.skip(colon_index(d) + 1);
        if alg == "sha256"@ {
            if hash.len() == 64 && all_hex(hash) {
                None
            } else {
                Some("Invalid SHA256 hash"@)
            }
        } else if alg == "sha512"@ {
            if hash.len() == 128 && all_hex(hash) {
                None
            } else {
                Some("Invalid SHA512 hash"@)
            }
        } else {
            Some("Unsupported digest algorithm: "@ + alg)
        }
    }
}

/// Checks a repository name; a refused name gives `InvalidManifest` with the
/// message of the first rule it breaks.
pub fn validate_docker_repository_name(name: &str) -> (r: Result<(), DockerApiError>)
    ensures
        r is Ok <==> repository_name_problem(name@) is None,
        r matches Err(e) ==> (e matches DockerApiError::InvalidManifest(m) && m@ == repository_name_problem(name@)->0),
{
    let v = chars_of(name);
    if v.len() == 0 {
        return Err(DockerApiError::InvalidManifest("Repository name cannot be empty".to_owned()));
    }
    if !utf8_len_at_most(&v, 255) {
        return Err(DockerApiError::InvalidManifest("Repository name too long".to_owned()));
    }
    if !all_alnum_or_any_of(&v, &['-', '_', '/']) {
        return Err(DockerApiError::InvalidManifest("Repository name contains invalid characters".to_owned()));
    }
    if v[0] == '-' || v[v.len() - 1] == '-' {
        return Err(DockerApiError::InvalidManifest("Repository name cannot start or end with hyphen".to_owned()));
    }
    if v[0] == '_' || v[v.len() - 1] == '_' {
        return Err(DockerApiError::InvalidManifest("Repository name cannot start or end with underscore".to_owned()));
    }
    Ok(())
}

/// Checks a tag; a refused tag gives `InvalidManifest` with the message of
/// the first rule it breaks.
pub fn validate_docker_tag(tag: &str) -> (r: Result<(), DockerApiError>)
    ensures
        r is Ok <==> tag_problem(tag@) is None,
        r matches Err(e) ==> (e matches DockerApiError::InvalidManifest(m) && m@ == tag_problem(tag@)->0),
{
    let v = chars_of(tag);
    if v.len() == 0 {
        return Err(DockerApiError::InvalidManifest("Tag cannot be empty".to_owned()));
    }
    if !utf8_len_at_most(&v, 128) {
        return Err(DockerApiError::InvalidManifest("Tag too long".to_owned()));
    }
    if !all_alnum_or_any_of(&v, &['-', '_', '.']) {
        return Err(DockerApiError::InvalidManifest("Tag contains invalid characters".to_owned()));
    }
    Ok(())
}

fn check_hex(v: &Vec<char>, from: usize) -> (r: bool)
    requires
        from <= v.len(),
    ensures
        r == all_hex(v@.skip(from as int)),
{
    let mut i = from;
    while i < v.len()
        invariant
            from <= i <= v.len(),
            forall|k: int| from <= k < i ==> is_hex_digit(v@[k]),
        decreases v.len() - i,
    {
        let c = v[i];
        if !(('0' <= c && c <= '9') || ('a' <= c && c <= 'f') || ('A' <= c && c <= 'F')) {
            assert(!is_hex_digit(v@.skip(from as int)[i - from]));
            return false;
        }
        i = i + 1;
    }
    assert forall|k: int| 0 <= k < v@.skip(from as int).len() implies #[trigger] is_hex_digit(v@.skip(from as int)[k]) by {
        assert(v@.skip(from as int)[k] == v@[from + k]);
    }
    true
}

fn colon_position(v: &Vec<char>) -> (r: usize)
    requires
        exactly_once(v@, ':'),
    ensures
        r < v.len(),
        v@[r as int] == ':',
        r as int == colon_index(v@),
{
    let mut i: usize = 0;
    while i < v.len()
        invariant
            0 <= i <= v.len(),
            exactly_once(v@, ':'),
            forall|k: int| 0 <= k < i ==> v@[k] != ':',
        decreases v.len() - i,
    {
        if v[i] == ':' {
            let ghost j = colon_index(v@);
            assert(v@[j] == ':');
            return i;
        }
        i = i + 1;
    }
    assert(false);
    0
}

/// The parts of a digest cut at `:` make a supported digest: an algorithm
/// and a hash, `sha256` with 64 or `sha512` with 128 hexadecimal digits.
pub open spec fn digest_parts_valid(parts: Seq<Seq<char>>) -> bool {
    &&& parts.len() == 2
    &&& ((parts[0] == "sha256"@ && parts[1].len() == 64) || (parts[0] == "sha512"@ && parts[1].len() == 128))
    &&& all_hex(parts[1])
}

/// A digest is accepted exactly when cutting it at `:` gives an algorithm
/// and a hash: `sha256` with 64 hexadecimal digits or `sha512` with 128.
pub proof fn law_digest_is_algorithm_and_hash(d: Seq<char>)
    ensures
        digest_problem(d) is None <==> digest_parts_valid(split_on(d, ':')),
{
    reveal_strlit("sha256");
    reveal_strlit("sha512");
    assert("sha256"@[3] != "sha512"@[3]);
    assert("sha256"@ != "sha512"@);
    lemma_split_parts(d, ':');
    let parts = split_on(d, ':');
    if exactly_once(d, ':') {
        let ci = colon_index(d);
        assert(0 <= ci < d.len() && d[ci] == ':');
        let a = d.take(ci);
        let b = d.skip(ci + 1);
        assert(d =~= a.push(':') + b);
        assert(!a.contains(':')) by {
            if a.contains(':') {
                let j = choose|j: int| 0 <= j < a.len() && a[j] == ':';
                assert(d[j] == ':');
            }
        }
        assert(!b.contains(':')) by {
            if b.contains(':') {
                let j = choose|j: int| 0 <= j < b.len() && b[j] == ':';
                assert(d[ci + 1 + j] == ':');
            }
        }
        lemma_split_once(a, b, ':');
        assert(parts == seq![a, b]);
        assert(parts[0] == a && parts[1] == b);
    } else if parts.len() == 2 {
        assert(parts.drop_last() =~= seq![parts[0]]);
        let a = parts[0];
        let b = parts[1];
        assert(!a.contains(':'));
        assert(!b.contains(':'));
        assert(join_with(parts.drop_last(), ':') == a);
        assert(join_with(parts, ':') == a.push(':') + b);
        assert(d =~= a.push(':') + b);
        assert(d[a.len() as int] == ':');
        assert(d.contains(':'));
        assert(at_most_once(d, ':')) by {
            assert forall|i: int, k: int|
                0 <= i < d.len() && 0 <= k < d.len() && d[i] == ':' && d[k] == ':' implies i == k by {
                if i < a.len() {
                    assert(a[i] == ':');
                } else if i > a.len() {
                    assert(b[i - a.len() - 1] == ':');
                }
                if k < a.len() {
                    assert(a[k] == ':');
                } else if k > a.len() {
                    assert(b[k - a.len() - 1] == ':');
                }
            }
        }
        assert(false);
    }
}

/// Checks a digest; a refused digest gives `InvalidDigest` with the message
/// of the first rule it breaks.
pub fn validate_docker_digest(digest: &str) -> (r: Result<(), DockerApiError>)
    ensures
        r is Ok <==> digest_problem(digest@) is None,
        r matches Err(e) ==> (e matches DockerApiError::InvalidDigest(m) && m@ == digest_problem(digest@)->0),
{
    let v = chars_of(digest);
    if v.len() == 0 {
        return Err(DockerApiError::InvalidDigest("Digest cannot be empty".to_owned()));
    }
    if !(has_char(&v, ':') && check_at_most_once(&v, ':')) {
        return Err(DockerApiError::InvalidDigest("Invalid digest format".to_owned()));
    }
    let j = colon_position(&v);
    let algorithm = digest.substring_char(0, j);
    proof {
        assert(algorithm@ =~= digest@.take(j as int));
    }
    let hash_len = v.len() - (j + 1);
    if str_eq(algorithm, "sha256") {
        if !(hash_len == 64 && check_hex(&v, j + 1)) {
            return Err(DockerApiError::InvalidDigest("Invalid SHA256 hash".to_owned()));
        }
    } else if str_eq(algorithm, "sha512") {
        if !(hash_len == 128 && check_hex(&v, j + 1)) {
            return Err(DockerApiError::InvalidDigest("Invalid SHA512 hash".to_owned()));
        }
    } else {
        let mut message = "Unsupported digest algorithm: ".to_owned();
        message.append(algorithm);
        return Err(DockerApiError::InvalidDigest(message));
    }
    Ok(())
}

} // verus!

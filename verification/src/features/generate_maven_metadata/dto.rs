//! Data carried by the Maven metadata feature, its error type, and the
//! builder that derives `latest` and `release` from a version list.

use vstd::prelude::*;
use crate::domain::MavenCoordinates;
use crate::text::{chars_of, contains_seq, copy_string, seq_contains};

verus! {

/// Request to generate the metadata of a Maven artifact.
#[derive(Debug, Clone)]
pub struct GenerateMavenMetadataRequest {
    pub coordinates: MavenCoordinates,
    pub repository_id: String,
    /// Ignore any cached metadata.
    pub force_regenerate: bool,
}

/// The generated metadata.
#[derive(Debug, Clone)]
pub struct GenerateMavenMetadataResponse {
    pub metadata: MavenMetadataDto,
    /// RFC 3339 time of generation.
    pub generated_at: String,
    pub cache_hit: bool,
}

/// Maven metadata of an artifact.
#[derive(Debug, Clone)]
pub struct MavenMetadataDto {
    pub group_id: String,
    pub artifact_id: String,
    /// Version the metadata is about, empty for artifact-level metadata.
    pub version: String,
    pub versioning: MavenMetadataVersioningDto,
}

/// The `versioning` element of Maven metadata.
#[derive(Debug, Clone)]
pub struct MavenMetadataVersioningDto {
    pub latest: String,
    pub release: String,
    pub versions: Vec<String>,
    pub snapshot: Option<MavenMetadataSnapshotDto>,
    /// `%Y%m%d%H%M%S` time of the last update.
    pub last_updated: String,
}

/// The `snapshot` element of Maven metadata.
#[derive(Debug, Clone)]
pub struct MavenMetadataSnapshotDto {
    pub timestamp: String,
    pub build_number: i32,
}

/// One `snapshotVersion` element of Maven metadata.
#[derive(Debug, Clone)]
pub struct MavenMetadataSnapshotVersionDto {
    pub classifier: Option<String>,
    pub extension: String,
    pub value: String,
    pub updated: String,
}

/// Errors of the Maven metadata feature.
#[derive(Debug)]
pub enum MavenMetadataError {
    RepositoryNotFound { repository_id: String },
    ArtifactNotFound { coordinates: String },
    InvalidCoordinates { coordinates: String },
    StorageError { message: String },
    CacheError { message: String },
    XmlGenerationError { message: String },
    PermissionDenied { message: String },
    NetworkError { message: String },
    InternalError { message: String },
}

/// The HTTP status that answers each error.
pub open spec fn metadata_error_status(e: MavenMetadataError) -> u16 {
    match e {
        MavenMetadataError::RepositoryNotFound { .. } => 404,
        MavenMetadataError::ArtifactNotFound { .. } => 404,
        MavenMetadataError::InvalidCoordinates { .. } => 400,
        MavenMetadataError::StorageError { .. } => 503,
        MavenMetadataError::CacheError { .. } => 500,
        MavenMetadataError::XmlGenerationError { .. } => 500,
        MavenMetadataError::PermissionDenied { .. } => 403,
        MavenMetadataError::NetworkError { .. } => 503,
        MavenMetadataError::InternalError { .. } => 500,
    }
}

/// The human-readable message of each error.
pub open spec fn metadata_error_message(e: MavenMetadataError) -> Seq<char> {
    match e {
        MavenMetadataError::RepositoryNotFound { repository_id } => "Repository not found: "@ + repository_id@,
        MavenMetadataError::ArtifactNotFound { coordinates } => "Artifact not found: "@ + coordinates@,
        MavenMetadataError::InvalidCoordinates { coordinates } => "Invalid Maven coordinates: "@ + coordinates@,
        MavenMetadataError::StorageError { message } => "Storage error: "@ + message@,
        MavenMetadataError::CacheError { message } => "Cache error: "@ + message@,
        MavenMetadataError::XmlGenerationError { message } => "XML generation error: "@ + message@,
        MavenMetadataError::PermissionDenied { message } => "Permission denied: "@ + message@,
        MavenMetadataError::NetworkError { message } => "Network error: "@ + message@,
        MavenMetadataError::InternalError { message } => "Internal error: "@ + message@,
    }
}

impl MavenMetadataError {
    /// The HTTP status code of the error.
    pub fn to_http_status(&self) -> (r: u16)
        ensures
            r == metadata_error_status(*self),
    {
        match self {
            MavenMetadataError::RepositoryNotFound { .. } => 404,
            MavenMetadataError::ArtifactNotFound { .. } => 404,
            MavenMetadataError::InvalidCoordinates { .. } => 400,
            MavenMetadataError::StorageError { .. } => 503,
            MavenMetadataError::CacheError { .. } => 500,
            MavenMetadataError::XmlGenerationError { .. } => 500,
            MavenMetadataError::PermissionDenied { .. } => 403,
            MavenMetadataError::NetworkError { .. } => 503,
            MavenMetadataError::InternalError { .. } => 500,
        }
    }

    /// The human-readable message of the error.
    pub fn message(&self) -> (r: String)
        ensures
            r@ == metadata_error_message(*self),
    {
        let (head, tail) = match self {
            MavenMetadataError::RepositoryNotFound { repository_id } => ("Repository not found: ", repository_id),
            MavenMetadataError::ArtifactNotFound { coordinates } => ("Artifact not found: ", coordinates),
            MavenMetadataError::InvalidCoordinates { coordinates } => ("Invalid Maven coordinates: ", coordinates),
            MavenMetadataError::StorageError { message } => ("Storage error: ", message),
            MavenMetadataError::CacheError { message } => ("Cache error: ", message),
            MavenMetadataError::XmlGenerationError { message } => ("XML generation error: ", message),
            MavenMetadataError::PermissionDenied { message } => ("Permission denied: ", message),
            MavenMetadataError::NetworkError { message } => ("Network error: ", message),
            MavenMetadataError::InternalError { message } => ("Internal error: ", message),
        };
        crate::text::concat2(head, tail.as_str())
    }
}

/// The error answer of the metadata API.
#[derive(Debug, Clone)]
pub struct MavenMetadataErrorResponse {
    /// The error as its derived `Debug` text.
    pub error: String,
    pub message: String,
    /// RFC 3339 time of the answer.
    pub timestamp: String,
    pub request_id: Option<String>,
}

/// Formats an error with its derived `Debug` impl through `format!`. The
/// text is not stated.
#[verifier::external_body]
fn debug_text(e: &MavenMetadataError) -> (r: String) {
    format!("{:?}", e)
}

impl MavenMetadataError {
    /// The error answer for this error: its message, the request's
    /// identifier, and the current time.
    pub fn to_error_response(&self, request_id: Option<String>) -> (r: MavenMetadataErrorResponse)
        ensures
            r.message@ == metadata_error_message(*self),
            r.request_id == request_id,
    {
        MavenMetadataErrorResponse {
            error: debug_text(self),
            message: self.message(),
            timestamp: crate::clock::now_rfc3339(),
            request_id,
        }
    }
}

/// The character sequences of a list of strings.
pub open spec fn strings_view(v: Seq<String>) -> Seq<Seq<char>> {
    v.map_values(|s: String| s@)
}

/// Whether a version names a snapshot in the sense of the metadata builder:
/// it contains "-SNAPSHOT".
pub open spec fn mentions_snapshot(v: Seq<char>) -> bool {
    seq_contains(v, "-SNAPSHOT"@)
}

/// The last version of the list that is not a snapshot, if any.
pub open spec fn last_release(vs: Seq<Seq<char>>) -> Option<Seq<char>>
    decreases vs.len(),
{
    if vs.len() == 0 {
        None
    } else if !mentions_snapshot(vs.last()) {
        Some(vs.last())
    } else {
        last_release(vs.drop_last())
    }
}

/// `latest` of a version list: its last entry, or `default` for an empty list.
pub open spec fn latest_of(vs: Seq<Seq<char>>, default: Seq<char>) -> Seq<char> {
    if vs.len() == 0 {
        default
    } else {
        vs.last()
    }
}

/// `release` of a version list: its last non-snapshot entry, or `latest`.
pub open spec fn release_of(vs: Seq<Seq<char>>, latest: Seq<char>) -> Seq<char> {
    match last_release(vs) {
        Some(r) => r,
        None => latest,
    }
}

/// The release found is a version of the list that is not a snapshot, and
/// every version after it is a snapshot.
pub proof fn lemma_last_release(vs: Seq<Seq<char>>)
    ensures
        last_release(vs) matches Some(r) ==> exists|i: int|
            0 <= i < vs.len() && vs[i] == r && !mentions_snapshot(r) && forall|k: int|
                i < k < vs.len() ==> mentions_snapshot(#[trigger] vs[k]),
        last_release(vs) is None ==> forall|k: int| 0 <= k < vs.len() ==> mentions_snapshot(#[trigger] vs[k]),
    decreases vs.len(),
{
    if vs.len() > 0 {
        lemma_last_release(vs.drop_last());
        if !mentions_snapshot(vs.last()) {
            assert(vs[vs.len() - 1] == vs.last());
        } else {
            if let Some(r) = last_release(vs.drop_last()) {
                let i = choose|i: int|
                    0 <= i < vs.drop_last().len() && vs.drop_last()[i] == r && !mentions_snapshot(r)
                        && forall|k: int| i < k < vs.drop_last().len() ==> mentions_snapshot(#[trigger] vs.drop_last()[k]);
                assert(vs[i] == r);
                assert forall|k: int| i < k < vs.len() implies mentions_snapshot(#[trigger] vs[k]) by {
                    if k < vs.len() - 1 {
                        assert(vs[k] == vs.drop_last()[k]);
                    }
                }
            } else {
                assert forall|k: int| 0 <= k < vs.len() implies mentions_snapshot(#[trigger] vs[k]) by {
                    if k < vs.len() - 1 {
                        assert(vs[k] == vs.drop_last()[k]);
                    }
                }
            }
        }
    }
}

/// The last entry of `versions` that does not contain "-SNAPSHOT".
pub fn find_last_release(versions: &Vec<String>) -> (r: Option<String>)
    ensures
        r is Some <==> last_release(strings_view(versions@)) is Some,
        r matches Some(s) ==> Some(s@) == last_release(strings_view(versions@)),
{
    let marker = chars_of("-SNAPSHOT");
    let mut i = versions.len();
    proof {
        assert(versions@.take(i as int) =~= versions@);
    }
    while i > 0
        invariant
            0 <= i <= versions.len(),
            marker@ == "-SNAPSHOT"@,
            last_release(strings_view(versions@)) == last_release(strings_view(versions@.take(i as int))),
        decreases i,
    {
        let v = chars_of(versions[i - 1].as_str());
        let ghost vs = strings_view(versions@.take(i as int));
        proof {
            assert(vs.last() == versions@[i - 1]@);
            assert(vs.drop_last() =~= strings_view(versions@.take(i - 1)));
        }
        if !contains_seq(&v, &marker) {
            return Some(copy_string(&versions[i - 1]));
        }
        i = i - 1;
    }
    proof {
        assert(strings_view(versions@.take(0)) =~= Seq::<Seq<char>>::empty());
    }
    None
}

/// Builder of artifact-level Maven metadata.
pub struct MavenMetadataDtoBuilder {
    pub group_id: String,
    pub artifact_id: String,
    pub version: Option<String>,
    pub versions: Vec<String>,
    pub snapshot_info: Option<MavenMetadataSnapshotDto>,
}

impl MavenMetadataDtoBuilder {
    /// A builder with no version and no snapshot.
    pub fn new(group_id: String, artifact_id: String) -> (r: Self)
        ensures
            r.group_id == group_id,
            r.artifact_id == artifact_id,
            r.version is None,
            r.versions@.len() == 0,
            r.snapshot_info is None,
    {
        MavenMetadataDtoBuilder { group_id, artifact_id, version: None, versions: Vec::new(), snapshot_info: None }
    }

    /// Sets the version the metadata is about.
    pub fn version(self, version: String) -> (r: Self)
        ensures
            r == (MavenMetadataDtoBuilder { version: Some(version), ..self }),
    {
        MavenMetadataDtoBuilder { version: Some(version), ..self }
    }

    /// Sets the version list.
    pub fn versions(self, versions: Vec<String>) -> (r: Self)
        ensures
            r == (MavenMetadataDtoBuilder { versions: versions, ..self }),
    {
        MavenMetadataDtoBuilder { versions, ..self }
    }

    /// Sets the snapshot information.
    pub fn snapshot_info(self, snapshot: MavenMetadataSnapshotDto) -> (r: Self)
        ensures
            r == (MavenMetadataDtoBuilder { snapshot_info: Some(snapshot), ..self }),
    {
        MavenMetadataDtoBuilder { snapshot_info: Some(snapshot), ..self }
    }

    /// The metadata, stamped with the current time.
    pub fn build(self) -> (r: MavenMetadataDto)
        ensures
            built_from(self, r),
    {
        let now = crate::clock::now_compact_timestamp();
        self.build_at(now)
    }

    /// The metadata, stamped with `last_updated`.
    pub fn build_at(self, last_updated: String) -> (r: MavenMetadataDto)
        ensures
            built_from(self, r),
            r.versioning.last_updated == last_updated,
    {
        let latest = if self.versions.len() == 0 {
            "0.0.0".to_owned()
        } else {
            copy_string(&self.versions[self.versions.len() - 1])
        };
        let release = match find_last_release(&self.versions) {
            Some(r) => r,
            None => copy_string(&latest),
        };
        let version = match self.version {
            Some(v) => v,
            None => String::new(),
        };
        MavenMetadataDto {
            group_id: self.group_id,
            artifact_id: self.artifact_id,
            version,
            versioning: MavenMetadataVersioningDto {
                latest,
                release,
                versions: self.versions,
                snapshot: self.snapshot_info,
                last_updated,
            },
        }
    }
}

/// What `build` makes of a builder: `latest` is the last version ("0.0.0"
/// when there is none), `release` the last version that is not a snapshot
/// (`latest` when there is none), the versions and the snapshot are kept,
/// and a missing version becomes the empty string.
pub open spec fn built_from(b: MavenMetadataDtoBuilder, r: MavenMetadataDto) -> bool {
    let vs = strings_view(b.versions@);
    &&& r.group_id == b.group_id
    &&& r.artifact_id == b.artifact_id
    &&& r.version@ == (match b.version { Some(v) => v@, None => Seq::<char>::empty() })
    &&& r.versioning.latest@ == latest_of(vs, "0.0.0"@)
    &&& r.versioning.release@ == release_of(vs, latest_of(vs, "0.0.0"@))
    &&& r.versioning.versions == b.versions
    &&& r.versioning.snapshot == b.snapshot_info
}

} // verus!

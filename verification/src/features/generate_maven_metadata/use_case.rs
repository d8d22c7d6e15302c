//! The decisions of Maven metadata generation: when the cache is consulted,
//! what an empty version list means, how each port error is answered, and
//! that a failing cache never fails a request. The caller performs each
//! action on its ports and hands the outcome back.

use vstd::prelude::*;
use crate::domain::{MavenCoordinates, MavenVersion};
use crate::text::copy_string;
use super::dto::{
    find_last_release, latest_of, release_of, strings_view,
    GenerateMavenMetadataRequest, GenerateMavenMetadataResponse, MavenMetadataDto,
    MavenMetadataError, MavenMetadataVersioningDto,
};
use super::ports::{
    from_cache_error, from_generator_error, from_lister_error, MavenArtifactListerError,
    MavenMetadataCacheError, MavenMetadataGeneratorError,
};

verus! {

/// What the caller does next on behalf of the use case.
#[derive(Debug)]
pub enum MetadataAction {
    /// Ask the cache for metadata of the requested coordinates.
    LookUpCache,
    /// Ask the artifact lister for the versions of the artifact.
    ListVersions,
    /// Ask the generator for the metadata.
    Generate,
    /// Store this metadata in the cache, then report with `on_stored`.
    Store(MavenMetadataDto),
    /// The request is answered.
    Finish(Result<GenerateMavenMetadataResponse, MavenMetadataError>),
}

/// The first action of a request: a forced regeneration skips the cache.
pub open spec fn start_step(request: GenerateMavenMetadataRequest) -> MetadataAction {
    if request.force_regenerate {
        MetadataAction::ListVersions
    } else {
        MetadataAction::LookUpCache
    }
}

/// After the cache lookup: cached metadata answers the request as a cache
/// hit; a miss and a failing cache alike go on to list the versions.
pub open spec fn cache_lookup_step(
    outcome: Result<Option<MavenMetadataDto>, MavenMetadataCacheError>,
    generated_at: String,
) -> MetadataAction {
    match outcome {
        Ok(Some(metadata)) => MetadataAction::Finish(
            Ok(GenerateMavenMetadataResponse { metadata, generated_at, cache_hit: true }),
        ),
        _ => MetadataAction::ListVersions,
    }
}

/// After the version listing: a lister error is answered by its feature
/// error, an empty list by `ArtifactNotFound` with the coordinates as
/// "group:artifact:version", and a non-empty list goes on to generation.
pub open spec fn versions_step(
    coordinates: MavenCoordinates,
    outcome: Result<Vec<MavenVersion>, MavenArtifactListerError>,
    r: MetadataAction,
) -> bool {
    match outcome {
        Err(e) => r == MetadataAction::Finish(Err(from_lister_error(e))),
        Ok(versions) => if versions@.len() == 0 {
            r matches MetadataAction::Finish(Err(MavenMetadataError::ArtifactNotFound { coordinates: c }))
                && c@ == coordinates.group_id@ + ":"@ + coordinates.artifact_id@ + ":"@
                + coordinates.version.value@
        } else {
            r == MetadataAction::Generate
        },
    }
}

/// After generation: a generator error is answered by its feature error;
/// generated metadata is stored next.
pub open spec fn generated_step(
    outcome: Result<MavenMetadataDto, MavenMetadataGeneratorError>,
) -> MetadataAction {
    match outcome {
        Ok(metadata) => MetadataAction::Store(metadata),
        Err(e) => MetadataAction::Finish(Err(from_generator_error(e))),
    }
}

/// After storing: the generated metadata answers the request, not as a
/// cache hit, whatever the cache said.
pub open spec fn stored_step(
    metadata: MavenMetadataDto,
    outcome: Result<(), MavenMetadataCacheError>,
    generated_at: String,
) -> GenerateMavenMetadataResponse {
    GenerateMavenMetadataResponse { metadata, generated_at, cache_hit: false }
}

/// The use case that answers metadata requests, one step at a time.
pub struct GenerateMavenMetadataUseCase {}

impl GenerateMavenMetadataUseCase {
    pub fn new() -> (r: Self) {
        GenerateMavenMetadataUseCase {  }
    }

    /// The first action for a request.
    pub fn start(&self, request: &GenerateMavenMetadataRequest) -> (r: MetadataAction)
        ensures
            r == start_step(*request),
    {
        if request.force_regenerate {
            MetadataAction::ListVersions
        } else {
            MetadataAction::LookUpCache
        }
    }

    /// The action after the cache was asked; `generated_at` stamps a cache hit.
    pub fn on_cache_lookup(
        &self,
        outcome: Result<Option<MavenMetadataDto>, MavenMetadataCacheError>,
        generated_at: String,
    ) -> (r: MetadataAction)
        ensures
            r == cache_lookup_step(outcome, generated_at),
    {
        match outcome {
            Ok(Some(metadata)) => MetadataAction::Finish(
                Ok(GenerateMavenMetadataResponse { metadata, generated_at, cache_hit: true }),
            ),
            _ => MetadataAction::ListVersions,
        }
    }

    /// The action after the versions were listed.
    pub fn on_versions_listed(
        &self,
        request: &GenerateMavenMetadataRequest,
        outcome: Result<Vec<MavenVersion>, MavenArtifactListerError>,
    ) -> (r: MetadataAction)
        ensures
            versions_step(request.coordinates, outcome, r),
    {
        match outcome {
            Err(e) => MetadataAction::Finish(Err(MavenMetadataError::from(e))),
            Ok(versions) => if versions.len() == 0 {
                MetadataAction::Finish(
                    Err(
                        MavenMetadataError::ArtifactNotFound {
                            coordinates: request.coordinates.to_string(),
                        },
                    ),
                )
            } else {
                MetadataAction::Generate
            },
        }
    }

    /// The action after the generator answered.
    pub fn on_generated(
        &self,
        outcome: Result<MavenMetadataDto, MavenMetadataGeneratorError>,
    ) -> (r: MetadataAction)
        ensures
            r == generated_step(outcome),
    {
        match outcome {
            Ok(metadata) => MetadataAction::Store(metadata),
            Err(e) => MetadataAction::Finish(Err(MavenMetadataError::from(e))),
        }
    }

    /// The answer once the generated metadata was handed to the cache.
    pub fn on_stored(
        &self,
        metadata: MavenMetadataDto,
        outcome: Result<(), MavenMetadataCacheError>,
        generated_at: String,
    ) -> (r: GenerateMavenMetadataResponse)
        ensures
            r == stored_step(metadata, outcome, generated_at),
    {
        GenerateMavenMetadataResponse { metadata, generated_at, cache_hit: false }
    }

    /// The answer to an XML request, from the generator's outcome.
    pub fn on_xml_generated(
        &self,
        outcome: Result<String, MavenMetadataGeneratorError>,
    ) -> (r: Result<String, MavenMetadataError>)
        ensures
            match outcome {
                Ok(xml) => r == Ok::<String, MavenMetadataError>(xml),
                Err(e) => r == Err::<String, MavenMetadataError>(from_generator_error(e)),
            },
    {
        match outcome {
            Ok(xml) => Ok(xml),
            Err(e) => Err(MavenMetadataError::from(e)),
        }
    }

    /// The answer to a cache invalidation, from the cache's outcome.
    pub fn on_invalidated(
        &self,
        outcome: Result<(), MavenMetadataCacheError>,
    ) -> (r: Result<(), MavenMetadataError>)
        ensures
            match outcome {
                Ok(()) => r is Ok,
                Err(e) => r == Err::<(), MavenMetadataError>(from_cache_error(e)),
            },
    {
        match outcome {
            Ok(()) => Ok(()),
            Err(e) => Err(MavenMetadataError::from(e)),
        }
    }
}

/// A failing cache lookup is treated as a miss: the request goes on to list
/// the versions, exactly as when nothing was cached.
pub proof fn law_cache_lookup_failure_is_a_miss(e: MavenMetadataCacheError, generated_at: String)
    ensures
        cache_lookup_step(Err(e), generated_at) == cache_lookup_step(Ok(None), generated_at),
        cache_lookup_step(Err(e), generated_at) == MetadataAction::ListVersions,
{
}

/// A failure to store generated metadata does not change the answer.
pub proof fn law_store_failure_is_ignored(
    metadata: MavenMetadataDto,
    e: MavenMetadataCacheError,
    generated_at: String,
)
    ensures
        stored_step(metadata, Err(e), generated_at) == stored_step(metadata, Ok(()), generated_at),
{
}

/// Cached metadata is returned unchanged, marked as a cache hit.
pub proof fn law_cache_hit_returns_cached(metadata: MavenMetadataDto, generated_at: String)
    ensures
        cache_lookup_step(Ok(Some(metadata)), generated_at) matches MetadataAction::Finish(Ok(r))
            && r.metadata == metadata && r.cache_hit,
{
}

/// A forced regeneration never consults the cache, and an answer that does
/// not come from the cache lookup is never a cache hit.
pub proof fn law_forced_regeneration_skips_cache(
    request: GenerateMavenMetadataRequest,
    metadata: MavenMetadataDto,
    outcome: Result<(), MavenMetadataCacheError>,
    generated_at: String,
)
    ensures
        request.force_regenerate ==> start_step(request) == MetadataAction::ListVersions,
        !request.force_regenerate ==> start_step(request) == MetadataAction::LookUpCache,
        !stored_step(metadata, outcome, generated_at).cache_hit,
{
}

/// Builder of metadata from a version list alone, as the use case's tests
/// build it.
pub struct MavenMetadataDtoBuilder {
    pub group_id: String,
    pub artifact_id: String,
    pub versions: Vec<String>,
}

/// What `build_at` makes of a builder: `latest` is the last version (empty
/// when there is none), `release` the last version that is not a snapshot
/// (`latest` when there is none), no version and no snapshot.
pub open spec fn built_from_versions(b: MavenMetadataDtoBuilder, r: MavenMetadataDto) -> bool {
    let vs = strings_view(b.versions@);
    &&& r.group_id == b.group_id
    &&& r.artifact_id == b.artifact_id
    &&& r.version@.len() == 0
    &&& r.versioning.latest@ == latest_of(vs, Seq::<char>::empty())
    &&& r.versioning.release@ == release_of(vs, latest_of(vs, Seq::<char>::empty()))
    &&& r.versioning.versions == b.versions
    &&& r.versioning.snapshot is None
}

impl MavenMetadataDtoBuilder {
    /// A builder with no versions.
    pub fn new(group_id: String, artifact_id: String) -> (r: Self)
        ensures
            r.group_id == group_id,
            r.artifact_id == artifact_id,
            r.versions@.len() == 0,
    {
        MavenMetadataDtoBuilder { group_id, artifact_id, versions: Vec::new() }
    }

    /// Sets the version list.
    pub fn versions(self, versions: Vec<String>) -> (r: Self)
        ensures
            r == (MavenMetadataDtoBuilder { versions: versions, ..self }),
    {
        MavenMetadataDtoBuilder { versions, ..self }
    }

    /// The metadata, stamped with the current RFC 3339 time.
    pub fn build(self) -> (r: MavenMetadataDto)
        ensures
            built_from_versions(self, r),
    {
        let now = crate::clock::now_rfc3339();
        self.build_at(now)
    }

    /// The metadata, stamped with `last_updated`.
    pub fn build_at(self, last_updated: String) -> (r: MavenMetadataDto)
        ensures
            built_from_versions(self, r),
            r.versioning.last_updated == last_updated,
    {
        let latest = if self.versions.len() == 0 {
            String::new()
        } else {
            copy_string(&self.versions[self.versions.len() - 1])
        };
        let release = match find_last_release(&self.versions) {
            Some(r) => r,
            None => copy_string(&latest),
        };
        MavenMetadataDto {
            group_id: self.group_id,
            artifact_id: self.artifact_id,
            version: String::new(),
            versioning: MavenMetadataVersioningDto {
                latest,
                release,
                versions: self.versions,
                snapshot: None,
                last_updated,
            },
        }
    }
}

/// Storing does not touch the metadata: whatever the cache answered, the
/// request is answered with exactly the metadata handed over (its latest
/// and release versions included), at the given time, and not as a cache
/// hit.
pub proof fn law_stored_answer_is_the_generated_metadata(
    metadata: MavenMetadataDto,
    outcome: Result<(), MavenMetadataCacheError>,
    generated_at: String,
    r: GenerateMavenMetadataResponse,
)
    requires
        r == stored_step(metadata, outcome, generated_at),
    ensures
        r.metadata == metadata,
        r.metadata.versioning.latest == metadata.versioning.latest,
        r.metadata.versioning.release == metadata.versioning.release,
        r.generated_at == generated_at,
        !r.cache_hit,
{
}

} // verus!

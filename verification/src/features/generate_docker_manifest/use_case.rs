//! The decisions of manifest generation: how a command is validated, which
//! media type is produced, when the cache is consulted, how each port error
//! is answered, and how the digest of a manifest is computed. The caller
//! performs each action on its ports and hands the outcome back.

use vstd::prelude::*;
use vstd::string::*;
use crate::digest::{sha256_digest_text, sha256_text};
use crate::text::{
    all_alnum_or, all_alnum_or_any_of, at_most_once, chars_of, check_at_most_once, concat2,
    copy_string, utf8_len, utf8_len_at_most,
};
use super::dto::{DockerManifestDto, GenerateDockerManifestCommand, GenerateDockerManifestResponse};
use super::ports::{
    CachedDockerManifest, DockerCacheError, DockerConfigInfo, DockerConfigRetrievalError,
    DockerLayerInfo, DockerLayerListingError, DockerManifestGenerationError,
};

verus! {

/// Errors of the manifest generation use case.
#[derive(Debug)]
pub enum GenerateDockerManifestError {
    ValidationError { field: String, reason: String },
    RepositoryNotFound { repository: String },
    TagNotFound { tag: String },
    NoLayersFound { repository: String, tag: String },
    ConfigNotFound { repository: String, tag: String },
    ManifestGenerationFailed { reason: String },
    InvalidLayerConfig { reason: String },
    InvalidConfig { reason: String },
    UnsupportedManifestVersion { version: String },
    SerializationError { reason: String },
    StorageError(String),
    InternalError(String),
}

/// The media type produced when the command names none.
pub open spec fn default_media_type() -> Seq<char> {
    "application/vnd.docker.distribution.manifest.v2+json"@
}

/// The media type of the manifest a command asks for.
pub open spec fn command_media_type(c: GenerateDockerManifestCommand) -> Seq<char> {
    match c.media_type {
        Some(m) => m@,
        None => default_media_type(),
    }
}

/// A repository name the use case accepts: at least two bytes of UTF-8,
/// alphanumeric characters and `- _ . /`, at most one `/`, neither starting
/// nor ending with `-` or `.`.
pub open spec fn acceptable_repository_name(name: Seq<char>) -> bool {
    &&& utf8_len(name) >= 2
    &&& all_alnum_or(name, seq!['-', '_', '.', '/'])
    &&& at_most_once(name, '/')
    &&& name[0] != '-' && name[0] != '.'
    &&& name.last() != '-' && name.last() != '.'
}

/// A tag the use case accepts: one to 128 bytes of UTF-8, alphanumeric
/// characters and `- _ .`, not starting with `.` or `-`.
pub open spec fn acceptable_tag(tag: Seq<char>) -> bool {
    &&& tag.len() > 0
    &&& utf8_len(tag) <= 128
    &&& tag[0] != '.' && tag[0] != '-'
    &&& all_alnum_or(tag, seq!['-', '_', '.'])
}

/// The first problem of a command, as its field and reason, in the order
/// in which they are checked; `None` for a valid command.
pub open spec fn command_problem(c: GenerateDockerManifestCommand) -> Option<(Seq<char>, Seq<char>)> {
    if c.repository_name@.len() == 0 {
        Some(("repository_name"@, "Repository name cannot be empty"@))
    } else if c.tag@.len() == 0 {
        Some(("tag"@, "Tag cannot be empty"@))
    } else if c.repository_id@.len() == 0 {
        Some(("repository_id"@, "Repository ID cannot be empty"@))
    } else if !acceptable_repository_name(c.repository_name@) {
        Some(("repository_name"@, "Invalid Docker repository name format"@))
    } else if !acceptable_tag(c.tag@) {
        Some(("tag"@, "Invalid Docker tag format"@))
    } else {
        None
    }
}

/// Whether `e` is the validation error of `problem`.
pub open spec fn is_problem(e: GenerateDockerManifestError, problem: (Seq<char>, Seq<char>)) -> bool {
    e matches GenerateDockerManifestError::ValidationError { field, reason } && field@ == problem.0
        && reason@ == problem.1
}

/// A layer listing error becomes the use case error of the same name.
pub open spec fn from_listing_error(e: DockerLayerListingError) -> GenerateDockerManifestError {
    match e {
        DockerLayerListingError::RepositoryNotFound { repository } => GenerateDockerManifestError::RepositoryNotFound { repository },
        DockerLayerListingError::TagNotFound { tag } => GenerateDockerManifestError::TagNotFound { tag },
        DockerLayerListingError::NoLayersFound { repository, tag } => GenerateDockerManifestError::NoLayersFound { repository, tag },
        DockerLayerListingError::StorageError(m) => GenerateDockerManifestError::StorageError(m),
        DockerLayerListingError::Internal(m) => GenerateDockerManifestError::InternalError(m),
    }
}

/// A configuration error becomes the use case error of the same name.
pub open spec fn from_config_error(e: DockerConfigRetrievalError) -> GenerateDockerManifestError {
    match e {
        DockerConfigRetrievalError::RepositoryNotFound { repository } => GenerateDockerManifestError::RepositoryNotFound { repository },
        DockerConfigRetrievalError::TagNotFound { tag } => GenerateDockerManifestError::TagNotFound { tag },
        DockerConfigRetrievalError::ConfigNotFound { repository, tag } => GenerateDockerManifestError::ConfigNotFound { repository, tag },
        DockerConfigRetrievalError::StorageError(m) => GenerateDockerManifestError::StorageError(m),
        DockerConfigRetrievalError::Internal(m) => GenerateDockerManifestError::InternalError(m),
    }
}

/// A generator error becomes the corresponding use case error.
pub open spec fn from_generation_error(e: DockerManifestGenerationError) -> GenerateDockerManifestError {
    match e {
        DockerManifestGenerationError::GenerationFailed { reason } => GenerateDockerManifestError::ManifestGenerationFailed { reason },
        DockerManifestGenerationError::InvalidLayerConfig { reason } => GenerateDockerManifestError::InvalidLayerConfig { reason },
        DockerManifestGenerationError::InvalidConfig { reason } => GenerateDockerManifestError::InvalidConfig { reason },
        DockerManifestGenerationError::UnsupportedVersion { version } => GenerateDockerManifestError::UnsupportedManifestVersion { version },
        DockerManifestGenerationError::Internal(m) => GenerateDockerManifestError::InternalError(m),
    }
}

/// What the caller does next on behalf of the use case.
#[derive(Debug)]
pub enum ManifestAction {
    /// Ask the cache for a manifest of the command's repository, tag and
    /// media type.
    LookUpCache,
    /// Ask the layer lister for the layers.
    ListLayers,
    /// Ask the layer lister for the configuration; the layers are kept.
    GetConfig(Vec<DockerLayerInfo>),
    /// Ask the generator for a manifest of these layers and configuration.
    Generate(Vec<DockerLayerInfo>, DockerConfigInfo),
    /// Serialize this manifest to JSON and report with `on_serialized`.
    Serialize(DockerManifestDto),
    /// Store this manifest with its digest, then report with `on_stored`.
    Store(DockerManifestDto, String),
    /// The command is answered.
    Finish(Result<GenerateDockerManifestResponse, GenerateDockerManifestError>),
}

/// The first action for a command: an invalid command is answered by its
/// first problem; a forced regeneration skips the cache.
pub open spec fn start_step(c: GenerateDockerManifestCommand, r: ManifestAction) -> bool {
    match command_problem(c) {
        Some(p) => r matches ManifestAction::Finish(Err(e)) && is_problem(e, p),
        None => if c.force_regenerate {
            r == ManifestAction::ListLayers
        } else {
            r == ManifestAction::LookUpCache
        },
    }
}

/// After the cache lookup: a cached manifest answers the command as it was
/// stored; a miss and a failing cache alike go on to list the layers.
pub open spec fn cache_lookup_step(
    outcome: Result<Option<CachedDockerManifest>, DockerCacheError>,
) -> ManifestAction {
    match outcome {
        Ok(Some(c)) => ManifestAction::Finish(
            Ok(
                GenerateDockerManifestResponse {
                    manifest: c.manifest,
                    digest: c.digest,
                    generated_at: c.generated_at,
                    cache_hit: true,
                    media_type: c.media_type,
                },
            ),
        ),
        _ => ManifestAction::ListLayers,
    }
}

/// After the layer listing.
pub open spec fn layers_step(outcome: Result<Vec<DockerLayerInfo>, DockerLayerListingError>) -> ManifestAction {
    match outcome {
        Ok(layers) => ManifestAction::GetConfig(layers),
        Err(e) => ManifestAction::Finish(Err(from_listing_error(e))),
    }
}

/// After the configuration retrieval.
pub open spec fn config_step(
    layers: Vec<DockerLayerInfo>,
    outcome: Result<DockerConfigInfo, DockerConfigRetrievalError>,
) -> ManifestAction {
    match outcome {
        Ok(config) => ManifestAction::Generate(layers, config),
        Err(e) => ManifestAction::Finish(Err(from_config_error(e))),
    }
}

/// After generation.
pub open spec fn generated_step(outcome: Result<DockerManifestDto, DockerManifestGenerationError>) -> ManifestAction {
    match outcome {
        Ok(m) => ManifestAction::Serialize(m),
        Err(e) => ManifestAction::Finish(Err(from_generation_error(e))),
    }
}

/// After serialization: the manifest is stored with the digest of its JSON
/// text; a serialization failure is answered with its message.
pub open spec fn serialized_step(
    manifest: DockerManifestDto,
    json: Result<Vec<u8>, String>,
    r: ManifestAction,
) -> bool {
    match json {
        Ok(bytes) => r matches ManifestAction::Store(m, d) && m == manifest && d@ == sha256_text(bytes@)
            && d@.len() == 71,
        Err(msg) => r matches ManifestAction::Finish(
            Err(GenerateDockerManifestError::SerializationError { reason }),
        ) && reason@ == "Failed to serialize manifest: "@ + msg@,
    }
}

/// After storing: the generated manifest answers the command, not as a
/// cache hit, in the command's media type, whatever the cache said.
pub open spec fn stored_step(
    c: GenerateDockerManifestCommand,
    manifest: DockerManifestDto,
    digest: String,
    generated_at: String,
    r: GenerateDockerManifestResponse,
) -> bool {
    &&& r.manifest == manifest
    &&& r.digest == digest
    &&& r.generated_at == generated_at
    &&& !r.cache_hit
    &&& r.media_type@ == command_media_type(c)
}

/// The use case that answers manifest generation commands, one step at a
/// time.
pub struct GenerateDockerManifestUseCase {}

impl GenerateDockerManifestUseCase {
    pub fn new() -> (r: Self) {
        GenerateDockerManifestUseCase {  }
    }

    /// Whether a repository name is acceptable.
    pub fn is_valid_docker_repository_name(&self, name: &str) -> (r: bool)
        ensures
            r == acceptable_repository_name(name@),
    {
        let v = chars_of(name);
        if v.len() == 0 {
            return false;
        }
        let r = !utf8_len_at_most(&v, 1) && all_alnum_or_any_of(&v, &['-', '_', '.', '/'])
            && check_at_most_once(&v, '/') && v[0] != '-' && v[0] != '.' && v[v.len() - 1] != '-'
            && v[v.len() - 1] != '.';
        r
    }

    /// Whether a tag is acceptable.
    pub fn is_valid_docker_tag(&self, tag: &str) -> (r: bool)
        ensures
            r == acceptable_tag(tag@),
    {
        let v = chars_of(tag);
        v.len() > 0 && utf8_len_at_most(&v, 128) && v[0] != '.' && v[0] != '-'
            && all_alnum_or_any_of(&v, &['-', '_', '.'])
    }

    /// Checks a command; the error names the field and the reason of its
    /// first problem.
    pub fn validate_command(&self, command: &GenerateDockerManifestCommand) -> (r: Result<
        (),
        GenerateDockerManifestError,
    >)
        ensures
            r is Ok <==> command_problem(*command) is None,
            r matches Err(e) ==> command_problem(*command) matches Some(p) && is_problem(e, p),
    {
        if command.repository_name.as_str().is_empty() {
            return Err(validation_error("repository_name", "Repository name cannot be empty"));
        }
        if command.tag.as_str().is_empty() {
            return Err(validation_error("tag", "Tag cannot be empty"));
        }
        if command.repository_id.as_str().is_empty() {
            return Err(validation_error("repository_id", "Repository ID cannot be empty"));
        }
        if !self.is_valid_docker_repository_name(command.repository_name.as_str()) {
            return Err(validation_error("repository_name", "Invalid Docker repository name format"));
        }
        if !self.is_valid_docker_tag(command.tag.as_str()) {
            return Err(validation_error("tag", "Invalid Docker tag format"));
        }
        Ok(())
    }

    /// The media type of the manifest the command asks for.
    pub fn determine_media_type(&self, command: &GenerateDockerManifestCommand) -> (r: String)
        ensures
            r@ == command_media_type(*command),
    {
        match &command.media_type {
            Some(m) => copy_string(m),
            None => "application/vnd.docker.distribution.manifest.v2+json".to_owned(),
        }
    }

    /// The digest of a manifest from its JSON text: "sha256:" and the 64
    /// hexadecimal digits of its SHA-256 hash.
    pub fn calculate_manifest_digest(&self, manifest_json: &[u8]) -> (r: String)
        ensures
            r@ == sha256_text(manifest_json@),
            r@.len() == 71,
    {
        sha256_digest_text(manifest_json)
    }

    /// The first action for a command.
    pub fn start(&self, command: &GenerateDockerManifestCommand) -> (r: ManifestAction)
        ensures
            start_step(*command, r),
    {
        match self.validate_command(command) {
            Err(e) => ManifestAction::Finish(Err(e)),
            Ok(()) => if command.force_regenerate {
                ManifestAction::ListLayers
            } else {
                ManifestAction::LookUpCache
            },
        }
    }

    /// The action after the cache was asked.
    pub fn on_cache_lookup(
        &self,
        outcome: Result<Option<CachedDockerManifest>, DockerCacheError>,
    ) -> (r: ManifestAction)
        ensures
            r == cache_lookup_step(outcome),
    {
        match outcome {
            Ok(Some(c)) => ManifestAction::Finish(
                Ok(
                    GenerateDockerManifestResponse {
                        manifest: c.manifest,
                        digest: c.digest,
                        generated_at: c.generated_at,
                        cache_hit: true,
                        media_type: c.media_type,
                    },
                ),
            ),
            _ => ManifestAction::ListLayers,
        }
    }

    /// The action after the layers were listed.
    pub fn on_layers_listed(
        &self,
        outcome: Result<Vec<DockerLayerInfo>, DockerLayerListingError>,
    ) -> (r: ManifestAction)
        ensures
            r == layers_step(outcome),
    {
        match outcome {
            Ok(layers) => ManifestAction::GetConfig(layers),
            Err(e) => ManifestAction::Finish(Err(map_listing_error(e))),
        }
    }

    /// The action after the configuration was retrieved.
    pub fn on_config(
        &self,
        layers: Vec<DockerLayerInfo>,
        outcome: Result<DockerConfigInfo, DockerConfigRetrievalError>,
    ) -> (r: ManifestAction)
        ensures
            r == config_step(layers, outcome),
    {
        match outcome {
            Ok(config) => ManifestAction::Generate(layers, config),
            Err(e) => ManifestAction::Finish(Err(map_config_error(e))),
        }
    }

    /// The action after the generator answered.
    pub fn on_generated(
        &self,
        outcome: Result<DockerManifestDto, DockerManifestGenerationError>,
    ) -> (r: ManifestAction)
        ensures
            r == generated_step(outcome),
    {
        match outcome {
            Ok(m) => ManifestAction::Serialize(m),
            Err(e) => ManifestAction::Finish(Err(map_generation_error(e))),
        }
    }

    /// The action after the manifest was serialized to JSON.
    pub fn on_serialized(&self, manifest: DockerManifestDto, json: Result<Vec<u8>, String>) -> (r: ManifestAction)
        ensures
            serialized_step(manifest, json, r),
    {
        match json {
            Ok(bytes) => {
                let digest = self.calculate_manifest_digest(bytes.as_slice());
                ManifestAction::Store(manifest, digest)
            },
            Err(msg) => ManifestAction::Finish(
                Err(
                    GenerateDockerManifestError::SerializationError {
                        reason: concat2("Failed to serialize manifest: ", msg.as_str()),
                    },
                ),
            ),
        }
    }

    /// The answer once the manifest was handed to the cache.
    pub fn on_stored(
        &self,
        command: &GenerateDockerManifestCommand,
        manifest: DockerManifestDto,
        digest: String,
        outcome: Result<(), DockerCacheError>,
        generated_at: String,
    ) -> (r: GenerateDockerManifestResponse)
        ensures
            stored_step(*command, manifest, digest, generated_at, r),
    {
        let media_type = self.determine_media_type(command);
        GenerateDockerManifestResponse { manifest, digest, generated_at, cache_hit: false, media_type }
    }
}

fn validation_error(field: &str, reason: &str) -> (r: GenerateDockerManifestError)
    ensures
        r matches GenerateDockerManifestError::ValidationError { field: f, reason: m } && f@ == field@
            && m@ == reason@,
{
    GenerateDockerManifestError::ValidationError { field: field.to_owned(), reason: reason.to_owned() }
}

fn map_listing_error(e: DockerLayerListingError) -> (r: GenerateDockerManifestError)
    ensures
        r == from_listing_error(e),
{
    match e {
        DockerLayerListingError::RepositoryNotFound { repository } => GenerateDockerManifestError::RepositoryNotFound { repository },
        DockerLayerListingError::TagNotFound { tag } => GenerateDockerManifestError::TagNotFound { tag },
        DockerLayerListingError::NoLayersFound { repository, tag } => GenerateDockerManifestError::NoLayersFound { repository, tag },
        DockerLayerListingError::StorageError(m) => GenerateDockerManifestError::StorageError(m),
        DockerLayerListingError::Internal(m) => GenerateDockerManifestError::InternalError(m),
    }
}

fn map_config_error(e: DockerConfigRetrievalError) -> (r: GenerateDockerManifestError)
    ensures
        r == from_config_error(e),
{
    match e {
        DockerConfigRetrievalError::RepositoryNotFound { repository } => GenerateDockerManifestError::RepositoryNotFound { repository },
        DockerConfigRetrievalError::TagNotFound { tag } => GenerateDockerManifestError::TagNotFound { tag },
        DockerConfigRetrievalError::ConfigNotFound { repository, tag } => GenerateDockerManifestError::ConfigNotFound { repository, tag },
        DockerConfigRetrievalError::StorageError(m) => GenerateDockerManifestError::StorageError(m),
        DockerConfigRetrievalError::Internal(m) => GenerateDockerManifestError::InternalError(m),
    }
}

fn map_generation_error(e: DockerManifestGenerationError) -> (r: GenerateDockerManifestError)
    ensures
        r == from_generation_error(e),
{
    match e {
        DockerManifestGenerationError::GenerationFailed { reason } => GenerateDockerManifestError::ManifestGenerationFailed { reason },
        DockerManifestGenerationError::InvalidLayerConfig { reason } => GenerateDockerManifestError::InvalidLayerConfig { reason },
        DockerManifestGenerationError::InvalidConfig { reason } => GenerateDockerManifestError::InvalidConfig { reason },
        DockerManifestGenerationError::UnsupportedVersion { version } => GenerateDockerManifestError::UnsupportedManifestVersion { version },
        DockerManifestGenerationError::Internal(m) => GenerateDockerManifestError::InternalError(m),
    }
}

/// A failing cache lookup is treated as a miss: generation goes on exactly
/// as when nothing was cached.
pub proof fn law_cache_lookup_failure_is_a_miss(e: DockerCacheError)
    ensures
        cache_lookup_step(Err(e)) == cache_lookup_step(Ok(None)),
        cache_lookup_step(Err(e)) == ManifestAction::ListLayers,
{
}

/// A cached manifest is returned as it was stored, with its digest and
/// media type, marked as a cache hit.
pub proof fn law_cache_hit_returns_cached(c: CachedDockerManifest)
    ensures
        cache_lookup_step(Ok(Some(c))) matches ManifestAction::Finish(Ok(r)) && r.manifest == c.manifest
            && r.digest == c.digest && r.media_type == c.media_type && r.cache_hit,
{
}

/// The answer to a generated manifest does not depend on whether storing
/// it in the cache succeeded, and is never a cache hit.
pub proof fn law_store_outcome_is_ignored(
    c: GenerateDockerManifestCommand,
    manifest: DockerManifestDto,
    digest: String,
    generated_at: String,
    r: GenerateDockerManifestResponse,
)
    requires
        stored_step(c, manifest, digest, generated_at, r),
    ensures
        !r.cache_hit,
        r.digest == digest,
        r.media_type@ == command_media_type(c),
{
}

/// A valid command with a forced regeneration never consults the cache; an
/// invalid command never reaches any port.
pub proof fn law_start(c: GenerateDockerManifestCommand, r: ManifestAction)
    requires
        start_step(c, r),
    ensures
        command_problem(c) is None && c.force_regenerate ==> r == ManifestAction::ListLayers,
        command_problem(c) is Some ==> r is Finish,
{
}

/// The digest stored with a serialized manifest is "sha256:" followed by 64
/// hexadecimal digits of the hash of its JSON text.
pub proof fn law_digest_of_serialized(manifest: DockerManifestDto, bytes: Vec<u8>, r: ManifestAction)
    requires
        serialized_step(manifest, Ok(bytes), r),
    ensures
        r matches ManifestAction::Store(_, d) && d@ == sha256_text(bytes@) && d@.len() == 71
            && d@.take(7) == "sha256:"@,
{
    reveal_strlit("sha256:");
    if let ManifestAction::Store(_, d) = r {
        assert(d@.take(7) =~= "sha256:"@);
    }
}

} // verus!

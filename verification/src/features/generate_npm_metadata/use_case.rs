//! The decisions of npm metadata generation: how the package name is
//! checked and completed with its scope, when cached metadata is fresh, how
//! the generated metadata is combined with the latest version's package
//! information, and how each port error is answered. The caller performs
//! each action on its ports and hands the outcome back.

use std::collections::HashMap;
use vstd::prelude::*;
use vstd::std_specs::hash::obeys_key_model;
use vstd::arithmetic::div_mod::lemma_div_is_ordered;
use crate::clock::{parse_rfc3339_instant, rfc3339_instant};
use crate::domain::{NpmPackageName, NpmVersion};
use crate::text::{concat2, concat3};
use super::dto::{
    valid_npm_package_name, validate_npm_package_name, AuthorDto, BinDto, DistDto,
    GenerateNpmMetadataError, GenerateNpmMetadataRequest, GenerateNpmMetadataResponse,
    NpmPackageMetadataDto, PublishConfigDto,
};
use super::ports::{
    AuthorInfo, BinInfo, CachedMetadata, DistInfo, MetadataCacheError, MetadataGeneratorError,
    PackageInfo, PackageListerError, PublishConfigInfo,
};

verus! {

/// The full name of the requested package: `scope/name` when a scope is
/// given, else the name.
pub open spec fn full_package_name(r: GenerateNpmMetadataRequest) -> Seq<char> {
    match r.scope {
        Some(s) => s@ + "/"@ + r.package_name@,
        None => r.package_name@,
    }
}

/// The nanoseconds since the Unix epoch of a time given as whole seconds
/// and the nanoseconds past them.
pub open spec fn nanos_of(t: (i64, u32)) -> int {
    t.0 * 1_000_000_000 + t.1
}

/// The whole seconds from `then` to `now`, cut toward zero, as chrono's
/// `num_seconds` gives them for the difference of the two times. Where a
/// time falls in a leap second (nanoseconds of 10^9 or more) chrono's
/// subtraction corrects the difference by that second; this does not.
pub open spec fn age_seconds(then: (i64, u32), now: (i64, u32)) -> int {
    let d = nanos_of(now) - nanos_of(then);
    if d >= 0 {
        d / 1_000_000_000
    } else {
        -((-d) / 1_000_000_000)
    }
}

/// Whether metadata cached at `cached_at` (Unix seconds and nanoseconds,
/// `None` when the stored time could not be read) is still fresh at `now`:
/// its age in whole seconds is below its time to live, taken as a signed
/// 64-bit number of seconds.
pub open spec fn is_fresh(cached_at: Option<(i64, u32)>, now: (i64, u32), ttl_seconds: u64) -> bool {
    match cached_at {
        Some(t) => age_seconds(t, now) < (ttl_seconds as i64),
        None => false,
    }
}

/// The first of the two optional values that is present.
pub open spec fn pick<T>(first: Option<T>, second: Option<T>) -> Option<T> {
    match first {
        Some(v) => Some(v),
        None => second,
    }
}

pub open spec fn author_dto(a: AuthorInfo) -> AuthorDto {
    match a {
        AuthorInfo::String(s) => AuthorDto::String(s),
        AuthorInfo::Object { name, email, url } => AuthorDto::Object { name, email, url },
    }
}

pub open spec fn bin_dto(b: BinInfo) -> BinDto {
    match b {
        BinInfo::Single(s) => BinDto::Single(s),
        BinInfo::Multiple(m) => BinDto::Multiple(m),
    }
}

pub open spec fn publish_config_dto(c: PublishConfigInfo) -> PublishConfigDto {
    PublishConfigDto {
        registry: c.registry,
        ignore: c.ignore,
        included: c.included,
        access: c.access,
        tag: c.tag,
    }
}

pub open spec fn dist_dto(d: DistInfo) -> DistDto {
    DistDto {
        integrity: d.integrity,
        tarball: d.tarball,
        file_count: d.file_count,
        unpacked_size: d.unpacked_size,
        shasum: d.shasum,
        size: d.size,
    }
}

/// A `time` record: "created" maps to `created` and "modified" to
/// `modified`, and nothing else is in it.
pub open spec fn time_record(t: Map<String, String>, created: String, modified: String) -> bool {
    exists|kc: String, km: String|
        kc@ == "created"@ && km@ == "modified"@ && t == #[trigger] Map::<String, String>::empty().insert(kc, created).insert(
            km,
            modified,
        )
}

pub open spec fn map_option<A, B>(o: Option<A>, f: spec_fn(A) -> B) -> Option<B> {
    match o {
        Some(a) => Some(f(a)),
        None => None,
    }
}

/// The generated metadata combined with the package information of the
/// latest version: every field the information carries replaces the
/// generated one, the distribution tags are the information's, and a
/// publication time gives a `time` record of the creation (that time) and
/// modification (`modified_at`) times; name, version, repository, versions
/// and users stay as generated.
pub open spec fn combined(m: NpmPackageMetadataDto, info: PackageInfo, modified_at: String, r: NpmPackageMetadataDto) -> bool {
    &&& r.name == m.name
    &&& r.version == m.version
    &&& r.repository == m.repository
    &&& r.versions == m.versions
    &&& r.users == m.users
    &&& r.description == pick(info.description, m.description)
    &&& r.keywords == pick(info.keywords, m.keywords)
    &&& r.homepage == pick(info.homepage, m.homepage)
    &&& r.author == pick(map_option(info.author, |a: AuthorInfo| author_dto(a)), m.author)
    &&& r.license == pick(info.license, m.license)
    &&& r.dependencies == pick(info.dependencies, m.dependencies)
    &&& r.dev_dependencies == pick(info.dev_dependencies, m.dev_dependencies)
    &&& r.optional_dependencies == pick(info.optional_dependencies, m.optional_dependencies)
    &&& r.peer_dependencies == pick(info.peer_dependencies, m.peer_dependencies)
    &&& r.scripts == pick(info.scripts, m.scripts)
    &&& r.main == pick(info.main, m.main)
    &&& r.bin == pick(map_option(info.bin, |b: BinInfo| bin_dto(b)), m.bin)
    &&& r.files == pick(info.files, m.files)
    &&& r.engines == pick(info.engines, m.engines)
    &&& r.os == pick(info.os, m.os)
    &&& r.cpu == pick(info.cpu, m.cpu)
    &&& r.private == pick(info.private, m.private)
    &&& r.publish_config == pick(
        map_option(info.publish_config, |c: PublishConfigInfo| publish_config_dto(c)),
        m.publish_config,
    )
    &&& r.dist_tags == info.dist_tags
    &&& (info.published_at matches Some(p) ==> r.time matches Some(t) && (obeys_key_model::<String>() ==> time_record(
        t@,
        p,
        modified_at,
    )))
    &&& (info.published_at is None ==> r.time == m.time)
    &&& r.dist == pick(map_option(info.dist, |d: DistInfo| dist_dto(d)), m.dist)
}

/// The answer to a generator error, for a request in `repository_id`.
pub open spec fn generator_error_answer(
    e: MetadataGeneratorError,
    repository_id: Seq<char>,
    r: GenerateNpmMetadataError,
) -> bool {
    match e {
        MetadataGeneratorError::PackageNotFound { package_name } => r matches GenerateNpmMetadataError::PackageNotFound { package_name: p, repository_id: i }
            && p == package_name && i@ == repository_id,
        MetadataGeneratorError::InvalidPackageName { name } => r == GenerateNpmMetadataError::InvalidPackageName { name },
        MetadataGeneratorError::GenerationFailed { reason } => r == GenerateNpmMetadataError::MetadataGenerationFailed { reason },
        MetadataGeneratorError::RepositoryError(m) => r == GenerateNpmMetadataError::RepositoryError(m),
    }
}

/// The answer to a package lister error, for a request in `repository_id`.
pub open spec fn lister_error_answer(e: PackageListerError, repository_id: Seq<char>, r: GenerateNpmMetadataError) -> bool {
    match e {
        PackageListerError::PackageNotFound { package_name } => r matches GenerateNpmMetadataError::PackageNotFound { package_name: p, repository_id: i }
            && p == package_name && i@ == repository_id,
        PackageListerError::RepositoryNotFound { repository_id: missing } => r matches GenerateNpmMetadataError::RepositoryError(m)
            && m@ == "Repository not found: "@ + missing@,
        PackageListerError::RepositoryError(m) => r == GenerateNpmMetadataError::RepositoryError(m),
    }
}

/// What the caller does next on behalf of the use case.
#[derive(Debug)]
pub enum NpmAction {
    /// Ask the cache for metadata of this package.
    LookUpCache(NpmPackageName),
    /// Ask the generator for metadata of this package.
    Generate(NpmPackageName),
    /// Ask the lister for the versions of the package; the generated
    /// metadata is kept.
    ListVersions(NpmPackageMetadataDto),
    /// Ask the lister for the information of this version; the generated
    /// metadata is kept.
    GetPackageInfo(NpmPackageMetadataDto, NpmVersion),
    /// Store the combined metadata, then report with `on_stored`.
    Store(NpmPackageMetadataDto),
    /// The request is answered.
    Finish(Result<GenerateNpmMetadataResponse, GenerateNpmMetadataError>),
}

/// The first action for a request: the package name must be valid, and so
/// must the full name with its scope; a forced regeneration skips the cache.
pub open spec fn start_step(req: GenerateNpmMetadataRequest, r: NpmAction) -> bool {
    if !valid_npm_package_name(req.package_name@) {
        r matches NpmAction::Finish(Err(GenerateNpmMetadataError::InvalidPackageName { name }))
            && name@ == req.package_name@
    } else if !valid_npm_package_name(full_package_name(req)) {
        r matches NpmAction::Finish(Err(GenerateNpmMetadataError::InvalidPackageName { name }))
            && name@ == full_package_name(req)
    } else if req.force_regenerate {
        r matches NpmAction::Generate(n) && n.value@ == full_package_name(req)
    } else {
        r matches NpmAction::LookUpCache(n) && n.value@ == full_package_name(req)
    }
}

/// After the cache lookup at time `now`: fresh cached metadata answers the
/// request as a cache hit stamped with its caching time; stale metadata, a
/// miss, an unreadable time and a failing cache alike go on to generation.
pub open spec fn cache_lookup_step(
    name: NpmPackageName,
    outcome: Result<Option<CachedMetadata>, MetadataCacheError>,
    now: (i64, u32),
    r: NpmAction,
) -> bool {
    match outcome {
        Ok(Some(c)) => if is_fresh(rfc3339_instant(c.cached_at@), now, c.ttl_seconds) {
            r == NpmAction::Finish(
                Ok(GenerateNpmMetadataResponse { metadata: c.metadata, generated_at: c.cached_at, cache_hit: true }),
            )
        } else {
            r == NpmAction::Generate(name)
        },
        _ => r == NpmAction::Generate(name),
    }
}

/// The use case that answers npm metadata requests, one step at a time.
pub struct GenerateNpmMetadataUseCase {
    /// How long stored metadata stays fresh, in seconds.
    pub default_ttl_seconds: u64,
}

impl GenerateNpmMetadataUseCase {
    pub fn new(default_ttl_seconds: u64) -> (r: Self)
        ensures
            r.default_ttl_seconds == default_ttl_seconds,
    {
        GenerateNpmMetadataUseCase { default_ttl_seconds }
    }

    /// Whether metadata cached at `cached_at` is fresh at `now`.
    pub fn cache_freshness(cached_at: Option<(i64, u32)>, now: (i64, u32), ttl_seconds: u64) -> (r: bool)
        ensures
            r == is_fresh(cached_at, now, ttl_seconds),
    {
        match cached_at {
            Some(t) => {
                let d: i128 = (now.0 as i128 - t.0 as i128) * 1_000_000_000i128 + (now.1 as i128 - t.1 as i128);
                let age: i128 = if d >= 0 {
                    d / 1_000_000_000i128
                } else {
                    -((-d) / 1_000_000_000i128)
                };
                let ttl: i64 = ttl_seconds as i64;
                age < ttl as i128
            },
            None => false,
        }
    }

    /// The full name of the requested package.
    pub fn full_package_name(request: &GenerateNpmMetadataRequest) -> (r: String)
        ensures
            r@ == full_package_name(*request),
    {
        match &request.scope {
            Some(scope) => concat3(scope.as_str(), "/", request.package_name.as_str()),
            None => request.package_name.as_str().to_owned(),
        }
    }

    /// The first action for a request.
    pub fn start(&self, request: &GenerateNpmMetadataRequest) -> (r: NpmAction)
        ensures
            start_step(*request, r),
    {
        if let Err(e) = validate_npm_package_name(request.package_name.as_str()) {
            return NpmAction::Finish(Err(e));
        }
        let full = Self::full_package_name(request);
        match NpmPackageName::new(full.as_str()) {
            Err(_) => NpmAction::Finish(Err(GenerateNpmMetadataError::InvalidPackageName { name: full })),
            Ok(name) => if request.force_regenerate {
                NpmAction::Generate(name)
            } else {
                NpmAction::LookUpCache(name)
            },
        }
    }

    /// The action after the cache was asked, at the current time.
    pub fn on_cache_lookup(
        &self,
        name: NpmPackageName,
        outcome: Result<Option<CachedMetadata>, MetadataCacheError>,
    ) -> (r: NpmAction)
        ensures
            exists|now: (i64, u32)| cache_lookup_step(name, outcome, now, r),
    {
        let now = crate::clock::now_unix_instant();
        self.on_cache_lookup_at(name, outcome, now)
    }

    /// The action after the cache was asked, at time `now` (Unix seconds and
    /// the nanoseconds past them).
    pub fn on_cache_lookup_at(
        &self,
        name: NpmPackageName,
        outcome: Result<Option<CachedMetadata>, MetadataCacheError>,
        now: (i64, u32),
    ) -> (r: NpmAction)
        ensures
            cache_lookup_step(name, outcome, now, r),
    {
        match outcome {
            Ok(Some(c)) => {
                let cached_at = parse_rfc3339_instant(c.cached_at.as_str());
                if Self::cache_freshness(cached_at, now, c.ttl_seconds) {
                    NpmAction::Finish(
                        Ok(
                            GenerateNpmMetadataResponse {
                                metadata: c.metadata,
                                generated_at: c.cached_at,
                                cache_hit: true,
                            },
                        ),
                    )
                } else {
                    NpmAction::Generate(name)
                }
            },
            _ => NpmAction::Generate(name),
        }
    }

    /// The action after the generator answered.
    pub fn on_generated(
        &self,
        outcome: Result<NpmPackageMetadataDto, MetadataGeneratorError>,
        repository_id: &str,
    ) -> (r: NpmAction)
        ensures
            match outcome {
                Ok(m) => r == NpmAction::ListVersions(m),
                Err(e) => r matches NpmAction::Finish(Err(a)) && generator_error_answer(e, repository_id@, a),
            },
    {
        match outcome {
            Ok(m) => NpmAction::ListVersions(m),
            Err(e) => NpmAction::Finish(Err(map_generator_error(e, repository_id))),
        }
    }

    /// The action after the versions were listed: the information of the
    /// last listed version is asked for next; no version at all means the
    /// package was not found.
    pub fn on_versions_listed(
        &self,
        metadata: NpmPackageMetadataDto,
        outcome: Result<Vec<NpmVersion>, PackageListerError>,
        name: &NpmPackageName,
        repository_id: &str,
    ) -> (r: NpmAction)
        ensures
            match outcome {
                Ok(vs) => if vs@.len() == 0 {
                    r matches NpmAction::Finish(
                        Err(GenerateNpmMetadataError::PackageNotFound { package_name: p, repository_id: i }),
                    ) && p@ == name.value@ && i@ == repository_id@
                } else {
                    r == NpmAction::GetPackageInfo(metadata, vs@.last())
                },
                Err(e) => r matches NpmAction::Finish(Err(a)) && lister_error_answer(e, repository_id@, a),
            },
    {
        match outcome {
            Err(e) => NpmAction::Finish(Err(map_lister_error(e, repository_id))),
            Ok(versions) => {
                let mut versions = versions;
                match versions.pop() {
                    Some(latest) => NpmAction::GetPackageInfo(metadata, latest),
                    None => NpmAction::Finish(
                        Err(
                            GenerateNpmMetadataError::PackageNotFound {
                                package_name: name.to_string(),
                                repository_id: repository_id.to_owned(),
                            },
                        ),
                    ),
                }
            },
        }
    }

    /// The action after the package information was read; `modified_at` is
    /// the RFC 3339 time recorded as the modification time.
    pub fn on_package_info(
        &self,
        metadata: NpmPackageMetadataDto,
        outcome: Result<PackageInfo, PackageListerError>,
        repository_id: &str,
        modified_at: String,
    ) -> (r: NpmAction)
        ensures
            match outcome {
                Ok(info) => r matches NpmAction::Store(c) && combined(metadata, info, modified_at, c),
                Err(e) => r matches NpmAction::Finish(Err(a)) && lister_error_answer(e, repository_id@, a),
            },
    {
        match outcome {
            Err(e) => NpmAction::Finish(Err(map_lister_error(e, repository_id))),
            Ok(info) => NpmAction::Store(self.combine_metadata(metadata, info, modified_at)),
        }
    }

    /// The answer once the combined metadata was handed to the cache: it
    /// answers the request, not as a cache hit, whatever the cache said.
    pub fn on_stored(
        &self,
        metadata: NpmPackageMetadataDto,
        outcome: Result<(), MetadataCacheError>,
        generated_at: String,
    ) -> (r: GenerateNpmMetadataResponse)
        ensures
            r == (GenerateNpmMetadataResponse { metadata, generated_at, cache_hit: false }),
    {
        GenerateNpmMetadataResponse { metadata, generated_at, cache_hit: false }
    }

    /// The generated metadata combined with the package information.
    pub fn combine_metadata(
        &self,
        metadata: NpmPackageMetadataDto,
        info: PackageInfo,
        modified_at: String,
    ) -> (r: NpmPackageMetadataDto)
        ensures
            combined(metadata, info, modified_at, r),
    {
        broadcast use vstd::std_specs::hash::group_hash_axioms;

        let ghost modified = modified_at;
        let time = match info.published_at {
            Some(published_at) => {
                let ghost created = published_at;
                let mut t: HashMap<String, String> = HashMap::new();
                let kc = "created".to_owned();
                let km = "modified".to_owned();
                let ghost (gc, gm) = (kc, km);
                t.insert(kc, published_at);
                t.insert(km, modified_at);
                proof {
                    if obeys_key_model::<String>() {
                        assert(t@ == Map::<String, String>::empty().insert(gc, created).insert(gm, modified));
                    }
                }
                Some(t)
            },
            None => metadata.time,
        };
        NpmPackageMetadataDto {
            name: metadata.name,
            description: or_value(info.description, metadata.description),
            version: metadata.version,
            keywords: or_value(info.keywords, metadata.keywords),
            homepage: or_value(info.homepage, metadata.homepage),
            repository: metadata.repository,
            author: match info.author {
                Some(a) => Some(convert_author(a)),
                None => metadata.author,
            },
            license: or_value(info.license, metadata.license),
            dependencies: or_value(info.dependencies, metadata.dependencies),
            dev_dependencies: or_value(info.dev_dependencies, metadata.dev_dependencies),
            optional_dependencies: or_value(info.optional_dependencies, metadata.optional_dependencies),
            peer_dependencies: or_value(info.peer_dependencies, metadata.peer_dependencies),
            scripts: or_value(info.scripts, metadata.scripts),
            main: or_value(info.main, metadata.main),
            bin: match info.bin {
                Some(b) => Some(convert_bin(b)),
                None => metadata.bin,
            },
            files: or_value(info.files, metadata.files),
            engines: or_value(info.engines, metadata.engines),
            os: or_value(info.os, metadata.os),
            cpu: or_value(info.cpu, metadata.cpu),
            private: or_value(info.private, metadata.private),
            publish_config: match info.publish_config {
                Some(c) => Some(convert_publish_config(c)),
                None => metadata.publish_config,
            },
            dist_tags: info.dist_tags,
            versions: metadata.versions,
            time,
            users: metadata.users,
            dist: match info.dist {
                Some(d) => Some(convert_dist(d)),
                None => metadata.dist,
            },
        }
    }
}

fn or_value<T>(first: Option<T>, second: Option<T>) -> (r: Option<T>)
    ensures
        r == pick(first, second),
{
    match first {
        Some(v) => Some(v),
        None => second,
    }
}

fn convert_author(a: AuthorInfo) -> (r: AuthorDto)
    ensures
        r == author_dto(a),
{
    match a {
        AuthorInfo::String(s) => AuthorDto::String(s),
        AuthorInfo::Object { name, email, url } => AuthorDto::Object { name, email, url },
    }
}

fn convert_bin(b: BinInfo) -> (r: BinDto)
    ensures
        r == bin_dto(b),
{
    match b {
        BinInfo::Single(s) => BinDto::Single(s),
        BinInfo::Multiple(m) => BinDto::Multiple(m),
    }
}

fn convert_publish_config(c: PublishConfigInfo) -> (r: PublishConfigDto)
    ensures
        r == publish_config_dto(c),
{
    PublishConfigDto {
        registry: c.registry,
        ignore: c.ignore,
        included: c.included,
        access: c.access,
        tag: c.tag,
    }
}

fn convert_dist(d: DistInfo) -> (r: DistDto)
    ensures
        r == dist_dto(d),
{
    DistDto {
        integrity: d.integrity,
        tarball: d.tarball,
        file_count: d.file_count,
        unpacked_size: d.unpacked_size,
        shasum: d.shasum,
        size: d.size,
    }
}

fn map_generator_error(e: MetadataGeneratorError, repository_id: &str) -> (r: GenerateNpmMetadataError)
    ensures
        generator_error_answer(e, repository_id@, r),
{
    match e {
        MetadataGeneratorError::PackageNotFound { package_name } => GenerateNpmMetadataError::PackageNotFound {
            package_name,
            repository_id: repository_id.to_owned(),
        },
        MetadataGeneratorError::InvalidPackageName { name } => GenerateNpmMetadataError::InvalidPackageName { name },
        MetadataGeneratorError::GenerationFailed { reason } => GenerateNpmMetadataError::MetadataGenerationFailed { reason },
        MetadataGeneratorError::RepositoryError(m) => GenerateNpmMetadataError::RepositoryError(m),
    }
}

fn map_lister_error(e: PackageListerError, repository_id: &str) -> (r: GenerateNpmMetadataError)
    ensures
        lister_error_answer(e, repository_id@, r),
{
    match e {
        PackageListerError::PackageNotFound { package_name } => GenerateNpmMetadataError::PackageNotFound {
            package_name,
            repository_id: repository_id.to_owned(),
        },
        PackageListerError::RepositoryNotFound { repository_id: missing } => GenerateNpmMetadataError::RepositoryError(
            concat2("Repository not found: ", missing.as_str()),
        ),
        PackageListerError::RepositoryError(m) => GenerateNpmMetadataError::RepositoryError(m),
    }
}

/// A failing cache, a miss and an unreadable caching time all lead to
/// generation, exactly as if nothing were cached.
pub proof fn law_cache_failure_is_a_miss(
    name: NpmPackageName,
    e: MetadataCacheError,
    now: (i64, u32),
    r: NpmAction,
)
    requires
        cache_lookup_step(name, Err(e), now, r),
    ensures
        cache_lookup_step(name, Ok(None), now, r),
        r == NpmAction::Generate(name),
{
}

/// Cached metadata is served exactly while its age is below its time to
/// live; then it is returned unchanged, stamped with its caching time.
pub proof fn law_fresh_cache_is_served(name: NpmPackageName, c: CachedMetadata, now: (i64, u32), r: NpmAction)
    requires
        cache_lookup_step(name, Ok(Some(c)), now, r),
    ensures
        r is Finish <==> is_fresh(rfc3339_instant(c.cached_at@), now, c.ttl_seconds),
        r is Finish ==> r == NpmAction::Finish(
            Ok(GenerateNpmMetadataResponse { metadata: c.metadata, generated_at: c.cached_at, cache_hit: true }),
        ),
{
}

/// Metadata that is at least as old as its time to live is never served.
pub proof fn law_expired_cache_is_regenerated(
    name: NpmPackageName,
    c: CachedMetadata,
    t: (i64, u32),
    now: (i64, u32),
    r: NpmAction,
)
    requires
        rfc3339_instant(c.cached_at@) == Some(t),
        c.ttl_seconds <= i64::MAX,
        age_seconds(t, now) >= c.ttl_seconds,
        cache_lookup_step(name, Ok(Some(c)), now, r),
    ensures
        r == NpmAction::Generate(name),
{
}

/// Package information always wins over generated metadata for the fields
/// it carries, and its distribution tags replace the generated ones.
pub proof fn law_package_info_wins(m: NpmPackageMetadataDto, info: PackageInfo, modified_at: String, r: NpmPackageMetadataDto)
    requires
        combined(m, info, modified_at, r),
    ensures
        info.description is Some ==> r.description == info.description,
        info.license is Some ==> r.license == info.license,
        info.dependencies is Some ==> r.dependencies == info.dependencies,
        info.description is None ==> r.description == m.description,
        r.dist_tags == info.dist_tags,
        r.name == m.name && r.version == m.version,
{
}

/// Freshness only expires: metadata fresh at some time was fresh at every
/// earlier time.
pub proof fn law_freshness_only_expires(
    cached_at: Option<(i64, u32)>,
    earlier: (i64, u32),
    later: (i64, u32),
    ttl_seconds: u64,
)
    requires
        nanos_of(earlier) <= nanos_of(later),
        is_fresh(cached_at, later, ttl_seconds),
    ensures
        is_fresh(cached_at, earlier, ttl_seconds),
{
    if let Some(t) = cached_at {
        let x = nanos_of(earlier) - nanos_of(t);
        let y = nanos_of(later) - nanos_of(t);
        if x >= 0 {
            lemma_div_is_ordered(x, y, 1_000_000_000);
        } else if y < 0 {
            lemma_div_is_ordered(-y, -x, 1_000_000_000);
        } else {
            lemma_div_is_ordered(0, y, 1_000_000_000);
            lemma_div_is_ordered(0, -x, 1_000_000_000);
        }
    }
}

/// Combining keeps the package information's distribution data field by
/// field, each under its own name; without such data the generated one
/// stays.
pub proof fn law_combined_keeps_dist(m: NpmPackageMetadataDto, info: PackageInfo, modified_at: String, r: NpmPackageMetadataDto)
    requires
        combined(m, info, modified_at, r),
    ensures
        info.dist matches Some(d) ==> (r.dist matches Some(x) && x.integrity == d.integrity && x.tarball == d.tarball
            && x.file_count == d.file_count && x.unpacked_size == d.unpacked_size && x.shasum == d.shasum && x.size
            == d.size),
        info.dist is None ==> r.dist == m.dist,
{
}

/// Combining keeps the package information's author field by field, each
/// under its own name; without an author the generated one stays.
pub proof fn law_combined_keeps_author(m: NpmPackageMetadataDto, info: PackageInfo, modified_at: String, r: NpmPackageMetadataDto)
    requires
        combined(m, info, modified_at, r),
    ensures
        info.author matches Some(AuthorInfo::Object { name, email, url }) ==> r.author == Some(
            AuthorDto::Object { name, email, url },
        ),
        info.author matches Some(AuthorInfo::String(s)) ==> r.author == Some(AuthorDto::String(s)),
        info.author is None ==> r.author == m.author,
{
}

} // verus!

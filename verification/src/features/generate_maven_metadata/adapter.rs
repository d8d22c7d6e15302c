//! The storage-side logic of the Maven metadata feature: the metadata
//! generated from an artifact's versions, its XML document, the cache keys,
//! and the cursor over listed documents.

use vstd::prelude::*;
use vstd::string::*;
use crate::domain::{valid_maven_version, MavenCoordinates, MavenVersion};
use crate::text::{chars_of, concat2, concat3, concat5, contains_seq, seq_contains, seq_starts_with};
use super::dto::{strings_view, MavenMetadataDto, MavenMetadataVersioningDto};
use super::ports::{MavenArtifactListerError, MavenMetadataCacheError, MavenMetadataGeneratorError};

verus! {

/// One `<version>` line of the document.
pub open spec fn version_line(v: Seq<char>) -> Seq<char> {
    "      <version>"@ + v + "</version>"@
}

/// The `<version>` lines of a version list, joined by newlines.
pub open spec fn version_lines(vs: Seq<Seq<char>>) -> Seq<char>
    decreases vs.len(),
{
    if vs.len() == 0 {
        Seq::empty()
    } else if vs.len() == 1 {
        version_line(vs[0])
    } else {
        version_lines(vs.drop_last()) + "\n"@ + version_line(vs.last())
    }
}

/// The `maven-metadata.xml` document of a metadata record.
pub open spec fn metadata_xml(m: MavenMetadataDto) -> Seq<char> {
    "<?xml version=\"1.0\" encoding=\"UTF-8\"?>\n<metadata>\n  <groupId>"@ + m.group_id@
        + "</groupId>\n  <artifactId>"@ + m.artifact_id@ + "</artifactId>\n  <versioning>\n    <latest>"@
        + m.versioning.latest@ + "</latest>\n    <release>"@ + m.versioning.release@
        + "</release>\n    <versions>\n"@ + version_lines(strings_view(m.versioning.versions@))
        + "\n    </versions>\n    <lastUpdated>"@ + m.versioning.last_updated@
        + "</lastUpdated>\n  </versioning>\n</metadata>"@
}

/// The version lines of a list of version strings.
pub fn render_version_lines(versions: &Vec<String>) -> (r: String)
    ensures
        r@ == version_lines(strings_view(versions@)),
{
    let mut r = String::new();
    let mut i: usize = 0;
    while i < versions.len()
        invariant
            0 <= i <= versions.len(),
            r@ == version_lines(strings_view(versions@.take(i as int))),
        decreases versions.len() - i,
    {
        let line = concat3("      <version>", versions[i].as_str(), "</version>");
        proof {
            let vs = strings_view(versions@.take(i as int + 1));
            assert(vs.drop_last() =~= strings_view(versions@.take(i as int)));
            assert(vs.last() == versions@[i as int]@);
            if i == 0 {
                assert(vs.len() == 1);
                assert(vs[0] == versions@[0]@);
            }
        }
        if i == 0 {
            r = line;
        } else {
            r = concat3(r.as_str(), "\n", line.as_str());
        }
        i = i + 1;
    }
    proof {
        assert(versions@.take(versions.len() as int) =~= versions@);
    }
    r
}

/// `a` comes before `b` in the order of their text: character by
/// character by code point, a proper prefix first. This is the order of
/// `str` and of `String`.
pub open spec fn text_lt(a: Seq<char>, b: Seq<char>) -> bool
    decreases a.len(),
{
    if b.len() == 0 {
        false
    } else if a.len() == 0 {
        true
    } else if a[0] != b[0] {
        (a[0] as u32) < (b[0] as u32)
    } else {
        text_lt(a.drop_first(), b.drop_first())
    }
}

/// The greatest of a non-empty list of versions in the order of their text;
/// of equal ones, the later.
pub open spec fn greatest_version(vs: Seq<Seq<char>>) -> Seq<char>
    decreases vs.len(),
{
    if vs.len() <= 1 {
        vs[0]
    } else {
        let m = greatest_version(vs.drop_last());
        if text_lt(vs.last(), m) {
            m
        } else {
            vs.last()
        }
    }
}

/// The versions that do not contain "-SNAPSHOT", in order.
pub open spec fn stable_versions(vs: Seq<Seq<char>>) -> Seq<Seq<char>>
    decreases vs.len(),
{
    if vs.len() == 0 {
        Seq::empty()
    } else {
        let rest = stable_versions(vs.drop_last());
        if seq_contains(vs.last(), "-SNAPSHOT"@) {
            rest
        } else {
            rest.push(vs.last())
        }
    }
}

/// The release version: the greatest version that does not contain
/// "-SNAPSHOT", or the greatest version where every one does.
pub open spec fn release_version(vs: Seq<Seq<char>>) -> Seq<char> {
    if stable_versions(vs).len() > 0 {
        greatest_version(stable_versions(vs))
    } else {
        greatest_version(vs)
    }
}

/// The texts of a list of versions.
pub open spec fn version_texts(vs: Seq<MavenVersion>) -> Seq<Seq<char>> {
    vs.map_values(|v: MavenVersion| v.value@)
}

/// The metadata generated for `c` from a non-empty list of versions: the
/// versions in their order, the greatest as the latest, the release
/// version, no snapshot, and the given update time.
pub open spec fn generated_metadata(
    c: MavenCoordinates,
    versions: Seq<MavenVersion>,
    last_updated: String,
    m: MavenMetadataDto,
) -> bool {
    &&& m.group_id@ == c.group_id@
    &&& m.artifact_id@ == c.artifact_id@
    &&& m.version@ == Seq::<char>::empty()
    &&& strings_view(m.versioning.versions@) == version_texts(versions)
    &&& m.versioning.latest@ == greatest_version(version_texts(versions))
    &&& m.versioning.release@ == release_version(version_texts(versions))
    &&& m.versioning.snapshot is None
    &&& m.versioning.last_updated == last_updated
}

/// Whether `a` comes before `b` in the order of their text.
pub fn text_less(a: &Vec<char>, b: &Vec<char>) -> (r: bool)
    ensures
        r == text_lt(a@, b@),
{
    let mut i: usize = 0;
    proof {
        assert(a@.skip(0) =~= a@);
        assert(b@.skip(0) =~= b@);
    }
    while i < a.len() && i < b.len() && a[i] == b[i]
        invariant
            0 <= i <= a.len(),
            i <= b.len(),
            text_lt(a@, b@) == text_lt(a@.skip(i as int), b@.skip(i as int)),
        decreases a.len() - i,
    {
        proof {
            assert(a@.skip(i as int).drop_first() =~= a@.skip(i + 1));
            assert(b@.skip(i as int).drop_first() =~= b@.skip(i + 1));
        }
        i = i + 1;
    }
    if i == b.len() {
        false
    } else if i == a.len() {
        true
    } else {
        (a[i] as u32) < (b[i] as u32)
    }
}

/// Generator of Maven metadata kept in an object store bucket.
pub struct S3MavenMetadataGenerator {
    pub bucket_name: String,
}

impl S3MavenMetadataGenerator {
    pub fn new(bucket_name: String) -> (r: Self)
        ensures
            r.bucket_name == bucket_name,
    {
        S3MavenMetadataGenerator { bucket_name }
    }

    /// The metadata of an artifact from its versions, stamped with
    /// `last_updated`; an artifact with no version has none.
    pub fn generate_metadata_at(
        &self,
        coordinates: &MavenCoordinates,
        versions: Vec<MavenVersion>,
        last_updated: String,
    ) -> (r: Result<MavenMetadataDto, MavenMetadataGeneratorError>)
        ensures
            versions.len() == 0 ==> (r matches Err(MavenMetadataGeneratorError::NoVersionsAvailable { coordinates: t })
                && t@ == coordinates.group_id@ + ":"@ + coordinates.artifact_id@ + ":"@ + coordinates.version.value@),
            versions.len() > 0 ==> (r matches Ok(m) && generated_metadata(*coordinates, versions@, last_updated, m)),
    {
        if versions.len() == 0 {
            return Err(MavenMetadataGeneratorError::NoVersionsAvailable { coordinates: coordinates.to_string() });
        }
        let marker = chars_of("-SNAPSHOT");
        let ghost vt = version_texts(versions@);
        let mut texts: Vec<String> = Vec::new();
        let mut best: usize = 0;
        let mut best_chars: Vec<char> = Vec::new();
        let mut stable: Option<usize> = None;
        let mut stable_chars: Vec<char> = Vec::new();
        let mut i: usize = 0;
        while i < versions.len()
            invariant
                0 <= i <= versions.len(),
                vt == version_texts(versions@),
                marker@ == "-SNAPSHOT"@,
                strings_view(texts@) == vt.subrange(0, i as int),
                i > 0 ==> best < i && best_chars@ == vt[best as int] && vt[best as int] == greatest_version(
                    vt.subrange(0, i as int),
                ),
                match stable {
                    Some(j) => j < i && stable_chars@ == vt[j as int] && stable_versions(vt.subrange(0, i as int)).len()
                        > 0 && vt[j as int] == greatest_version(stable_versions(vt.subrange(0, i as int))),
                    None => stable_versions(vt.subrange(0, i as int)).len() == 0,
                },
            decreases versions.len() - i,
        {
            let ghost before = texts@;
            let cur = chars_of(versions[i].value.as_str());
            proof {
                assert(cur@ == vt[i as int]);
                assert(vt.subrange(0, i + 1).drop_last() =~= vt.subrange(0, i as int));
            }
            texts.push(versions[i].value.clone());
            proof {
                assert(strings_view(texts@) =~= vt.subrange(0, i + 1));
            }
            if i == 0 || !text_less(&cur, &best_chars) {
                best = i;
                best_chars = cur.clone();
            }
            proof {
                let sp = stable_versions(vt.subrange(0, i as int));
                assert(sp.push(vt[i as int]).drop_last() =~= sp);
            }
            if !contains_seq(&cur, &marker) {
                let replace = match stable {
                    None => true,
                    Some(_) => !text_less(&cur, &stable_chars),
                };
                if replace {
                    stable = Some(i);
                    stable_chars = cur.clone();
                }
            }
            i = i + 1;
        }
        proof {
            assert(vt.subrange(0, versions.len() as int) =~= vt);
        }
        let latest = versions[best].value.clone();
        let release = match stable {
            Some(j) => versions[j].value.clone(),
            None => versions[best].value.clone(),
        };
        Ok(
            MavenMetadataDto {
                group_id: coordinates.group_id.clone(),
                artifact_id: coordinates.artifact_id.clone(),
                version: String::new(),
                versioning: MavenMetadataVersioningDto {
                    latest,
                    release,
                    versions: texts,
                    snapshot: None,
                    last_updated,
                },
            },
        )
    }

    /// The metadata of an artifact from its versions, stamped with the
    /// current time; an artifact with no version has none.
    pub fn generate_metadata(&self, coordinates: &MavenCoordinates, versions: Vec<MavenVersion>) -> (r: Result<
        MavenMetadataDto,
        MavenMetadataGeneratorError,
    >)
        ensures
            versions.len() == 0 ==> (r matches Err(MavenMetadataGeneratorError::NoVersionsAvailable { coordinates: t })
                && t@ == coordinates.group_id@ + ":"@ + coordinates.artifact_id@ + ":"@ + coordinates.version.value@),
            versions.len() > 0 ==> (r matches Ok(m) && exists|t: String| generated_metadata(*coordinates, versions@, t, m)),
    {
        let now = crate::clock::now_compact_timestamp();
        let ghost t = now;
        let r = self.generate_metadata_at(coordinates, versions, now);
        proof {
            if versions.len() > 0 {
                assert(generated_metadata(*coordinates, versions@, t, r->Ok_0));
            }
        }
        r
    }

    /// The `maven-metadata.xml` document of `metadata`; this never fails.
    pub fn generate_metadata_xml(&self, metadata: &MavenMetadataDto) -> (r: Result<String, MavenMetadataGeneratorError>)
        ensures
            r matches Ok(xml) && xml@ == metadata_xml(*metadata),
    {
        let lines = render_version_lines(&metadata.versioning.versions);
        let head = concat5(
            "<?xml version=\"1.0\" encoding=\"UTF-8\"?>\n<metadata>\n  <groupId>",
            metadata.group_id.as_str(),
            "</groupId>\n  <artifactId>",
            metadata.artifact_id.as_str(),
            "</artifactId>\n  <versioning>\n    <latest>",
        );
        let middle = concat5(
            metadata.versioning.latest.as_str(),
            "</latest>\n    <release>",
            metadata.versioning.release.as_str(),
            "</release>\n    <versions>\n",
            lines.as_str(),
        );
        let tail = concat3(
            "\n    </versions>\n    <lastUpdated>",
            metadata.versioning.last_updated.as_str(),
            "</lastUpdated>\n  </versioning>\n</metadata>",
        );
        let r = concat3(head.as_str(), middle.as_str(), tail.as_str());
        proof {
            assert(r@ =~= metadata_xml(*metadata));
        }
        Ok(r)
    }
}

/// The cache key of an artifact's metadata:
/// `maven:metadata:{repository}:{group}:{artifact}`.
pub open spec fn metadata_cache_key(c: MavenCoordinates, repository_id: Seq<char>) -> Seq<char> {
    "maven:metadata:"@ + repository_id + ":"@ + c.group_id@ + ":"@ + c.artifact_id@
}

/// The key pattern of every cached metadata of a repository.
pub open spec fn repository_key_pattern(repository_id: Seq<char>) -> Seq<char> {
    "maven:metadata:"@ + repository_id + ":*"@
}

/// `key` falls under a pattern that ends in `*`: the key starts with the
/// pattern's text before the `*`. For a prefix without other glob
/// characters this is what the key-value store's `KEYS` matches.
pub open spec fn falls_under(pattern: Seq<char>, key: Seq<char>) -> bool {
    &&& pattern.len() > 0
    &&& pattern.last() == '*'
    &&& seq_starts_with(key, pattern.drop_last())
}

/// Every metadata cache key of a repository falls under the repository's
/// key pattern, so invalidating the repository reaches each of them.
pub proof fn law_cache_keys_fall_under_repository_pattern(c: MavenCoordinates, repository_id: Seq<char>)
    ensures
        falls_under(repository_key_pattern(repository_id), metadata_cache_key(c, repository_id)),
{
    reveal_strlit(":*");
    reveal_strlit(":");
    assert(":*"@ =~= ":"@.push('*'));
    let head = "maven:metadata:"@ + repository_id + ":"@;
    let pattern = repository_key_pattern(repository_id);
    let key = metadata_cache_key(c, repository_id);
    assert(pattern =~= head.push('*'));
    assert(pattern.drop_last() =~= head);
    assert(key =~= head + (c.group_id@ + ":"@ + c.artifact_id@));
    assert(key.subrange(0, head.len() as int) =~= head);
}

/// Cache of Maven metadata in a key-value store, with a time to live.
pub struct RedisMavenMetadataCache {
    pub ttl_seconds: u64,
}

impl RedisMavenMetadataCache {
    pub fn new(ttl_seconds: u64) -> (r: Self)
        ensures
            r.ttl_seconds == ttl_seconds,
    {
        RedisMavenMetadataCache { ttl_seconds }
    }

    /// The key under which an artifact's metadata is cached.
    pub fn cache_key(coordinates: &MavenCoordinates, repository_id: &str) -> (r: String)
        ensures
            r@ == metadata_cache_key(*coordinates, repository_id@),
    {
        let head = concat3("maven:metadata:", repository_id, ":");
        concat2(
            head.as_str(),
            concat3(coordinates.group_id.as_str(), ":", coordinates.artifact_id.as_str()).as_str(),
        )
    }

    /// The pattern of the keys of a whole repository.
    pub fn repository_pattern(repository_id: &str) -> (r: String)
        ensures
            r@ == repository_key_pattern(repository_id@),
    {
        concat3("maven:metadata:", repository_id, ":*")
    }
}

/// What the cache answers to a read: the key-value store's answer (its
/// error message on failure) and, for a stored entry, the entry's decoded
/// metadata or the decoder's message.
pub open spec fn cache_read_answer(
    outcome: Result<Option<Result<MavenMetadataDto, String>>, String>,
    r: Result<Option<MavenMetadataDto>, MavenMetadataCacheError>,
) -> bool {
    match outcome {
        Err(e) => r matches Err(MavenMetadataCacheError::CacheError { message }) && message@ == "Redis error: "@ + e@,
        Ok(None) => r == Ok::<Option<MavenMetadataDto>, MavenMetadataCacheError>(None),
        Ok(Some(Err(_))) => r == Ok::<Option<MavenMetadataDto>, MavenMetadataCacheError>(None),
        Ok(Some(Ok(m))) => r == Ok::<Option<MavenMetadataDto>, MavenMetadataCacheError>(Some(m)),
    }
}

impl RedisMavenMetadataCache {
    /// The answer to a cache read: a store failure is a cache error; a
    /// missing entry and an entry that does not decode are both a miss.
    pub fn on_read(&self, outcome: Result<Option<Result<MavenMetadataDto, String>>, String>) -> (r: Result<
        Option<MavenMetadataDto>,
        MavenMetadataCacheError,
    >)
        ensures
            cache_read_answer(outcome, r),
    {
        match outcome {
            Err(e) => Err(MavenMetadataCacheError::CacheError { message: concat2("Redis error: ", e.as_str()) }),
            Ok(None) => Ok(None),
            Ok(Some(Err(_))) => Ok(None),
            Ok(Some(Ok(m))) => Ok(Some(m)),
        }
    }

    /// The answer to a cache write: the encoder's failure, then the store's
    /// failure, each as a cache error with its message.
    pub fn on_write(&self, encoded: Result<(), String>, stored: Result<(), String>) -> (r: Result<(), MavenMetadataCacheError>)
        ensures
            encoded matches Err(e) ==> (r matches Err(MavenMetadataCacheError::CacheError { message })
                && message@ == "Serialization error: "@ + e@),
            encoded is Ok ==> (stored matches Err(e) ==> (r matches Err(MavenMetadataCacheError::CacheError { message })
                && message@ == "Redis error: "@ + e@)),
            encoded is Ok && stored is Ok ==> r is Ok,
    {
        if let Err(e) = encoded {
            return Err(MavenMetadataCacheError::CacheError { message: concat2("Serialization error: ", e.as_str()) });
        }
        match stored {
            Err(e) => Err(MavenMetadataCacheError::CacheError { message: concat2("Redis error: ", e.as_str()) }),
            Ok(()) => Ok(()),
        }
    }

    /// The answer to a deletion from the store.
    pub fn on_delete(&self, outcome: Result<(), String>) -> (r: Result<(), MavenMetadataCacheError>)
        ensures
            outcome matches Err(e) ==> (r matches Err(MavenMetadataCacheError::CacheError { message })
                && message@ == "Redis error: "@ + e@),
            outcome is Ok ==> r is Ok,
    {
        match outcome {
            Err(e) => Err(MavenMetadataCacheError::CacheError { message: concat2("Redis error: ", e.as_str()) }),
            Ok(()) => Ok(()),
        }
    }

    /// The keys found under a repository's pattern that must be deleted:
    /// none when the store found none, so that no deletion is sent.
    pub fn keys_to_delete(&self, keys: Vec<String>) -> (r: Option<Vec<String>>)
        ensures
            keys@.len() == 0 ==> r is None,
            keys@.len() > 0 ==> r == Some(keys),
    {
        if keys.len() == 0 {
            None
        } else {
            Some(keys)
        }
    }
}

/// The versions of the listed documents that are valid Maven versions, in
/// listing order; documents that could not be read are skipped.
pub open spec fn readable_versions(docs: Seq<Result<String, String>>) -> Seq<Seq<char>>
    decreases docs.len(),
{
    if docs.len() == 0 {
        Seq::empty()
    } else {
        let rest = readable_versions(docs.drop_last());
        match docs.last() {
            Ok(v) => if valid_maven_version(v@) {
                rest.push(v@)
            } else {
                rest
            },
            Err(_) => rest,
        }
    }
}

/// The version texts of a list of versions.
pub open spec fn version_values(vs: Seq<MavenVersion>) -> Seq<Seq<char>> {
    vs.map_values(|v: MavenVersion| v.value@)
}

/// Lister of the versions of Maven artifacts kept in a document database.
pub struct MongoMavenArtifactLister {
    pub database_name: String,
}

impl MongoMavenArtifactLister {
    pub fn new(database_name: String) -> (r: Self)
        ensures
            r.database_name == database_name,
    {
        MongoMavenArtifactLister { database_name }
    }

    /// The answer to a failed query.
    pub fn query_error(&self, message: &str) -> (r: MavenArtifactListerError)
        ensures
            r matches MavenArtifactListerError::DatabaseError { message: m } && m@ == "Failed to query artifacts: "@
                + message@,
    {
        MavenArtifactListerError::DatabaseError { message: concat2("Failed to query artifacts: ", message) }
    }

    /// The versions of an artifact from the version fields of its listed
    /// documents (or the error of each unreadable document): the valid ones,
    /// in order; none at all means the artifact was not found.
    pub fn versions_from_documents(
        &self,
        coordinates: &MavenCoordinates,
        repository_id: &str,
        docs: Vec<Result<String, String>>,
    ) -> (r: Result<Vec<MavenVersion>, MavenArtifactListerError>)
        ensures
            r is Err <==> readable_versions(docs@).len() == 0,
            r matches Ok(vs) ==> version_values(vs@) == readable_versions(docs@),
            r matches Err(e) ==> (e matches MavenArtifactListerError::ArtifactNotFound { coordinates: c, repository_id: i }
                && c@ == coordinates.group_id@ + ":"@ + coordinates.artifact_id@ && i@ == repository_id@),
    {
        let mut versions: Vec<MavenVersion> = Vec::new();
        let mut i: usize = 0;
        while i < docs.len()
            invariant
                0 <= i <= docs.len(),
                version_values(versions@) == readable_versions(docs@.take(i as int)),
            decreases docs.len() - i,
        {
            proof {
                assert(docs@.take(i as int + 1).drop_last() =~= docs@.take(i as int));
                assert(docs@.take(i as int + 1).last() == docs@[i as int]);
            }
            if let Ok(v) = &docs[i] {
                if let Ok(version) = MavenVersion::new(v.as_str()) {
                    proof {
                        assert(version_values(versions@.push(version)) =~= version_values(versions@).push(version.value@));
                    }
                    versions.push(version);
                }
            }
            i = i + 1;
        }
        proof {
            assert(docs@.take(docs@.len() as int) =~= docs@);
        }
        if versions.len() == 0 {
            Err(
                MavenArtifactListerError::ArtifactNotFound {
                    coordinates: concat3(coordinates.group_id.as_str(), ":", coordinates.artifact_id.as_str()),
                    repository_id: repository_id.to_owned(),
                },
            )
        } else {
            Ok(versions)
        }
    }
}

/// A cursor over listed documents, handing them out in order.
pub struct MockCursor<T> {
    pub items: Vec<T>,
    pub index: usize,
}

impl<T: Clone> MockCursor<T> {
    /// A cursor at the first of `items`.
    pub fn new(items: Vec<T>) -> (r: Self)
        ensures
            r.items == items,
            r.index == 0,
    {
        MockCursor { items, index: 0 }
    }

    /// The next document, if any is left; the cursor moves past it.
    pub fn next(&mut self) -> (r: Option<Result<T, String>>)
        ensures
            final(self).items == old(self).items,
            old(self).index < old(self).items.len() ==> (r matches Some(Ok(item)) && cloned(
                old(self).items@[old(self).index as int],
                item,
            ) && final(self).index == old(self).index + 1),
            old(self).index >= old(self).items.len() ==> r is None && final(self).index
                == old(self).index,
    {
        if self.index < self.items.len() {
            let item = self.items[self.index].clone();
            self.index = self.index + 1;
            Some(Ok(item))
        } else {
            None
        }
    }
}

} // verus!

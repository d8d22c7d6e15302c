//! The storage-side logic of the npm metadata feature: where a package's
//! `package.json` is stored, how its fields are read, and under which key
//! its metadata is cached.

use std::collections::HashMap;
use vstd::prelude::*;
use vstd::string::*;
use vstd::std_specs::hash::obeys_key_model;
use crate::json::{
    JsonValue, json_of, parse_json, field, flag_of, flag_pair_views, flag_pairs_of, json_field, json_flag, json_flag_pairs, json_keys,
    json_member, json_text, json_text_list, json_text_pairs, json_texts, keys_of, member, opt_view, pair_views,
    text_list_of, text_of, text_or_empty, text_pairs_of, texts_in, views,
};
use crate::text::{chars_of, concat2, concat3, concat5, seq_starts_with};
use super::dto::{AuthorDto, BinDto, GenerateNpmMetadataError, NpmPackageMetadataDto, PublishConfigDto, RepositoryDto};

verus! {

/// The fields of a `package.json` document that npm metadata is made of,
/// as plain values: string fields as text, lists as the strings they hold,
/// objects as their members in document order.
#[derive(Debug, Clone)]
pub struct PackageJsonDocument {
    pub name: Option<String>,
    pub version: Option<String>,
    pub description: Option<String>,
    pub keywords: Vec<String>,
    pub homepage: Option<String>,
    pub license: Option<String>,
    pub author: Option<String>,
    pub files: Vec<String>,
    pub main: Option<String>,
    pub bin: Option<Vec<(String, String)>>,
    pub repository: Option<RepositoryDto>,
    pub scripts: Option<Vec<(String, String)>>,
    pub dependencies: Option<Vec<(String, String)>>,
    pub dev_dependencies: Option<Vec<(String, String)>>,
    pub peer_dependencies: Option<Vec<(String, String)>>,
    pub optional_dependencies: Option<Vec<(String, String)>>,
    pub engines: Option<Vec<(String, String)>>,
    pub os: Vec<String>,
    pub cpu: Vec<String>,
    pub private: Option<bool>,
    pub publish_config: Option<PublishConfigDto>,
    pub dist_tags: Option<Vec<(String, String)>>,
    /// The keys of the document's `versions` object.
    pub versions: Vec<String>,
    pub time: Option<Vec<(String, String)>>,
    pub users: Option<Vec<(String, bool)>>,
}

/// The texts of optional pairs of strings.
pub open spec fn opt_pair_views(o: Option<Vec<(String, String)>>) -> Option<Seq<(Seq<char>, Seq<char>)>> {
    match o {
        Some(p) => Some(pair_views(p@)),
        None => None,
    }
}

/// The texts of optional pairs of a string and a flag.
pub open spec fn opt_flag_pair_views(o: Option<Vec<(String, bool)>>) -> Option<Seq<(Seq<char>, bool)>> {
    match o {
        Some(p) => Some(flag_pair_views(p@)),
        None => None,
    }
}

/// The texts of an optional list of strings.
pub open spec fn opt_views(o: Option<Vec<String>>) -> Option<Seq<Seq<char>>> {
    match o {
        Some(v) => Some(views(v@)),
        None => None,
    }
}

/// The text of an optional value, the empty text where it is absent or no
/// string.
pub open spec fn opt_text_or_empty(o: Option<JsonValue>) -> Seq<char> {
    match o {
        Some(x) => text_or_empty(x),
        None => Seq::empty(),
    }
}

/// The strings of an optional array value; `None` where it is no array.
pub open spec fn json_opt_text_list(o: Option<JsonValue>) -> Option<Seq<Seq<char>>> {
    match o {
        Some(JsonValue::Array(items)) => Some(json_texts(items@)),
        _ => None,
    }
}

/// The repository read from a `repository` object: its `type` and `url`
/// (the empty text where absent) and its `directory`.
pub open spec fn json_repository(o: Option<JsonValue>) -> Option<(Seq<char>, Seq<char>, Option<Seq<char>>)> {
    match o {
        Some(JsonValue::Object(members)) => Some(
            (
                opt_text_or_empty(json_field(members@, "type"@)),
                opt_text_or_empty(json_field(members@, "url"@)),
                json_text(json_field(members@, "directory"@)),
            ),
        ),
        _ => None,
    }
}

/// The texts of an optional repository.
pub open spec fn repository_view(o: Option<RepositoryDto>) -> Option<(Seq<char>, Seq<char>, Option<Seq<char>>)> {
    match o {
        Some(r) => Some((r.repo_type@, r.url@, opt_view(r.directory))),
        None => None,
    }
}

/// The publication settings read from a `publishConfig` object: its
/// `registry`, `ignore`, `included`, `access` and `tag` members.
pub open spec fn json_publish_config(o: Option<JsonValue>) -> Option<
    (Option<Seq<char>>, Option<Seq<Seq<char>>>, Option<Seq<Seq<char>>>, Option<Seq<char>>, Option<Seq<char>>),
> {
    match o {
        Some(JsonValue::Object(members)) => Some(
            (
                json_text(json_field(members@, "registry"@)),
                json_opt_text_list(json_field(members@, "ignore"@)),
                json_opt_text_list(json_field(members@, "included"@)),
                json_text(json_field(members@, "access"@)),
                json_text(json_field(members@, "tag"@)),
            ),
        ),
        _ => None,
    }
}

/// The texts of optional publication settings.
pub open spec fn publish_config_view(o: Option<PublishConfigDto>) -> Option<
    (Option<Seq<char>>, Option<Seq<Seq<char>>>, Option<Seq<Seq<char>>>, Option<Seq<char>>, Option<Seq<char>>),
> {
    match o {
        Some(c) => Some((opt_view(c.registry), opt_views(c.ignore), opt_views(c.included), opt_view(c.access), opt_view(c.tag))),
        None => None,
    }
}

/// `d` is what is read from the JSON document `v`: each string field is the
/// member's text where the member is a string; each list is the strings of
/// the member where it is an array, in order; each object field is the
/// member's members with their values as text (the empty text for a value
/// that is no string) or, for `users`, as flags (`false` for a value that
/// is no boolean); `private` is the member where it is a boolean; the
/// versions are the names of the `versions` members.
pub open spec fn document_of(v: JsonValue, d: PackageJsonDocument) -> bool {
    &&& opt_view(d.name) == json_text(json_member(v, "name"@))
    &&& opt_view(d.version) == json_text(json_member(v, "version"@))
    &&& opt_view(d.description) == json_text(json_member(v, "description"@))
    &&& views(d.keywords@) == json_text_list(json_member(v, "keywords"@))
    &&& opt_view(d.homepage) == json_text(json_member(v, "homepage"@))
    &&& opt_view(d.license) == json_text(json_member(v, "license"@))
    &&& opt_view(d.author) == json_text(json_member(v, "author"@))
    &&& views(d.files@) == json_text_list(json_member(v, "files"@))
    &&& opt_view(d.main) == json_text(json_member(v, "main"@))
    &&& opt_pair_views(d.bin) == json_text_pairs(json_member(v, "bin"@))
    &&& repository_view(d.repository) == json_repository(json_member(v, "repository"@))
    &&& opt_pair_views(d.scripts) == json_text_pairs(json_member(v, "scripts"@))
    &&& opt_pair_views(d.dependencies) == json_text_pairs(json_member(v, "dependencies"@))
    &&& opt_pair_views(d.dev_dependencies) == json_text_pairs(json_member(v, "devDependencies"@))
    &&& opt_pair_views(d.peer_dependencies) == json_text_pairs(json_member(v, "peerDependencies"@))
    &&& opt_pair_views(d.optional_dependencies) == json_text_pairs(json_member(v, "optionalDependencies"@))
    &&& opt_pair_views(d.engines) == json_text_pairs(json_member(v, "engines"@))
    &&& views(d.os@) == json_text_list(json_member(v, "os"@))
    &&& views(d.cpu@) == json_text_list(json_member(v, "cpu"@))
    &&& d.private == json_flag(json_member(v, "private"@))
    &&& publish_config_view(d.publish_config) == json_publish_config(json_member(v, "publishConfig"@))
    &&& opt_pair_views(d.dist_tags) == json_text_pairs(json_member(v, "dist-tags"@))
    &&& views(d.versions@) == json_keys(json_member(v, "versions"@))
    &&& opt_pair_views(d.time) == json_text_pairs(json_member(v, "time"@))
    &&& opt_flag_pair_views(d.users) == json_flag_pairs(json_member(v, "users"@))
}

/// The main fields of the metadata that a `package.json` gives: the name is
/// the document's `name` string or else the requested package, the version
/// its `version` string or else "1.0.0", the private flag its `private`
/// boolean or else `false`, the description its `description` string, and
/// the keywords the strings of its `keywords` array, in order (none where it
/// has none).
pub proof fn law_metadata_reads_package_json(v: JsonValue, package_name: Seq<char>, m: NpmPackageMetadataDto)
    requires
        metadata_of_json(v, package_name, m),
    ensures
        m.name@ == (match json_text(json_member(v, "name"@)) {
            Some(t) => t,
            None => package_name,
        }),
        m.version@ == (match json_text(json_member(v, "version"@)) {
            Some(t) => t,
            None => "1.0.0"@,
        }),
        m.private == Some(
            match json_flag(json_member(v, "private"@)) {
                Some(b) => b,
                None => false,
            },
        ),
        opt_view(m.description) == json_text(json_member(v, "description"@)),
        m.keywords matches Some(k) && views(k@) == json_text_list(json_member(v, "keywords"@)),
{
    let d = choose|d: PackageJsonDocument| #[trigger] document_of(v, d) && from_document(d, package_name, m);
    assert(document_of(v, d) && from_document(d, package_name, m));
}

/// The map made of a list of pairs: a later pair replaces an earlier one
/// with the same key.
pub open spec fn pairs_map<V>(pairs: Seq<(String, V)>) -> Map<String, V>
    decreases pairs.len(),
{
    if pairs.len() == 0 {
        Map::empty()
    } else {
        pairs_map(pairs.drop_last()).insert(pairs.last().0, pairs.last().1)
    }
}

/// An optional map made of optional pairs: present exactly where the pairs
/// are, and, where `String` keys behave as vstd's key model asks, holding
/// the pairs.
pub open spec fn map_from<V>(m: Option<HashMap<String, V>>, pairs: Option<Vec<(String, V)>>) -> bool {
    match (m, pairs) {
        (Some(m), Some(p)) => obeys_key_model::<String>() ==> m@ == pairs_map(p@),
        (None, None) => true,
        _ => false,
    }
}

/// The metadata read from a `package.json` document: the name defaults to
/// the requested package, the version to "1.0.0", lists to empty lists, the
/// private flag to `false` and the distribution tags to none; the other
/// fields are taken as they are, objects as maps of their members.
pub open spec fn from_document(d: PackageJsonDocument, package_name: Seq<char>, r: NpmPackageMetadataDto) -> bool {
    &&& r.name@ == (match d.name {
        Some(n) => n@,
        None => package_name,
    })
    &&& r.version@ == (match d.version {
        Some(v) => v@,
        None => "1.0.0"@,
    })
    &&& r.description == d.description
    &&& r.keywords == Some(d.keywords)
    &&& r.homepage == d.homepage
    &&& r.repository == d.repository
    &&& r.author == (match d.author {
        Some(a) => Some(AuthorDto::String(a)),
        None => None,
    })
    &&& r.license == d.license
    &&& map_from(r.dependencies, d.dependencies)
    &&& map_from(r.dev_dependencies, d.dev_dependencies)
    &&& map_from(r.optional_dependencies, d.optional_dependencies)
    &&& map_from(r.peer_dependencies, d.peer_dependencies)
    &&& map_from(r.scripts, d.scripts)
    &&& r.main == d.main
    &&& map_from(
        match r.bin {
            Some(BinDto::Multiple(b)) => Some(b),
            _ => None,
        },
        d.bin,
    )
    &&& (r.bin matches Some(b) ==> b is Multiple)
    &&& r.files == Some(d.files)
    &&& map_from(r.engines, d.engines)
    &&& r.os == Some(d.os)
    &&& r.cpu == Some(d.cpu)
    &&& r.private == Some(match d.private {
        Some(p) => p,
        None => false,
    })
    &&& r.publish_config == d.publish_config
    &&& (d.dist_tags matches Some(t) ==> (obeys_key_model::<String>() ==> r.dist_tags@ == pairs_map(t@)))
    &&& (d.dist_tags is None ==> r.dist_tags@ == Map::<String, String>::empty())
    &&& r.versions == d.versions
    &&& map_from(r.time, d.time)
    &&& map_from(r.users, d.users)
    &&& r.dist is None
}

/// The metadata that a `package.json` document, read as JSON, gives.
pub open spec fn metadata_of_json(v: JsonValue, package_name: Seq<char>, r: NpmPackageMetadataDto) -> bool {
    exists|d: PackageJsonDocument| #[trigger] document_of(v, d) && from_document(d, package_name, r)
}

/// The map of a list of pairs, each inserted in turn.
fn map_of_pairs<V>(pairs: Vec<(String, V)>) -> (m: HashMap<String, V>)
    ensures
        obeys_key_model::<String>() ==> m@ == pairs_map(pairs@),
{
    broadcast use vstd::std_specs::hash::group_hash_axioms;

    let ghost all = pairs@;
    let mut rest = pairs;
    let mut m: HashMap<String, V> = HashMap::new();
    let ghost mut n: int = 0;
    proof {
        assert(all.subrange(0, 0) =~= Seq::<(String, V)>::empty());
        assert(all.subrange(0, all.len() as int) =~= all);
    }
    while rest.len() > 0
        invariant
            0 <= n <= all.len(),
            rest@ == all.subrange(n, all.len() as int),
            obeys_key_model::<String>() ==> m@ == pairs_map(all.subrange(0, n)),
        decreases rest.len(),
    {
        let (k, x) = rest.remove(0);
        m.insert(k, x);
        proof {
            assert(all.subrange(0, n + 1).drop_last() =~= all.subrange(0, n));
            assert(rest@ =~= all.subrange(n + 1, all.len() as int));
            n = n + 1;
        }
    }
    proof {
        assert(all.subrange(0, n) =~= all);
    }
    m
}

/// The optional map of optional pairs.
fn opt_map_of_pairs<V>(pairs: Option<Vec<(String, V)>>) -> (m: Option<HashMap<String, V>>)
    ensures
        map_from(m, pairs),
{
    match pairs {
        Some(p) => Some(map_of_pairs(p)),
        None => None,
    }
}

/// The text of a value, the empty text where it is absent or no string.
fn text_or_empty_of(v: Option<&JsonValue>) -> (r: String)
    ensures
        r@ == opt_text_or_empty(
            match v {
                Some(x) => Some(*x),
                None => None,
            },
        ),
{
    match v {
        Some(JsonValue::Text(s)) => s.clone(),
        _ => String::new(),
    }
}

/// The strings of an array value; `None` where it is no array.
fn opt_text_list_of(v: Option<&JsonValue>) -> (r: Option<Vec<String>>)
    ensures
        opt_views(r) == json_opt_text_list(
            match v {
                Some(x) => Some(*x),
                None => None,
            },
        ),
{
    match v {
        Some(JsonValue::Array(items)) => Some(texts_in(items)),
        _ => None,
    }
}

/// The repository of a `repository` object.
fn repository_of(v: Option<&JsonValue>) -> (r: Option<RepositoryDto>)
    ensures
        repository_view(r) == json_repository(
            match v {
                Some(x) => Some(*x),
                None => None,
            },
        ),
{
    match v {
        Some(JsonValue::Object(members)) => Some(
            RepositoryDto {
                repo_type: text_or_empty_of(field(members, "type")),
                url: text_or_empty_of(field(members, "url")),
                directory: text_of(field(members, "directory")),
            },
        ),
        _ => None,
    }
}

/// The publication settings of a `publishConfig` object.
fn publish_config_of(v: Option<&JsonValue>) -> (r: Option<PublishConfigDto>)
    ensures
        publish_config_view(r) == json_publish_config(
            match v {
                Some(x) => Some(*x),
                None => None,
            },
        ),
{
    match v {
        Some(JsonValue::Object(members)) => Some(
            PublishConfigDto {
                registry: text_of(field(members, "registry")),
                ignore: opt_text_list_of(field(members, "ignore")),
                included: opt_text_list_of(field(members, "included")),
                access: text_of(field(members, "access")),
                tag: text_of(field(members, "tag")),
            },
        ),
        _ => None,
    }
}

/// Reads the fields of npm metadata out of a `package.json` document.
pub fn document_from_json(v: &JsonValue) -> (d: PackageJsonDocument)
    ensures
        document_of(*v, d),
{
    PackageJsonDocument {
        name: text_of(member(v, "name")),
        version: text_of(member(v, "version")),
        description: text_of(member(v, "description")),
        keywords: text_list_of(member(v, "keywords")),
        homepage: text_of(member(v, "homepage")),
        license: text_of(member(v, "license")),
        author: text_of(member(v, "author")),
        files: text_list_of(member(v, "files")),
        main: text_of(member(v, "main")),
        bin: text_pairs_of(member(v, "bin")),
        repository: repository_of(member(v, "repository")),
        scripts: text_pairs_of(member(v, "scripts")),
        dependencies: text_pairs_of(member(v, "dependencies")),
        dev_dependencies: text_pairs_of(member(v, "devDependencies")),
        peer_dependencies: text_pairs_of(member(v, "peerDependencies")),
        optional_dependencies: text_pairs_of(member(v, "optionalDependencies")),
        engines: text_pairs_of(member(v, "engines")),
        os: text_list_of(member(v, "os")),
        cpu: text_list_of(member(v, "cpu")),
        private: flag_of(member(v, "private")),
        publish_config: publish_config_of(member(v, "publishConfig")),
        dist_tags: text_pairs_of(member(v, "dist-tags")),
        versions: keys_of(member(v, "versions")),
        time: text_pairs_of(member(v, "time")),
        users: flag_pairs_of(member(v, "users")),
    }
}

/// The index of the first `/` of a name that holds one.
pub open spec fn first_slash(n: Seq<char>) -> int {
    choose|i: int| 0 <= i < n.len() && n[i] == '/' && forall|j: int| 0 <= j < i ==> n[j] != '/'
}

/// The directory of a package's objects: the scope of a scoped name
/// (`@scope` of `@scope/name`), or else the name itself.
pub open spec fn package_dir(n: Seq<char>) -> Seq<char> {
    if n.len() > 0 && n[0] == '@' && n.contains('/') {
        n.take(first_slash(n))
    } else {
        n
    }
}

/// Generator of npm metadata from `package.json` documents kept in an
/// object store bucket.
pub struct S3NpmMetadataGenerator {
    pub bucket_name: String,
}

impl S3NpmMetadataGenerator {
    pub fn new(bucket_name: String) -> (r: Self)
        ensures
            r.bucket_name == bucket_name,
    {
        S3NpmMetadataGenerator { bucket_name }
    }

    /// The key of a package's `package.json`: under the scope when there is
    /// one, else under the package name.
    pub fn package_key(repository_id: &str, scope: Option<&str>, package_name: &str) -> (r: String)
        ensures
            r@ == repository_id@ + "/"@ + (match scope {
                Some(s) => s@,
                None => package_name@,
            }) + "/package.json"@,
    {
        let middle = match scope {
            Some(s) => s,
            None => package_name,
        };
        let head = concat3(repository_id, "/", middle);
        concat2(head.as_str(), "/package.json")
    }

    /// The key of a package's `package.json` from its full name: a scoped
    /// name `@scope/name` is kept under its scope, as `package_key` keeps
    /// a package of a scope; any other name under itself.
    pub fn key_for_package(repository_id: &str, package_name: &str) -> (r: String)
        ensures
            r@ == repository_id@ + "/"@ + package_dir(package_name@) + "/package.json"@,
    {
        let v = chars_of(package_name);
        let mut i: usize = 0;
        if v.len() > 0 && v[0] == '@' {
            while i < v.len() && v[i] != '/'
                invariant
                    0 <= i <= v.len(),
                    v@ == package_name@,
                    forall|j: int| 0 <= j < i ==> v@[j] != '/',
                decreases v.len() - i,
            {
                i = i + 1;
            }
        }
        if v.len() > 0 && v[0] == '@' && i < v.len() {
            proof {
                assert(first_slash(package_name@) == i as int);
            }
            let scope = package_name.substring_char(0, i);
            proof {
                assert(scope@ =~= package_name@.take(i as int));
            }
            Self::package_key(repository_id, Some(scope), package_name)
        } else {
            proof {
                if package_name@.len() > 0 && package_name@[0] == '@' {
                    assert(!package_name@.contains('/'));
                }
            }
            Self::package_key(repository_id, None, package_name)
        }
    }

    /// The answer when the document could not be fetched: the package is
    /// not found in the repository.
    pub fn fetch_error(&self, package_name: &str, repository_id: &str) -> (r: GenerateNpmMetadataError)
        ensures
            r matches GenerateNpmMetadataError::PackageNotFound { package_name: p, repository_id: i } && p@
                == package_name@ && i@ == repository_id@,
    {
        GenerateNpmMetadataError::PackageNotFound { package_name: package_name.to_owned(), repository_id: repository_id.to_owned() }
    }

    /// The answer when the document's body could not be read.
    pub fn body_error(&self, message: &str) -> (r: GenerateNpmMetadataError)
        ensures
            r matches GenerateNpmMetadataError::RepositoryError(m) && m@ == "Error reading package.json from S3: "@
                + message@,
    {
        GenerateNpmMetadataError::RepositoryError(concat2("Error reading package.json from S3: ", message))
    }

    /// The answer when the document is not valid JSON.
    pub fn format_error(&self, message: &str) -> (r: GenerateNpmMetadataError)
        ensures
            r matches GenerateNpmMetadataError::MetadataGenerationFailed { reason } && reason@
                == "Invalid package.json format: "@ + message@,
    {
        GenerateNpmMetadataError::MetadataGenerationFailed { reason: concat2("Invalid package.json format: ", message) }
    }

    /// The metadata of a package from its `package.json` read as JSON.
    pub fn metadata_from_json(&self, v: &JsonValue, package_name: &str) -> (r: NpmPackageMetadataDto)
        ensures
            metadata_of_json(*v, package_name@, r),
    {
        let d = document_from_json(v);
        let ghost dd = d;
        let r = self.metadata_from_document(d, package_name);
        proof {
            assert(document_of(*v, dd) && from_document(dd, package_name@, r));
        }
        r
    }

    /// The metadata of a package from the outcome of reading its
    /// `package.json` object: a failed fetch means the package is not found;
    /// a body that could not be read is a repository error; a body that is
    /// no JSON is a failed generation; a JSON body gives its metadata.
    pub fn metadata_from_object(
        &self,
        package_name: &str,
        repository_id: &str,
        object: Result<Result<Vec<u8>, String>, String>,
    ) -> (r: Result<NpmPackageMetadataDto, GenerateNpmMetadataError>)
        ensures
            match object {
                Err(_) => r matches Err(GenerateNpmMetadataError::PackageNotFound { package_name: p, repository_id: i })
                    && p@ == package_name@ && i@ == repository_id@,
                Ok(Err(m)) => r matches Err(GenerateNpmMetadataError::RepositoryError(e)) && e@
                    == "Error reading package.json from S3: "@ + m@,
                Ok(Ok(bytes)) => match json_of(bytes@) {
                    None => r matches Err(GenerateNpmMetadataError::MetadataGenerationFailed { reason })
                        && seq_starts_with(reason@, "Invalid package.json format: "@),
                    Some(v) => r matches Ok(meta) && metadata_of_json(v, package_name@, meta),
                },
            },
    {
        match object {
            Err(_) => Err(self.fetch_error(package_name, repository_id)),
            Ok(Err(m)) => Err(self.body_error(m.as_str())),
            Ok(Ok(bytes)) => match parse_json(bytes.as_slice()) {
                Err(m) => {
                    let e = self.format_error(m.as_str());
                    proof {
                        let head = "Invalid package.json format: "@;
                        assert((head + m@).subrange(0, head.len() as int) =~= head);
                    }
                    Err(e)
                },
                Ok(v) => Ok(self.metadata_from_json(&v, package_name)),
            },
        }
    }

    /// The metadata of a package from its `package.json` document.
    pub fn metadata_from_document(&self, document: PackageJsonDocument, package_name: &str) -> (r: NpmPackageMetadataDto)
        ensures
            from_document(document, package_name@, r),
    {
        let d = document;
        NpmPackageMetadataDto {
            name: match d.name {
                Some(n) => n,
                None => package_name.to_owned(),
            },
            description: d.description,
            version: match d.version {
                Some(v) => v,
                None => "1.0.0".to_owned(),
            },
            keywords: Some(d.keywords),
            homepage: d.homepage,
            repository: d.repository,
            author: match d.author {
                Some(a) => Some(AuthorDto::String(a)),
                None => None,
            },
            license: d.license,
            dependencies: opt_map_of_pairs(d.dependencies),
            dev_dependencies: opt_map_of_pairs(d.dev_dependencies),
            optional_dependencies: opt_map_of_pairs(d.optional_dependencies),
            peer_dependencies: opt_map_of_pairs(d.peer_dependencies),
            scripts: opt_map_of_pairs(d.scripts),
            main: d.main,
            bin: match d.bin {
                Some(b) => Some(BinDto::Multiple(map_of_pairs(b))),
                None => None,
            },
            files: Some(d.files),
            engines: opt_map_of_pairs(d.engines),
            os: Some(d.os),
            cpu: Some(d.cpu),
            private: Some(
                match d.private {
                    Some(p) => p,
                    None => false,
                },
            ),
            publish_config: d.publish_config,
            dist_tags: match d.dist_tags {
                Some(t) => map_of_pairs(t),
                None => HashMap::new(),
            },
            versions: d.versions,
            time: opt_map_of_pairs(d.time),
            users: opt_map_of_pairs(d.users),
            dist: None,
        }
    }
}

/// Lister of npm packages kept in a document database.
pub struct MongoNpmPackageLister {
    pub database_name: String,
}

impl MongoNpmPackageLister {
    pub fn new(database_name: String) -> (r: Self)
        ensures
            r.database_name == database_name,
    {
        MongoNpmPackageLister { database_name }
    }
}

/// Cache of npm metadata in a key-value store, with a time to live.
pub struct RedisNpmMetadataCache {
    pub ttl_seconds: u64,
}

impl RedisNpmMetadataCache {
    pub fn new(ttl_seconds: u64) -> (r: Self)
        ensures
            r.ttl_seconds == ttl_seconds,
    {
        RedisNpmMetadataCache { ttl_seconds }
    }

    /// The cache key of a package's metadata:
    /// `npm:metadata:{repository}:{scope}:{name}`, or
    /// `npm:metadata:{repository}:{name}` for an unscoped package.
    pub fn cache_key(&self, scope: Option<&str>, package_name: &str, repository_id: &str) -> (r: String)
        ensures
            r@ == (match scope {
                Some(s) => "npm:metadata:"@ + repository_id@ + ":"@ + s@ + ":"@ + package_name@,
                None => "npm:metadata:"@ + repository_id@ + ":"@ + package_name@,
            }),
    {
        match scope {
            Some(s) => {
                let head = concat5("npm:metadata:", repository_id, ":", s, ":");
                concat2(head.as_str(), package_name)
            },
            None => {
                let head = concat3("npm:metadata:", repository_id, ":");
                concat2(head.as_str(), package_name)
            },
        }
    }

    /// The cache error of a failed store command (`GET`, `SETEX` or
    /// `DEL`), or of a failed encoding or decoding, with its message.
    pub fn cache_error(&self, operation: &str, message: &str) -> (r: GenerateNpmMetadataError)
        ensures
            r matches GenerateNpmMetadataError::CacheError(m) && m@ == operation@ + " error: "@ + message@,
    {
        GenerateNpmMetadataError::CacheError(concat3(operation, " error: ", message))
    }
}

} // verus!

//! Data carried by the npm metadata feature, and the validation of npm
//! package names.

use std::collections::HashMap;
use vstd::prelude::*;
use crate::json::pair_views;
use crate::text::{
    concat2, concat3,
    all_alnum_or, all_alnum_or_any_of, at_most_once, chars_of, check_at_most_once,
    check_each_followed_by_none_of, check_only_first_is, each_followed_by_none_of, has_char,
    lemma_split_at, lemma_split_two, only_first_is, split_on, utf8_len, utf8_len_at_most,
};

verus! {

/// Request to generate the metadata of an npm package.
#[derive(Debug, Clone)]
pub struct GenerateNpmMetadataRequest {
    /// Scope of the package (such as "@myorg"), if any.
    pub scope: Option<String>,
    pub package_name: String,
    pub repository_id: String,
    /// Ignore any cached metadata.
    pub force_regenerate: bool,
}

/// The generated metadata.
#[derive(Debug, Clone)]
pub struct GenerateNpmMetadataResponse {
    pub metadata: NpmPackageMetadataDto,
    /// RFC 3339 time of generation (or of caching, for a cache hit).
    pub generated_at: String,
    pub cache_hit: bool,
}

/// Metadata of an npm package.
#[derive(Debug, Clone)]
pub struct NpmPackageMetadataDto {
    pub name: String,
    pub description: Option<String>,
    pub version: String,
    pub keywords: Option<Vec<String>>,
    pub homepage: Option<String>,
    pub repository: Option<RepositoryDto>,
    pub author: Option<AuthorDto>,
    pub license: Option<String>,
    pub dependencies: Option<HashMap<String, String>>,
    pub dev_dependencies: Option<HashMap<String, String>>,
    pub optional_dependencies: Option<HashMap<String, String>>,
    pub peer_dependencies: Option<HashMap<String, String>>,
    pub scripts: Option<HashMap<String, String>>,
    pub main: Option<String>,
    pub bin: Option<BinDto>,
    pub files: Option<Vec<String>>,
    pub engines: Option<HashMap<String, String>>,
    pub os: Option<Vec<String>>,
    pub cpu: Option<Vec<String>>,
    pub private: Option<bool>,
    pub publish_config: Option<PublishConfigDto>,
    pub dist_tags: HashMap<String, String>,
    pub versions: Vec<String>,
    pub time: Option<HashMap<String, String>>,
    pub users: Option<HashMap<String, bool>>,
    pub dist: Option<DistDto>,
}

/// Source repository of a package.
#[derive(Debug, Clone)]
pub struct RepositoryDto {
    pub repo_type: String,
    pub url: String,
    pub directory: Option<String>,
}

/// Author of a package, as a plain string or as an object.
#[derive(Debug, Clone)]
pub enum AuthorDto {
    String(String),
    Object { name: String, email: Option<String>, url: Option<String> },
}

/// Executables of a package.
#[derive(Debug, Clone)]
pub enum BinDto {
    Single(String),
    Multiple(HashMap<String, String>),
}

/// Publication settings of a package.
#[derive(Debug, Clone)]
pub struct PublishConfigDto {
    pub registry: Option<String>,
    pub ignore: Option<Vec<String>>,
    pub included: Option<Vec<String>>,
    pub access: Option<String>,
    pub tag: Option<String>,
}

/// Distribution data of a package version.
#[derive(Debug, Clone)]
pub struct DistDto {
    pub integrity: Option<String>,
    pub tarball: String,
    pub file_count: Option<u64>,
    pub unpacked_size: Option<u64>,
    pub shasum: Option<String>,
    pub size: Option<u64>,
}

/// Errors of the npm metadata feature.
#[derive(Debug)]
pub enum GenerateNpmMetadataError {
    PackageNotFound { package_name: String, repository_id: String },
    InvalidPackageName { name: String },
    MetadataGenerationFailed { reason: String },
    RepositoryError(String),
    CacheError(String),
    PermissionDenied { package_name: String, repository_id: String },
}

/// Characters allowed in an npm package name besides the alphanumeric ones.
pub open spec fn npm_name_extra() -> Seq<char> {
    seq!['-', '_', '.', '@', '/']
}

/// A valid npm package name: not empty, at most 214 bytes of UTF-8, made of
/// alphanumeric characters and `- _ . @ /`, not starting with `.` or `-`, not
/// ending with `.`. A scoped name is `@scope/package`: it starts with `@`,
/// holds one `/`, and the package part is not empty and does not start with
/// `.` or `-`. An unscoped name holds neither `/` nor `@`.
pub open spec fn valid_npm_package_name(n: Seq<char>) -> bool {
    &&& n.len() > 0
    &&& utf8_len(n) <= 214
    &&& all_alnum_or(n, npm_name_extra())
    &&& n[0] != '.' && n[0] != '-'
    &&& n.last() != '.'
    &&& only_first_is(n, '@')
    &&& (n[0] == '@') == n.contains('/')
    &&& at_most_once(n, '/')
    &&& each_followed_by_none_of(n, '/', seq!['.', '-'])
}

/// A valid npm package name in the words of its parts: not empty, at most
/// 214 bytes, alphanumeric characters and `- _ . @ /`, not starting with
/// `.` or `-`, not ending with `.`, `@` only first, a name starting with `@`
/// holds a `/`, and a name with a `/` is cut by it into exactly a scope
/// starting with `@` and a non-empty package part that starts with neither
/// `.` nor `-`.
pub open spec fn npm_name_by_parts(n: Seq<char>) -> bool {
    &&& n.len() > 0
    &&& utf8_len(n) <= 214
    &&& all_alnum_or(n, npm_name_extra())
    &&& n[0] != '.' && n[0] != '-'
    &&& n.last() != '.'
    &&& only_first_is(n, '@')
    &&& (n[0] == '@' ==> n.contains('/'))
    &&& (n.contains('/') ==> {
        let parts = split_on(n, '/');
        &&& parts.len() == 2
        &&& parts[0].len() > 0 && parts[0][0] == '@'
        &&& parts[1].len() > 0 && parts[1][0] != '.' && parts[1][0] != '-'
    })
}

/// The rule of npm package names read character by character is the rule
/// read by the parts a `/` cuts a name into.
pub proof fn law_npm_name_by_scope_and_package(n: Seq<char>)
    ensures
        valid_npm_package_name(n) <==> npm_name_by_parts(n),
{
    let banned = seq!['.', '-'];
    if n.len() > 0 && n.contains('/') {
        let i = choose|i: int| 0 <= i < n.len() && n[i] == '/';
        if valid_npm_package_name(n) {
            lemma_split_at(n, '/', i);
            assert(n[0] == '@');
            assert(i != 0);
            assert(n.take(i)[0] == '@');
            assert(n[i] == '/');
            assert(i + 1 < n.len() && !banned.contains(n[i + 1]));
            assert(n.skip(i + 1)[0] == n[i + 1]);
            assert(banned[0] == '.' && banned[1] == '-');
            assert(npm_name_by_parts(n));
        }
        if npm_name_by_parts(n) {
            lemma_split_two(n, '/');
            let parts = split_on(n, '/');
            let a = parts[0];
            let b = parts[1];
            assert(n[0] == a[0]);
            assert forall|j: int| 0 <= j < n.len() && #[trigger] n[j] == '/' implies j + 1 < n.len() && !banned.contains(
                n[j + 1],
            ) by {
                assert(j == a.len());
                assert(n[j + 1] == b[0]);
                if banned.contains(b[0]) {
                    let k = choose|k: int| 0 <= k < banned.len() && banned[k] == b[0];
                    assert(k == 0 || k == 1);
                }
            }
            assert(valid_npm_package_name(n));
        }
    } else if n.len() > 0 {
        assert(each_followed_by_none_of(n, '/', banned)) by {
            assert forall|j: int| 0 <= j < n.len() && #[trigger] n[j] == '/' implies j + 1 < n.len() && !banned.contains(
                n[j + 1],
            ) by {
                assert(n.contains('/'));
            }
        }
        assert(at_most_once(n, '/')) by {
            assert forall|i: int, k: int|
                0 <= i < n.len() && 0 <= k < n.len() && n[i] == '/' && n[k] == '/' implies i == k by {
                assert(n.contains('/'));
            }
        }
    }
}

/// Checks an npm package name; the error carries the name.
pub fn validate_npm_package_name(name: &str) -> (r: Result<(), GenerateNpmMetadataError>)
    ensures
        r is Ok <==> valid_npm_package_name(name@),
        r matches Err(e) ==> (e matches GenerateNpmMetadataError::InvalidPackageName { name: n } && n@ == name@),
{
    let v = chars_of(name);
    let ok = v.len() > 0 && utf8_len_at_most(&v, 214) && all_alnum_or_any_of(&v, &['-', '_', '.', '@', '/'])
        && v[0] != '.' && v[0] != '-' && v[v.len() - 1] != '.' && check_only_first_is(&v, '@')
        && (v[0] == '@') == has_char(&v, '/') && check_at_most_once(&v, '/')
        && check_each_followed_by_none_of(&v, '/', &['.', '-']);
    proof {
        assert(seq!['-', '_', '.', '@', '/'] =~= npm_name_extra());
    }
    if ok {
        Ok(())
    } else {
        Err(GenerateNpmMetadataError::InvalidPackageName { name: name.to_owned() })
    }
}

/// The message of each error.
pub open spec fn npm_error_message(e: GenerateNpmMetadataError) -> Seq<char> {
    match e {
        GenerateNpmMetadataError::PackageNotFound { package_name, repository_id } => "Package not found: "@
            + package_name@ + " in repository "@ + repository_id@,
        GenerateNpmMetadataError::InvalidPackageName { name } => "Invalid package name: "@ + name@,
        GenerateNpmMetadataError::MetadataGenerationFailed { reason } => "Metadata generation failed: "@ + reason@,
        GenerateNpmMetadataError::RepositoryError(m) => "Repository error: "@ + m@,
        GenerateNpmMetadataError::CacheError(m) => "Cache error: "@ + m@,
        GenerateNpmMetadataError::PermissionDenied { package_name, repository_id } => "Permission denied for package "@
            + package_name@ + " in repository "@ + repository_id@,
    }
}

/// The HTTP status and the error type with which the API answers each error.
pub open spec fn npm_error_answer(e: GenerateNpmMetadataError) -> (u16, Seq<char>) {
    match e {
        GenerateNpmMetadataError::InvalidPackageName { .. } => (400, "invalid_package_name"@),
        GenerateNpmMetadataError::PackageNotFound { .. } => (404, "package_not_found"@),
        GenerateNpmMetadataError::RepositoryError(_) => (500, "repository_error"@),
        GenerateNpmMetadataError::MetadataGenerationFailed { .. } => (500, "metadata_generation_failed"@),
        GenerateNpmMetadataError::CacheError(_) => (500, "cache_error"@),
        GenerateNpmMetadataError::PermissionDenied { .. } => (403, "permission_denied"@),
    }
}

/// The details that the API's answer gives of each error, as named texts.
pub open spec fn npm_error_details(e: GenerateNpmMetadataError) -> Seq<(Seq<char>, Seq<char>)> {
    match e {
        GenerateNpmMetadataError::InvalidPackageName { name } => seq![("package_name"@, name@)],
        GenerateNpmMetadataError::PackageNotFound { package_name, repository_id } => seq![
            ("package_name"@, package_name@),
            ("repository_id"@, repository_id@),
        ],
        GenerateNpmMetadataError::RepositoryError(m) => seq![("error"@, m@)],
        GenerateNpmMetadataError::MetadataGenerationFailed { reason } => seq![("reason"@, reason@)],
        GenerateNpmMetadataError::CacheError(m) => seq![("error"@, m@)],
        GenerateNpmMetadataError::PermissionDenied { package_name, repository_id } => seq![
            ("package_name"@, package_name@),
            ("repository_id"@, repository_id@),
        ],
    }
}

impl GenerateNpmMetadataError {
    /// The details of the error, as the API's answer names them.
    pub fn details(&self) -> (r: Vec<(String, String)>)
        ensures
            pair_views(r@) == npm_error_details(*self),
    {
        let r = match self {
            GenerateNpmMetadataError::InvalidPackageName { name } => vec![("package_name".to_owned(), name.clone())],
            GenerateNpmMetadataError::PackageNotFound { package_name, repository_id } => vec![
                ("package_name".to_owned(), package_name.clone()),
                ("repository_id".to_owned(), repository_id.clone()),
            ],
            GenerateNpmMetadataError::RepositoryError(m) => vec![("error".to_owned(), m.clone())],
            GenerateNpmMetadataError::MetadataGenerationFailed { reason } => vec![("reason".to_owned(), reason.clone())],
            GenerateNpmMetadataError::CacheError(m) => vec![("error".to_owned(), m.clone())],
            GenerateNpmMetadataError::PermissionDenied { package_name, repository_id } => vec![
                ("package_name".to_owned(), package_name.clone()),
                ("repository_id".to_owned(), repository_id.clone()),
            ],
        };
        proof {
            assert(pair_views(r@) =~= npm_error_details(*self));
        }
        r
    }

    /// The message of the error.
    pub fn message(&self) -> (r: String)
        ensures
            r@ == npm_error_message(*self),
    {
        match self {
            GenerateNpmMetadataError::PackageNotFound { package_name, repository_id } => {
                let head = concat3("Package not found: ", package_name.as_str(), " in repository ");
                concat2(head.as_str(), repository_id.as_str())
            },
            GenerateNpmMetadataError::InvalidPackageName { name } => concat2("Invalid package name: ", name.as_str()),
            GenerateNpmMetadataError::MetadataGenerationFailed { reason } => concat2(
                "Metadata generation failed: ",
                reason.as_str(),
            ),
            GenerateNpmMetadataError::RepositoryError(m) => concat2("Repository error: ", m.as_str()),
            GenerateNpmMetadataError::CacheError(m) => concat2("Cache error: ", m.as_str()),
            GenerateNpmMetadataError::PermissionDenied { package_name, repository_id } => {
                let head = concat3("Permission denied for package ", package_name.as_str(), " in repository ");
                concat2(head.as_str(), repository_id.as_str())
            },
        }
    }

    /// The HTTP status of the error.
    pub fn http_status(&self) -> (r: u16)
        ensures
            r == npm_error_answer(*self).0,
    {
        match self {
            GenerateNpmMetadataError::InvalidPackageName { .. } => 400,
            GenerateNpmMetadataError::PackageNotFound { .. } => 404,
            GenerateNpmMetadataError::RepositoryError(_) => 500,
            GenerateNpmMetadataError::MetadataGenerationFailed { .. } => 500,
            GenerateNpmMetadataError::CacheError(_) => 500,
            GenerateNpmMetadataError::PermissionDenied { .. } => 403,
        }
    }

    /// The error type named in the API's answer.
    pub fn error_type(&self) -> (r: &'static str)
        ensures
            r@ == npm_error_answer(*self).1,
    {
        match self {
            GenerateNpmMetadataError::InvalidPackageName { .. } => "invalid_package_name",
            GenerateNpmMetadataError::PackageNotFound { .. } => "package_not_found",
            GenerateNpmMetadataError::RepositoryError(_) => "repository_error",
            GenerateNpmMetadataError::MetadataGenerationFailed { .. } => "metadata_generation_failed",
            GenerateNpmMetadataError::CacheError(_) => "cache_error",
            GenerateNpmMetadataError::PermissionDenied { .. } => "permission_denied",
        }
    }
}

} // verus!

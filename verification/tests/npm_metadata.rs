use std::collections::HashMap;

use distribution::domain::{NpmPackageName, NpmVersion};
use distribution::features::generate_npm_metadata::adapter::{
    document_from_json, PackageJsonDocument, RedisNpmMetadataCache, S3NpmMetadataGenerator,
};
use distribution::json::{parse_json, JsonValue};
use distribution::features::generate_npm_metadata::dto::{
    validate_npm_package_name, AuthorDto, DistDto, GenerateNpmMetadataError,
    GenerateNpmMetadataRequest, GenerateNpmMetadataResponse, NpmPackageMetadataDto, RepositoryDto,
};
use distribution::features::generate_npm_metadata::ports::{
    AuthorInfo, CachedMetadata, DistInfo, MetadataCacheError, MetadataGeneratorError, PackageInfo,
    PackageListerError, RepositoryInfo,
};
use distribution::features::generate_npm_metadata::use_case::{GenerateNpmMetadataUseCase, NpmAction};

fn bare_metadata(name: &str) -> NpmPackageMetadataDto {
    NpmPackageMetadataDto {
        name: name.to_string(),
        description: Some("generated".to_string()),
        version: "1.0.0".to_string(),
        keywords: None,
        homepage: None,
        repository: None,
        author: None,
        license: Some("ISC".to_string()),
        dependencies: None,
        dev_dependencies: None,
        optional_dependencies: None,
        peer_dependencies: None,
        scripts: None,
        main: None,
        bin: None,
        files: None,
        engines: None,
        os: None,
        cpu: None,
        private: None,
        publish_config: None,
        dist_tags: HashMap::new(),
        versions: vec!["1.0.0".to_string()],
        time: None,
        users: None,
        dist: None,
    }
}

fn info(published_at: Option<&str>) -> PackageInfo {
    PackageInfo {
        name: "test-package".to_string(),
        version: "1.0.0".to_string(),
        description: Some("Test package".to_string()),
        keywords: Some(vec!["test".to_string()]),
        homepage: Some("https://example.com".to_string()),
        repository: Some(RepositoryInfo {
            repo_type: "git".to_string(),
            url: "https://github.com/user/repo.git".to_string(),
            directory: None,
        }),
        author: Some(AuthorInfo::String("Test Author".to_string())),
        license: None,
        dependencies: None,
        dev_dependencies: None,
        optional_dependencies: None,
        peer_dependencies: None,
        scripts: None,
        main: Some("index.js".to_string()),
        bin: None,
        files: None,
        engines: None,
        os: None,
        cpu: None,
        private: Some(false),
        publish_config: None,
        dist_tags: HashMap::from([("latest".to_string(), "1.0.0".to_string())]),
        published_at: published_at.map(|p| p.to_string()),
        dist: Some(DistInfo {
            integrity: Some("sha512-abc123".to_string()),
            tarball: "https://registry.npmjs.org/test-package/-/test-package-1.0.0.tgz".to_string(),
            file_count: Some(10),
            unpacked_size: Some(1024),
            shasum: Some("def456".to_string()),
            size: Some(512),
        }),
    }
}

fn request(scope: Option<&str>, name: &str, force: bool) -> GenerateNpmMetadataRequest {
    GenerateNpmMetadataRequest {
        scope: scope.map(|s| s.to_string()),
        package_name: name.to_string(),
        repository_id: "test-repo".to_string(),
        force_regenerate: force,
    }
}

#[test]
fn test_validate_npm_package_name_valid() {
    assert!(validate_npm_package_name("express").is_ok());
    assert!(validate_npm_package_name("lodash").is_ok());
    assert!(validate_npm_package_name("@angular/core").is_ok());
    assert!(validate_npm_package_name("@types/node").is_ok());
    assert!(validate_npm_package_name("my-package").is_ok());
    assert!(validate_npm_package_name("my_package").is_ok());
    assert!(validate_npm_package_name("my.package").is_ok());
}

#[test]
fn test_validate_npm_package_name_invalid() {
    assert!(validate_npm_package_name("").is_err());
    assert!(validate_npm_package_name(".package").is_err());
    assert!(validate_npm_package_name("-package").is_err());
    assert!(validate_npm_package_name("package.").is_err());
    assert!(validate_npm_package_name("package with spaces").is_err());
    assert!(validate_npm_package_name("package@invalid").is_err());
    assert!(validate_npm_package_name("@scope").is_err());
    assert!(validate_npm_package_name("@scope/").is_err());
    assert!(validate_npm_package_name("@scope/.package").is_err());
    assert!(validate_npm_package_name("@scope/-package").is_err());
}

#[test]
fn dto_test_npm_package_metadata_dto_creation() {
    let metadata = NpmPackageMetadataDto {
        name: "test-package".to_string(),
        description: Some("A test package".to_string()),
        version: "1.0.0".to_string(),
        keywords: Some(vec!["test".to_string(), "package".to_string()]),
        homepage: Some("https://example.com".to_string()),
        repository: Some(RepositoryDto {
            repo_type: "git".to_string(),
            url: "https://github.com/user/repo.git".to_string(),
            directory: None,
        }),
        author: Some(AuthorDto::String("Test Author".to_string())),
        license: Some("MIT".to_string()),
        dependencies: None,
        dev_dependencies: None,
        optional_dependencies: None,
        peer_dependencies: None,
        scripts: None,
        main: Some("index.js".to_string()),
        bin: None,
        files: None,
        engines: None,
        os: None,
        cpu: None,
        private: Some(false),
        publish_config: None,
        dist_tags: HashMap::from([
            ("latest".to_string(), "1.0.0".to_string()),
            ("beta".to_string(), "1.1.0-beta.1".to_string()),
        ]),
        versions: vec!["1.0.0".to_string(), "1.1.0-beta.1".to_string()],
        time: None,
        users: None,
        dist: Some(DistDto {
            integrity: Some("sha512-abc123".to_string()),
            tarball: "https://registry.npmjs.org/test-package/-/test-package-1.0.0.tgz".to_string(),
            file_count: Some(10),
            unpacked_size: Some(1024),
            shasum: Some("def456".to_string()),
            size: Some(512),
        }),
    };

    assert_eq!(metadata.name, "test-package");
    assert_eq!(metadata.version, "1.0.0");
    assert_eq!(metadata.dist_tags.len(), 2);
    assert_eq!(metadata.versions.len(), 2);
    assert!(metadata.dist.is_some());
}

#[test]
fn test_generate_npm_metadata_request_creation() {
    let request = GenerateNpmMetadataRequest {
        scope: Some("@myorg".to_string()),
        package_name: "my-package".to_string(),
        repository_id: "npm-registry".to_string(),
        force_regenerate: false,
    };

    assert_eq!(request.scope, Some("@myorg".to_string()));
    assert_eq!(request.package_name, "my-package");
    assert_eq!(request.repository_id, "npm-registry");
    assert!(!request.force_regenerate);
}

#[test]
fn dto_test_generate_npm_metadata_response_creation() {
    let mut metadata = bare_metadata("test-package");
    metadata.description = None;
    metadata.license = None;

    let response = GenerateNpmMetadataResponse {
        metadata,
        generated_at: "2024-01-01T12:00:00Z".to_string(),
        cache_hit: true,
    };

    assert_eq!(response.metadata.name, "test-package");
    assert!(response.cache_hit);
    assert_eq!(response.generated_at, "2024-01-01T12:00:00Z");
}

#[test]
fn test_package_info_creation() {
    let mut info = info(Some("2024-01-01T12:00:00Z"));
    info.license = Some("MIT".to_string());

    assert_eq!(info.name, "test-package");
    assert_eq!(info.version, "1.0.0");
    assert_eq!(info.dist_tags.get("latest"), Some(&"1.0.0".to_string()));
    assert!(info.dist.is_some());
}

#[test]
fn test_cached_metadata_creation() {
    let mut metadata = bare_metadata("test-package");
    metadata.description = None;
    metadata.license = None;

    let cached = CachedMetadata {
        metadata,
        cached_at: "2024-01-01T12:00:00Z".to_string(),
        ttl_seconds: 3600,
    };

    assert_eq!(cached.metadata.name, "test-package");
    assert_eq!(cached.ttl_seconds, 3600);
    assert_eq!(cached.cached_at, "2024-01-01T12:00:00Z");
}

#[test]
fn package_names_and_versions() {
    assert_eq!(NpmPackageName::new("@scope/pkg").unwrap().as_str(), "@scope/pkg");
    assert!(NpmPackageName::new("@scope").is_err());
    assert_eq!(NpmVersion::new("1.2.3".to_string()).as_str(), "1.2.3");
}

#[test]
fn start_checks_names_and_scope() {
    let use_case = GenerateNpmMetadataUseCase::new(3600);
    match use_case.start(&request(Some("@myorg"), "test-package", false)) {
        NpmAction::LookUpCache(n) => assert_eq!(n.as_str(), "@myorg/test-package"),
        _ => panic!("expected LookUpCache"),
    }
    match use_case.start(&request(None, "test-package", true)) {
        NpmAction::Generate(n) => assert_eq!(n.as_str(), "test-package"),
        _ => panic!("expected Generate"),
    }
    match use_case.start(&request(None, ".bad", false)) {
        NpmAction::Finish(Err(GenerateNpmMetadataError::InvalidPackageName { name })) => assert_eq!(name, ".bad"),
        _ => panic!("expected InvalidPackageName"),
    }
    match use_case.start(&request(Some("myorg"), "pkg", false)) {
        NpmAction::Finish(Err(GenerateNpmMetadataError::InvalidPackageName { name })) => assert_eq!(name, "myorg/pkg"),
        _ => panic!("expected InvalidPackageName of the full name"),
    }
}

#[test]
fn cache_freshness_by_age() {
    assert!(GenerateNpmMetadataUseCase::cache_freshness(Some((1000, 0)), (1500, 0), 3600));
    assert!(!GenerateNpmMetadataUseCase::cache_freshness(Some((1000, 0)), (4600, 0), 3600));
    assert!(GenerateNpmMetadataUseCase::cache_freshness(Some((1000, 0)), (4599, 0), 3600));
    assert!(!GenerateNpmMetadataUseCase::cache_freshness(None, (0, 0), 3600));
    // Ages are whole seconds of the exact difference, cut toward zero.
    assert!(GenerateNpmMetadataUseCase::cache_freshness(Some((1000, 500_000_000)), (4600, 400_000_000), 3600));
    assert!(!GenerateNpmMetadataUseCase::cache_freshness(Some((1000, 500_000_000)), (4600, 500_000_000), 3600));
    assert!(GenerateNpmMetadataUseCase::cache_freshness(Some((1000, 0)), (999, 1), 0) == false);
    assert!(GenerateNpmMetadataUseCase::cache_freshness(Some((1000, 0)), (999, 1), 1));
}

#[test]
fn cache_lookup_serves_only_fresh_metadata() {
    let use_case = GenerateNpmMetadataUseCase::new(3600);
    let name = NpmPackageName::new("test-package").unwrap();
    let cached = CachedMetadata {
        metadata: bare_metadata("test-package"),
        cached_at: "2024-01-01T00:00:00Z".to_string(),
        ttl_seconds: 3600,
    };
    let cached_at = 1704067200i64;
    match use_case.on_cache_lookup_at(name.clone(), Ok(Some(cached.clone())), (cached_at + 10, 0)) {
        NpmAction::Finish(Ok(r)) => {
            assert!(r.cache_hit);
            assert_eq!(r.generated_at, "2024-01-01T00:00:00Z");
        }
        _ => panic!("expected a cache hit"),
    }
    assert!(matches!(
        use_case.on_cache_lookup_at(name.clone(), Ok(Some(cached.clone())), (cached_at + 3600, 0)),
        NpmAction::Generate(_)
    ));
    let mut fractional = cached.clone();
    fractional.cached_at = "2024-01-01T00:00:00.5Z".to_string();
    assert!(matches!(
        use_case.on_cache_lookup_at(name.clone(), Ok(Some(fractional.clone())), (cached_at + 3600, 400_000_000)),
        NpmAction::Finish(Ok(_))
    ));
    assert!(matches!(
        use_case.on_cache_lookup_at(name.clone(), Ok(Some(fractional)), (cached_at + 3600, 500_000_000)),
        NpmAction::Generate(_)
    ));
    let mut unreadable = cached;
    unreadable.cached_at = "yesterday".to_string();
    assert!(matches!(use_case.on_cache_lookup_at(name.clone(), Ok(Some(unreadable)), (0, 0)), NpmAction::Generate(_)));
    let failing = Err(MetadataCacheError::CacheError("down".to_string()));
    assert!(matches!(use_case.on_cache_lookup_at(name, failing, (0, 0)), NpmAction::Generate(_)));
}

#[test]
fn lister_and_generator_errors() {
    let use_case = GenerateNpmMetadataUseCase::new(3600);
    let name = NpmPackageName::new("pkg").unwrap();
    match use_case.on_generated(Err(MetadataGeneratorError::PackageNotFound { package_name: "pkg".to_string() }), "repo") {
        NpmAction::Finish(Err(GenerateNpmMetadataError::PackageNotFound { package_name, repository_id })) => {
            assert_eq!(package_name, "pkg");
            assert_eq!(repository_id, "repo");
        }
        _ => panic!("expected PackageNotFound"),
    }
    match use_case.on_versions_listed(bare_metadata("pkg"), Ok(vec![]), &name, "repo") {
        NpmAction::Finish(Err(GenerateNpmMetadataError::PackageNotFound { package_name, repository_id })) => {
            assert_eq!(package_name, "pkg");
            assert_eq!(repository_id, "repo");
        }
        _ => panic!("expected PackageNotFound"),
    }
    let versions = vec![NpmVersion::new("1.0.0".to_string()), NpmVersion::new("1.1.0".to_string())];
    match use_case.on_versions_listed(bare_metadata("pkg"), Ok(versions), &name, "repo") {
        NpmAction::GetPackageInfo(_, v) => assert_eq!(v.as_str(), "1.1.0"),
        _ => panic!("expected GetPackageInfo"),
    }
    let missing = Err(PackageListerError::RepositoryNotFound { repository_id: "r9".to_string() });
    match use_case.on_package_info(bare_metadata("pkg"), missing, "repo", "now".to_string()) {
        NpmAction::Finish(Err(GenerateNpmMetadataError::RepositoryError(m))) => assert_eq!(m, "Repository not found: r9"),
        _ => panic!("expected RepositoryError"),
    }
}

#[test]
fn package_info_wins_when_combined() {
    let use_case = GenerateNpmMetadataUseCase::new(3600);
    let combined = use_case.combine_metadata(bare_metadata("pkg"), info(Some("2024-01-01T12:00:00Z")), "2024-02-01T00:00:00Z".to_string());
    assert_eq!(combined.name, "pkg");
    assert_eq!(combined.description, Some("Test package".to_string()));
    assert_eq!(combined.license, Some("ISC".to_string()));
    assert_eq!(combined.main, Some("index.js".to_string()));
    assert_eq!(combined.dist_tags.get("latest"), Some(&"1.0.0".to_string()));
    assert!(matches!(combined.author, Some(AuthorDto::String(ref a)) if a == "Test Author"));
    assert_eq!(combined.dist.unwrap().file_count, Some(10));
    let time = combined.time.unwrap();
    assert_eq!(time.get("created"), Some(&"2024-01-01T12:00:00Z".to_string()));
    assert_eq!(time.get("modified"), Some(&"2024-02-01T00:00:00Z".to_string()));
    let unpublished = use_case.combine_metadata(bare_metadata("pkg"), info(None), "x".to_string());
    assert!(unpublished.time.is_none());
    let stored = use_case.on_stored(unpublished, Err(MetadataCacheError::StorageError("s".to_string())), "g".to_string());
    assert!(!stored.cache_hit);
}

#[test]
fn npm_storage_keys() {
    assert_eq!(S3NpmMetadataGenerator::package_key("repo", None, "pkg"), "repo/pkg/package.json");
    assert_eq!(S3NpmMetadataGenerator::package_key("repo", Some("@s"), "pkg"), "repo/@s/package.json");
    assert_eq!(S3NpmMetadataGenerator::key_for_package("repo", "@s/pkg"), "repo/@s/package.json");
    assert_eq!(S3NpmMetadataGenerator::key_for_package("repo", "pkg"), "repo/pkg/package.json");
    assert_eq!(S3NpmMetadataGenerator::key_for_package("repo", "@odd"), "repo/@odd/package.json");
    let cache = RedisNpmMetadataCache::new(60);
    assert_eq!(cache.cache_key(None, "pkg", "repo"), "npm:metadata:repo:pkg");
    assert_eq!(cache.cache_key(Some("@s"), "pkg", "repo"), "npm:metadata:repo:@s:pkg");
}

#[test]
fn npm_error_answers() {
    let e = GenerateNpmMetadataError::PackageNotFound { package_name: "pkg".to_string(), repository_id: "repo".to_string() };
    assert_eq!(e.message(), "Package not found: pkg in repository repo");
    assert_eq!(e.http_status(), 404);
    assert_eq!(e.error_type(), "package_not_found");
    let e = GenerateNpmMetadataError::InvalidPackageName { name: ".x".to_string() };
    assert_eq!(e.http_status(), 400);
    assert_eq!(e.error_type(), "invalid_package_name");
    assert_eq!(GenerateNpmMetadataError::CacheError("c".to_string()).message(), "Cache error: c");
}

#[test]
fn metadata_from_package_json() {
    let generator = S3NpmMetadataGenerator::new("bucket".to_string());
    let document = PackageJsonDocument {
        name: None,
        version: None,
        description: Some("d".to_string()),
        keywords: vec!["k".to_string()],
        homepage: None,
        license: Some("MIT".to_string()),
        author: Some("Ann".to_string()),
        files: vec![],
        main: Some("index.js".to_string()),
        bin: None,
        repository: None,
        scripts: None,
        dependencies: Some(vec![("lodash".to_string(), "^4".to_string())]),
        dev_dependencies: None,
        peer_dependencies: None,
        optional_dependencies: None,
        engines: None,
        os: vec![],
        cpu: vec![],
        private: None,
        publish_config: None,
        dist_tags: None,
        versions: vec!["1.0.0".to_string()],
        time: None,
        users: None,
    };
    let m = generator.metadata_from_document(document, "pkg");
    assert_eq!(m.name, "pkg");
    assert_eq!(m.version, "1.0.0");
    assert_eq!(m.private, Some(false));
    assert_eq!(m.keywords, Some(vec!["k".to_string()]));
    assert!(matches!(m.author, Some(AuthorDto::String(ref a)) if a == "Ann"));
    assert!(m.dist_tags.is_empty());
    assert_eq!(m.dependencies.unwrap().get("lodash"), Some(&"^4".to_string()));
    assert!(matches!(
        generator.fetch_error("pkg", "repo"),
        GenerateNpmMetadataError::PackageNotFound { ref package_name, .. } if package_name == "pkg"
    ));
    assert_eq!(generator.body_error("eof").message(), "Repository error: Error reading package.json from S3: eof");
    assert_eq!(
        generator.format_error("bad").message(),
        "Metadata generation failed: Invalid package.json format: bad"
    );
    let cache = RedisNpmMetadataCache::new(60);
    assert_eq!(cache.cache_error("Redis GET", "down").message(), "Cache error: Redis GET error: down");
}

const PACKAGE_JSON: &str = r#"{
  "name": "left-pad",
  "version": "1.3.0",
  "description": "String left pad",
  "keywords": ["pad", 7, "left"],
  "license": "WTFPL",
  "author": {"name": "azer"},
  "main": "index.js",
  "bin": {"lp": "bin/lp.js", "odd": 3},
  "repository": {"type": "git", "url": "git://example.com/left-pad.git"},
  "dependencies": {"a": "^1.0.0", "b": "~2.1.0"},
  "devDependencies": {"tap": "*"},
  "os": ["linux"],
  "private": true,
  "publishConfig": {"registry": "https://registry.example.com", "ignore": ["x", false]},
  "dist-tags": {"latest": "1.3.0"},
  "versions": {"1.2.0": {}, "1.3.0": {}},
  "users": {"ann": true, "bob": "yes"}
}"#;

#[test]
fn package_json_is_read_field_by_field() {
    let v = parse_json(PACKAGE_JSON.as_bytes()).unwrap();
    let d = document_from_json(&v);
    assert_eq!(d.name, Some("left-pad".to_string()));
    assert_eq!(d.version, Some("1.3.0".to_string()));
    assert_eq!(d.keywords, vec!["pad".to_string(), "left".to_string()]);
    assert_eq!(d.author, None);
    assert_eq!(d.homepage, None);
    assert_eq!(
        d.bin,
        Some(vec![("lp".to_string(), "bin/lp.js".to_string()), ("odd".to_string(), String::new())])
    );
    let repository = d.repository.clone().unwrap();
    assert_eq!(repository.repo_type, "git");
    assert_eq!(repository.url, "git://example.com/left-pad.git");
    assert_eq!(repository.directory, None);
    assert_eq!(
        d.dependencies,
        Some(vec![("a".to_string(), "^1.0.0".to_string()), ("b".to_string(), "~2.1.0".to_string())])
    );
    assert_eq!(d.peer_dependencies, None);
    assert_eq!(d.os, vec!["linux".to_string()]);
    assert!(d.cpu.is_empty());
    assert_eq!(d.private, Some(true));
    let publish = d.publish_config.clone().unwrap();
    assert_eq!(publish.registry, Some("https://registry.example.com".to_string()));
    assert_eq!(publish.ignore, Some(vec!["x".to_string()]));
    assert_eq!(publish.included, None);
    assert_eq!(d.versions, vec!["1.2.0".to_string(), "1.3.0".to_string()]);
    assert_eq!(d.users, Some(vec![("ann".to_string(), true), ("bob".to_string(), false)]));
}

#[test]
fn json_values_keep_their_kind() {
    match parse_json(b"[1.5, null, \"s\", {\"k\": false}]").unwrap() {
        JsonValue::Array(items) => {
            assert_eq!(items.len(), 4);
            assert!(matches!(items[0], JsonValue::Number(ref n) if n == "1.5"));
            assert!(matches!(items[1], JsonValue::Null));
            assert!(matches!(items[2], JsonValue::Text(ref t) if t == "s"));
            assert!(matches!(items[3], JsonValue::Object(ref m) if m.len() == 1 && m[0].0 == "k"));
        },
        other => panic!("expected an array, got {:?}", other),
    }
    assert!(parse_json(b"{not json").is_err());
}

#[test]
fn metadata_from_stored_object() {
    let generator = S3NpmMetadataGenerator::new("bucket".to_string());
    let m = generator
        .metadata_from_object("left-pad", "npm-repo", Ok(Ok(PACKAGE_JSON.as_bytes().to_vec())))
        .unwrap();
    assert_eq!(m.name, "left-pad");
    assert_eq!(m.version, "1.3.0");
    assert_eq!(m.private, Some(true));
    assert_eq!(m.dist_tags.get("latest"), Some(&"1.3.0".to_string()));
    let deps = m.dependencies.unwrap();
    assert_eq!(deps.len(), 2);
    assert_eq!(deps.get("b"), Some(&"~2.1.0".to_string()));
    assert_eq!(m.dev_dependencies.unwrap().get("tap"), Some(&"*".to_string()));
    assert_eq!(m.users.unwrap().get("bob"), Some(&false));
    assert!(m.time.is_none());

    let empty = generator.metadata_from_object("pkg", "npm-repo", Ok(Ok(b"{}".to_vec()))).unwrap();
    assert_eq!(empty.name, "pkg");
    assert_eq!(empty.version, "1.0.0");
    assert_eq!(empty.private, Some(false));
    assert!(empty.dist_tags.is_empty());

    match generator.metadata_from_object("pkg", "npm-repo", Err("NoSuchKey".to_string())) {
        Err(GenerateNpmMetadataError::PackageNotFound { package_name, repository_id }) => {
            assert_eq!(package_name, "pkg");
            assert_eq!(repository_id, "npm-repo");
        },
        other => panic!("expected PackageNotFound, got {:?}", other),
    }
    match generator.metadata_from_object("pkg", "npm-repo", Ok(Err("reset".to_string()))) {
        Err(GenerateNpmMetadataError::RepositoryError(m)) => assert_eq!(m, "Error reading package.json from S3: reset"),
        other => panic!("expected RepositoryError, got {:?}", other),
    }
    match generator.metadata_from_object("pkg", "npm-repo", Ok(Ok(b"{oops".to_vec()))) {
        Err(GenerateNpmMetadataError::MetadataGenerationFailed { reason }) => {
            assert!(reason.starts_with("Invalid package.json format: "));
            assert!(reason.len() > "Invalid package.json format: ".len());
        },
        other => panic!("expected MetadataGenerationFailed, got {:?}", other),
    }
}

#[test]
fn npm_error_details() {
    let e = GenerateNpmMetadataError::PackageNotFound { package_name: "pkg".to_string(), repository_id: "repo".to_string() };
    assert_eq!(
        e.details(),
        vec![("package_name".to_string(), "pkg".to_string()), ("repository_id".to_string(), "repo".to_string())]
    );
    assert_eq!(
        GenerateNpmMetadataError::InvalidPackageName { name: ".x".to_string() }.details(),
        vec![("package_name".to_string(), ".x".to_string())]
    );
    assert_eq!(
        GenerateNpmMetadataError::RepositoryError("db".to_string()).details(),
        vec![("error".to_string(), "db".to_string())]
    );
    assert_eq!(
        GenerateNpmMetadataError::MetadataGenerationFailed { reason: "r".to_string() }.details(),
        vec![("reason".to_string(), "r".to_string())]
    );
    assert_eq!(
        GenerateNpmMetadataError::CacheError("c".to_string()).details(),
        vec![("error".to_string(), "c".to_string())]
    );
}

use std::collections::HashMap;

use distribution::features::generate_npm_metadata::dto::{
    validate_npm_package_name, AuthorDto, GenerateNpmMetadataRequest, GenerateNpmMetadataResponse,
    NpmPackageMetadataDto, RepositoryDto,
};
use distribution::features::generate_npm_metadata::ports::{AuthorInfo, DistInfo, PackageInfo, RepositoryInfo};

fn empty_metadata(name: &str, version: &str) -> NpmPackageMetadataDto {
    NpmPackageMetadataDto {
        name: name.to_string(),
        description: None,
        version: version.to_string(),
        keywords: None,
        homepage: None,
        repository: None,
        author: None,
        license: None,
        dependencies: None,
        dev_dependencies: None,
        optional_dependencies: None,
        peer_dependencies: None,
        scripts: None,
        main: None,
        bin: None,
        files: None,
        engines: None,
        os: None,
        cpu: None,
        private: None,
        publish_config: None,
        dist_tags: HashMap::new(),
        versions: vec![],
        time: None,
        users: None,
        dist: None,
    }
}

#[test]
fn dto_test_test_npm_package_metadata_dto_creation() {
    let mut metadata = empty_metadata("test-package", "1.0.0");
    metadata.description = Some("A test package".to_string());
    metadata.versions = vec!["1.0.0".to_string()];
    metadata.dist_tags = HashMap::from([("latest".to_string(), "1.0.0".to_string())]);
    metadata.time = Some(HashMap::from([
        ("created".to_string(), "2023-01-01T00:00:00.000Z".to_string()),
        ("1.0.0".to_string(), "2023-01-01T00:00:00.000Z".to_string()),
        ("modified".to_string(), "2023-01-01T00:00:00.000Z".to_string()),
    ]));
    metadata.users = Some(HashMap::from([("testuser".to_string(), true)]));
    metadata.author = Some(AuthorDto::Object {
        name: "Test Author".to_string(),
        email: Some("test@example.com".to_string()),
        url: Some("https://example.com".to_string()),
    });
    metadata.repository = Some(RepositoryDto {
        repo_type: "git".to_string(),
        url: "https://github.com/test/test-package.git".to_string(),
        directory: None,
    });
    metadata.license = Some("MIT".to_string());
    metadata.keywords = Some(vec!["test".to_string(), "package".to_string()]);
    metadata.homepage = Some("https://github.com/test/test-package#readme".to_string());
    metadata.main = Some("index.js".to_string());
    metadata.scripts = Some(HashMap::new());
    metadata.dependencies = Some(HashMap::new());
    metadata.dev_dependencies = Some(HashMap::new());
    metadata.peer_dependencies = Some(HashMap::new());
    metadata.optional_dependencies = Some(HashMap::new());
    metadata.engines = Some(HashMap::new());

    assert_eq!(metadata.name, "test-package");
    assert_eq!(metadata.version, "1.0.0");
    assert!(metadata.versions.contains(&"1.0.0".to_string()));
    assert!(metadata.dist_tags.contains_key("latest"));
    assert_eq!(metadata.dist_tags.get("latest").unwrap(), "1.0.0");
}

#[test]
fn test_npm_package_metadata_dto_scoped_package() {
    let mut metadata = empty_metadata("@scope/test-package", "2.0.0");
    metadata.description = Some("A scoped test package".to_string());
    metadata.versions = vec!["2.0.0".to_string()];
    metadata.dist_tags = HashMap::from([
        ("latest".to_string(), "2.0.0".to_string()),
        ("beta".to_string(), "2.0.0-beta.1".to_string()),
    ]);
    metadata.time = Some(HashMap::from([
        ("created".to_string(), "2023-02-01T00:00:00.000Z".to_string()),
        ("2.0.0".to_string(), "2023-02-01T00:00:00.000Z".to_string()),
        ("2.0.0-beta.1".to_string(), "2023-01-15T00:00:00.000Z".to_string()),
        ("modified".to_string(), "2023-02-01T00:00:00.000Z".to_string()),
    ]));
    metadata.users = Some(HashMap::from([("scopeduser".to_string(), true)]));
    metadata.author = Some(AuthorDto::Object {
        name: "Scoped Author".to_string(),
        email: Some("scoped@example.com".to_string()),
        url: Some("https://scoped.example.com".to_string()),
    });
    metadata.license = Some("Apache-2.0".to_string());
    metadata.keywords = Some(vec!["scoped".to_string(), "test".to_string()]);
    metadata.main = Some("index.js".to_string());

    assert_eq!(metadata.name, "@scope/test-package");
    assert_eq!(metadata.version, "2.0.0");
    assert!(metadata.versions.contains(&"2.0.0".to_string()));
    assert!(metadata.dist_tags.contains_key("latest"));
    assert!(metadata.dist_tags.contains_key("beta"));
    assert_eq!(metadata.dist_tags.get("latest").unwrap(), "2.0.0");
}

#[test]
fn test_generate_npm_metadata_request_validation() {
    let request = GenerateNpmMetadataRequest {
        scope: None,
        package_name: "valid-package".to_string(),
        repository_id: "repo-123".to_string(),
        force_regenerate: false,
    };
    assert!(request.package_name.len() > 0);
    assert!(!request.package_name.contains(' '));
    assert!(validate_npm_package_name(&request.package_name).is_ok());
}

#[test]
fn test_generate_npm_metadata_request_invalid_package_name() {
    let request = GenerateNpmMetadataRequest {
        scope: None,
        package_name: "".to_string(),
        repository_id: "repo-123".to_string(),
        force_regenerate: false,
    };
    assert_eq!(request.package_name.len(), 0);
    assert!(validate_npm_package_name(&request.package_name).is_err());
}

#[test]
fn test_generate_npm_metadata_request_scoped_package() {
    let request = GenerateNpmMetadataRequest {
        scope: None,
        package_name: "@scope/valid-package".to_string(),
        repository_id: "repo-123".to_string(),
        force_regenerate: false,
    };
    assert!(request.package_name.starts_with('@'));
    assert!(request.package_name.contains('/'));
    assert!(validate_npm_package_name(&request.package_name).is_ok());
}

#[test]
fn dto_test_test_generate_npm_metadata_response_creation() {
    let mut metadata = empty_metadata("test-package", "1.0.0");
    metadata.description = Some("A test package".to_string());
    let response = GenerateNpmMetadataResponse {
        metadata,
        generated_at: "2023-01-01T00:00:00.000Z".to_string(),
        cache_hit: false,
    };
    assert_eq!(response.metadata.name, "test-package");
    assert_eq!(response.metadata.version, "1.0.0");
    assert_eq!(response.metadata.description, Some("A test package".to_string()));
    assert_eq!(response.generated_at, "2023-01-01T00:00:00.000Z");
}

#[test]
fn test_generate_npm_metadata_command_creation() {
    let command = GenerateNpmMetadataRequest {
        scope: None,
        package_name: "test-package".to_string(),
        repository_id: "repo-123".to_string(),
        force_regenerate: false,
    };
    assert_eq!(command.repository_id, "repo-123");
    assert_eq!(command.package_name, "test-package");
    assert!(!command.force_regenerate);
}

#[test]
fn test_npm_version_info_creation() {
    let version_info = PackageInfo {
        name: "test-package".to_string(),
        version: "1.0.0".to_string(),
        description: Some("A test package".to_string()),
        keywords: Some(vec!["test".to_string(), "package".to_string()]),
        homepage: Some("https://github.com/test/test-package#readme".to_string()),
        repository: Some(RepositoryInfo {
            repo_type: "git".to_string(),
            url: "https://github.com/test/test-package.git".to_string(),
            directory: None,
        }),
        author: Some(AuthorInfo::String("Test Author".to_string())),
        license: Some("MIT".to_string()),
        dependencies: Some(HashMap::from([("lodash".to_string(), "^4.17.21".to_string())])),
        dev_dependencies: Some(HashMap::from([("jest".to_string(), "^27.0.0".to_string())])),
        optional_dependencies: Some(HashMap::new()),
        peer_dependencies: Some(HashMap::new()),
        scripts: Some(HashMap::from([("test".to_string(), "npm test".to_string())])),
        main: Some("index.js".to_string()),
        bin: None,
        files: None,
        engines: Some(HashMap::from([("node".to_string(), ">=14.0.0".to_string())])),
        os: Some(vec!["linux".to_string(), "darwin".to_string()]),
        cpu: Some(vec!["x64".to_string()]),
        private: None,
        publish_config: None,
        dist_tags: HashMap::new(),
        published_at: None,
        dist: Some(DistInfo {
            integrity: Some("sha512-abc123".to_string()),
            tarball: "https://registry.npmjs.org/test-package/-/test-package-1.0.0.tgz".to_string(),
            file_count: Some(10),
            unpacked_size: Some(1024),
            shasum: Some("abc123".to_string()),
            size: None,
        }),
    };

    assert_eq!(version_info.name, "test-package");
    assert_eq!(version_info.version, "1.0.0");
    assert_eq!(version_info.description, Some("A test package".to_string()));
    assert_eq!(version_info.main, Some("index.js".to_string()));
    assert!(version_info.scripts.as_ref().unwrap().contains_key("test"));
    assert!(version_info.dependencies.as_ref().unwrap().contains_key("lodash"));
    assert!(version_info.dev_dependencies.as_ref().unwrap().contains_key("jest"));
    assert!(version_info.engines.as_ref().unwrap().contains_key("node"));
    assert!(version_info.os.is_some());
    assert!(version_info.cpu.is_some());
    assert_eq!(version_info.keywords, Some(vec!["test".to_string(), "package".to_string()]));
    assert!(matches!(version_info.author, Some(AuthorInfo::String(ref a)) if a == "Test Author"));
    assert_eq!(version_info.license, Some("MIT".to_string()));
    assert!(version_info.repository.is_some());
    assert_eq!(version_info.homepage, Some("https://github.com/test/test-package#readme".to_string()));
    let dist = version_info.dist.unwrap();
    assert_eq!(dist.tarball, "https://registry.npmjs.org/test-package/-/test-package-1.0.0.tgz");
    assert_eq!(dist.shasum, Some("abc123".to_string()));
    assert_eq!(dist.integrity, Some("sha512-abc123".to_string()));
    assert_eq!(dist.file_count, Some(10));
    assert_eq!(dist.unpacked_size, Some(1024));
}

#[test]
fn npm_names_by_scope_and_package() {
    assert!(validate_npm_package_name("@scope/pkg").is_ok());
    assert!(validate_npm_package_name("pkg").is_ok());
    assert!(validate_npm_package_name("@scope").is_err());
    assert!(validate_npm_package_name("scope/pkg").is_err());
    assert!(validate_npm_package_name("@a/b/c").is_err());
    assert!(validate_npm_package_name("@scope/").is_err());
    assert!(validate_npm_package_name("@scope/.pkg").is_err());
    assert!(validate_npm_package_name("@scope/-pkg").is_err());
    assert!(validate_npm_package_name("pa@ckage").is_err());
}

use distribution::features::generate_maven_metadata::api::GenerateMavenMetadataApi;
use distribution::domain::{MavenCoordinates, MavenVersion};
use distribution::features::generate_maven_metadata::adapter::{
    render_version_lines, MockCursor, MongoMavenArtifactLister, RedisMavenMetadataCache, S3MavenMetadataGenerator,
};
use distribution::features::generate_maven_metadata::dto::{
    GenerateMavenMetadataRequest, GenerateMavenMetadataResponse, MavenMetadataDto,
    MavenMetadataDtoBuilder, MavenMetadataError, MavenMetadataSnapshotDto,
    MavenMetadataVersioningDto,
};
use distribution::features::generate_maven_metadata::ports::{
    MavenArtifactListerError, MavenMetadataCacheError, MavenMetadataGeneratorError,
};
use distribution::features::generate_maven_metadata::use_case::{
    GenerateMavenMetadataUseCase, MavenMetadataDtoBuilder as VersionsBuilder, MetadataAction,
};

fn metadata(versions: &[&str]) -> MavenMetadataDto {
    MavenMetadataDto {
        group_id: "com.example".to_string(),
        artifact_id: "test".to_string(),
        version: "1.0.0".to_string(),
        versioning: MavenMetadataVersioningDto {
            latest: "1.0.0".to_string(),
            release: "1.0.0".to_string(),
            versions: versions.iter().map(|v| v.to_string()).collect(),
            last_updated: "20240101120000".to_string(),
            snapshot: None,
        },
    }
}

fn request(force: bool) -> GenerateMavenMetadataRequest {
    GenerateMavenMetadataRequest {
        coordinates: MavenCoordinates::new("com.example", "test", "1.0.0").unwrap(),
        repository_id: "test-repo".to_string(),
        force_regenerate: force,
    }
}

#[test]
fn test_feature_exports() {
    let _request = GenerateMavenMetadataRequest {
        coordinates: MavenCoordinates::new("com.example", "test", "1.0.0").unwrap(),
        repository_id: "test-repo".to_string(),
        force_regenerate: false,
    };
    assert!(true);
}

#[test]
fn test_generate_maven_metadata_request_creation() {
    let coordinates = MavenCoordinates::new("com.example", "test-artifact", "1.0.0").unwrap();
    let request = GenerateMavenMetadataRequest {
        coordinates: coordinates.clone(),
        repository_id: "test-repo".to_string(),
        force_regenerate: false,
    };

    assert_eq!(request.coordinates.group_id(), "com.example");
    assert_eq!(request.coordinates.artifact_id(), "test-artifact");
    assert_eq!(request.coordinates.version(), &MavenVersion::new("1.0.0").unwrap());
    assert_eq!(request.repository_id, "test-repo");
    assert!(!request.force_regenerate);
}

#[test]
fn test_generate_maven_metadata_response_creation() {
    let metadata = MavenMetadataDto {
        group_id: "com.example".to_string(),
        artifact_id: "test-artifact".to_string(),
        version: "1.0.0".to_string(),
        versioning: MavenMetadataVersioningDto {
            latest: "1.0.0".to_string(),
            release: "1.0.0".to_string(),
            versions: vec!["1.0.0".to_string(), "1.1.0".to_string()],
            last_updated: "20240101120000".to_string(),
            snapshot: None,
        },
    };

    let response = GenerateMavenMetadataResponse {
        metadata,
        generated_at: "2024-01-01T12:00:00Z".to_string(),
        cache_hit: false,
    };

    assert_eq!(response.metadata.group_id, "com.example");
    assert_eq!(response.metadata.artifact_id, "test-artifact");
    assert_eq!(response.metadata.versioning.versions.len(), 2);
    assert!(!response.cache_hit);
}

#[test]
fn test_maven_metadata_dto_with_snapshot() {
    let snapshot = MavenMetadataSnapshotDto {
        timestamp: "20240101.120000".to_string(),
        build_number: 1,
    };

    let versioning = MavenMetadataVersioningDto {
        latest: "1.0.0-SNAPSHOT".to_string(),
        release: "".to_string(),
        versions: vec!["1.0.0-SNAPSHOT".to_string()],
        last_updated: "20240101120000".to_string(),
        snapshot: Some(snapshot),
    };

    let metadata = MavenMetadataDto {
        group_id: "com.example".to_string(),
        artifact_id: "test-artifact".to_string(),
        version: "1.0.0-SNAPSHOT".to_string(),
        versioning,
    };

    assert!(metadata.versioning.snapshot.is_some());
    let snapshot = metadata.versioning.snapshot.as_ref().unwrap();
    assert_eq!(snapshot.timestamp, "20240101.120000");
    assert_eq!(snapshot.build_number, 1);
}

#[test]
fn test_maven_coordinates_validation_in_request() {
    let valid_coords = MavenCoordinates::new("com.example", "valid-artifact", "1.0.0");
    assert!(valid_coords.is_ok());

    let invalid_coords = MavenCoordinates::new("", "artifact", "1.0.0");
    assert!(invalid_coords.is_err());
}

#[test]
fn test_repository_id_validation() {
    let coordinates = MavenCoordinates::new("com.example", "test", "1.0.0").unwrap();

    let request = GenerateMavenMetadataRequest {
        coordinates: coordinates.clone(),
        repository_id: "valid-repo".to_string(),
        force_regenerate: false,
    };
    assert_eq!(request.repository_id, "valid-repo");

    let request_empty = GenerateMavenMetadataRequest {
        coordinates: coordinates.clone(),
        repository_id: "".to_string(),
        force_regenerate: false,
    };
    assert!(request_empty.repository_id.is_empty());
}

#[test]
fn test_maven_metadata_dto_builder() {
    let metadata = MavenMetadataDtoBuilder::new("com.example".to_string(), "my-artifact".to_string())
        .versions(vec!["1.0.0".to_string(), "1.1.0".to_string(), "2.0.0-SNAPSHOT".to_string()])
        .build();

    assert_eq!(metadata.group_id, "com.example");
    assert_eq!(metadata.artifact_id, "my-artifact");
    assert_eq!(metadata.versioning.latest, "2.0.0-SNAPSHOT");
    assert_eq!(metadata.versioning.release, "1.1.0");
    assert_eq!(metadata.versioning.versions.len(), 3);
}

#[test]
fn test_error_to_http_status() {
    let error = MavenMetadataError::RepositoryNotFound { repository_id: "test-repo".to_string() };

    assert_eq!(error.to_http_status(), 404);
}

#[test]
fn test_error_to_error_response() {
    let error = MavenMetadataError::ArtifactNotFound { coordinates: "com.example:artifact:1.0.0".to_string() };

    let response = error.to_error_response(Some("req-123".to_string()));

    assert!(response.message.contains("com.example:artifact:1.0.0"));
    assert_eq!(response.request_id, Some("req-123".to_string()));
}

#[test]
fn builder_defaults_without_versions() {
    let m = MavenMetadataDtoBuilder::new("g".to_string(), "a".to_string()).build_at("20240101120000".to_string());
    assert_eq!(m.versioning.latest, "0.0.0");
    assert_eq!(m.versioning.release, "0.0.0");
    assert_eq!(m.version, "");
    assert_eq!(m.versioning.last_updated, "20240101120000");
    let snap = MavenMetadataDtoBuilder::new("g".to_string(), "a".to_string())
        .version("1.0-SNAPSHOT".to_string())
        .versions(vec!["1.0-SNAPSHOT".to_string()])
        .snapshot_info(MavenMetadataSnapshotDto { timestamp: "t".to_string(), build_number: 3 })
        .build_at("x".to_string());
    assert_eq!(snap.version, "1.0-SNAPSHOT");
    assert_eq!(snap.versioning.release, "1.0-SNAPSHOT");
    assert_eq!(snap.versioning.snapshot.unwrap().build_number, 3);
}

#[test]
fn versions_builder_uses_empty_latest() {
    let m = VersionsBuilder::new("g".to_string(), "a".to_string()).build_at("now".to_string());
    assert_eq!(m.versioning.latest, "");
    assert_eq!(m.versioning.release, "");
    let m = VersionsBuilder::new("g".to_string(), "a".to_string())
        .versions(vec!["1.0".to_string(), "2.0-SNAPSHOT".to_string()])
        .build();
    assert_eq!(m.versioning.latest, "2.0-SNAPSHOT");
    assert_eq!(m.versioning.release, "1.0");
}

#[test]
fn error_statuses_and_messages() {
    let e = MavenMetadataError::StorageError { message: "down".to_string() };
    assert_eq!(e.to_http_status(), 503);
    assert_eq!(e.message(), "Storage error: down");
    assert_eq!(MavenMetadataError::InvalidCoordinates { coordinates: "x".to_string() }.to_http_status(), 400);
    assert_eq!(MavenMetadataError::PermissionDenied { message: "x".to_string() }.to_http_status(), 403);
    let from: MavenMetadataError = MavenMetadataCacheError::SerializationError { message: "s".to_string() }.into();
    assert!(matches!(from, MavenMetadataError::InternalError { .. }));
}

#[test]
fn forced_regeneration_skips_cache() {
    let use_case = GenerateMavenMetadataUseCase::new();
    assert!(matches!(use_case.start(&request(true)), MetadataAction::ListVersions));
    assert!(matches!(use_case.start(&request(false)), MetadataAction::LookUpCache));
}

#[test]
fn cache_lookup_outcomes() {
    let use_case = GenerateMavenMetadataUseCase::new();
    match use_case.on_cache_lookup(Ok(Some(metadata(&["1.0.0"]))), "g".to_string()) {
        MetadataAction::Finish(Ok(r)) => {
            assert!(r.cache_hit);
            assert_eq!(r.metadata.group_id, "com.example");
        }
        _ => panic!("expected a cache hit"),
    }
    assert!(matches!(use_case.on_cache_lookup(Ok(None), "g".to_string()), MetadataAction::ListVersions));
    let failing = Err(MavenMetadataCacheError::CacheError { message: "down".to_string() });
    assert!(matches!(use_case.on_cache_lookup(failing, "g".to_string()), MetadataAction::ListVersions));
}

#[test]
fn empty_version_list_is_artifact_not_found() {
    let use_case = GenerateMavenMetadataUseCase::new();
    match use_case.on_versions_listed(&request(false), Ok(vec![])) {
        MetadataAction::Finish(Err(MavenMetadataError::ArtifactNotFound { coordinates })) => {
            assert_eq!(coordinates, "com.example:test:1.0.0")
        }
        _ => panic!("expected ArtifactNotFound"),
    }
    let versions = vec![MavenVersion::new("1.0.0").unwrap()];
    assert!(matches!(use_case.on_versions_listed(&request(false), Ok(versions)), MetadataAction::Generate));
    let failing = Err(MavenArtifactListerError::NetworkError { message: "n".to_string() });
    assert!(matches!(
        use_case.on_versions_listed(&request(false), failing),
        MetadataAction::Finish(Err(MavenMetadataError::NetworkError { .. }))
    ));
}

#[test]
fn generation_and_storing() {
    let use_case = GenerateMavenMetadataUseCase::new();
    let failing = Err(MavenMetadataGeneratorError::XmlGenerationError { message: "x".to_string() });
    assert!(matches!(
        use_case.on_generated(failing),
        MetadataAction::Finish(Err(MavenMetadataError::XmlGenerationError { .. }))
    ));
    let m = match use_case.on_generated(Ok(metadata(&["1.0.0"]))) {
        MetadataAction::Store(m) => m,
        _ => panic!("expected Store"),
    };
    let failing_store = Err(MavenMetadataCacheError::CacheError { message: "down".to_string() });
    let r = use_case.on_stored(m, failing_store, "2024-01-01T00:00:00Z".to_string());
    assert!(!r.cache_hit);
    assert_eq!(r.generated_at, "2024-01-01T00:00:00Z");
    assert!(use_case.on_invalidated(Ok(())).is_ok());
    assert!(matches!(
        use_case.on_invalidated(Err(MavenMetadataCacheError::CacheError { message: "c".to_string() })),
        Err(MavenMetadataError::CacheError { .. })
    ));
    assert_eq!(use_case.on_xml_generated(Ok("<x/>".to_string())).unwrap(), "<x/>");
}

#[test]
fn metadata_xml_document() {
    let generator = S3MavenMetadataGenerator::new("bucket".to_string());
    let m = MavenMetadataDto {
        group_id: "com.example".to_string(),
        artifact_id: "app".to_string(),
        version: "".to_string(),
        versioning: MavenMetadataVersioningDto {
            latest: "1.1".to_string(),
            release: "1.1".to_string(),
            versions: vec!["1.0".to_string(), "1.1".to_string()],
            last_updated: "20240101120000".to_string(),
            snapshot: None,
        },
    };
    let xml = generator.generate_metadata_xml(&m).unwrap();
    let expected = "<?xml version=\"1.0\" encoding=\"UTF-8\"?>\n<metadata>\n  <groupId>com.example</groupId>\n  <artifactId>app</artifactId>\n  <versioning>\n    <latest>1.1</latest>\n    <release>1.1</release>\n    <versions>\n      <version>1.0</version>\n      <version>1.1</version>\n    </versions>\n    <lastUpdated>20240101120000</lastUpdated>\n  </versioning>\n</metadata>";
    assert_eq!(xml, expected);
    assert_eq!(render_version_lines(&vec![]), "");
}

#[test]
fn metadata_cache_keys() {
    let cache = RedisMavenMetadataCache::new(60);
    assert_eq!(cache.ttl_seconds, 60);
    let c = MavenCoordinates::new("com.example", "app", "1.0").unwrap();
    assert_eq!(RedisMavenMetadataCache::cache_key(&c, "central"), "maven:metadata:central:com.example:app");
    assert_eq!(RedisMavenMetadataCache::repository_pattern("central"), "maven:metadata:central:*");
}

#[test]
fn cursor_hands_out_items_once() {
    let mut cursor = MockCursor::new(vec![1u32, 2u32]);
    assert_eq!(cursor.next(), Some(Ok(1)));
    assert_eq!(cursor.next(), Some(Ok(2)));
    assert_eq!(cursor.next(), None);
    assert_eq!(cursor.next(), None);
}

#[test]
fn coordinates_paths_and_text() {
    let c = MavenCoordinates::new("com.example", "my-app", "1.0.0").unwrap();
    assert_eq!(c.to_path(), "com/example/my-app/1.0.0/my-app-1.0.0.jar");
    assert_eq!(c.to_string(), "com.example:my-app:1.0.0");
    assert!(c.is_release());
    let s = MavenCoordinates::new("g", "a", "1.0-SNAPSHOT").unwrap();
    assert!(s.is_snapshot());
    assert!(MavenCoordinates::new("g", "a", "1.0 beta").is_err());
}

#[test]
fn metadata_api_requests_and_answers() {
    let api = GenerateMavenMetadataApi::new(GenerateMavenMetadataUseCase::new());
    let request = api.request_for("central".to_string(), "com.example", "app", false).unwrap();
    assert_eq!(request.coordinates.version().as_str(), "1.0.0");
    match api.request_for("central".to_string(), "com example", "app", false) {
        Err(MavenMetadataError::InvalidCoordinates { coordinates }) => assert_eq!(coordinates, "com example:app"),
        _ => panic!("expected InvalidCoordinates"),
    }
    let e = MavenMetadataError::ArtifactNotFound { coordinates: "g:a".to_string() };
    let a = GenerateMavenMetadataApi::generation_error_answer(&e);
    assert_eq!((a.status, a.error.as_str(), a.message.as_str()), (404, "Artifact not found", "Artifact not found: g:a"));
    let a = GenerateMavenMetadataApi::invalidation_error_answer(&e);
    assert_eq!((a.status, a.error.as_str()), (500, "Internal server error"));
    let c = MavenMetadataError::CacheError { message: "x".to_string() };
    let a = GenerateMavenMetadataApi::repository_invalidation_error_answer(&c);
    assert_eq!((a.status, a.error.as_str()), (500, "Cache error"));
}

#[test]
fn metadata_cache_answers() {
    let cache = RedisMavenMetadataCache::new(60);
    assert!(matches!(cache.on_read(Ok(None)), Ok(None)));
    assert!(matches!(cache.on_read(Ok(Some(Err("bad json".to_string())))), Ok(None)));
    assert!(matches!(cache.on_read(Ok(Some(Ok(metadata(&["1.0"]))))), Ok(Some(_))));
    match cache.on_read(Err("timeout".to_string())) {
        Err(MavenMetadataCacheError::CacheError { message }) => assert_eq!(message, "Redis error: timeout"),
        _ => panic!("expected CacheError"),
    }
    match cache.on_write(Err("cycle".to_string()), Ok(())) {
        Err(MavenMetadataCacheError::CacheError { message }) => assert_eq!(message, "Serialization error: cycle"),
        _ => panic!("expected CacheError"),
    }
    match cache.on_write(Ok(()), Err("full".to_string())) {
        Err(MavenMetadataCacheError::CacheError { message }) => assert_eq!(message, "Redis error: full"),
        _ => panic!("expected CacheError"),
    }
    assert!(cache.on_write(Ok(()), Ok(())).is_ok());
    assert!(cache.on_delete(Ok(())).is_ok());
    assert!(cache.keys_to_delete(vec![]).is_none());
    assert_eq!(cache.keys_to_delete(vec!["k".to_string()]), Some(vec!["k".to_string()]));
}

#[test]
fn lister_keeps_valid_versions() {
    let lister = MongoMavenArtifactLister::new("db".to_string());
    let c = MavenCoordinates::new("com.example", "app", "1.0").unwrap();
    let docs = vec![
        Ok("1.0".to_string()),
        Err("corrupt".to_string()),
        Ok("not a version".to_string()),
        Ok("1.1-SNAPSHOT".to_string()),
    ];
    let versions = lister.versions_from_documents(&c, "central", docs).unwrap();
    let texts: Vec<&str> = versions.iter().map(|v| v.as_str()).collect();
    assert_eq!(texts, vec!["1.0", "1.1-SNAPSHOT"]);
    match lister.versions_from_documents(&c, "central", vec![Err("x".to_string())]) {
        Err(MavenArtifactListerError::ArtifactNotFound { coordinates, repository_id }) => {
            assert_eq!(coordinates, "com.example:app");
            assert_eq!(repository_id, "central");
        }
        _ => panic!("expected ArtifactNotFound"),
    }
    match lister.query_error("down") {
        MavenArtifactListerError::DatabaseError { message } => assert_eq!(message, "Failed to query artifacts: down"),
        _ => panic!("expected DatabaseError"),
    }
    let e: MavenMetadataError = MavenArtifactListerError::DatabaseError { message: "m".to_string() }.into();
    assert!(matches!(e, MavenMetadataError::StorageError { .. }));
}

fn versions_of(texts: &[&str]) -> Vec<MavenVersion> {
    texts.iter().map(|t| MavenVersion::new(t).unwrap()).collect()
}

#[test]
fn generated_metadata_names_latest_and_release() {
    let generator = S3MavenMetadataGenerator::new("bucket".to_string());
    let c = MavenCoordinates::new("com.example", "lib", "1.0.0").unwrap();
    let m = generator
        .generate_metadata_at(&c, versions_of(&["1.0.0", "1.2.0-SNAPSHOT", "1.1.0", "0.9.0"]), "20240101000000".to_string())
        .unwrap();
    assert_eq!(m.group_id, "com.example");
    assert_eq!(m.artifact_id, "lib");
    assert_eq!(m.version, "");
    assert_eq!(m.versioning.versions, vec!["1.0.0", "1.2.0-SNAPSHOT", "1.1.0", "0.9.0"]);
    assert_eq!(m.versioning.latest, "1.2.0-SNAPSHOT");
    assert_eq!(m.versioning.release, "1.1.0");
    assert!(m.versioning.snapshot.is_none());
    assert_eq!(m.versioning.last_updated, "20240101000000");
}

#[test]
fn generated_metadata_orders_versions_as_text() {
    let generator = S3MavenMetadataGenerator::new("bucket".to_string());
    let c = MavenCoordinates::new("com.example", "lib", "1.0.0").unwrap();
    let m = generator.generate_metadata_at(&c, versions_of(&["1.10.0", "1.9.0", "1.9"]), "t".to_string()).unwrap();
    assert_eq!(m.versioning.latest, "1.9.0");
    assert_eq!(m.versioning.release, "1.9.0");
    let only_snapshots = generator
        .generate_metadata_at(&c, versions_of(&["2.0-SNAPSHOT", "1.0-SNAPSHOT"]), "t".to_string())
        .unwrap();
    assert_eq!(only_snapshots.versioning.latest, "2.0-SNAPSHOT");
    assert_eq!(only_snapshots.versioning.release, "2.0-SNAPSHOT");
    let stamped = generator.generate_metadata(&c, versions_of(&["1.0.0"])).unwrap();
    assert_eq!(stamped.versioning.latest, "1.0.0");
    assert_eq!(stamped.versioning.last_updated.len(), 14);
}

#[test]
fn generated_metadata_needs_a_version() {
    let generator = S3MavenMetadataGenerator::new("bucket".to_string());
    let c = MavenCoordinates::new("com.example", "lib", "1.0.0").unwrap();
    match generator.generate_metadata_at(&c, vec![], "t".to_string()) {
        Err(MavenMetadataGeneratorError::NoVersionsAvailable { coordinates }) => {
            assert_eq!(coordinates, "com.example:lib:1.0.0")
        },
        other => panic!("expected NoVersionsAvailable, got {:?}", other),
    }
    let e: MavenMetadataError = MavenMetadataGeneratorError::NoVersionsAvailable { coordinates: "g:a:v".to_string() }.into();
    assert!(matches!(e, MavenMetadataError::ArtifactNotFound { ref coordinates } if coordinates == "g:a:v"));
}

#[test]
fn cache_keys_fall_under_the_repository_pattern() {
    let c = MavenCoordinates::new("com.example", "lib", "1.0.0").unwrap();
    let key = RedisMavenMetadataCache::cache_key(&c, "central");
    let pattern = RedisMavenMetadataCache::repository_pattern("central");
    assert!(pattern.ends_with('*'));
    assert!(key.starts_with(&pattern[..pattern.len() - 1]));
    assert!(!RedisMavenMetadataCache::cache_key(&c, "other").starts_with(&pattern[..pattern.len() - 1]));
}

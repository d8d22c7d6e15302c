use distribution::features::generate_docker_manifest::api::GenerateDockerManifestApi;
use distribution::features::generate_docker_manifest::adapter::{
    RedisDockerManifestCache, S3DockerLayerLister, S3DockerManifestGenerator, StoredObject,
};
use distribution::features::generate_docker_manifest::dto::{
    validate_docker_media_type, validate_docker_repository_name, validate_docker_tag, Config,
    DockerManifestDto, DockerManifestV2_2, GenerateDockerManifestCommand,
    GenerateDockerManifestError as DtoError, GenerateDockerManifestRequest,
    GenerateDockerManifestResponse, Layer,
};
use distribution::features::generate_docker_manifest::ports::{
    CachedDockerManifest, DockerCacheError, DockerConfigInfo, DockerConfigRetrievalError,
    DockerLayerInfo, DockerLayerListingError, DockerManifestGenerationError,
};
use distribution::features::generate_docker_manifest::use_case::{
    GenerateDockerManifestError, GenerateDockerManifestUseCase, ManifestAction,
};

fn sample_manifest() -> DockerManifestDto {
    DockerManifestDto::V2_2(DockerManifestV2_2 {
        schema_version: 2,
        media_type: "application/vnd.docker.distribution.manifest.v2+json".to_string(),
        layers: vec![],
        config: Config {
            media_type: "application/json".to_string(),
            size: 100,
            digest: "sha256:config".to_string(),
        },
    })
}

fn command(repository_name: &str, tag: &str, media_type: Option<&str>, force: bool) -> GenerateDockerManifestCommand {
    GenerateDockerManifestCommand {
        repository_name: repository_name.to_string(),
        tag: tag.to_string(),
        repository_id: "test-repo".to_string(),
        media_type: media_type.map(|m| m.to_string()),
        force_regenerate: force,
    }
}

#[test]
fn test_validate_docker_repository_name_valid() {
    assert!(validate_docker_repository_name("nginx").is_ok());
    assert!(validate_docker_repository_name("library/nginx").is_ok());
    assert!(validate_docker_repository_name("myorg/myapp").is_ok());
    assert!(validate_docker_repository_name("registry.example.com/myorg/myapp").is_ok());
    assert!(validate_docker_repository_name("my-app").is_ok());
    assert!(validate_docker_repository_name("my_app").is_ok());
    assert!(validate_docker_repository_name("my.app").is_ok());
}

#[test]
fn test_validate_docker_repository_name_invalid() {
    assert!(validate_docker_repository_name("").is_err());
    assert!(validate_docker_repository_name("-invalid").is_err());
    assert!(validate_docker_repository_name("invalid-").is_err());
    assert!(validate_docker_repository_name(".invalid").is_err());
    assert!(validate_docker_repository_name("invalid.").is_err());
    assert!(validate_docker_repository_name("a").is_err());
    assert!(validate_docker_repository_name("a/b").is_err());
    assert!(validate_docker_repository_name("my//repo").is_err());
    assert!(validate_docker_repository_name("my/repo/").is_err());
    assert!(validate_docker_repository_name(&"a".repeat(256)).is_err());
}

#[test]
fn test_validate_docker_tag_valid() {
    assert!(validate_docker_tag("latest").is_ok());
    assert!(validate_docker_tag("stable").is_ok());
    assert!(validate_docker_tag("1.0.0").is_ok());
    assert!(validate_docker_tag("v1.2.3").is_ok());
    assert!(validate_docker_tag("1.0.0-beta.1").is_ok());
    assert!(validate_docker_tag("my-tag").is_ok());
    assert!(validate_docker_tag("my_tag").is_ok());
    assert!(validate_docker_tag("my.tag").is_ok());
}

#[test]
fn test_validate_docker_tag_invalid() {
    assert!(validate_docker_tag("").is_err());
    assert!(validate_docker_tag("invalid tag").is_err());
    assert!(validate_docker_tag("invalid@tag").is_err());
    assert!(validate_docker_tag("invalid/tag").is_err());
    assert!(validate_docker_tag(&"a".repeat(129)).is_err());
}

#[test]
fn test_docker_manifest_dto_creation() {
    let manifest = DockerManifestDto::V2_2(DockerManifestV2_2 {
        schema_version: 2,
        media_type: "application/vnd.docker.distribution.manifest.v2+json".to_string(),
        layers: vec![Layer {
            media_type: "application/vnd.docker.image.rootfs.diff.tar.gzip".to_string(),
            size: 1234567,
            digest: "sha256:abc123def456".to_string(),
            urls: None,
        }],
        config: Config {
            media_type: "application/vnd.docker.container.image.v1+json".to_string(),
            size: 2345678,
            digest: "sha256:def456ghi789".to_string(),
        },
    });

    match manifest {
        DockerManifestDto::V2_2(ref v2_2) => {
            assert_eq!(v2_2.schema_version, 2);
            assert_eq!(v2_2.layers.len(), 1);
            assert_eq!(v2_2.layers[0].size, 1234567);
        }
        _ => panic!("Expected V2_2 manifest"),
    }
}

#[test]
fn test_generate_docker_manifest_request_creation() {
    let request = GenerateDockerManifestRequest {
        repository_name: "library/nginx".to_string(),
        tag: "latest".to_string(),
        repository_id: "docker-hub".to_string(),
        media_type: Some("application/vnd.docker.distribution.manifest.v2+json".to_string()),
        force_regenerate: false,
    };

    assert_eq!(request.repository_name, "library/nginx");
    assert_eq!(request.tag, "latest");
    assert_eq!(request.repository_id, "docker-hub");
    assert!(request.media_type.is_some());
    assert!(!request.force_regenerate);
}

#[test]
fn test_generate_docker_manifest_response_creation() {
    let manifest = DockerManifestDto::V2_2(DockerManifestV2_2 {
        schema_version: 2,
        media_type: "application/vnd.docker.distribution.manifest.v2+json".to_string(),
        layers: vec![],
        config: Config {
            media_type: "application/vnd.docker.container.image.v1+json".to_string(),
            size: 1000,
            digest: "sha256:config123".to_string(),
        },
    });

    let response = GenerateDockerManifestResponse {
        manifest: manifest.clone(),
        digest: "sha256:manifest123".to_string(),
        generated_at: "2024-01-01T12:00:00Z".to_string(),
        cache_hit: false,
        media_type: "application/vnd.docker.distribution.manifest.v2+json".to_string(),
    };

    assert_eq!(response.digest, "sha256:manifest123");
    assert!(!response.cache_hit);
    assert_eq!(response.media_type, "application/vnd.docker.distribution.manifest.v2+json");
}

#[test]
fn media_type_validation_accepts_only_manifest_types() {
    assert!(validate_docker_media_type("application/vnd.oci.image.index.v1+json").is_ok());
    match validate_docker_media_type("text/plain") {
        Err(DtoError::UnsupportedMediaType { media_type }) => assert_eq!(media_type, "text/plain"),
        _ => panic!("expected UnsupportedMediaType"),
    }
    match validate_docker_repository_name("-x") {
        Err(DtoError::InvalidRepositoryName { name }) => assert_eq!(name, "-x"),
        _ => panic!("expected InvalidRepositoryName"),
    }
    match validate_docker_tag("") {
        Err(DtoError::InvalidTag { tag }) => assert_eq!(tag, ""),
        _ => panic!("expected InvalidTag"),
    }
}

#[test]
fn validate_command_accepts_a_valid_command() {
    let use_case = GenerateDockerManifestUseCase::new();
    assert!(use_case.validate_command(&command("test/repo", "latest", None, false)).is_ok());
}

#[test]
fn validate_command_names_the_first_problem() {
    let use_case = GenerateDockerManifestUseCase::new();
    let cases = [
        (command("", "latest", None, false), "repository_name", "Repository name cannot be empty"),
        (command("test/repo", "", None, false), "tag", "Tag cannot be empty"),
        (command("-invalid", "latest", None, false), "repository_name", "Invalid Docker repository name format"),
        (command("test/repo", "-invalid", None, false), "tag", "Invalid Docker tag format"),
    ];
    for (c, f, m) in cases.iter() {
        match use_case.validate_command(c) {
            Err(GenerateDockerManifestError::ValidationError { field, reason }) => {
                assert_eq!(field, *f);
                assert_eq!(reason, *m);
            }
            _ => panic!("expected a validation error"),
        }
    }
    let mut no_id = command("test/repo", "latest", None, false);
    no_id.repository_id = String::new();
    match use_case.validate_command(&no_id) {
        Err(GenerateDockerManifestError::ValidationError { field, reason }) => {
            assert_eq!(field, "repository_id");
            assert_eq!(reason, "Repository ID cannot be empty");
        }
        _ => panic!("expected a validation error"),
    }
}

#[test]
fn determine_media_type_defaults_to_v2_2() {
    let use_case = GenerateDockerManifestUseCase::new();
    let with = command("test/repo", "latest", Some("application/vnd.docker.distribution.manifest.list.v2+json"), false);
    assert_eq!(use_case.determine_media_type(&with), "application/vnd.docker.distribution.manifest.list.v2+json");
    let without = command("test/repo", "latest", None, false);
    assert_eq!(use_case.determine_media_type(&without), "application/vnd.docker.distribution.manifest.v2+json");
}

#[test]
fn repository_name_rules_of_the_use_case() {
    let use_case = GenerateDockerManifestUseCase::new();
    for ok in ["test", "test/repo", "test-repo", "test_repo", "test.repo"] {
        assert!(use_case.is_valid_docker_repository_name(ok), "{}", ok);
    }
    for bad in ["", "t", "-test", "test-", ".test", "test.", "test/repo/invalid"] {
        assert!(!use_case.is_valid_docker_repository_name(bad), "{}", bad);
    }
}

#[test]
fn tag_rules_of_the_use_case() {
    let use_case = GenerateDockerManifestUseCase::new();
    for ok in ["latest", "v1.0.0", "test-tag", "test_tag", "test.tag"] {
        assert!(use_case.is_valid_docker_tag(ok), "{}", ok);
    }
    let long = "a".repeat(129);
    for bad in ["", long.as_str(), ".test", "-test", "test/tag"] {
        assert!(!use_case.is_valid_docker_tag(bad), "{}", bad);
    }
    assert!(use_case.is_valid_docker_tag(&"a".repeat(128)));
}

#[test]
fn manifest_digest_is_sha256_hex() {
    let use_case = GenerateDockerManifestUseCase::new();
    let digest = use_case.calculate_manifest_digest(b"");
    assert_eq!(digest, "sha256:e3b0c44298fc1c149afbf4c8996fb92427ae41e4649b934ca495991b7852b855");
    let digest = use_case.calculate_manifest_digest(b"abc");
    assert_eq!(digest, "sha256:ba7816bf8f01cfea414140de5dae2223b00361a396177a9cb410ff61f20015ad");
    assert!(digest.starts_with("sha256:"));
    assert_eq!(digest.len(), 71);
}

#[test]
fn start_refuses_invalid_and_skips_cache_when_forced() {
    let use_case = GenerateDockerManifestUseCase::new();
    assert!(matches!(use_case.start(&command("test/repo", "latest", None, false)), ManifestAction::LookUpCache));
    assert!(matches!(use_case.start(&command("test/repo", "latest", None, true)), ManifestAction::ListLayers));
    assert!(matches!(
        use_case.start(&command("", "latest", None, true)),
        ManifestAction::Finish(Err(GenerateDockerManifestError::ValidationError { .. }))
    ));
}

#[test]
fn cache_lookup_hit_miss_and_failure() {
    let use_case = GenerateDockerManifestUseCase::new();
    let cached = CachedDockerManifest {
        manifest: sample_manifest(),
        digest: "sha256:manifest123".to_string(),
        generated_at: "2024-01-01T12:00:00Z".to_string(),
        media_type: "application/vnd.docker.distribution.manifest.v2+json".to_string(),
    };
    match use_case.on_cache_lookup(Ok(Some(cached))) {
        ManifestAction::Finish(Ok(r)) => {
            assert!(r.cache_hit);
            assert_eq!(r.digest, "sha256:manifest123");
            assert_eq!(r.generated_at, "2024-01-01T12:00:00Z");
        }
        _ => panic!("expected a cache hit"),
    }
    assert!(matches!(use_case.on_cache_lookup(Ok(None)), ManifestAction::ListLayers));
    assert!(matches!(use_case.on_cache_lookup(Err(DockerCacheError::CacheUnavailable)), ManifestAction::ListLayers));
}

#[test]
fn port_errors_become_use_case_errors() {
    let use_case = GenerateDockerManifestUseCase::new();
    match use_case.on_layers_listed(Err(DockerLayerListingError::NoLayersFound {
        repository: "r".to_string(),
        tag: "t".to_string(),
    })) {
        ManifestAction::Finish(Err(GenerateDockerManifestError::NoLayersFound { repository, tag })) => {
            assert_eq!(repository, "r");
            assert_eq!(tag, "t");
        }
        _ => panic!("expected NoLayersFound"),
    }
    match use_case.on_config(vec![], Err(DockerConfigRetrievalError::Internal("boom".to_string()))) {
        ManifestAction::Finish(Err(GenerateDockerManifestError::InternalError(m))) => assert_eq!(m, "boom"),
        _ => panic!("expected InternalError"),
    }
    match use_case.on_generated(Err(DockerManifestGenerationError::UnsupportedVersion { version: "3".to_string() })) {
        ManifestAction::Finish(Err(GenerateDockerManifestError::UnsupportedManifestVersion { version })) => {
            assert_eq!(version, "3")
        }
        _ => panic!("expected UnsupportedManifestVersion"),
    }
    match use_case.on_serialized(sample_manifest(), Err("bad".to_string())) {
        ManifestAction::Finish(Err(GenerateDockerManifestError::SerializationError { reason })) => {
            assert_eq!(reason, "Failed to serialize manifest: bad")
        }
        _ => panic!("expected SerializationError"),
    }
}

#[test]
fn generation_flow_stores_digest_and_answers() {
    let use_case = GenerateDockerManifestUseCase::new();
    let layers = vec![DockerLayerInfo {
        digest: "sha256:layer1".to_string(),
        size: 1000,
        media_type: "application/vnd.docker.image.rootfs.diff.tar.gzip".to_string(),
        urls: None,
    }];
    let config = DockerConfigInfo {
        digest: "sha256:config1".to_string(),
        size: 500,
        media_type: "application/vnd.docker.container.image.v1+json".to_string(),
        content: b"{}".to_vec(),
    };
    let layers = match use_case.on_layers_listed(Ok(layers)) {
        ManifestAction::GetConfig(l) => l,
        _ => panic!("expected GetConfig"),
    };
    let (layers, config) = match use_case.on_config(layers, Ok(config)) {
        ManifestAction::Generate(l, c) => (l, c),
        _ => panic!("expected Generate"),
    };
    let generator = S3DockerManifestGenerator::new("bucket".to_string());
    let manifest = generator.generate_v2_2_manifest(layers, config);
    let manifest = match use_case.on_generated(Ok(manifest)) {
        ManifestAction::Serialize(m) => m,
        _ => panic!("expected Serialize"),
    };
    let (manifest, digest) = match use_case.on_serialized(manifest, Ok(b"abc".to_vec())) {
        ManifestAction::Store(m, d) => (m, d),
        _ => panic!("expected Store"),
    };
    assert_eq!(digest, "sha256:ba7816bf8f01cfea414140de5dae2223b00361a396177a9cb410ff61f20015ad");
    let c = command("test/repo", "latest", None, false);
    let stored_ok = use_case.on_stored(&c, manifest.clone(), digest.clone(), Ok(()), "t".to_string());
    let stored_err = use_case.on_stored(&c, manifest, digest, Err(DockerCacheError::CacheUnavailable), "t".to_string());
    for r in [stored_ok, stored_err] {
        assert!(!r.cache_hit);
        assert_eq!(r.media_type, "application/vnd.docker.distribution.manifest.v2+json");
        assert_eq!(r.digest.len(), 71);
    }
}

#[test]
fn v2_2_manifest_keeps_layers_and_config() {
    let generator = S3DockerManifestGenerator::new("bucket".to_string());
    let layers = vec![
        DockerLayerInfo { digest: "sha256:a".to_string(), size: 1, media_type: "m1".to_string(), urls: None },
        DockerLayerInfo { digest: "sha256:b".to_string(), size: 2, media_type: "m2".to_string(), urls: None },
    ];
    let config = DockerConfigInfo { digest: "sha256:c".to_string(), size: 3, media_type: "mc".to_string(), content: vec![] };
    match generator.generate_v2_2_manifest(layers, config) {
        DockerManifestDto::V2_2(m) => {
            assert_eq!(m.schema_version, 2);
            assert_eq!(m.media_type, "application/vnd.docker.distribution.manifest.v2+json");
            assert_eq!(m.layers.len(), 2);
            assert_eq!(m.layers[1].digest, "sha256:b");
            assert_eq!(m.layers[1].size, 2);
            assert_eq!(m.config.digest, "sha256:c");
        }
        _ => panic!("expected V2_2"),
    }
}

#[test]
fn layer_lister_reads_keys() {
    let lister = S3DockerLayerLister::new("bucket".to_string());
    assert_eq!(S3DockerLayerLister::layers_prefix("lib/nginx", "latest"), "docker/lib/nginx/latest/layers/");
    assert_eq!(S3DockerLayerLister::config_key("lib/nginx", "latest"), "docker/lib/nginx/latest/config.json");
    assert_eq!(
        lister.extract_digest_from_key("docker/r/t/layers/sha256:abc.tar.gz"),
        "sha256:abc.tar.gz"
    );
    let hashed = lister.extract_digest_from_key("docker/r/t/layers/layer1.tar");
    assert!(hashed.starts_with("sha256:"));
    assert_eq!(hashed.len(), 71);
    assert_eq!(lister.determine_layer_media_type("a.tar.gz"), "application/vnd.docker.image.rootfs.diff.tar.gzip");
    assert_eq!(lister.determine_layer_media_type("a.tar"), "application/vnd.docker.image.rootfs.diff.tar");
    assert_eq!(lister.determine_layer_media_type("a.zip"), "application/vnd.docker.image.rootfs.diff.tar.gzip");
    assert_eq!(
        lister.calculate_config_digest(b""),
        "sha256:e3b0c44298fc1c149afbf4c8996fb92427ae41e4649b934ca495991b7852b855"
    );
}

#[test]
fn layer_lister_keeps_archives_in_order() {
    let lister = S3DockerLayerLister::new("bucket".to_string());
    let objects = vec![
        StoredObject { key: "docker/r/t/layers/sha256:one.tar.gz".to_string(), size: 10 },
        StoredObject { key: "docker/r/t/layers/readme.txt".to_string(), size: 5 },
        StoredObject { key: "docker/r/t/layers/sha256:two.tar".to_string(), size: 20 },
    ];
    let layers = lister.layers_from_objects("r", "t", &objects).unwrap();
    assert_eq!(layers.len(), 2);
    assert_eq!(layers[0].digest, "sha256:one.tar.gz");
    assert_eq!(layers[0].size, 10);
    assert_eq!(layers[1].media_type, "application/vnd.docker.image.rootfs.diff.tar");
    let none = vec![StoredObject { key: "x.txt".to_string(), size: 1 }];
    match lister.layers_from_objects("r", "t", &none) {
        Err(DockerLayerListingError::NoLayersFound { repository, tag }) => {
            assert_eq!(repository, "r");
            assert_eq!(tag, "t");
        }
        _ => panic!("expected NoLayersFound"),
    }
}

#[test]
fn config_from_data_describes_content() {
    let lister = S3DockerLayerLister::new("bucket".to_string());
    let config = lister.config_from_data(b"abc".to_vec());
    assert_eq!(config.size, 3);
    assert_eq!(config.digest, "sha256:ba7816bf8f01cfea414140de5dae2223b00361a396177a9cb410ff61f20015ad");
    assert_eq!(config.media_type, "application/vnd.docker.container.image.v1+json");
}

#[test]
fn manifest_cache_key() {
    let cache = RedisDockerManifestCache::new(3600);
    assert_eq!(cache.ttl_seconds, 3600);
    assert_eq!(
        cache.generate_cache_key("lib/nginx", "latest", "application/json"),
        "docker:manifest:lib/nginx:latest:application/json"
    );
}

#[test]
fn manifest_error_messages_and_api() {
    let e = DtoError::ManifestNotFound { repository: "r".to_string(), tag: "t".to_string() };
    assert_eq!(e.message(), "Manifest not found: r:t");
    assert_eq!(DtoError::InvalidTag { tag: "x".to_string() }.message(), "Invalid tag: x");
    let api = GenerateDockerManifestApi::new(GenerateDockerManifestUseCase::new());
    let request = GenerateDockerManifestRequest {
        repository_name: "library/nginx".to_string(),
        tag: "latest".to_string(),
        repository_id: "docker-hub".to_string(),
        media_type: None,
        force_regenerate: true,
    };
    let command = GenerateDockerManifestApi::command_for(request);
    assert_eq!(command.repository_name, "library/nginx");
    assert!(command.force_regenerate);
    assert!(matches!(api.use_case.start(&command), ManifestAction::ListLayers));
}

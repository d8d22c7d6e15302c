use distribution::domain::MavenCoordinates;
use distribution::features::handle_docker_request::adapter::{
    ObjectHead, S3DockerBlobReader, S3DockerBlobWriter, S3DockerManifestReader,
};
use distribution::features::handle_docker_request::ports::DockerBlobReaderError;
use distribution::features::handle_docker_request::dto::{
    validate_docker_digest, validate_docker_repository_name, validate_docker_tag, CompleteBlobUploadRequest,
    DockerApiError, DockerDescriptor, DockerManifest, DockerManifestMediaType, DockerManifestV2,
    DockerUploadSession, GetManifestRequest, PutBlobRequest, StartBlobUploadRequest,
};
use distribution::features::handle_docker_request::ports::{
    DockerBlobWriterError, DockerManifestReaderError, DockerPermissionError,
};
use distribution::features::handle_docker_request::use_case::{
    HandleDockerCompleteBlobUploadUseCase, HandleDockerGetManifestUseCase, HandleDockerPutBlobUseCase,
    HandleDockerStartBlobUploadUseCase, MAX_BLOB_SIZE,
};
use distribution::features::handle_maven_request::dto::{
    MavenGetArtifactRequest, MavenHeadArtifactRequest, MavenPutArtifactRequest, MavenPutArtifactResponse,
};
use distribution::features::handle_maven_request::ports::{ArtifactMetadata, MavenReadError, RepositoryInfo};
use distribution::features::handle_maven_request::use_case::{
    HandleMavenGetArtifactUseCase, HandleMavenHeadArtifactUseCase, HandleMavenPutArtifactUseCase, MavenGetError,
    MavenPutError,
};

const DIGEST: &str = "sha256:e3b0c44298fc1c149afbf4c8996fb92427ae41e4649b934ca495991b7852b855";

fn get_request(reference: &str) -> GetManifestRequest {
    GetManifestRequest {
        repository_name: "test-repo".to_string(),
        reference: reference.to_string(),
        user_id: "alice".to_string(),
        accept_headers: vec![],
    }
}

fn put_blob(size: u64) -> PutBlobRequest {
    PutBlobRequest {
        repository_name: "test-repo".to_string(),
        digest: DIGEST.to_string(),
        data: vec![],
        user_id: "alice".to_string(),
        content_length: size,
    }
}

fn repo(snapshots: bool, releases: bool) -> RepositoryInfo {
    RepositoryInfo {
        id: "test-repo".to_string(),
        name: "Test Repository".to_string(),
        repository_type: "hosted".to_string(),
        allow_snapshots: snapshots,
        allow_releases: releases,
    }
}

fn put_artifact(version: &str, content_type: &str) -> MavenPutArtifactRequest {
    MavenPutArtifactRequest {
        coordinates: MavenCoordinates::new("com.example", "my-app", version).unwrap(),
        content: b"jar".to_vec(),
        content_type: content_type.to_string(),
        repository_id: "test-repo".to_string(),
        overwrite: false,
    }
}

#[test]
fn test_maven_get_artifact_request() {
    let coordinates = MavenCoordinates::new("com.example", "my-app", "1.0.0").unwrap();
    let request = MavenGetArtifactRequest { coordinates: coordinates.clone(), repository_id: "maven-central".to_string() };

    assert_eq!(request.coordinates.group_id, "com.example");
    assert_eq!(request.repository_id, "maven-central");
}

#[test]
fn test_maven_put_artifact_response() {
    let response = MavenPutArtifactResponse {
        success: true,
        message: "Artifact uploaded successfully".to_string(),
        artifact_path: "com/example/my-app/1.0.0/my-app-1.0.0.jar".to_string(),
        size_bytes: 1024,
    };

    assert!(response.success);
    assert_eq!(response.size_bytes, 1024);
}

#[test]
fn docker_name_tag_and_digest_checks() {
    assert!(validate_docker_repository_name("library/nginx").is_ok());
    assert!(matches!(validate_docker_repository_name(""), Err(DockerApiError::InvalidManifest(_))));
    assert!(validate_docker_tag("v1.0").is_ok());
    assert!(validate_docker_digest(DIGEST).is_ok());
    assert!(matches!(validate_docker_digest("sha256:abc"), Err(DockerApiError::InvalidDigest(_))));
    assert!(matches!(validate_docker_digest("md5:abc"), Err(DockerApiError::InvalidDigest(_))));
}

#[test]
fn reference_is_checked_as_digest_or_tag() {
    let use_case = HandleDockerGetManifestUseCase::new();
    assert!(use_case.check(&get_request("latest")).is_ok());
    assert!(use_case.check(&get_request(DIGEST)).is_ok());
    assert!(matches!(use_case.check(&get_request("sha256:short")), Err(DockerApiError::InvalidDigest(_))));
    assert!(matches!(use_case.check(&get_request("bad tag")), Err(DockerApiError::InvalidManifest(_))));
}

#[test]
fn permission_refusals_are_forbidden() {
    let use_case = HandleDockerGetManifestUseCase::new();
    let r = get_request("latest");
    assert!(use_case.on_permission(&r, Ok(true)).is_ok());
    match use_case.on_permission(&r, Ok(false)) {
        Err(e @ DockerApiError::Forbidden(_)) => {
            assert_eq!(e.to_http_status(), 403);
            match e {
                DockerApiError::Forbidden(m) => assert_eq!(m, "User alice cannot read from repository test-repo"),
                _ => unreachable!(),
            }
        }
        _ => panic!("expected Forbidden"),
    }
    match use_case.on_permission(&r, Err(DockerPermissionError::UserNotFound("alice".to_string()))) {
        Err(DockerApiError::Forbidden(m)) => assert_eq!(m, "User not found: alice"),
        _ => panic!("expected Forbidden"),
    }
}

#[test]
fn manifest_read_errors_and_response() {
    let use_case = HandleDockerGetManifestUseCase::new();
    let r = get_request("latest");
    let not_found = Err(DockerManifestReaderError::NotFound { repository: "x".to_string(), reference: "y".to_string() });
    match use_case.on_manifest(&r, not_found) {
        Err(DockerApiError::ManifestNotFound(m)) => assert_eq!(m, "test-repo/latest"),
        _ => panic!("expected ManifestNotFound"),
    }
    match use_case.on_manifest(&r, Err(DockerManifestReaderError::StorageError("disk".to_string()))) {
        Err(DockerApiError::InternalServerError(m)) => assert_eq!(m, "Storage error: disk"),
        _ => panic!("expected InternalServerError"),
    }
    let manifest = DockerManifest::V2(DockerManifestV2 {
        schema_version: 2,
        media_type: DockerManifestMediaType::ManifestV2,
        config: DockerDescriptor {
            media_type: "application/vnd.docker.container.image.v1+json".to_string(),
            size: 1234,
            digest: "sha256:abc123".to_string(),
            urls: None,
        },
        layers: vec![],
    });
    let json = r#"{"schemaVersion":2,"mediaType":"application/vnd.docker.distribution.manifest.v2+json","config":{"mediaType":"application/vnd.docker.container.image.v1+json","size":1234,"digest":"sha256:abc123"},"layers":[]}"#;
    assert_eq!(json.len(), 207);
    let response = use_case.respond(&r, manifest, Ok(json.as_bytes().to_vec())).unwrap();
    assert_eq!(response.content_length, 207);
    assert_eq!(response.digest, "sha256:latest");
    assert_eq!(response.docker_content_digest, "sha256:latest");
    assert_eq!(response.content_type, DockerManifestMediaType::ManifestV2);
}

#[test]
fn oversized_blobs_are_refused() {
    let use_case = HandleDockerPutBlobUseCase::new();
    assert!(use_case.check(&put_blob(MAX_BLOB_SIZE)).is_ok());
    match use_case.check(&put_blob(MAX_BLOB_SIZE + 1)) {
        Err(e @ DockerApiError::BlobSizeExceeded(_)) => {
            assert_eq!(e.to_http_status(), 413);
            assert!(matches!(e, DockerApiError::BlobSizeExceeded(104857601)));
        }
        _ => panic!("expected BlobSizeExceeded"),
    }
    let r = put_blob(10);
    let ok = use_case.on_upload(&r, Ok(DIGEST.to_string())).unwrap();
    assert_eq!(ok.location, format!("/v2/test-repo/blobs/{}", DIGEST));
    assert!(matches!(
        use_case.on_upload(&r, Err(DockerBlobWriterError::SizeExceeded { size: 1, max: 2 })),
        Err(DockerApiError::BlobSizeExceeded(10))
    ));
}

#[test]
fn upload_sessions() {
    let use_case = HandleDockerStartBlobUploadUseCase::new();
    let request = StartBlobUploadRequest { repository_name: "test-repo".to_string(), user_id: "bob".to_string(), upload_uuid: None };
    let session = DockerUploadSession {
        upload_uuid: "u-1".to_string(),
        repository_name: "test-repo".to_string(),
        created_at: "t0".to_string(),
        expires_at: "t1".to_string(),
        offset: 1234,
        started: true,
        completed: false,
    };
    let r = use_case.on_session(&request, Ok(session)).unwrap();
    assert_eq!(r.upload_location, "/v2/test-repo/blobs/uploads/u-1");
    assert_eq!(r.range, "0-1234");
    match use_case.on_permission(&request, Ok(false)) {
        Err(DockerApiError::Forbidden(m)) => assert_eq!(m, "User bob cannot write to repository test-repo"),
        _ => panic!("expected Forbidden"),
    }
    let failing = Err(DockerBlobWriterError::SizeExceeded { size: 5, max: 4 });
    match use_case.on_session(&request, failing) {
        Err(DockerApiError::InternalServerError(m)) => assert_eq!(m, "Blob size exceeded limit: 5 bytes (max: 4)"),
        _ => panic!("expected InternalServerError"),
    }
    let complete = HandleDockerCompleteBlobUploadUseCase::new();
    let request = CompleteBlobUploadRequest {
        repository_name: "test-repo".to_string(),
        upload_uuid: "u-1".to_string(),
        digest: DIGEST.to_string(),
        data: None,
        user_id: "bob".to_string(),
    };
    match complete.on_complete(&request, Err(DockerBlobWriterError::UploadSessionNotFound("x".to_string()))) {
        Err(DockerApiError::UploadSessionNotFound(m)) => assert_eq!(m, "u-1"),
        _ => panic!("expected UploadSessionNotFound"),
    }
    let done = complete.on_complete(&request, Ok(DIGEST.to_string())).unwrap();
    assert_eq!(done.upload_uuid, "u-1");
}

#[test]
fn docker_storage_keys_and_upload_checks() {
    let reader = S3DockerManifestReader::new("b".to_string());
    assert_eq!(reader.get_manifest_key("lib/nginx", "latest"), "docker/lib/nginx/manifests/latest");
    let writer = S3DockerBlobWriter::new("b".to_string());
    assert_eq!(writer.get_blob_key("r", "sha256:x"), "docker/r/blobs/sha256:x");
    assert_eq!(writer.get_upload_key("r", "u"), "docker/r/uploads/u");
    assert!(writer.check_upload("sha256:x", 10).is_ok());
    assert!(matches!(writer.check_upload("md5:x", 10), Err(DockerBlobWriterError::InvalidDigest(_))));
    assert!(matches!(
        writer.check_upload("sha256:x", MAX_BLOB_SIZE + 1),
        Err(DockerBlobWriterError::SizeExceeded { size: 104857601, max: 104857600 })
    ));
    let session = writer.start_session("r", Some("given"));
    assert_eq!(session.upload_uuid, "given");
    assert_eq!(session.offset, 0);
    assert!(session.started && !session.completed);
    let fresh = writer.start_session("r", None);
    assert_eq!(fresh.upload_uuid.len(), 36);
    for (i, c) in fresh.upload_uuid.chars().enumerate() {
        if [8, 13, 18, 23].contains(&i) {
            assert_eq!(c, '-');
        } else {
            assert!(c.is_ascii_hexdigit() && !c.is_ascii_uppercase());
        }
    }
    let created = chrono::DateTime::parse_from_rfc3339(&fresh.created_at).unwrap();
    let expires = chrono::DateTime::parse_from_rfc3339(&fresh.expires_at).unwrap();
    assert_eq!((expires - created).num_seconds(), 3600);
    assert_eq!(expires.timestamp_subsec_nanos(), created.timestamp_subsec_nanos());
}

#[test]
fn maven_get_flow() {
    let use_case = HandleMavenGetArtifactUseCase::new();
    let request = MavenGetArtifactRequest {
        coordinates: MavenCoordinates::new("com.example", "my-app", "1.0.0").unwrap(),
        repository_id: "test-repo".to_string(),
    };
    assert!(use_case.check(&request).is_ok());
    assert!(matches!(use_case.on_repository_exists(&request, Ok(false)), Err(MavenGetError::RepositoryNotFound(ref r)) if r == "test-repo"));
    assert!(matches!(use_case.on_permission(Ok(false)), Err(MavenGetError::PermissionDenied)));
    assert!(matches!(use_case.on_artifact_exists(&request, Ok(false)), Err(MavenGetError::ArtifactNotFound(ref c)) if c == "com.example:my-app:1.0.0"));
    let content = use_case.on_content(Ok(b"test jar content".to_vec())).unwrap();
    let metadata = ArtifactMetadata {
        content_length: 1024,
        content_type: "application/java-archive".to_string(),
        last_modified: "2024-01-01T00:00:00Z".to_string(),
        etag: "etag123".to_string(),
    };
    let response = use_case.on_metadata(content, Ok(metadata)).unwrap();
    assert_eq!(response.content, b"test jar content".to_vec());
    assert_eq!(response.content_length, 16);
    assert_eq!(response.etag, Some("etag123".to_string()));
    assert!(matches!(use_case.on_content(Err(MavenReadError::StorageError("s".to_string()))), Err(MavenGetError::ReadFailed(_))));
}

#[test]
fn maven_put_policies() {
    let use_case = HandleMavenPutArtifactUseCase::new();
    assert!(use_case.check(&put_artifact("1.0.0", "application/java-archive")).is_ok());
    assert!(matches!(
        use_case.check(&put_artifact("1.0.0", "image/png")),
        Err(MavenPutError::InvalidContentType(ref t)) if t == "image/png"
    ));
    let snapshot = put_artifact("1.0.0-SNAPSHOT", "application/java-archive");
    let release = put_artifact("1.0.0", "application/java-archive");
    assert!(matches!(use_case.on_repository_info(&snapshot, Ok(repo(false, true))), Err(MavenPutError::SnapshotsNotAllowed)));
    assert!(use_case.on_repository_info(&snapshot, Ok(repo(true, false))).is_ok());
    assert!(matches!(use_case.on_repository_info(&release, Ok(repo(true, false))), Err(MavenPutError::ReleasesNotAllowed)));
    assert!(use_case.on_repository_info(&release, Ok(repo(false, true))).is_ok());
    let written = use_case.on_written(&release, Ok(())).unwrap();
    assert!(written.success);
    assert_eq!(written.message, "Artifact com.example:my-app:1.0.0 uploaded successfully");
    assert_eq!(written.artifact_path, "com/example/my-app/1.0.0/my-app-1.0.0.jar");
    assert_eq!(written.size_bytes, 3);
}

#[test]
fn maven_head_flow() {
    let use_case = HandleMavenHeadArtifactUseCase::new();
    let request = MavenHeadArtifactRequest {
        coordinates: MavenCoordinates::new("com.example", "my-app", "1.0.0").unwrap(),
        repository_id: "test-repo".to_string(),
    };
    assert!(use_case.check(&request).is_ok());
    let absent = use_case.on_artifact_exists(Ok(false)).unwrap().unwrap();
    assert!(!absent.exists);
    assert!(absent.content_length.is_none());
    assert!(use_case.on_artifact_exists(Ok(true)).is_none());
    let metadata = ArtifactMetadata {
        content_length: 7,
        content_type: "application/java-archive".to_string(),
        last_modified: "t".to_string(),
        etag: "e".to_string(),
    };
    let present = use_case.on_metadata(Ok(metadata)).unwrap();
    assert!(present.exists);
    assert_eq!(present.content_length, Some(7));
}

#[test]
fn api_error_messages() {
    assert_eq!(DockerApiError::BlobSizeExceeded(2048).message(), "Blob size exceeds limit: 2048 bytes");
    assert_eq!(DockerApiError::Forbidden("no".to_string()).message(), "Forbidden: no");
    assert_eq!(DockerApiError::InvalidDigest("d".to_string()).to_http_status(), 400);
}

#[test]
fn storage_answers_of_the_registry() {
    let reader = S3DockerManifestReader::new("b".to_string());
    assert!(matches!(
        reader.read_error("r", "latest", "NoSuchKey: gone".to_string()),
        DockerManifestReaderError::NotFound { .. }
    ));
    assert!(matches!(reader.read_error("r", "latest", "timeout".to_string()), DockerManifestReaderError::StorageError(_)));
    assert_eq!(reader.exists_answer(Ok(())).unwrap(), true);
    assert_eq!(reader.exists_answer(Err("NoSuchKey".to_string())).unwrap(), false);
    assert!(reader.exists_answer(Err("denied".to_string())).is_err());
    let head = ObjectHead {
        e_tag: Some("\"abc\"".to_string()),
        content_length: 42,
        content_type: None,
        last_modified: None,
    };
    let info = reader.manifest_info("latest", head.clone(), "2024-01-01T00:00:00Z".to_string()).unwrap();
    assert_eq!(info.digest, "\"abc\"");
    assert_eq!(info.size, 42);
    assert_eq!(info.tags, vec!["latest".to_string()]);
    assert_eq!(info.created_at, "2024-01-01T00:00:00Z");
    let mut no_tag = head.clone();
    no_tag.e_tag = None;
    assert!(matches!(reader.manifest_info("latest", no_tag, "n".to_string()), Err(DockerManifestReaderError::InvalidFormat(_))));
    let blobs = S3DockerBlobReader::new("b".to_string());
    let info = blobs.blob_info(DIGEST, head, "now".to_string());
    assert_eq!(info.media_type, "application/octet-stream");
    assert_eq!(info.digest, DIGEST);
    assert!(matches!(blobs.read_error("r", DIGEST, "NoSuchKey".to_string()), DockerBlobReaderError::NotFound { .. }));
    let writer = S3DockerBlobWriter::new("b".to_string());
    assert_eq!(writer.session_answer("u", DIGEST, Ok(())).unwrap(), DIGEST);
    assert!(matches!(
        writer.session_answer("u", DIGEST, Err("NoSuchKey".to_string())),
        Err(DockerBlobWriterError::UploadSessionNotFound(ref u)) if u == "u"
    ));
    assert!(matches!(writer.session_answer("u", DIGEST, Err("x".to_string())), Err(DockerBlobWriterError::StorageError(_))));
}

#[test]
fn manifest_read_failures_have_statuses() {
    let use_case = HandleDockerGetManifestUseCase::new();
    let r = get_request("latest");
    let missing = DockerManifestReaderError::NotFound { repository: "x".to_string(), reference: "y".to_string() };
    assert_eq!(use_case.on_manifest(&r, Err(missing)).unwrap_err().to_http_status(), 404);
    let denied = DockerManifestReaderError::PermissionDenied("p".to_string());
    assert_eq!(use_case.on_manifest(&r, Err(denied)).unwrap_err().to_http_status(), 403);
    let broken = DockerManifestReaderError::InvalidFormat("f".to_string());
    assert_eq!(use_case.on_manifest(&r, Err(broken)).unwrap_err().to_http_status(), 500);
}

#[test]
fn digest_is_one_algorithm_and_one_hash() {
    let h64 = "a".repeat(64);
    let h128 = "0123456789abcdef".repeat(8);
    assert!(validate_docker_digest(&format!("sha256:{}", h64)).is_ok());
    assert!(validate_docker_digest(&format!("sha512:{}", h128)).is_ok());
    assert!(validate_docker_digest(&format!("sha512:{}", h64)).is_err());
    assert!(validate_docker_digest(&format!("sha256:{}:{}", h64, h64)).is_err());
    assert!(validate_docker_digest(&format!("sha256{}", h64)).is_err());
    assert!(validate_docker_digest(&format!("sha256:{}", "g".repeat(64))).is_err());
    match validate_docker_digest(&format!("sha1:{}", h64)) {
        Err(DockerApiError::InvalidDigest(m)) => assert_eq!(m, "Unsupported digest algorithm: sha1"),
        other => panic!("expected InvalidDigest, got {:?}", other),
    }
}

#[test]
fn media_types_are_read_from_their_text() {
    for m in [
        DockerManifestMediaType::ManifestV2,
        DockerManifestMediaType::ManifestListV2,
        DockerManifestMediaType::ManifestV1,
        DockerManifestMediaType::ManifestV1Signed,
    ] {
        assert_eq!(DockerManifestMediaType::from_text(&m.to_string()), Some(m));
    }
    assert_eq!(DockerManifestMediaType::from_text("application/json"), None);
}

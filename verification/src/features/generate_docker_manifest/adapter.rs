//! The storage-side logic of manifest generation: where layers and
//! configurations are stored, how a stored layer is described, the schema 2
//! manifest built from them, and the cache keys.

use vstd::prelude::*;
use vstd::utf8::*;
use crate::digest::{sha256_digest_text, sha256_text};
use crate::text::{chars_of, concat2, concat3, concat5, copy_string, seq_ends_with, seq_starts_with, str_ends_with, str_starts_with};
use super::dto::{Config, DockerManifestDto, DockerManifestV2_2, Layer};
use super::ports::{DockerConfigInfo, DockerConfigRetrievalError, DockerLayerInfo, DockerLayerListingError};

verus! {

/// The part of `s` after its last `/` (all of `s` when it has none).
pub open spec fn last_segment(s: Seq<char>) -> Seq<char>
    decreases s.len(),
{
    if s.len() == 0 {
        s
    } else if s.last() == '/' {
        Seq::empty()
    } else {
        last_segment(s.drop_last()).push(s.last())
    }
}

proof fn lemma_last_segment_after(s: Seq<char>, start: int, k: int)
    requires
        0 <= start <= k <= s.len(),
        start == 0 || s[start - 1] == '/',
        forall|i: int| start <= i < k ==> s[i] != '/',
    ensures
        last_segment(s.take(k)) == s.subrange(start, k),
    decreases k - start,
{
    if k == start {
        if start == 0 {
            assert(s.take(0) =~= Seq::<char>::empty());
        } else {
            assert(s.take(k).last() == s[k - 1]);
        }
        assert(s.subrange(start, k) =~= Seq::<char>::empty());
    } else {
        lemma_last_segment_after(s, start, k - 1);
        assert(s.take(k).drop_last() =~= s.take(k - 1));
        assert(s.take(k).last() == s[k - 1]);
        assert(s.subrange(start, k) =~= s.subrange(start, k - 1).push(s[k - 1]));
    }
}

/// The part of `key` after its last `/`.
pub fn last_key_segment(key: &str) -> (r: &str)
    ensures
        r@ == last_segment(key@),
{
    let v = chars_of(key);
    let n = v.len();
    let mut i = n;
    while i > 0
        invariant
            0 <= i <= n,
            n == v.len(),
            v@ == key@,
            forall|k: int| i <= k < n ==> v@[k] != '/',
        ensures
            0 <= i <= n,
            i == 0 || v@[i - 1] == '/',
            forall|k: int| i <= k < n ==> v@[k] != '/',
        decreases i,
    {
        if v[i - 1] == '/' {
            break;
        }
        i = i - 1;
    }
    proof {
        lemma_last_segment_after(key@, i as int, n as int);
        assert(key@.take(n as int) =~= key@);
    }
    key.substring_char(i, n)
}

/// The digest of a stored layer: the last segment of its key when that
/// names a SHA-256 digest, else the digest of the key's UTF-8 text.
pub open spec fn key_digest(key: Seq<char>) -> Seq<char> {
    if seq_starts_with(last_segment(key), "sha256:"@) {
        last_segment(key)
    } else {
        sha256_text(encode_utf8(key))
    }
}

/// Whether a stored object is a layer archive.
pub open spec fn is_layer_key(key: Seq<char>) -> bool {
    seq_ends_with(key, ".tar.gz"@) || seq_ends_with(key, ".tar"@)
}

/// The media type of a stored layer, by the extension of its key.
pub open spec fn layer_media_type(key: Seq<char>) -> Seq<char> {
    if seq_ends_with(key, ".tar.gz"@) {
        "application/vnd.docker.image.rootfs.diff.tar.gzip"@
    } else if seq_ends_with(key, ".tar"@) {
        "application/vnd.docker.image.rootfs.diff.tar"@
    } else {
        "application/vnd.docker.image.rootfs.diff.tar.gzip"@
    }
}

/// An object listed in storage.
#[derive(Debug, Clone)]
pub struct StoredObject {
    pub key: String,
    pub size: u64,
}

/// The listed objects that are layer archives, in listing order.
pub open spec fn layer_objects(objects: Seq<StoredObject>) -> Seq<StoredObject>
    decreases objects.len(),
{
    if objects.len() == 0 {
        Seq::empty()
    } else if is_layer_key(objects.last().key@) {
        layer_objects(objects.drop_last()).push(objects.last())
    } else {
        layer_objects(objects.drop_last())
    }
}

/// The description of a stored layer.
pub open spec fn describes_layer(o: StoredObject, l: DockerLayerInfo) -> bool {
    &&& l.digest@ == key_digest(o.key@)
    &&& l.size == o.size
    &&& l.media_type@ == layer_media_type(o.key@)
    &&& l.urls is None
}

/// The media type of a configuration.
pub open spec fn config_media_type() -> Seq<char> {
    "application/vnd.docker.container.image.v1+json"@
}

/// Lister of the layers and configurations of images kept in an object
/// store bucket.
pub struct S3DockerLayerLister {
    pub bucket_name: String,
}

impl S3DockerLayerLister {
    pub fn new(bucket_name: String) -> (r: Self)
        ensures
            r.bucket_name == bucket_name,
    {
        S3DockerLayerLister { bucket_name }
    }

    /// The key prefix of the layers of a tag: `docker/{repository}/{tag}/layers/`.
    pub fn layers_prefix(repository_name: &str, tag: &str) -> (r: String)
        ensures
            r@ == "docker/"@ + repository_name@ + "/"@ + tag@ + "/layers/"@,
    {
        concat5("docker/", repository_name, "/", tag, "/layers/")
    }

    /// The key of the configuration of a tag: `docker/{repository}/{tag}/config.json`.
    pub fn config_key(repository_name: &str, tag: &str) -> (r: String)
        ensures
            r@ == "docker/"@ + repository_name@ + "/"@ + tag@ + "/config.json"@,
    {
        concat5("docker/", repository_name, "/", tag, "/config.json")
    }

    /// The digest of a stored layer from its key.
    pub fn extract_digest_from_key(&self, key: &str) -> (r: String)
        ensures
            r@ == key_digest(key@),
    {
        let segment = last_key_segment(key);
        if str_starts_with(segment, "sha256:") {
            segment.to_owned()
        } else {
            sha256_digest_text(key.as_bytes())
        }
    }

    /// The media type of a stored layer from its key.
    pub fn determine_layer_media_type(&self, key: &str) -> (r: String)
        ensures
            r@ == layer_media_type(key@),
    {
        if str_ends_with(key, ".tar.gz") {
            "application/vnd.docker.image.rootfs.diff.tar.gzip".to_owned()
        } else if str_ends_with(key, ".tar") {
            "application/vnd.docker.image.rootfs.diff.tar".to_owned()
        } else {
            "application/vnd.docker.image.rootfs.diff.tar.gzip".to_owned()
        }
    }

    /// The digest of a configuration's content.
    pub fn calculate_config_digest(&self, data: &[u8]) -> (r: String)
        ensures
            r@ == sha256_text(data@),
            r@.len() == 71,
    {
        sha256_digest_text(data)
    }

    /// The layers of a tag from the objects listed under its prefix: the
    /// layer archives, in listing order; none at all is `NoLayersFound`.
    pub fn layers_from_objects(&self, repository_name: &str, tag: &str, objects: &Vec<StoredObject>) -> (r:
        Result<Vec<DockerLayerInfo>, DockerLayerListingError>)
        ensures
            r is Err <==> layer_objects(objects@).len() == 0,
            r matches Err(e) ==> (e matches DockerLayerListingError::NoLayersFound { repository, tag: t }
                && repository@ == repository_name@ && t@ == tag@),
            r matches Ok(layers) ==> layers@.len() == layer_objects(objects@).len() && forall|i: int|
                0 <= i < layers@.len() ==> describes_layer(layer_objects(objects@)[i], #[trigger] layers@[i]),
    {
        let mut layers: Vec<DockerLayerInfo> = Vec::new();
        let mut i: usize = 0;
        while i < objects.len()
            invariant
                0 <= i <= objects.len(),
                layers@.len() == layer_objects(objects@.take(i as int)).len(),
                forall|k: int|
                    0 <= k < layers@.len() ==> describes_layer(
                        layer_objects(objects@.take(i as int))[k],
                        #[trigger] layers@[k],
                    ),
            decreases objects.len() - i,
        {
            let o = &objects[i];
            proof {
                assert(objects@.take(i as int + 1).drop_last() =~= objects@.take(i as int));
                assert(objects@.take(i as int + 1).last() == objects@[i as int]);
            }
            if str_ends_with(o.key.as_str(), ".tar.gz") || str_ends_with(o.key.as_str(), ".tar") {
                let layer = DockerLayerInfo {
                    digest: self.extract_digest_from_key(o.key.as_str()),
                    size: o.size,
                    media_type: self.determine_layer_media_type(o.key.as_str()),
                    urls: None,
                };
                layers.push(layer);
            }
            i = i + 1;
        }
        proof {
            assert(objects@.take(objects@.len() as int) =~= objects@);
        }
        if layers.len() == 0 {
            Err(DockerLayerListingError::NoLayersFound { repository: repository_name.to_owned(), tag: tag.to_owned() })
        } else {
            Ok(layers)
        }
    }

    /// The configuration of a tag from its stored content.
    pub fn config_from_data(&self, data: Vec<u8>) -> (r: DockerConfigInfo)
        ensures
            r.digest@ == sha256_text(data@),
            r.size == data@.len(),
            r.media_type@ == config_media_type(),
            r.content == data,
    {
        let digest = self.calculate_config_digest(data.as_slice());
        let size = data.len() as u64;
        DockerConfigInfo {
            digest,
            size,
            media_type: "application/vnd.docker.container.image.v1+json".to_owned(),
            content: data,
        }
    }
}

/// Generator of manifests from the stored layers and configuration.
pub struct S3DockerManifestGenerator {
    pub bucket_name: String,
}

/// The schema 2 layer of a stored layer.
pub open spec fn layer_entry(l: DockerLayerInfo, e: Layer) -> bool {
    &&& e.media_type@ == l.media_type@
    &&& e.size == l.size
    &&& e.digest@ == l.digest@
    &&& e.urls is None
}

impl S3DockerManifestGenerator {
    pub fn new(bucket_name: String) -> (r: Self)
        ensures
            r.bucket_name == bucket_name,
    {
        S3DockerManifestGenerator { bucket_name }
    }

    /// The schema 2 manifest of the given layers and configuration: the
    /// Docker V2.2 media type, the configuration's descriptor, and one layer
    /// entry per layer, in order.
    pub fn generate_v2_2_manifest(&self, layers: Vec<DockerLayerInfo>, config: DockerConfigInfo) -> (r:
        DockerManifestDto)
        ensures
            r matches DockerManifestDto::V2_2(m) && m.schema_version == 2
                && m.media_type@ == "application/vnd.docker.distribution.manifest.v2+json"@
                && m.config.media_type == config.media_type && m.config.size == config.size
                && m.config.digest == config.digest && m.layers@.len() == layers@.len()
                && forall|i: int| 0 <= i < layers@.len() ==> layer_entry(layers@[i], #[trigger] m.layers@[i]),
    {
        let mut entries: Vec<Layer> = Vec::new();
        let mut i: usize = 0;
        while i < layers.len()
            invariant
                0 <= i <= layers.len(),
                entries@.len() == i,
                forall|k: int| 0 <= k < i ==> layer_entry(layers@[k], #[trigger] entries@[k]),
            decreases layers.len() - i,
        {
            let l = &layers[i];
            entries.push(
                Layer {
                    media_type: copy_string(&l.media_type),
                    size: l.size,
                    digest: copy_string(&l.digest),
                    urls: None,
                },
            );
            i = i + 1;
        }
        DockerManifestDto::V2_2(
            DockerManifestV2_2 {
                schema_version: 2,
                media_type: "application/vnd.docker.distribution.manifest.v2+json".to_owned(),
                layers: entries,
                config: Config { media_type: config.media_type, size: config.size, digest: config.digest },
            },
        )
    }
}

/// Cache of generated manifests in a key-value store, with a time to live.
pub struct RedisDockerManifestCache {
    pub ttl_seconds: u64,
}

impl RedisDockerManifestCache {
    pub fn new(ttl_seconds: u64) -> (r: Self)
        ensures
            r.ttl_seconds == ttl_seconds,
    {
        RedisDockerManifestCache { ttl_seconds }
    }

    /// The key of a cached manifest: `docker:manifest:{repository}:{tag}:{media type}`.
    pub fn generate_cache_key(&self, repository_name: &str, tag: &str, media_type: &str) -> (r: String)
        ensures
            r@ == "docker:manifest:"@ + repository_name@ + ":"@ + tag@ + ":"@ + media_type@,
    {
        let head = concat5("docker:manifest:", repository_name, ":", tag, ":");
        concat2(head.as_str(), media_type)
    }
}

} // verus!

use greentic_dist::cache::{CacheDirEntry, CacheMetadata, CachePath, ComponentCache, OciCache};

const HEX: &str = "0123456789abcdef0123456789abcdef0123456789abcdef0123456789abcdef";

fn parts(p: &CachePath) -> (String, String, Option<String>) {
    (p.root.clone(), p.dir.clone(), p.file.clone())
}

fn entry(name: &str, has_artifact: bool) -> CacheDirEntry {
    CacheDirEntry { name: name.to_string(), has_artifact }
}

#[test]
fn component_dir_is_named_by_the_hex() {
    let cache = ComponentCache::new("/cache".to_string());
    let with_prefix = cache.component_dir(&format!("sha256:{HEX}"));
    assert_eq!(parts(&with_prefix), ("/cache".to_string(), HEX.to_string(), None));
    let bare = cache.component_dir(HEX);
    assert_eq!(parts(&bare), ("/cache".to_string(), HEX.to_string(), None));
}

#[test]
fn component_dir_keeps_an_at_sign_behind_the_prefix() {
    let cache = ComponentCache::new("/cache".to_string());
    assert_eq!(cache.component_dir("@abc").dir, "@abc");
    let oci = OciCache::new("/cache".to_string());
    assert_eq!(oci.artifact_dir("@abc").dir, "abc");
    assert_eq!(oci.artifact_dir("abc").dir, "abc");
    assert_eq!(oci.artifact_dir("sha256:abc").dir, "abc");
}

#[test]
fn files_of_an_entry() {
    let cache = ComponentCache::new("/cache".to_string());
    let digest = format!("sha256:{HEX}");
    assert_eq!(
        parts(&cache.component_path(&digest)),
        ("/cache".to_string(), HEX.to_string(), Some("component.wasm".to_string()))
    );
    assert_eq!(
        parts(&cache.metadata_path(&digest)),
        ("/cache".to_string(), HEX.to_string(), Some("metadata.json".to_string()))
    );
    let oci = OciCache::new("/cache".to_string());
    assert_eq!(
        parts(&oci.artifact_path(&digest)),
        ("/cache".to_string(), HEX.to_string(), Some("component.wasm".to_string()))
    );
    assert_eq!(
        parts(&oci.metadata_path(&digest)),
        ("/cache".to_string(), HEX.to_string(), Some("metadata.json".to_string()))
    );
    let copy = cache.component_path(&digest).duplicate();
    assert_eq!(parts(&copy), parts(&cache.component_path(&digest)));
}

#[test]
fn existing_component_follows_the_probe() {
    let cache = ComponentCache::new("/cache".to_string());
    assert!(cache.existing_component(HEX, false).is_none());
    let found = cache.existing_component(HEX, true).unwrap();
    assert_eq!(found.dir, HEX);
    assert_eq!(found.file.as_deref(), Some("component.wasm"));
}

#[test]
fn write_component_stores_bytes_and_sidecar() {
    let cache = ComponentCache::new("/cache".to_string());
    let digest = format!("sha256:{HEX}");
    let write = cache.write_component(&digest, b"abc".to_vec(), "/tmp/a.wasm", 42);
    assert_eq!(parts(&write.dir), ("/cache".to_string(), HEX.to_string(), None));
    assert_eq!(write.artifact.file.as_deref(), Some("component.wasm"));
    assert_eq!(write.sidecar.file.as_deref(), Some("metadata.json"));
    assert_eq!(write.data, b"abc");
    assert_eq!(write.metadata.original_reference, "/tmp/a.wasm");
    assert_eq!(write.metadata.resolved_digest, digest);
    assert_eq!(write.metadata.media_type, "application/octet-stream");
    assert_eq!(write.metadata.fetched_at_unix_seconds, 42);
    assert_eq!(write.metadata.size_bytes, 3);
    assert_eq!(write.metadata.manifest_digest, None);
}

#[test]
fn oci_write_records_media_type_and_manifest() {
    let cache = OciCache::new("/cache".to_string());
    let digest = format!("sha256:{HEX}");
    let write = cache.write(
        &digest,
        "application/wasm",
        b"wasm".to_vec(),
        "ghcr.io/x/y:latest",
        Some("sha256:beef".to_string()),
        7,
    );
    assert_eq!(write.dir.dir, HEX);
    assert_eq!(write.data, b"wasm");
    assert_eq!(write.metadata.media_type, "application/wasm");
    assert_eq!(write.metadata.original_reference, "ghcr.io/x/y:latest");
    assert_eq!(write.metadata.resolved_digest, digest);
    assert_eq!(write.metadata.size_bytes, 4);
    assert_eq!(write.metadata.fetched_at_unix_seconds, 7);
    assert_eq!(write.metadata.manifest_digest.as_deref(), Some("sha256:beef"));
}

#[test]
fn list_digests_prefixes_each_name() {
    let cache = ComponentCache::new("/cache".to_string());
    let names = vec!["b".to_string(), "a".to_string(), HEX.to_string()];
    assert_eq!(
        cache.list_digests(&names),
        vec!["sha256:b".to_string(), "sha256:a".to_string(), format!("sha256:{HEX}")]
    );
    assert!(cache.list_digests(&Vec::new()).is_empty());
}

#[test]
fn listed_digest_leads_back_to_its_directory() {
    let cache = ComponentCache::new("/cache".to_string());
    for name in ["abc", "@abc", "sha256:abc", "", HEX] {
        let listed = cache.list_digests(&vec![name.to_string()]);
        assert_eq!(cache.component_dir(&listed[0]).dir, name);
    }
}

#[test]
fn gc_collects_the_dangling_in_order() {
    let cache = ComponentCache::new("/cache".to_string());
    let listing = vec![entry("a", true), entry("b", false), entry("c", true), entry("d", false)];
    assert_eq!(cache.gc(&listing), vec!["sha256:b".to_string(), "sha256:d".to_string()]);
}

#[test]
fn gc_of_a_sound_cache_collects_nothing() {
    let cache = ComponentCache::new("/cache".to_string());
    assert!(cache.gc(&vec![entry("a", true), entry("b", true)]).is_empty());
    assert!(cache.gc(&Vec::new()).is_empty());
}

#[test]
fn gc_leaves_no_dangling_directory() {
    let cache = ComponentCache::new("/cache".to_string());
    let listing = vec![entry("a", false), entry("b", true), entry("c", false)];
    let removed = cache.gc(&listing);
    let removed_dirs: Vec<String> = removed.iter().map(|d| cache.component_dir(d).dir).collect();
    assert_eq!(removed_dirs, vec!["a".to_string(), "c".to_string()]);
    let left: Vec<&CacheDirEntry> =
        listing.iter().filter(|e| !removed_dirs.contains(&e.name)).collect();
    assert_eq!(left.len(), 1);
    assert!(left.iter().all(|e| e.has_artifact));
    let after: Vec<CacheDirEntry> = left.iter().map(|e| entry(&e.name, e.has_artifact)).collect();
    assert!(cache.gc(&after).is_empty());
}

fn metadata(manifest_digest: Option<&str>) -> CacheMetadata {
    CacheMetadata {
        original_reference: "ghcr.io/x/y:latest".to_string(),
        resolved_digest: format!("sha256:{HEX}"),
        media_type: "application/wasm".to_string(),
        fetched_at_unix_seconds: 1_700_000_000,
        size_bytes: 42,
        manifest_digest: manifest_digest.map(str::to_string),
    }
}

fn same(a: &CacheMetadata, b: &CacheMetadata) -> bool {
    a.original_reference == b.original_reference
        && a.resolved_digest == b.resolved_digest
        && a.media_type == b.media_type
        && a.fetched_at_unix_seconds == b.fetched_at_unix_seconds
        && a.size_bytes == b.size_bytes
        && a.manifest_digest == b.manifest_digest
}

#[test]
fn sidecar_survives_writing_and_reading() {
    for m in [metadata(None), metadata(Some("sha256:beef"))] {
        let bytes = m.to_bytes().unwrap();
        let back = CacheMetadata::from_bytes(&bytes).unwrap();
        assert!(same(&m, &back));
        let back = CacheMetadata::from_json(&m.to_json()).unwrap();
        assert!(same(&m, &back));
    }
}

#[test]
fn sidecar_is_an_object_with_the_six_fields() {
    let bytes = metadata(None).to_bytes().unwrap();
    let value: serde_json::Value = serde_json::from_slice(&bytes).unwrap();
    let object = value.as_object().unwrap();
    assert_eq!(object.len(), 6);
    assert_eq!(value["original_reference"], "ghcr.io/x/y:latest");
    assert_eq!(value["resolved_digest"], format!("sha256:{HEX}"));
    assert_eq!(value["media_type"], "application/wasm");
    assert_eq!(value["fetched_at_unix_seconds"], 1_700_000_000u64);
    assert_eq!(value["size_bytes"], 42);
    assert!(value["manifest_digest"].is_null());
    assert!(String::from_utf8(bytes).unwrap().contains("\n  \"media_type\": \"application/wasm\""));
}

#[test]
fn sidecar_reading_is_strict_on_fields_and_lax_on_the_rest() {
    let full = r#"{"original_reference": "r", "resolved_digest": "d", "media_type": "m",
        "fetched_at_unix_seconds": 1, "size_bytes": 2, "manifest_digest": "x", "extra": [1]}"#;
    let m = CacheMetadata::from_bytes(full.as_bytes()).unwrap();
    assert_eq!(m.original_reference, "r");
    assert_eq!(m.resolved_digest, "d");
    assert_eq!(m.media_type, "m");
    assert_eq!(m.fetched_at_unix_seconds, 1);
    assert_eq!(m.size_bytes, 2);
    assert_eq!(m.manifest_digest.as_deref(), Some("x"));

    let without = r#"{"original_reference": "r", "resolved_digest": "d", "media_type": "m",
        "fetched_at_unix_seconds": 1, "size_bytes": 2}"#;
    assert_eq!(CacheMetadata::from_bytes(without.as_bytes()).unwrap().manifest_digest, None);

    for bad in [
        "",
        "not json",
        "[]",
        "null",
        r#"{"resolved_digest": "d", "media_type": "m",
            "fetched_at_unix_seconds": 1, "size_bytes": 2}"#,
        r#"{"original_reference": null, "resolved_digest": "d", "media_type": "m",
            "fetched_at_unix_seconds": 1, "size_bytes": 2}"#,
        r#"{"original_reference": "r", "resolved_digest": "d", "media_type": "m",
            "fetched_at_unix_seconds": -1, "size_bytes": 2}"#,
        r#"{"original_reference": "r", "resolved_digest": "d", "media_type": "m",
            "fetched_at_unix_seconds": 1, "size_bytes": "2"}"#,
        r#"{"original_reference": "r", "resolved_digest": "d", "media_type": "m",
            "fetched_at_unix_seconds": 1, "size_bytes": 2, "manifest_digest": 3}"#,
    ] {
        assert!(CacheMetadata::from_bytes(bad.as_bytes()).is_none(), "for {bad}");
    }
}

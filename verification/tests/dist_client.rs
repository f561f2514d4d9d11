use std::collections::HashMap;

use greentic_dist::cache::CachePath;
use greentic_dist::digest::digest_for_bytes;
use greentic_dist::dist::{ArtifactSource, DistClient, DistOptions, ResolveStep, ResolvedArtifact};
use greentic_dist::error::{DistError, OciComponentError};
use greentic_dist::json::{JsonMember, JsonValue};
use greentic_dist::lockfile::{
    entries_from_json, parse_entry, parse_file, parse_lockfile, LockComponent, LockEntry,
    LockResolvedEntry, LockTurn,
};
use greentic_dist::oci::ResolvedComponent;
use greentic_dist::text::trim;

fn digest_for(bytes: &[u8]) -> String {
    digest_for_bytes(bytes)
}

fn options(dir: &str) -> DistOptions {
    DistOptions { cache_dir: dir.to_string(), allow_tags: true, offline: false }
}

/// Files, a web server and a cache, all in memory.
#[derive(Default)]
struct World {
    files: HashMap<String, Vec<u8>>,
    served: HashMap<String, Vec<u8>>,
    requests: usize,
    cache: HashMap<String, Vec<u8>>,
}

fn place(path: &CachePath) -> String {
    match &path.file {
        Some(file) => format!("{}/{}/{}", path.root, path.dir, file),
        None => format!("{}/{}", path.root, path.dir),
    }
}

fn resolve_ref(
    client: &DistClient,
    world: &mut World,
    reference: &str,
) -> Result<ResolvedArtifact, DistError> {
    let exists = world.files.contains_key(trim(reference));
    match client.resolve_ref(reference, exists) {
        ResolveStep::LookUp { digest, artifact } => {
            let present = world.cache.contains_key(&place(&artifact));
            Ok(client.finish_digest(digest, present))
        }
        ResolveStep::Fetch { url } => {
            world.requests += 1;
            let body = world.served.get(&url).cloned().ok_or_else(|| "404".to_string());
            let ingest = client.fetch_http(&url, body, 0)?;
            world.cache.insert(place(&ingest.write.artifact), ingest.write.data);
            client.after_ingest(ingest.resolved, Ok(()))
        }
        ResolveStep::Read { path } => {
            let contents =
                world.files.get(&path).cloned().ok_or_else(|| "no such file".to_string());
            let ingest = client.ingest_file(&path, contents, 0)?;
            world.cache.insert(place(&ingest.write.artifact), ingest.write.data);
            client.after_ingest(ingest.resolved, Ok(()))
        }
        ResolveStep::Registry { reference } => client.pull_oci(
            &reference,
            Err(OciComponentError::PullFailed {
                reference: reference.clone(),
                source: "no registry here".to_string(),
            }),
        ),
        ResolveStep::Fail(error) => Err(error),
    }
}

fn ensure_cached(
    client: &DistClient,
    world: &mut World,
    reference: &str,
) -> Result<ResolvedArtifact, DistError> {
    let resolved = resolve_ref(client, world, reference)?;
    let exists = match &resolved.cache_path {
        Some(path) => world.cache.contains_key(&place(path)),
        None => false,
    };
    client.ensure_cached(reference, resolved, exists)
}

fn pull_lock(
    client: &DistClient,
    world: &mut World,
    entries: Vec<LockResolvedEntry>,
) -> Result<Vec<ResolvedArtifact>, DistError> {
    let mut turn = client.pull_lock(entries);
    loop {
        turn = match turn {
            LockTurn::Resolve(t) => {
                let outcome = resolve_ref(client, world, t.reference());
                t.resolved(outcome)
            }
            LockTurn::Cache(t) => {
                let outcome = ensure_cached(client, world, t.key());
                t.cached(outcome)
            }
            LockTurn::Finished(list) => return Ok(list),
            LockTurn::Failed(error) => return Err(error),
        };
    }
}

fn read_lockfile(text: &str) -> Result<Vec<LockResolvedEntry>, DistError> {
    parse_lockfile(text)
}

fn concat_lines(lines: &[&str]) -> String {
    lines.join("\n")
}

fn pairs(entries: &[LockResolvedEntry]) -> Vec<(Option<&str>, Option<&str>)> {
    entries.iter().map(|e| (e.reference.as_deref(), e.digest.as_deref())).collect()
}

fn object(reference: Option<&str>, ref_field: Option<&str>, digest: Option<&str>) -> LockEntry {
    LockEntry::Object(LockComponent {
        reference: reference.map(str::to_string),
        ref_field: ref_field.map(str::to_string),
        digest: digest.map(str::to_string),
        name: None,
    })
}

#[test]
fn caches_file_path_and_computes_digest() {
    let mut world = World::default();
    let file_path = "/tmp/x/component.wasm";
    world.files.insert(file_path.to_string(), b"hello-component".to_vec());
    let expected = digest_for(b"hello-component");

    let client = DistClient::new(options("/cache"));
    let resolved = ensure_cached(&client, &mut world, file_path).unwrap();

    assert_eq!(resolved.digest, expected);
    let cached = resolved.cache_path.unwrap();
    assert!(world.cache.contains_key(&place(&cached)));
    assert_eq!(world.cache.get(&place(&cached)).unwrap(), b"hello-component");
    assert!(resolved.fetched);
    assert!(matches!(resolved.source, ArtifactSource::File(ref p) if p == file_path));
}

#[test]
fn caches_http_download() {
    let mut world = World::default();
    let url = "http://host/component.wasm";
    world.served.insert(url.to_string(), b"from-http".to_vec());

    let client = DistClient::new(options("/cache"));
    let resolved = ensure_cached(&client, &mut world, url).unwrap();

    let expected = digest_for(b"from-http");
    assert_eq!(resolved.digest, expected);
    let cached = resolved.cache_path.unwrap();
    assert_eq!(world.cache.get(&place(&cached)).unwrap(), b"from-http");
    assert_eq!(world.requests, 1);
    assert!(matches!(resolved.source, ArtifactSource::Http(ref u) if u == url));
}

#[test]
fn pulls_lockfile_entries() {
    let mut world = World::default();
    world.files.insert("/tmp/one.wasm".to_string(), b"one".to_vec());
    world.files.insert("/tmp/two.wasm".to_string(), b"two".to_vec());

    let lock_contents = r#"{"components": ["/tmp/one.wasm", {"reference": "/tmp/two.wasm"}]}"#;
    let entries = read_lockfile(lock_contents).unwrap();

    let client = DistClient::new(options("/cache"));
    let resolved = pull_lock(&client, &mut world, entries).unwrap();

    assert_eq!(resolved.len(), 2);
    for item in resolved {
        assert!(world.cache.contains_key(&place(&item.cache_path.unwrap())));
    }
}

#[test]
fn respects_canonical_lockfile_with_schema_version() {
    let mut world = World::default();
    world.files.insert("/abs/hello.wasm".to_string(), b"hello".to_vec());
    let digest = digest_for(b"hello");
    let component =
        format!(r#"{{"name": "hello", "ref": "/abs/hello.wasm", "digest": "{digest}"}}"#);
    let lock_contents = format!(r#"{{"schema_version": 1, "components": [{component}]}}"#);
    let entries = read_lockfile(&lock_contents).unwrap();

    let client = DistClient::new(options("/cache"));
    let resolved = pull_lock(&client, &mut world, entries).unwrap();
    assert_eq!(resolved.len(), 1);
    assert_eq!(resolved[0].digest, digest);
    assert!(world.cache.contains_key(&place(resolved[0].cache_path.as_ref().unwrap())));
}

#[test]
fn offline_mode_blocks_http_fetch() {
    let mut world = World::default();
    let mut opts = options("/cache");
    opts.offline = true;
    let client = DistClient::new(opts);
    let err = resolve_ref(&client, &mut world, "http://example.com/component.wasm").unwrap_err();
    let msg = err.message();
    assert!(msg.contains("offline"), "unexpected error: {msg}");
    assert!(matches!(
        err,
        DistError::Offline { ref reference } if reference == "http://example.com/component.wasm"
    ));
    assert_eq!(world.requests, 0);
}

#[test]
fn digest_lookup_reports_hit_and_miss() {
    let mut world = World::default();
    world.files.insert("/tmp/a.wasm".to_string(), b"a".to_vec());
    let client = DistClient::new(options("/cache"));
    let digest = digest_for(b"a");

    let miss = resolve_ref(&client, &mut world, &digest).unwrap();
    assert_eq!(miss.digest, digest);
    assert!(miss.cache_path.is_none());
    assert!(!miss.fetched);
    assert!(matches!(miss.source, ArtifactSource::Digest));
    match ensure_cached(&client, &mut world, &digest) {
        Err(DistError::CacheMiss { reference }) => assert_eq!(reference, digest),
        other => panic!("unexpected result: {other:?}"),
    }

    ensure_cached(&client, &mut world, "/tmp/a.wasm").unwrap();
    let hit = ensure_cached(&client, &mut world, &digest).unwrap();
    assert_eq!(hit.digest, digest);
    assert!(!hit.fetched);
    assert_eq!(place(&hit.cache_path.unwrap()), format!("/cache/{}/component.wasm", &digest[7..]));
}

#[test]
fn resolving_twice_adds_no_entry() {
    let mut world = World::default();
    world.files.insert("/tmp/a.wasm".to_string(), b"same".to_vec());
    world.served.insert("http://host/a.wasm".to_string(), b"same".to_vec());
    let client = DistClient::new(options("/cache"));
    let first = ensure_cached(&client, &mut world, "/tmp/a.wasm").unwrap();
    assert_eq!(world.cache.len(), 1);
    let second = ensure_cached(&client, &mut world, "/tmp/a.wasm").unwrap();
    assert_eq!(first.digest, second.digest);
    assert_eq!(world.cache.len(), 1);
    let third = ensure_cached(&client, &mut world, "http://host/a.wasm").unwrap();
    assert_eq!(first.digest, third.digest);
    assert_eq!(world.cache.len(), 1);
}

#[test]
fn repo_and_store_need_a_login() {
    let mut world = World::default();
    let client = DistClient::new(options("/cache"));
    match resolve_ref(&client, &mut world, "repo://team/x") {
        Err(DistError::AuthRequired { target }) => assert_eq!(target, "repo://team/x"),
        other => panic!("unexpected result: {other:?}"),
    }
    match resolve_ref(&client, &mut world, "store://team/x") {
        Err(DistError::AuthRequired { target }) => assert_eq!(target, "store://team/x"),
        other => panic!("unexpected result: {other:?}"),
    }
}

#[test]
fn invalid_reference_fails() {
    let mut world = World::default();
    let client = DistClient::new(options("/cache"));
    match resolve_ref(&client, &mut world, "not a ref") {
        Err(DistError::InvalidReference { reference }) => assert_eq!(reference, "not a ref"),
        other => panic!("unexpected result: {other:?}"),
    }
}

#[test]
fn failed_download_is_an_http_error() {
    let mut world = World::default();
    let client = DistClient::new(options("/cache"));
    match resolve_ref(&client, &mut world, "http://host/missing") {
        Err(DistError::Http(m)) => assert_eq!(m, "404"),
        other => panic!("unexpected result: {other:?}"),
    }
    assert!(world.cache.is_empty());
}

#[test]
fn failed_read_is_an_io_error() {
    let client = DistClient::new(options("/cache"));
    match client.ingest_file("/tmp/gone", Err("no such file".to_string()), 0) {
        Err(DistError::Io(m)) => assert_eq!(m, "no such file"),
        other => panic!("unexpected result: {:?}", other.map(|i| i.resolved)),
    }
}

#[test]
fn failed_ingest_write_is_an_io_error() {
    let client = DistClient::new(options("/cache"));
    let ingest = client.ingest_file("/tmp/a", Ok(b"a".to_vec()), 0).unwrap();
    let failure = greentic_dist::cache::CacheWriteFailure::Io("disk full".to_string());
    match client.after_ingest(ingest.resolved, Err(failure)) {
        Err(DistError::Io(m)) => assert_eq!(m, "disk full"),
        other => panic!("unexpected result: {other:?}"),
    }
}

#[test]
fn registry_reference_goes_to_the_registry_resolver() {
    let client = DistClient::new(options("/cache"));
    match client.resolve_ref("ghcr.io/x/y:latest", false) {
        ResolveStep::Registry { reference } => assert_eq!(reference, "ghcr.io/x/y:latest"),
        other => panic!("unexpected step: {other:?}"),
    }
    match client.resolve_ref("oci://ghcr.io/x/y:latest", false) {
        ResolveStep::Registry { reference } => assert_eq!(reference, "ghcr.io/x/y:latest"),
        other => panic!("unexpected step: {other:?}"),
    }
    assert!(client.oci.opts.allow_tags);
    assert!(!client.oci.opts.offline);
    assert_eq!(client.oci.opts.cache_dir, "/cache");
}

#[test]
fn registry_result_becomes_an_artifact() {
    let client = DistClient::new(options("/cache"));
    let path = client.cache.component_path("sha256:ab");
    let component = ResolvedComponent {
        original_reference: "ghcr.io/x/y:latest".to_string(),
        resolved_digest: "sha256:ab".to_string(),
        media_type: "application/wasm".to_string(),
        path,
        fetched_from_network: true,
        manifest_digest: None,
    };
    let artifact = client.pull_oci("ghcr.io/x/y:latest", Ok(vec![component])).unwrap();
    assert_eq!(artifact.digest, "sha256:ab");
    assert!(artifact.fetched);
    assert_eq!(place(&artifact.cache_path.unwrap()), "/cache/ab/component.wasm");
    assert!(matches!(artifact.source, ArtifactSource::Oci(ref r) if r == "ghcr.io/x/y:latest"));

    match client.pull_oci("ghcr.io/x/y:latest", Ok(Vec::new())) {
        Err(DistError::InvalidReference { reference }) => {
            assert_eq!(reference, "ghcr.io/x/y:latest")
        }
        other => panic!("unexpected result: {other:?}"),
    }
    let failure = OciComponentError::MissingLayers { reference: "r".to_string() };
    match client.pull_oci("ghcr.io/x/y:latest", Err(failure)) {
        Err(DistError::Oci(OciComponentError::MissingLayers { reference })) => {
            assert_eq!(reference, "r")
        }
        other => panic!("unexpected result: {other:?}"),
    }
}

#[test]
fn fetch_digest_normalizes() {
    let client = DistClient::new(options("/cache"));
    let found = client.fetch_digest("abc", true).unwrap();
    assert_eq!(place(&found), "/cache/abc/component.wasm");
    let found = client.fetch_digest("sha256:abc", true).unwrap();
    assert_eq!(place(&found), "/cache/abc/component.wasm");
    match client.fetch_digest("abc", false) {
        Err(DistError::CacheMiss { reference }) => assert_eq!(reference, "sha256:abc"),
        other => panic!("unexpected result: {other:?}"),
    }
}

#[test]
fn list_remove_and_gc() {
    let client = DistClient::new(options("/cache"));
    let names = vec!["aa".to_string(), "bb".to_string()];
    assert_eq!(client.list_cache(&names), vec!["sha256:aa".to_string(), "sha256:bb".to_string()]);
    let dirs = client.remove_cached(&vec!["sha256:aa".to_string(), "bb".to_string()]);
    assert_eq!(dirs.len(), 2);
    assert_eq!(place(&dirs[0]), "/cache/aa");
    assert_eq!(place(&dirs[1]), "/cache/bb");
    assert!(client.remove_cached(&Vec::new()).is_empty());
    let listing = vec![
        greentic_dist::cache::CacheDirEntry { name: "aa".to_string(), has_artifact: false },
        greentic_dist::cache::CacheDirEntry { name: "bb".to_string(), has_artifact: true },
    ];
    assert_eq!(client.gc(&listing), vec!["sha256:aa".to_string()]);
}

#[test]
fn lock_entry_reference_falls_back() {
    let e = object(Some("a"), Some("b"), Some("c")).to_resolved();
    assert_eq!((e.reference.as_deref(), e.digest.as_deref()), (Some("a"), Some("c")));
    let e = object(None, Some("b"), Some("c")).to_resolved();
    assert_eq!((e.reference.as_deref(), e.digest.as_deref()), (Some("b"), Some("c")));
    let e = object(None, None, Some("c")).to_resolved();
    assert_eq!((e.reference.as_deref(), e.digest.as_deref()), (Some("c"), Some("c")));
    let e = object(None, None, None).to_resolved();
    assert_eq!((e.reference, e.digest), (None, None));
    let e = LockEntry::String("x".to_string()).to_resolved();
    assert_eq!((e.reference.as_deref(), e.digest), (Some("x"), None));
}

#[test]
fn flat_lockfile_is_a_list_of_entries() {
    let entries =
        read_lockfile(r#"["a", {"reference": "b", "digest": "sha256:00"}, {"ref": "c"}]"#).unwrap();
    assert_eq!(
        pairs(&entries),
        vec![(Some("a"), None), (Some("b"), Some("sha256:00")), (Some("c"), None)]
    );
    assert!(read_lockfile("[]").unwrap().is_empty());
}

#[test]
fn canonical_lockfile_holds_its_list_under_components() {
    let entries = read_lockfile(r#"{"components": ["a", {"digest": "sha256:00"}]}"#).unwrap();
    assert_eq!(pairs(&entries), vec![(Some("a"), None), (Some("sha256:00"), Some("sha256:00"))]);
    assert!(read_lockfile("{}").unwrap().is_empty());
    assert!(read_lockfile(r#"{"schema_version": null}"#).unwrap().is_empty());
    assert!(read_lockfile(r#"{"schema_version": 7, "components": []}"#).unwrap().is_empty());
}

#[test]
fn unknown_keys_are_ignored() {
    let entries = read_lockfile(
        r#"{"generator": "x", "components": [{"ref": "a", "extra": [1, 2], "name": null}]}"#,
    )
    .unwrap();
    assert_eq!(pairs(&entries), vec![(Some("a"), None)]);
}

#[test]
fn entry_without_any_key_has_no_reference() {
    let entries = read_lockfile(r#"[{"name": "only a name"}, {}]"#).unwrap();
    assert_eq!(pairs(&entries), vec![(None, None), (None, None)]);
}

#[test]
fn bad_shapes_are_refused() {
    let shape = "expected a list of entries or an object with `components`";
    for text in [
        "1",
        "\"a\"",
        "null",
        "true",
        "[1]",
        "[null]",
        "[[\"a\"]]",
        r#"[{"reference": 1}]"#,
        r#"[{"ref": "a", "digest": false}]"#,
        r#"[{"ref": "a", "name": {}}]"#,
        r#"{"components": null}"#,
        r#"{"components": "a"}"#,
        r#"{"components": {"ref": "a"}}"#,
        r#"{"components": ["a", 2]}"#,
        r#"{"schema_version": "1"}"#,
        r#"{"schema_version": -1}"#,
        r#"{"schema_version": 1.5}"#,
    ] {
        match read_lockfile(text) {
            Err(DistError::Serde(m)) => assert_eq!(m, shape, "for {text}"),
            other => panic!("unexpected result for {text}: {other:?}"),
        }
    }
}

#[test]
fn bad_json_surfaces_the_syntax_error() {
    match entries_from_json(Err("expected value at line 1 column 1".to_string())) {
        Err(DistError::Serde(m)) => assert_eq!(m, "expected value at line 1 column 1"),
        other => panic!("unexpected result: {other:?}"),
    }
    match read_lockfile("{not json") {
        Err(DistError::Serde(m)) => {
            assert_eq!(m, "key must be a string at line 1 column 2");
            assert_eq!(DistError::Serde(m).exit_code(), 2);
        }
        other => panic!("unexpected result: {other:?}"),
    }
}

#[test]
fn entries_are_read_from_the_whole_of_json() {
    let text = concat_lines(&[
        "[",
        r#"  "\u0061\n","#,
        r#"  { "ref" : "\\b", "other" : [ 1e3, -0, {}, true ] }"#,
        "]",
    ]);
    let text = text.as_str();
    let entries = read_lockfile(text).unwrap();
    assert_eq!(pairs(&entries), vec![(Some("a\n"), None), (Some("\\b"), None)]);
    let big = read_lockfile(r#"{"schema_version": 18446744073709551615}"#);
    assert!(big.unwrap().is_empty());
    assert!(read_lockfile(r#"{"schema_version": 18446744073709551616}"#).is_err());
}

#[test]
fn first_member_of_a_key_counts() {
    let members = vec![
        JsonMember { key: "ref".to_string(), value: JsonValue::String("first".to_string()) },
        JsonMember { key: "ref".to_string(), value: JsonValue::Bool(true) },
    ];
    match parse_entry(&JsonValue::Object(members)) {
        Some(LockEntry::Object(c)) => assert_eq!(c.ref_field.as_deref(), Some("first")),
        other => panic!("unexpected entry: {other:?}"),
    }
}

#[test]
fn parse_file_keeps_the_schema_version() {
    let members = vec![
        JsonMember {
            key: "schema_version".to_string(),
            value: JsonValue::Number(Some(3)),
        },
        JsonMember {
            key: "components".to_string(),
            value: JsonValue::Array(vec![JsonValue::String("a".to_string())]),
        },
    ];
    let file = parse_file(&members).unwrap();
    assert_eq!(file.schema_version, Some(3));
    assert_eq!(file.components.len(), 1);
    assert!(matches!(&file.components[0], LockEntry::String(s) if s == "a"));
    let other =
        vec![JsonMember { key: "schema_version".to_string(), value: JsonValue::Number(None) }];
    assert!(parse_file(&other).is_none());
}

#[test]
fn lock_entry_without_reference_is_invalid_input() {
    let mut world = World::default();
    let client = DistClient::new(options("/cache"));
    let entries = vec![object(None, None, None).to_resolved()];
    match pull_lock(&client, &mut world, entries) {
        Err(DistError::InvalidInput(m)) => assert_eq!(m, "lock entry missing ref"),
        other => panic!("unexpected result: {other:?}"),
    }
}

#[test]
fn offline_lock_needs_pinned_entries() {
    let mut world = World::default();
    world.files.insert("/tmp/a.wasm".to_string(), b"a".to_vec());
    let mut opts = options("/cache");
    opts.offline = true;
    let client = DistClient::new(opts);
    let entries = vec![LockEntry::String("/tmp/a.wasm".to_string()).to_resolved()];
    match pull_lock(&client, &mut world, entries) {
        Err(DistError::Offline { reference }) => assert_eq!(reference, "/tmp/a.wasm"),
        other => panic!("unexpected result: {other:?}"),
    }
    assert!(world.cache.is_empty());
}

#[test]
fn lock_keeps_order_and_the_explicit_digest() {
    let mut world = World::default();
    world.files.insert("/tmp/one.wasm".to_string(), b"one".to_vec());
    world.files.insert("/tmp/two.wasm".to_string(), b"two".to_vec());
    world.files.insert("/tmp/three.wasm".to_string(), b"three".to_vec());
    let client = DistClient::new(options("/cache"));
    let stated = "sha256:feedfacefeedfacefeedfacefeedfacefeedfacefeedfacefeedfacefeedface";
    let entries = vec![
        LockEntry::String("/tmp/two.wasm".to_string()).to_resolved(),
        object(Some("/tmp/three.wasm"), None, Some(stated)).to_resolved(),
        object(None, Some("/tmp/one.wasm"), None).to_resolved(),
    ];
    let resolved = pull_lock(&client, &mut world, entries).unwrap();
    assert_eq!(resolved.len(), 3);
    assert_eq!(resolved[0].digest, digest_for(b"two"));
    assert!(matches!(resolved[0].source, ArtifactSource::File(ref p) if p == "/tmp/two.wasm"));
    // The stated digest is not in the cache, so the reference is brought in;
    // the artifact still carries the stated digest.
    assert_eq!(resolved[1].digest, stated);
    assert!(matches!(resolved[1].source, ArtifactSource::File(ref p) if p == "/tmp/three.wasm"));
    assert_eq!(
        place(resolved[1].cache_path.as_ref().unwrap()),
        format!("/cache/{}/component.wasm", &digest_for(b"three")[7..])
    );
    assert_eq!(resolved[2].digest, digest_for(b"one"));
}

#[test]
fn lock_fails_fast() {
    let mut world = World::default();
    world.files.insert("/tmp/one.wasm".to_string(), b"one".to_vec());
    let client = DistClient::new(options("/cache"));
    let entries = vec![
        LockEntry::String("/tmp/one.wasm".to_string()).to_resolved(),
        LockEntry::String("not a ref".to_string()).to_resolved(),
        LockEntry::String("http://host/never".to_string()).to_resolved(),
    ];
    match pull_lock(&client, &mut world, entries) {
        Err(DistError::InvalidReference { reference }) => assert_eq!(reference, "not a ref"),
        other => panic!("unexpected result: {other:?}"),
    }
    assert_eq!(world.requests, 0);
    assert_eq!(world.cache.len(), 1);
}

#[test]
fn lock_retries_under_the_reference_once() {
    let client = DistClient::new(options("/cache"));
    let entries = vec![object(Some("/tmp/a.wasm"), None, Some("sha256:ab")).to_resolved()];
    let first = match client.pull_lock(entries) {
        LockTurn::Cache(t) => t,
        other => panic!("unexpected turn: {other:?}"),
    };
    assert_eq!(first.key(), "sha256:ab");
    let miss = || DistError::CacheMiss { reference: "x".to_string() };
    let second = match first.cached(Err(miss())) {
        LockTurn::Cache(t) => t,
        other => panic!("unexpected turn: {other:?}"),
    };
    assert_eq!(second.key(), "/tmp/a.wasm");
    match second.cached(Err(DistError::Io("gone".to_string()))) {
        LockTurn::Failed(DistError::Io(m)) => assert_eq!(m, "gone"),
        other => panic!("unexpected turn: {other:?}"),
    }
}

#[test]
fn empty_lock_is_finished_at_once() {
    let client = DistClient::new(options("/cache"));
    match client.pull_lock(Vec::new()) {
        LockTurn::Finished(list) => assert!(list.is_empty()),
        other => panic!("unexpected turn: {other:?}"),
    }
}

#[test]
fn default_options_allow_tags() {
    let opts = DistOptions::new("/cache".to_string(), true);
    assert!(opts.allow_tags);
    assert!(opts.offline);
    assert_eq!(opts.cache_dir, "/cache");
}

#[test]
fn padded_references_resolve_as_their_trimmed_text() {
    let mut world = World::default();
    world.files.insert("/tmp/a.wasm".to_string(), b"a".to_vec());
    world.served.insert("http://host/a.wasm".to_string(), b"a".to_vec());
    let client = DistClient::new(options("/cache"));

    let from_file = ensure_cached(&client, &mut world, "  /tmp/a.wasm\n").unwrap();
    assert_eq!(from_file.source, ArtifactSource::File("/tmp/a.wasm".to_string()));
    let from_http = ensure_cached(&client, &mut world, "\thttp://host/a.wasm ").unwrap();
    assert_eq!(from_http.source, ArtifactSource::Http("http://host/a.wasm".to_string()));
    assert_eq!(from_file.digest, digest_for(b"a"));
    assert_eq!(from_http.digest, from_file.digest);

    let padded = format!(" {}\r\n", from_file.digest);
    match client.resolve_ref(&padded, false) {
        ResolveStep::LookUp { digest, artifact } => {
            assert_eq!(digest, from_file.digest);
            assert_eq!(Some(artifact), from_file.cache_path);
        }
        other => panic!("unexpected step: {other:?}"),
    }
    match resolve_ref(&client, &mut world, " not a ref ") {
        Err(DistError::InvalidReference { reference }) => assert_eq!(reference, " not a ref "),
        other => panic!("unexpected result: {other:?}"),
    }
}

#[test]
fn results_can_be_copied_and_compared() {
    let client = DistClient::new(options("/cache"));
    let resolved = client.finish_digest("sha256:ab".to_string(), true);
    let copy = resolved.clone();
    assert_eq!(copy, resolved);
    assert_ne!(client.finish_digest("sha256:ab".to_string(), false), resolved);
    assert_eq!(client.opts.clone(), options("/cache"));
}

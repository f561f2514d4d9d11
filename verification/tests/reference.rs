use greentic_dist::error::DistError;
use greentic_dist::reference::{
    classify_reference, classify_with, trim_oci_scheme, OciReference, RefKind,
};

const HEX: &str = "0123456789abcdef0123456789abcdef0123456789abcdef0123456789abcdef";

fn pinned() -> String {
    format!("sha256:{HEX}")
}

#[test]
fn digest_is_classified_as_digest() {
    match classify_reference(&pinned(), false) {
        Ok(RefKind::Digest(d)) => assert_eq!(d, pinned()),
        other => panic!("unexpected classification: {other:?}"),
    }
}

#[test]
fn digest_wins_over_an_existing_path() {
    match classify_reference(&pinned(), true) {
        Ok(RefKind::Digest(d)) => assert_eq!(d, pinned()),
        other => panic!("unexpected classification: {other:?}"),
    }
}

#[test]
fn http_and_https_urls_are_kept_whole() {
    match classify_reference("http://example.com/component.wasm", false) {
        Ok(RefKind::Http(u)) => assert_eq!(u, "http://example.com/component.wasm"),
        other => panic!("unexpected classification: {other:?}"),
    }
    match classify_reference("https://example.com/a?b=c", true) {
        Ok(RefKind::Http(u)) => assert_eq!(u, "https://example.com/a?b=c"),
        other => panic!("unexpected classification: {other:?}"),
    }
}

#[test]
fn file_url_gives_its_local_path() {
    match classify_reference("file:///tmp/x/c.wasm", false) {
        Ok(RefKind::File(p)) => assert_eq!(p, "/tmp/x/c.wasm"),
        other => panic!("unexpected classification: {other:?}"),
    }
}

#[test]
fn file_url_with_a_remote_host_falls_through() {
    let input = "file://remote.example/tmp/c.wasm";
    match classify_reference(input, true) {
        Ok(RefKind::File(p)) => assert_eq!(p, input),
        other => panic!("unexpected classification: {other:?}"),
    }
    match classify_reference(input, false) {
        Err(DistError::InvalidReference { reference }) => assert_eq!(reference, input),
        other => panic!("unexpected classification: {other:?}"),
    }
}

#[test]
fn oci_url_loses_its_scheme() {
    match classify_reference("oci://ghcr.io/x/y:latest", false) {
        Ok(RefKind::Oci(r)) => assert_eq!(r, "ghcr.io/x/y:latest"),
        other => panic!("unexpected classification: {other:?}"),
    }
}

#[test]
fn repo_and_store_urls_are_kept_whole() {
    match classify_reference("repo://team/component", false) {
        Ok(RefKind::Repo(t)) => assert_eq!(t, "repo://team/component"),
        other => panic!("unexpected classification: {other:?}"),
    }
    match classify_reference("store://team/component", false) {
        Ok(RefKind::Store(t)) => assert_eq!(t, "store://team/component"),
        other => panic!("unexpected classification: {other:?}"),
    }
}

#[test]
fn existing_path_is_a_file() {
    match classify_reference("/tmp/x/c.wasm", true) {
        Ok(RefKind::File(p)) => assert_eq!(p, "/tmp/x/c.wasm"),
        other => panic!("unexpected classification: {other:?}"),
    }
}

#[test]
fn existing_path_wins_over_a_registry_reference() {
    match classify_reference("ghcr.io/x/y", true) {
        Ok(RefKind::File(p)) => assert_eq!(p, "ghcr.io/x/y"),
        other => panic!("unexpected classification: {other:?}"),
    }
}

#[test]
fn registry_reference_is_the_last_resort() {
    match classify_reference("ghcr.io/x/y:latest", false) {
        Ok(RefKind::Oci(r)) => assert_eq!(r, "ghcr.io/x/y:latest"),
        other => panic!("unexpected classification: {other:?}"),
    }
    let with_digest = format!("ghcr.io/x/y@{}", pinned());
    match classify_reference(&with_digest, false) {
        Ok(RefKind::Oci(r)) => assert_eq!(r, with_digest),
        other => panic!("unexpected classification: {other:?}"),
    }
}

#[test]
fn unknown_scheme_falls_through_to_the_registry_grammar() {
    match classify_reference("localhost:5000/x", false) {
        Ok(RefKind::Oci(r)) => assert_eq!(r, "localhost:5000/x"),
        other => panic!("unexpected classification: {other:?}"),
    }
}

#[test]
fn nothing_fits_is_invalid() {
    match classify_reference("not a ref", false) {
        Err(DistError::InvalidReference { reference }) => assert_eq!(reference, "not a ref"),
        other => panic!("unexpected classification: {other:?}"),
    }
    match classify_reference("", false) {
        Err(DistError::InvalidReference { reference }) => assert_eq!(reference, ""),
        other => panic!("unexpected classification: {other:?}"),
    }
    match classify_reference("Uppercase:tag", false) {
        Err(DistError::InvalidReference { reference }) => assert_eq!(reference, "Uppercase:tag"),
        other => panic!("unexpected classification: {other:?}"),
    }
}

#[test]
fn short_digest_is_read_as_a_tagged_name() {
    match classify_reference("sha256:abc", false) {
        Ok(RefKind::Oci(r)) => assert_eq!(r, "sha256:abc"),
        other => panic!("unexpected classification: {other:?}"),
    }
}

#[test]
fn classify_with_follows_the_order() {
    let file = Some("file".to_string());
    match classify_with("file:///a", &file, Some("/a".to_string()), true, true) {
        Ok(RefKind::File(p)) => assert_eq!(p, "/a"),
        other => panic!("unexpected classification: {other:?}"),
    }
    match classify_with("file:///a", &file, None, false, true) {
        Ok(RefKind::Oci(r)) => assert_eq!(r, "file:///a"),
        other => panic!("unexpected classification: {other:?}"),
    }
    let odd = Some("gopher".to_string());
    match classify_with("gopher://a", &odd, None, false, false) {
        Err(DistError::InvalidReference { reference }) => assert_eq!(reference, "gopher://a"),
        other => panic!("unexpected classification: {other:?}"),
    }
    match classify_with(&pinned(), &odd, Some("/a".to_string()), true, true) {
        Ok(RefKind::Digest(d)) => assert_eq!(d, pinned()),
        other => panic!("unexpected classification: {other:?}"),
    }
}

#[test]
fn oci_scheme_is_stripped_as_often_as_it_stands() {
    assert_eq!(trim_oci_scheme("oci://a/b"), "a/b");
    assert_eq!(trim_oci_scheme("oci://oci://a/b"), "a/b");
    assert_eq!(trim_oci_scheme("a/oci://b"), "a/oci://b");
    assert_eq!(trim_oci_scheme("oci:/a"), "oci:/a");
    assert_eq!(trim_oci_scheme("oci://"), "");
    assert_eq!(trim_oci_scheme(""), "");
}

#[test]
fn parse_splits_a_reference() {
    let r = OciReference::parse("ghcr.io/greentic/components:latest").unwrap();
    assert_eq!(r.registry, "ghcr.io");
    assert_eq!(r.repository, "greentic/components");
    assert_eq!(r.tag.as_deref(), Some("latest"));
    assert_eq!(r.digest, None);
    assert!(!r.is_pinned());
    assert_eq!(r.expected_digest(), None);
}

#[test]
fn parse_keeps_the_digest() {
    let r = OciReference::parse(&format!("test:5000/repo:tag@{}", pinned())).unwrap();
    assert_eq!(r.registry, "test:5000");
    assert_eq!(r.repository, "repo");
    assert_eq!(r.tag.as_deref(), Some("tag"));
    assert_eq!(r.digest, Some(pinned()));
    assert!(r.is_pinned());
    assert_eq!(r.expected_digest(), Some(pinned()));
}

#[test]
fn parse_defaults_the_tag_and_the_registry() {
    let r = OciReference::parse("busybox").unwrap();
    assert_eq!(r.registry, "docker.io");
    assert_eq!(r.repository, "library/busybox");
    assert_eq!(r.tag.as_deref(), Some("latest"));
}

#[test]
fn parse_gives_the_reason() {
    assert_eq!(OciReference::parse("not a ref").unwrap_err(), "invalid reference format");
    assert_eq!(
        OciReference::parse("").unwrap_err(),
        "repository name must have at least one component"
    );
    assert_eq!(
        OciReference::parse("repo@sha256:ffffffffffffffffffffffffffffffffff").unwrap_err(),
        "invalid checksum digest length"
    );
}

#[test]
fn other_algorithms_are_not_a_pin() {
    let hex128 = "f".repeat(128);
    let r = OciReference::parse(&format!("ghcr.io/x/y@sha512:{hex128}")).unwrap();
    assert!(!r.is_pinned());
    assert_eq!(r.expected_digest(), Some(format!("sha256:sha512:{hex128}")));
}

const EMPTY_DIGEST: &str =
    "sha256:e3b0c44298fc1c149afbf4c8996fb92427ae41e4649b934ca495991b7852b855";

#[test]
fn digest_with_a_leading_space_is_a_digest() {
    let padded = format!(" {EMPTY_DIGEST}");
    for path_exists in [false, true] {
        assert_eq!(
            classify_reference(&padded, path_exists),
            Ok(RefKind::Digest(EMPTY_DIGEST.to_string()))
        );
    }
}

#[test]
fn white_space_around_a_reference_does_not_count() {
    assert_eq!(
        classify_reference(&format!("\t{EMPTY_DIGEST} \r\n"), false),
        Ok(RefKind::Digest(EMPTY_DIGEST.to_string()))
    );
    assert_eq!(
        classify_reference("  https://example.com/a  ", false),
        Ok(RefKind::Http("https://example.com/a".to_string()))
    );
    assert_eq!(
        classify_reference("\nfile:///tmp/x/c.wasm\n", false),
        Ok(RefKind::File("/tmp/x/c.wasm".to_string()))
    );
    assert_eq!(
        classify_reference(" oci://ghcr.io/x/y:latest", false),
        Ok(RefKind::Oci("ghcr.io/x/y:latest".to_string()))
    );
    assert_eq!(
        classify_reference("repo://team/x\u{a0}", false),
        Ok(RefKind::Repo("repo://team/x".to_string()))
    );
    assert_eq!(
        classify_reference("\u{3000}store://team/x", false),
        Ok(RefKind::Store("store://team/x".to_string()))
    );
    assert_eq!(
        classify_reference(" /tmp/x/c.wasm ", true),
        Ok(RefKind::File("/tmp/x/c.wasm".to_string()))
    );
    assert_eq!(
        classify_reference(" ghcr.io/x/y:latest ", false),
        Ok(RefKind::Oci("ghcr.io/x/y:latest".to_string()))
    );
}

#[test]
fn invalid_reference_names_the_input_as_given() {
    assert_eq!(
        classify_reference("  not a ref ", false),
        Err(DistError::InvalidReference { reference: "  not a ref ".to_string() })
    );
    assert_eq!(
        classify_reference("   ", false),
        Err(DistError::InvalidReference { reference: "   ".to_string() })
    );
}

#[test]
fn white_space_inside_a_reference_stays() {
    // the digest test looks at the prefix and the length only
    let inner = format!("sha256: {}", &EMPTY_DIGEST[8..]);
    assert_eq!(inner.len(), 71);
    assert_eq!(classify_reference(&inner, false), Ok(RefKind::Digest(inner.clone())));
    assert_eq!(
        classify_reference(" a b ", true),
        Ok(RefKind::File("a b".to_string()))
    );
}

#[test]
fn digest_test_is_on_the_trimmed_text() {
    // 71 bytes with the prefix, but only 70 once the space is gone
    let short = format!("{} ", &EMPTY_DIGEST[..70]);
    assert!(greentic_dist::digest::is_digest(&short));
    assert!(!matches!(classify_reference(&short, false), Ok(RefKind::Digest(_))));
}

#[test]
fn classify_with_trims_too() {
    let none = None;
    assert_eq!(
        classify_with(&format!(" {EMPTY_DIGEST} "), &none, None, false, false),
        Ok(RefKind::Digest(EMPTY_DIGEST.to_string()))
    );
    assert_eq!(
        classify_with(" a/b ", &none, None, true, false),
        Ok(RefKind::File("a/b".to_string()))
    );
    assert_eq!(
        classify_with(" a/b ", &none, None, false, false),
        Err(DistError::InvalidReference { reference: " a/b ".to_string() })
    );
}

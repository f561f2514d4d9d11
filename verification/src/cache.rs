//! The layout of the content-addressed cache.
//!
//! Every entry is a directory under the cache root, named by the digest
//! without its `sha256:` prefix. It holds the artifact, `component.wasm`,
//! and a sidecar, `metadata.json`. This module names those places and says
//! what a write puts there; touching the disk is the caller's part.

use crate::digest::{
    has_sha256_prefix, normalize_digest, normalize_spec, sha256_prefix, trim_digest_prefix,
    trim_prefix_spec,
};
use crate::json::{
    json_read, json_written, member_value, optional_text, parse_json_bytes, required_text,
    required_text_member, required_unsigned, required_unsigned_member, text_member, written_view,
    write_json_pretty, JsonMember, JsonValue,
};
use crate::text::{clone_opt, opt_chars};
use vstd::prelude::*;
use vstd::string::*;

verus! {

/// A place in the cache: the root, the entry's directory under it and, for
/// a file, the file's name in that directory.
#[derive(Clone, Debug, PartialEq, Eq)]
pub struct CachePath {
    pub root: String,
    pub dir: String,
    pub file: Option<String>,
}

/// A [`CachePath`] with its strings as character sequences.
pub struct CachePathView {
    pub root: Seq<char>,
    pub dir: Seq<char>,
    pub file: Option<Seq<char>>,
}

impl View for CachePath {
    type V = CachePathView;

    open spec fn view(&self) -> CachePathView {
        CachePathView { root: self.root@, dir: self.dir@, file: opt_chars(self.file) }
    }
}

impl CachePath {
    /// A copy of the path.
    pub fn duplicate(&self) -> (out: CachePath)
        ensures
            out@ == self@,
    {
        CachePath { root: self.root.clone(), dir: self.dir.clone(), file: clone_opt(&self.file) }
    }
}

/// The view of an optional cache path.
pub open spec fn opt_path(o: Option<CachePath>) -> Option<CachePathView> {
    match o {
        Some(p) => Some(p@),
        None => None,
    }
}

/// The directory of an entry under `root`.
pub open spec fn entry_dir(root: Seq<char>, name: Seq<char>) -> CachePathView {
    CachePathView { root, dir: name, file: None }
}

/// The artifact file of an entry under `root`.
pub open spec fn entry_artifact(root: Seq<char>, name: Seq<char>) -> CachePathView {
    CachePathView { root, dir: name, file: Some("component.wasm"@) }
}

/// The sidecar file of an entry under `root`.
pub open spec fn entry_metadata(root: Seq<char>, name: Seq<char>) -> CachePathView {
    CachePathView { root, dir: name, file: Some("metadata.json"@) }
}

/// The media type taken for an entry whose sidecar does not give one.
pub open spec fn fallback_media_type() -> Seq<char> {
    "application/octet-stream"@
}

/// What the sidecar of an entry records.
#[derive(Clone, Debug, PartialEq, Eq)]
pub struct CacheMetadata {
    pub original_reference: String,
    pub resolved_digest: String,
    pub media_type: String,
    pub fetched_at_unix_seconds: u64,
    pub size_bytes: u64,
    pub manifest_digest: Option<String>,
}

/// A [`CacheMetadata`] with its strings as character sequences.
pub struct CacheMetadataView {
    pub original_reference: Seq<char>,
    pub resolved_digest: Seq<char>,
    pub media_type: Seq<char>,
    pub fetched_at_unix_seconds: u64,
    pub size_bytes: u64,
    pub manifest_digest: Option<Seq<char>>,
}

impl View for CacheMetadata {
    type V = CacheMetadataView;

    open spec fn view(&self) -> CacheMetadataView {
        CacheMetadataView {
            original_reference: self.original_reference@,
            resolved_digest: self.resolved_digest@,
            media_type: self.media_type@,
            fetched_at_unix_seconds: self.fetched_at_unix_seconds,
            size_bytes: self.size_bytes,
            manifest_digest: opt_chars(self.manifest_digest),
        }
    }
}

/// The view of an optional sidecar.
pub open spec fn opt_metadata(o: Option<CacheMetadata>) -> Option<CacheMetadataView> {
    match o {
        Some(m) => Some(m@),
        None => None,
    }
}

/// The sidecar that the members of a JSON object stand for. The
/// reference, the digest, the media type, the time and the size have to be
/// there; the manifest digest may be missing or null. Other members are
/// not looked at.
pub open spec fn metadata_of_members(members: Seq<JsonMember>) -> Option<CacheMetadataView> {
    let original_reference = required_text(members, "original_reference"@);
    let resolved_digest = required_text(members, "resolved_digest"@);
    let media_type = required_text(members, "media_type"@);
    let fetched_at = required_unsigned(members, "fetched_at_unix_seconds"@);
    let size_bytes = required_unsigned(members, "size_bytes"@);
    let manifest_digest = optional_text(members, "manifest_digest"@);
    if original_reference is Some && resolved_digest is Some && media_type is Some
        && fetched_at is Some && size_bytes is Some && manifest_digest is Some {
        Some(
            CacheMetadataView {
                original_reference: original_reference->0,
                resolved_digest: resolved_digest->0,
                media_type: media_type->0,
                fetched_at_unix_seconds: fetched_at->0,
                size_bytes: size_bytes->0,
                manifest_digest: manifest_digest->0,
            },
        )
    } else {
        None
    }
}

/// The sidecar that a JSON document stands for, if it is one.
pub open spec fn metadata_of(doc: JsonValue) -> Option<CacheMetadataView> {
    match doc {
        JsonValue::Object(members) => metadata_of_members(members@),
        _ => None,
    }
}

/// The sidecar that the bytes of a file stand for: that of the document
/// which `serde_json` reads from them. Bytes that are no JSON, or no
/// sidecar, stand for none.
pub open spec fn metadata_of_bytes(bytes: Seq<u8>) -> Option<CacheMetadataView> {
    match json_read(bytes) {
        Ok(doc) => metadata_of(doc),
        Err(_) => None,
    }
}

/// `member` has the key `key` and holds the string `text`.
pub open spec fn is_text_member(member: JsonMember, key: Seq<char>, text: Seq<char>) -> bool {
    member.key@ == key && member.value is String && member.value->String_0@ == text
}

/// `member` has the key `key` and holds the whole number `n`.
pub open spec fn is_number_member(member: JsonMember, key: Seq<char>, n: u64) -> bool {
    member.key@ == key && member.value == JsonValue::Number(Some(n))
}

/// `doc` is the document that is written for the sidecar `m`: an object
/// of six members, one for each field and in the order of the fields, with
/// the manifest digest as null where there is none.
pub open spec fn is_sidecar_doc(doc: JsonValue, m: CacheMetadataView) -> bool {
    &&& doc is Object
    &&& doc->Object_0@.len() == 6
    &&& is_text_member(doc->Object_0@[0], "original_reference"@, m.original_reference)
    &&& is_text_member(doc->Object_0@[1], "resolved_digest"@, m.resolved_digest)
    &&& is_text_member(doc->Object_0@[2], "media_type"@, m.media_type)
    &&& is_number_member(
        doc->Object_0@[3],
        "fetched_at_unix_seconds"@,
        m.fetched_at_unix_seconds,
    )
    &&& is_number_member(doc->Object_0@[4], "size_bytes"@, m.size_bytes)
    &&& doc->Object_0@[5].key@ == "manifest_digest"@
    &&& match m.manifest_digest {
        Some(d) => doc->Object_0@[5].value is String && doc->Object_0@[5].value->String_0@ == d,
        None => doc->Object_0@[5].value is Null,
    }
}

impl CacheMetadata {
    /// Reads a sidecar from its JSON document.
    pub fn from_json(doc: &JsonValue) -> (res: Option<CacheMetadata>)
        ensures
            opt_metadata(res) == metadata_of(*doc),
    {
        let members = match doc {
            JsonValue::Object(members) => members,
            _ => {
                return None;
            },
        };
        let original_reference = required_text_member(members, "original_reference");
        let resolved_digest = required_text_member(members, "resolved_digest");
        let media_type = required_text_member(members, "media_type");
        let fetched_at = required_unsigned_member(members, "fetched_at_unix_seconds");
        let size_bytes = required_unsigned_member(members, "size_bytes");
        let manifest_digest = text_member(members, "manifest_digest");
        match (
            original_reference,
            resolved_digest,
            media_type,
            fetched_at,
            size_bytes,
            manifest_digest,
        ) {
            (
                Some(original_reference),
                Some(resolved_digest),
                Some(media_type),
                Some(fetched_at_unix_seconds),
                Some(size_bytes),
                Some(manifest_digest),
            ) => Some(
                CacheMetadata {
                    original_reference,
                    resolved_digest,
                    media_type,
                    fetched_at_unix_seconds,
                    size_bytes,
                    manifest_digest,
                },
            ),
            _ => None,
        }
    }

    /// The JSON document of the sidecar: an object with one member for
    /// each field, the manifest digest as null where there is none.
    /// Reading the document gives the sidecar back.
    pub fn to_json(&self) -> (doc: JsonValue)
        ensures
            is_sidecar_doc(doc, self@),
            metadata_of(doc) == Some(self@),
    {
        let mut members: Vec<JsonMember> = Vec::new();
        members.push(
            JsonMember {
                key: String::from_str("original_reference"),
                value: JsonValue::String(self.original_reference.clone()),
            },
        );
        members.push(
            JsonMember {
                key: String::from_str("resolved_digest"),
                value: JsonValue::String(self.resolved_digest.clone()),
            },
        );
        members.push(
            JsonMember {
                key: String::from_str("media_type"),
                value: JsonValue::String(self.media_type.clone()),
            },
        );
        members.push(
            JsonMember {
                key: String::from_str("fetched_at_unix_seconds"),
                value: JsonValue::Number(Some(self.fetched_at_unix_seconds)),
            },
        );
        members.push(
            JsonMember {
                key: String::from_str("size_bytes"),
                value: JsonValue::Number(Some(self.size_bytes)),
            },
        );
        members.push(
            JsonMember {
                key: String::from_str("manifest_digest"),
                value: match &self.manifest_digest {
                    Some(d) => JsonValue::String(d.clone()),
                    None => JsonValue::Null,
                },
            },
        );
        proof {
            lemma_sidecar_keys_differ();
            let ms = members@;
            reveal_with_fuel(member_value, 7);
            assert(ms.skip(1).skip(1) =~= ms.skip(2));
            assert(ms.skip(2).skip(1) =~= ms.skip(3));
            assert(ms.skip(3).skip(1) =~= ms.skip(4));
            assert(ms.skip(4).skip(1) =~= ms.skip(5));
            assert(member_value(ms, "original_reference"@) == Some(ms[0].value));
            assert(member_value(ms, "resolved_digest"@) == Some(ms[1].value));
            assert(member_value(ms, "media_type"@) == Some(ms[2].value));
            assert(member_value(ms, "fetched_at_unix_seconds"@) == Some(ms[3].value));
            assert(member_value(ms, "size_bytes"@) == Some(ms[4].value));
            assert(member_value(ms, "manifest_digest"@) == Some(ms[5].value));
        }
        JsonValue::Object(members)
    }

    /// Reads a sidecar from the bytes of its file, if they are one. The
    /// bytes are read as JSON by `serde_json`; what the document means is
    /// [`CacheMetadata::from_json`].
    pub fn from_bytes(bytes: &[u8]) -> (res: Option<CacheMetadata>)
        ensures
            opt_metadata(res) == metadata_of_bytes(bytes@),
    {
        match parse_json_bytes(bytes) {
            Ok(doc) => CacheMetadata::from_json(&doc),
            Err(_) => None,
        }
    }

    /// The bytes to write to the sidecar's file: what `serde_json`
    /// writes, with indentation, for the sidecar's document; or the text
    /// of its error.
    pub fn to_bytes(&self) -> (res: Result<Vec<u8>, String>)
        ensures
            exists|doc: JsonValue|
                is_sidecar_doc(doc, self@) && written_view(res) == #[trigger] json_written(doc),
    {
        let doc = self.to_json();
        write_json_pretty(&doc)
    }
}

/// The keys of a sidecar differ from one another.
proof fn lemma_sidecar_keys_differ()
    ensures
        "original_reference"@ != "resolved_digest"@,
        "original_reference"@ != "media_type"@,
        "original_reference"@ != "fetched_at_unix_seconds"@,
        "original_reference"@ != "size_bytes"@,
        "original_reference"@ != "manifest_digest"@,
        "resolved_digest"@ != "media_type"@,
        "resolved_digest"@ != "fetched_at_unix_seconds"@,
        "resolved_digest"@ != "size_bytes"@,
        "resolved_digest"@ != "manifest_digest"@,
        "media_type"@ != "fetched_at_unix_seconds"@,
        "media_type"@ != "size_bytes"@,
        "media_type"@ != "manifest_digest"@,
        "fetched_at_unix_seconds"@ != "size_bytes"@,
        "fetched_at_unix_seconds"@ != "manifest_digest"@,
        "size_bytes"@ != "manifest_digest"@,
{
    reveal_strlit("original_reference");
    reveal_strlit("resolved_digest");
    reveal_strlit("media_type");
    reveal_strlit("fetched_at_unix_seconds");
    reveal_strlit("size_bytes");
    reveal_strlit("manifest_digest");
    assert("original_reference"@[0] == 'o');
    assert("resolved_digest"@[0] == 'r');
    assert("media_type"@[0] == 'm' && "media_type"@[1] == 'e');
    assert("fetched_at_unix_seconds"@[0] == 'f');
    assert("size_bytes"@[0] == 's');
    assert("manifest_digest"@[0] == 'm' && "manifest_digest"@[1] == 'a');
}

/// One write to the cache: create `dir`, write `data` to `artifact`, then
/// write `metadata` to `sidecar`.
#[derive(Clone, Debug, PartialEq, Eq)]
pub struct CacheWrite {
    pub dir: CachePath,
    pub artifact: CachePath,
    pub sidecar: CachePath,
    pub data: Vec<u8>,
    pub metadata: CacheMetadata,
}

/// A [`CacheWrite`] as plain values.
pub struct CacheWriteView {
    pub dir: CachePathView,
    pub artifact: CachePathView,
    pub sidecar: CachePathView,
    pub data: Seq<u8>,
    pub metadata: CacheMetadataView,
}

impl View for CacheWrite {
    type V = CacheWriteView;

    open spec fn view(&self) -> CacheWriteView {
        CacheWriteView {
            dir: self.dir@,
            artifact: self.artifact@,
            sidecar: self.sidecar@,
            data: self.data@,
            metadata: self.metadata@,
        }
    }
}

/// The write that stores `data` under the entry `name` of `root`.
pub open spec fn write_spec(
    root: Seq<char>,
    name: Seq<char>,
    digest: Seq<char>,
    media_type: Seq<char>,
    data: Seq<u8>,
    reference: Seq<char>,
    manifest_digest: Option<Seq<char>>,
    now: u64,
) -> CacheWriteView {
    CacheWriteView {
        dir: entry_dir(root, name),
        artifact: entry_artifact(root, name),
        sidecar: entry_metadata(root, name),
        data,
        metadata: CacheMetadataView {
            original_reference: reference,
            resolved_digest: digest,
            media_type,
            fetched_at_unix_seconds: now,
            size_bytes: data.len() as u64,
            manifest_digest,
        },
    }
}

/// Why a cache write did not complete.
#[derive(Clone, Debug, PartialEq, Eq)]
pub enum CacheWriteFailure {
    /// The directory or one of the files could not be written.
    Io(String),
    /// The sidecar could not be serialized.
    Serde(String),
}

/// One directory found under the cache root.
#[derive(Clone, Debug, PartialEq, Eq)]
pub struct CacheDirEntry {
    /// The directory's name.
    pub name: String,
    /// Whether the directory holds `component.wasm`.
    pub has_artifact: bool,
}

/// The digest that a directory name stands for.
pub open spec fn digest_of_name(name: Seq<char>) -> Seq<char> {
    sha256_prefix() + name
}

/// The digests of a list of directory names, in the same order.
pub open spec fn digests_of_names(names: Seq<String>) -> Seq<Seq<char>> {
    Seq::new(names.len(), |i: int| digest_of_name(names[i]@))
}

/// The directory name under which `digest` is stored: its normal form
/// without the prefix.
pub open spec fn dir_name_spec(digest: Seq<char>) -> Seq<char> {
    trim_prefix_spec(normalize_spec(digest))
}

/// Normalizing never leaves a digest without the prefix, so the directory
/// name is what follows the prefix of the normal form.
pub proof fn lemma_dir_name(digest: Seq<char>)
    ensures
        has_sha256_prefix(normalize_spec(digest)),
        sha256_prefix() + dir_name_spec(digest) == normalize_spec(digest),
        has_sha256_prefix(digest) ==> dir_name_spec(digest) == digest.skip(7),
        !has_sha256_prefix(digest) ==> dir_name_spec(digest) == digest,
{
    let n = normalize_spec(digest);
    if has_sha256_prefix(digest) {
        assert(sha256_prefix() + digest.skip(7) =~= digest);
    } else {
        assert(n.subrange(0, 7) =~= sha256_prefix());
        assert(n.skip(7) =~= digest);
    }
}

/// A directory's name is the directory name of its own digest: listing the
/// cache and looking an entry up by the listed digest meet in one place.
pub proof fn lemma_listed_digest_names_its_dir(name: Seq<char>)
    ensures
        dir_name_spec(digest_of_name(name)) == name,
        trim_prefix_spec(digest_of_name(name)) == name,
{
    let d = digest_of_name(name);
    assert(d.subrange(0, 7) =~= sha256_prefix());
    assert(d.skip(7) =~= name);
}

/// Puts `sha256:` in front of a directory name.
pub fn digest_for_dir_name(name: &str) -> (out: String)
    ensures
        out@ == digest_of_name(name@),
{
    proof {
        reveal_strlit("sha256:");
        assert("sha256:"@ =~= sha256_prefix());
    }
    String::from_str("sha256:").concat(name)
}

/// The cache as the resolver sees it: entries are found by the normal
/// form of a digest.
#[derive(Clone, Debug, PartialEq, Eq)]
pub struct ComponentCache {
    pub base: String,
}

impl ComponentCache {
    /// A cache rooted at `base`.
    pub fn new(base: String) -> (cache: ComponentCache)
        ensures
            cache.base@ == base@,
    {
        ComponentCache { base }
    }

    /// The directory of the entry for `digest`.
    pub fn component_dir(&self, digest: &str) -> (path: CachePath)
        ensures
            path@ == entry_dir(self.base@, dir_name_spec(digest@)),
    {
        let normalized = normalize_digest(digest);
        let name = trim_digest_prefix(normalized.as_str()).to_owned();
        CachePath { root: self.base.clone(), dir: name, file: None }
    }

    /// The artifact file of the entry for `digest`.
    pub fn component_path(&self, digest: &str) -> (path: CachePath)
        ensures
            path@ == entry_artifact(self.base@, dir_name_spec(digest@)),
    {
        let normalized = normalize_digest(digest);
        let name = trim_digest_prefix(normalized.as_str()).to_owned();
        CachePath {
            root: self.base.clone(),
            dir: name,
            file: Some(String::from_str("component.wasm")),
        }
    }

    /// The sidecar file of the entry for `digest`.
    pub fn metadata_path(&self, digest: &str) -> (path: CachePath)
        ensures
            path@ == entry_metadata(self.base@, dir_name_spec(digest@)),
    {
        let normalized = normalize_digest(digest);
        let name = trim_digest_prefix(normalized.as_str()).to_owned();
        CachePath {
            root: self.base.clone(),
            dir: name,
            file: Some(String::from_str("metadata.json")),
        }
    }

    /// The artifact file of the entry for `digest` if it is there.
    /// `present` says whether that file exists.
    pub fn existing_component(&self, digest: &str, present: bool) -> (path: Option<CachePath>)
        ensures
            opt_path(path) == if present {
                Some(entry_artifact(self.base@, dir_name_spec(digest@)))
            } else {
                None
            },
    {
        if present {
            Some(self.component_path(digest))
        } else {
            None
        }
    }

    /// The write that stores `data` as the entry for `digest`, with a
    /// sidecar that records where the bytes came from.
    pub fn write_component(
        &self,
        digest: &str,
        data: Vec<u8>,
        reference: &str,
        now_unix_seconds: u64,
    ) -> (write: CacheWrite)
        ensures
            write@ == write_spec(
                self.base@,
                dir_name_spec(digest@),
                digest@,
                fallback_media_type(),
                data@,
                reference@,
                None,
                now_unix_seconds,
            ),
    {
        let size: u64 = data.len() as u64;
        CacheWrite {
            dir: self.component_dir(digest),
            artifact: self.component_path(digest),
            sidecar: self.metadata_path(digest),
            data,
            metadata: CacheMetadata {
                original_reference: reference.to_owned(),
                resolved_digest: digest.to_owned(),
                media_type: String::from_str("application/octet-stream"),
                fetched_at_unix_seconds: now_unix_seconds,
                size_bytes: size,
                manifest_digest: None,
            },
        }
    }

    /// The digests of the entries whose directory names are `names`, in
    /// the same order.
    pub fn list_digests(&self, names: &Vec<String>) -> (digests: Vec<String>)
        ensures
            crate::text::list_chars(digests@) == digests_of_names(names@),
    {
        let mut digests: Vec<String> = Vec::new();
        let mut i: usize = 0;
        while i < names.len()
            invariant
                i <= names.len(),
                digests@.len() == i,
                forall|j: int| 0 <= j < i ==> digests@[j]@ == digest_of_name(names@[j]@),
            decreases names.len() - i,
        {
            digests.push(digest_for_dir_name(names[i].as_str()));
            i = i + 1;
        }
        assert(crate::text::list_chars(digests@) =~= digests_of_names(names@));
        digests
    }
}

/// The cache as the registry resolver sees it: entries are found by the
/// digest as it stands, with the prefix or a leading `@` taken off.
#[derive(Clone, Debug, PartialEq, Eq)]
pub struct OciCache {
    pub root: String,
}

impl OciCache {
    /// A cache rooted at `root`.
    pub fn new(root: String) -> (cache: OciCache)
        ensures
            cache.root@ == root@,
    {
        OciCache { root }
    }

    /// The directory of the entry for `digest`.
    pub fn artifact_dir(&self, digest: &str) -> (path: CachePath)
        ensures
            path@ == entry_dir(self.root@, trim_prefix_spec(digest@)),
    {
        CachePath {
            root: self.root.clone(),
            dir: trim_digest_prefix(digest).to_owned(),
            file: None,
        }
    }

    /// The artifact file of the entry for `digest`.
    pub fn artifact_path(&self, digest: &str) -> (path: CachePath)
        ensures
            path@ == entry_artifact(self.root@, trim_prefix_spec(digest@)),
    {
        CachePath {
            root: self.root.clone(),
            dir: trim_digest_prefix(digest).to_owned(),
            file: Some(String::from_str("component.wasm")),
        }
    }

    /// The sidecar file of the entry for `digest`.
    pub fn metadata_path(&self, digest: &str) -> (path: CachePath)
        ensures
            path@ == entry_metadata(self.root@, trim_prefix_spec(digest@)),
    {
        CachePath {
            root: self.root.clone(),
            dir: trim_digest_prefix(digest).to_owned(),
            file: Some(String::from_str("metadata.json")),
        }
    }

    /// The write that stores `data` as the entry for `digest`, with its
    /// sidecar.
    pub fn write(
        &self,
        digest: &str,
        media_type: &str,
        data: Vec<u8>,
        reference: &str,
        manifest_digest: Option<String>,
        now_unix_seconds: u64,
    ) -> (write: CacheWrite)
        ensures
            write@ == write_spec(
                self.root@,
                trim_prefix_spec(digest@),
                digest@,
                media_type@,
                data@,
                reference@,
                opt_chars(manifest_digest),
                now_unix_seconds,
            ),
    {
        let size: u64 = data.len() as u64;
        CacheWrite {
            dir: self.artifact_dir(digest),
            artifact: self.artifact_path(digest),
            sidecar: self.metadata_path(digest),
            data,
            metadata: CacheMetadata {
                original_reference: reference.to_owned(),
                resolved_digest: digest.to_owned(),
                media_type: media_type.to_owned(),
                fetched_at_unix_seconds: now_unix_seconds,
                size_bytes: size,
                manifest_digest,
            },
        }
    }
}

/// A [`CacheDirEntry`] with its name as a character sequence.
pub struct CacheDirEntryView {
    pub name: Seq<char>,
    pub has_artifact: bool,
}

impl View for CacheDirEntry {
    type V = CacheDirEntryView;

    open spec fn view(&self) -> CacheDirEntryView {
        CacheDirEntryView { name: self.name@, has_artifact: self.has_artifact }
    }
}

/// The views of a listing of the cache root.
pub open spec fn listing_views(entries: Seq<CacheDirEntry>) -> Seq<CacheDirEntryView> {
    Seq::new(entries.len(), |i: int| entries[i]@)
}

/// The digests of the dangling directories among the first `n` of a
/// listing, in the order of the listing. A directory dangles when it does
/// not hold the artifact.
pub open spec fn dangling_upto(entries: Seq<CacheDirEntryView>, n: int) -> Seq<Seq<char>>
    decreases n,
{
    if n <= 0 {
        Seq::empty()
    } else if entries[n - 1].has_artifact {
        dangling_upto(entries, n - 1)
    } else {
        dangling_upto(entries, n - 1).push(digest_of_name(entries[n - 1].name))
    }
}

/// The digests that a collection removes from a cache with this listing.
pub open spec fn dangling(entries: Seq<CacheDirEntryView>) -> Seq<Seq<char>> {
    dangling_upto(entries, entries.len() as int)
}

/// The directories among the first `n` of a listing that a collection
/// leaves in place.
pub open spec fn kept_upto(entries: Seq<CacheDirEntryView>, n: int) -> Seq<CacheDirEntryView>
    decreases n,
{
    if n <= 0 {
        Seq::empty()
    } else if entries[n - 1].has_artifact {
        kept_upto(entries, n - 1).push(entries[n - 1])
    } else {
        kept_upto(entries, n - 1)
    }
}

/// The listing of the cache after a collection.
pub open spec fn after_gc(entries: Seq<CacheDirEntryView>) -> Seq<CacheDirEntryView> {
    kept_upto(entries, entries.len() as int)
}

/// What holds of the first `n` directories of a listing after a
/// collection.
pub proof fn lemma_gc_upto(entries: Seq<CacheDirEntryView>, n: int)
    requires
        0 <= n <= entries.len(),
    ensures
        dangling_upto(entries, n).len() + kept_upto(entries, n).len() == n,
        forall|k: int|
            0 <= k < kept_upto(entries, n).len() ==> (#[trigger] kept_upto(
                entries,
                n,
            )[k]).has_artifact,
        forall|e: CacheDirEntryView|
            kept_upto(entries, n).contains(e) <==> e.has_artifact && exists|i: int|
                0 <= i < n && #[trigger] entries[i] == e,
        forall|d: Seq<char>|
            dangling_upto(entries, n).contains(d) <==> exists|i: int|
                0 <= i < n && !(#[trigger] entries[i]).has_artifact && digest_of_name(
                    entries[i].name,
                ) == d,
    decreases n,
{
    if n > 0 {
        lemma_gc_upto(entries, n - 1);
        let last = entries[n - 1];
        let kept_before = kept_upto(entries, n - 1);
        let kept_now = kept_upto(entries, n);
        let gone_before = dangling_upto(entries, n - 1);
        let gone_now = dangling_upto(entries, n);
        assert forall|e: CacheDirEntryView| kept_now.contains(e) <==> e.has_artifact && exists|
            i: int,
        | 0 <= i < n && #[trigger] entries[i] == e by {
            if last.has_artifact {
                assert(kept_now == kept_before.push(last));
                if kept_now.contains(e) {
                    let k = choose|k: int| 0 <= k < kept_now.len() && kept_now[k] == e;
                    if k < kept_before.len() {
                        assert(kept_before[k] == e);
                        assert(kept_before.contains(e));
                    } else {
                        assert(entries[n - 1] == e);
                    }
                }
                if e.has_artifact && exists|i: int| 0 <= i < n && #[trigger] entries[i] == e {
                    let i = choose|i: int| 0 <= i < n && #[trigger] entries[i] == e;
                    if i < n - 1 {
                        assert(kept_before.contains(e));
                        let k = choose|k: int| 0 <= k < kept_before.len() && kept_before[k] == e;
                        assert(kept_now[k] == e);
                    } else {
                        assert(kept_now[kept_before.len() as int] == e);
                    }
                }
            } else {
                if e.has_artifact && exists|i: int| 0 <= i < n && #[trigger] entries[i] == e {
                    let i = choose|i: int| 0 <= i < n && #[trigger] entries[i] == e;
                    assert(i < n - 1);
                }
            }
        }
        assert forall|d: Seq<char>| gone_now.contains(d) <==> exists|i: int|
            0 <= i < n && !(#[trigger] entries[i]).has_artifact && digest_of_name(entries[i].name)
                == d by {
            if !last.has_artifact {
                assert(gone_now == gone_before.push(digest_of_name(last.name)));
                if gone_now.contains(d) {
                    let k = choose|k: int| 0 <= k < gone_now.len() && gone_now[k] == d;
                    if k < gone_before.len() {
                        assert(gone_before[k] == d);
                        assert(gone_before.contains(d));
                    } else {
                        assert(!entries[n - 1].has_artifact && digest_of_name(entries[n - 1].name)
                            == d);
                    }
                }
                if exists|i: int|
                    0 <= i < n && !(#[trigger] entries[i]).has_artifact && digest_of_name(
                        entries[i].name,
                    ) == d {
                    let i = choose|i: int|
                        0 <= i < n && !(#[trigger] entries[i]).has_artifact && digest_of_name(
                            entries[i].name,
                        ) == d;
                    if i < n - 1 {
                        assert(gone_before.contains(d));
                        let k = choose|k: int| 0 <= k < gone_before.len() && gone_before[k] == d;
                        assert(gone_now[k] == d);
                    } else {
                        assert(gone_now[gone_before.len() as int] == d);
                    }
                }
            } else {
                if exists|i: int|
                    0 <= i < n && !(#[trigger] entries[i]).has_artifact && digest_of_name(
                        entries[i].name,
                    ) == d {
                    let i = choose|i: int|
                        0 <= i < n && !(#[trigger] entries[i]).has_artifact && digest_of_name(
                            entries[i].name,
                        ) == d;
                    assert(i < n - 1);
                }
            }
        }
    }
}

/// A collection is sound. After it no directory of the cache lacks the
/// artifact; the directories left are those that held it; the digests
/// handed back are those of the directories that did not, each of which
/// is removed; and nothing else is touched.
pub proof fn lemma_gc_sound(entries: Seq<CacheDirEntryView>)
    ensures
        dangling(entries).len() + after_gc(entries).len() == entries.len(),
        forall|k: int|
            0 <= k < after_gc(entries).len() ==> (#[trigger] after_gc(entries)[k]).has_artifact,
        forall|e: CacheDirEntryView|
            after_gc(entries).contains(e) <==> e.has_artifact && entries.contains(e),
        forall|d: Seq<char>|
            dangling(entries).contains(d) <==> exists|i: int|
                0 <= i < entries.len() && !(#[trigger] entries[i]).has_artifact && digest_of_name(
                    entries[i].name,
                ) == d,
{
    lemma_gc_upto(entries, entries.len() as int);
    assert forall|e: CacheDirEntryView|
        after_gc(entries).contains(e) <==> e.has_artifact && entries.contains(e) by {
        if entries.contains(e) {
            let i = choose|i: int| 0 <= i < entries.len() && entries[i] == e;
            assert(entries[i] == e);
        }
    }
}

impl ComponentCache {
    /// The digests to collect from a cache with this listing: those of the
    /// directories that do not hold the artifact, in the order of the
    /// listing. The directory of each is [`ComponentCache::component_dir`]
    /// of the digest, which is the directory that was listed.
    pub fn gc(&self, entries: &Vec<CacheDirEntry>) -> (removed: Vec<String>)
        ensures
            crate::text::list_chars(removed@) == dangling(listing_views(entries@)),
    {
        let ghost views = listing_views(entries@);
        let mut removed: Vec<String> = Vec::new();
        let mut i: usize = 0;
        while i < entries.len()
            invariant
                i <= entries.len(),
                views == listing_views(entries@),
                crate::text::list_chars(removed@) == dangling_upto(views, i as int),
            decreases entries.len() - i,
        {
            assert(views[i as int] == entries@[i as int]@);
            if !entries[i].has_artifact {
                let ghost before = crate::text::list_chars(removed@);
                removed.push(digest_for_dir_name(entries[i].name.as_str()));
                assert(crate::text::list_chars(removed@) =~= before.push(
                    digest_of_name(views[i as int].name),
                ));
            }
            i = i + 1;
        }
        removed
    }
}

} // verus!

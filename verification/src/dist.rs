//! The resolver: from a reference of any kind to an artifact in the cache.
//!
//! The resolver decides and the caller acts. [`DistClient::resolve_ref`]
//! says what has to be done for a reference; the caller does it (a look
//! into the cache, a download, a read, a registry resolution) and hands
//! what it got to the function that the step names.

use crate::cache::{
    dir_name_spec, entry_artifact, entry_dir, fallback_media_type, opt_path,
    write_spec, CacheDirEntry, CachePath, CachePathView, CacheWrite, CacheWriteFailure,
    CacheWriteView, ComponentCache,
};
use crate::digest::{
    digest_for_bytes, digest_of, is_digest_spec, normalize_digest,
    normalize_spec, sha256_prefix,
};
use crate::error::{DistError, DistErrorView, OciComponentError};
use crate::lockfile::{
    begin_spec, entry_views, start_pull, LockResolvedEntry, LockRunView, LockTurn,
};
use crate::oci::{
    default_layer_types, default_manifest_types, ComponentResolveOptions, OciComponentResolver,
    ResolvedComponent,
};
use crate::reference::{
    classified_view, classify_outcome, classify_reference, classify_spec, oci_reference_parse,
    url_scheme_of, RefKind, RefKindView,
};
use crate::text::{list_chars, trimmed};
use vstd::prelude::*;
use vstd::string::*;

verus! {

/// What governs the resolver.
#[derive(Clone, Debug, PartialEq, Eq)]
pub struct DistOptions {
    pub cache_dir: String,
    pub allow_tags: bool,
    pub offline: bool,
}

impl DistOptions {
    /// The default options for a cache at `cache_dir`: tags allowed.
    pub fn new(cache_dir: String, offline: bool) -> (opts: DistOptions)
        ensures
            opts.cache_dir@ == cache_dir@,
            opts.allow_tags,
            opts.offline == offline,
    {
        DistOptions { cache_dir, allow_tags: true, offline }
    }
}

/// Where an artifact came from.
#[derive(Clone, Debug, PartialEq, Eq)]
pub enum ArtifactSource {
    Digest,
    Http(String),
    File(String),
    Oci(String),
    Repo(String),
    Store(String),
}

/// An [`ArtifactSource`] with its string as a character sequence.
pub enum ArtifactSourceView {
    Digest,
    Http(Seq<char>),
    File(Seq<char>),
    Oci(Seq<char>),
    Repo(Seq<char>),
    Store(Seq<char>),
}

impl View for ArtifactSource {
    type V = ArtifactSourceView;

    open spec fn view(&self) -> ArtifactSourceView {
        match *self {
            ArtifactSource::Digest => ArtifactSourceView::Digest,
            ArtifactSource::Http(s) => ArtifactSourceView::Http(s@),
            ArtifactSource::File(s) => ArtifactSourceView::File(s@),
            ArtifactSource::Oci(s) => ArtifactSourceView::Oci(s@),
            ArtifactSource::Repo(s) => ArtifactSourceView::Repo(s@),
            ArtifactSource::Store(s) => ArtifactSourceView::Store(s@),
        }
    }
}

/// What a reference resolved to. `cache_path` is `None` only for a digest
/// that is not in the cache.
#[derive(Clone, Debug, PartialEq, Eq)]
pub struct ResolvedArtifact {
    pub digest: String,
    pub cache_path: Option<CachePath>,
    pub fetched: bool,
    pub source: ArtifactSource,
}

/// A [`ResolvedArtifact`] as plain values.
pub struct ResolvedArtifactView {
    pub digest: Seq<char>,
    pub cache_path: Option<CachePathView>,
    pub fetched: bool,
    pub source: ArtifactSourceView,
}

impl View for ResolvedArtifact {
    type V = ResolvedArtifactView;

    open spec fn view(&self) -> ResolvedArtifactView {
        ResolvedArtifactView {
            digest: self.digest@,
            cache_path: opt_path(self.cache_path),
            fetched: self.fetched,
            source: self.source@,
        }
    }
}

/// The view of a resolution's end.
pub open spec fn artifact_view(res: Result<ResolvedArtifact, DistError>) -> Result<
    ResolvedArtifactView,
    DistErrorView,
> {
    match res {
        Ok(a) => Ok(a@),
        Err(e) => Err(e@),
    }
}

/// What the caller is to do for a reference, or why nothing can be done.
#[derive(Clone, Debug, PartialEq, Eq)]
pub enum ResolveStep {
    /// Look whether `artifact` exists; answer with
    /// [`DistClient::finish_digest`].
    LookUp { digest: String, artifact: CachePath },
    /// Download `url`; answer with [`DistClient::fetch_http`].
    Fetch { url: String },
    /// Read the file at `path`; answer with [`DistClient::ingest_file`].
    Read { path: String },
    /// Resolve `reference` with the registry resolver; answer with
    /// [`DistClient::pull_oci`].
    Registry { reference: String },
    /// The reference cannot be resolved.
    Fail(DistError),
}

/// A [`ResolveStep`] as plain values.
pub enum ResolveStepView {
    LookUp { digest: Seq<char>, artifact: CachePathView },
    Fetch { url: Seq<char> },
    Read { path: Seq<char> },
    Registry { reference: Seq<char> },
    Fail(DistErrorView),
}

impl View for ResolveStep {
    type V = ResolveStepView;

    open spec fn view(&self) -> ResolveStepView {
        match *self {
            ResolveStep::LookUp { digest, artifact } => ResolveStepView::LookUp {
                digest: digest@,
                artifact: artifact@,
            },
            ResolveStep::Fetch { url } => ResolveStepView::Fetch { url: url@ },
            ResolveStep::Read { path } => ResolveStepView::Read { path: path@ },
            ResolveStep::Registry { reference } => ResolveStepView::Registry {
                reference: reference@,
            },
            ResolveStep::Fail(e) => ResolveStepView::Fail(e@),
        }
    }
}

/// The step for a classified reference: a digest is looked up, a URL is
/// downloaded unless the resolver is offline, a file is read, a registry
/// reference goes to the registry resolver, and the two kinds that need a
/// login are refused.
pub open spec fn step_spec(
    classified: Result<RefKindView, DistErrorView>,
    base: Seq<char>,
    offline: bool,
) -> ResolveStepView {
    match classified {
        Err(e) => ResolveStepView::Fail(e),
        Ok(RefKindView::Digest(d)) => ResolveStepView::LookUp {
            digest: d,
            artifact: entry_artifact(base, dir_name_spec(d)),
        },
        Ok(RefKindView::Http(url)) => if offline {
            ResolveStepView::Fail(DistErrorView::Offline { reference: url })
        } else {
            ResolveStepView::Fetch { url }
        },
        Ok(RefKindView::File(path)) => ResolveStepView::Read { path },
        Ok(RefKindView::Oci(reference)) => ResolveStepView::Registry { reference },
        Ok(RefKindView::Repo(target)) => ResolveStepView::Fail(
            DistErrorView::AuthRequired { target },
        ),
        Ok(RefKindView::Store(target)) => ResolveStepView::Fail(
            DistErrorView::AuthRequired { target },
        ),
    }
}

/// The bytes of an artifact on their way into the cache: the write to
/// perform, and what the reference resolves to once it is done.
#[derive(Clone, Debug, PartialEq, Eq)]
pub struct Ingest {
    pub write: CacheWrite,
    pub resolved: ResolvedArtifact,
}

/// What ingesting `bytes` from `source` writes: the entry named by the
/// digest of the bytes.
pub open spec fn ingest_write_spec(
    base: Seq<char>,
    bytes: Seq<u8>,
    reference: Seq<char>,
    now: u64,
) -> CacheWriteView {
    write_spec(
        base,
        dir_name_spec(digest_of(bytes)),
        digest_of(bytes),
        fallback_media_type(),
        bytes,
        reference,
        None,
        now,
    )
}

/// What ingesting `bytes` from `source` resolves to.
pub open spec fn ingest_resolved_spec(
    base: Seq<char>,
    bytes: Seq<u8>,
    source: ArtifactSourceView,
) -> ResolvedArtifactView {
    ResolvedArtifactView {
        digest: digest_of(bytes),
        cache_path: Some(entry_artifact(base, dir_name_spec(digest_of(bytes)))),
        fetched: true,
        source,
    }
}

/// What a registry resolution of one reference comes to.
pub open spec fn oci_artifact_spec(
    reference: Seq<char>,
    first: Option<crate::oci::ResolvedComponentView>,
) -> Result<ResolvedArtifactView, DistErrorView> {
    match first {
        Some(c) => Ok(
            ResolvedArtifactView {
                digest: c.resolved_digest,
                cache_path: Some(c.path),
                fetched: c.fetched_from_network,
                source: ArtifactSourceView::Oci(reference),
            },
        ),
        None => Err(DistErrorView::InvalidReference { reference }),
    }
}

/// The resolver.
#[derive(Debug)]
pub struct DistClient {
    pub cache: ComponentCache,
    pub oci: OciComponentResolver,
    pub opts: DistOptions,
}

impl DistClient {
    /// A resolver with the given options. Its registry resolver shares the
    /// cache directory, the tag policy and the offline switch.
    pub fn new(opts: DistOptions) -> (client: DistClient)
        ensures
            client.opts == opts,
            client.cache.base@ == opts.cache_dir@,
            client.oci.cache.root@ == opts.cache_dir@,
            client.oci.opts.allow_tags == opts.allow_tags,
            client.oci.opts.offline == opts.offline,
            client.oci.opts.cache_dir@ == opts.cache_dir@,
            list_chars(client.oci.opts.accepted_manifest_types@) == default_manifest_types(),
            list_chars(client.oci.opts.preferred_layer_media_types@) == default_layer_types(),
    {
        let mut oci_opts = ComponentResolveOptions::new(opts.cache_dir.clone());
        oci_opts.allow_tags = opts.allow_tags;
        oci_opts.offline = opts.offline;
        DistClient {
            cache: ComponentCache::new(opts.cache_dir.clone()),
            oci: OciComponentResolver::new(oci_opts),
            opts,
        }
    }

    /// The step for a reference that has been classified.
    pub fn step_for(&self, classified: Result<RefKind, DistError>) -> (step: ResolveStep)
        ensures
            step@ == step_spec(classified_view(classified), self.cache.base@, self.opts.offline),
    {
        match classified {
            Err(e) => ResolveStep::Fail(e),
            Ok(RefKind::Digest(digest)) => {
                let artifact = self.cache.component_path(digest.as_str());
                ResolveStep::LookUp { digest, artifact }
            },
            Ok(RefKind::Http(url)) => {
                if self.opts.offline {
                    ResolveStep::Fail(DistError::Offline { reference: url })
                } else {
                    ResolveStep::Fetch { url }
                }
            },
            Ok(RefKind::File(path)) => ResolveStep::Read { path },
            Ok(RefKind::Oci(reference)) => ResolveStep::Registry { reference },
            Ok(RefKind::Repo(target)) => ResolveStep::Fail(DistError::AuthRequired { target }),
            Ok(RefKind::Store(target)) => ResolveStep::Fail(DistError::AuthRequired { target }),
        }
    }

    /// Says what has to be done to resolve `reference`. White space
    /// around the reference does not count. `path_exists` says whether
    /// the trimmed reference, read as a path, names something that exists
    /// now.
    ///
    /// The step is [`step_spec`] of the classification. Only for a `file`
    /// URL does it depend on more than the arguments: on the local path
    /// that the platform gives the URL.
    pub fn resolve_ref(&self, reference: &str, path_exists: bool) -> (step: ResolveStep)
        ensures
            exists|file_path: Option<Seq<char>>|
                step@ == step_spec(
                    classify_outcome(
                        reference@,
                        #[trigger] classify_spec(
                            trimmed(reference@),
                            url_scheme_of(trimmed(reference@)),
                            file_path,
                            path_exists,
                            oci_reference_parse(trimmed(reference@)) is Ok,
                        ),
                    ),
                    self.cache.base@,
                    self.opts.offline,
                ),
            url_scheme_of(trimmed(reference@)) != Some("file"@) ==> step@ == step_spec(
                classify_outcome(
                    reference@,
                    classify_spec(
                        trimmed(reference@),
                        url_scheme_of(trimmed(reference@)),
                        None,
                        path_exists,
                        oci_reference_parse(trimmed(reference@)) is Ok,
                    ),
                ),
                self.cache.base@,
                self.opts.offline,
            ),
            is_digest_spec(trimmed(reference@)) ==> step@ == (ResolveStepView::LookUp {
                digest: trimmed(reference@),
                artifact: entry_artifact(self.cache.base@, dir_name_spec(trimmed(reference@))),
            }),
    {
        let classified = classify_reference(reference, path_exists);
        self.step_for(classified)
    }

    /// What a digest reference resolves to. `present` says whether the
    /// artifact of `digest` is in the cache. A miss is no error here.
    pub fn finish_digest(&self, digest: String, present: bool) -> (resolved: ResolvedArtifact)
        ensures
            resolved@ == (ResolvedArtifactView {
                digest: digest@,
                cache_path: if present {
                    Some(entry_artifact(self.cache.base@, dir_name_spec(digest@)))
                } else {
                    None
                },
                fetched: false,
                source: ArtifactSourceView::Digest,
            }),
    {
        let cache_path = self.cache.existing_component(digest.as_str(), present);
        ResolvedArtifact { digest, cache_path, fetched: false, source: ArtifactSource::Digest }
    }

    fn ingest(&self, bytes: Vec<u8>, reference: &str, source: ArtifactSource, now: u64) -> (out:
        Ingest)
        ensures
            out.write@ == ingest_write_spec(self.cache.base@, bytes@, reference@, now),
            out.resolved@ == ingest_resolved_spec(self.cache.base@, bytes@, source@),
    {
        let digest = digest_for_bytes(bytes.as_slice());
        let path = self.cache.component_path(digest.as_str());
        let write = self.cache.write_component(digest.as_str(), bytes, reference, now);
        Ingest {
            write,
            resolved: ResolvedArtifact { digest, cache_path: Some(path), fetched: true, source },
        }
    }

    /// Takes what a download of `url` gave: the body, or the text of the
    /// failure. Offline, nothing is accepted.
    pub fn fetch_http(
        &self,
        url: &str,
        body: Result<Vec<u8>, String>,
        now_unix_seconds: u64,
    ) -> (res: Result<Ingest, DistError>)
        ensures
            match res {
                Ok(out) => !self.opts.offline && body is Ok && out.write@ == ingest_write_spec(
                    self.cache.base@,
                    body->Ok_0@,
                    url@,
                    now_unix_seconds,
                ) && out.resolved@ == ingest_resolved_spec(
                    self.cache.base@,
                    body->Ok_0@,
                    ArtifactSourceView::Http(url@),
                ),
                Err(e) => if self.opts.offline {
                    e@ == (DistErrorView::Offline { reference: url@ })
                } else {
                    body is Err && e@ == DistErrorView::Http(body->Err_0@)
                },
            },
    {
        if self.opts.offline {
            return Err(DistError::Offline { reference: url.to_owned() });
        }
        match body {
            Ok(bytes) => Ok(
                self.ingest(bytes, url, ArtifactSource::Http(url.to_owned()), now_unix_seconds),
            ),
            Err(m) => Err(DistError::Http(m)),
        }
    }

    /// Takes what reading the file at `path` gave: its bytes, or the text
    /// of the failure.
    pub fn ingest_file(
        &self,
        path: &str,
        contents: Result<Vec<u8>, String>,
        now_unix_seconds: u64,
    ) -> (res: Result<Ingest, DistError>)
        ensures
            match res {
                Ok(out) => contents is Ok && out.write@ == ingest_write_spec(
                    self.cache.base@,
                    contents->Ok_0@,
                    path@,
                    now_unix_seconds,
                ) && out.resolved@ == ingest_resolved_spec(
                    self.cache.base@,
                    contents->Ok_0@,
                    ArtifactSourceView::File(path@),
                ),
                Err(e) => contents is Err && e@ == DistErrorView::Io(contents->Err_0@),
            },
    {
        match contents {
            Ok(bytes) => Ok(
                self.ingest(bytes, path, ArtifactSource::File(path.to_owned()), now_unix_seconds),
            ),
            Err(m) => Err(DistError::Io(m)),
        }
    }

    /// How an ingest ends after its write: with the artifact, or with the
    /// write's failure as an I/O error.
    pub fn after_ingest(
        &self,
        resolved: ResolvedArtifact,
        outcome: Result<(), CacheWriteFailure>,
    ) -> (res: Result<ResolvedArtifact, DistError>)
        ensures
            match outcome {
                Ok(_) => res == Ok::<ResolvedArtifact, DistError>(resolved),
                Err(CacheWriteFailure::Io(m)) => res is Err && res->Err_0@ == DistErrorView::Io(m@),
                Err(CacheWriteFailure::Serde(m)) => res is Err && res->Err_0@ == DistErrorView::Io(
                    m@,
                ),
            },
    {
        match outcome {
            Ok(_) => Ok(resolved),
            Err(CacheWriteFailure::Io(m)) => Err(DistError::Io(m)),
            Err(CacheWriteFailure::Serde(m)) => Err(DistError::Io(m)),
        }
    }

    /// Takes what the registry resolver made of `reference`: its
    /// components, of which the first counts, or its error.
    pub fn pull_oci(
        &self,
        reference: &str,
        result: Result<Vec<ResolvedComponent>, OciComponentError>,
    ) -> (res: Result<ResolvedArtifact, DistError>)
        ensures
            match result {
                Err(e) => artifact_view(res) == Err::<ResolvedArtifactView, DistErrorView>(
                    DistErrorView::Oci(e@),
                ),
                Ok(list) => artifact_view(res) == oci_artifact_spec(
                    reference@,
                    if list@.len() > 0 {
                        Some(list@[0]@)
                    } else {
                        None
                    },
                ),
            },
    {
        match result {
            Err(e) => Err(DistError::Oci(e)),
            Ok(mut list) => {
                if list.len() == 0 {
                    return Err(DistError::InvalidReference { reference: reference.to_owned() });
                }
                let first = list.swap_remove(0);
                Ok(
                    ResolvedArtifact {
                        digest: first.resolved_digest,
                        cache_path: Some(first.path),
                        fetched: first.fetched_from_network,
                        source: ArtifactSource::Oci(reference.to_owned()),
                    },
                )
            },
        }
    }

    /// Holds a resolution to the cache: it stands only if it names a
    /// cache path and `path_exists` says that the path is there. Else the
    /// reference is a cache miss.
    pub fn ensure_cached(
        &self,
        reference: &str,
        resolved: ResolvedArtifact,
        path_exists: bool,
    ) -> (res: Result<ResolvedArtifact, DistError>)
        ensures
            if resolved.cache_path is Some && path_exists {
                res == Ok::<ResolvedArtifact, DistError>(resolved)
            } else {
                res is Err && res->Err_0@ == (DistErrorView::CacheMiss { reference: reference@ })
            },
    {
        if resolved.cache_path.is_some() && path_exists {
            Ok(resolved)
        } else {
            Err(DistError::CacheMiss { reference: reference.to_owned() })
        }
    }

    /// The artifact file of `digest`, normalized, or a cache miss that
    /// names the normalized digest. `present` says whether the file is
    /// there.
    pub fn fetch_digest(&self, digest: &str, present: bool) -> (res: Result<CachePath, DistError>)
        ensures
            match res {
                Ok(path) => present && path@ == entry_artifact(
                    self.cache.base@,
                    dir_name_spec(digest@),
                ),
                Err(e) => !present && e@ == (DistErrorView::CacheMiss {
                    reference: normalize_spec(digest@),
                }),
            },
    {
        let normalized = normalize_digest(digest);
        proof {
            lemma_normalize_idempotent(digest@);
        }
        match self.cache.existing_component(normalized.as_str(), present) {
            Some(path) => Ok(path),
            None => Err(DistError::CacheMiss { reference: normalized }),
        }
    }

    /// The digests in the cache, from the names of its directories.
    pub fn list_cache(&self, names: &Vec<String>) -> (digests: Vec<String>)
        ensures
            list_chars(digests@) == crate::cache::digests_of_names(names@),
    {
        self.cache.list_digests(names)
    }

    /// The directories to remove for `digests`, one for each and in the
    /// same order. One that is not there is no error: the caller skips it.
    pub fn remove_cached(&self, digests: &Vec<String>) -> (dirs: Vec<CachePath>)
        ensures
            dirs@.len() == digests@.len(),
            forall|i: int|
                0 <= i < digests@.len() ==> (#[trigger] dirs@[i])@ == entry_dir(
                    self.cache.base@,
                    dir_name_spec(digests@[i]@),
                ),
    {
        let mut dirs: Vec<CachePath> = Vec::new();
        let mut i: usize = 0;
        while i < digests.len()
            invariant
                i <= digests.len(),
                dirs@.len() == i,
                forall|j: int|
                    0 <= j < i ==> (#[trigger] dirs@[j])@ == entry_dir(
                        self.cache.base@,
                        dir_name_spec(digests@[j]@),
                    ),
            decreases digests.len() - i,
        {
            dirs.push(self.cache.component_dir(digests[i].as_str()));
            i = i + 1;
        }
        dirs
    }
}

impl DistClient {
    /// The digests to collect from a cache whose root lists `entries`:
    /// those of the directories without an artifact.
    pub fn gc(&self, entries: &Vec<CacheDirEntry>) -> (removed: Vec<String>)
        ensures
            list_chars(removed@) == crate::cache::dangling(crate::cache::listing_views(entries@)),
    {
        self.cache.gc(entries)
    }

    /// Starts the pull of a lockfile's entries, under the resolver's
    /// offline switch.
    pub fn pull_lock(&self, entries: Vec<LockResolvedEntry>) -> (turn: LockTurn)
        ensures
            turn@ == begin_spec(
                LockRunView {
                    entries: entry_views(entries@),
                    done: Seq::empty(),
                    offline: self.opts.offline,
                },
            ),
            turn@.wf(),
    {
        start_pull(entries, self.opts.offline)
    }
}

/// A reference that, trimmed, passes the digest test is classified as
/// that digest, whatever else it could be read as; and a classification
/// is always one kind, or the error that names the input.
pub proof fn lemma_classification_total(
    input: Seq<char>,
    scheme: Option<Seq<char>>,
    file_path: Option<Seq<char>>,
    path_exists: bool,
    oci_ok: bool,
)
    ensures
        is_digest_spec(trimmed(input)) ==> classify_spec(
            trimmed(input),
            scheme,
            file_path,
            path_exists,
            oci_ok,
        ) == Some(RefKindView::Digest(trimmed(input))),
        is_digest_spec(input) && trimmed(input) == input ==> classify_spec(
            trimmed(input),
            scheme,
            file_path,
            path_exists,
            oci_ok,
        ) == Some(RefKindView::Digest(input)),
        classify_outcome(
            input,
            classify_spec(trimmed(input), scheme, file_path, path_exists, oci_ok),
        ) is Ok || classify_outcome(
            input,
            classify_spec(trimmed(input), scheme, file_path, path_exists, oci_ok),
        ) == Err::<RefKindView, DistErrorView>(
            DistErrorView::InvalidReference { reference: input },
        ),
{
}

/// What is written for ingested bytes is addressed by its content: the
/// bytes written are the bytes ingested, the digest recorded and handed
/// back is the canonical digest of those bytes, and the entry's directory
/// is named by that digest without its prefix.
pub proof fn lemma_ingest_content_addressed(
    base: Seq<char>,
    bytes: Seq<u8>,
    reference: Seq<char>,
    source: ArtifactSourceView,
    now: u64,
)
    ensures
        ({
            let write = ingest_write_spec(base, bytes, reference, now);
            let resolved = ingest_resolved_spec(base, bytes, source);
            &&& digest_of(write.data) == resolved.digest
            &&& write.metadata.resolved_digest == resolved.digest
            &&& resolved.cache_path == Some(write.artifact)
            &&& sha256_prefix() + write.artifact.dir == resolved.digest
            &&& write.dir.dir == write.artifact.dir
        }),
{
    assert(digest_of(bytes).subrange(0, 7) =~= sha256_prefix());
    crate::cache::lemma_dir_name(digest_of(bytes));
}

/// The names of the entries of a cache after a write.
pub open spec fn names_after_write(names: Set<Seq<char>>, write: CacheWriteView) -> Set<Seq<char>> {
    names.insert(write.dir.dir)
}

/// Ingesting is idempotent: the same bytes give the same digest and the
/// same entry, wherever and whenever they were fetched, so a second
/// ingest adds no entry to the cache.
pub proof fn lemma_ingest_idempotent(
    base: Seq<char>,
    bytes: Seq<u8>,
    first_reference: Seq<char>,
    second_reference: Seq<char>,
    first_source: ArtifactSourceView,
    second_source: ArtifactSourceView,
    first_now: u64,
    second_now: u64,
    names: Set<Seq<char>>,
)
    requires
        names.finite(),
    ensures
        ingest_resolved_spec(base, bytes, first_source).digest == ingest_resolved_spec(
            base,
            bytes,
            second_source,
        ).digest,
        ingest_resolved_spec(base, bytes, first_source).cache_path == ingest_resolved_spec(
            base,
            bytes,
            second_source,
        ).cache_path,
        ({
            let first = ingest_write_spec(base, bytes, first_reference, first_now);
            let second = ingest_write_spec(base, bytes, second_reference, second_now);
            &&& first.artifact == second.artifact
            &&& first.data == second.data
            &&& names_after_write(names_after_write(names, first), second) == names_after_write(
                names,
                first,
            )
            &&& names_after_write(names_after_write(names, first), second).len()
                == names_after_write(names, first).len()
        }),
{
    let first = ingest_write_spec(base, bytes, first_reference, first_now);
    let second = ingest_write_spec(base, bytes, second_reference, second_now);
    assert(names_after_write(names_after_write(names, first), second) =~= names_after_write(
        names,
        first,
    ));
}

/// Normalizing twice is normalizing once.
pub proof fn lemma_normalize_idempotent(digest: Seq<char>)
    ensures
        normalize_spec(normalize_spec(digest)) == normalize_spec(digest),
        dir_name_spec(normalize_spec(digest)) == dir_name_spec(digest),
{
    crate::cache::lemma_dir_name(digest);
}

} // verus!

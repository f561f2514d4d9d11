//! Resolving registry references to cached components.
//!
//! Resolution of one reference is a short dialogue. The resolver decides;
//! the caller looks into the cache, pulls from the registry and writes to
//! the cache, and reports what it found. Every decision is a function here,
//! from what is known so far to the next [`OciStep`].

use crate::cache::{
    entry_artifact, entry_metadata, fallback_media_type, opt_metadata, write_spec, CacheMetadata,
    CacheMetadataView, CachePath, CachePathView, CacheWrite, CacheWriteFailure, CacheWriteView,
    OciCache,
};
use crate::digest::{
    digest_for_bytes, digest_of, normalize_digest, normalize_spec, trim_prefix_spec,
};
use crate::error::{OciComponentError, OciErrorView};
use crate::reference::{oci_reference_parse, OciReference, OciReferenceView};
use crate::text::{clone_list, clone_opt, list_chars, opt_chars, str_eq};
use vstd::prelude::*;
use vstd::string::*;

verus! {

/// How a pack wants its components pulled. The mode is recorded; it does
/// not change how a reference is resolved.
#[derive(Clone, Copy, Debug, PartialEq, Eq, Structural)]
pub enum ComponentsMode {
    Eager,
    Lazy,
}

impl Default for ComponentsMode {
    fn default() -> (mode: ComponentsMode)
        ensures
            mode == ComponentsMode::Eager,
    {
        ComponentsMode::Eager
    }
}

/// The components that a pack names.
#[derive(Clone, Debug, PartialEq, Eq)]
pub struct ComponentsExtension {
    pub refs: Vec<String>,
    pub mode: ComponentsMode,
}

/// What governs the resolution of registry references.
#[derive(Clone, Debug, PartialEq, Eq)]
pub struct ComponentResolveOptions {
    pub allow_tags: bool,
    pub offline: bool,
    pub cache_dir: String,
    pub accepted_manifest_types: Vec<String>,
    pub preferred_layer_media_types: Vec<String>,
}

/// The manifest media types asked for by default.
pub open spec fn default_manifest_types() -> Seq<Seq<char>> {
    seq![
        "application/vnd.oci.artifact.manifest.v1+json"@,
        "application/vnd.oci.image.manifest.v1+json"@,
        "application/vnd.oci.image.index.v1+json"@,
        "application/vnd.docker.distribution.manifest.v2+json"@,
        "application/vnd.docker.distribution.manifest.list.v2+json"@,
    ]
}

/// The layer media types preferred by default, best first.
pub open spec fn default_layer_types() -> Seq<Seq<char>> {
    seq![
        "application/vnd.wasm.component.v1+wasm"@,
        "application/vnd.module.wasm.content.layer.v1+wasm"@,
        "application/vnd.greentic.component.manifest+json"@,
        "application/wasm"@,
        "application/octet-stream"@,
    ]
}

impl ComponentResolveOptions {
    /// The default options for a cache at `cache_dir`: tags refused,
    /// online, the default media types.
    pub fn new(cache_dir: String) -> (opts: ComponentResolveOptions)
        ensures
            !opts.allow_tags,
            !opts.offline,
            opts.cache_dir@ == cache_dir@,
            list_chars(opts.accepted_manifest_types@) == default_manifest_types(),
            list_chars(opts.preferred_layer_media_types@) == default_layer_types(),
    {
        let mut manifests: Vec<String> = Vec::new();
        manifests.push(String::from_str("application/vnd.oci.artifact.manifest.v1+json"));
        manifests.push(String::from_str("application/vnd.oci.image.manifest.v1+json"));
        manifests.push(String::from_str("application/vnd.oci.image.index.v1+json"));
        manifests.push(String::from_str("application/vnd.docker.distribution.manifest.v2+json"));
        manifests.push(
            String::from_str("application/vnd.docker.distribution.manifest.list.v2+json"),
        );
        let mut layers: Vec<String> = Vec::new();
        layers.push(String::from_str("application/vnd.wasm.component.v1+wasm"));
        layers.push(String::from_str("application/vnd.module.wasm.content.layer.v1+wasm"));
        layers.push(String::from_str("application/vnd.greentic.component.manifest+json"));
        layers.push(String::from_str("application/wasm"));
        layers.push(String::from_str("application/octet-stream"));
        assert(list_chars(manifests@) =~= default_manifest_types());
        assert(list_chars(layers@) =~= default_layer_types());
        ComponentResolveOptions {
            allow_tags: false,
            offline: false,
            cache_dir,
            accepted_manifest_types: manifests,
            preferred_layer_media_types: layers,
        }
    }
}

/// A component that a reference resolved to.
#[derive(Clone, Debug, PartialEq, Eq)]
pub struct ResolvedComponent {
    pub original_reference: String,
    pub resolved_digest: String,
    pub media_type: String,
    pub path: CachePath,
    pub fetched_from_network: bool,
    pub manifest_digest: Option<String>,
}

/// A [`ResolvedComponent`] as plain values.
pub struct ResolvedComponentView {
    pub original_reference: Seq<char>,
    pub resolved_digest: Seq<char>,
    pub media_type: Seq<char>,
    pub path: CachePathView,
    pub fetched_from_network: bool,
    pub manifest_digest: Option<Seq<char>>,
}

impl View for ResolvedComponent {
    type V = ResolvedComponentView;

    open spec fn view(&self) -> ResolvedComponentView {
        ResolvedComponentView {
            original_reference: self.original_reference@,
            resolved_digest: self.resolved_digest@,
            media_type: self.media_type@,
            path: self.path@,
            fetched_from_network: self.fetched_from_network,
            manifest_digest: opt_chars(self.manifest_digest),
        }
    }
}

/// One layer of a pulled image.
#[derive(Clone, Debug, PartialEq, Eq)]
pub struct PulledLayer {
    pub media_type: String,
    pub data: Vec<u8>,
    pub digest: Option<String>,
}

/// A [`PulledLayer`] as plain values.
pub struct PulledLayerView {
    pub media_type: Seq<char>,
    pub data: Seq<u8>,
    pub digest: Option<Seq<char>>,
}

impl View for PulledLayer {
    type V = PulledLayerView;

    open spec fn view(&self) -> PulledLayerView {
        PulledLayerView {
            media_type: self.media_type@,
            data: self.data@,
            digest: opt_chars(self.digest),
        }
    }
}

/// What a registry hands back for a reference.
#[derive(Clone, Debug, PartialEq, Eq)]
pub struct PulledImage {
    pub digest: Option<String>,
    pub layers: Vec<PulledLayer>,
}

/// A [`PulledImage`] as plain values.
pub struct PulledImageView {
    pub digest: Option<Seq<char>>,
    pub layers: Seq<PulledLayerView>,
}

/// The views of a list of layers.
pub open spec fn layer_views(layers: Seq<PulledLayer>) -> Seq<PulledLayerView> {
    Seq::new(layers.len(), |i: int| layers[i]@)
}

impl View for PulledImage {
    type V = PulledImageView;

    open spec fn view(&self) -> PulledImageView {
        PulledImageView { digest: opt_chars(self.digest), layers: layer_views(self.layers@) }
    }
}

/// No layer has the media type `ty`.
pub open spec fn no_layer_of_type(layers: Seq<PulledLayerView>, ty: Seq<char>) -> bool {
    forall|j: int| 0 <= j < layers.len() ==> (#[trigger] layers[j]).media_type != ty
}

/// Layer `r` is the one to take: the first layer of the best preference
/// that any layer has; or, where no layer has a preferred type, the first
/// layer.
pub open spec fn is_selected(layers: Seq<PulledLayerView>, prefs: Seq<Seq<char>>, r: int) -> bool {
    &&& 0 <= r < layers.len()
    &&& {
        ||| exists|p: int|
            {
                &&& 0 <= p < prefs.len()
                &&& #[trigger] prefs[p] == layers[r].media_type
                &&& forall|j: int| 0 <= j < r ==> (#[trigger] layers[j]).media_type != prefs[p]
                &&& forall|q: int| 0 <= q < p ==> no_layer_of_type(layers, #[trigger] prefs[q])
            }
        ||| {
            &&& r == 0
            &&& forall|q: int|
                0 <= q < prefs.len() ==> no_layer_of_type(layers, #[trigger] prefs[q])
        }
    }
}

/// The index of the layer to take from a list that is not empty.
pub open spec fn selected_layer(layers: Seq<PulledLayerView>, prefs: Seq<Seq<char>>) -> int {
    choose|r: int| is_selected(layers, prefs, r)
}

/// At most one layer is the one to take.
pub proof fn lemma_selection_unique(
    layers: Seq<PulledLayerView>,
    prefs: Seq<Seq<char>>,
    a: int,
    b: int,
)
    requires
        is_selected(layers, prefs, a),
        is_selected(layers, prefs, b),
    ensures
        a == b,
{
    let none = forall|q: int|
        0 <= q < prefs.len() ==> no_layer_of_type(layers, #[trigger] prefs[q]);
    if none {
        assert forall|p: int| 0 <= p < prefs.len() implies #[trigger] prefs[p]
            != layers[a].media_type && prefs[p] != layers[b].media_type by {
            assert(no_layer_of_type(layers, prefs[p]));
        }
    } else {
        let pa = choose|p: int|
            {
                &&& 0 <= p < prefs.len()
                &&& #[trigger] prefs[p] == layers[a].media_type
                &&& forall|j: int| 0 <= j < a ==> (#[trigger] layers[j]).media_type != prefs[p]
                &&& forall|q: int| 0 <= q < p ==> no_layer_of_type(layers, #[trigger] prefs[q])
            };
        let pb = choose|p: int|
            {
                &&& 0 <= p < prefs.len()
                &&& #[trigger] prefs[p] == layers[b].media_type
                &&& forall|j: int| 0 <= j < b ==> (#[trigger] layers[j]).media_type != prefs[p]
                &&& forall|q: int| 0 <= q < p ==> no_layer_of_type(layers, #[trigger] prefs[q])
            };
        if pa < pb {
            assert(no_layer_of_type(layers, prefs[pa]));
            assert(layers[a].media_type != prefs[pa]);
        } else if pb < pa {
            assert(no_layer_of_type(layers, prefs[pb]));
            assert(layers[b].media_type != prefs[pb]);
        } else {
            if a < b {
                assert(layers[a].media_type != prefs[pb]);
            } else if b < a {
                assert(layers[b].media_type != prefs[pa]);
            }
        }
    }
}

/// The first layer with the media type `ty`, if there is one.
fn find_layer(layers: &Vec<PulledLayer>, ty: &str) -> (found: Option<usize>)
    ensures
        match found {
            Some(r) => r < layers.len() && layers@[r as int].media_type@ == ty@ && forall|j: int|
                0 <= j < r ==> (#[trigger] layer_views(layers@)[j]).media_type != ty@,
            None => no_layer_of_type(layer_views(layers@), ty@),
        },
{
    let mut j: usize = 0;
    while j < layers.len()
        invariant
            j <= layers.len(),
            forall|k: int| 0 <= k < j ==> (#[trigger] layer_views(layers@)[k]).media_type != ty@,
        decreases layers.len() - j,
    {
        if str_eq(layers[j].media_type.as_str(), ty) {
            return Some(j);
        }
        assert(layer_views(layers@)[j as int].media_type != ty@);
        j = j + 1;
    }
    None
}

/// Picks the layer to store. An empty list is an error; otherwise the
/// result is the one index for which [`is_selected`] holds.
pub fn select_layer(
    layers: &Vec<PulledLayer>,
    preferred_types: &Vec<String>,
    reference: &str,
) -> (res: Result<usize, OciComponentError>)
    ensures
        match res {
            Ok(r) => layers.len() > 0 && r == selected_layer(
                layer_views(layers@),
                list_chars(preferred_types@),
            ) && is_selected(layer_views(layers@), list_chars(preferred_types@), r as int),
            Err(e) => layers.len() == 0 && e@ == (OciErrorView::MissingLayers {
                reference: reference@,
            }),
        },
{
    if layers.len() == 0 {
        return Err(OciComponentError::MissingLayers { reference: reference.to_owned() });
    }
    let ghost ls = layer_views(layers@);
    let ghost ps = list_chars(preferred_types@);
    let mut p: usize = 0;
    while p < preferred_types.len()
        invariant
            p <= preferred_types.len(),
            layers.len() > 0,
            ls == layer_views(layers@),
            ps == list_chars(preferred_types@),
            forall|q: int| 0 <= q < p ==> no_layer_of_type(ls, #[trigger] ps[q]),
        decreases preferred_types.len() - p,
    {
        match find_layer(layers, preferred_types[p].as_str()) {
            Some(r) => {
                proof {
                    assert(ps[p as int] == ls[r as int].media_type);
                    assert(is_selected(ls, ps, r as int));
                    lemma_selection_unique(ls, ps, r as int, selected_layer(ls, ps));
                }
                return Ok(r);
            },
            None => {},
        }
        p = p + 1;
    }
    proof {
        assert(is_selected(ls, ps, 0));
        lemma_selection_unique(ls, ps, 0, selected_layer(ls, ps));
    }
    Ok(0)
}

/// The digest under which a pulled layer is stored: the image's own
/// digest where the registry gave one, else the layer's, else the hash of
/// the layer's bytes. A digest that the registry gave is normalized.
pub open spec fn resolved_digest_spec(
    image_digest: Option<Seq<char>>,
    layer: PulledLayerView,
) -> Seq<char> {
    match image_digest {
        Some(d) => normalize_spec(d),
        None => match layer.digest {
            Some(d) => normalize_spec(d),
            None => digest_of(layer.data),
        },
    }
}

/// Computes [`resolved_digest_spec`].
pub fn compute_digest(image_digest: &Option<String>, layer: &PulledLayer) -> (out: String)
    ensures
        out@ == resolved_digest_spec(opt_chars(*image_digest), layer@),
{
    match image_digest {
        Some(d) => normalize_digest(d.as_str()),
        None => match &layer.digest {
            Some(d) => normalize_digest(d.as_str()),
            None => digest_for_bytes(layer.data.as_slice()),
        },
    }
}

/// A reference that passed the tag policy, with the digest it asks for.
#[derive(Clone, Debug, PartialEq, Eq)]
pub struct OciPlan {
    pub reference: String,
    pub parsed: OciReference,
    pub expected_digest: Option<String>,
}

/// An [`OciPlan`] as plain values.
pub struct OciPlanView {
    pub reference: Seq<char>,
    pub parsed: OciReferenceView,
    pub expected_digest: Option<Seq<char>>,
}

impl View for OciPlan {
    type V = OciPlanView;

    open spec fn view(&self) -> OciPlanView {
        OciPlanView {
            reference: self.reference@,
            parsed: self.parsed@,
            expected_digest: opt_chars(self.expected_digest),
        }
    }
}

/// What the caller is to do next for a reference, or how its resolution
/// ended.
#[derive(Clone, Debug, PartialEq, Eq)]
pub enum OciStep {
    /// Look whether `artifact` exists and read `sidecar`; answer with
    /// [`OciComponentResolver::after_probe`].
    Probe { digest: String, artifact: CachePath, sidecar: CachePath },
    /// Pull `reference` from the registry, accepting the layer media
    /// types `accepted_types`; answer with
    /// [`OciComponentResolver::after_pull`].
    Pull { reference: String, accepted_types: Vec<String> },
    /// Perform `write`; answer with [`OciComponentResolver::after_write`],
    /// handing `resolved` back.
    Write { write: CacheWrite, resolved: ResolvedComponent },
    /// The reference is resolved.
    Done(ResolvedComponent),
    /// The reference cannot be resolved.
    Fail(OciComponentError),
}

/// An [`OciStep`] as plain values.
pub enum OciStepView {
    Probe { digest: Seq<char>, artifact: CachePathView, sidecar: CachePathView },
    Pull { reference: Seq<char>, accepted_types: Seq<Seq<char>> },
    Write { write: CacheWriteView, resolved: ResolvedComponentView },
    Done(ResolvedComponentView),
    Fail(OciErrorView),
}

impl View for OciStep {
    type V = OciStepView;

    open spec fn view(&self) -> OciStepView {
        match *self {
            OciStep::Probe { digest, artifact, sidecar } => OciStepView::Probe {
                digest: digest@,
                artifact: artifact@,
                sidecar: sidecar@,
            },
            OciStep::Pull { reference, accepted_types } => OciStepView::Pull {
                reference: reference@,
                accepted_types: list_chars(accepted_types@),
            },
            OciStep::Write { write, resolved } => OciStepView::Write {
                write: write@,
                resolved: resolved@,
            },
            OciStep::Done(c) => OciStepView::Done(c@),
            OciStep::Fail(e) => OciStepView::Fail(e@),
        }
    }
}

impl OciStepView {
    /// The step asks for work on the network.
    pub open spec fn touches_network(self) -> bool {
        self is Pull
    }

    /// The step changes the cache.
    pub open spec fn touches_cache(self) -> bool {
        self is Write
    }
}

/// The policy on a reference: it must parse, and it must be pinned unless
/// tags are allowed.
pub open spec fn plan_spec(reference: Seq<char>, allow_tags: bool) -> Result<
    OciPlanView,
    OciErrorView,
> {
    policy_spec(reference, oci_reference_parse(reference), allow_tags)
}

/// The view of what parsing a reference gave.
pub open spec fn parsed_view(parsed: Result<OciReference, String>) -> Result<
    OciReferenceView,
    Seq<char>,
> {
    match parsed {
        Ok(r) => Ok(r@),
        Err(reason) => Err(reason@),
    }
}

/// The policy on a reference that was parsed to `parsed`.
pub open spec fn policy_spec(
    reference: Seq<char>,
    parsed: Result<OciReferenceView, Seq<char>>,
    allow_tags: bool,
) -> Result<OciPlanView, OciErrorView> {
    match parsed {
        Err(reason) => Err(OciErrorView::InvalidReference { reference, reason }),
        Ok(parsed) => if !parsed.is_pinned() && !allow_tags {
            Err(OciErrorView::DigestRequired { reference })
        } else {
            Ok(OciPlanView { reference, parsed, expected_digest: parsed.expected_digest() })
        },
    }
}

/// The pull of a plan's reference.
pub open spec fn pull_step(plan: OciPlanView, prefs: Seq<Seq<char>>) -> OciStepView {
    OciStepView::Pull { reference: plan.reference, accepted_types: prefs }
}

/// The step that opens a plan: a pinned reference is looked up in the
/// cache first; an unpinned one is pulled, unless the resolver is offline.
pub open spec fn first_step_spec(
    plan: OciPlanView,
    root: Seq<char>,
    offline: bool,
    prefs: Seq<Seq<char>>,
) -> OciStepView {
    match plan.expected_digest {
        Some(d) => OciStepView::Probe {
            digest: d,
            artifact: entry_artifact(root, trim_prefix_spec(d)),
            sidecar: entry_metadata(root, trim_prefix_spec(d)),
        },
        None => if offline {
            OciStepView::Fail(OciErrorView::OfflineTaggedReference { reference: plan.reference })
        } else {
            pull_step(plan, prefs)
        },
    }
}

/// What a cache hit resolves to.
pub open spec fn hit_spec(
    root: Seq<char>,
    digest: Seq<char>,
    reference: Seq<char>,
    metadata: Option<CacheMetadataView>,
) -> ResolvedComponentView {
    ResolvedComponentView {
        original_reference: reference,
        resolved_digest: digest,
        media_type: match metadata {
            Some(m) => m.media_type,
            None => fallback_media_type(),
        },
        path: entry_artifact(root, trim_prefix_spec(digest)),
        fetched_from_network: false,
        manifest_digest: match metadata {
            Some(m) => m.manifest_digest,
            None => None,
        },
    }
}

/// The step after the cache was looked into. `present` says whether the
/// artifact is there, `metadata` what its sidecar holds if it could be
/// read. A plan without a digest has nothing to look up and is answered
/// as by the first step.
pub open spec fn after_probe_spec(
    plan: OciPlanView,
    root: Seq<char>,
    offline: bool,
    prefs: Seq<Seq<char>>,
    present: bool,
    metadata: Option<CacheMetadataView>,
) -> OciStepView {
    match plan.expected_digest {
        Some(d) => if present {
            OciStepView::Done(hit_spec(root, d, plan.reference, metadata))
        } else if offline {
            OciStepView::Fail(
                OciErrorView::OfflineMissing { reference: plan.reference, digest: d },
            )
        } else {
            pull_step(plan, prefs)
        },
        None => first_step_spec(plan, root, offline, prefs),
    }
}

/// The step after a pull that succeeded.
pub open spec fn after_image_spec(
    plan: OciPlanView,
    root: Seq<char>,
    prefs: Seq<Seq<char>>,
    image: PulledImageView,
    now: u64,
) -> OciStepView {
    if image.layers.len() == 0 {
        OciStepView::Fail(OciErrorView::MissingLayers { reference: plan.reference })
    } else {
        let layer = image.layers[selected_layer(image.layers, prefs)];
        let resolved = resolved_digest_spec(image.digest, layer);
        if plan.expected_digest is Some && plan.expected_digest->0 != resolved {
            OciStepView::Fail(
                OciErrorView::DigestMismatch {
                    reference: plan.reference,
                    expected: plan.expected_digest->0,
                    actual: resolved,
                },
            )
        } else {
            OciStepView::Write {
                write: write_spec(
                    root,
                    trim_prefix_spec(resolved),
                    resolved,
                    layer.media_type,
                    layer.data,
                    plan.reference,
                    image.digest,
                    now,
                ),
                resolved: ResolvedComponentView {
                    original_reference: plan.reference,
                    resolved_digest: resolved,
                    media_type: layer.media_type,
                    path: entry_artifact(root, trim_prefix_spec(resolved)),
                    fetched_from_network: true,
                    manifest_digest: image.digest,
                },
            }
        }
    }
}

/// The step after a pull, whether it succeeded or failed with `source`.
pub open spec fn after_pull_spec(
    plan: OciPlanView,
    root: Seq<char>,
    prefs: Seq<Seq<char>>,
    pulled: Result<PulledImageView, Seq<char>>,
    now: u64,
) -> OciStepView {
    match pulled {
        Ok(image) => after_image_spec(plan, root, prefs, image, now),
        Err(source) => OciStepView::Fail(
            OciErrorView::PullFailed { reference: plan.reference, source },
        ),
    }
}

/// The view of what a registry handed back.
pub open spec fn pulled_view(pulled: Result<PulledImage, String>) -> Result<
    PulledImageView,
    Seq<char>,
> {
    match pulled {
        Ok(image) => Ok(image@),
        Err(source) => Err(source@),
    }
}

/// The view of how a resolution ended.
pub open spec fn resolved_view(res: Result<ResolvedComponent, OciComponentError>) -> Result<
    ResolvedComponentView,
    OciErrorView,
> {
    match res {
        Ok(c) => Ok(c@),
        Err(e) => Err(e@),
    }
}

/// The view of a plan or the error in its place.
pub open spec fn planned_view(res: Result<OciPlan, OciComponentError>) -> Result<
    OciPlanView,
    OciErrorView,
> {
    match res {
        Ok(p) => Ok(p@),
        Err(e) => Err(e@),
    }
}

impl OciCache {
    /// The component that a cached entry resolves to, or `None` where the
    /// artifact is not there. A sidecar that is missing or unreadable
    /// leaves the media type at `application/octet-stream`.
    pub fn try_hit(
        &self,
        digest: &str,
        reference: &str,
        present: bool,
        metadata: Option<CacheMetadata>,
    ) -> (hit: Option<ResolvedComponent>)
        ensures
            match hit {
                Some(c) => present && c@ == hit_spec(
                    self.root@,
                    digest@,
                    reference@,
                    opt_metadata(metadata),
                ),
                None => !present,
            },
    {
        if !present {
            return None;
        }
        let path = self.artifact_path(digest);
        let (media_type, manifest_digest) = match metadata {
            Some(m) => (m.media_type, m.manifest_digest),
            None => (String::from_str("application/octet-stream"), None),
        };
        Some(
            ResolvedComponent {
                original_reference: reference.to_owned(),
                resolved_digest: digest.to_owned(),
                media_type,
                path,
                fetched_from_network: false,
                manifest_digest,
            },
        )
    }
}

/// Resolves registry references against a cache, under a tag policy and an
/// offline switch.
#[derive(Debug)]
pub struct OciComponentResolver {
    pub opts: ComponentResolveOptions,
    pub cache: OciCache,
}

impl OciComponentResolver {
    /// A resolver with the given options, on the cache they name.
    pub fn new(opts: ComponentResolveOptions) -> (resolver: OciComponentResolver)
        ensures
            resolver.opts == opts,
            resolver.cache.root@ == opts.cache_dir@,
    {
        let cache = OciCache::new(opts.cache_dir.clone());
        OciComponentResolver { opts, cache }
    }

    /// The preferred layer media types, as the contracts read them.
    pub open spec fn prefs(&self) -> Seq<Seq<char>> {
        list_chars(self.opts.preferred_layer_media_types@)
    }

    /// Parses `reference` and holds it to the tag policy.
    pub fn plan(&self, reference: &str) -> (res: Result<OciPlan, OciComponentError>)
        ensures
            planned_view(res) == plan_spec(reference@, self.opts.allow_tags),
    {
        self.plan_parsed(reference, OciReference::parse(reference))
    }

    /// Holds a reference to the tag policy, given what parsing it gave:
    /// its parts, or the reason why it is none.
    pub fn plan_parsed(&self, reference: &str, parsed: Result<OciReference, String>) -> (res:
        Result<OciPlan, OciComponentError>)
        ensures
            planned_view(res) == policy_spec(reference@, parsed_view(parsed), self.opts.allow_tags),
    {
        match parsed {
            Err(reason) => Err(
                OciComponentError::InvalidReference { reference: reference.to_owned(), reason },
            ),
            Ok(parsed) => {
                if !parsed.is_pinned() && !self.opts.allow_tags {
                    Err(OciComponentError::DigestRequired { reference: reference.to_owned() })
                } else {
                    let expected_digest = parsed.expected_digest();
                    Ok(OciPlan { reference: reference.to_owned(), parsed, expected_digest })
                }
            },
        }
    }

    fn pull(&self, plan: &OciPlan) -> (step: OciStep)
        ensures
            step@ == pull_step(plan@, self.prefs()),
    {
        OciStep::Pull {
            reference: plan.reference.clone(),
            accepted_types: clone_list(&self.opts.preferred_layer_media_types),
        }
    }

    /// The first step for a plan.
    pub fn first_step(&self, plan: &OciPlan) -> (step: OciStep)
        ensures
            step@ == first_step_spec(plan@, self.cache.root@, self.opts.offline, self.prefs()),
    {
        match &plan.expected_digest {
            Some(d) => OciStep::Probe {
                digest: d.clone(),
                artifact: self.cache.artifact_path(d.as_str()),
                sidecar: self.cache.metadata_path(d.as_str()),
            },
            None => {
                if self.opts.offline {
                    OciStep::Fail(
                        OciComponentError::OfflineTaggedReference {
                            reference: plan.reference.clone(),
                        },
                    )
                } else {
                    self.pull(plan)
                }
            },
        }
    }

    /// The step after the cache was looked into.
    pub fn after_probe(
        &self,
        plan: &OciPlan,
        present: bool,
        metadata: Option<CacheMetadata>,
    ) -> (step: OciStep)
        ensures
            step@ == after_probe_spec(
                plan@,
                self.cache.root@,
                self.opts.offline,
                self.prefs(),
                present,
                opt_metadata(metadata),
            ),
    {
        match &plan.expected_digest {
            Some(d) => {
                match self.cache.try_hit(d.as_str(), plan.reference.as_str(), present, metadata) {
                    Some(hit) => OciStep::Done(hit),
                    None => {
                        if self.opts.offline {
                            OciStep::Fail(
                                OciComponentError::OfflineMissing {
                                    reference: plan.reference.clone(),
                                    digest: d.clone(),
                                },
                            )
                        } else {
                            self.pull(plan)
                        }
                    },
                }
            },
            None => self.first_step(plan),
        }
    }

    /// The step after a pull: the failure, or the write that stores the
    /// chosen layer. `now_unix_seconds` is the time to record in the
    /// sidecar.
    pub fn after_pull(
        &self,
        plan: &OciPlan,
        pulled: Result<PulledImage, String>,
        now_unix_seconds: u64,
    ) -> (step: OciStep)
        ensures
            step@ == after_pull_spec(
                plan@,
                self.cache.root@,
                self.prefs(),
                pulled_view(pulled),
                now_unix_seconds,
            ),
    {
        let image = match pulled {
            Ok(image) => image,
            Err(source) => {
                return OciStep::Fail(
                    OciComponentError::PullFailed { reference: plan.reference.clone(), source },
                );
            },
        };
        let ghost iv = image@;
        let PulledImage { digest: image_digest, layers: mut layers } = image;
        let chosen = match select_layer(
            &layers,
            &self.opts.preferred_layer_media_types,
            plan.reference.as_str(),
        ) {
            Ok(r) => r,
            Err(e) => {
                return OciStep::Fail(e);
            },
        };
        let ghost lv = layer_views(layers@)[chosen as int];
        let layer = layers.swap_remove(chosen);
        assert(layer@ == lv);
        let resolved_digest = compute_digest(&image_digest, &layer);
        match &plan.expected_digest {
            Some(expected) => {
                if !str_eq(expected.as_str(), resolved_digest.as_str()) {
                    return OciStep::Fail(
                        OciComponentError::DigestMismatch {
                            reference: plan.reference.clone(),
                            expected: expected.clone(),
                            actual: resolved_digest,
                        },
                    );
                }
            },
            None => {},
        }
        let path = self.cache.artifact_path(resolved_digest.as_str());
        let manifest_digest = clone_opt(&image_digest);
        let PulledLayer { media_type, data, digest: _ } = layer;
        let write = self.cache.write(
            resolved_digest.as_str(),
            media_type.as_str(),
            data,
            plan.reference.as_str(),
            image_digest,
            now_unix_seconds,
        );
        OciStep::Write {
            write,
            resolved: ResolvedComponent {
                original_reference: plan.reference.clone(),
                resolved_digest,
                media_type,
                path,
                fetched_from_network: true,
                manifest_digest,
            },
        }
    }

    /// How the resolution ends after the write: with the component, or with
    /// the failure of the write under the component's reference.
    pub fn after_write(
        &self,
        resolved: ResolvedComponent,
        outcome: Result<(), CacheWriteFailure>,
    ) -> (res: Result<ResolvedComponent, OciComponentError>)
        ensures
            match outcome {
                Ok(_) => res == Ok::<ResolvedComponent, OciComponentError>(resolved),
                Err(CacheWriteFailure::Io(m)) => res is Err && res->Err_0@ == (OciErrorView::Io {
                    reference: resolved.original_reference@,
                    source: m@,
                }),
                Err(CacheWriteFailure::Serde(m)) => res is Err && res->Err_0@ == (
                OciErrorView::Serde { reference: resolved.original_reference@, source: m@ }),
            },
    {
        match outcome {
            Ok(_) => Ok(resolved),
            Err(CacheWriteFailure::Io(source)) => Err(
                OciComponentError::Io { reference: resolved.original_reference, source },
            ),
            Err(CacheWriteFailure::Serde(source)) => Err(
                OciComponentError::Serde { reference: resolved.original_reference, source },
            ),
        }
    }
}

/// A layer as a registry client receives it: its media type and bytes.
#[derive(Clone, Debug, PartialEq, Eq)]
pub struct RawLayer {
    pub media_type: String,
    pub data: Vec<u8>,
}

/// The image for what a registry client received: the manifest's digest as
/// the registry reported it, and every layer with the canonical digest of
/// its bytes, in the order received.
pub fn convert_image(digest: Option<String>, layers: Vec<RawLayer>) -> (image: PulledImage)
    ensures
        image@.digest == opt_chars(digest),
        image@.layers.len() == layers@.len(),
        forall|i: int|
            0 <= i < layers@.len() ==> (#[trigger] image@.layers[i]) == (PulledLayerView {
                media_type: layers@[i].media_type@,
                data: layers@[i].data@,
                digest: Some(digest_of(layers@[i].data@)),
            }),
{
    let mut layers = layers;
    let ghost given = layers@;
    let n: usize = layers.len();
    let mut out: Vec<PulledLayer> = Vec::new();
    while layers.len() > 0
        invariant
            layers@.len() <= given.len(),
            out@.len() + layers@.len() == given.len(),
            forall|j: int| 0 <= j < layers@.len() ==> layers@[j] == given[out@.len() + j],
            forall|i: int|
                0 <= i < out@.len() ==> (#[trigger] out@[i])@ == (PulledLayerView {
                    media_type: given[i].media_type@,
                    data: given[i].data@,
                    digest: Some(digest_of(given[i].data@)),
                }),
        decreases layers@.len(),
    {
        let RawLayer { media_type, data } = layers.remove(0);
        let layer_digest = digest_for_bytes(data.as_slice());
        out.push(PulledLayer { media_type, data, digest: Some(layer_digest) });
    }
    PulledImage { digest, layers: out }
}

/// The references of an extension and the components of those that are
/// resolved.
#[derive(Debug)]
pub struct RefsRun {
    refs: Vec<String>,
    done: Vec<ResolvedComponent>,
}

/// A [`RefsRun`] as plain values.
pub struct RefsRunView {
    pub refs: Seq<Seq<char>>,
    pub done: Seq<ResolvedComponentView>,
}

/// The views of a list of components.
pub open spec fn component_views(list: Seq<ResolvedComponent>) -> Seq<ResolvedComponentView> {
    Seq::new(list.len(), |i: int| list[i]@)
}

impl View for RefsRun {
    type V = RefsRunView;

    closed spec fn view(&self) -> RefsRunView {
        RefsRunView { refs: list_chars(self.refs@), done: component_views(self.done@) }
    }
}

/// A run that waits for its next reference to be resolved.
#[derive(Debug)]
pub struct RefTurn {
    run: RefsRun,
}

impl View for RefTurn {
    type V = RefsRunView;

    closed spec fn view(&self) -> RefsRunView {
        self.run@
    }
}

impl RefTurn {
    #[verifier::type_invariant]
    spec fn inv(&self) -> bool {
        self.run.done@.len() < self.run.refs@.len()
    }
}

/// Where the resolution of an extension stands.
#[derive(Debug)]
pub enum RefsTurn {
    /// Resolve the turn's reference; answer with [`RefTurn::resolved`].
    Next(RefTurn),
    /// Every reference is resolved: the components, in the order of the
    /// references.
    Finished(Vec<ResolvedComponent>),
    /// A reference failed. Nothing of those before it is handed out.
    Failed(OciComponentError),
}

/// A [`RefsTurn`] as plain values.
pub enum RefsTurnView {
    Next(RefsRunView),
    Finished(Seq<ResolvedComponentView>),
    Failed(OciErrorView),
}

impl View for RefsTurn {
    type V = RefsTurnView;

    open spec fn view(&self) -> RefsTurnView {
        match *self {
            RefsTurn::Next(t) => RefsTurnView::Next(t@),
            RefsTurn::Finished(list) => RefsTurnView::Finished(component_views(list@)),
            RefsTurn::Failed(e) => RefsTurnView::Failed(e@),
        }
    }
}

impl RefsTurnView {
    /// A run that waits has a reference left.
    pub open spec fn wf(self) -> bool {
        self is Next ==> self->Next_0.done.len() < self->Next_0.refs.len()
    }
}

/// The turn of a run: finished when every reference has its component.
pub open spec fn refs_turn_spec(run: RefsRunView) -> RefsTurnView {
    if run.done.len() >= run.refs.len() {
        RefsTurnView::Finished(run.done)
    } else {
        RefsTurnView::Next(run)
    }
}

/// The turn after a resolution: its error ends the run, its component is
/// the next of the run's.
pub open spec fn refs_resolved_spec(
    run: RefsRunView,
    outcome: Result<ResolvedComponentView, OciErrorView>,
) -> RefsTurnView {
    match outcome {
        Err(e) => RefsTurnView::Failed(e),
        Ok(c) => refs_turn_spec(RefsRunView { done: run.done.push(c), ..run }),
    }
}

/// A run hands out one component for each reference, in their order: it
/// finishes on the component of the last reference, behind those of the
/// references before it.
pub proof fn lemma_refs_in_order(
    run: RefsRunView,
    outcome: Result<ResolvedComponentView, OciErrorView>,
)
    requires
        run.done.len() < run.refs.len(),
        refs_resolved_spec(run, outcome) is Finished,
    ensures
        outcome is Ok,
        refs_resolved_spec(run, outcome)->Finished_0 == run.done.push(outcome->Ok_0),
        refs_resolved_spec(run, outcome)->Finished_0.len() == run.refs.len(),
{
}

fn refs_turn(run: RefsRun) -> (turn: RefsTurn)
    ensures
        turn@ == refs_turn_spec(run@),
        turn@.wf(),
{
    if run.done.len() >= run.refs.len() {
        let RefsRun { refs: _, done } = run;
        RefsTurn::Finished(done)
    } else {
        RefsTurn::Next(RefTurn { run })
    }
}

impl RefTurn {
    /// The reference to resolve.
    pub fn reference(&self) -> (r: &str)
        ensures
            self@.done.len() < self@.refs.len(),
            r@ == self@.refs[self@.done.len() as int],
    {
        proof {
            use_type_invariant(self);
        }
        self.run.refs[self.run.done.len()].as_str()
    }

    /// Takes what resolving the reference gave.
    pub fn resolved(self, outcome: Result<ResolvedComponent, OciComponentError>) -> (turn: RefsTurn)
        ensures
            turn@ == refs_resolved_spec(self@, resolved_view(outcome)),
            turn@.wf(),
    {
        match outcome {
            Err(e) => RefsTurn::Failed(e),
            Ok(c) => {
                let ghost before = self@;
                let RefTurn { run } = self;
                let RefsRun { refs, mut done } = run;
                done.push(c);
                let next = RefsRun { refs, done };
                assert(next@.done =~= before.done.push(c@));
                refs_turn(next)
            },
        }
    }
}

impl OciComponentResolver {
    /// Starts resolving the references of an extension, one after the
    /// other. The extension's mode is not looked at.
    pub fn resolve_refs(&self, extension: &ComponentsExtension) -> (turn: RefsTurn)
        ensures
            turn@ == refs_turn_spec(
                RefsRunView { refs: list_chars(extension.refs@), done: Seq::empty() },
            ),
            turn@.wf(),
    {
        let run = RefsRun { refs: clone_list(&extension.refs), done: Vec::new() };
        assert(run@.done =~= Seq::empty());
        refs_turn(run)
    }
}

/// Offline, a pinned reference never reaches the registry. It is looked up
/// in the cache; a hit resolves it without a fetch, and a miss fails with
/// the digest that is missing.
pub proof fn lemma_pinned_offline(
    plan: OciPlanView,
    root: Seq<char>,
    prefs: Seq<Seq<char>>,
    present: bool,
    metadata: Option<CacheMetadataView>,
)
    requires
        plan.expected_digest is Some,
    ensures
        first_step_spec(plan, root, true, prefs) is Probe,
        !after_probe_spec(plan, root, true, prefs, present, metadata).touches_network(),
        !after_probe_spec(plan, root, true, prefs, present, metadata).touches_cache(),
        present ==> after_probe_spec(plan, root, true, prefs, present, metadata) is Done
            && !after_probe_spec(
            plan,
            root,
            true,
            prefs,
            present,
            metadata,
        )->Done_0.fetched_from_network,
        !present ==> after_probe_spec(plan, root, true, prefs, present, metadata)
            == OciStepView::Fail(
            OciErrorView::OfflineMissing {
                reference: plan.reference,
                digest: plan.expected_digest->0,
            },
        ),
{
}

/// Offline, no step of a resolution asks for the registry, pinned or not.
pub proof fn lemma_offline_never_pulls(
    plan: OciPlanView,
    root: Seq<char>,
    prefs: Seq<Seq<char>>,
    present: bool,
    metadata: Option<CacheMetadataView>,
)
    ensures
        !first_step_spec(plan, root, true, prefs).touches_network(),
        !after_probe_spec(plan, root, true, prefs, present, metadata).touches_network(),
{
}

/// Where tags are not allowed, a reference that parses and is not pinned
/// to a `sha256:` digest is refused before any step is taken.
pub proof fn lemma_tags_rejected(reference: Seq<char>)
    requires
        oci_reference_parse(reference) is Ok,
        !oci_reference_parse(reference)->Ok_0.is_pinned(),
    ensures
        plan_spec(reference, false) == Err::<OciPlanView, OciErrorView>(
            OciErrorView::DigestRequired { reference },
        ),
{
}

/// Where the digest of what the registry handed back differs from the
/// pinned one, the resolution fails with both digests and nothing is
/// written to the cache.
pub proof fn lemma_mismatch_writes_nothing(
    plan: OciPlanView,
    root: Seq<char>,
    prefs: Seq<Seq<char>>,
    image: PulledImageView,
    now: u64,
)
    requires
        image.layers.len() > 0,
        plan.expected_digest is Some,
        plan.expected_digest->0 != resolved_digest_spec(
            image.digest,
            image.layers[selected_layer(image.layers, prefs)],
        ),
    ensures
        after_image_spec(plan, root, prefs, image, now) == OciStepView::Fail(
            OciErrorView::DigestMismatch {
                reference: plan.reference,
                expected: plan.expected_digest->0,
                actual: resolved_digest_spec(
                    image.digest,
                    image.layers[selected_layer(image.layers, prefs)],
                ),
            },
        ),
        !after_image_spec(plan, root, prefs, image, now).touches_cache(),
{
}

/// A write after a pull stores the chosen layer under the resolved
/// digest, and a pinned reference is only ever written under its pin.
pub proof fn lemma_write_matches_pin(
    plan: OciPlanView,
    root: Seq<char>,
    prefs: Seq<Seq<char>>,
    image: PulledImageView,
    now: u64,
)
    requires
        after_image_spec(plan, root, prefs, image, now) is Write,
    ensures
        ({
            let step = after_image_spec(plan, root, prefs, image, now);
            let layer = image.layers[selected_layer(image.layers, prefs)];
            &&& image.layers.len() > 0
            &&& step->write.data == layer.data
            &&& step->write.metadata.resolved_digest == step->resolved.resolved_digest
            &&& step->write.artifact == step->resolved.path
            &&& step->resolved.fetched_from_network
            &&& plan.expected_digest is Some ==> step->resolved.resolved_digest
                == plan.expected_digest->0
            &&& image.digest is None && layer.digest is None ==> step->resolved.resolved_digest
                == digest_of(step->write.data)
        }),
{
}

} // verus!

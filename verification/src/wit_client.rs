//! A distributor reached through its component interface: how requests
//! and responses pass between the client's types and the interface's.
//!
//! The interface carries JSON as text where the client holds JSON values.
//! The values themselves are not looked into here; they are parsed and
//! written by `serde_json` and carried as they are.

use crate::error::{DistributorError, DistributorErrorView};
use crate::json::{
    json_contents, json_from_text, json_read_text, json_text, json_to_text, JsonValue,
};
use crate::text::str_eq;
use vstd::prelude::*;
use vstd::string::*;

verus! {

/// The bindings that reach the distributor of the host a guest runs in.
#[derive(Clone, Copy, Debug, Default)]
pub struct GeneratedDistributorApiBindings;

/// The digest of a component.
#[derive(Clone, Debug, PartialEq, Eq)]
pub struct ComponentDigest(pub String);

/// How far the resolution of a component is.
#[derive(Clone, Debug, PartialEq, Eq)]
pub enum ComponentStatus {
    Pending,
    Ready,
    Failed { reason: String },
}

/// Where a resolved artifact lies.
#[derive(Clone, Debug, PartialEq, Eq)]
pub enum ArtifactLocation {
    FilePath { path: String },
    OciReference { reference: String },
    DistributorInternal { handle: String },
}

/// What is known of an artifact's signature.
#[derive(Clone, Debug, PartialEq, Eq)]
pub struct SignatureSummary {
    pub verified: bool,
    pub signer: String,
    pub extra: serde_json::Value,
}

/// What the distributor's cache says of an artifact.
#[derive(Clone, Debug, PartialEq, Eq)]
pub struct CacheInfo {
    pub size_bytes: u64,
    pub last_used_utc: String,
    pub last_refreshed_utc: String,
}

/// A request to resolve a component for a tenant in an environment.
#[derive(Clone, Debug, PartialEq, Eq)]
pub struct ResolveComponentRequest {
    pub tenant_id: String,
    pub environment_id: String,
    pub pack_id: String,
    pub component_id: String,
    pub version: String,
    pub extra: serde_json::Value,
}

/// The distributor's answer to a request.
#[derive(Clone, Debug, PartialEq, Eq)]
pub struct ResolveComponentResponse {
    pub status: ComponentStatus,
    pub digest: ComponentDigest,
    pub artifact: ArtifactLocation,
    pub signature: SignatureSummary,
    pub cache: CacheInfo,
}

/// A request as the interface takes it.
#[derive(Clone, Debug, PartialEq, Eq)]
pub struct WitResolveComponentRequest {
    pub tenant_id: String,
    pub environment_id: String,
    pub pack_id: String,
    pub component_id: String,
    pub version: String,
    pub extra: String,
}

/// The status as the interface gives it.
#[derive(Clone, Copy, Debug, PartialEq, Eq, Structural)]
pub enum WitComponentStatus {
    Pending,
    Ready,
    Failed,
}

/// The location as the interface gives it: a kind and a value.
#[derive(Clone, Debug, PartialEq, Eq)]
pub struct WitArtifactLocation {
    pub kind: String,
    pub value: String,
}

/// The signature summary as the interface gives it.
#[derive(Clone, Debug, PartialEq, Eq)]
pub struct WitSignatureSummary {
    pub verified: bool,
    pub signer: String,
    pub extra: String,
}

/// An answer as the interface gives it.
#[derive(Clone, Debug, PartialEq, Eq)]
pub struct WitResolveComponentResponse {
    pub component_status: WitComponentStatus,
    pub digest: String,
    pub artifact_location: WitArtifactLocation,
    pub signature_summary: WitSignatureSummary,
    pub cache_info: CacheInfo,
}

/// A [`ComponentStatus`] with its string as a character sequence.
pub enum ComponentStatusView {
    Pending,
    Ready,
    Failed { reason: Seq<char> },
}

impl View for ComponentStatus {
    type V = ComponentStatusView;

    open spec fn view(&self) -> ComponentStatusView {
        match *self {
            ComponentStatus::Pending => ComponentStatusView::Pending,
            ComponentStatus::Ready => ComponentStatusView::Ready,
            ComponentStatus::Failed { reason } => ComponentStatusView::Failed { reason: reason@ },
        }
    }
}

/// An [`ArtifactLocation`] with its string as a character sequence.
pub enum ArtifactLocationView {
    FilePath { path: Seq<char> },
    OciReference { reference: Seq<char> },
    DistributorInternal { handle: Seq<char> },
}

impl View for ArtifactLocation {
    type V = ArtifactLocationView;

    open spec fn view(&self) -> ArtifactLocationView {
        match *self {
            ArtifactLocation::FilePath { path } => ArtifactLocationView::FilePath { path: path@ },
            ArtifactLocation::OciReference { reference } => ArtifactLocationView::OciReference {
                reference: reference@,
            },
            ArtifactLocation::DistributorInternal { handle } => {
                ArtifactLocationView::DistributorInternal { handle: handle@ }
            },
        }
    }
}

/// The client's status for the interface's. A failure comes without a
/// reason and is given the reason `failed`.
pub open spec fn status_spec(status: WitComponentStatus) -> ComponentStatusView {
    match status {
        WitComponentStatus::Pending => ComponentStatusView::Pending,
        WitComponentStatus::Ready => ComponentStatusView::Ready,
        WitComponentStatus::Failed => ComponentStatusView::Failed { reason: "failed"@ },
    }
}

/// The client's location for a kind and a value: a file path for the
/// kinds `file` and `file_path`, a registry reference for `oci` and
/// `oci_reference`, and a handle of the distributor's own for any other.
pub open spec fn location_spec(kind: Seq<char>, value: Seq<char>) -> ArtifactLocationView {
    if kind == "file"@ || kind == "file_path"@ {
        ArtifactLocationView::FilePath { path: value }
    } else if kind == "oci"@ || kind == "oci_reference"@ {
        ArtifactLocationView::OciReference { reference: value }
    } else {
        ArtifactLocationView::DistributorInternal { handle: value }
    }
}

/// `request` says what `req` says, but for the extra field.
pub open spec fn request_matches(
    request: WitResolveComponentRequest,
    req: ResolveComponentRequest,
) -> bool {
    &&& request.tenant_id@ == req.tenant_id@
    &&& request.environment_id@ == req.environment_id@
    &&& request.pack_id@ == req.pack_id@
    &&& request.component_id@ == req.component_id@
    &&& request.version@ == req.version@
}

/// `response` says what `resp` says, but for the extra field of the
/// signature.
pub open spec fn response_matches(
    response: ResolveComponentResponse,
    resp: WitResolveComponentResponse,
) -> bool {
    &&& response.status@ == status_spec(resp.component_status)
    &&& response.digest.0@ == resp.digest@
    &&& response.artifact@ == location_spec(
        resp.artifact_location.kind@,
        resp.artifact_location.value@,
    )
    &&& response.signature.verified == resp.signature_summary.verified
    &&& response.signature.signer@ == resp.signature_summary.signer@
    &&& response.cache.size_bytes == resp.cache_info.size_bytes
    &&& response.cache.last_used_utc@ == resp.cache_info.last_used_utc@
    &&& response.cache.last_refreshed_utc@ == resp.cache_info.last_refreshed_utc@
}

/// The request for the interface, given what writing the extra field as
/// text gave: the text, or the text of the error.
pub fn wit_request_with(req: ResolveComponentRequest, extra: Result<String, String>) -> (res:
    Result<WitResolveComponentRequest, DistributorError>)
    ensures
        match extra {
            Ok(text) => res is Ok && request_matches(res->Ok_0, req) && res->Ok_0.extra@ == text@,
            Err(m) => res is Err && res->Err_0@ == DistributorErrorView::Serde(m@),
        },
{
    match extra {
        Ok(text) => Ok(
            WitResolveComponentRequest {
                tenant_id: req.tenant_id,
                environment_id: req.environment_id,
                pack_id: req.pack_id,
                component_id: req.component_id,
                version: req.version,
                extra: text,
            },
        ),
        Err(m) => Err(DistributorError::Serde(m)),
    }
}

/// The request for the interface. Its extra field is what `serde_json`
/// writes for the request's; where that cannot be written, the request
/// fails with the text of the error.
pub fn to_wit_request(req: ResolveComponentRequest) -> (res: Result<
    WitResolveComponentRequest,
    DistributorError,
>)
    ensures
        match json_text(req.extra) {
            Ok(text) => res is Ok && request_matches(res->Ok_0, req) && res->Ok_0.extra@ == text,
            Err(m) => res is Err && res->Err_0@ == DistributorErrorView::Serde(m),
        },
{
    let extra = json_to_text(&req.extra);
    wit_request_with(req, extra)
}

/// The client's status for the interface's.
pub fn status_from_wit(status: WitComponentStatus) -> (out: ComponentStatus)
    ensures
        out@ == status_spec(status),
{
    match status {
        WitComponentStatus::Pending => ComponentStatus::Pending,
        WitComponentStatus::Ready => ComponentStatus::Ready,
        WitComponentStatus::Failed => ComponentStatus::Failed {
            reason: String::from_str("failed"),
        },
    }
}

/// The client's location for the interface's.
pub fn location_from_wit(location: WitArtifactLocation) -> (out: ArtifactLocation)
    ensures
        out@ == location_spec(location.kind@, location.value@),
{
    let kind = location.kind.as_str();
    if str_eq(kind, "file") || str_eq(kind, "file_path") {
        ArtifactLocation::FilePath { path: location.value }
    } else if str_eq(kind, "oci") || str_eq(kind, "oci_reference") {
        ArtifactLocation::OciReference { reference: location.value }
    } else {
        ArtifactLocation::DistributorInternal { handle: location.value }
    }
}

/// The client's answer for the interface's, given what reading the
/// signature's extra field as JSON gave: the value, or the text of the
/// error.
pub fn response_with(
    resp: WitResolveComponentResponse,
    extra: Result<serde_json::Value, String>,
) -> (res: Result<ResolveComponentResponse, DistributorError>)
    ensures
        match extra {
            Ok(value) => res is Ok && response_matches(res->Ok_0, resp)
                && res->Ok_0.signature.extra == value,
            Err(m) => res is Err && res->Err_0@ == DistributorErrorView::Serde(m@),
        },
{
    let value = match extra {
        Ok(value) => value,
        Err(m) => {
            return Err(DistributorError::Serde(m));
        },
    };
    let WitResolveComponentResponse {
        component_status,
        digest,
        artifact_location,
        signature_summary,
        cache_info,
    } = resp;
    Ok(
        ResolveComponentResponse {
            status: status_from_wit(component_status),
            digest: ComponentDigest(digest),
            artifact: location_from_wit(artifact_location),
            signature: SignatureSummary {
                verified: signature_summary.verified,
                signer: signature_summary.signer,
                extra: value,
            },
            cache: cache_info,
        },
    )
}

/// What reading the interface's answer comes to, given what reading the
/// signature's extra field as JSON gave. `res` is the answer read; the
/// extra field of its signature holds the document.
pub open spec fn response_outcome(
    res: Result<ResolveComponentResponse, DistributorError>,
    resp: WitResolveComponentResponse,
    extra: Result<JsonValue, Seq<char>>,
) -> bool {
    match extra {
        Ok(doc) => res is Ok && response_matches(res->Ok_0, resp) && json_contents(
            res->Ok_0.signature.extra,
        ) == doc,
        Err(m) => res is Err && res->Err_0@ == DistributorErrorView::Serde(m),
    }
}

/// The client's answer for the interface's. The signature's extra field
/// is read as JSON by `serde_json`; where it is no JSON text, the answer
/// fails with the text of the syntax error.
pub fn from_wit_response(resp: WitResolveComponentResponse) -> (res: Result<
    ResolveComponentResponse,
    DistributorError,
>)
    ensures
        response_outcome(res, resp, json_read_text(resp.signature_summary.extra@)),
{
    let extra = json_from_text(resp.signature_summary.extra.as_str());
    response_with(resp, extra)
}

/// What a call of the interface's `resolve-component` comes to: the
/// answer in the client's types, or the call's failure as an interface
/// error.
pub fn resolve_component(outcome: Result<WitResolveComponentResponse, String>) -> (res: Result<
    ResolveComponentResponse,
    DistributorError,
>)
    ensures
        match outcome {
            Err(m) => res is Err && res->Err_0@ == DistributorErrorView::Wit(m@),
            Ok(resp) => response_outcome(
                res,
                resp,
                json_read_text(resp.signature_summary.extra@),
            ),
        },
{
    match outcome {
        Err(m) => Err(DistributorError::Wit(m)),
        Ok(resp) => from_wit_response(resp),
    }
}

/// What a call of the interface's `get-pack-status` comes to: the status
/// as a JSON value, the call's failure as an interface error, or a
/// serialization error where the status is no JSON text.
pub fn get_pack_status(outcome: Result<String, String>) -> (res: Result<
    serde_json::Value,
    DistributorError,
>)
    ensures
        match outcome {
            Err(m) => res is Err && res->Err_0@ == DistributorErrorView::Wit(m@),
            Ok(payload) => match json_read_text(payload@) {
                Ok(doc) => res is Ok && json_contents(res->Ok_0) == doc,
                Err(m) => res is Err && res->Err_0@ == DistributorErrorView::Serde(m),
            },
        },
{
    match outcome {
        Err(m) => Err(DistributorError::Wit(m)),
        Ok(payload) => match json_from_text(payload.as_str()) {
            Ok(value) => Ok(value),
            Err(m) => Err(DistributorError::Serde(m)),
        },
    }
}

/// What a call of the interface's `warm-pack` comes to.
pub fn warm_pack(outcome: Result<(), String>) -> (res: Result<(), DistributorError>)
    ensures
        match outcome {
            Ok(_) => res is Ok,
            Err(m) => res is Err && res->Err_0@ == DistributorErrorView::Wit(m@),
        },
{
    match outcome {
        Ok(_) => Ok(()),
        Err(m) => Err(DistributorError::Wit(m)),
    }
}

} // verus!

//! The errors of the resolver, of the registry resolver and of a
//! distributor, with the message and the process exit code that belong to
//! each.

use vstd::prelude::*;
use vstd::string::*;

verus! {

/// Why a registry reference could not be resolved.
#[derive(Clone, Debug, PartialEq, Eq)]
pub enum OciComponentError {
    InvalidReference { reference: String, reason: String },
    DigestRequired { reference: String },
    OfflineTaggedReference { reference: String },
    OfflineMissing { reference: String, digest: String },
    MissingLayers { reference: String },
    MissingComponent { reference: String, media_types: String },
    DigestMismatch { reference: String, expected: String, actual: String },
    PullFailed { reference: String, source: String },
    Io { reference: String, source: String },
    Serde { reference: String, source: String },
}

/// An [`OciComponentError`] with its strings as character sequences.
pub enum OciErrorView {
    InvalidReference { reference: Seq<char>, reason: Seq<char> },
    DigestRequired { reference: Seq<char> },
    OfflineTaggedReference { reference: Seq<char> },
    OfflineMissing { reference: Seq<char>, digest: Seq<char> },
    MissingLayers { reference: Seq<char> },
    MissingComponent { reference: Seq<char>, media_types: Seq<char> },
    DigestMismatch { reference: Seq<char>, expected: Seq<char>, actual: Seq<char> },
    PullFailed { reference: Seq<char>, source: Seq<char> },
    Io { reference: Seq<char>, source: Seq<char> },
    Serde { reference: Seq<char>, source: Seq<char> },
}

impl View for OciComponentError {
    type V = OciErrorView;

    open spec fn view(&self) -> OciErrorView {
        match *self {
            OciComponentError::InvalidReference { reference, reason } => {
                OciErrorView::InvalidReference { reference: reference@, reason: reason@ }
            },
            OciComponentError::DigestRequired { reference } => OciErrorView::DigestRequired {
                reference: reference@,
            },
            OciComponentError::OfflineTaggedReference {
                reference,
            } => OciErrorView::OfflineTaggedReference { reference: reference@ },
            OciComponentError::OfflineMissing { reference, digest } => {
                OciErrorView::OfflineMissing { reference: reference@, digest: digest@ }
            },
            OciComponentError::MissingLayers { reference } => OciErrorView::MissingLayers {
                reference: reference@,
            },
            OciComponentError::MissingComponent { reference, media_types } => {
                OciErrorView::MissingComponent { reference: reference@, media_types: media_types@ }
            },
            OciComponentError::DigestMismatch { reference, expected, actual } => {
                OciErrorView::DigestMismatch {
                    reference: reference@,
                    expected: expected@,
                    actual: actual@,
                }
            },
            OciComponentError::PullFailed { reference, source } => OciErrorView::PullFailed {
                reference: reference@,
                source: source@,
            },
            OciComponentError::Io { reference, source } => OciErrorView::Io {
                reference: reference@,
                source: source@,
            },
            OciComponentError::Serde { reference, source } => OciErrorView::Serde {
                reference: reference@,
                source: source@,
            },
        }
    }
}

impl OciErrorView {
    /// The text shown for the error.
    pub open spec fn message(self) -> Seq<char> {
        match self {
            OciErrorView::InvalidReference { reference, reason } => "invalid OCI reference `"@
                + reference + "`: "@ + reason,
            OciErrorView::DigestRequired { reference } => "digest pin required for `"@ + reference
                + "` (rerun with --allow-tags to permit tag refs)"@,
            OciErrorView::OfflineTaggedReference { reference } =>
                "offline mode prohibits tagged reference `"@ + reference
                + "`; pin by digest first"@,
            OciErrorView::OfflineMissing { reference, digest } =>
                "offline mode could not find cached component for `"@ + reference
                + "` (digest `"@ + digest + "`)"@,
            OciErrorView::MissingLayers { reference } => "no layers returned for `"@ + reference
                + "`"@,
            OciErrorView::MissingComponent { reference, media_types } =>
                "component layer missing for `"@ + reference + "`; tried media types "@
                + media_types,
            OciErrorView::DigestMismatch { reference, expected, actual } =>
                "digest mismatch for `"@ + reference + "`: expected "@ + expected + ", got "@
                + actual,
            OciErrorView::PullFailed { reference, source } => "failed to pull `"@ + reference
                + "`: "@ + source,
            OciErrorView::Io { reference, source } => "io error while caching `"@ + reference
                + "`: "@ + source,
            OciErrorView::Serde { reference, source } =>
                "failed to serialize cache metadata for `"@ + reference + "`: "@ + source,
        }
    }

    /// The error says that offline mode stood in the way.
    pub open spec fn is_offline(self) -> bool {
        self is OfflineTaggedReference || self is OfflineMissing
    }
}

impl OciComponentError {
    /// The text shown for the error.
    pub fn message(&self) -> (out: String)
        ensures
            out@ == self@.message(),
    {
        match self {
            OciComponentError::InvalidReference { reference, reason } => String::from_str(
                "invalid OCI reference `",
            ).concat(reference.as_str()).concat("`: ").concat(reason.as_str()),
            OciComponentError::DigestRequired { reference } => String::from_str(
                "digest pin required for `",
            ).concat(reference.as_str()).concat("` (rerun with --allow-tags to permit tag refs)"),
            OciComponentError::OfflineTaggedReference { reference } => String::from_str(
                "offline mode prohibits tagged reference `",
            ).concat(reference.as_str()).concat("`; pin by digest first"),
            OciComponentError::OfflineMissing { reference, digest } => String::from_str(
                "offline mode could not find cached component for `",
            ).concat(reference.as_str()).concat("` (digest `").concat(digest.as_str()).concat(
                "`)",
            ),
            OciComponentError::MissingLayers { reference } => String::from_str(
                "no layers returned for `",
            ).concat(reference.as_str()).concat("`"),
            OciComponentError::MissingComponent { reference, media_types } => String::from_str(
                "component layer missing for `",
            ).concat(reference.as_str()).concat("`; tried media types ").concat(
                media_types.as_str(),
            ),
            OciComponentError::DigestMismatch { reference, expected, actual } => String::from_str(
                "digest mismatch for `",
            ).concat(reference.as_str()).concat("`: expected ").concat(expected.as_str()).concat(
                ", got ",
            ).concat(actual.as_str()),
            OciComponentError::PullFailed { reference, source } => String::from_str(
                "failed to pull `",
            ).concat(reference.as_str()).concat("`: ").concat(source.as_str()),
            OciComponentError::Io { reference, source } => String::from_str(
                "io error while caching `",
            ).concat(reference.as_str()).concat("`: ").concat(source.as_str()),
            OciComponentError::Serde { reference, source } => String::from_str(
                "failed to serialize cache metadata for `",
            ).concat(reference.as_str()).concat("`: ").concat(source.as_str()),
        }
    }

    /// A copy of the error.
    pub fn duplicate(&self) -> (out: OciComponentError)
        ensures
            out@ == self@,
    {
        match self {
            OciComponentError::InvalidReference { reference, reason } => {
                OciComponentError::InvalidReference {
                    reference: reference.clone(),
                    reason: reason.clone(),
                }
            },
            OciComponentError::DigestRequired { reference } => OciComponentError::DigestRequired {
                reference: reference.clone(),
            },
            OciComponentError::OfflineTaggedReference { reference } => {
                OciComponentError::OfflineTaggedReference { reference: reference.clone() }
            },
            OciComponentError::OfflineMissing { reference, digest } => {
                OciComponentError::OfflineMissing {
                    reference: reference.clone(),
                    digest: digest.clone(),
                }
            },
            OciComponentError::MissingLayers { reference } => OciComponentError::MissingLayers {
                reference: reference.clone(),
            },
            OciComponentError::MissingComponent { reference, media_types } => {
                OciComponentError::MissingComponent {
                    reference: reference.clone(),
                    media_types: media_types.clone(),
                }
            },
            OciComponentError::DigestMismatch { reference, expected, actual } => {
                OciComponentError::DigestMismatch {
                    reference: reference.clone(),
                    expected: expected.clone(),
                    actual: actual.clone(),
                }
            },
            OciComponentError::PullFailed { reference, source } => OciComponentError::PullFailed {
                reference: reference.clone(),
                source: source.clone(),
            },
            OciComponentError::Io { reference, source } => OciComponentError::Io {
                reference: reference.clone(),
                source: source.clone(),
            },
            OciComponentError::Serde { reference, source } => OciComponentError::Serde {
                reference: reference.clone(),
                source: source.clone(),
            },
        }
    }
}

/// Why the resolver failed.
#[derive(Clone, Debug, PartialEq, Eq)]
pub enum DistError {
    InvalidReference { reference: String },
    InvalidInput(String),
    Offline { reference: String },
    CacheMiss { reference: String },
    AuthRequired { target: String },
    Io(String),
    Http(String),
    Oci(OciComponentError),
    Serde(String),
}

/// A [`DistError`] with its strings as character sequences.
pub enum DistErrorView {
    InvalidReference { reference: Seq<char> },
    InvalidInput(Seq<char>),
    Offline { reference: Seq<char> },
    CacheMiss { reference: Seq<char> },
    AuthRequired { target: Seq<char> },
    Io(Seq<char>),
    Http(Seq<char>),
    Oci(OciErrorView),
    Serde(Seq<char>),
}

impl View for DistError {
    type V = DistErrorView;

    open spec fn view(&self) -> DistErrorView {
        match *self {
            DistError::InvalidReference { reference } => DistErrorView::InvalidReference {
                reference: reference@,
            },
            DistError::InvalidInput(m) => DistErrorView::InvalidInput(m@),
            DistError::Offline { reference } => DistErrorView::Offline { reference: reference@ },
            DistError::CacheMiss { reference } => DistErrorView::CacheMiss {
                reference: reference@,
            },
            DistError::AuthRequired { target } => DistErrorView::AuthRequired { target: target@ },
            DistError::Io(m) => DistErrorView::Io(m@),
            DistError::Http(m) => DistErrorView::Http(m@),
            DistError::Oci(e) => DistErrorView::Oci(e@),
            DistError::Serde(m) => DistErrorView::Serde(m@),
        }
    }
}

impl DistErrorView {
    /// The text shown for the error.
    pub open spec fn message(self) -> Seq<char> {
        match self {
            DistErrorView::InvalidReference { reference } => "invalid reference `"@ + reference
                + "`"@,
            DistErrorView::InvalidInput(m) => "invalid input: "@ + m,
            DistErrorView::Offline { reference } => "offline mode forbids fetching `"@ + reference
                + "`"@,
            DistErrorView::CacheMiss { reference } => "reference `"@ + reference
                + "` is not cached"@,
            DistErrorView::AuthRequired { target } => "auth not implemented for `"@ + target
                + "`"@,
            DistErrorView::Io(m) => "io error: "@ + m,
            DistErrorView::Http(m) => "http error: "@ + m,
            DistErrorView::Oci(e) => "oci error: "@ + e.message(),
            DistErrorView::Serde(m) => "invalid lockfile: "@ + m,
        }
    }

    /// The exit code of a command-line driver that ends on this error:
    /// 2 for a bad reference, bad input or a bad lockfile, 3 for a cache
    /// miss, 4 where offline mode forbade the work, 5 where a login would
    /// be needed, 10 for every other failure.
    pub open spec fn exit_code(self) -> int {
        match self {
            DistErrorView::InvalidReference { .. } => 2,
            DistErrorView::InvalidInput(_) => 2,
            DistErrorView::Serde(_) => 2,
            DistErrorView::CacheMiss { .. } => 3,
            DistErrorView::Offline { .. } => 4,
            DistErrorView::AuthRequired { .. } => 5,
            DistErrorView::Oci(e) => if e is InvalidReference {
                2
            } else if e.is_offline() {
                4
            } else {
                10
            },
            DistErrorView::Io(_) => 10,
            DistErrorView::Http(_) => 10,
        }
    }
}

impl DistError {
    /// The exit code that belongs to the error.
    pub fn exit_code(&self) -> (code: i32)
        ensures
            code == self@.exit_code(),
    {
        match self {
            DistError::InvalidReference { .. } => 2,
            DistError::InvalidInput(_) => 2,
            DistError::Serde(_) => 2,
            DistError::CacheMiss { .. } => 3,
            DistError::Offline { .. } => 4,
            DistError::AuthRequired { .. } => 5,
            DistError::Oci(e) => match e {
                OciComponentError::InvalidReference { .. } => 2,
                OciComponentError::OfflineTaggedReference { .. } => 4,
                OciComponentError::OfflineMissing { .. } => 4,
                _ => 10,
            },
            DistError::Io(_) => 10,
            DistError::Http(_) => 10,
        }
    }

    /// The text shown for the error.
    pub fn message(&self) -> (out: String)
        ensures
            out@ == self@.message(),
    {
        match self {
            DistError::InvalidReference { reference } => String::from_str(
                "invalid reference `",
            ).concat(reference.as_str()).concat("`"),
            DistError::InvalidInput(m) => String::from_str("invalid input: ").concat(m.as_str()),
            DistError::Offline { reference } => String::from_str(
                "offline mode forbids fetching `",
            ).concat(reference.as_str()).concat("`"),
            DistError::CacheMiss { reference } => String::from_str("reference `").concat(
                reference.as_str(),
            ).concat("` is not cached"),
            DistError::AuthRequired { target } => String::from_str(
                "auth not implemented for `",
            ).concat(target.as_str()).concat("`"),
            DistError::Io(m) => String::from_str("io error: ").concat(m.as_str()),
            DistError::Http(m) => String::from_str("http error: ").concat(m.as_str()),
            DistError::Oci(e) => {
                let inner = e.message();
                String::from_str("oci error: ").concat(inner.as_str())
            },
            DistError::Serde(m) => String::from_str("invalid lockfile: ").concat(m.as_str()),
        }
    }
}

/// Why a distributor could not serve a request.
#[derive(Clone, Debug, PartialEq, Eq)]
pub enum DistributorError {
    Io(String),
    Config(String),
    Http(String),
    Wit(String),
    InvalidResponse(String),
    NotFound,
    PermissionDenied,
    /// An HTTP status that was not expected, as text, and the body that
    /// came with it.
    Status { status: String, body: String },
    Serde(String),
    Other(String),
}

/// A [`DistributorError`] with its strings as character sequences.
pub enum DistributorErrorView {
    Io(Seq<char>),
    Config(Seq<char>),
    Http(Seq<char>),
    Wit(Seq<char>),
    InvalidResponse(Seq<char>),
    NotFound,
    PermissionDenied,
    Status { status: Seq<char>, body: Seq<char> },
    Serde(Seq<char>),
    Other(Seq<char>),
}

impl View for DistributorError {
    type V = DistributorErrorView;

    open spec fn view(&self) -> DistributorErrorView {
        match *self {
            DistributorError::Io(m) => DistributorErrorView::Io(m@),
            DistributorError::Config(m) => DistributorErrorView::Config(m@),
            DistributorError::Http(m) => DistributorErrorView::Http(m@),
            DistributorError::Wit(m) => DistributorErrorView::Wit(m@),
            DistributorError::InvalidResponse(m) => DistributorErrorView::InvalidResponse(m@),
            DistributorError::NotFound => DistributorErrorView::NotFound,
            DistributorError::PermissionDenied => DistributorErrorView::PermissionDenied,
            DistributorError::Status { status, body } => DistributorErrorView::Status {
                status: status@,
                body: body@,
            },
            DistributorError::Serde(m) => DistributorErrorView::Serde(m@),
            DistributorError::Other(m) => DistributorErrorView::Other(m@),
        }
    }
}

impl DistributorErrorView {
    /// The text shown for the error.
    pub open spec fn message(self) -> Seq<char> {
        match self {
            DistributorErrorView::Io(m) => "io error: "@ + m,
            DistributorErrorView::Config(m) => "configuration error: "@ + m,
            DistributorErrorView::Http(m) => "http error: "@ + m,
            DistributorErrorView::Wit(m) => "wit error: "@ + m,
            DistributorErrorView::InvalidResponse(m) => "invalid response: "@ + m,
            DistributorErrorView::NotFound => "resource not found"@,
            DistributorErrorView::PermissionDenied => "permission denied"@,
            DistributorErrorView::Status { status, body } => "unexpected status "@ + status
                + ": "@ + body,
            DistributorErrorView::Serde(m) => "serialization error: "@ + m,
            DistributorErrorView::Other(m) => "other distributor error: "@ + m,
        }
    }
}

impl DistributorError {
    /// The text shown for the error.
    pub fn message(&self) -> (out: String)
        ensures
            out@ == self@.message(),
    {
        match self {
            DistributorError::Io(m) => String::from_str("io error: ").concat(m.as_str()),
            DistributorError::Config(m) => String::from_str("configuration error: ").concat(
                m.as_str(),
            ),
            DistributorError::Http(m) => String::from_str("http error: ").concat(m.as_str()),
            DistributorError::Wit(m) => String::from_str("wit error: ").concat(m.as_str()),
            DistributorError::InvalidResponse(m) => String::from_str("invalid response: ").concat(
                m.as_str(),
            ),
            DistributorError::NotFound => String::from_str("resource not found"),
            DistributorError::PermissionDenied => String::from_str("permission denied"),
            DistributorError::Status { status, body } => String::from_str(
                "unexpected status ",
            ).concat(status.as_str()).concat(": ").concat(body.as_str()),
            DistributorError::Serde(m) => String::from_str("serialization error: ").concat(
                m.as_str(),
            ),
            DistributorError::Other(m) => String::from_str("other distributor error: ").concat(
                m.as_str(),
            ),
        }
    }
}

} // verus!

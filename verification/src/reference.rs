//! Reference strings: what kind of thing a user-supplied reference names.
//!
//! A reference is trimmed of the white space around it and then
//! classified in a fixed order: a digest first, then a URL with a known
//! scheme, then an existing local path, then a registry reference. Whether
//! the path exists is the caller's observation; this module never touches
//! the file system.

use crate::digest::{
    has_sha256_prefix, is_digest, is_digest_spec, normalize_digest, normalize_spec,
    starts_with_sha256,
};
use crate::error::DistError;
use crate::error::DistErrorView;
use crate::text::{opt_chars, str_eq, trim, trimmed};
use vstd::prelude::*;
use vstd::string::*;

verus! {

/// A parsed registry reference.
#[derive(Clone, Debug, PartialEq, Eq)]
pub struct OciReference {
    pub registry: String,
    pub repository: String,
    pub tag: Option<String>,
    pub digest: Option<String>,
}

/// An [`OciReference`] with its strings as character sequences.
pub struct OciReferenceView {
    pub registry: Seq<char>,
    pub repository: Seq<char>,
    pub tag: Option<Seq<char>>,
    pub digest: Option<Seq<char>>,
}

impl View for OciReference {
    type V = OciReferenceView;

    open spec fn view(&self) -> OciReferenceView {
        OciReferenceView {
            registry: self.registry@,
            repository: self.repository@,
            tag: opt_chars(self.tag),
            digest: opt_chars(self.digest),
        }
    }
}

impl OciReferenceView {
    /// The reference is pinned: it carries a digest that starts with
    /// `sha256:`.
    pub open spec fn is_pinned(self) -> bool {
        self.digest is Some && has_sha256_prefix(self.digest->0)
    }

    /// The digest that a pull has to produce, normalized, where the
    /// reference carries one.
    pub open spec fn expected_digest(self) -> Option<Seq<char>> {
        match self.digest {
            Some(d) => Some(normalize_spec(d)),
            None => None,
        }
    }
}

/// What the registry reference grammar makes of `input`: the parts of the
/// reference, or the reason why it is none.
pub uninterp spec fn oci_reference_parse(input: Seq<char>) -> Result<OciReferenceView, Seq<char>>;

/// The scheme of `input` read as a URL, where it is one.
pub uninterp spec fn url_scheme_of(input: Seq<char>) -> Option<Seq<char>>;

/// Calls `oci_distribution::Reference::try_from` on `input` and copies out
/// the registry, repository, tag and digest, or the text of the parse error.
/// Trusted: the outcome is a function of the input alone.
#[verifier::external_body]
fn parse_reference_parts(input: &str) -> (res: Result<OciReference, String>)
    ensures
        match res {
            Ok(r) => oci_reference_parse(input@) == Ok::<OciReferenceView, Seq<char>>(r@),
            Err(e) => oci_reference_parse(input@) == Err::<OciReferenceView, Seq<char>>(e@),
        },
{
    match oci_distribution::Reference::try_from(input) {
        Ok(r) => Ok(
            OciReference {
                registry: r.registry().to_owned(),
                repository: r.repository().to_owned(),
                tag: r.tag().map(str::to_owned),
                digest: r.digest().map(str::to_owned),
            },
        ),
        Err(e) => Err(e.to_string()),
    }
}

/// Calls `reqwest::Url::parse` on `input` and, where that succeeds,
/// `Url::scheme`. Trusted: the outcome is a function of the input alone.
#[verifier::external_body]
fn url_scheme(input: &str) -> (res: Option<String>)
    ensures
        opt_chars(res) == url_scheme_of(input@),
{
    match reqwest::Url::parse(input) {
        Ok(url) => Some(url.scheme().to_owned()),
        Err(_) => None,
    }
}

/// Calls `reqwest::Url::parse` on `input` and then `Url::to_file_path`,
/// and hands the path back where it is valid UTF-8. What path a URL maps
/// to depends on the platform, so nothing is claimed of the result.
#[verifier::external_body]
fn url_file_path(input: &str) -> Option<String> {
    match reqwest::Url::parse(input) {
        Ok(url) => match url.to_file_path() {
            Ok(path) => path.to_str().map(str::to_owned),
            Err(_) => None,
        },
        Err(_) => None,
    }
}

impl OciReference {
    /// Parses a registry reference such as `host/name:tag@sha256:...`.
    pub fn parse(input: &str) -> (res: Result<OciReference, String>)
        ensures
            match res {
                Ok(r) => oci_reference_parse(input@) == Ok::<OciReferenceView, Seq<char>>(r@),
                Err(e) => oci_reference_parse(input@) == Err::<OciReferenceView, Seq<char>>(e@),
            },
    {
        parse_reference_parts(input)
    }

    /// True iff the reference carries a digest that starts with `sha256:`.
    pub fn is_pinned(&self) -> (b: bool)
        ensures
            b == self@.is_pinned(),
    {
        match &self.digest {
            Some(d) => starts_with_sha256(d.as_str()),
            None => false,
        }
    }

    /// The normalized digest that the reference asks for, if any.
    pub fn expected_digest(&self) -> (out: Option<String>)
        ensures
            opt_chars(out) == self@.expected_digest(),
    {
        match &self.digest {
            Some(d) => Some(normalize_digest(d.as_str())),
            None => None,
        }
    }
}

/// The kind of a reference, with what the resolver needs of it.
#[derive(Clone, Debug, PartialEq, Eq)]
pub enum RefKind {
    /// A digest, normalized.
    Digest(String),
    /// An `http` or `https` URL, as given.
    Http(String),
    /// A local path.
    File(String),
    /// A registry reference, without any `oci://` in front.
    Oci(String),
    /// A `repo://` target, as given.
    Repo(String),
    /// A `store://` target, as given.
    Store(String),
}

/// A [`RefKind`] with its string as a character sequence.
pub enum RefKindView {
    Digest(Seq<char>),
    Http(Seq<char>),
    File(Seq<char>),
    Oci(Seq<char>),
    Repo(Seq<char>),
    Store(Seq<char>),
}

impl View for RefKind {
    type V = RefKindView;

    open spec fn view(&self) -> RefKindView {
        match *self {
            RefKind::Digest(s) => RefKindView::Digest(s@),
            RefKind::Http(s) => RefKindView::Http(s@),
            RefKind::File(s) => RefKindView::File(s@),
            RefKind::Oci(s) => RefKindView::Oci(s@),
            RefKind::Repo(s) => RefKindView::Repo(s@),
            RefKind::Store(s) => RefKindView::Store(s@),
        }
    }
}

/// The characters of `oci://`.
pub open spec fn oci_scheme_prefix() -> Seq<char> {
    seq!['o', 'c', 'i', ':', '/', '/']
}

/// `s` without any run of `oci://` at its front.
pub open spec fn strip_oci_scheme(s: Seq<char>) -> Seq<char>
    decreases s.len(),
{
    if oci_scheme_prefix().is_prefix_of(s) {
        strip_oci_scheme(s.skip(6))
    } else {
        s
    }
}

/// The classification rule, on a reference without white space around
/// it. `scheme` is the URL scheme of `input` if it parses as a URL,
/// `file_path` the local path of a `file` URL if it has one,
/// `path_exists` whether `input` names an existing path, and `oci_ok`
/// whether `input` parses as a registry reference. `None` means that the
/// reference is invalid.
pub open spec fn classify_spec(
    input: Seq<char>,
    scheme: Option<Seq<char>>,
    file_path: Option<Seq<char>>,
    path_exists: bool,
    oci_ok: bool,
) -> Option<RefKindView> {
    if is_digest_spec(input) {
        Some(RefKindView::Digest(normalize_spec(input)))
    } else if scheme == Some("http"@) || scheme == Some("https"@) {
        Some(RefKindView::Http(input))
    } else if scheme == Some("file"@) && file_path is Some {
        Some(RefKindView::File(file_path->0))
    } else if scheme == Some("oci"@) {
        Some(RefKindView::Oci(strip_oci_scheme(input)))
    } else if scheme == Some("repo"@) {
        Some(RefKindView::Repo(input))
    } else if scheme == Some("store"@) {
        Some(RefKindView::Store(input))
    } else if path_exists {
        Some(RefKindView::File(input))
    } else if oci_ok {
        Some(RefKindView::Oci(input))
    } else {
        None
    }
}

/// What a classification returns: the kind that was found, or the
/// invalid-reference error that names the input.
pub open spec fn classify_outcome(input: Seq<char>, found: Option<RefKindView>) -> Result<
    RefKindView,
    DistErrorView,
> {
    match found {
        Some(k) => Ok(k),
        None => Err(DistErrorView::InvalidReference { reference: input }),
    }
}

/// The view of a classification result.
pub open spec fn classified_view(res: Result<RefKind, DistError>) -> Result<
    RefKindView,
    DistErrorView,
> {
    match res {
        Ok(k) => Ok(k@),
        Err(e) => Err(e@),
    }
}

/// Tests whether `s` begins with `oci://`.
fn starts_with_oci_scheme(s: &str, n: usize, from: usize) -> (b: bool)
    requires
        n == s@.len(),
        from <= n,
    ensures
        b == oci_scheme_prefix().is_prefix_of(s@.skip(from as int)),
{
    if n - from < 6 {
        return false;
    }
    let b = s.get_char(from) == 'o' && s.get_char(from + 1) == 'c' && s.get_char(from + 2) == 'i'
        && s.get_char(from + 3) == ':' && s.get_char(from + 4) == '/' && s.get_char(from + 5)
        == '/';
    proof {
        let t = s@.skip(from as int);
        if b {
            assert(t.subrange(0, 6) =~= oci_scheme_prefix());
        } else {
            if oci_scheme_prefix().is_prefix_of(t) {
                assert(t[0] == 'o' && t[1] == 'c' && t[2] == 'i' && t[3] == ':' && t[4] == '/'
                    && t[5] == '/');
            }
        }
    }
    b
}

/// Removes every `oci://` that stands at the front of `input`.
pub fn trim_oci_scheme(input: &str) -> (out: &str)
    ensures
        out@ == strip_oci_scheme(input@),
{
    let n: usize = input.unicode_len();
    let mut from: usize = 0;
    proof {
        assert(input@.skip(0) =~= input@);
    }
    while starts_with_oci_scheme(input, n, from)
        invariant
            from <= n,
            n == input@.len(),
            strip_oci_scheme(input@) == strip_oci_scheme(input@.skip(from as int)),
        decreases n - from,
    {
        proof {
            assert(input@.skip(from as int).skip(6) =~= input@.skip(from + 6));
        }
        from = from + 6;
    }
    proof {
        assert(input@.subrange(from as int, n as int) =~= input@.skip(from as int));
    }
    input.substring_char(from, n)
}

/// Tests whether an optional scheme is the given one.
fn scheme_is(scheme: &Option<String>, name: &str) -> (b: bool)
    ensures
        b == (opt_chars(*scheme) == Some(name@)),
{
    match scheme {
        Some(s) => str_eq(s.as_str(), name),
        None => false,
    }
}

/// Classifies `input` from what is known of it without the white space
/// around it: its URL scheme, the local path of a `file` URL, whether it
/// names an existing path, and whether it parses as a registry reference.
/// The kind carries the trimmed text; the error names the input as it was
/// given.
pub fn classify_with(
    input: &str,
    scheme: &Option<String>,
    file_path: Option<String>,
    path_exists: bool,
    oci_ok: bool,
) -> (res: Result<RefKind, DistError>)
    ensures
        classified_view(res) == classify_outcome(
            input@,
            classify_spec(
                trimmed(input@),
                opt_chars(*scheme),
                opt_chars(file_path),
                path_exists,
                oci_ok,
            ),
        ),
{
    let text = trim(input);
    if is_digest(text) {
        return Ok(RefKind::Digest(normalize_digest(text)));
    }
    if scheme_is(scheme, "http") || scheme_is(scheme, "https") {
        return Ok(RefKind::Http(text.to_owned()));
    }
    if scheme_is(scheme, "file") {
        if let Some(path) = file_path {
            return Ok(RefKind::File(path));
        }
    }
    if scheme_is(scheme, "oci") {
        return Ok(RefKind::Oci(trim_oci_scheme(text).to_owned()));
    }
    if scheme_is(scheme, "repo") {
        return Ok(RefKind::Repo(text.to_owned()));
    }
    if scheme_is(scheme, "store") {
        return Ok(RefKind::Store(text.to_owned()));
    }
    if path_exists {
        return Ok(RefKind::File(text.to_owned()));
    }
    if oci_ok {
        Ok(RefKind::Oci(text.to_owned()))
    } else {
        Err(DistError::InvalidReference { reference: input.to_owned() })
    }
}

/// Classifies a reference. White space around `input` does not count:
/// the rule is applied to the trimmed text. `path_exists` says whether
/// the trimmed text, read as a path, names something that exists now.
///
/// The result follows [`classify_spec`] on the URL scheme and the
/// registry grammar's answer for the trimmed text. Only for a `file` URL
/// does it depend on more: on the local path that the platform gives the
/// URL.
pub fn classify_reference(input: &str, path_exists: bool) -> (res: Result<RefKind, DistError>)
    ensures
        exists|file_path: Option<Seq<char>>|
            classified_view(res) == classify_outcome(
                input@,
                #[trigger] classify_spec(
                    trimmed(input@),
                    url_scheme_of(trimmed(input@)),
                    file_path,
                    path_exists,
                    oci_reference_parse(trimmed(input@)) is Ok,
                ),
            ),
        is_digest_spec(trimmed(input@)) ==> classified_view(res) == Ok::<
            RefKindView,
            DistErrorView,
        >(RefKindView::Digest(trimmed(input@))),
        url_scheme_of(trimmed(input@)) != Some("file"@) ==> classified_view(res)
            == classify_outcome(
            input@,
            classify_spec(
                trimmed(input@),
                url_scheme_of(trimmed(input@)),
                None,
                path_exists,
                oci_reference_parse(trimmed(input@)) is Ok,
            ),
        ),
{
    let text = trim(input);
    let scheme = url_scheme(text);
    let file_path = if scheme_is(&scheme, "file") {
        url_file_path(text)
    } else {
        None
    };
    let oci_ok = parse_reference_parts(text).is_ok();
    let ghost fp = opt_chars(file_path);
    let res = classify_with(input, &scheme, file_path, path_exists, oci_ok);
    proof {
        assert(classified_view(res) == classify_outcome(
            input@,
            classify_spec(
                trimmed(input@),
                url_scheme_of(trimmed(input@)),
                fp,
                path_exists,
                oci_reference_parse(trimmed(input@)) is Ok,
            ),
        ));
    }
    res
}

} // verus!

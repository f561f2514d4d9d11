//! Lockfiles: a list of references, most of them pinned to a digest.
//!
//! A lockfile is a JSON document in one of two shapes, a bare list of
//! entries or an object that holds the list under `components`. Pulling a
//! lockfile
//! resolves its entries one after the other, in the order of the file, and
//! stops at the first that fails.

use crate::dist::{ResolvedArtifact, ResolvedArtifactView};
use crate::error::{DistError, DistErrorView};
use crate::json::{
    find_member, json_read_text, member_value, optional_text, optional_unsigned, parse_json,
    text_member, unsigned_member, JsonMember, JsonValue,
};
use crate::text::{clone_opt, opt_chars};
use vstd::prelude::*;
use vstd::string::*;

verus! {

/// An entry written as an object. Keys other than these four are not kept.
#[derive(Clone, Debug, PartialEq, Eq)]
pub struct LockComponent {
    pub reference: Option<String>,
    pub ref_field: Option<String>,
    pub digest: Option<String>,
    pub name: Option<String>,
}

/// A [`LockComponent`] with its strings as character sequences.
pub struct LockComponentView {
    pub reference: Option<Seq<char>>,
    pub ref_field: Option<Seq<char>>,
    pub digest: Option<Seq<char>>,
    pub name: Option<Seq<char>>,
}

impl View for LockComponent {
    type V = LockComponentView;

    open spec fn view(&self) -> LockComponentView {
        LockComponentView {
            reference: opt_chars(self.reference),
            ref_field: opt_chars(self.ref_field),
            digest: opt_chars(self.digest),
            name: opt_chars(self.name),
        }
    }
}

/// An entry of a lockfile: a bare reference, or an object.
#[derive(Clone, Debug, PartialEq, Eq)]
pub enum LockEntry {
    String(String),
    Object(LockComponent),
}

/// A [`LockEntry`] with its strings as character sequences.
pub enum LockEntryView {
    String(Seq<char>),
    Object(LockComponentView),
}

impl View for LockEntry {
    type V = LockEntryView;

    open spec fn view(&self) -> LockEntryView {
        match *self {
            LockEntry::String(s) => LockEntryView::String(s@),
            LockEntry::Object(c) => LockEntryView::Object(c@),
        }
    }
}

/// The views of a list of entries as written.
pub open spec fn written_views(entries: Seq<LockEntry>) -> Seq<LockEntryView> {
    Seq::new(entries.len(), |i: int| entries[i]@)
}

/// The object shape of a lockfile. The schema version is read and not
/// used.
#[derive(Clone, Debug, PartialEq, Eq)]
pub struct LockFile {
    pub schema_version: Option<u64>,
    pub components: Vec<LockEntry>,
}

/// A [`LockFile`] as plain values.
pub struct LockFileView {
    pub schema_version: Option<u64>,
    pub components: Seq<LockEntryView>,
}

impl View for LockFile {
    type V = LockFileView;

    open spec fn view(&self) -> LockFileView {
        LockFileView {
            schema_version: self.schema_version,
            components: written_views(self.components@),
        }
    }
}

/// What an entry asks for: a reference, and the digest it is pinned to.
#[derive(Clone, Debug, PartialEq, Eq)]
pub struct LockResolvedEntry {
    pub reference: Option<String>,
    pub digest: Option<String>,
}

/// A [`LockResolvedEntry`] with its strings as character sequences.
pub struct LockResolvedView {
    pub reference: Option<Seq<char>>,
    pub digest: Option<Seq<char>>,
}

impl View for LockResolvedEntry {
    type V = LockResolvedView;

    open spec fn view(&self) -> LockResolvedView {
        LockResolvedView { reference: opt_chars(self.reference), digest: opt_chars(self.digest) }
    }
}

/// The first of two optional values that is there.
pub open spec fn first_of(a: Option<Seq<char>>, b: Option<Seq<char>>) -> Option<Seq<char>> {
    if a is Some {
        a
    } else {
        b
    }
}

/// What an entry asks for. A bare string is a reference without a digest.
/// An object's reference is its `reference`, else its `ref`, else its
/// `digest`.
pub open spec fn resolved_entry(entry: LockEntryView) -> LockResolvedView {
    match entry {
        LockEntryView::String(s) => LockResolvedView { reference: Some(s), digest: None },
        LockEntryView::Object(c) => LockResolvedView {
            reference: first_of(c.reference, first_of(c.ref_field, c.digest)),
            digest: c.digest,
        },
    }
}

/// What each entry of a list asks for, in the order of the list.
pub open spec fn resolved_entries(entries: Seq<LockEntryView>) -> Seq<LockResolvedView> {
    Seq::new(entries.len(), |i: int| resolved_entry(entries[i]))
}

/// The views of a list of entries.
pub open spec fn entry_views(entries: Seq<LockResolvedEntry>) -> Seq<LockResolvedView> {
    Seq::new(entries.len(), |i: int| entries[i]@)
}

impl LockEntry {
    /// What the entry asks for.
    pub fn to_resolved(&self) -> (out: LockResolvedEntry)
        ensures
            out@ == resolved_entry(self@),
    {
        match self {
            LockEntry::String(s) => LockResolvedEntry { reference: Some(s.clone()), digest: None },
            LockEntry::Object(c) => {
                let reference = if c.reference.is_some() {
                    clone_opt(&c.reference)
                } else if c.ref_field.is_some() {
                    clone_opt(&c.ref_field)
                } else {
                    clone_opt(&c.digest)
                };
                LockResolvedEntry { reference, digest: clone_opt(&c.digest) }
            },
        }
    }
}

fn resolve_all(entries: &Vec<LockEntry>) -> (out: Vec<LockResolvedEntry>)
    ensures
        entry_views(out@) == resolved_entries(written_views(entries@)),
{
    let mut out: Vec<LockResolvedEntry> = Vec::new();
    let mut i: usize = 0;
    while i < entries.len()
        invariant
            i <= entries.len(),
            out@.len() == i,
            forall|j: int| 0 <= j < i ==> (#[trigger] out@[j])@ == resolved_entry(entries@[j]@),
        decreases entries.len() - i,
    {
        out.push(entries[i].to_resolved());
        i = i + 1;
    }
    assert(entry_views(out@) =~= resolved_entries(written_views(entries@)));
    out
}

/// The entry that an object stands for: each of `reference`, `ref`,
/// `digest` and `name` is a string, null or missing. Other keys are not
/// looked at.
pub open spec fn component_of(members: Seq<JsonMember>) -> Option<LockComponentView> {
    let reference = optional_text(members, "reference"@);
    let ref_field = optional_text(members, "ref"@);
    let digest = optional_text(members, "digest"@);
    let name = optional_text(members, "name"@);
    if reference is Some && ref_field is Some && digest is Some && name is Some {
        Some(
            LockComponentView {
                reference: reference->0,
                ref_field: ref_field->0,
                digest: digest->0,
                name: name->0,
            },
        )
    } else {
        None
    }
}

/// The entry that a value stands for: a string or an object.
pub open spec fn entry_of(value: JsonValue) -> Option<LockEntryView> {
    match value {
        JsonValue::String(s) => Some(LockEntryView::String(s@)),
        JsonValue::Object(members) => match component_of(members@) {
            Some(c) => Some(LockEntryView::Object(c)),
            None => None,
        },
        _ => None,
    }
}

/// The entries that a list of values stands for, if each stands for one.
pub open spec fn entries_of(items: Seq<JsonValue>) -> Option<Seq<LockEntryView>> {
    if forall|i: int| 0 <= i < items.len() ==> entry_of(#[trigger] items[i]) is Some {
        Some(Seq::new(items.len(), |i: int| entry_of(items[i])->0))
    } else {
        None
    }
}

/// The lockfile that an object stands for: `schema_version` is a whole
/// number, null or missing; `components` is a list of entries, or missing
/// for none. Other keys are not looked at.
pub open spec fn lockfile_of(members: Seq<JsonMember>) -> Option<LockFileView> {
    let version = optional_unsigned(members, "schema_version"@);
    let components = match member_value(members, "components"@) {
        None => Some(Seq::<LockEntryView>::empty()),
        Some(JsonValue::Array(items)) => entries_of(items@),
        Some(_) => None,
    };
    if version is Some && components is Some {
        Some(LockFileView { schema_version: version->0, components: components->0 })
    } else {
        None
    }
}

/// The entries of a lockfile document: those of the list where it is a
/// list, those under `components` where it is an object.
pub open spec fn lock_entries_of(doc: JsonValue) -> Option<Seq<LockEntryView>> {
    match doc {
        JsonValue::Array(items) => entries_of(items@),
        JsonValue::Object(members) => match lockfile_of(members@) {
            Some(file) => Some(file.components),
            None => None,
        },
        _ => None,
    }
}

/// The text of the error for a document that is no lockfile.
pub open spec fn shape_error() -> Seq<char> {
    "expected a list of entries or an object with `components`"@
}

/// The view of an optional entry.
pub open spec fn opt_entry(o: Option<LockEntry>) -> Option<LockEntryView> {
    match o {
        Some(e) => Some(e@),
        None => None,
    }
}

/// Reads one entry of a lockfile from its JSON value.
pub fn parse_entry(value: &JsonValue) -> (res: Option<LockEntry>)
    ensures
        opt_entry(res) == entry_of(*value),
{
    match value {
        JsonValue::String(s) => Some(LockEntry::String(s.clone())),
        JsonValue::Object(members) => {
            let reference = text_member(members, "reference");
            let ref_field = text_member(members, "ref");
            let digest = text_member(members, "digest");
            let name = text_member(members, "name");
            match (reference, ref_field, digest, name) {
                (Some(reference), Some(ref_field), Some(digest), Some(name)) => Some(
                    LockEntry::Object(LockComponent { reference, ref_field, digest, name }),
                ),
                _ => None,
            }
        },
        _ => None,
    }
}

fn parse_entries(items: &Vec<JsonValue>) -> (res: Option<Vec<LockEntry>>)
    ensures
        match res {
            Some(list) => entries_of(items@) == Some(written_views(list@)),
            None => entries_of(items@) is None,
        },
{
    let mut list: Vec<LockEntry> = Vec::new();
    let mut i: usize = 0;
    while i < items.len()
        invariant
            i <= items.len(),
            list@.len() == i,
            forall|j: int| 0 <= j < i ==> entry_of(#[trigger] items@[j]) == Some(list@[j]@),
        decreases items.len() - i,
    {
        match parse_entry(&items[i]) {
            Some(entry) => {
                list.push(entry);
            },
            None => {
                assert(entry_of(items@[i as int]) is None);
                return None;
            },
        }
        i = i + 1;
    }
    assert(entries_of(items@)->0 =~= written_views(list@));
    Some(list)
}

/// The view of an optional lockfile.
pub open spec fn opt_file(o: Option<LockFile>) -> Option<LockFileView> {
    match o {
        Some(f) => Some(f@),
        None => None,
    }
}

/// Reads the object shape of a lockfile from the members of the object.
pub fn parse_file(members: &Vec<JsonMember>) -> (res: Option<LockFile>)
    ensures
        opt_file(res) == lockfile_of(members@),
{
    let schema_version = match unsigned_member(members, "schema_version") {
        Some(v) => v,
        None => {
            return None;
        },
    };
    let components = match find_member(members, "components") {
        None => Vec::new(),
        Some(JsonValue::Array(items)) => match parse_entries(items) {
            Some(list) => list,
            None => {
                return None;
            },
        },
        Some(_) => {
            return None;
        },
    };
    let file = LockFile { schema_version, components };
    assert(file@.components =~= lockfile_of(members@)->0.components);
    Some(file)
}

/// The entries of a lockfile, from what reading its text as JSON gave:
/// the document, or the text of the syntax error. A document is a
/// lockfile in one of two shapes, a list of entries or an object that
/// holds the list under `components`; any other is refused.
pub fn entries_from_json(parsed: Result<JsonValue, String>) -> (res: Result<
    Vec<LockResolvedEntry>,
    DistError,
>)
    ensures
        match res {
            Ok(out) => parsed is Ok && lock_entries_of(parsed->Ok_0) is Some && entry_views(out@)
                == resolved_entries(lock_entries_of(parsed->Ok_0)->0),
            Err(e) => match parsed {
                Err(m) => e@ == DistErrorView::Serde(m@),
                Ok(doc) => lock_entries_of(doc) is None && e@ == DistErrorView::Serde(
                    shape_error(),
                ),
            },
        },
{
    let doc = match parsed {
        Ok(doc) => doc,
        Err(m) => {
            return Err(DistError::Serde(m));
        },
    };
    let entries = match &doc {
        JsonValue::Array(items) => parse_entries(items),
        JsonValue::Object(members) => match parse_file(members) {
            Some(file) => Some(file.components),
            None => None,
        },
        _ => None,
    };
    match entries {
        Some(list) => Ok(resolve_all(&list)),
        None => Err(
            DistError::Serde(
                String::from_str("expected a list of entries or an object with `components`"),
            ),
        ),
    }
}

/// What reading a lockfile comes to, given what reading its text as JSON
/// gave: a syntax error is handed on; a document in neither shape is
/// refused; a lockfile gives what its entries ask for, in their order.
pub open spec fn lockfile_outcome(parsed: Result<JsonValue, Seq<char>>) -> Result<
    Seq<LockResolvedView>,
    DistErrorView,
> {
    match parsed {
        Err(m) => Err(DistErrorView::Serde(m)),
        Ok(doc) => match lock_entries_of(doc) {
            Some(entries) => Ok(resolved_entries(entries)),
            None => Err(DistErrorView::Serde(shape_error())),
        },
    }
}

/// The view of what reading a lockfile gave.
pub open spec fn lockfile_view(res: Result<Vec<LockResolvedEntry>, DistError>) -> Result<
    Seq<LockResolvedView>,
    DistErrorView,
> {
    match res {
        Ok(out) => Ok(entry_views(out@)),
        Err(e) => Err(e@),
    }
}

/// The entries of a lockfile, from its text. The text is read as JSON by
/// `serde_json`; what the document means is [`entries_from_json`].
pub fn parse_lockfile(data: &str) -> (res: Result<Vec<LockResolvedEntry>, DistError>)
    ensures
        lockfile_view(res) == lockfile_outcome(json_read_text(data@)),
{
    entries_from_json(parse_json(data))
}

/// The entries of a pull and the artifacts of those that are done.
#[derive(Debug)]
pub struct LockRun {
    entries: Vec<LockResolvedEntry>,
    done: Vec<ResolvedArtifact>,
    offline: bool,
}

/// A [`LockRun`] as plain values.
pub struct LockRunView {
    pub entries: Seq<LockResolvedView>,
    pub done: Seq<ResolvedArtifactView>,
    pub offline: bool,
}

/// The views of a list of artifacts.
pub open spec fn artifact_views(list: Seq<ResolvedArtifact>) -> Seq<ResolvedArtifactView> {
    Seq::new(list.len(), |i: int| list[i]@)
}

impl View for LockRun {
    type V = LockRunView;

    closed spec fn view(&self) -> LockRunView {
        LockRunView {
            entries: entry_views(self.entries@),
            done: artifact_views(self.done@),
            offline: self.offline,
        }
    }
}

impl LockRun {
    #[verifier::type_invariant]
    spec fn inv(&self) -> bool {
        self@.wf()
    }
}

impl LockRunView {
    /// Artifact `i` belongs to entry `i`: where the entry is pinned, the
    /// artifact carries the entry's digest.
    pub open spec fn wf(self) -> bool {
        &&& self.done.len() <= self.entries.len()
        &&& forall|i: int|
            0 <= i < self.done.len() && (#[trigger] self.entries[i]).digest is Some
                ==> self.done[i].digest == self.entries[i].digest->0
    }

    /// The run with one more artifact.
    pub open spec fn with_done(self, item: ResolvedArtifactView) -> LockRunView {
        LockRunView { done: self.done.push(item), ..self }
    }
}

/// A pull that waits for the resolution of `reference`, to learn the
/// digest of an entry that is not pinned.
#[derive(Debug)]
pub struct ResolveTurn {
    run: LockRun,
    reference: String,
}

/// A [`ResolveTurn`] as plain values.
pub struct ResolveTurnView {
    pub run: LockRunView,
    pub reference: Seq<char>,
}

impl View for ResolveTurn {
    type V = ResolveTurnView;

    closed spec fn view(&self) -> ResolveTurnView {
        ResolveTurnView { run: self.run@, reference: self.reference@ }
    }
}

impl ResolveTurn {
    #[verifier::type_invariant]
    spec fn inv(&self) -> bool {
        self@.wf()
    }
}

impl ResolveTurnView {
    /// The turn stands at an entry of the run that is not pinned.
    pub open spec fn wf(self) -> bool {
        &&& self.run.wf()
        &&& self.run.done.len() < self.run.entries.len()
        &&& self.run.entries[self.run.done.len() as int].digest is None
        &&& self.run.entries[self.run.done.len() as int].reference == Some(self.reference)
    }
}

/// A pull that waits for `key` to be brought into the cache. `digest` is
/// the digest that the entry's artifact will carry.
#[derive(Debug)]
pub struct CacheTurn {
    run: LockRun,
    reference: String,
    key: String,
    digest: String,
    retried: bool,
}

/// A [`CacheTurn`] as plain values.
pub struct CacheTurnView {
    pub run: LockRunView,
    pub reference: Seq<char>,
    pub key: Seq<char>,
    pub digest: Seq<char>,
    pub retried: bool,
}

impl View for CacheTurn {
    type V = CacheTurnView;

    closed spec fn view(&self) -> CacheTurnView {
        CacheTurnView {
            run: self.run@,
            reference: self.reference@,
            key: self.key@,
            digest: self.digest@,
            retried: self.retried,
        }
    }
}

impl CacheTurn {
    #[verifier::type_invariant]
    spec fn inv(&self) -> bool {
        self@.wf()
    }
}

impl CacheTurnView {
    /// The turn stands at an entry of the run, asks for the entry's
    /// digest or reference, and holds the entry's digest where the entry
    /// is pinned.
    pub open spec fn wf(self) -> bool {
        &&& self.run.wf()
        &&& self.run.done.len() < self.run.entries.len()
        &&& self.run.entries[self.run.done.len() as int].reference == Some(self.reference)
        &&& self.key == self.reference || self.run.entries[self.run.done.len() as int].digest
            == Some(self.key)
        &&& self.run.entries[self.run.done.len() as int].digest is Some ==> self.digest
            == self.run.entries[self.run.done.len() as int].digest->0
    }
}

/// Where a pull stands: what the caller is to do next, or how it ended.
#[derive(Debug)]
pub enum LockTurn {
    /// Resolve the turn's reference; answer with [`ResolveTurn::resolved`].
    Resolve(ResolveTurn),
    /// Bring the turn's key into the cache; answer with
    /// [`CacheTurn::cached`].
    Cache(CacheTurn),
    /// Every entry is done: the artifacts, in the order of the entries.
    Finished(Vec<ResolvedArtifact>),
    /// An entry failed. Nothing of the entries before it is handed out.
    Failed(DistError),
}

/// A [`LockTurn`] as plain values.
pub enum LockTurnView {
    Resolve(ResolveTurnView),
    Cache(CacheTurnView),
    Finished(Seq<ResolvedArtifactView>),
    Failed(DistErrorView),
}

impl View for LockTurn {
    type V = LockTurnView;

    open spec fn view(&self) -> LockTurnView {
        match *self {
            LockTurn::Resolve(t) => LockTurnView::Resolve(t@),
            LockTurn::Cache(t) => LockTurnView::Cache(t@),
            LockTurn::Finished(list) => LockTurnView::Finished(artifact_views(list@)),
            LockTurn::Failed(e) => LockTurnView::Failed(e@),
        }
    }
}

impl LockTurnView {
    /// The turn's own invariant holds.
    pub open spec fn wf(self) -> bool {
        match self {
            LockTurnView::Resolve(t) => t.wf(),
            LockTurnView::Cache(t) => t.wf(),
            _ => true,
        }
    }
}

/// The turn that opens the next entry of a run. A run whose entries are
/// all done is finished. An entry without a reference fails the pull. A
/// pinned entry goes to the cache under its digest. One that is not pinned
/// has to be resolved first, which offline is refused.
pub open spec fn begin_spec(run: LockRunView) -> LockTurnView {
    if run.done.len() >= run.entries.len() {
        LockTurnView::Finished(run.done)
    } else {
        let entry = run.entries[run.done.len() as int];
        match entry.reference {
            None => LockTurnView::Failed(DistErrorView::InvalidInput("lock entry missing ref"@)),
            Some(reference) => match entry.digest {
                Some(digest) => LockTurnView::Cache(
                    CacheTurnView { run, reference, key: digest, digest, retried: false },
                ),
                None => if run.offline {
                    LockTurnView::Failed(DistErrorView::Offline { reference })
                } else {
                    LockTurnView::Resolve(ResolveTurnView { run, reference })
                },
            },
        }
    }
}

/// The turn after a resolution: its error ends the pull; its digest is
/// the entry's, and the reference goes to the cache.
pub open spec fn resolved_spec(
    turn: ResolveTurnView,
    outcome: Result<ResolvedArtifactView, DistErrorView>,
) -> LockTurnView {
    match outcome {
        Err(e) => LockTurnView::Failed(e),
        Ok(artifact) => LockTurnView::Cache(
            CacheTurnView {
                run: turn.run,
                reference: turn.reference,
                key: turn.reference,
                digest: artifact.digest,
                retried: false,
            },
        ),
    }
}

/// The artifact with the digest put in place of its own.
pub open spec fn with_digest(
    item: ResolvedArtifactView,
    digest: Seq<char>,
) -> ResolvedArtifactView {
    ResolvedArtifactView { digest, ..item }
}

/// The turn after the cache was asked. A hit completes the entry, under
/// the turn's digest. A first miss is tried again under the entry's
/// reference; a second one ends the pull with its error.
pub open spec fn cached_spec(
    turn: CacheTurnView,
    outcome: Result<ResolvedArtifactView, DistErrorView>,
) -> LockTurnView {
    match outcome {
        Ok(item) => begin_spec(turn.run.with_done(with_digest(item, turn.digest))),
        Err(e) => if turn.retried {
            LockTurnView::Failed(e)
        } else {
            LockTurnView::Cache(CacheTurnView { key: turn.reference, retried: true, ..turn })
        },
    }
}

/// The view of what a resolution gave.
pub open spec fn outcome_view(outcome: Result<ResolvedArtifact, DistError>) -> Result<
    ResolvedArtifactView,
    DistErrorView,
> {
    match outcome {
        Ok(a) => Ok(a@),
        Err(e) => Err(e@),
    }
}

/// Opening an entry keeps the invariant.
pub proof fn lemma_begin_wf(run: LockRunView)
    requires
        run.wf(),
    ensures
        begin_spec(run).wf(),
{
}

/// A hit under the entry's digest keeps the invariant.
pub proof fn lemma_cached_wf(
    turn: CacheTurnView,
    outcome: Result<ResolvedArtifactView, DistErrorView>,
)
    requires
        turn.wf(),
    ensures
        cached_spec(turn, outcome).wf(),
{
    match outcome {
        Ok(item) => {
            let next = turn.run.with_done(with_digest(item, turn.digest));
            assert(next.wf());
            lemma_begin_wf(next);
        },
        Err(_) => {},
    }
}

/// A pull hands out its artifacts in the order of its entries, one for
/// each, and the artifact of a pinned entry carries the entry's digest,
/// whatever digest the resolver computed.
pub proof fn lemma_finished_in_order(
    turn: CacheTurnView,
    outcome: Result<ResolvedArtifactView, DistErrorView>,
)
    requires
        turn.wf(),
        cached_spec(turn, outcome) is Finished,
    ensures
        ({
            let out = cached_spec(turn, outcome)->Finished_0;
            &&& outcome is Ok
            &&& out.len() == turn.run.entries.len()
            &&& out == turn.run.done.push(with_digest(outcome->Ok_0, turn.digest))
            &&& forall|i: int|
                0 <= i < out.len() && (#[trigger] turn.run.entries[i]).digest is Some
                    ==> out[i].digest == turn.run.entries[i].digest->0
        }),
{
    lemma_cached_wf(turn, outcome);
    let next = turn.run.with_done(with_digest(outcome->Ok_0, turn.digest));
    assert(next.wf());
}

/// The turn that opens the pull of `entries`.
pub open spec fn pull_start(entries: Seq<LockResolvedView>, offline: bool) -> LockTurnView {
    begin_spec(LockRunView { entries, done: Seq::empty(), offline })
}

/// The turn after an answer: a turn that waits takes the answer; a pull
/// that has ended stays as it is.
pub open spec fn answer_spec(
    turn: LockTurnView,
    answer: Result<ResolvedArtifactView, DistErrorView>,
) -> LockTurnView {
    match turn {
        LockTurnView::Resolve(t) => resolved_spec(t, answer),
        LockTurnView::Cache(t) => cached_spec(t, answer),
        _ => turn,
    }
}

/// The turn of a pull after the first `n` of the answers that the caller
/// gave, each to the turn before it.
pub open spec fn turn_after(
    start: LockTurnView,
    answers: Seq<Result<ResolvedArtifactView, DistErrorView>>,
    n: int,
) -> LockTurnView
    decreases n,
{
    if n <= 0 {
        start
    } else {
        answer_spec(turn_after(start, answers, n - 1), answers[n - 1])
    }
}

/// Answer `j` completes entry `i` with `artifact`: the pull then waits
/// for the cache at entry `i`, having asked for that entry's digest or
/// reference, and the answer is a hit, which under the digest of the turn
/// is `artifact`.
pub open spec fn completes(
    entries: Seq<LockResolvedView>,
    offline: bool,
    answers: Seq<Result<ResolvedArtifactView, DistErrorView>>,
    j: int,
    i: int,
    artifact: ResolvedArtifactView,
) -> bool {
    let turn = turn_after(pull_start(entries, offline), answers, j);
    &&& 0 <= j < answers.len()
    &&& 0 <= i < entries.len()
    &&& turn is Cache
    &&& turn->Cache_0.run.done.len() == i
    &&& entries[i].reference == Some(turn->Cache_0.reference)
    &&& turn->Cache_0.key == turn->Cache_0.reference || entries[i].digest == Some(
        turn->Cache_0.key,
    )
    &&& answers[j] is Ok
    &&& artifact == with_digest(answers[j]->Ok_0, turn->Cache_0.digest)
}

/// One of the first `n` answers completes entry `i` with `artifact`.
pub open spec fn completed_within(
    entries: Seq<LockResolvedView>,
    offline: bool,
    answers: Seq<Result<ResolvedArtifactView, DistErrorView>>,
    n: int,
    i: int,
    artifact: ResolvedArtifactView,
) -> bool {
    exists|j: int| 0 <= j < n && #[trigger] completes(entries, offline, answers, j, i, artifact)
}

/// The artifacts that a turn holds.
pub open spec fn done_of(turn: LockTurnView) -> Seq<ResolvedArtifactView> {
    match turn {
        LockTurnView::Resolve(t) => t.run.done,
        LockTurnView::Cache(t) => t.run.done,
        LockTurnView::Finished(out) => out,
        LockTurnView::Failed(_) => Seq::empty(),
    }
}

/// What holds of a pull after `n` answers: it is at the entries it
/// started with, and each artifact it holds was placed by one of those
/// answers, as the completion of the entry at the artifact's index.
pub open spec fn pull_inv(
    entries: Seq<LockResolvedView>,
    offline: bool,
    answers: Seq<Result<ResolvedArtifactView, DistErrorView>>,
    n: int,
) -> bool {
    let turn = turn_after(pull_start(entries, offline), answers, n);
    &&& turn.wf()
    &&& turn is Resolve ==> turn->Resolve_0.run.entries == entries && turn->Resolve_0.run.offline
        == offline
    &&& turn is Cache ==> turn->Cache_0.run.entries == entries && turn->Cache_0.run.offline
        == offline
    &&& turn is Finished ==> turn->Finished_0.len() == entries.len()
    &&& done_of(turn).len() <= entries.len()
    &&& forall|i: int|
        0 <= i < done_of(turn).len() ==> #[trigger] completed_within(
            entries,
            offline,
            answers,
            n,
            i,
            done_of(turn)[i],
        )
}

/// A resolution keeps the invariant of its turn.
pub proof fn lemma_resolved_wf(
    turn: ResolveTurnView,
    outcome: Result<ResolvedArtifactView, DistErrorView>,
)
    requires
        turn.wf(),
    ensures
        resolved_spec(turn, outcome).wf(),
{
}

/// What was completed within some answers stays completed within more.
pub proof fn lemma_completed_stays(
    entries: Seq<LockResolvedView>,
    offline: bool,
    answers: Seq<Result<ResolvedArtifactView, DistErrorView>>,
    n: int,
    m: int,
    i: int,
    artifact: ResolvedArtifactView,
)
    requires
        n <= m,
        completed_within(entries, offline, answers, n, i, artifact),
    ensures
        completed_within(entries, offline, answers, m, i, artifact),
{
    let j = choose|j: int|
        0 <= j < n && #[trigger] completes(entries, offline, answers, j, i, artifact);
    assert(completes(entries, offline, answers, j, i, artifact));
}

/// The invariant of a pull holds after any number of answers.
pub proof fn lemma_pull_inv(
    entries: Seq<LockResolvedView>,
    offline: bool,
    answers: Seq<Result<ResolvedArtifactView, DistErrorView>>,
    n: int,
)
    requires
        0 <= n <= answers.len(),
    ensures
        pull_inv(entries, offline, answers, n),
    decreases n,
{
    let start = pull_start(entries, offline);
    if n == 0 {
        lemma_begin_wf(LockRunView { entries, done: Seq::empty(), offline });
    } else {
        lemma_pull_inv(entries, offline, answers, n - 1);
        let prev = turn_after(start, answers, n - 1);
        let answer = answers[n - 1];
        let next = turn_after(start, answers, n);
        assert(next == answer_spec(prev, answer));
        let held = done_of(prev);
        // what the answer placed, if it placed anything
        let grown = if prev is Cache && answer is Ok {
            held.push(with_digest(answer->Ok_0, prev->Cache_0.digest))
        } else {
            held
        };
        match prev {
            LockTurnView::Resolve(t) => {
                lemma_resolved_wf(t, answer);
            },
            LockTurnView::Cache(t) => {
                lemma_cached_wf(t, answer);
                if answer is Ok {
                    assert(t.run.with_done(with_digest(answer->Ok_0, t.digest)).wf());
                }
            },
            _ => {},
        }
        assert(next is Failed || done_of(next) == grown);
        assert forall|i: int| 0 <= i < done_of(next).len() implies #[trigger] completed_within(
            entries,
            offline,
            answers,
            n,
            i,
            done_of(next)[i],
        ) by {
            if i < held.len() {
                lemma_completed_stays(entries, offline, answers, n - 1, n, i, held[i]);
            } else {
                assert(completes(entries, offline, answers, n - 1, i, grown[i]));
            }
        }
    }
}

/// A pull never loses an artifact: as long as it has not failed, it holds
/// after more answers at least as many artifacts as after fewer.
pub proof fn lemma_pull_grows(
    entries: Seq<LockResolvedView>,
    offline: bool,
    answers: Seq<Result<ResolvedArtifactView, DistErrorView>>,
    a: int,
    b: int,
)
    requires
        0 <= a <= b <= answers.len(),
        !(turn_after(pull_start(entries, offline), answers, b) is Failed),
    ensures
        !(turn_after(pull_start(entries, offline), answers, a) is Failed),
        done_of(turn_after(pull_start(entries, offline), answers, a)).len() <= done_of(
            turn_after(pull_start(entries, offline), answers, b),
        ).len(),
        a < b && turn_after(pull_start(entries, offline), answers, a) is Cache && answers[a] is Ok
            ==> done_of(turn_after(pull_start(entries, offline), answers, a)).len() < done_of(
            turn_after(pull_start(entries, offline), answers, b),
        ).len(),
    decreases b - a,
{
    let start = pull_start(entries, offline);
    if a < b {
        let prev = turn_after(start, answers, b - 1);
        let next = turn_after(start, answers, b);
        assert(next == answer_spec(prev, answers[b - 1]));
        assert(!(prev is Failed));
        assert(done_of(prev).len() <= done_of(next).len());
        lemma_pull_grows(entries, offline, answers, a, b - 1);
        if a == b - 1 && prev is Cache && answers[a] is Ok {
            assert(done_of(prev).len() < done_of(next).len());
        }
    }
}

/// A pull that finishes hands out one artifact for each entry, in the
/// order of the entries. The artifact at index `i` was placed by the
/// caller's hit for entry `i`, under the entry's digest where the entry
/// is pinned; and the entries were completed one after the other, an
/// earlier entry by an earlier answer.
pub proof fn lemma_pull_in_order(
    entries: Seq<LockResolvedView>,
    offline: bool,
    answers: Seq<Result<ResolvedArtifactView, DistErrorView>>,
)
    requires
        turn_after(pull_start(entries, offline), answers, answers.len() as int) is Finished,
    ensures
        ({
            let out = turn_after(
                pull_start(entries, offline),
                answers,
                answers.len() as int,
            )->Finished_0;
            &&& out.len() == entries.len()
            &&& forall|i: int|
                0 <= i < out.len() ==> #[trigger] completed_within(
                    entries,
                    offline,
                    answers,
                    answers.len() as int,
                    i,
                    out[i],
                )
            &&& forall|i: int|
                0 <= i < out.len() && (#[trigger] entries[i]).digest is Some ==> out[i].digest
                    == entries[i].digest->0
        }),
        forall|
            earlier: int,
            later: int,
            j: int,
            k: int,
            a: ResolvedArtifactView,
            b: ResolvedArtifactView,
        |
            earlier < later && #[trigger] completes(entries, offline, answers, j, earlier, a)
                && #[trigger] completes(entries, offline, answers, k, later, b) ==> j < k,
{
    let start = pull_start(entries, offline);
    let n = answers.len() as int;
    lemma_pull_inv(entries, offline, answers, n);
    let out = turn_after(start, answers, n)->Finished_0;
    assert forall|i: int|
        0 <= i < out.len() && (#[trigger] entries[i]).digest is Some implies out[i].digest
        == entries[i].digest->0 by {
        assert(completed_within(entries, offline, answers, n, i, out[i]));
        let j = choose|j: int|
            0 <= j < n && #[trigger] completes(entries, offline, answers, j, i, out[i]);
        lemma_pull_inv(entries, offline, answers, j);
    }
    assert forall|
            earlier: int,
            later: int,
            j: int,
            k: int,
            a: ResolvedArtifactView,
            b: ResolvedArtifactView,
        |
        earlier < later && #[trigger] completes(entries, offline, answers, j, earlier, a)
            && #[trigger] completes(entries, offline, answers, k, later, b) implies j < k by {
        if k <= j {
            lemma_pull_grows(entries, offline, answers, k, j);
        }
    }
}

fn begin(run: LockRun) -> (turn: LockTurn)
    ensures
        turn@ == begin_spec(run@),
        turn@.wf(),
{
    proof {
        use_type_invariant(&run);
        lemma_begin_wf(run@);
    }
    let at: usize = run.done.len();
    if at >= run.entries.len() {
        let LockRun { entries: _, done, offline: _ } = run;
        return LockTurn::Finished(done);
    }
    assert(run@.entries[at as int] == run.entries@[at as int]@);
    let reference = clone_opt(&run.entries[at].reference);
    let digest = clone_opt(&run.entries[at].digest);
    match reference {
        None => LockTurn::Failed(
            DistError::InvalidInput(String::from_str("lock entry missing ref")),
        ),
        Some(reference) => match digest {
            Some(digest) => {
                let key = digest.clone();
                LockTurn::Cache(CacheTurn { run, reference, key, digest, retried: false })
            },
            None => {
                if run.offline {
                    LockTurn::Failed(DistError::Offline { reference })
                } else {
                    LockTurn::Resolve(ResolveTurn { run, reference })
                }
            },
        },
    }
}

/// Starts the pull of a lockfile's entries. Offline, an entry that is not
/// pinned fails the pull.
pub fn start_pull(entries: Vec<LockResolvedEntry>, offline: bool) -> (turn: LockTurn)
    ensures
        turn@ == begin_spec(
            LockRunView { entries: entry_views(entries@), done: Seq::empty(), offline },
        ),
        turn@.wf(),
{
    let run = LockRun { entries, done: Vec::new(), offline };
    assert(run@.done =~= Seq::empty());
    begin(run)
}

impl ResolveTurn {
    /// The reference to resolve.
    pub fn reference(&self) -> (r: &str)
        ensures
            r@ == self@.reference,
    {
        self.reference.as_str()
    }

    /// Takes what resolving the reference gave.
    pub fn resolved(self, outcome: Result<ResolvedArtifact, DistError>) -> (turn: LockTurn)
        ensures
            turn@ == resolved_spec(self@, outcome_view(outcome)),
            turn@.wf(),
    {
        proof {
            use_type_invariant(&self);
        }
        match outcome {
            Err(e) => LockTurn::Failed(e),
            Ok(artifact) => {
                let ResolveTurn { run, reference } = self;
                let key = reference.clone();
                LockTurn::Cache(
                    CacheTurn { run, reference, key, digest: artifact.digest, retried: false },
                )
            },
        }
    }
}

impl CacheTurn {
    /// The reference to bring into the cache: the entry's digest first,
    /// the entry's reference where no digest is given or the digest
    /// missed.
    pub fn key(&self) -> (k: &str)
        ensures
            k@ == self@.key,
    {
        self.key.as_str()
    }

    /// Takes what bringing the key into the cache gave.
    pub fn cached(self, outcome: Result<ResolvedArtifact, DistError>) -> (turn: LockTurn)
        ensures
            turn@ == cached_spec(self@, outcome_view(outcome)),
            turn@.wf(),
    {
        proof {
            use_type_invariant(&self);
            lemma_cached_wf(self@, outcome_view(outcome));
        }
        let CacheTurn { run, reference, key: _, digest, retried } = self;
        match outcome {
            Ok(item) => {
                let ghost before = run@;
                let ghost added = with_digest(item@, digest@);
                let LockRun { entries, mut done, offline } = run;
                done.push(
                    ResolvedArtifact {
                        digest,
                        cache_path: item.cache_path,
                        fetched: item.fetched,
                        source: item.source,
                    },
                );
                let next = LockRun { entries, done, offline };
                assert(next@.done =~= before.done.push(added));
                assert(next@ == before.with_done(added));
                begin(next)
            },
            Err(e) => {
                if retried {
                    LockTurn::Failed(e)
                } else {
                    let key = reference.clone();
                    LockTurn::Cache(CacheTurn { run, reference, key, digest, retried: true })
                }
            },
        }
    }
}

} // verus!

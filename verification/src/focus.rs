//! Which accepted Contexts the current Graph associates with one exact file.

use vstd::prelude::*;

use crate::engineering::{
    artifact_digest_text, ArtifactKey, ArtifactLocator, ArtifactLocatorView, RepoRelativePath,
};
use crate::error::{fails_as, Result};
use crate::graph_contexts::GraphContextStatus;
use crate::ids::RepositoryId;
use crate::registry::{join_path, path_below};
use crate::value::{push_value, take_next, Value};

verus! {

/// Upper bound on Contexts one bounded reminder lookup may return.
pub const MAX_ARTIFACT_FOCUS_HITS: usize = 3;

/// Default wall-clock budget for one read-only lookup, in milliseconds.
pub const ARTIFACT_FOCUS_QUERY_BUDGET_MILLIS: u64 = 150;

/// One accepted Graph Context associated with the queried File Artifact.
#[derive(Clone, Debug, PartialEq, Eq)]
pub struct ArtifactFocusHit {
    pub context_id: String,
    /// The accepted revision statement. Callers truncate it for display; this type performs no
    /// presentation policy.
    pub statement: String,
}

/// The model of [`ArtifactFocusHit`].
pub struct ArtifactFocusHitView {
    pub context_id: Seq<char>,
    pub statement: Seq<char>,
}

impl DeepView for ArtifactFocusHit {
    type V = ArtifactFocusHitView;

    open spec fn deep_view(&self) -> ArtifactFocusHitView {
        ArtifactFocusHitView {
            context_id: self.context_id.deep_view(),
            statement: self.statement.deep_view(),
        }
    }
}

impl Value for ArtifactFocusHit {
    fn copied(&self) -> (copy: Self) {
        ArtifactFocusHit {
            context_id: self.context_id.copied(),
            statement: self.statement.copied(),
        }
    }

    fn same(&self, other: &Self) -> (equal: bool) {
        self.context_id.same(&other.context_id)
            && self.statement.same(&other.statement)
    }
}

/// Why a lookup returned no hit without also returning an error.
#[derive(Clone, Copy, Debug, PartialEq, Eq, Structural)]
pub enum ArtifactFocusOutcome {
    /// The lookup ran to completion; `hits` reflects every match found (possibly empty).
    Completed,
    /// The projection file does not exist or is not a plain file.
    ProjectionAbsent,
    /// The wall-clock budget elapsed before the lookup could finish.
    BudgetExceeded,
}

impl DeepView for ArtifactFocusOutcome {
    type V = ArtifactFocusOutcome;

    open spec fn deep_view(&self) -> ArtifactFocusOutcome {
        *self
    }
}

impl Value for ArtifactFocusOutcome {
    fn copied(&self) -> (copy: Self) {
        *self
    }

    fn same(&self, other: &Self) -> (equal: bool) {
        *self == *other
    }
}

/// Full result of one bounded, read-only lookup.
#[derive(Clone, Debug, PartialEq, Eq)]
pub struct ArtifactFocusLookup {
    pub hits: Vec<ArtifactFocusHit>,
    pub outcome: ArtifactFocusOutcome,
}

/// The model of [`ArtifactFocusLookup`].
pub struct ArtifactFocusLookupView {
    pub hits: Seq<ArtifactFocusHitView>,
    pub outcome: ArtifactFocusOutcome,
}

impl DeepView for ArtifactFocusLookup {
    type V = ArtifactFocusLookupView;

    open spec fn deep_view(&self) -> ArtifactFocusLookupView {
        ArtifactFocusLookupView {
            hits: self.hits.deep_view(),
            outcome: self.outcome.deep_view(),
        }
    }
}

impl Value for ArtifactFocusLookup {
    fn copied(&self) -> (copy: Self) {
        ArtifactFocusLookup {
            hits: self.hits.copied(),
            outcome: self.outcome.copied(),
        }
    }

    fn same(&self, other: &Self) -> (equal: bool) {
        self.hits.same(&other.hits)
            && self.outcome.same(&other.outcome)
    }
}

/// Bounded read-only reader for one installation's Engineering projection.
#[derive(Clone, Debug, PartialEq, Eq)]
pub struct ArtifactFocusReader {
    database: String,
}

/// The model of [`ArtifactFocusReader`].
pub struct ArtifactFocusReaderView {
    pub database: Seq<char>,
}

impl DeepView for ArtifactFocusReader {
    type V = ArtifactFocusReaderView;

    closed spec fn deep_view(&self) -> ArtifactFocusReaderView {
        ArtifactFocusReaderView {
            database: self.database.deep_view(),
        }
    }
}

impl Value for ArtifactFocusReader {
    fn copied(&self) -> (copy: Self) {
        ArtifactFocusReader {
            database: self.database.copied(),
        }
    }

    fn same(&self, other: &Self) -> (equal: bool) {
        self.database.same(&other.database)
    }
}

/// What the projection says of one associated Context.
#[derive(Clone, Debug, PartialEq, Eq)]
pub struct FocusRow {
    pub context_id: String,
    pub status: GraphContextStatus,
    pub automatic_injection_eligible: bool,
    pub statement: Option<String>,
}

/// The model of [`FocusRow`].
pub struct FocusRowView {
    pub context_id: Seq<char>,
    pub status: GraphContextStatus,
    pub automatic_injection_eligible: bool,
    pub statement: Option<Seq<char>>,
}

impl DeepView for FocusRow {
    type V = FocusRowView;

    open spec fn deep_view(&self) -> FocusRowView {
        FocusRowView {
            context_id: self.context_id.deep_view(),
            status: self.status.deep_view(),
            automatic_injection_eligible: self.automatic_injection_eligible.deep_view(),
            statement: self.statement.deep_view(),
        }
    }
}

impl Value for FocusRow {
    fn copied(&self) -> (copy: Self) {
        FocusRow {
            context_id: self.context_id.copied(),
            status: self.status.copied(),
            automatic_injection_eligible: self.automatic_injection_eligible.copied(),
            statement: self.statement.copied(),
        }
    }

    fn same(&self, other: &Self) -> (equal: bool) {
        self.context_id.same(&other.context_id)
            && self.status.same(&other.status)
            && self.automatic_injection_eligible.same(&other.automatic_injection_eligible)
            && self.statement.same(&other.statement)
    }
}

impl FocusRowView {
    /// Whether the row may be a hit: an accepted Context that is eligible for automatic injection
    /// and has a statement.
    pub open spec fn focusable(self) -> bool {
        self.status == GraphContextStatus::Accepted && self.automatic_injection_eligible && self.statement is Some
    }
}

impl ArtifactFocusReader {
    /// Binds the reader to `<root>/state/engineering.sqlite` without opening it.
    #[must_use]
    pub fn new(root: &str) -> (reader: Self)
        ensures
            reader.deep_view().database == path_below(path_below(root@, "state"@), "engineering.sqlite"@),
    {
        let state = join_path(root, "state");
        ArtifactFocusReader { database: join_path(state.as_str(), "engineering.sqlite") }
    }

    /// The projection database.
    #[must_use]
    pub fn database_path(&self) -> (path: &str)
        ensures
            path@ == self.deep_view().database,
    {
        self.database.as_str()
    }

    /// The digest of the File Artifact that is asked about.
    pub fn file_digest(
        &self,
        repository_id: &RepositoryId,
        relative_path: &RepoRelativePath,
    ) -> (result: Result<String>)
        ensures
            fails_as(result, (ArtifactLocatorView::File { path: relative_path@ }).problem()),
            result is Ok ==> result->Ok_0@ == artifact_digest_text(
                repository_id@,
                ArtifactLocatorView::File { path: relative_path@ },
            ),
    {
        let locator = ArtifactLocator::File { path: relative_path.copied() };
        let key = ArtifactKey::derive(repository_id.copied(), locator)?;
        Ok(key.digest().to_owned())
    }
}

/// A lookup without hits.
pub open spec fn empty_lookup(outcome: ArtifactFocusOutcome) -> ArtifactFocusLookupView {
    ArtifactFocusLookupView { hits: Seq::empty(), outcome }
}

/// The Contexts of hits.
pub open spec fn hit_contexts(hits: Seq<ArtifactFocusHitView>) -> Seq<Seq<char>> {
    Seq::new(hits.len(), |i: int| hits[i].context_id)
}

/// Hits with one more row: a row that is not focusable, or whose Context is a hit already, adds
/// none.
pub open spec fn with_row(hits: Seq<ArtifactFocusHitView>, row: FocusRowView) -> Seq<ArtifactFocusHitView> {
    if row.focusable() && !hit_contexts(hits).contains(row.context_id) {
        hits.push(ArtifactFocusHitView { context_id: row.context_id, statement: row.statement->0 })
    } else {
        hits
    }
}

/// The hits that rows make, in order.
pub open spec fn hits_among(rows: Seq<FocusRowView>) -> Seq<ArtifactFocusHitView>
    decreases rows.len(),
{
    if rows.len() == 0 {
        Seq::empty()
    } else {
        with_row(hits_among(rows.drop_last()), rows.last())
    }
}

/// The first hits, up to a limit.
pub open spec fn limited(hits: Seq<ArtifactFocusHitView>, limit: nat) -> Seq<ArtifactFocusHitView> {
    if hits.len() <= limit {
        hits
    } else {
        hits.take(limit as int)
    }
}

/// What a lookup returns: nothing where the projection is absent or the budget elapsed, and the
/// first hits otherwise.
pub open spec fn lookup_of(
    outcome: ArtifactFocusOutcome,
    rows: Seq<FocusRowView>,
    limit: nat,
) -> ArtifactFocusLookupView {
    match outcome {
        ArtifactFocusOutcome::Completed => ArtifactFocusLookupView {
            hits: limited(hits_among(rows), limit),
            outcome,
        },
        _ => empty_lookup(outcome),
    }
}

fn is_hit(hits: &Vec<ArtifactFocusHit>, context_id: &String) -> (found: bool)
    ensures
        found == hit_contexts(hits.deep_view()).contains(context_id@),
{
    let ghost model = hit_contexts(hits.deep_view());
    let mut index: usize = 0;
    while index < hits.len()
        invariant
            index <= hits@.len(),
            model == hit_contexts(hits.deep_view()),
            forall|i: int| 0 <= i < index ==> model[i] != context_id@,
        decreases hits@.len() - index,
    {
        assert(hits.deep_view()[index as int] == hits@[index as int].deep_view());
        if hits[index].context_id.same(context_id) {
            assert(model[index as int] == context_id@);
            return true;
        }
        index = index + 1;
    }
    assert(model.len() == hits@.len());
    false
}

/// Finishes a lookup.
pub fn finish_lookup(
    outcome: ArtifactFocusOutcome,
    rows: &Vec<FocusRow>,
    limit: usize,
) -> (lookup: ArtifactFocusLookup)
    ensures
        lookup.deep_view() == lookup_of(outcome, rows.deep_view(), limit as nat),
{
    let ghost model = rows.deep_view();
    let mut hits: Vec<ArtifactFocusHit> = Vec::new();
    assert(hits.deep_view() =~= Seq::empty());
    match outcome {
        ArtifactFocusOutcome::Completed => {},
        _ => {
            return ArtifactFocusLookup { hits, outcome };
        },
    }
    let mut index: usize = 0;
    assert(model.take(0) =~= Seq::empty());
    while index < rows.len()
        invariant
            index <= rows@.len(),
            model == rows.deep_view(),
            hits.deep_view() == hits_among(model.take(index as int)),
        decreases rows@.len() - index,
    {
        assert(model[index as int] == rows@[index as int].deep_view());
        proof {
            take_next(model, index as int);
        }
        let row = &rows[index];
        let accepted = match row.status {
            GraphContextStatus::Accepted => row.automatic_injection_eligible,
            _ => false,
        };
        if let Some(statement) = &row.statement {
            if accepted && !is_hit(&hits, &row.context_id) {
                push_value(
                    &mut hits,
                    ArtifactFocusHit { context_id: row.context_id.copied(), statement: statement.copied() },
                );
            }
        }
        index = index + 1;
    }
    assert(model.len() == rows@.len());
    assert(model.take(index as int) =~= model);
    let ghost found = hits.deep_view();
    assert(found.len() == hits@.len());
    if hits.len() <= limit {
        return ArtifactFocusLookup { hits, outcome };
    }
    let mut kept: Vec<ArtifactFocusHit> = Vec::new();
    let mut at: usize = 0;
    assert(kept.deep_view() =~= found.take(0));
    while at < limit
        invariant
            at <= limit < hits@.len(),
            found == hits.deep_view(),
            kept.deep_view() == found.take(at as int),
        decreases limit - at,
    {
        assert(found[at as int] == hits@[at as int].deep_view());
        push_value(&mut kept, hits[at].copied());
        proof {
            take_next(found, at as int);
        }
        at = at + 1;
    }
    ArtifactFocusLookup { hits: kept, outcome }
}

/// A lookup never returns more hits than its limit, and never the same Context twice.
pub proof fn lookups_are_bounded_and_distinct(outcome: ArtifactFocusOutcome, rows: Seq<FocusRowView>, limit: nat)
    ensures
        lookup_of(outcome, rows, limit).hits.len() <= limit,
        hit_contexts(lookup_of(outcome, rows, limit).hits).no_duplicates(),
{
    hits_are_distinct(rows);
    let hits = lookup_of(outcome, rows, limit).hits;
    if outcome == ArtifactFocusOutcome::Completed {
        let all = hit_contexts(hits_among(rows));
        let some = hit_contexts(hits);
        assert forall|i: int, j: int| 0 <= i < some.len()
            && 0 <= j < some.len()
            && i != j implies some[i] != some[j] by {
            assert(some[i] == all[i] && some[j] == all[j]);
        }
    }
}

/// Every hit of a lookup is an accepted Context that is eligible for automatic injection, with the
/// statement that its row holds.
pub proof fn only_accepted_contexts_are_hits(
    outcome: ArtifactFocusOutcome,
    rows: Seq<FocusRowView>,
    limit: nat,
    hit: ArtifactFocusHitView,
)
    requires
        lookup_of(outcome, rows, limit).hits.contains(hit),
    ensures
        exists|i: int|
            0 <= i < rows.len() && (#[trigger] rows[i]).focusable() && rows[i].context_id == hit.context_id
                && rows[i].statement == Some(hit.statement),
{
    let at = choose|at: int|
        0 <= at < lookup_of(outcome, rows, limit).hits.len() && lookup_of(outcome, rows, limit).hits[at] == hit;
    assert(hits_among(rows)[at] == hit);
    hits_come_from_rows(rows, at);
}

proof fn hits_come_from_rows(rows: Seq<FocusRowView>, at: int)
    requires
        0 <= at < hits_among(rows).len(),
    ensures
        exists|i: int|
            0 <= i < rows.len() && (#[trigger] rows[i]).focusable() && rows[i].context_id == hits_among(
                rows,
            )[at].context_id && rows[i].statement == Some(hits_among(rows)[at].statement),
    decreases rows.len(),
{
    let before = hits_among(rows.drop_last());
    if at < before.len() {
        hits_come_from_rows(rows.drop_last(), at);
        let i = choose|i: int|
            0 <= i < rows.drop_last().len() && (#[trigger] rows.drop_last()[i]).focusable()
                && rows.drop_last()[i].context_id == before[at].context_id && rows.drop_last()[i].statement
                == Some(before[at].statement);
        assert(rows[i] == rows.drop_last()[i]);
        assert(hits_among(rows)[at] == before[at]);
    } else {
        assert(rows[rows.len() - 1].focusable());
    }
}

proof fn hits_are_distinct(rows: Seq<FocusRowView>)
    ensures
        hit_contexts(hits_among(rows)).no_duplicates(),
    decreases rows.len(),
{
    if rows.len() > 0 {
        let before = hits_among(rows.drop_last());
        hits_are_distinct(rows.drop_last());
        let after = hits_among(rows);
        let old_ids = hit_contexts(before);
        let new_ids = hit_contexts(after);
        assert forall|i: int, j: int| 0 <= i < new_ids.len() && 0 <= j < new_ids.len() && i != j implies new_ids[i]
            != new_ids[j] by {
            if i < before.len() && j < before.len() {
                assert(new_ids[i] == old_ids[i] && new_ids[j] == old_ids[j]);
            } else if i < before.len() {
                assert(new_ids[i] == old_ids[i]);
                assert(old_ids.contains(old_ids[i]));
            } else {
                assert(new_ids[j] == old_ids[j]);
                assert(old_ids.contains(old_ids[j]));
            }
        }
    }
}

} // verus!

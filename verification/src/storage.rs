//! Decisions about the local databases: schema versions, retries, stored rows, and their failures.

use vstd::prelude::*;

use crate::checks::{blank, is_blank};
use crate::error::{
    fails_as, first, given, invariant_violation, violated, Error, ErrorKind, ErrorView, Result,
};
use crate::graph_contexts::{GraphContextSnapshot, GraphContextSnapshotView};
use crate::registry::{join_path, path_below};
use crate::resolver::{
    EngineeringProjection, EngineeringProjectionView, IncompleteRepositoryScan, IncompleteRepositoryScanView,
    ResolvedReferenceProjection, ResolvedReferenceProjectionView,
};
use crate::text::{decimal, decimal_text, joined2, joined3, lower_text, lowered, same_text};
use crate::value::Value;

verus! {

/// The schema version of both databases.
pub const SCHEMA_VERSION: i64 = 4;

/// The Registry schema version that reaches [`SCHEMA_VERSION`] by additive tables alone.
pub const ADDITIVE_UPGRADE_VERSION: i64 = 3;

/// What a schema version calls for.
#[derive(Clone, Copy, Debug, PartialEq, Eq, Structural)]
pub enum SchemaStep {
    Current,
    Create,
}

impl DeepView for SchemaStep {
    type V = SchemaStep;

    open spec fn deep_view(&self) -> SchemaStep {
        *self
    }
}

impl Value for SchemaStep {
    fn copied(&self) -> (copy: Self) {
        *self
    }

    fn same(&self, other: &Self) -> (equal: bool) {
        *self == *other
    }
}

/// A signed number in decimal.
pub open spec fn signed_decimal(number: i64) -> Seq<char> {
    if number < 0 {
        "-"@ + decimal((-(number as int)) as nat)
    } else {
        decimal(number as nat)
    }
}

fn signed_text(number: i64) -> (text: String)
    ensures
        text@ == signed_decimal(number),
{
    if number < 0 {
        let magnitude: u64 = if number == i64::MIN {
            0x8000_0000_0000_0000
        } else {
            (-number) as u64
        };
        let digits = decimal_text(magnitude);
        joined2("-", digits.as_str())
    } else {
        decimal_text(number as u64)
    }
}

/// What a supported schema version asks for.
pub open spec fn schema_step(version: i64) -> SchemaStep {
    if version == SCHEMA_VERSION {
        SchemaStep::Current
    } else {
        SchemaStep::Create
    }
}

/// Why a Registry with a schema version cannot be used.
pub open spec fn registry_schema_problem(version: i64) -> Option<ErrorView> {
    given(
        version != SCHEMA_VERSION && version != 0 && version != ADDITIVE_UPGRADE_VERSION,
        violated("unsupported Repository Registry schema version "@ + signed_decimal(version)),
    )
}

/// Why an Engineering projection with a schema version cannot be used.
pub open spec fn projection_schema_problem(version: i64) -> Option<ErrorView> {
    given(
        version != SCHEMA_VERSION && version != 0,
        violated("unsupported Engineering projection schema version "@ + signed_decimal(version)),
    )
}

/// Decides on the schema of a Registry: an older additive one is upgraded in place.
pub fn registry_schema(version: i64) -> (result: Result<SchemaStep>)
    ensures
        fails_as(result, registry_schema_problem(version)),
        result is Ok ==> result->Ok_0 == schema_step(version),
{
    if version == SCHEMA_VERSION {
        return Ok(SchemaStep::Current);
    }
    if version != 0 && version != ADDITIVE_UPGRADE_VERSION {
        let text = signed_text(version);
        let message = joined2("unsupported Repository Registry schema version ", text.as_str());
        return Err(invariant_violation(message.as_str()));
    }
    Ok(SchemaStep::Create)
}

/// Decides on the schema of an Engineering projection.
pub fn projection_schema(version: i64) -> (result: Result<SchemaStep>)
    ensures
        fails_as(result, projection_schema_problem(version)),
        result is Ok ==> result->Ok_0 == schema_step(version),
{
    if version == SCHEMA_VERSION {
        return Ok(SchemaStep::Current);
    }
    if version != 0 {
        let text = signed_text(version);
        let message = joined2("unsupported Engineering projection schema version ", text.as_str());
        return Err(invariant_violation(message.as_str()));
    }
    Ok(SchemaStep::Create)
}

/// How often the switch to write-ahead logging is attempted.
pub const WAL_RETRY_MAX_ATTEMPTS: u32 = 20;

/// The first pause between attempts, in milliseconds.
pub const WAL_RETRY_INITIAL_BACKOFF_MILLIS: u64 = 25;

/// The longest pause between attempts, in milliseconds.
pub const WAL_RETRY_MAX_BACKOFF_MILLIS: u64 = 250;

/// Where a bounded, backed-off retry stands.
#[derive(Clone, Copy, Debug, PartialEq, Eq, Structural)]
pub struct RetryState {
    pub attempt: u32,
    pub backoff_millis: u64,
}

impl DeepView for RetryState {
    type V = RetryState;

    open spec fn deep_view(&self) -> RetryState {
        *self
    }
}

impl Value for RetryState {
    fn copied(&self) -> (copy: Self) {
        *self
    }

    fn same(&self, other: &Self) -> (equal: bool) {
        *self == *other
    }
}

impl RetryState {
    /// Before the first attempt.
    pub fn start() -> (state: Self)
        ensures
            state.attempt == 0,
            state.backoff_millis == WAL_RETRY_INITIAL_BACKOFF_MILLIS,
    {
        RetryState { attempt: 0, backoff_millis: WAL_RETRY_INITIAL_BACKOFF_MILLIS }
    }

    /// Whether a failed attempt is followed by another: only where the database was busy, attempts
    /// remain, and time remains.
    pub open spec fn retries(self, busy: bool, remaining_millis: u64) -> bool {
        busy && self.attempt + 1 < WAL_RETRY_MAX_ATTEMPTS && remaining_millis > 0
    }

    /// The pause that follows the next failure.
    pub open spec fn next_backoff(self) -> u64 {
        if 2 * self.backoff_millis <= WAL_RETRY_MAX_BACKOFF_MILLIS {
            (2 * self.backoff_millis) as u64
        } else {
            WAL_RETRY_MAX_BACKOFF_MILLIS
        }
    }

    /// The pause before the next attempt: no longer than the time that remains.
    pub open spec fn pause(self, remaining_millis: u64) -> u64 {
        if self.backoff_millis <= remaining_millis {
            self.backoff_millis
        } else {
            remaining_millis
        }
    }

    /// Takes a failed attempt. Returns how long to pause before the next one, if there is one.
    pub fn after_failure(self, busy: bool, remaining_millis: u64) -> (next: Option<(RetryState, u64)>)
        requires
            self.attempt < WAL_RETRY_MAX_ATTEMPTS,
            self.backoff_millis <= WAL_RETRY_MAX_BACKOFF_MILLIS,
        ensures
            next is Some == self.retries(busy, remaining_millis),
            next is Some ==> next->Some_0.0.attempt == self.attempt + 1 && next->Some_0.0.backoff_millis
                == self.next_backoff() && next->Some_0.1 == self.pause(remaining_millis),
    {
        if !busy || self.attempt + 1 >= WAL_RETRY_MAX_ATTEMPTS || remaining_millis == 0 {
            return None;
        }
        let pause = if self.backoff_millis <= remaining_millis {
            self.backoff_millis
        } else {
            remaining_millis
        };
        let doubled = 2 * self.backoff_millis;
        let backoff_millis = if doubled <= WAL_RETRY_MAX_BACKOFF_MILLIS {
            doubled
        } else {
            WAL_RETRY_MAX_BACKOFF_MILLIS
        };
        Some((RetryState { attempt: self.attempt + 1, backoff_millis }, pause))
    }
}

/// Retries end: no more than the allowed attempts are made.
pub proof fn retries_are_bounded(state: RetryState, busy: bool, remaining_millis: u64)
    requires
        state.retries(busy, remaining_millis),
    ensures
        state.attempt + 1 < WAL_RETRY_MAX_ATTEMPTS,
        busy,
{
}

/// What kind of failure a SQLite error is.
#[derive(Clone, Copy, Debug, PartialEq, Eq, Structural)]
pub enum SqliteFailureKind {
    Busy,
    Locked,
    Other,
}

impl DeepView for SqliteFailureKind {
    type V = SqliteFailureKind;

    open spec fn deep_view(&self) -> SqliteFailureKind {
        *self
    }
}

impl Value for SqliteFailureKind {
    fn copied(&self) -> (copy: Self) {
        *self
    }

    fn same(&self, other: &Self) -> (equal: bool) {
        *self == *other
    }
}

/// The kind of failure that an extended SQLite result code stands for: its low byte is the primary
/// code.
pub open spec fn kind_of_code(code: Option<i32>) -> SqliteFailureKind {
    match code {
        Some(code) => {
            let primary = (code as u32) & 0xff;
            if primary == 5 {
                SqliteFailureKind::Busy
            } else if primary == 6 {
                SqliteFailureKind::Locked
            } else {
                SqliteFailureKind::Other
            }
        },
        None => SqliteFailureKind::Other,
    }
}

/// The kind of failure that an extended SQLite result code stands for.
pub fn failure_kind(code: Option<i32>) -> (kind: SqliteFailureKind)
    ensures
        kind == kind_of_code(code),
{
    match code {
        Some(code) => {
            let primary: u32 = (code as u32) & 0xff;
            if primary == 5 {
                SqliteFailureKind::Busy
            } else if primary == 6 {
                SqliteFailureKind::Locked
            } else {
                SqliteFailureKind::Other
            }
        },
        None => SqliteFailureKind::Other,
    }
}

/// Whether a kind of failure is the only one that is safe to retry.
pub open spec fn is_contention(kind: SqliteFailureKind) -> bool {
    kind != SqliteFailureKind::Other
}

/// Whether a failure is one of contention.
pub fn is_busy_kind(kind: SqliteFailureKind) -> (busy: bool)
    ensures
        busy == is_contention(kind),
{
    match kind {
        SqliteFailureKind::Busy | SqliteFailureKind::Locked => true,
        SqliteFailureKind::Other => false,
    }
}

/// Whether a SQLite result code is one of contention, the only failures that are safe to retry.
pub fn is_database_busy(code: Option<i32>) -> (busy: bool)
    ensures
        busy == is_contention(kind_of_code(code)),
{
    is_busy_kind(failure_kind(code))
}

/// The error that a failed storage step becomes.
pub open spec fn storage_failure(context: Seq<char>, text: Seq<char>) -> ErrorView {
    ErrorView { kind: ErrorKind::Io, message: context + ": "@ + text }
}

/// The error that a failed read without waiting becomes: a locked projection is told apart.
pub open spec fn focus_failure(context: Seq<char>, kind: SqliteFailureKind, text: Seq<char>) -> ErrorView {
    if is_contention(kind) {
        ErrorView {
            kind: ErrorKind::MaintenanceBusy,
            message: context + ": Engineering projection is locked by another process"@,
        }
    } else {
        storage_failure(context, text)
    }
}

/// The error that a failed storage step becomes.
pub fn storage_error(context: &str, text: &str) -> (error: Error)
    ensures
        error@ == storage_failure(context@, text@),
{
    let message = joined3(context, ": ", text);
    Error::new(ErrorKind::Io, message.as_str())
}

/// Maps a SQLite failure of a read without waiting.
pub fn sql_error(context: &str, code: Option<i32>, text: &str) -> (error: Error)
    ensures
        error@ == focus_failure(context@, kind_of_code(code), text@),
{
    if is_database_busy(code) {
        let message = joined2(context, ": Engineering projection is locked by another process");
        return Error::new(ErrorKind::MaintenanceBusy, message.as_str());
    }
    storage_error(context, text)
}

/// Disposable local projection store for resolved Engineering Graph state.
#[derive(Clone, Debug, PartialEq, Eq)]
pub struct EngineeringProjectionStore {
    root: String,
    state: String,
    database: String,
}

/// The model of [`EngineeringProjectionStore`].
pub struct EngineeringProjectionStoreView {
    pub root: Seq<char>,
    pub state: Seq<char>,
    pub database: Seq<char>,
}

impl DeepView for EngineeringProjectionStore {
    type V = EngineeringProjectionStoreView;

    closed spec fn deep_view(&self) -> EngineeringProjectionStoreView {
        EngineeringProjectionStoreView {
            root: self.root.deep_view(),
            state: self.state.deep_view(),
            database: self.database.deep_view(),
        }
    }
}

impl Value for EngineeringProjectionStore {
    fn copied(&self) -> (copy: Self) {
        EngineeringProjectionStore {
            root: self.root.copied(),
            state: self.state.copied(),
            database: self.database.copied(),
        }
    }

    fn same(&self, other: &Self) -> (equal: bool) {
        self.root.same(&other.root)
            && self.state.same(&other.state)
            && self.database.same(&other.database)
    }
}

/// One atomically-read historical Engineering projection and provenance Tree from which its
/// persistent References, Context revisions, relations, and safety decisions were built.
#[derive(Clone, Debug, PartialEq, Eq)]
pub struct EngineeringProjectionSnapshot {
    pub context_tree_oid: Option<String>,
    pub projection: EngineeringProjection,
}

/// The model of [`EngineeringProjectionSnapshot`].
pub struct EngineeringProjectionSnapshotView {
    pub context_tree_oid: Option<Seq<char>>,
    pub projection: EngineeringProjectionView,
}

impl DeepView for EngineeringProjectionSnapshot {
    type V = EngineeringProjectionSnapshotView;

    open spec fn deep_view(&self) -> EngineeringProjectionSnapshotView {
        EngineeringProjectionSnapshotView {
            context_tree_oid: self.context_tree_oid.deep_view(),
            projection: self.projection.deep_view(),
        }
    }
}

impl Value for EngineeringProjectionSnapshot {
    fn copied(&self) -> (copy: Self) {
        EngineeringProjectionSnapshot {
            context_tree_oid: self.context_tree_oid.copied(),
            projection: self.projection.copied(),
        }
    }

    fn same(&self, other: &Self) -> (equal: bool) {
        self.context_tree_oid.same(&other.context_tree_oid)
            && self.projection.same(&other.projection)
    }
}

impl EngineeringProjectionStore {
    /// The store below one installation root.
    pub fn at(root: &str) -> (store: Self)
        ensures
            store.deep_view().root == root@,
            store.deep_view().state == path_below(root@, "state"@),
            store.deep_view().database == path_below(store.deep_view().state, "engineering.sqlite"@),
    {
        let state = join_path(root, "state");
        let database = join_path(state.as_str(), "engineering.sqlite");
        EngineeringProjectionStore { root: root.to_owned(), state, database }
    }

    /// The installation root.
    #[must_use]
    pub fn root(&self) -> (path: &str)
        ensures
            path@ == self.deep_view().root,
    {
        self.root.as_str()
    }

    /// The directory of local state.
    #[must_use]
    pub fn state(&self) -> (path: &str)
        ensures
            path@ == self.deep_view().state,
    {
        self.state.as_str()
    }

    /// The projection database.
    #[must_use]
    pub fn database_path(&self) -> (path: &str)
        ensures
            path@ == self.deep_view().database,
    {
        self.database.as_str()
    }
}

/// Why a projection is not stored, if it is not.
pub open spec fn rebuild_problem(
    projection: EngineeringProjectionView,
    context_tree_oid: Option<Seq<char>>,
) -> Option<ErrorView> {
    first(
        projection.problem(),
        match context_tree_oid {
            Some(tree) => given(blank(tree), violated("Engineering projection Context Tree is empty"@)),
            None => None,
        },
    )
}

/// Checks a projection and its provenance before it is stored.
pub fn check_rebuild(projection: &EngineeringProjection, context_tree_oid: Option<&str>) -> (result: Result<()>)
    ensures
        fails_as(
            result,
            rebuild_problem(
                projection.deep_view(),
                match context_tree_oid {
                    Some(tree) => Some(tree@),
                    None => None,
                },
            ),
        ),
{
    projection.validate()?;
    if let Some(tree) = context_tree_oid {
        if is_blank(tree) {
            return Err(invariant_violation("Engineering projection Context Tree is empty"));
        }
    }
    Ok(())
}

/// Requires a stored Context snapshot to belong to the current generation.
pub fn check_context_row(row_generation: &str, artifact_generation: &str) -> (result: Result<()>)
    ensures
        fails_as(
            result,
            given(
                row_generation@ != artifact_generation@,
                violated("Graph Context snapshot leaked an old generation"@),
            ),
        ),
{
    if !same_text(row_generation, artifact_generation) {
        return Err(invariant_violation("Graph Context snapshot leaked an old generation"));
    }
    Ok(())
}

/// Requires a stored Reference to belong to the current generation.
pub fn check_reference_row(row_generation: &str, artifact_generation: &str) -> (result: Result<()>)
    ensures
        fails_as(
            result,
            given(
                row_generation@ != artifact_generation@,
                violated("resolved Engineering Reference leaked an old generation"@),
            ),
        ),
{
    if !same_text(row_generation, artifact_generation) {
        return Err(invariant_violation("resolved Engineering Reference leaked an old generation"));
    }
    Ok(())
}

/// Requires a stored incomplete scan to belong to the current generation.
pub fn check_scan_row(row_generation: &str, artifact_generation: &str) -> (result: Result<()>)
    ensures
        fails_as(
            result,
            given(
                row_generation@ != artifact_generation@,
                violated("incomplete Repository scan leaked an old generation"@),
            ),
        ),
{
    if !same_text(row_generation, artifact_generation) {
        return Err(invariant_violation("incomplete Repository scan leaked an old generation"));
    }
    Ok(())
}

/// The projection that the stored metadata and rows make up.
pub open spec fn read_back(
    policy_version: Seq<char>,
    artifact_generation: Seq<char>,
    context_tree_oid: Option<Seq<char>>,
    contexts: Seq<GraphContextSnapshotView>,
    references: Seq<ResolvedReferenceProjectionView>,
    incomplete_scans: Seq<IncompleteRepositoryScanView>,
) -> EngineeringProjectionSnapshotView {
    EngineeringProjectionSnapshotView {
        context_tree_oid,
        projection: EngineeringProjectionView {
            policy_version,
            artifact_generation,
            contexts,
            references,
            incomplete_scans,
        },
    }
}

/// Puts together and validates a projection that was read back.
pub fn assemble_snapshot(
    policy_version: String,
    artifact_generation: String,
    context_tree_oid: Option<String>,
    contexts: Vec<GraphContextSnapshot>,
    references: Vec<ResolvedReferenceProjection>,
    incomplete_scans: Vec<IncompleteRepositoryScan>,
) -> (result: Result<EngineeringProjectionSnapshot>)
    ensures
        ({
            let expected = read_back(
                policy_version@,
                artifact_generation@,
                context_tree_oid.deep_view(),
                contexts.deep_view(),
                references.deep_view(),
                incomplete_scans.deep_view(),
            );
            fails_as(result, expected.projection.problem()) && (result is Ok ==> result->Ok_0.deep_view() == expected)
        }),
{
    let projection = EngineeringProjection {
        policy_version,
        artifact_generation,
        contexts,
        references,
        incomplete_scans,
    };
    projection.validate()?;
    Ok(EngineeringProjectionSnapshot { context_tree_oid, projection })
}

/// A projection that may be stored reads back as it was stored, with the scans that stopped before
/// reading their whole plan.
pub proof fn stored_projections_read_back(
    projection: EngineeringProjectionView,
    context_tree_oid: Option<Seq<char>>,
)
    requires
        rebuild_problem(projection, context_tree_oid) is None,
    ensures
        read_back(
            projection.policy_version,
            projection.artifact_generation,
            context_tree_oid,
            projection.contexts,
            projection.references,
            projection.incomplete_scans,
        ) == (EngineeringProjectionSnapshotView { context_tree_oid, projection }),
        projection.problem() is None,
{
}

/// Whether a journal mode that the database names is the write-ahead log.
pub fn is_write_ahead(mode: &str) -> (found: bool)
    ensures
        found == (lowered(mode@) == "wal"@),
{
    let lower = lower_text(mode);
    same_text(lower.as_str(), "wal")
}

} // verus!

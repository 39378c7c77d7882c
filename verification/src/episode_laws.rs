//! What holds of valid observations, episodes, checkpoints, analyses, recommendations and Candidates.

use vstd::prelude::*;

use crate::checks::blank;
use crate::episode::{
    artifact_problem, assessment_path_problem, checkpoint_ids, checkpoint_named, checkpoint_of, distinct_text_problem,
    distinct_texts_problem, is_foreign_evidence, observation_ids, opened_episode, primary_count, proposed_count,
    provenance_problem, recommendation_problem, recommendations_problem, repeats_space, signal_ids, unknown_problem,
    AgentCheckpointView, AutomaticContextCandidateView, CandidateAnalysisView, CandidateAssessmentPathView,
    CandidateConfidenceView, CandidateRelationAssessmentView, CandidateSpaceRecommendationPathView,
    CandidateSpaceRecommendationView, CaptureEvidenceRef, CaptureSourceRef, CaptureUnknownView, CheckpointClaimView,
    IntentRevisionRangeView, NonLocatingSignalRef, NormalizedWorkObservationView, WorkEpisodeStatus, WorkEpisodeView,
    WorkObservationView, WorkSourceRefView,
};
use crate::ids::{AgentCheckpointId, TaskId, TaskSessionId};
use crate::model_laws::{
    all_said, first_failures_are_failures, said_if_there, valid_evidence_is_self_contained,
    valid_scopes_have_no_empty_entries,
};
use crate::task_laws::is_text_set;

verus! {

/// A list of different texts passes exactly where every entry says something and none is there twice.
pub proof fn distinct_texts_pass(values: Seq<Seq<char>>, field: Seq<char>)
    ensures
        distinct_texts_problem(values, field) is None <==> is_text_set(values),
{
    let problem = distinct_text_problem(values, field);
    first_failures_are_failures(problem, 0, values.len());
    if forall|i: int| 0 <= i < values.len() ==> (#[trigger] problem(i)) is None {
        assert forall|i: int| 0 <= i < values.len() implies !blank(#[trigger] values[i]) by {
            assert(problem(i) is None);
        }
        assert forall|i: int, j: int| 0 <= i < values.len() && 0 <= j < values.len() && i != j implies values[i]
            != values[j] by {
            let (a, b) = if i < j {
                (i, j)
            } else {
                (j, i)
            };
            assert(problem(b) is None);
            assert(values.take(b)[a] == values[a]);
        }
    }
    if is_text_set(values) {
        assert forall|i: int| 0 <= i < values.len() implies (#[trigger] problem(i)) is None by {
            assert(!blank(values[i]));
            if values.take(i).contains(values[i]) {
                let k = choose|k: int| 0 <= k < i && values.take(i)[k] == values[i];
                assert(values[k] == values[i]);
            }
        }
    }
}

/// A range of intent revisions is valid exactly where it names one, and none twice.
pub proof fn valid_ranges_name_revisions_once(range: IntentRevisionRangeView)
    ensures
        range.problem() is None <==> range.revision_ids.len() > 0 && range.revision_ids.no_duplicates(),
{
}

/// A source of an observation belongs to a task exactly where it names the same session and the same
/// task; an Artifact belongs where its locator is valid; Contexts belong to every task.
pub proof fn sources_belong_to_their_task(
    signal: NonLocatingSignalRef,
    capture: CaptureSourceRef,
    session: TaskSessionId,
    task: TaskId,
)
    ensures
        signal.owner_problem(session, task) is None <==> signal.task_session_id == session && signal.task_id == task,
        capture.owner_problem(session, task) is None <==> capture.task_session_id == session
            && capture.task_id == task,
        (WorkSourceRefView::TaskSignal(signal)).owner_problem(session, task) == signal.owner_problem(session, task),
        (WorkSourceRefView::Capture(capture)).owner_problem(session, task) == capture.owner_problem(session, task),
{
}

/// An Artifact source is valid exactly where its locator is.
pub proof fn artifact_sources_have_valid_locators(
    artifact: crate::episode::ArtifactRefView,
    session: TaskSessionId,
    task: TaskId,
)
    ensures
        (WorkSourceRefView::Artifact(artifact)).owner_problem(session, task) is None <==> artifact.locator.problem()
            is None,
{
}

/// A normalized observation is valid exactly where what it observed says something: summaries, names
/// and conclusions are not empty, locators are valid, an interface is an API or a schema, and a
/// validation has evidence, none twice.
pub proof fn valid_observations_say_something(observation: NormalizedWorkObservationView, field: Seq<char>, at: int)
    ensures
        match observation {
            NormalizedWorkObservationView::Breadcrumb { summary, .. } => observation.problem(field) is None <==> !blank(
                summary,
            ),
            NormalizedWorkObservationView::TestOutcome {
                test_name,
                summary,
                ..
            } => observation.problem(field) is None
                <==> !blank(test_name) && !blank(summary),
            NormalizedWorkObservationView::Diff { summary, artifact_refs } => observation.problem(field) is None
                ==> !blank(summary) && artifact_refs.no_duplicates() && (0 <= at < artifact_refs.len()
                ==> artifact_refs[at].locator.problem() is None),
            NormalizedWorkObservationView::ContextUse { reason, .. } => observation.problem(field) is None <==> !blank(
                reason,
            ),
            NormalizedWorkObservationView::Artifact { artifact, summary, .. } => observation.problem(field) is None
                <==> artifact.locator.problem() is None && !blank(summary),
            NormalizedWorkObservationView::Interface { interface, observation: seen } => observation.problem(field)
                is None <==> interface.locator.problem() is None && (interface.locator.kind() is Api
                || interface.locator.kind() is Schema) && !blank(seen),
            NormalizedWorkObservationView::Validation {
                conclusion,
                evidence_refs,
            } => observation.problem(field) is None
                <==> !blank(conclusion) && evidence_refs.len() > 0 && evidence_refs.no_duplicates(),
            NormalizedWorkObservationView::InlineValidation { evidence } => observation.problem(field) is None
                <==> !blank(evidence.supports) && !blank(evidence.interpretation) && all_said(evidence.limitations)
                && evidence.content.has_members(),
            NormalizedWorkObservationView::UnresolvedQuestion { question } => observation.problem(field) is None
                <==> !blank(question),
        },
{
    match observation {
        NormalizedWorkObservationView::Diff { summary, artifact_refs } => {
            let problem = artifact_problem(artifact_refs);
            first_failures_are_failures(problem, 0, artifact_refs.len());
            if observation.problem(field) is None && 0 <= at < artifact_refs.len() {
                assert(problem(at) is None);
            }
        },
        NormalizedWorkObservationView::InlineValidation { evidence } => {
            valid_evidence_is_self_contained(evidence, field + ".evidence"@);
        },
        _ => {},
    }
}

/// An observation is valid exactly where it has sources, none twice, unless it validates inline, all of
/// them of its own task, and what it observed is valid.
pub proof fn valid_observations_have_own_sources(observation: WorkObservationView)
    ensures
        observation.problem() is None <==> {
            &&& observation.source_refs.len() > 0 || observation.observation is InlineValidation
            &&& observation.source_refs.no_duplicates()
            &&& forall|i: int|
                0 <= i < observation.source_refs.len() ==> (#[trigger] observation.source_refs[i]).owner_problem(
                    observation.task_session_id,
                    observation.task_id,
                ) is None
            &&& observation.observation.problem("work_observation.observation"@) is None
        },
{
    let problem = observation.source_problem();
    let sources = observation.source_refs;
    first_failures_are_failures(problem, 0, sources.len());
    if forall|i: int| 0 <= i < sources.len() ==> (#[trigger] problem(i)) is None {
        assert forall|i: int| 0 <= i < sources.len() implies (#[trigger] sources[i]).owner_problem(
            observation.task_session_id,
            observation.task_id,
        ) is None by {
            assert(problem(i) is None);
        }
    }
    if forall|i: int|
        0 <= i < sources.len() ==> (#[trigger] sources[i]).owner_problem(
            observation.task_session_id,
            observation.task_id,
        ) is None {
        assert forall|i: int| 0 <= i < sources.len() implies (#[trigger] problem(i)) is None by {
            assert(sources[i].owner_problem(observation.task_session_id, observation.task_id) is None);
        }
    }
}

/// An observation fits an episode exactly where it is valid, of the same session and task, made under
/// an intent revision of the episode, and every signal that it names is one of the episode.
pub proof fn observations_fit_their_episode(episode: WorkEpisodeView, observation: WorkObservationView)
    ensures
        episode.observation_problem(observation) is None <==> {
            &&& observation.problem() is None
            &&& observation.task_session_id == episode.task_session_id
            &&& observation.task_id == episode.task_id
            &&& episode.intent_revisions.revision_ids.contains(observation.intent_revision_id)
            &&& forall|i: int|
                0 <= i < observation.source_refs.len() && (#[trigger] observation.source_refs[i]) is TaskSignal
                    ==> episode.signal_refs.contains(observation.source_refs[i]->TaskSignal_0)
        },
{
}

/// Every part of a valid episode belongs to it: its range is valid, its signals are different and its
/// own, and its observations are different and fit it.
pub proof fn valid_episodes_own_their_parts(episode: WorkEpisodeView, at: int, other: int)
    requires
        episode.problem() is None,
    ensures
        episode.intent_revisions.problem() is None,
        episode.signal_refs.no_duplicates(),
        0 <= at < episode.signal_refs.len() ==> episode.signal_refs[at].task_session_id == episode.task_session_id
            && episode.signal_refs[at].task_id == episode.task_id,
        0 <= at < episode.observations.len() ==> episode.observation_problem(episode.observations[at]) is None,
        0 <= other < at < episode.observations.len() ==> episode.observations[other].observation_id
            != episode.observations[at].observation_id,
{
    let signals = episode.signal_problem();
    let observations = episode.listed_observation_problem();
    first_failures_are_failures(signals, 0, episode.signal_refs.len());
    first_failures_are_failures(observations, 0, episode.observations.len());
    if 0 <= at < episode.signal_refs.len() {
        assert(signals(at) is None);
    }
    if 0 <= at < episode.observations.len() {
        assert(observations(at) is None);
        if 0 <= other < at {
            let ids = observation_ids(episode.observations);
            assert(ids.take(at)[other] == episode.observations[other].observation_id);
        }
    }
}

/// An open episode takes an observation exactly where it fits and is new; a closed one takes none. It
/// is added last, and nothing else changes.
pub proof fn only_open_episodes_take_observations(episode: WorkEpisodeView, observation: WorkObservationView)
    ensures
        episode.addition_problem(observation) is None <==> {
            &&& episode.status is Open
            &&& episode.observation_problem(observation) is None
            &&& forall|i: int|
                0 <= i < episode.observations.len() ==> (#[trigger] episode.observations[i]).observation_id
                    != observation.observation_id
        },
        episode.with_observation(observation).observations == episode.observations.push(observation),
        episode.with_observation(observation).status == episode.status,
        episode.with_observation(observation).signal_refs == episode.signal_refs,
        episode.with_observation(observation).intent_revisions == episode.intent_revisions,
        episode.with_observation(observation).ownership() == episode.ownership(),
{
    let ids = observation_ids(episode.observations);
    if ids.contains(observation.observation_id) {
        let k = choose|k: int| 0 <= k < ids.len() && ids[k] == observation.observation_id;
        assert(episode.observations[k].observation_id == observation.observation_id);
    } else {
        assert forall|i: int| 0 <= i < episode.observations.len() implies (
        #[trigger] episode.observations[i]).observation_id != observation.observation_id by {
            assert(ids[i] == episode.observations[i].observation_id);
            assert(ids.contains(ids[i]));
        }
    }
}

/// An open episode closes exactly at a checkpoint that is valid for it, and names it; nothing else of it
/// changes. An episode opens empty, with what it was given.
pub proof fn episodes_close_at_a_valid_checkpoint(
    episode: WorkEpisodeView,
    checkpoint: AgentCheckpointView,
    id: AgentCheckpointId,
)
    ensures
        episode.closing_problem(checkpoint) is None <==> episode.status is Open
            && checkpoint.problem(episode) is None,
        episode.closed_at(id).status == (WorkEpisodeStatus::Closed { final_checkpoint_id: id }),
        episode.closed_at(id).observations == episode.observations,
        episode.closed_at(id).signal_refs == episode.signal_refs,
        episode.closed_at(id).ownership() == episode.ownership(),
        ({
            let opened = opened_episode(
                episode.episode_id,
                episode.task_session_id,
                episode.task_id,
                episode.intent_revisions,
                episode.signal_refs,
            );
            &&& opened.status is Open
            &&& opened.observations.len() == 0
            &&& opened.ownership() == episode.ownership()
            &&& opened.intent_revisions == episode.intent_revisions
            &&& opened.signal_refs == episode.signal_refs
        }),
        episode.ownership().episode_id == episode.episode_id,
        episode.ownership().task_session_id == episode.task_session_id,
        episode.ownership().task_id == episode.task_id,
{
}

/// An unknown is valid exactly where it is stated and what would settle it says something, nothing
/// twice.
pub proof fn valid_unknowns_are_stated(unknown: CaptureUnknownView, field: Seq<char>)
    ensures
        unknown.problem(field) is None <==> !blank(unknown.statement) && is_text_set(unknown.recheck_when),
{
    distinct_texts_pass(unknown.recheck_when, field + ".recheck_when"@);
}

/// A valid claim is stated and reasoned, in a valid scope, with evidence, none twice, valid Artifacts,
/// and Contexts that it relates to, none twice.
pub proof fn valid_claims_have_evidence(claim: CheckpointClaimView, field: Seq<char>, at: int)
    requires
        claim.problem(field) is None,
    ensures
        said_if_there(claim.topic_key_hint),
        !blank(claim.statement),
        !blank(claim.rationale),
        all_said(claim.applicability.domains),
        all_said(claim.applicability.platforms),
        all_said(claim.applicability.conditions),
        is_text_set(claim.assumptions),
        is_text_set(claim.recheck_when),
        claim.evidence_refs.len() > 0,
        claim.evidence_refs.no_duplicates(),
        claim.artifact_refs.no_duplicates(),
        0 <= at < claim.artifact_refs.len() ==> claim.artifact_refs[at].locator.problem() is None,
        claim.related_contexts.no_duplicates(),
{
    valid_scopes_have_no_empty_entries(claim.applicability, field + ".applicability"@);
    distinct_texts_pass(claim.assumptions, field + ".assumptions"@);
    distinct_texts_pass(claim.recheck_when, field + ".recheck_when"@);
    let problem = artifact_problem(claim.artifact_refs);
    first_failures_are_failures(problem, 0, claim.artifact_refs.len());
    if 0 <= at < claim.artifact_refs.len() {
        assert(problem(at) is None);
    }
}

/// Task-local evidence belongs to an episode where the episode has that observation or that signal;
/// evidence of Contexts belongs everywhere.
pub proof fn evidence_belongs_to_its_episode(evidence: CaptureEvidenceRef, episode: WorkEpisodeView)
    ensures
        match evidence {
            CaptureEvidenceRef::Observation { observation_id } => !is_foreign_evidence(evidence, episode) <==> exists|i: int|
                0 <= i < episode.observations.len() && (#[trigger] episode.observations[i]).observation_id
                    == observation_id,
            CaptureEvidenceRef::TaskSignal { signal_id } => !is_foreign_evidence(evidence, episode) <==> exists|i: int|
                0 <= i < episode.signal_refs.len() && (#[trigger] episode.signal_refs[i]).signal_id == signal_id,
            CaptureEvidenceRef::ContextEvidence { .. } => !is_foreign_evidence(evidence, episode),
        },
{
    let (seen, signals) = (observation_ids(episode.observations), signal_ids(episode.signal_refs));
    match evidence {
        CaptureEvidenceRef::Observation { observation_id } => {
            if seen.contains(observation_id) {
                let k = choose|k: int| 0 <= k < seen.len() && seen[k] == observation_id;
                assert(episode.observations[k].observation_id == observation_id);
            }
            if exists|i: int|
                0 <= i < episode.observations.len() && (#[trigger] episode.observations[i]).observation_id
                    == observation_id {
                let i = choose|i: int|
                    0 <= i < episode.observations.len() && (#[trigger] episode.observations[i]).observation_id
                        == observation_id;
                assert(seen[i] == observation_id);
            }
        },
        CaptureEvidenceRef::TaskSignal { signal_id } => {
            if signals.contains(signal_id) {
                let k = choose|k: int| 0 <= k < signals.len() && signals[k] == signal_id;
                assert(episode.signal_refs[k].signal_id == signal_id);
            }
            if exists|i: int|
                0 <= i < episode.signal_refs.len() && (#[trigger] episode.signal_refs[i]).signal_id == signal_id {
                let i = choose|i: int|
                    0 <= i < episode.signal_refs.len() && (#[trigger] episode.signal_refs[i]).signal_id == signal_id;
                assert(signals[i] == signal_id);
            }
        },
        _ => {},
    }
}

/// A valid checkpoint is of its episode, made under one of its intent revisions, says something, repeats
/// no claim, and rests on evidence of the episode only.
pub proof fn valid_checkpoints_belong_to_their_episode(
    checkpoint: AgentCheckpointView,
    episode: WorkEpisodeView,
    at: int,
    other: int,
)
    requires
        checkpoint.problem(episode) is None,
    ensures
        checkpoint.episode_id == episode.episode_id,
        checkpoint.task_session_id == episode.task_session_id,
        checkpoint.task_id == episode.task_id,
        episode.intent_revisions.revision_ids.contains(checkpoint.intent_revision_id),
        checkpoint.claims.len() > 0 || checkpoint.unknowns.len() > 0,
        checkpoint.unknowns.no_duplicates(),
        0 <= at < checkpoint.claims.len() ==> checkpoint.claims[at].problem("agent_checkpoint.claim"@) is None,
        0 <= at < checkpoint.claims.len() && 0 <= other < checkpoint.claims[at].evidence_refs.len()
            ==> !is_foreign_evidence(checkpoint.claims[at].evidence_refs[other], episode),
        0 <= other < at < checkpoint.claims.len() ==> checkpoint.claims[other].claim_id != checkpoint.claims[at].claim_id
            && !(checkpoint.claims[other].statement == checkpoint.claims[at].statement
            && checkpoint.claims[other].rationale == checkpoint.claims[at].rationale),
        0 <= at < checkpoint.unknowns.len() ==> !blank(checkpoint.unknowns[at].statement),
{
    let claims = checkpoint.claim_problem(episode);
    let unknowns = unknown_problem(checkpoint.unknowns, "agent_checkpoint.unknown"@);
    first_failures_are_failures(claims, 0, checkpoint.claims.len());
    first_failures_are_failures(unknowns, 0, checkpoint.unknowns.len());
    if 0 <= at < checkpoint.claims.len() {
        assert(claims(at) is None);
        assert(!checkpoint.repeats_claim(at));
        assert(!checkpoint.has_foreign_evidence(episode, at));
    }
    if 0 <= at < checkpoint.unknowns.len() {
        assert(unknowns(at) is None);
    }
}

/// A checkpoint that is made for an episode belongs to it and holds what it was given.
pub proof fn checkpoints_are_made_for_their_episode(
    id: AgentCheckpointId,
    episode: WorkEpisodeView,
    checkpoint: AgentCheckpointView,
)
    ensures
        ({
            let made = checkpoint_of(
                id,
                episode,
                checkpoint.intent_revision_id,
                checkpoint.claims,
                checkpoint.unknowns,
            );
            &&& made.checkpoint_id == id
            &&& made.episode_id == episode.episode_id
            &&& made.task_session_id == episode.task_session_id
            &&& made.task_id == episode.task_id
            &&& made.intent_revision_id == checkpoint.intent_revision_id
            &&& made.claims == checkpoint.claims
            &&& made.unknowns == checkpoint.unknowns
        }),
{
}

/// A confidence is valid exactly where it is at most ten thousand basis points and reasoned.
pub proof fn valid_confidences_are_bounded(confidence: CandidateConfidenceView, field: Seq<char>)
    ensures
        confidence.problem(field) is None <==> confidence.basis_points <= 10_000 && !blank(confidence.rationale),
{
}

/// The path of an assessment is valid exactly where it names what it went by.
pub proof fn valid_assessment_paths_name_their_basis(path: CandidateAssessmentPathView, field: Seq<char>)
    ensures
        match path {
            CandidateAssessmentPathView::TopicEquality { topic_key } => {
                path.problem(field) is None <==> !blank(topic_key)
            },
            CandidateAssessmentPathView::ExactArtifactGraph { artifact } => path.problem(field) is None
                <==> artifact.locator.problem() is None,
            CandidateAssessmentPathView::ContextRelationHop { depth, .. } => path.problem(field) is None <==> depth == 1
                || depth == 2,
            CandidateAssessmentPathView::ContextFullText { matched_terms } => path.problem(field) is None
                <==> matched_terms.len() > 0 && is_text_set(matched_terms),
            CandidateAssessmentPathView::ScopeOverlap {
                domains,
                platforms,
                conditions,
            } => path.problem(field) is None
                <==> (domains.len() > 0 || platforms.len() > 0 || conditions.len() > 0) && is_text_set(domains)
                && is_text_set(platforms) && is_text_set(conditions),
            CandidateAssessmentPathView::SafetyDiagnostic { reason } => {
                path.problem(field) is None <==> !blank(reason)
            },
            _ => path.problem(field) is None,
        },
{
    match path {
        CandidateAssessmentPathView::ContextFullText { matched_terms } => {
            distinct_texts_pass(matched_terms, field + ".matched_terms"@);
        },
        CandidateAssessmentPathView::ScopeOverlap { domains, platforms, conditions } => {
            distinct_texts_pass(domains, field + ".domains"@);
            distinct_texts_pass(platforms, field + ".platforms"@);
            distinct_texts_pass(conditions, field + ".conditions"@);
        },
        _ => {},
    }
}

/// A valid assessment has a target exactly where it finds something that is not novel, gives typed
/// paths and reasons, and calls a duplicate exact only where the drafts are equal.
pub proof fn valid_assessments_have_a_target(
    assessment: CandidateRelationAssessmentView,
    field: Seq<char>,
    at: int,
)
    requires
        assessment.problem(field) is None,
    ensures
        assessment.relation is Novel <==> assessment.target is None,
        assessment.confidence.problem(field + ".confidence"@) is None,
        assessment.paths.len() > 0,
        assessment.paths.no_duplicates(),
        assessment.reasons.len() > 0,
        is_text_set(assessment.reasons),
        assessment.relation is ExactDuplicate ==> assessment.paths.contains(
            CandidateAssessmentPathView::CanonicalDraftEquality,
        ),
        0 <= at < assessment.paths.len() ==> assessment.paths[at].problem(
            crate::checks::entry(field + ".paths"@, at as nat),
        ) is None,
{
    distinct_texts_pass(assessment.reasons, field + ".reasons"@);
    let problem = assessment_path_problem(assessment.paths, field);
    first_failures_are_failures(problem, 0, assessment.paths.len());
    if 0 <= at < assessment.paths.len() {
        assert(problem(at) is None);
    }
}

/// A valid analysis holds what its status calls for: nothing while it is pending, only an error where it
/// failed, and where it is complete its provenance and assessments within its budget, each target once,
/// and novelty alone.
pub proof fn valid_analyses_fit_their_status(analysis: CandidateAnalysisView, at: int, other: int)
    requires
        analysis.problem() is None,
    ensures
        analysis.status is Pending ==> analysis.assessments.len() == 0 && analysis.error_code is None,
        analysis.status is Failed ==> analysis.assessments.len() == 0 && analysis.error_code is Some
            && analysis.error_code->Some_0.len() > 0,
        analysis.status is Complete ==> {
            &&& analysis.context_tree_oid is Some && analysis.context_tree_oid->Some_0.len() > 0
            &&& analysis.context_generation is Some
            &&& analysis.assessments.len() > 0
            &&& analysis.error_code is None
            &&& analysis.estimated_tokens <= analysis.token_budget
            &&& 0 <= at < analysis.assessments.len() && analysis.assessments[at].relation is Novel
                ==> analysis.assessments.len() == 1
            &&& 0 <= at < analysis.assessments.len() ==> analysis.assessments[at].problem(
                crate::checks::entry("candidate_analysis.assessments"@, at as nat),
            ) is None
            &&& 0 <= other < at < analysis.assessments.len() ==> analysis.assessments[other].target
                != analysis.assessments[at].target
        },
{
    if analysis.status is Complete {
        let problem = analysis.assessment_problem();
        first_failures_are_failures(problem, 0, analysis.assessments.len());
        if 0 <= at < analysis.assessments.len() {
            assert(problem(at) is None);
            if analysis.assessments[at].relation is Novel {
                assert(analysis.finds_novel(analysis.assessments.len() as int));
            }
            if 0 <= other < at {
                assert(problem(other) is None);
                if analysis.assessments[other].relation is Novel {
                    assert(analysis.finds_novel(analysis.assessments.len() as int));
                }
                assert(!analysis.repeats_target(at));
            }
        }
    }
}

/// The path of a recommendation is valid exactly where it names what it went by.
pub proof fn valid_recommendation_paths_name_their_basis(
    path: CandidateSpaceRecommendationPathView,
    field: Seq<char>,
)
    ensures
        match path {
            CandidateSpaceRecommendationPathView::CandidateTarget { relation, .. } => path.problem(field) is None
                <==> !(relation is Novel),
            CandidateSpaceRecommendationPathView::SourceTaskAssociation { reason } => path.problem(field) is None
                <==> !blank(reason),
            CandidateSpaceRecommendationPathView::SpaceIntentMatch { matched_terms } => path.problem(field) is None
                <==> matched_terms.len() > 0 && is_text_set(matched_terms),
            CandidateSpaceRecommendationPathView::IntentConflict { head_count } => path.problem(field) is None
                <==> head_count >= 2,
            _ => path.problem(field) is None,
        },
{
    match path {
        CandidateSpaceRecommendationPathView::SpaceIntentMatch { matched_terms } => {
            distinct_texts_pass(matched_terms, field + ".matched_terms"@);
        },
        _ => {},
    }
}

/// A recommendation is valid only where it is reasoned, its confidence is valid, its paths are there,
/// different and valid, and the Space that it proposes is valid.
pub proof fn valid_recommendations_are_reasoned(value: CandidateSpaceRecommendationView, field: Seq<char>)
    requires
        value.problem(field) is None,
    ensures
        match value {
            CandidateSpaceRecommendationView::Existing { rationale, confidence, paths, .. } => !blank(rationale)
                && confidence.problem(field + ".confidence"@) is None && paths.len() > 0 && paths.no_duplicates(),
            CandidateSpaceRecommendationView::ProposedNewSpaceIntent {
                proposed_new_space_intent,
                rationale,
                confidence,
                paths,
            } => proposed_new_space_intent.invalidity() is None && !blank(rationale) && confidence.problem(
                field + ".confidence"@,
            ) is None && paths.len() > 0 && paths.no_duplicates(),
        },
{
}

proof fn primaries_are_counted(values: Seq<CandidateSpaceRecommendationView>, count: int, i: int, j: int)
    requires
        0 <= count <= values.len(),
    ensures
        0 <= i < count && values[i].is_primary() ==> primary_count(values, count) >= 1,
        0 <= i < j < count && values[i].is_primary() && values[j].is_primary() ==> primary_count(values, count) >= 2,
        0 <= i < count && values[i] is ProposedNewSpaceIntent ==> proposed_count(values, count) >= 1,
        0 <= i < j < count && values[i] is ProposedNewSpaceIntent && values[j] is ProposedNewSpaceIntent
            ==> proposed_count(values, count) >= 2,
    decreases count,
{
    if count > 0 {
        primaries_are_counted(values, count - 1, i, j);
        if j == count - 1 {
            primaries_are_counted(values, count - 1, i, i);
        }
    }
}

/// Recommendations are valid, name each existing Space once, at most one of them as primary, and propose
/// at most one new Space.
pub proof fn recommendations_name_one_primary_space(
    values: Seq<CandidateSpaceRecommendationView>,
    i: int,
    j: int,
)
    requires
        recommendations_problem(values) is None,
        0 <= i < j < values.len(),
    ensures
        values[i].problem(crate::checks::entry("space_recommendations"@, i as nat)) is None,
        values[i] is Existing
            && values[j] is Existing ==> values[i]->Existing_space_id != values[j]->Existing_space_id,
        !(values[i] is ProposedNewSpaceIntent && values[j] is ProposedNewSpaceIntent),
        values[i] is Existing && values[j] is Existing ==> !(values[i]->Existing_role is Primary
            && values[j]->Existing_role is Primary),
{
    let problem = recommendation_problem(values);
    first_failures_are_failures(problem, 0, values.len());
    assert(problem(i) is None && problem(j) is None);
    assert(!repeats_space(values, j));
    primaries_are_counted(values, values.len() as int, i, j);
}

/// The provenance of a Candidate is valid exactly where it names a checkpoint, and nothing twice.
pub proof fn valid_provenance_names_a_checkpoint(
    checkpoints: Seq<AgentCheckpointId>,
    observations: Seq<crate::ids::WorkObservationId>,
)
    ensures
        provenance_problem(checkpoints, observations) is None <==> checkpoints.len() > 0
            && checkpoints.no_duplicates()
            && observations.no_duplicates(),
{
}

/// A checkpoint is found by its identity where it is there.
pub proof fn checkpoints_are_found(checkpoints: Seq<AgentCheckpointView>, id: AgentCheckpointId, from: int)
    requires
        0 <= from <= checkpoints.len(),
    ensures
        match checkpoint_named(checkpoints, id, from) {
            Some(found) => found.checkpoint_id == id && checkpoints.contains(found),
            None => forall|i: int| from <= i < checkpoints.len() ==> (#[trigger] checkpoints[i]).checkpoint_id != id,
        },
    decreases checkpoints.len() - from,
{
    if from < checkpoints.len() {
        if checkpoints[from].checkpoint_id == id {
            assert(checkpoints.contains(checkpoints[from]));
        } else {
            checkpoints_are_found(checkpoints, id, from + 1);
        }
    }
}

/// A valid Candidate comes from its closed episode: it and its provenance are of that episode, the
/// provenance names the final checkpoint, every checkpoint that it names is there and valid for the
/// episode, and every observation is one of the episode's.
pub proof fn valid_candidates_come_from_their_episode(
    candidate: AutomaticContextCandidateView,
    episode: WorkEpisodeView,
    checkpoints: Seq<AgentCheckpointView>,
    at: int,
)
    requires
        candidate.problem(episode, checkpoints) is None,
    ensures
        episode.problem() is None,
        episode.status is Closed,
        candidate.source_episode == episode.ownership(),
        candidate.builder_provenance.source_episode == episode.ownership(),
        candidate.builder_provenance.checkpoint_ids.contains(episode.status->Closed_final_checkpoint_id),
        candidate.builder_provenance.checkpoint_ids.no_duplicates(),
        candidate.builder_provenance.observation_ids.no_duplicates(),
        checkpoint_ids(checkpoints).no_duplicates(),
        0 <= at < candidate.builder_provenance.checkpoint_ids.len() ==> exists|k: int|
            0 <= k < checkpoints.len() && (#[trigger] checkpoints[k]).checkpoint_id
                == candidate.builder_provenance.checkpoint_ids[at] && checkpoints[k].problem(episode) is None,
        0 <= at < candidate.builder_provenance.observation_ids.len() ==> observation_ids(episode.observations).contains(
            candidate.builder_provenance.observation_ids[at],
        ),
{
    let problem = candidate.source_checkpoint_problem(episode, checkpoints);
    let ids = candidate.builder_provenance.checkpoint_ids;
    first_failures_are_failures(problem, 0, ids.len());
    if 0 <= at < ids.len() {
        assert(problem(at) is None);
        checkpoints_are_found(checkpoints, ids[at], 0);
        let found = checkpoint_named(checkpoints, ids[at], 0)->Some_0;
        let k = choose|k: int| 0 <= k < checkpoints.len() && checkpoints[k] == found;
        assert(checkpoints[k].problem(episode) is None);
    }
}

/// A valid Candidate has valid content, a valid analysis, valid recommendations and a valid confidence,
/// and nothing unknown twice; one that is ready for review has no blocking unknown and some confidence.
pub proof fn ready_candidates_are_not_blocked(
    candidate: AutomaticContextCandidateView,
    episode: WorkEpisodeView,
    checkpoints: Seq<AgentCheckpointView>,
    at: int,
)
    requires
        candidate.problem(episode, checkpoints) is None,
    ensures
        candidate.content.invalidity() is None,
        candidate.analysis.problem() is None,
        recommendations_problem(candidate.space_recommendations) is None,
        candidate.confidence.basis_points <= 10_000,
        candidate.unknowns.no_duplicates(),
        0 <= at < candidate.unknowns.len() ==> !blank(candidate.unknowns[at].statement),
        candidate.status is ReadyForReview && 0 <= at < candidate.unknowns.len() ==> !candidate.unknowns[at].blocking,
        candidate.status is ReadyForReview ==> candidate.confidence.basis_points > 0,
{
    let problem = unknown_problem(candidate.unknowns, "candidate.unknown"@);
    first_failures_are_failures(problem, 0, candidate.unknowns.len());
    if 0 <= at < candidate.unknowns.len() {
        assert(problem(at) is None);
    }
}

} // verus!

//! What holds of confirming a Candidate: its edits, its operation, and the plan that it reserves.

use vstd::prelude::*;

use crate::checks::blank;
use crate::confirmation::{
    content_hash, is_content_hash, optional_event, CandidateConfirmationCausalRefsView, CandidateConfirmationDraftView,
    CandidateConfirmationInputsView, CandidateConfirmationOperationView, CandidateConfirmationPlanIdentitiesView,
    CandidateConfirmationPlanView, CandidateConfirmationPrimaryReference, CandidateConfirmationRequestView,
    CandidatePrimarySelectionView, ContextSpaceAssociationDraftView, ContextSpaceAssociationOrigin, DecisionSource,
    OptionalCandidateEditsView, ProblemViewEditView, TopicKeyEditView,
};
use crate::episode::ContextCandidateView;
use crate::ids::{ConfirmationId, SpaceAssociationId};
use crate::model::ContextRevisionDraftView;
use crate::model_laws::{blames_input, first_failures_are_failures};

verus! {

/// Whether a field of a result is the replacement where one was supplied, and the source's otherwise.
pub open spec fn took<T>(edit: Option<T>, source: T, result: T) -> bool {
    (edit is Some ==> result == edit->Some_0) && (edit is None ==> result == source)
}

/// Every replacement that was supplied reaches the result, and every other field is the source's. A
/// topic or a problem view that was cleared is gone.
pub proof fn supplied_replacements_reach_the_draft(
    edits: OptionalCandidateEditsView,
    source: ContextRevisionDraftView,
)
    ensures
        ({
            let result = edits.edited(source);
            &&& took(edits.kind, source.kind, result.kind)
            &&& took(edits.statement, source.statement, result.statement)
            &&& took(edits.rationale, source.rationale, result.rationale)
            &&& took(edits.applicability, source.applicability, result.applicability)
            &&& took(edits.assumptions, source.assumptions, result.assumptions)
            &&& took(edits.recheck_when, source.recheck_when, result.recheck_when)
            &&& took(edits.hints, source.hints, result.hints)
            &&& took(edits.relations, source.relations, result.relations)
            &&& took(edits.evidence, source.evidence, result.evidence)
            &&& edits.topic_key is None ==> result.topic_key == source.topic_key
            &&& edits.topic_key matches Some(edit) ==> match edit {
                TopicKeyEditView::Replace { value } => result.topic_key == Some(value),
                TopicKeyEditView::Clear => result.topic_key is None,
            }
            &&& edits.problem_view is None ==> result.problem_view == source.problem_view
            &&& edits.problem_view matches Some(edit) ==> match edit {
                ProblemViewEditView::Replace { value } => result.problem_view == Some(value),
                ProblemViewEditView::Clear => result.problem_view is None,
            }
        }),
{
}

/// Edits that name every field make the same draft of any source: nothing of the source is left.
pub proof fn full_edits_leave_nothing_of_the_source(
    edits: OptionalCandidateEditsView,
    left: ContextRevisionDraftView,
    right: ContextRevisionDraftView,
)
    requires
        edits.kind is Some,
        edits.topic_key is Some,
        edits.problem_view is Some,
        edits.statement is Some,
        edits.rationale is Some,
        edits.applicability is Some,
        edits.assumptions is Some,
        edits.recheck_when is Some,
        edits.hints is Some,
        edits.relations is Some,
        edits.evidence is Some,
    ensures
        edits.edited(left) == edits.edited(right),
{
}

/// The draft that a confirmation ends up with is the Candidate's, with the edits of the operation.
pub proof fn final_drafts_are_edited_candidates(inputs: CandidateConfirmationInputsView)
    ensures
        took(inputs.operation.edits.statement, inputs.candidate.content.statement, inputs.final_draft().statement),
        took(inputs.operation.edits.rationale, inputs.candidate.content.rationale, inputs.final_draft().rationale),
        inputs.final_draft() == inputs.operation.edits.edited(inputs.candidate.content),
        inputs.request().edits == inputs.operation.edits,
        inputs.request().candidate_id == inputs.operation.candidate_id,
        inputs.request().related_space_ids == inputs.operation.related_space_ids,
        inputs.request().primary == inputs.resolved_primary,
{
}

/// A request is granted exactly where it names the Candidate that it is put to, proposes a valid new
/// Space if it proposes one, relates each Space once and not its own primary one, and leaves a valid
/// draft.
pub proof fn granted_requests_fit_their_candidate(
    request: CandidateConfirmationRequestView,
    candidate: ContextCandidateView,
)
    ensures
        request.problem(candidate) is None <==> {
            &&& request.candidate_id == candidate.candidate_id
            &&& match request.primary {
                CandidatePrimarySelectionView::Existing { space_id } => !request.related_space_ids.contains(space_id),
                CandidatePrimarySelectionView::ProposedNew { intent } => intent.invalidity() is None,
            }
            &&& request.related_space_ids.no_duplicates()
            &&& request.edits.edited(candidate.content).invalidity() is None
        },
{
}

/// An operation is valid exactly where its review and analysis generations are positive, and it
/// relates each Space once and not its own primary one.
pub proof fn valid_operations_have_generations(operation: CandidateConfirmationOperationView)
    ensures
        operation.problem() is None <==> {
            &&& operation.review_parent_version > 0
            &&& operation.analysis_generation > 0
            &&& operation.related_space_ids.no_duplicates()
            &&& operation.primary matches CandidateConfirmationPrimaryReference::ExistingSpace { space_id }
                ==> !operation.related_space_ids.contains(space_id)
        },
        blames_input(operation.problem()),
{
}

/// An association is valid exactly where it relates each Space once and not its primary one, names no
/// earlier association twice, and has a cause: the first one comes from a Candidate, every later one
/// corrects an earlier one.
pub proof fn valid_associations_are_caused(draft: ContextSpaceAssociationDraftView, id: SpaceAssociationId)
    ensures
        draft.problem() is None <==> {
            &&& draft.related_space_ids.no_duplicates()
            &&& !draft.related_space_ids.contains(draft.primary_space_id)
            &&& draft.previous_association_ids.no_duplicates()
            &&& draft.origin is CandidateConfirmation <==> draft.previous_association_ids.len() == 0
        },
        blames_input(draft.problem()),
        draft.named(id).association_id == id,
        draft.named(id).draft() == draft,
        draft.named(id).context_id == draft.context_id,
        draft.named(id).primary_space_id == draft.primary_space_id,
        draft.named(id).related_space_ids == draft.related_space_ids,
        draft.named(id).previous_association_ids == draft.previous_association_ids,
        draft.named(id).origin == draft.origin,
{
}

/// Every Event that causes a confirmation is among its causes, each once where they are valid.
pub proof fn causes_name_every_event(refs: CandidateConfirmationCausalRefsView, at: int)
    requires
        0 <= at < refs.engineering_reference_event_ids.len(),
    ensures
        refs.events().contains(refs.context_revision_event_id),
        refs.events().contains(refs.space_association_event_id),
        refs.events().contains(refs.publication_event_id),
        refs.space_created_event_id matches Some(id) ==> refs.events().contains(id),
        refs.events().contains(refs.engineering_reference_event_ids[at]),
        refs.events().len() == 3 + (if refs.space_created_event_id is Some {
            1int
        } else {
            0int
        }) + refs.engineering_reference_event_ids.len(),
        refs.problem() is None <==> refs.events().no_duplicates(),
{
    let all = refs.events();
    let created = optional_event(refs.space_created_event_id);
    assert(all[0] == refs.context_revision_event_id);
    assert(all[1] == refs.space_association_event_id);
    assert(all[2] == refs.publication_event_id);
    if refs.space_created_event_id is Some {
        assert(all[3] == refs.space_created_event_id->Some_0);
    }
    assert(all[3 + created.len() + at] == refs.engineering_reference_event_ids[at]);
}

/// A canonical content hash is `sha256:` and 64 hexadecimal digits.
pub proof fn content_hashes_are_spelled(value: Seq<char>)
    ensures
        is_content_hash(value) <==> value.len() == 71 && value.take(7) == "sha256:"@ && forall|i: int|
            7 <= i < 71 ==> 48 <= #[trigger] value[i] as u32 <= 57 || 65 <= value[i] as u32 <= 70 || 97 <= value[i] as u32
                <= 102,
{
    reveal_strlit("sha256:");
    if is_content_hash(value) {
        assert forall|i: int| 7 <= i < 71 implies 48 <= #[trigger] value[i] as u32 <= 57 || 65 <= value[i] as u32 <= 70
            || 97 <= value[i] as u32 <= 102 by {
            assert(value.skip(7)[i - 7] == value[i]);
        }
    }
    if value.len() == 71 {
        assert forall|i: int| 0 <= i < 64 implies value.skip(7)[i] == value[i + 7] by {}
    }
}

/// A confirmation is valid exactly where it relates each Space once and not its primary one, creates
/// a Space only as its own primary one and by an Event, has a canonical content hash, and names each
/// cause once.
pub proof fn valid_confirmations_are_caused(draft: CandidateConfirmationDraftView, id: ConfirmationId)
    ensures
        draft.problem() is None <==> {
            &&& draft.related_space_ids.no_duplicates()
            &&& !draft.related_space_ids.contains(draft.primary_space_id)
            &&& draft.created_space_id is Some <==> draft.causal_refs.space_created_event_id is Some
            &&& draft.created_space_id matches Some(created) ==> created == draft.primary_space_id
            &&& is_content_hash(draft.final_content_hash)
            &&& draft.causal_refs.events().no_duplicates()
        },
        blames_input(draft.problem()),
        draft.named(id).confirmation_id == id,
        draft.named(id).draft() == draft,
{
}

/// The plan of valid inputs publishes the edited draft: the revision that it creates says what the
/// final draft says, is published as it is, belongs to the Candidate that was confirmed, and lands in
/// the Space that was chosen.
pub proof fn plans_publish_the_final_draft(
    inputs: CandidateConfirmationInputsView,
    ids: CandidateConfirmationPlanIdentitiesView,
)
    requires
        inputs.fit(ids),
    ensures
        ({
            let plan = inputs.plan(ids);
            let draft = inputs.final_draft();
            &&& plan.result_revision.draft() == draft
            &&& plan.result_revision.revision_id == ids.result_revision_id
            &&& plan.result_revision.parent_revision_ids.len() == 0
            &&& plan.result_context_id == ids.result_context_id
            &&& plan.publication.publication_id == ids.publication_id
            &&& plan.publication.revision_id == ids.result_revision_id
            &&& plan.publication.action is Publish
            &&& plan.publication.previous_publication_ids.len() == 0
            &&& plan.publication.review_event_ids.len() == 0
            &&& plan.space_association.association_id == ids.association_id
            &&& plan.space_association.context_id == ids.result_context_id
            &&& plan.space_association.related_space_ids == inputs.operation.related_space_ids
            &&& plan.space_association.previous_association_ids.len() == 0
            &&& plan.space_association.origin == (ContextSpaceAssociationOrigin::CandidateConfirmation {
                candidate_id: inputs.candidate.candidate_id,
            })
            &&& plan.operation == inputs.operation
            &&& plan.operation_hash == inputs.operation.hash()
            &&& match inputs.resolved_primary {
                CandidatePrimarySelectionView::Existing { space_id } => plan.space_association.primary_space_id
                    == space_id && plan.confirmation.primary_space_id == space_id && plan.new_space is None
                    && plan.confirmation.created_space_id is None && plan.event_ids.space_created_event_id is None,
                CandidatePrimarySelectionView::ProposedNew { intent } => plan.space_association.primary_space_id
                    == ids.space_id && plan.confirmation.primary_space_id == ids.space_id
                    && plan.confirmation.created_space_id == Some(ids.space_id)
                    && plan.event_ids.space_created_event_id == Some(ids.space_created_event_id) && plan.new_space
                    is Some && plan.new_space->Some_0.space_id == ids.space_id
                    && plan.new_space->Some_0.intent_revision.intent == intent
                    && plan.new_space->Some_0.intent_revision.revision_id == ids.intent_revision_id
                    && plan.new_space->Some_0.intent_revision.provisional
                    && plan.new_space->Some_0.intent_revision.parent_revision_ids.len() == 0,
            }
        }),
{
    crate::model::naming_keeps_the_draft(
        inputs.final_draft(),
        Seq::empty(),
        ids.result_revision_id,
        ids.evidence_ids,
    );
}

/// The confirmation of a plan names what was confirmed and everything that the plan creates.
pub proof fn planned_confirmations_name_their_facts(
    inputs: CandidateConfirmationInputsView,
    ids: CandidateConfirmationPlanIdentitiesView,
)
    ensures
        ({
            let confirmation = inputs.plan(ids).confirmation;
            &&& confirmation.confirmation_id == ids.confirmation_id
            &&& confirmation.candidate_id == inputs.candidate.candidate_id
            &&& confirmation.submission_id == inputs.candidate.submission_id
            &&& confirmation.source_episode == inputs.candidate.source_episode
            &&& confirmation.result_context_id == ids.result_context_id
            &&& confirmation.result_revision_id == ids.result_revision_id
            &&& confirmation.related_space_ids == inputs.operation.related_space_ids
            &&& confirmation.space_association_id == ids.association_id
            &&& confirmation.publication_id == ids.publication_id
            &&& confirmation.edits == inputs.operation.edits
            &&& confirmation.final_content_hash == content_hash(inputs.final_draft())
            &&& confirmation.causal_refs.context_revision_event_id == ids.context_revision_event_id
            &&& confirmation.causal_refs.space_association_event_id == ids.space_association_event_id
            &&& confirmation.causal_refs.publication_event_id == ids.publication_event_id
            &&& confirmation.causal_refs.engineering_reference_event_ids == ids.reference_event_ids
            &&& inputs.plan(ids).event_ids.context_revision_event_id == ids.context_revision_event_id
            &&& inputs.plan(ids).event_ids.space_association_event_id == ids.space_association_event_id
            &&& inputs.plan(ids).event_ids.publication_event_id == ids.publication_event_id
            &&& inputs.plan(ids).event_ids.confirmation_event_id == ids.confirmation_event_id
            &&& inputs.plan(ids).event_ids.engineering_reference_event_ids == ids.reference_event_ids
            &&& inputs.plan(ids).event_ids.semantic_conflict_event_ids == ids.conflict_event_ids
        }),
{
}

/// Every Reference that was drafted is planned under an identity of its own, and every conflict opens
/// between the new revision and the Context that it was drafted against, in the scope of the revision.
pub proof fn plans_keep_references_and_conflicts(
    inputs: CandidateConfirmationInputsView,
    ids: CandidateConfirmationPlanIdentitiesView,
    reference: int,
    conflict: int,
)
    ensures
        inputs.plan(ids).engineering_references.len() == inputs.engineering_reference_drafts.len(),
        inputs.plan(ids).opened_conflicts.len() == inputs.conflict_openings.len(),
        0 <= reference < inputs.engineering_reference_drafts.len() ==> inputs.plan(ids).engineering_references[reference]
            == inputs.engineering_reference_drafts[reference].named(ids.reference_ids[reference]),
        0 <= conflict < inputs.conflict_openings.len() ==> {
            let opened = inputs.plan(ids).opened_conflicts[conflict];
            &&& opened.space_id == inputs.plan(ids).confirmation.primary_space_id
            &&& opened.conflict.conflict_id == ids.conflict_ids[conflict]
            &&& opened.conflict.reason == inputs.conflict_openings[conflict].reason
            &&& opened.conflict.applicability == inputs.final_draft().applicability
            &&& opened.conflict.participants.len() == 2
            &&& opened.conflict.participants[0].context_id == ids.result_context_id
            &&& opened.conflict.participants[0].revision_id == ids.result_revision_id
            &&& opened.conflict.participants[0].publication_id == ids.publication_id
            &&& opened.conflict.participants[1] == inputs.conflict_openings[conflict].target
        },
{
}

/// Inputs are valid exactly where the operation is, names the Candidate, chose the Space that was
/// resolved, the request fits, and the References are valid and differ.
pub proof fn valid_inputs_agree(inputs: CandidateConfirmationInputsView)
    ensures
        inputs.problem() is None <==> {
            &&& inputs.operation.problem() is None
            &&& inputs.operation.candidate_id == inputs.candidate.candidate_id
            &&& match inputs.operation.primary {
                CandidateConfirmationPrimaryReference::ExistingSpace { space_id } => inputs.resolved_primary
                    matches CandidatePrimarySelectionView::Existing { space_id: resolved } && resolved == space_id,
                CandidateConfirmationPrimaryReference::ProposedRecommendation { .. } => inputs.resolved_primary
                    is ProposedNew,
            }
            &&& inputs.request().problem(inputs.candidate) is None
            &&& forall|i: int|
                0 <= i < inputs.engineering_reference_drafts.len() ==> (
                #[trigger] inputs.engineering_reference_drafts[i]).problem() is None
            &&& inputs.engineering_reference_drafts.no_duplicates()
        },
{
    let drafts = inputs.engineering_reference_drafts;
    let problem = inputs.draft_problem();
    first_failures_are_failures(problem, 0, drafts.len());
    if forall|i: int| 0 <= i < drafts.len() ==> (#[trigger] problem(i)) is None {
        assert forall|i: int| 0 <= i < drafts.len() implies (#[trigger] drafts[i]).problem() is None by {
            assert(problem(i) is None);
        }
        assert forall|i: int, j: int| 0 <= i < drafts.len() && 0 <= j < drafts.len() && i != j implies drafts[i]
            != drafts[j] by {
            let (a, b) = if i < j {
                (i, j)
            } else {
                (j, i)
            };
            assert(problem(b) is None);
            assert(drafts.take(b)[a] == drafts[a]);
        }
    }
    if drafts.no_duplicates() && forall|i: int|
        0 <= i < drafts.len() ==> (#[trigger] drafts[i]).problem() is None {
        assert forall|i: int| 0 <= i < drafts.len() implies (#[trigger] problem(i)) is None by {
            assert(drafts[i].problem() is None);
            if drafts.take(i).contains(drafts[i]) {
                let k = choose|k: int| 0 <= k < i && drafts.take(i)[k] == drafts[i];
                assert(drafts[k] == drafts[i]);
            }
        }
    }
}

/// A valid plan is consistent: everything that it creates is what its confirmation names.
pub proof fn valid_plans_are_consistent(plan: CandidateConfirmationPlanView)
    requires
        plan.problem() is None,
    ensures
        plan.operation.problem() is None,
        plan.operation_hash == plan.operation.hash(),
        plan.operation.candidate_id == plan.confirmation.candidate_id,
        plan.result_context_id == plan.confirmation.result_context_id,
        plan.result_revision.revision_id == plan.confirmation.result_revision_id,
        plan.result_revision.invalidity() is None,
        content_hash(plan.result_revision.draft()) == plan.confirmation.final_content_hash,
        plan.space_association.draft().problem() is None,
        plan.space_association.association_id == plan.confirmation.space_association_id,
        plan.space_association.context_id == plan.result_context_id,
        plan.space_association.primary_space_id == plan.confirmation.primary_space_id,
        plan.space_association.related_space_ids == plan.confirmation.related_space_ids,
        plan.publication.invalidity() is None,
        plan.publication.publication_id == plan.confirmation.publication_id,
        plan.publication.revision_id == plan.result_revision.revision_id,
        plan.confirmation.draft().problem() is None,
        plan.event_ids.space_created_event_id == plan.confirmation.causal_refs.space_created_event_id,
        plan.event_ids.context_revision_event_id == plan.confirmation.causal_refs.context_revision_event_id,
        plan.event_ids.space_association_event_id == plan.confirmation.causal_refs.space_association_event_id,
        plan.event_ids.publication_event_id == plan.confirmation.causal_refs.publication_event_id,
        plan.event_ids.engineering_reference_event_ids
            == plan.confirmation.causal_refs.engineering_reference_event_ids,
        plan.event_ids.engineering_reference_event_ids.len() == plan.engineering_references.len(),
        plan.event_ids.semantic_conflict_event_ids.len() == plan.opened_conflicts.len(),
        plan.event_ids.events().no_duplicates(),
        plan.new_space is Some <==> plan.confirmation.created_space_id is Some,
        plan.new_space matches Some(space) ==> Some(space.space_id) == plan.confirmation.created_space_id
            && space.intent_revision.invalidity() is None,
{
}

/// The References and conflicts of a valid plan are valid and differ; a conflict opens in the primary
/// Space, between the new revision, which comes first, and others, in the scope of the revision.
pub proof fn valid_plans_open_valid_conflicts(plan: CandidateConfirmationPlanView, at: int, other: int)
    requires
        plan.problem() is None,
    ensures
        0 <= at < plan.engineering_references.len() ==> plan.engineering_references[at].draft().problem() is None,
        0 <= other < at < plan.engineering_references.len() ==> plan.engineering_references[at].reference_id
            != plan.engineering_references[other].reference_id && plan.engineering_references[at].draft()
            != plan.engineering_references[other].draft(),
        0 <= at < plan.opened_conflicts.len() ==> {
            let opened = plan.opened_conflicts[at];
            &&& opened.space_id == plan.confirmation.primary_space_id
            &&& opened.conflict.participants.len() >= 2
            &&& opened.conflict.participants[0].context_id == plan.result_context_id
            &&& opened.conflict.participants[0].revision_id == plan.result_revision.revision_id
            &&& opened.conflict.participants[0].publication_id == plan.publication.publication_id
            &&& opened.conflict.applicability == plan.result_revision.applicability
            &&& !blank(opened.conflict.reason)
        },
        0 <= other < at < plan.opened_conflicts.len() ==> plan.opened_conflicts[at].conflict.conflict_id
            != plan.opened_conflicts[other].conflict.conflict_id,
{
    let references = plan.reference_problem();
    let conflicts = plan.opening_problem();
    first_failures_are_failures(references, 0, plan.engineering_references.len());
    first_failures_are_failures(conflicts, 0, plan.opened_conflicts.len());
    if 0 <= at < plan.engineering_references.len() {
        assert(references(at) is None);
        if 0 <= other < at {
            assert(!plan.repeats_reference(at));
        }
    }
    if 0 <= at < plan.opened_conflicts.len() {
        assert(conflicts(at) is None);
        let opened = plan.opened_conflicts[at].conflict;
        crate::model_laws::valid_conflicts_have_different_participants(
            opened.participants,
            opened.reason,
            opened.applicability,
        );
        if 0 <= other < at {
            assert(!plan.repeats_conflict(at));
        }
    }
}

/// A plan counts one Event for each fact that it creates.
pub proof fn plans_count_every_event(plan: CandidateConfirmationPlanView)
    requires
        plan.problem() is None,
    ensures
        plan.event_count() == plan.event_ids.events().len(),
{
}

/// The spelling of a decision source names it: different sources have different spellings.
pub proof fn decision_sources_are_told_apart()
    ensures
        DecisionSource::Human.name() == "human"@,
        DecisionSource::AgentPolicy.name() == "agent_policy"@,
        DecisionSource::Human.name() != DecisionSource::AgentPolicy.name(),
{
    reveal_strlit("human");
    reveal_strlit("agent_policy");
    assert("human"@.len() != "agent_policy"@.len());
}

} // verus!

//! What holds of valid intents, revisions, evidence, reviews, publications and conflicts.

use vstd::prelude::*;

use crate::checks::{blank, entry_problem, first_from, text_items_problem, text_problem};
use crate::error::{ErrorKind, ErrorView};
use crate::ids::{EvidenceId, RevisionId};
use crate::model::{
    conflict_invalidity, evidence_ids, evidence_problem, participant_contexts, participant_publications,
    relation_problem, relation_targets, result_contexts, revision_of, ApplicabilityView, ConflictParticipantView,
    ConflictResolutionDraftView, ContextRevisionDraftView, ContextRevisionView, EvidenceSnapshotDraftView,
    IntentRevisionView, IntentSnapshotView, PublicationDraftView, ReviewDraftView,
};

verus! {

/// Whether every text of a list says something.
pub open spec fn all_said(texts: Seq<Seq<char>>) -> bool {
    forall|i: int| 0 <= i < texts.len() ==> !blank(#[trigger] texts[i])
}

/// Whether a text says something where it is there.
pub open spec fn said_if_there(text: Option<Seq<char>>) -> bool {
    text is Some ==> !blank(text->Some_0)
}

/// Whether a failure blames the input.
pub open spec fn blames_input(failure: Option<ErrorView>) -> bool {
    failure is Some ==> failure->Some_0.kind == ErrorKind::InvalidInput
}

/// A first failure is that of some entry, and there is none where no entry fails.
pub proof fn first_failures_are_failures(problem: spec_fn(int) -> Option<ErrorView>, from: nat, count: nat)
    ensures
        first_from(problem, from, count) is None <==> forall|i: int|
            from <= i < count ==> (#[trigger] problem(i)) is None,
        first_from(problem, from, count) matches Some(error) ==> exists|i: int|
            from <= i < count && #[trigger] problem(i) == Some(error) && forall|j: int|
                from <= j < i ==> (#[trigger] problem(j)) is None,
    decreases count - from,
{
    if from < count {
        first_failures_are_failures(problem, from + 1, count);
        if problem(from as int) is None && first_from(problem, from + 1, count) is Some {
            let error = first_from(problem, from + 1, count)->Some_0;
            let i = choose|i: int|
                from + 1 <= i < count && #[trigger] problem(i) == Some(error) && forall|j: int|
                    from + 1 <= j < i ==> (#[trigger] problem(j)) is None;
            assert(problem(i) == Some(error));
        }
    }
}

/// A list of texts passes exactly where each of them says something.
pub proof fn lists_of_texts_say_something(values: Seq<Seq<char>>, field: Seq<char>)
    ensures
        text_items_problem(values, field) is None <==> all_said(values),
        blames_input(text_items_problem(values, field)),
        text_problem(field, field) is None <==> !blank(field),
{
    let problem = entry_problem(values, field);
    first_failures_are_failures(problem, 0, values.len());
    if all_said(values) {
        assert forall|i: int| 0 <= i < values.len() implies (#[trigger] problem(i)) is None by {
            assert(!blank(values[i]));
        }
    }
    if text_items_problem(values, field) is None {
        assert forall|i: int| 0 <= i < values.len() implies !blank(#[trigger] values[i]) by {
            assert(problem(i) is None);
        }
    }
}

/// An intent is valid exactly where it has a title, a problem, a desired outcome, something in scope
/// and something to accept it by, and none of its entries is empty.
pub proof fn valid_intents_say_what_they_are_for(intent: IntentSnapshotView)
    ensures
        intent.invalidity() is None <==> {
            &&& !blank(intent.title)
            &&& !blank(intent.problem)
            &&& !blank(intent.desired_outcome)
            &&& intent.in_scope.len() > 0
            &&& intent.acceptance_conditions.len() > 0
            &&& all_said(intent.in_scope)
            &&& all_said(intent.out_of_scope)
            &&& all_said(intent.acceptance_conditions)
            &&& all_said(intent.domain_terms)
        },
        blames_input(intent.invalidity()),
{
    lists_of_texts_say_something(intent.in_scope, "intent.in_scope"@);
    lists_of_texts_say_something(intent.out_of_scope, "intent.out_of_scope"@);
    lists_of_texts_say_something(intent.acceptance_conditions, "intent.acceptance_conditions"@);
    lists_of_texts_say_something(intent.domain_terms, "intent.domain_terms"@);
}

/// An intent revision is valid exactly where its intent is and it names no parent twice.
pub proof fn valid_intent_revisions_name_parents_once(revision: IntentRevisionView)
    ensures
        revision.invalidity() is None <==> revision.parent_revision_ids.no_duplicates()
            && revision.intent.invalidity()
            is None,
        blames_input(revision.invalidity()),
{
    valid_intents_say_what_they_are_for(revision.intent);
}

/// A scope is valid exactly where none of its entries is empty.
pub proof fn valid_scopes_have_no_empty_entries(scope: ApplicabilityView, field: Seq<char>)
    ensures
        scope.invalidity(field) is None <==> all_said(scope.domains) && all_said(scope.platforms) && all_said(
            scope.conditions,
        ),
        blames_input(scope.invalidity(field)),
{
    lists_of_texts_say_something(scope.domains, field + ".domains"@);
    lists_of_texts_say_something(scope.platforms, field + ".platforms"@);
    lists_of_texts_say_something(scope.conditions, field + ".conditions"@);
}

/// Evidence is valid exactly where it says what it supports and how it is read, its limitations are
/// not empty, and its content is an object that holds something.
pub proof fn valid_evidence_is_self_contained(evidence: EvidenceSnapshotDraftView, field: Seq<char>)
    ensures
        evidence.invalidity(field) is None <==> !blank(evidence.supports) && !blank(evidence.interpretation)
            && all_said(evidence.limitations) && evidence.content.has_members(),
        blames_input(evidence.invalidity(field)),
{
    lists_of_texts_say_something(evidence.limitations, field + ".limitations"@);
}

/// Whether no two relations have one target and one kind.
pub open spec fn relations_differ(relations: Seq<crate::engineering::ContextRelationView>) -> bool {
    forall|i: int, j: int|
        0 <= i < j < relations.len() ==> (#[trigger] relations[i]).target_context_id != (
        #[trigger] relations[j]).target_context_id || relations[i].kind != relations[j].kind
}

/// A draft is valid exactly where its texts say something, its scope is valid, its relations are valid
/// and differ in target or kind, and it has evidence, all of it valid.
pub proof fn valid_drafts_are_supported(draft: ContextRevisionDraftView)
    ensures
        draft.invalidity() is None <==> {
            &&& said_if_there(draft.topic_key)
            &&& said_if_there(draft.problem_view)
            &&& !blank(draft.statement)
            &&& !blank(draft.rationale)
            &&& all_said(draft.applicability.domains)
            &&& all_said(draft.applicability.platforms)
            &&& all_said(draft.applicability.conditions)
            &&& all_said(draft.assumptions)
            &&& all_said(draft.recheck_when)
            &&& all_said(draft.hints)
            &&& forall|i: int| 0 <= i < draft.relations.len() ==> (#[trigger] draft.relations[i]).problem() is None
            &&& relations_differ(draft.relations)
            &&& draft.evidence.len() > 0
            &&& forall|i: int|
                0 <= i < draft.evidence.len() ==> !blank((#[trigger] draft.evidence[i]).supports) && !blank(
                    draft.evidence[i].interpretation,
                ) && all_said(draft.evidence[i].limitations) && draft.evidence[i].content.has_members()
        },
        blames_input(draft.invalidity()),
{
    valid_scopes_have_no_empty_entries(draft.applicability, "context revision applicability"@);
    lists_of_texts_say_something(draft.assumptions, "context revision assumptions"@);
    lists_of_texts_say_something(draft.recheck_when, "context revision recheck_when"@);
    lists_of_texts_say_something(draft.hints, "context revision hints"@);
    let relations = relation_problem(draft.relations);
    let evidence = evidence_problem(draft.evidence);
    first_failures_are_failures(relations, 0, draft.relations.len());
    first_failures_are_failures(evidence, 0, draft.evidence.len());
    assert((forall|i: int| 0 <= i < draft.relations.len() ==> (#[trigger] relations(i)) is None) == (forall|i: int|
        0 <= i < draft.relations.len() ==> (#[trigger] draft.relations[i]).problem() is None)) by {
        if forall|i: int| 0 <= i < draft.relations.len() ==> (#[trigger] relations(i)) is None {
            assert forall|i: int| 0 <= i < draft.relations.len() implies (#[trigger] draft.relations[i]).problem()
                is None by {
                assert(relations(i) is None);
            }
        }
    }
    assert forall|i: int| 0 <= i < draft.evidence.len() implies ((#[trigger] evidence(i)) is None <==> !blank(
        draft.evidence[i].supports,
    ) && !blank(draft.evidence[i].interpretation) && all_said(draft.evidence[i].limitations)
        && draft.evidence[i].content.has_members()) && blames_input(evidence(i)) by {
        valid_evidence_is_self_contained(
            draft.evidence[i],
            crate::checks::entry("context revision evidence"@, i as nat),
        );
    }
    if forall|i: int| 0 <= i < draft.evidence.len() ==> (#[trigger] evidence(i)) is None {
        assert forall|i: int| 0 <= i < draft.evidence.len() implies !blank((#[trigger] draft.evidence[i]).supports)
            && !blank(draft.evidence[i].interpretation) && all_said(draft.evidence[i].limitations)
            && draft.evidence[i].content.has_members() by {
            assert(evidence(i) is None);
        }
    }
    let targets = relation_targets(draft.relations);
    assert(targets.no_duplicates() == relations_differ(draft.relations)) by {
        if targets.no_duplicates() {
            assert forall|i: int, j: int|
                0 <= i < j < draft.relations.len() implies (#[trigger] draft.relations[i]).target_context_id != (
            #[trigger] draft.relations[j]).target_context_id || draft.relations[i].kind != draft.relations[j].kind by {
                assert(targets[i] != targets[j]);
            }
        }
        if relations_differ(draft.relations) {
            assert forall|i: int, j: int| 0 <= i < targets.len() && 0 <= j < targets.len() && i
                != j implies targets[i] != targets[j] by {
                let (a, b) = if i < j {
                    (i, j)
                } else {
                    (j, i)
                };
                assert(draft.relations[a].target_context_id != draft.relations[b].target_context_id
                    || draft.relations[a].kind != draft.relations[b].kind);
            }
        }
    }
}

/// A revision is valid exactly where it names no parent and no evidence twice and its content is a
/// valid draft.
pub proof fn valid_revisions_are_valid_drafts(revision: ContextRevisionView)
    ensures
        revision.invalidity() is None <==> {
            &&& revision.parent_revision_ids.no_duplicates()
            &&& forall|i: int, j: int|
                0 <= i < j < revision.evidence.len() ==> (#[trigger] revision.evidence[i]).evidence_id != (
                #[trigger] revision.evidence[j]).evidence_id
            &&& revision.draft().invalidity() is None
        },
        blames_input(revision.invalidity()),
{
    let ids = evidence_ids(revision.evidence);
    valid_drafts_are_supported(revision.draft());
    if ids.no_duplicates() {
        assert forall|i: int, j: int|
            0 <= i < j < revision.evidence.len() implies (#[trigger] revision.evidence[i]).evidence_id != (
        #[trigger] revision.evidence[j]).evidence_id by {
            assert(ids[i] != ids[j]);
        }
    }
    if forall|i: int, j: int|
        0 <= i < j < revision.evidence.len() ==> (#[trigger] revision.evidence[i]).evidence_id != (
        #[trigger] revision.evidence[j]).evidence_id {
        assert forall|i: int, j: int| 0 <= i < ids.len() && 0 <= j < ids.len() && i != j implies ids[i] != ids[j] by {
            let (a, b) = if i < j {
                (i, j)
            } else {
                (j, i)
            };
            assert(revision.evidence[a].evidence_id != revision.evidence[b].evidence_id);
        }
    }
}

/// A revision that is made of a draft says what the draft says, under its own identity and parents:
/// every field comes over, and every piece of evidence under the identity that it was given.
pub proof fn revisions_say_what_their_draft_says(
    draft: ContextRevisionDraftView,
    parents: Seq<RevisionId>,
    revision_id: RevisionId,
    ids: Seq<EvidenceId>,
    at: int,
)
    requires
        ids.len() == draft.evidence.len(),
        0 <= at < ids.len(),
    ensures
        ({
            let revision = revision_of(draft, parents, revision_id, ids);
            &&& revision.revision_id == revision_id
            &&& revision.parent_revision_ids == parents
            &&& revision.kind == draft.kind
            &&& revision.topic_key == draft.topic_key
            &&& revision.problem_view == draft.problem_view
            &&& revision.statement == draft.statement
            &&& revision.rationale == draft.rationale
            &&& revision.applicability == draft.applicability
            &&& revision.assumptions == draft.assumptions
            &&& revision.recheck_when == draft.recheck_when
            &&& revision.hints == draft.hints
            &&& revision.relations == draft.relations
            &&& revision.evidence.len() == draft.evidence.len()
            &&& revision.evidence[at].evidence_id == ids[at]
            &&& revision.evidence[at].kind == draft.evidence[at].kind
            &&& revision.evidence[at].supports == draft.evidence[at].supports
            &&& revision.evidence[at].content == draft.evidence[at].content
            &&& revision.evidence[at].interpretation == draft.evidence[at].interpretation
            &&& revision.evidence[at].limitations == draft.evidence[at].limitations
            &&& revision.draft() == draft
        }),
{
    let revision = revision_of(draft, parents, revision_id, ids);
    assert forall|i: int| 0 <= i < draft.evidence.len() implies revision.draft().evidence[i] == draft.evidence[i] by {}
    assert(revision.draft().evidence =~= draft.evidence);
}

/// Evidence keeps what it says under an identity, and gives it back.
pub proof fn named_evidence_gives_back_its_draft(draft: EvidenceSnapshotDraftView, evidence_id: EvidenceId)
    ensures
        draft.named(evidence_id).evidence_id == evidence_id,
        draft.named(evidence_id).draft() == draft,
{
}

/// A review is valid exactly where it gives a reason; it keeps its revision, verdict and reason.
pub proof fn valid_reviews_give_a_reason(draft: ReviewDraftView, review_id: crate::ids::ReviewId)
    ensures
        draft.named(review_id).invalidity() is None <==> !blank(draft.reason),
        blames_input(draft.named(review_id).invalidity()),
        draft.named(review_id).review_id == review_id,
        draft.named(review_id).revision_id == draft.revision_id,
        draft.named(review_id).verdict == draft.verdict,
        draft.named(review_id).reason == draft.reason,
{
}

/// A publication is valid exactly where it names no earlier publication and no review twice; it keeps
/// what its draft says.
pub proof fn valid_publications_name_causes_once(
    draft: PublicationDraftView,
    publication_id: crate::ids::PublicationId,
)
    ensures
        draft.invalidity() is None <==> draft.previous_publication_ids.no_duplicates()
            && draft.review_event_ids.no_duplicates(),
        draft.named(publication_id).invalidity() is None <==> draft.invalidity() is None,
        blames_input(draft.invalidity()),
        draft.named(publication_id).publication_id == publication_id,
        draft.named(publication_id).previous_publication_ids == draft.previous_publication_ids,
        draft.named(publication_id).action == draft.action,
        draft.named(publication_id).revision_id == draft.revision_id,
        draft.named(publication_id).review_event_ids == draft.review_event_ids,
{
}

/// A conflict is valid exactly where at least two participants, all of different Contexts and under
/// different publications, disagree for a reason in a valid scope.
pub proof fn valid_conflicts_have_different_participants(
    participants: Seq<ConflictParticipantView>,
    reason: Seq<char>,
    scope: ApplicabilityView,
)
    ensures
        conflict_invalidity(participants, reason, scope) is None <==> {
            &&& participants.len() >= 2
            &&& forall|i: int, j: int|
                0 <= i < j < participants.len() ==> (#[trigger] participants[i]).context_id != (
                #[trigger] participants[j]).context_id && participants[i].publication_id
                    != participants[j].publication_id
            &&& !blank(reason)
            &&& all_said(scope.domains)
            &&& all_said(scope.platforms)
            &&& all_said(scope.conditions)
        },
        blames_input(conflict_invalidity(participants, reason, scope)),
{
    let (contexts, publications) = (participant_contexts(participants), participant_publications(participants));
    valid_scopes_have_no_empty_entries(scope, "semantic_conflict.applicability"@);
    if contexts.no_duplicates() && publications.no_duplicates() {
        assert forall|i: int, j: int|
            0 <= i < j < participants.len() implies (#[trigger] participants[i]).context_id != (
        #[trigger] participants[j]).context_id && participants[i].publication_id != participants[j].publication_id by {
            assert(contexts[i] != contexts[j] && publications[i] != publications[j]);
        }
    }
    if forall|i: int, j: int|
        0 <= i < j < participants.len() ==> (#[trigger] participants[i]).context_id != (
        #[trigger] participants[j]).context_id && participants[i].publication_id != participants[j].publication_id {
        assert forall|i: int, j: int| 0 <= i < participants.len() && 0 <= j < participants.len() && i
            != j implies participants[i] != participants[j] && contexts[i] != contexts[j] && publications[i]
            != publications[j] by {
            let (a, b) = if i < j {
                (i, j)
            } else {
                (j, i)
            };
            assert(participants[a].context_id != participants[b].context_id);
        }
        assert(participants.no_duplicates());
        assert(contexts.no_duplicates());
        assert(publications.no_duplicates());
    }
}

/// A resolution is valid exactly where it relates publications, none twice, gives results for different
/// Contexts, names no earlier resolution twice, and says why.
pub proof fn valid_resolutions_give_results(draft: ConflictResolutionDraftView)
    ensures
        draft.invalidity() is None <==> {
            &&& draft.previous_resolution_ids.no_duplicates()
            &&& draft.related_publication_ids.len() > 0
            &&& draft.related_publication_ids.no_duplicates()
            &&& draft.results.len() > 0
            &&& forall|i: int, j: int|
                0 <= i < j < draft.results.len() ==> (#[trigger] draft.results[i]).context_id != (
                #[trigger] draft.results[j]).context_id
            &&& !blank(draft.rationale)
        },
        blames_input(draft.invalidity()),
{
    let contexts = result_contexts(draft.results);
    if contexts.no_duplicates() {
        assert forall|i: int, j: int|
            0 <= i < j < draft.results.len() implies (#[trigger] draft.results[i]).context_id != (
        #[trigger] draft.results[j]).context_id by {
            assert(contexts[i] != contexts[j]);
        }
    }
    if forall|i: int, j: int|
        0 <= i < j < draft.results.len() ==> (#[trigger] draft.results[i]).context_id != (
        #[trigger] draft.results[j]).context_id {
        assert forall|i: int, j: int| 0 <= i < draft.results.len() && 0 <= j < draft.results.len() && i
            != j implies draft.results[i] != draft.results[j] && contexts[i] != contexts[j] by {
            let (a, b) = if i < j {
                (i, j)
            } else {
                (j, i)
            };
            assert(draft.results[a].context_id != draft.results[b].context_id);
        }
        assert(draft.results.no_duplicates());
        assert(contexts.no_duplicates());
    }
}

} // verus!

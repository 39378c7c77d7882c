//! What holds of valid locators, keys, References, resolutions, associations and relations.

use vstd::prelude::*;

use crate::checks::{blank, words};
use crate::engineering::{
    derived_key, digested_identity, is_positive_fraction, path_problem, ArtifactAssociationKind, ArtifactKeyView,
    ArtifactKind, ArtifactLocatorView, ArtifactResolutionView, ContextArtifactAssociationView, ContextRelationView,
    EngineeringArtifactView, EngineeringGraphEdgeView, EngineeringReferenceDraftView, ReferenceRelation,
    ResolutionStatus,
};
use crate::ids::ReferenceId;
use crate::model_laws::{
    all_said, blames_input, first_failures_are_failures, lists_of_texts_say_something, said_if_there,
};
use crate::text::split_on;

verus! {

/// A path is valid exactly where it says something, is relative, holds no backslash, and none of its
/// components is empty, a dot or two dots.
pub proof fn valid_paths_are_canonical(path: Seq<char>)
    ensures
        path_problem(path) is None <==> {
            &&& !blank(path)
            &&& path.len() > 0 && path[0] != '/'
            &&& !path.contains('\\')
            &&& forall|i: int|
                0 <= i < split_on(path, '/').len() ==> (#[trigger] split_on(path, '/')[i]).len() > 0 && split_on(
                    path,
                    '/',
                )[i] != "."@ && split_on(path, '/')[i] != ".."@
        },
        blames_input(path_problem(path)),
{
    let pieces = split_on(path, '/');
    if path_problem(path) is None {
        assert forall|i: int| 0 <= i < pieces.len() implies (#[trigger] pieces[i]).len() > 0 && pieces[i] != "."@
            && pieces[i] != ".."@ by {
            assert(!crate::engineering::is_dot_segment(pieces[i]));
        }
    }
}

/// Every locator has the kind that its form says and the path that it names.
pub proof fn locators_have_their_kind_and_path(
    path: Seq<char>,
    a: Seq<char>,
    b: Seq<char>,
    c: Seq<char>,
    d: Seq<char>,
    e: Option<Seq<char>>,
)
    ensures
        (ArtifactLocatorView::File { path }).kind() is File,
        (ArtifactLocatorView::File { path }).path() == path,
        (ArtifactLocatorView::Module { path }).kind() is Module,
        (ArtifactLocatorView::Module { path }).path() == path,
        (ArtifactLocatorView::Api { path, protocol: a, operation: b, normalized_route: c }).kind() is Api,
        (ArtifactLocatorView::Api { path, protocol: a, operation: b, normalized_route: c }).path() == path,
        (ArtifactLocatorView::Schema { path, namespace: a, version: b, qualified_name: c }).kind() is Schema,
        (ArtifactLocatorView::Schema { path, namespace: a, version: b, qualified_name: c }).path() == path,
        (ArtifactLocatorView::Symbol {
            path,
            language: a,
            module: b,
            enclosing_type: e,
            symbol_name: c,
            signature: d,
        }).kind() is Symbol,
        (ArtifactLocatorView::Symbol {
            path,
            language: a,
            module: b,
            enclosing_type: e,
            symbol_name: c,
            signature: d,
        }).path() == path,
        (ArtifactLocatorView::Test { path, qualified_test_name: a }).kind() is Test,
        (ArtifactLocatorView::Test { path, qualified_test_name: a }).path() == path,
{
}

/// A locator is valid exactly where its path is and every coordinate of its kind says something; a
/// route is one word.
pub proof fn valid_locators_name_every_coordinate(locator: ArtifactLocatorView)
    ensures
        locator.problem() is None <==> path_problem(locator.path()) is None && match locator {
            ArtifactLocatorView::File { .. } => true,
            ArtifactLocatorView::Module { .. } => true,
            ArtifactLocatorView::Api { path: _, protocol, operation, normalized_route } => !blank(protocol) && !blank(
                operation,
            ) && !blank(normalized_route) && words(normalized_route).len() == 1,
            ArtifactLocatorView::Schema { path: _, namespace, version, qualified_name } => !blank(namespace) && !blank(
                version,
            ) && !blank(qualified_name),
            ArtifactLocatorView::Symbol { path: _, language, module, enclosing_type, symbol_name, signature } => !blank(
                language,
            ) && !blank(module) && said_if_there(enclosing_type) && !blank(symbol_name) && !blank(signature),
            ArtifactLocatorView::Test { path: _, qualified_test_name } => !blank(qualified_test_name),
        },
        blames_input(locator.problem()),
{
    valid_paths_are_canonical(locator.path());
}

/// The readable key of a locator names its path and every coordinate.
pub proof fn readable_keys_name_every_coordinate(locator: ArtifactLocatorView)
    ensures
        match locator {
            ArtifactLocatorView::File { path } => locator.canonical_key() == path,
            ArtifactLocatorView::Module { path } => locator.canonical_key() == path,
            ArtifactLocatorView::Api {
                path,
                protocol,
                operation,
                normalized_route,
            } => locator.canonical_key() == path
                + "#"@ + protocol + ":"@ + operation + ":"@ + normalized_route,
            ArtifactLocatorView::Schema {
                path,
                namespace,
                version,
                qualified_name,
            } => locator.canonical_key() == path
                + "#"@ + namespace + "@"@ + version + ":"@ + qualified_name,
            ArtifactLocatorView::Symbol { path, language, module, enclosing_type, symbol_name, signature } => (
            enclosing_type is Some ==> locator.canonical_key() == path + "#"@ + language + ":"@ + module + ":"@
                + enclosing_type->Some_0 + ":"@ + symbol_name + ":"@ + signature) && (enclosing_type is None
                ==> locator.canonical_key() == path + "#"@ + language + ":"@ + module + ":"@ + ""@ + ":"@ + symbol_name
                + ":"@ + signature),
            ArtifactLocatorView::Test { path, qualified_test_name } => locator.canonical_key() == path + "#"@
                + qualified_test_name,
        },
{
}

/// A key is valid exactly where its locator is and it is the key of its Repository and locator; the key
/// that is derived has both.
pub proof fn valid_keys_fit_their_locator(key: ArtifactKeyView)
    ensures
        key.problem() is None <==> key.locator.problem() is None
            && key == derived_key(key.repository_id, key.locator),
        derived_key(key.repository_id, key.locator).repository_id == key.repository_id,
        derived_key(key.repository_id, key.locator).locator == key.locator,
        digested_identity(key.repository_id, key.locator).len() == 3,
        digested_identity(key.repository_id, key.locator)[0] == key.repository_id,
{
}

/// The names of the kinds of Artifacts are all different.
pub proof fn kinds_are_told_apart(left: ArtifactKind, right: ArtifactKind)
    ensures
        left.name() == right.name() ==> left == right,
{
    reveal_strlit("module");
    reveal_strlit("file");
    reveal_strlit("symbol");
    reveal_strlit("api");
    reveal_strlit("schema");
    reveal_strlit("test");
    let (a, b) = (left.name(), right.name());
    if a == b {
        assert(a[0] == b[0] && a[1] == b[1]);
    }
}

/// What a Context may have to do with an Artifact depends on the kind of Artifact: code is implemented,
/// symbols and contracts are defined, contracts are consumed, tests validate, modules and contracts are
/// constrained, and anything is depended on.
pub proof fn relations_fit_kinds(kind: ArtifactKind)
    ensures
        ReferenceRelation::Implements.allows(kind) <==> kind is Module || kind is File || kind is Symbol,
        ReferenceRelation::Defines.allows(kind) <==> kind is Symbol || kind is Api || kind is Schema,
        ReferenceRelation::Consumes.allows(kind) <==> kind is Api || kind is Schema,
        ReferenceRelation::Validates.allows(kind) <==> kind is Test,
        ReferenceRelation::Constrains.allows(kind) <==> kind is Module || kind is Api || kind is Schema,
        ReferenceRelation::DependsOn.allows(kind),
        ArtifactAssociationKind::Implements.allows(kind) <==> kind is Module || kind is File || kind is Symbol,
        ArtifactAssociationKind::DefinesContract.allows(kind) <==> kind is Api || kind is Schema,
        ArtifactAssociationKind::Uses.allows(kind),
        ArtifactAssociationKind::ValidatedBy.allows(kind) <==> kind is Test,
        ArtifactAssociationKind::ConstrainedBy.allows(kind) <==> kind is Module || kind is Api || kind is Schema,
{
}

/// A Reference is valid exactly where its relation fits its kind, its locator is valid and of that kind,
/// it says what it supports, and its limitations say something; it keeps all of it under an identity.
pub proof fn valid_references_fit_their_artifact(draft: EngineeringReferenceDraftView, id: ReferenceId)
    ensures
        draft.problem() is None <==> draft.relation.allows(draft.artifact_kind) && draft.locator.problem() is None
            && draft.locator.kind() == draft.artifact_kind && !blank(draft.supports) && all_said(draft.limitations),
        blames_input(draft.problem()),
        draft.named(id).reference_id == id,
        draft.named(id).draft() == draft,
        draft.named(id).repository_id == draft.repository_id,
        draft.named(id).artifact_kind == draft.artifact_kind,
        draft.named(id).relation == draft.relation,
        draft.named(id).locator == draft.locator,
        draft.named(id).supports == draft.supports,
        draft.named(id).limitations == draft.limitations,
{
    lists_of_texts_say_something(draft.limitations, "engineering_reference.limitations"@);
}

/// An Artifact is valid exactly where its Repository has a name, its key is valid and of that
/// Repository, and it has a name itself.
pub proof fn valid_artifacts_belong_to_their_repository(artifact: EngineeringArtifactView)
    ensures
        artifact.problem() is None <==> !blank(artifact.repository.canonical_name) && artifact.artifact_key.problem()
            is None && !blank(artifact.display_name) && artifact.repository.repository_id
            == artifact.artifact_key.repository_id,
        artifact.repository.problem() is None <==> !blank(artifact.repository.canonical_name),
{
}

/// A resolution is valid exactly where it is explained, its candidates are valid, different and of its
/// Repository, and its Artifacts fit its status: one where it is resolved, candidates only where it is
/// ambiguous, none where it is missing or unavailable.
pub proof fn valid_resolutions_fit_their_status(resolution: ArtifactResolutionView)
    ensures
        resolution.problem() is None <==> {
            &&& !blank(resolution.explanation)
            &&& forall|i: int|
                0 <= i < resolution.candidates.len() ==> (#[trigger] resolution.candidates[i]).problem() is None
                    && resolution.candidates[i].repository_id == resolution.repository_id
            &&& resolution.candidates.no_duplicates()
            &&& resolution.resolved_artifact matches Some(key) ==> key.problem() is None && key.repository_id
                == resolution.repository_id
            &&& match resolution.status {
                ResolutionStatus::Resolved => resolution.candidates.len() == 1 && resolution.resolved_artifact == Some(
                    resolution.candidates[0],
                ),
                ResolutionStatus::Ambiguous => resolution.candidates.len() > 0
                    && resolution.resolved_artifact is None,
                ResolutionStatus::Missing => resolution.candidates.len() == 0 && resolution.resolved_artifact is None,
                ResolutionStatus::Unavailable => resolution.candidates.len() == 0 && resolution.resolved_artifact
                    is None,
            }
        },
{
    let keys = resolution.candidates;
    let problem = resolution.candidate_problem();
    first_failures_are_failures(problem, 0, keys.len());
    if forall|i: int| 0 <= i < keys.len() ==> (#[trigger] problem(i)) is None {
        assert forall|i: int| 0 <= i < keys.len() implies (#[trigger] keys[i]).problem() is None
            && keys[i].repository_id == resolution.repository_id by {
            assert(problem(i) is None);
        }
        assert forall|i: int, j: int| 0 <= i < keys.len() && 0 <= j < keys.len() && i != j implies keys[i]
            != keys[j] by {
            let (a, b) = if i < j {
                (i, j)
            } else {
                (j, i)
            };
            assert(problem(b) is None);
            assert(keys.take(b)[a] == keys[a]);
        }
    }
    if keys.no_duplicates() && forall|i: int|
        0 <= i < keys.len() ==> (#[trigger] keys[i]).problem() is None && keys[i].repository_id
            == resolution.repository_id {
        assert forall|i: int| 0 <= i < keys.len() implies (#[trigger] problem(i)) is None by {
            assert(keys[i].problem() is None);
            if keys.take(i).contains(keys[i]) {
                let k = choose|k: int| 0 <= k < i && keys.take(i)[k] == keys[i];
                assert(keys[k] == keys[i]);
            }
        }
    }
}

/// An association is valid exactly where its key is, its kind fits the Artifact, its confidence is
/// above zero and at most one, it comes from at least one Reference and from none twice, and it is
/// explained.
pub proof fn valid_associations_come_from_references(association: ContextArtifactAssociationView)
    ensures
        association.problem() is None <==> {
            &&& association.artifact_key.problem() is None
            &&& association.kind.allows(association.artifact_key.locator.kind())
            &&& 0 < association.confidence_bits <= 0x3ff0_0000_0000_0000u64
            &&& association.source_reference_ids.len() > 0
            &&& association.source_reference_ids.no_duplicates()
            &&& !blank(association.explanation)
        },
        is_positive_fraction(association.confidence_bits) <==> 0 < association.confidence_bits
            <= 0x3ff0_0000_0000_0000u64,
{
}

/// A relation between Contexts is valid exactly where it says why and what it supports, nothing twice.
pub proof fn valid_relations_say_why(relation: ContextRelationView)
    ensures
        relation.problem() is None <==> !blank(relation.rationale) && relation.supports.len() > 0 && all_said(
            relation.supports,
        ) && relation.supports.no_duplicates(),
        blames_input(relation.problem()),
{
    lists_of_texts_say_something(relation.supports, "context_relation.supports"@);
}

/// Which Artifacts an edge may join: a module contains and, like a file, defines within its Repository;
/// symbols call; code consumes, produces and implements contracts; tests validate; anything depends.
pub proof fn edges_join_fitting_kinds(edge: EngineeringGraphEdgeView)
    ensures
        ({
            let (source, target) = (edge.source.locator.kind(), edge.target.locator.kind());
            let code = source is Module || source is File || source is Symbol;
            let contract = target is Api || target is Schema;
            let near = edge.source.repository_id == edge.target.repository_id;
            &&& edge.kind is Contains ==> (edge.joins_compatible_kinds() <==> near && source is Module)
            &&& edge.kind is Defines ==> (edge.joins_compatible_kinds() <==> near && (source is Module || source is File)
                && (target is Symbol || contract))
            &&& edge.kind is Calls ==> (edge.joins_compatible_kinds() <==> source is Symbol && (target is Symbol
                || target is Api))
            &&& edge.kind is Consumes ==> (edge.joins_compatible_kinds() <==> code && contract)
            &&& edge.kind is Produces ==> (edge.joins_compatible_kinds() <==> code && contract)
            &&& edge.kind is Implements ==> (edge.joins_compatible_kinds() <==> code && contract)
            &&& edge.kind is Validates ==> (edge.joins_compatible_kinds() <==> source is Test)
            &&& edge.kind is DependsOn ==> edge.joins_compatible_kinds()
        }),
        edge.problem() is None <==> edge.source.problem() is None && edge.target.problem() is None && edge.source
            != edge.target && edge.joins_compatible_kinds() && !blank(edge.explanation),
{
}

} // verus!

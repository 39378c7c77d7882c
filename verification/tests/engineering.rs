//! Engineering locators, keys, references, resolutions and relations.

use std::str::FromStr;

use shared_context::json::Json;
use shared_context::{
    ArtifactAssociationKind, ArtifactKey, ArtifactKind, ArtifactLocator, ArtifactRelationKind,
    ArtifactResolution, ContextArtifactAssociation, ContextId, ContextRelation,
    ContextRelationKind, EngineeringArtifact, EngineeringGraphEdge, EngineeringReference,
    ErrorKind, ReferenceId, ReferenceRelation, RepoRelativePath, RepositoryId,
    RepositoryIdentity, ResolutionStatus, RevisionId,
};

fn repository(name: &str) -> RepositoryIdentity {
    RepositoryIdentity {
        repository_id: RepositoryId::new(),
        canonical_name: name.to_owned(),
    }
}

fn path(value: &str) -> RepoRelativePath {
    RepoRelativePath::new(value).unwrap()
}

fn module(repository_id: RepositoryId, value: &str) -> ArtifactKey {
    ArtifactKey::derive(repository_id, ArtifactLocator::Module { path: path(value) }).unwrap()
}

fn api(repository_id: RepositoryId, route: &str) -> ArtifactKey {
    ArtifactKey::derive(
        repository_id,
        ArtifactLocator::Api {
            path: path("api/search.yaml"),
            protocol: "http".to_owned(),
            operation: "GET".to_owned(),
            normalized_route: route.to_owned(),
        },
    )
    .unwrap()
}

fn symbol(repository_id: RepositoryId, module: &str, name: &str) -> ArtifactKey {
    ArtifactKey::derive(
        repository_id,
        ArtifactLocator::Symbol {
            path: path("src/search.ts"),
            language: "typescript".to_owned(),
            module: module.to_owned(),
            enclosing_type: None,
            symbol_name: name.to_owned(),
            signature: format!("{name}()"),
        },
    )
    .unwrap()
}

#[test]
fn path_move_and_symbol_rename_change_deterministic_identity() {
    let repository = repository("search-web");
    let file_key = ArtifactKey::derive(
        repository.repository_id.clone(),
        ArtifactLocator::File {
            path: path("old/search.ts"),
        },
    )
    .unwrap();
    let before = EngineeringArtifact {
        repository: repository.clone(),
        artifact_key: file_key,
        display_name: "old/search.ts".to_owned(),
    };
    let after = EngineeringArtifact {
        artifact_key: ArtifactKey::derive(
            repository.repository_id.clone(),
            ArtifactLocator::File {
                path: path("new/search.ts"),
            },
        )
        .unwrap(),
        display_name: "new/search.ts".to_owned(),
        ..before.clone()
    };
    assert!(before.validate().is_ok());
    assert!(after.validate().is_ok());
    assert_ne!(before.artifact_key, after.artifact_key);

    let old_symbol = EngineeringArtifact {
        repository: repository.clone(),
        artifact_key: symbol(repository.repository_id.clone(), "search", "oldSearch"),
        display_name: "oldSearch".to_owned(),
    };
    let renamed = EngineeringArtifact {
        artifact_key: symbol(repository.repository_id.clone(), "search", "newSearch"),
        display_name: "newSearch".to_owned(),
        ..old_symbol.clone()
    };
    assert!(old_symbol.validate().is_ok());
    assert!(renamed.validate().is_ok());
    assert_ne!(old_symbol.artifact_key, renamed.artifact_key);
}

#[test]
fn locator_keys_distinguish_modules_and_normalize_contract_coordinates() {
    let repository = repository("cross-client");
    let first = symbol(repository.repository_id.clone(), "feed", "Result");
    let second = symbol(repository.repository_id.clone(), "search", "Result");
    assert_ne!(first, second);

    let api_from_swift = api(repository.repository_id.clone(), "/v2/search");
    let api_from_typescript = api(repository.repository_id.clone(), "/v2/search");
    assert_eq!(api_from_swift, api_from_typescript);
    assert!(
        api_from_swift
            .locator_explanation()
            .contains("api/search.yaml")
    );
}

#[test]
fn artifact_key_serialization_exposes_only_deterministic_locator_identity() {
    let key = api(RepositoryId::new(), "/v2/search");
    let mut encoded = String::new();
    key.write_json(&mut encoded);
    let value: serde_json::Value = serde_json::from_str(&encoded).unwrap();
    assert_eq!(value["locator"]["path"], "api/search.yaml");
    let encoded = value.to_string();
    assert!(!encoded.contains("content_"));
    assert!(!encoded.contains("semantic_"));
}

#[test]
fn references_require_canonical_kind_specific_locator_and_compatible_relation() {
    assert!(RepoRelativePath::new("/absolute/search.ts").is_err());
    assert!(RepoRelativePath::new("src/../search.ts").is_err());

    let invalid = EngineeringReference {
        reference_id: ReferenceId::new(),
        repository_id: RepositoryId::new(),
        artifact_kind: ArtifactKind::File,
        relation: ReferenceRelation::Consumes,
        locator: ArtifactLocator::File {
            path: path("src/search.ts"),
        },
        supports: "the implementation lives in this file".to_owned(),
        limitations: vec!["the file may move".to_owned()],
    };
    assert!(invalid.validate().is_err());

    let valid = EngineeringReference {
        artifact_kind: ArtifactKind::Api,
        relation: ReferenceRelation::Consumes,
        locator: ArtifactLocator::Api {
            path: path("api/search.yaml"),
            protocol: "http".to_owned(),
            operation: "GET".to_owned(),
            normalized_route: "/v2/search".to_owned(),
        },
        ..invalid
    };
    assert!(valid.validate().is_ok());

    let mut invalid_support = valid;
    invalid_support.supports = " ".to_owned();
    assert!(invalid_support.validate().is_err());
}

#[test]
fn resolution_models_ambiguity_unavailable_and_mixed_repository_rejection() {
    let repository = RepositoryId::new();
    let first = symbol(repository.clone(), "module-a", "Result");
    let second = symbol(repository.clone(), "module-b", "Result");
    let ambiguous = ArtifactResolution {
        reference_id: ReferenceId::new(),
        repository_id: repository,
        status: ResolutionStatus::Ambiguous,
        resolved_artifact: None,
        candidates: vec![first.clone(), second],
        explanation: "same symbol name exists in two modules".to_owned(),
    };
    assert!(ambiguous.validate().is_ok());

    let unavailable = ArtifactResolution {
        status: ResolutionStatus::Unavailable,
        candidates: vec![],
        explanation: "repository checkout is unavailable".to_owned(),
        ..ambiguous.clone()
    };
    assert!(unavailable.validate().is_ok());

    let mixed = ArtifactResolution {
        candidates: vec![first, symbol(RepositoryId::new(), "module-c", "Result")],
        ..ambiguous
    };
    assert!(mixed.validate().is_err());
}

#[test]
fn derived_associations_validate_sources_confidence_and_artifact_kind() {
    let key = api(RepositoryId::new(), "/v2/search");
    let association = ContextArtifactAssociation {
        context_id: ContextId::new(),
        revision_id: RevisionId::new(),
        artifact_key: key,
        kind: ArtifactAssociationKind::DefinesContract,
        source_reference_ids: vec![ReferenceId::new()],
        confidence_bits: 0.9_f64.to_bits(),
        explanation: "the Contract reference resolved exactly".to_owned(),
    };
    assert!(association.validate().is_ok());

    let mut invalid = association;
    invalid.kind = ArtifactAssociationKind::ValidatedBy;
    assert!(invalid.validate().is_err());
}

#[test]
fn graph_edges_allow_cycles_but_reject_invalid_typed_combinations() {
    let repository = RepositoryId::new();
    let a = module(repository.clone(), "src/a");
    let b = module(repository.clone(), "src/b");
    let forward = EngineeringGraphEdge {
        source: a.clone(),
        target: b.clone(),
        kind: ArtifactRelationKind::DependsOn,
        explanation: "A imports B".to_owned(),
    };
    let backward = EngineeringGraphEdge {
        source: b,
        target: a,
        kind: ArtifactRelationKind::DependsOn,
        explanation: "B calls back into A".to_owned(),
    };
    assert!(forward.validate().is_ok());
    assert!(backward.validate().is_ok());

    let invalid = EngineeringGraphEdge {
        source: api(repository.clone(), "/a"),
        target: ArtifactKey::derive(
            repository,
            ArtifactLocator::File {
                path: path("src/b.rs"),
            },
        )
        .unwrap(),
        kind: ArtifactRelationKind::Calls,
        explanation: "invalid call direction".to_owned(),
    };
    assert!(invalid.validate().is_err());
}

#[test]
fn stable_context_relations_allow_multi_node_cycles() {
    let first = ContextId::new();
    let second = ContextId::new();
    let forward = ContextRelation {
        target_context_id: second,
        kind: ContextRelationKind::DependsOn,
        rationale: "first requires the second Contract".to_owned(),
        supports: vec!["the first Context consumes the second contract".to_owned()],
    };
    let backward = ContextRelation {
        target_context_id: first,
        rationale: "second validates the first Decision".to_owned(),
        ..forward.clone()
    };
    assert!(forward.validate().is_ok());
    assert!(backward.validate().is_ok());

    let invalid = ContextRelation {
        supports: Vec::new(),
        ..forward
    };
    assert!(invalid.validate().is_err());
}

#[test]
fn arbitrary_deserialized_locator_still_fails_nested_validation() {
    let invalid_path = RepoRelativePath::from_stored("../outside.rs".to_owned());
    let reference = EngineeringReference {
        reference_id: ReferenceId::new(),
        repository_id: RepositoryId::new(),
        artifact_kind: ArtifactKind::File,
        relation: ReferenceRelation::Implements,
        locator: ArtifactLocator::File { path: invalid_path },
        supports: "the exact path locates the file".to_owned(),
        limitations: Vec::new(),
    };
    assert!(reference.validate().is_err());
}

/// A derived key names its own digest, and no other digest passes for it.
#[test]
fn stored_keys_are_valid_exactly_when_their_digest_is_the_derived_one() {
    let derived = module(RepositoryId::new(), "src/a");
    assert!(derived.validate().is_ok());
    assert_eq!(derived.digest().len(), 68);
    let stored = ArtifactKey::from_stored(
        derived.repository_id(),
        derived.locator().clone(),
        derived.digest().to_owned(),
    );
    assert_eq!(stored, derived);
    let forged = ArtifactKey::from_stored(
        derived.repository_id(),
        derived.locator().clone(),
        format!("art_{}", "0".repeat(64)),
    );
    assert!(forged.validate().is_err());
}

/// The digest is SHA-256 over the length-prefixed identity.
#[test]
fn module_keys_digest_their_canonical_locator() {
    let repository_id = RepositoryId::from_str("Android").unwrap();
    let key = module(repository_id, "src/a");
    assert_eq!(key.locator().canonical_key(), "src/a");
    assert_eq!(key.digest(), "art_e44cd42e65f61ba52539f6983ac6dc0de6e4a6df1e669248ec888035f50f3f10");
}

#[test]
fn confidence_is_a_positive_fraction() {
    let association = |confidence: f64| ContextArtifactAssociation {
        context_id: ContextId::new(),
        revision_id: RevisionId::new(),
        artifact_key: api(RepositoryId::new(), "/v2/search"),
        kind: ArtifactAssociationKind::DefinesContract,
        source_reference_ids: vec![ReferenceId::new()],
        confidence_bits: confidence.to_bits(),
        explanation: "the Contract reference resolved exactly".to_owned(),
    };
    for confidence in [f64::MIN_POSITIVE, 0.5, 1.0] {
        assert!(association(confidence).validate().is_ok(), "{confidence}");
    }
    for confidence in [0.0, -0.0, -0.5, 1.0000000000000002, f64::NAN, f64::INFINITY] {
        assert!(association(confidence).validate().is_err(), "{confidence}");
    }
}

#[test]
fn paths_are_canonical_and_relative() {
    for value in ["src/a.rs", "a", "a.b/c", ".hidden"] {
        assert_eq!(RepoRelativePath::new(value).unwrap().as_str(), value);
    }
    for value in ["", "/a", "a//b", "a/./b", "a/..", "a\\b", "a/"] {
        assert_eq!(
            RepoRelativePath::new(value).unwrap_err().kind(),
            ErrorKind::InvalidInput,
            "{value:?}"
        );
    }
}

#[test]
fn derived_keys_are_equal_exactly_for_the_same_artifact() {
    let (left, right) = (RepositoryId::new(), RepositoryId::new());
    let file = |value: &str| ArtifactLocator::File { path: path(value) };
    let key = ArtifactKey::derive(left.clone(), file("src/a.rs")).unwrap();
    assert_eq!(key.repository_id(), left);
    assert_eq!(key.locator(), &file("src/a.rs"));
    assert_eq!(key.kind(), ArtifactKind::File);
    let digits = key.digest().strip_prefix("art_").unwrap();
    assert_eq!(digits.len(), 64);
    assert!(digits.bytes().all(|byte| matches!(byte, b'0'..=b'9' | b'a'..=b'f')));
    assert_eq!(key, ArtifactKey::derive(left.clone(), file("src/a.rs")).unwrap());
    assert_ne!(key, ArtifactKey::derive(right, file("src/a.rs")).unwrap());
    assert_ne!(key, ArtifactKey::derive(left, file("src/b.rs")).unwrap());
}

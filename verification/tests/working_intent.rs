//! Working intents and their canonical semantics.

use serde_json::Value;
use shared_context::json::Json;
use shared_context::{
    WorkingIntentSnapshot, MAX_WORKING_INTENT_ITEMS_PER_FIELD, MAX_WORKING_INTENT_ITEM_BYTES,
};

fn encoded_value<T: Json>(value: &T) -> Value {
    let mut text = String::new();
    value.write_json(&mut text);
    serde_json::from_str(&text).unwrap()
}

fn complete() -> WorkingIntentSnapshot {
    WorkingIntentSnapshot {
        goal: "Implement Search Results".to_owned(),
        current_direction: Some("Reuse the existing response contract".to_owned()),
        in_scope: vec!["FE rendering".to_owned(), "Compatibility".to_owned()],
        out_of_scope: vec!["Ranking model".to_owned()],
        domains: vec!["Search".to_owned()],
        platforms: vec!["FE".to_owned(), "iOS".to_owned()],
        constraints: vec!["No API break".to_owned()],
        acceptance_conditions: vec!["Old clients continue to work".to_owned()],
        artifact_hints: vec!["symbol:SearchResult".to_owned()],
        interface_hints: vec!["api:search-v2".to_owned()],
        open_questions: vec!["Does Android consume the fallback?".to_owned()],
    }
}

#[test]
fn only_goal_is_required_and_optional_fields_default_to_empty() {
    let parsed = WorkingIntentSnapshot::new("Fix search").unwrap();
    assert!(parsed.validate().is_ok());
    assert_eq!(parsed.current_direction, None);
    assert!(parsed.in_scope.is_empty());
    assert!(parsed.artifact_hints.is_empty());
    assert!(parsed.open_questions.is_empty());
    assert_eq!(
        encoded_value(&parsed),
        serde_json::from_str::<Value>(r#"{"goal": "Fix search"}"#).unwrap()
    );
}

#[test]
fn validation_is_bounded_unique_and_scope_consistent() {
    assert!(WorkingIntentSnapshot::new("  ").is_err());
    let mut duplicate = complete();
    duplicate.domains = vec!["Search".to_owned(), " search ".to_owned()];
    assert!(duplicate.validate().is_err());
    let mut overlap = complete();
    overlap.out_of_scope.push(" fe   rendering ".to_owned());
    assert!(overlap.validate().is_err());
    let mut too_many = complete();
    too_many.constraints = (0..=MAX_WORKING_INTENT_ITEMS_PER_FIELD)
        .map(|index| format!("constraint {index}"))
        .collect();
    assert!(too_many.validate().is_err());
    let mut oversized = complete();
    oversized.artifact_hints = vec!["x".repeat(MAX_WORKING_INTENT_ITEM_BYTES + 1)];
    assert!(oversized.validate().is_err());
    let mut aggregate = complete();
    aggregate.artifact_hints = (0..MAX_WORKING_INTENT_ITEMS_PER_FIELD)
        .map(|index| format!("artifact-{index}-{}", "a".repeat(1000)))
        .collect();
    aggregate.interface_hints = (0..MAX_WORKING_INTENT_ITEMS_PER_FIELD)
        .map(|index| format!("interface-{index}-{}", "i".repeat(1000)))
        .collect();
    assert!(aggregate.validate().is_err());
}

#[test]
fn canonical_hash_converges_nonsemantic_differences_without_rewriting_text() {
    let original = complete();
    let mut equivalent = original.clone();
    equivalent.goal = "  implement   SEARCH results  ".to_owned();
    equivalent.current_direction = Some("reuse THE existing response contract".to_owned());
    equivalent.in_scope.reverse();
    equivalent.platforms.reverse();
    equivalent.artifact_hints[0] = "SYMBOL:searchresult".to_owned();
    let authoritative_goal = equivalent.goal.clone();
    assert!(original.canonically_equals(&equivalent).unwrap());
    assert_eq!(
        original.canonical_semantic_hash().unwrap(),
        equivalent.canonical_semantic_hash().unwrap()
    );
    assert_eq!(equivalent.goal, authoritative_goal);

    equivalent
        .open_questions
        .push("Is telemetry affected?".to_owned());
    assert!(!original.canonically_equals(&equivalent).unwrap());
}

#[test]
fn every_authoritative_dimension_changes_canonical_semantics() {
    let baseline = complete();
    let mut variants = Vec::new();

    let mut value = baseline.clone();
    value.goal.push_str(" now");
    variants.push(value);
    let mut value = baseline.clone();
    value.current_direction = Some("Choose a different implementation".to_owned());
    variants.push(value);
    for field in 0..9 {
        let mut value = baseline.clone();
        match field {
            0 => value.in_scope.push("Telemetry".to_owned()),
            1 => value.out_of_scope.push("Caching".to_owned()),
            2 => value.domains.push("Analytics".to_owned()),
            3 => value.platforms.push("Android".to_owned()),
            4 => value.constraints.push("Preserve latency".to_owned()),
            5 => value
                .acceptance_conditions
                .push("Telemetry remains stable".to_owned()),
            6 => value.artifact_hints.push("file:search.ts".to_owned()),
            7 => value.interface_hints.push("schema:search-v3".to_owned()),
            8 => value.open_questions.push("Is caching affected?".to_owned()),
            _ => unreachable!(),
        }
        variants.push(value);
    }
    let baseline_hash = baseline.canonical_semantic_hash().unwrap();
    assert!(variants.into_iter().all(|variant| {
        variant.canonical_semantic_hash().unwrap() != baseline_hash
            && !baseline.canonically_equals(&variant).unwrap()
    }));
}

#[test]
fn serialized_hints_and_questions_never_claim_fact_evidence_or_routing() {
    let encoded = encoded_value(&complete());
    let object = encoded.as_object().unwrap();
    assert!(object.contains_key("artifact_hints"));
    assert!(object.contains_key("interface_hints"));
    assert!(object.contains_key("open_questions"));
    for forbidden in [
        "maturity",
        "evidence",
        "evidence_refs",
        "space_id",
        "workspace",
        "binding",
        "unknowns",
    ] {
        assert!(!object.contains_key(forbidden));
    }
    let encoded = serde_json::to_string(&Value::Object(object.clone())).unwrap();
    assert!(!encoded.contains("grounded"));
}

/// The hash is a labelled SHA-256 of the canonical JSON text.
#[test]
fn canonical_hash_is_the_digest_of_the_canonical_text() {
    let hash = WorkingIntentSnapshot::new("  FIX   Search ")
        .unwrap()
        .canonical_semantic_hash()
        .unwrap();
    assert_eq!(hash, "sha256:54f73cf9bbccd11c0d950a3c797283cb9bfb85a5c947cf08a25b5af89fe4283e");
    assert_eq!(
        WorkingIntentSnapshot::new("fix search").unwrap().canonical_semantic_hash().unwrap(),
        hash
    );
}

/// Case folding is Unicode aware.
#[test]
fn case_folding_reaches_beyond_ascii() {
    let upper = WorkingIntentSnapshot::new("\u{c9}T\u{c9}").unwrap();
    let lower = WorkingIntentSnapshot::new("\u{e9}t\u{e9}").unwrap();
    assert!(upper.canonically_equals(&lower).unwrap());
}

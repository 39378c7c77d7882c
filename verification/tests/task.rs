//! Tasks: intents, sessions, signals and Space associations.

use serde_json::Value;
use shared_context::json::Json;
use shared_context::{
    ContextId, ErrorKind, ExternalSessionLocator, SpaceId, TaskId, TaskIntent, TaskIntentRevision,
    TaskIntentRevisionId, TaskSessionSnapshot, TaskSignal, TaskSignalKind, TaskSpaceAssociation,
};

fn to_value<T: Json>(value: &T) -> Value {
    let mut text = String::new();
    value.write_json(&mut text);
    serde_json::from_str(&text).unwrap()
}

fn intent() -> TaskIntent {
    intent_for(TaskId::new())
}

fn intent_for(task_id: TaskId) -> TaskIntent {
    TaskIntent {
        task_id,
        goal: "Make task-first retrieval possible".to_owned(),
        desired_change: "Infer relevant knowledge from the current task".to_owned(),
        in_scope: vec!["Task domain primitives".to_owned()],
        out_of_scope: vec!["Workspace routing".to_owned()],
        domains: vec!["context retrieval".to_owned()],
        platforms: vec!["fe".to_owned()],
        constraints: vec!["No Space prerequisite".to_owned()],
        acceptance_conditions: vec!["One Task can match many Spaces".to_owned()],
        artifacts: vec!["SearchResult".to_owned()],
        interfaces: vec!["search-v2".to_owned()],
        unknowns: vec!["Historical compatibility limits".to_owned()],
    }
}

fn locator(external_session_id: &str) -> ExternalSessionLocator {
    ExternalSessionLocator::new("codex", external_session_id).expect("valid locator")
}

fn assert_has_no_route_fields(value: &Value) {
    match value {
        Value::Object(fields) => {
            for (field, nested) in fields {
                assert!(
                    !field.contains("space") && !field.contains("workspace"),
                    "serialized Task runtime field must not route through {field}"
                );
                assert_has_no_route_fields(nested);
            }
        }
        Value::Array(values) => {
            for value in values {
                assert_has_no_route_fields(value);
            }
        }
        _ => {}
    }
}

fn association(task_id: TaskId, space_id: SpaceId) -> TaskSpaceAssociation {
    TaskSpaceAssociation {
        task_id,
        space_id,
        score_bits: 0.85_f64.to_bits(),
        matched_intent_fields: vec!["desired_outcome".to_owned()],
        matched_artifacts: vec!["symbol:SearchResult".to_owned()],
        matched_contexts: vec![ContextId::new()],
        relation_paths: vec![vec![
            "symbol:SearchResult".to_owned(),
            "api:search-v2".to_owned(),
        ]],
        reasons: vec!["The changed symbol consumes the matched API".to_owned()],
    }
}

#[test]
fn task_intent_rejects_an_empty_target() {
    let mut value = intent();
    value.goal = "  ".to_owned();

    let error = value.validate().expect_err("empty goal must fail");

    assert_eq!(error.kind(), ErrorKind::InvalidInput);
    assert!(error.message().contains("task_intent.goal"));
}

#[test]
fn task_intent_rejects_duplicate_structured_values() {
    let mut value = intent();
    value.domains.push(value.domains[0].clone());

    let error = value.validate().expect_err("duplicate domain must fail");

    assert_eq!(error.kind(), ErrorKind::InvalidInput);
    assert!(error.message().contains("task_intent.domains"));
}

#[test]
fn task_session_starts_with_one_parentless_intent_revision() {
    let intent = intent();
    let task_id = intent.task_id;
    let session = TaskSessionSnapshot::from_initial(locator("session-a"), intent, vec![])
        .expect("valid initial Task Session");

    assert_eq!(session.task_id, task_id);
    assert_eq!(session.intent_revisions.len(), 1);
    assert_eq!(
        session
            .current_intent_revision()
            .expect("initial revision")
            .parent_revision_id,
        None
    );
    assert!(session.validate().is_ok());
}

#[test]
fn task_intent_revisions_form_a_linear_parent_chain() {
    let task_id = TaskId::new();
    let mut session =
        TaskSessionSnapshot::from_initial(locator("session-a"), intent_for(task_id), vec![])
            .expect("valid initial Task Session");
    let initial_id = session.intent_revisions[0].revision_id;

    let mut second_intent = intent_for(task_id);
    second_intent.unknowns.clear();
    let second_id = session
        .append_intent(second_intent)
        .expect("valid successor");

    assert_eq!(session.intent_revisions[1].revision_id, second_id);
    assert_eq!(
        session.intent_revisions[1].parent_revision_id,
        Some(initial_id)
    );
    assert!(session.validate().is_ok());
}

#[test]
fn task_session_rejects_mixed_tasks() {
    let mut session = TaskSessionSnapshot::from_initial(locator("session-a"), intent(), vec![])
        .expect("valid initial Task Session");
    let parent = session.intent_revisions[0].clone();

    let error = TaskIntentRevision::successor(&parent, intent())
        .expect_err("mixed Task successor must fail");
    assert_eq!(error.kind(), ErrorKind::InvalidInput);
    assert!(error.message().contains("parent task"));

    session.intent_revisions.push(TaskIntentRevision {
        revision_id: TaskIntentRevisionId::new(),
        parent_revision_id: Some(parent.revision_id),
        intent: intent(),
    });
    let error = session
        .validate()
        .expect_err("mixed Task history must fail");
    assert!(error.message().contains("session task"));
}

#[test]
fn task_session_rejects_duplicate_or_disconnected_revisions() {
    let mut duplicate =
        TaskSessionSnapshot::from_initial(locator("session-a"), intent(), vec![])
            .expect("valid initial Task Session");
    duplicate
        .intent_revisions
        .push(duplicate.intent_revisions[0].clone());
    let error = duplicate
        .validate()
        .expect_err("duplicate revision must fail");
    assert!(error.message().contains("must not repeat a revision"));

    let task_id = TaskId::new();
    let mut disconnected =
        TaskSessionSnapshot::from_initial(locator("session-b"), intent_for(task_id), vec![])
            .expect("valid initial Task Session");
    disconnected.intent_revisions.push(TaskIntentRevision {
        revision_id: TaskIntentRevisionId::new(),
        parent_revision_id: None,
        intent: intent_for(task_id),
    });
    let error = disconnected
        .validate()
        .expect_err("disconnected revision must fail");
    assert!(error.message().contains("continue the parent chain"));
}

#[test]
fn task_session_rejects_empty_intent_or_external_locator_boundaries() {
    let mut empty_intent = intent();
    empty_intent.desired_change = "  ".to_owned();
    let error = TaskSessionSnapshot::from_initial(locator("session-a"), empty_intent, vec![])
        .expect_err("empty Intent must fail");
    assert!(error.message().contains("task_intent.desired_change"));

    for (agent_kind, external_session_id, field) in [
        (" ", "session-a", "agent_kind"),
        ("codex", "\t", "external_session_id"),
    ] {
        let error = ExternalSessionLocator::new(agent_kind, external_session_id)
            .expect_err("empty locator coordinate must fail");
        assert_eq!(error.kind(), ErrorKind::InvalidInput);
        assert!(error.message().contains(field));
    }
}

#[test]
fn one_workspace_can_supply_signals_to_independent_task_sessions() {
    let workspace_signal = TaskSignal {
        kind: TaskSignalKind::Workspace,
        content: "/work/shared-repository".to_owned(),
    };
    let first = TaskSessionSnapshot::from_initial(
        locator("session-a"),
        intent(),
        vec![workspace_signal.clone()],
    )
    .expect("first Task Session");
    let second = TaskSessionSnapshot::from_initial(
        locator("session-b"),
        intent(),
        vec![workspace_signal],
    )
    .expect("second Task Session");

    assert_ne!(first.task_session_id, second.task_session_id);
    assert_ne!(first.task_id, second.task_id);
    assert_ne!(
        first.external_session_locator,
        second.external_session_locator
    );
    assert_eq!(first.task_signals, second.task_signals);
}

#[test]
fn serialized_task_intent_revision_and_session_have_no_route_fields() {
    let session = TaskSessionSnapshot::from_initial(
        locator("session-a"),
        intent(),
        vec![TaskSignal {
            kind: TaskSignalKind::File,
            content: "src/search.tsx".to_owned(),
        }],
    )
    .expect("valid Task Session");
    let revision = to_value(&session.intent_revisions[0]);
    let session = to_value(&session);

    assert_has_no_route_fields(&revision);
    assert_has_no_route_fields(&session);
}

#[test]
fn serialized_task_intent_has_no_space_route() {
    let value = to_value(&intent());

    assert!(
        value
            .as_object()
            .unwrap()
            .keys()
            .all(|field| !field.contains("space") && !field.contains("workspace"))
    );
}

#[test]
fn task_signal_collection_rejects_duplicates_and_empty_content() {
    let signal = TaskSignal {
        kind: TaskSignalKind::File,
        content: "src/search.tsx".to_owned(),
    };
    let error = TaskSignal::validate_collection(&vec![signal.clone(), signal])
        .expect_err("duplicate signals must fail");
    assert!(error.message().contains("must not contain duplicates"));

    let error = TaskSignal {
        kind: TaskSignalKind::Prompt,
        content: " ".to_owned(),
    }
    .validate()
    .expect_err("empty signal content must fail");
    assert!(error.message().contains("task_signal.content"));
}

#[test]
fn workspace_is_only_a_code_location_signal() {
    let signal = TaskSignal {
        kind: TaskSignalKind::Workspace,
        content: "/work/search".to_owned(),
    };

    assert!(signal.validate().is_ok());
    assert_eq!(
        to_value(&signal),
        serde_json::from_str::<Value>(r#"{"kind": "workspace", "content": "/work/search"}"#)
            .unwrap()
    );
}

#[test]
fn task_space_association_rejects_invalid_confidence_or_basis() {
    for invalid_score in [f64::NAN, f64::INFINITY, -0.1, 0.0, 1.01] {
        let mut value = association(TaskId::new(), SpaceId::new());
        value.score_bits = f64::to_bits(invalid_score);
        let error = value.validate().expect_err("invalid score must fail");
        assert!(error.message().contains("score"));
    }

    let mut value = association(TaskId::new(), SpaceId::new());
    value.reasons.clear();
    let error = value
        .validate()
        .expect_err("confidence without an explanation must fail");
    assert!(error.message().contains("confidence basis"));

    let mut value = association(TaskId::new(), SpaceId::new());
    value.relation_paths = vec![Vec::new()];
    let error = value
        .validate()
        .expect_err("an empty relation path must fail");
    assert!(error.message().contains("relation_paths[0]"));
}

#[test]
fn one_task_accepts_zero_or_multiple_space_associations() {
    let task_id = TaskId::new();
    assert!(TaskSpaceAssociation::validate_collection(task_id, &Vec::new()).is_ok());

    let associations = vec![
        association(task_id, SpaceId::new()),
        association(task_id, SpaceId::new()),
    ];
    assert!(TaskSpaceAssociation::validate_collection(task_id, &associations).is_ok());
}

#[test]
fn association_collection_rejects_duplicate_spaces_and_mixed_tasks() {
    let task_id = TaskId::new();
    let space_id = SpaceId::new();
    let duplicate_space = vec![
        association(task_id, space_id),
        association(task_id, space_id),
    ];
    assert!(
        TaskSpaceAssociation::validate_collection(task_id, &duplicate_space)
            .expect_err("duplicate Space must fail")
            .message()
            .contains("repeat a space")
    );

    let mixed_tasks = vec![association(TaskId::new(), SpaceId::new())];
    assert!(
        TaskSpaceAssociation::validate_collection(task_id, &mixed_tasks)
            .expect_err("mixed Task IDs must fail")
            .message()
            .contains("same task")
    );
}

#[test]
fn appending_refuses_another_task_and_leaves_the_session() {
    let mut session = TaskSessionSnapshot::from_initial(locator("session-a"), intent(), vec![])
        .expect("valid initial Task Session");
    let before = session.clone();
    assert!(session.append_intent(intent()).is_err());
    assert_eq!(session, before);
}

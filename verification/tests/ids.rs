//! Typed identifiers: prefixes, parsing, rendering and derivation.

use std::{collections::HashSet, str::FromStr};

use shared_context::json::Json;
use shared_context::{
    AgentCheckpointId, CandidateBuildId, CandidateId, CaptureId, CheckpointClaimId,
    ConfirmationId, ConflictId, ContextId, EventId, EvidenceId, ExternalSessionId,
    ProposedSpaceGroupKey, PublicationId, ReferenceId, RepositoryGroupId, RepositoryId,
    ResolutionId, ReviewId, RevisionId, SignalId, SpaceAssociationId, SpaceId,
    SpaceRecommendationId, SubmissionId, TaskId, TaskIntentRevisionId, TaskSessionId,
    WorkEpisodeId, WorkObservationId,
};
use uuid::{Uuid, Variant, Version};

fn assert_generated_id(rendered: String, number: u128, prefix: &str) {
    assert!(rendered.starts_with(prefix));
    assert_eq!(Uuid::from_u128(number).get_version(), Some(Version::Random));
    assert_eq!(Uuid::from_u128(number).get_variant(), Variant::RFC4122);
}

#[test]
fn generated_ids_have_the_right_prefix_and_random_uuid_version() {
    let ids: Vec<_> = (0..256).map(|_| EventId::new()).collect();
    let rendered: HashSet<_> = ids.iter().map(EventId::to_string).collect();

    assert_eq!(rendered.len(), ids.len());
    for id in ids {
        assert!(id.to_string().starts_with(EventId::PREFIX));
        assert_eq!(Uuid::from_u128(id.uuid()).get_version(), Some(Version::Random));
        assert_eq!(Uuid::from_u128(id.uuid()).get_variant(), Variant::RFC4122);
    }
}

#[test]
fn parsing_requires_the_exact_type_prefix_and_canonical_uuid_v4() {
    let valid = SpaceId::new().to_string();
    assert!(SpaceId::from_str(&valid).is_ok());
    assert!(SpaceId::from_str(&valid.replace("spc_", "ctx_")).is_err());
    assert!(SpaceId::from_str("spc_00000000-0000-1000-8000-000000000000").is_err());
    assert!(SpaceId::from_str("spc_00000000000040008000000000000000").is_err());

    let repository_group = RepositoryGroupId::new().to_string();
    assert!(RepositoryGroupId::from_str(&repository_group).is_ok());
    assert!(RepositoryGroupId::from_str(&repository_group.replace("rpg_", "rpo_")).is_err());
}

#[test]
fn repository_ids_are_bounded_readable_exact_and_legacy_compatible() {
    assert!(
        std::mem::size_of::<RepositoryId>() <= 2 * std::mem::size_of::<usize>(),
        "RepositoryId must remain a compact shared string handle"
    );
    for value in [
        "Android",
        "iOS",
        "FE",
        "server.api_v2",
        "rpo_00000000-0000-4000-8000-000000000901",
    ] {
        let id = RepositoryId::from_str(value).unwrap();
        assert_eq!(id.as_str(), value);
        assert_eq!(id.to_string(), value);
        let mut encoded = String::new();
        id.write_json(&mut encoded);
        assert_eq!(encoded, format!("\"{value}\""));
        let decoded: String = serde_json::from_str(&format!("\"{value}\"")).unwrap();
        assert_eq!(RepositoryId::from_str(&decoded).unwrap(), id);
    }
    assert_ne!(
        RepositoryId::from_str("Android").unwrap(),
        RepositoryId::from_str("android").unwrap()
    );
    let mut sorted = [
        RepositoryId::from_str("Server").unwrap(),
        RepositoryId::from_str("FE").unwrap(),
        RepositoryId::from_str("Android").unwrap(),
    ];
    sorted.sort();
    assert_eq!(
        sorted.map(|repository_id| repository_id.to_string()),
        ["Android", "FE", "Server"]
    );
    for value in [
        "",
        "1Android",
        "Android/iOS",
        "Android iOS",
        "Android\\iOS",
        "安卓",
    ] {
        assert!(RepositoryId::from_str(value).is_err(), "accepted {value:?}");
    }
    assert!(RepositoryId::from_str(&format!("A{}", "x".repeat(63))).is_ok());
    assert!(RepositoryId::from_str(&format!("A{}", "x".repeat(64))).is_err());
}

#[test]
fn every_domain_id_type_uses_its_stable_prefix_and_uuid_v4() {
    assert_generated_id(SpaceId::new().to_string(), SpaceId::new().uuid(), "spc_");
    let repository_id = RepositoryId::new();
    assert!(repository_id.to_string().starts_with("Repository-"));
    assert!(RepositoryId::from_str(repository_id.as_str()).is_ok());
    assert_generated_id(RepositoryGroupId::new().to_string(), RepositoryGroupId::new().uuid(), "rpg_");
    assert_generated_id(ReferenceId::new().to_string(), ReferenceId::new().uuid(), "ref_");
    assert_generated_id(TaskId::new().to_string(), TaskId::new().uuid(), "tsk_");
    assert_generated_id(TaskSessionId::new().to_string(), TaskSessionId::new().uuid(), "tss_");
    assert_generated_id(ExternalSessionId::new().to_string(), ExternalSessionId::new().uuid(), "xss_");
    assert_generated_id(TaskIntentRevisionId::new().to_string(), TaskIntentRevisionId::new().uuid(), "tir_");
    assert_generated_id(SignalId::new().to_string(), SignalId::new().uuid(), "sig_");
    assert_generated_id(CaptureId::new().to_string(), CaptureId::new().uuid(), "cap_");
    assert_generated_id(WorkEpisodeId::new().to_string(), WorkEpisodeId::new().uuid(), "wep_");
    assert_generated_id(WorkObservationId::new().to_string(), WorkObservationId::new().uuid(), "wob_");
    assert_generated_id(AgentCheckpointId::new().to_string(), AgentCheckpointId::new().uuid(), "ckp_");
    assert_generated_id(CheckpointClaimId::new().to_string(), CheckpointClaimId::new().uuid(), "clm_");
    assert_generated_id(CandidateBuildId::new().to_string(), CandidateBuildId::new().uuid(), "bld_");
    assert_generated_id(SpaceRecommendationId::new().to_string(), SpaceRecommendationId::new().uuid(), "rec_");
    assert_generated_id(CandidateId::new().to_string(), CandidateId::new().uuid(), "cnd_");
    assert_generated_id(SubmissionId::new().to_string(), SubmissionId::new().uuid(), "sub_");
    assert_generated_id(ConfirmationId::new().to_string(), ConfirmationId::new().uuid(), "cfm_");
    assert_generated_id(SpaceAssociationId::new().to_string(), SpaceAssociationId::new().uuid(), "asc_");
    assert_generated_id(ContextId::new().to_string(), ContextId::new().uuid(), "ctx_");
    assert_generated_id(RevisionId::new().to_string(), RevisionId::new().uuid(), "rev_");
    assert_generated_id(EventId::new().to_string(), EventId::new().uuid(), "evt_");
    assert_generated_id(PublicationId::new().to_string(), PublicationId::new().uuid(), "pub_");
    assert_generated_id(EvidenceId::new().to_string(), EvidenceId::new().uuid(), "evd_");
    assert_generated_id(ReviewId::new().to_string(), ReviewId::new().uuid(), "rvw_");
    assert_generated_id(ConflictId::new().to_string(), ConflictId::new().uuid(), "cnf_");
    assert_generated_id(ResolutionId::new().to_string(), ResolutionId::new().uuid(), "rsl_");
}

#[test]
fn proposed_space_group_key_is_stable_per_task_intent_revision() {
    let task_id = TaskId::new();
    let intent_revision_id = TaskIntentRevisionId::new();
    let key = ProposedSpaceGroupKey::from_task_intent(task_id, intent_revision_id);
    assert!(key.to_string().starts_with("psg_"));
    assert_eq!(Uuid::from_u128(key.uuid()).get_version(), Some(Version::Random));
    assert_eq!(Uuid::from_u128(key.uuid()).get_variant(), Variant::RFC4122);
    assert_eq!(
        key,
        ProposedSpaceGroupKey::from_task_intent(task_id, intent_revision_id)
    );
    assert_ne!(
        key,
        ProposedSpaceGroupKey::from_task_intent(task_id, TaskIntentRevisionId::new())
    );
    assert_ne!(
        key,
        ProposedSpaceGroupKey::from_task_intent(TaskId::new(), intent_revision_id)
    );
}

#[test]
fn rendering_is_the_prefix_and_the_hyphenated_number() {
    let text = "ctx_00000000-0000-4000-8000-0000000000af";
    let id = ContextId::from_str(text).unwrap();
    assert_eq!(id.uuid(), 0x0000_0000_0000_4000_8000_0000_0000_00af_u128);
    assert_eq!(id.to_string(), text);
    let mut encoded = String::new();
    id.write_json(&mut encoded);
    assert_eq!(encoded, format!("\"{text}\""));
}

#[test]
fn parse_errors_name_the_expected_prefix() {
    let error = SpaceId::from_str("ctx_00000000-0000-4000-8000-000000000001").unwrap_err();
    assert_eq!(error.expected_prefix(), "spc_");
    assert!(error.to_string().contains("spc_"), "{}", error.to_string());
    let error = RepositoryId::from_str("A/").unwrap_err();
    assert!(error.to_string().contains("byte 0x2f is not allowed"), "{}", error.to_string());
}

#[test]
fn uppercase_and_braced_uuids_are_not_canonical() {
    assert!(SpaceId::from_str("spc_ABCDEF00-0000-4000-8000-000000000001").is_err());
    assert!(SpaceId::from_str("spc_{00000000-0000-4000-8000-000000000001}").is_err());
    assert!(SpaceId::from_str("spc_not-a-uuid").is_err());
}

#[test]
fn repository_spellings_are_one_to_64_ascii_bytes() {
    let longest = "r".repeat(64);
    for text in ["a", "Z", "a.b_c-9", longest.as_str()] {
        assert_eq!(RepositoryId::from_str(text).unwrap().as_str(), text);
    }
    let over = "r".repeat(65);
    for text in ["", "9a", ".a", "a/b", "a b", "caf\u{e9}", over.as_str()] {
        assert!(RepositoryId::from_str(text).is_err(), "{text}");
    }
}

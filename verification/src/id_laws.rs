//! What holds of identities: their spelling, and what is accepted as one.

use vstd::prelude::*;

use crate::digest::is_version_4;
use crate::ids::{
    hyphenated, is_repository_byte, is_repository_spelling, parsed_id, parsed_uuid, AgentCheckpointId, CandidateBuildId,
    CandidateId, CaptureId, CheckpointClaimId, ConfirmationId, ConflictId, ContextId, EventId, EvidenceId,
    ExternalSessionId, Identifier, ProposedSpaceGroupKey, PublicationId, ReferenceId, RepositoryGroupId, ResolutionId,
    ReviewId, RevisionId, SignalId, SpaceAssociationId, SpaceId, SpaceRecommendationId, SubmissionId, TaskId,
    TaskIntentRevisionId, TaskSessionId, WorkEpisodeId, WorkObservationId,
};
use crate::text::begins_with;

verus! {

/// Every kind of identity is spelled with a prefix of its own.
pub proof fn kinds_have_their_prefixes()
    ensures
        SpaceId::prefix() == "spc_"@,
        RepositoryGroupId::prefix() == "rpg_"@,
        ReferenceId::prefix() == "ref_"@,
        TaskId::prefix() == "tsk_"@,
        TaskSessionId::prefix() == "tss_"@,
        ExternalSessionId::prefix() == "xss_"@,
        TaskIntentRevisionId::prefix() == "tir_"@,
        SignalId::prefix() == "sig_"@,
        CaptureId::prefix() == "cap_"@,
        WorkEpisodeId::prefix() == "wep_"@,
        WorkObservationId::prefix() == "wob_"@,
        AgentCheckpointId::prefix() == "ckp_"@,
        CheckpointClaimId::prefix() == "clm_"@,
        CandidateBuildId::prefix() == "bld_"@,
        SpaceRecommendationId::prefix() == "rec_"@,
        ProposedSpaceGroupKey::prefix() == "psg_"@,
        CandidateId::prefix() == "cnd_"@,
        SubmissionId::prefix() == "sub_"@,
        ConfirmationId::prefix() == "cfm_"@,
        SpaceAssociationId::prefix() == "asc_"@,
        ContextId::prefix() == "ctx_"@,
        RevisionId::prefix() == "rev_"@,
        EventId::prefix() == "evt_"@,
        PublicationId::prefix() == "pub_"@,
        EvidenceId::prefix() == "evd_"@,
        ReviewId::prefix() == "rvw_"@,
        ConflictId::prefix() == "cnf_"@,
        ResolutionId::prefix() == "rsl_"@,
{
}

/// The spelling of an identity is its prefix and its number, and the order of identities is that of
/// their numbers.
pub proof fn identities_are_spelled_by_number(
    id0: SpaceId,
    id1: RepositoryGroupId,
    id2: ReferenceId,
    id3: TaskId,
    id4: TaskSessionId,
    id5: ExternalSessionId,
    id6: TaskIntentRevisionId,
    id7: SignalId,
    id8: CaptureId,
    id9: WorkEpisodeId,
    id10: WorkObservationId,
    id11: AgentCheckpointId,
    id12: CheckpointClaimId,
    id13: CandidateBuildId,
    id14: SpaceRecommendationId,
    id15: ProposedSpaceGroupKey,
    id16: CandidateId,
    id17: SubmissionId,
    id18: ConfirmationId,
    id19: SpaceAssociationId,
    id20: ContextId,
    id21: RevisionId,
    id22: EventId,
    id23: PublicationId,
    id24: EvidenceId,
    id25: ReviewId,
    id26: ConflictId,
    id27: ResolutionId,
)
    ensures
        id0.text() == "spc_"@ + hyphenated(id0.number()),
        id0.canonical() <==> is_version_4(id0.number()),
        id1.text() == "rpg_"@ + hyphenated(id1.number()),
        id1.canonical() <==> is_version_4(id1.number()),
        id2.text() == "ref_"@ + hyphenated(id2.number()),
        id2.canonical() <==> is_version_4(id2.number()),
        id3.text() == "tsk_"@ + hyphenated(id3.number()),
        id3.canonical() <==> is_version_4(id3.number()),
        id4.text() == "tss_"@ + hyphenated(id4.number()),
        id4.canonical() <==> is_version_4(id4.number()),
        id5.text() == "xss_"@ + hyphenated(id5.number()),
        id5.canonical() <==> is_version_4(id5.number()),
        id6.text() == "tir_"@ + hyphenated(id6.number()),
        id6.canonical() <==> is_version_4(id6.number()),
        id7.text() == "sig_"@ + hyphenated(id7.number()),
        id7.canonical() <==> is_version_4(id7.number()),
        id8.text() == "cap_"@ + hyphenated(id8.number()),
        id8.canonical() <==> is_version_4(id8.number()),
        id9.text() == "wep_"@ + hyphenated(id9.number()),
        id9.canonical() <==> is_version_4(id9.number()),
        id10.text() == "wob_"@ + hyphenated(id10.number()),
        id10.canonical() <==> is_version_4(id10.number()),
        id11.text() == "ckp_"@ + hyphenated(id11.number()),
        id11.canonical() <==> is_version_4(id11.number()),
        id12.text() == "clm_"@ + hyphenated(id12.number()),
        id12.canonical() <==> is_version_4(id12.number()),
        id13.text() == "bld_"@ + hyphenated(id13.number()),
        id13.canonical() <==> is_version_4(id13.number()),
        id14.text() == "rec_"@ + hyphenated(id14.number()),
        id14.canonical() <==> is_version_4(id14.number()),
        id15.text() == "psg_"@ + hyphenated(id15.number()),
        id15.canonical() <==> is_version_4(id15.number()),
        id16.text() == "cnd_"@ + hyphenated(id16.number()),
        id16.canonical() <==> is_version_4(id16.number()),
        id17.text() == "sub_"@ + hyphenated(id17.number()),
        id17.canonical() <==> is_version_4(id17.number()),
        id18.text() == "cfm_"@ + hyphenated(id18.number()),
        id18.canonical() <==> is_version_4(id18.number()),
        id19.text() == "asc_"@ + hyphenated(id19.number()),
        id19.canonical() <==> is_version_4(id19.number()),
        id20.text() == "ctx_"@ + hyphenated(id20.number()),
        id20.canonical() <==> is_version_4(id20.number()),
        id21.text() == "rev_"@ + hyphenated(id21.number()),
        id21.canonical() <==> is_version_4(id21.number()),
        id22.text() == "evt_"@ + hyphenated(id22.number()),
        id22.canonical() <==> is_version_4(id22.number()),
        id23.text() == "pub_"@ + hyphenated(id23.number()),
        id23.canonical() <==> is_version_4(id23.number()),
        id24.text() == "evd_"@ + hyphenated(id24.number()),
        id24.canonical() <==> is_version_4(id24.number()),
        id25.text() == "rvw_"@ + hyphenated(id25.number()),
        id25.canonical() <==> is_version_4(id25.number()),
        id26.text() == "cnf_"@ + hyphenated(id26.number()),
        id26.canonical() <==> is_version_4(id26.number()),
        id27.text() == "rsl_"@ + hyphenated(id27.number()),
        id27.canonical() <==> is_version_4(id27.number()),
{
}

/// A number is spelled with 32 hexadecimal digits in groups of eight, four, four, four and twelve.
pub proof fn numbers_are_spelled_in_groups(number: u128, at: int)
    requires
        0 <= at < 36,
    ensures
        hyphenated(number).len() == 36,
        hyphenated(number)[at] == '-' <==> at == 8 || at == 13 || at == 18 || at == 23,
        at == 0 ==> hyphenated(number)[at] == crate::text::hex_digit(
            (number as nat / vstd::arithmetic::power::pow(16, 31) as nat) % 16,
        ),
        at == 35 ==> hyphenated(number)[at] == crate::text::hex_digit(
            (number as nat / vstd::arithmetic::power::pow(16, 0) as nat) % 16,
        ),
{
}

/// A text is an identity of a kind exactly where it is the prefix of the kind and the spelling of a
/// random number of version four, in its one form.
pub proof fn only_canonical_texts_are_identities(value: Seq<char>, prefix: Seq<char>, number: u128)
    ensures
        parsed_id(value, prefix) == Ok::<u128, Seq<char>>(number) <==> {
            &&& begins_with(value, prefix)
            &&& parsed_uuid(value.skip(prefix.len() as int)) == Ok::<u128, Seq<char>>(number)
            &&& is_version_4(number)
            &&& value.skip(prefix.len() as int) == hyphenated(number)
        },
        !begins_with(value, prefix) ==> parsed_id(value, prefix) is Err,
{
}

/// A number is of version four exactly where its version nibble is four and its variant bits are `10`.
pub proof fn version_four_is_marked(number: u128)
    ensures
        is_version_4(number) <==> (number >> 76u128) & 0xfu128 == 4u128 && (number >> 62u128) & 0x3u128 == 2u128,
{
}

/// A Repository is spelled with 1 to 64 bytes: a letter, then letters, digits, dots, underscores and
/// dashes.
pub proof fn repositories_are_spelled_plainly(bytes: Seq<u8>)
    ensures
        is_repository_spelling(bytes) <==> {
            &&& 1 <= bytes.len() <= 64
            &&& 65 <= bytes[0] <= 90 || 97 <= bytes[0] <= 122
            &&& forall|i: int|
                1 <= i < bytes.len() ==> 65 <= #[trigger] bytes[i] <= 90 || 97 <= bytes[i] <= 122 || 48 <= bytes[i] <= 57
                    || bytes[i] == 0x2e || bytes[i] == 0x5f || bytes[i] == 0x2d
        },
{
    if is_repository_spelling(bytes) {
        assert forall|i: int| 1 <= i < bytes.len() implies 65 <= #[trigger] bytes[i] <= 90 || 97 <= bytes[i] <= 122 || 48
            <= bytes[i] <= 57 || bytes[i] == 0x2e || bytes[i] == 0x5f || bytes[i] == 0x2d by {
            assert(is_repository_byte(bytes[i]));
        }
    }
    if forall|i: int|
        1 <= i < bytes.len() ==> 65 <= #[trigger] bytes[i] <= 90 || 97 <= bytes[i] <= 122 || 48 <= bytes[i] <= 57
            || bytes[i] == 0x2e || bytes[i] == 0x5f || bytes[i] == 0x2d {
        assert forall|i: int| 1 <= i < bytes.len() implies is_repository_byte(#[trigger] bytes[i]) by {
            assert(65 <= bytes[i] <= 90 || 97 <= bytes[i] <= 122 || 48 <= bytes[i] <= 57 || bytes[i] == 0x2e || bytes[i]
                == 0x5f || bytes[i] == 0x2d);
        }
    }
}

} // verus!

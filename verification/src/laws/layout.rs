//! The positional forms: at which place of a record's form each of its fields stands.
use vstd::prelude::*;
use crate::record::{
    byte_list, optional_byte_list, optional_number, optional_record, optional_small, optional_text,
    record_list, Record,
};
use crate::idunn_deployment_brake::IdunnDeploymentBrakeRecord;
use crate::idunn_lifecycle_brake::IdunnLifecycleBrakeRecord;
use crate::provider_health_contracts::{
    GameCultServiceTrustAnchorRecord, IdunnAuthenticatedProviderHealthProjectionRecord,
    IdunnSignedDaemonHealthRecord,
};
use crate::runtime_authority_contracts::activation::IdunnRuntimeActivationRecord;
use crate::runtime_authority_contracts::capability::{
    GameCultRuntimeCapability, IdunnExpectedCapability,
};
use crate::runtime_authority_contracts::expected::{
    IdunnExpectedDependency, IdunnExpectedIncarnationRecord, IdunnExpectedRoute,
};
use crate::runtime_authority_contracts::lease::IdunnProcessWriteLeaseRecord;
use crate::runtime_authority_contracts::presence::GameCultRuntimePresenceHealthRecord;
use crate::runtime_authority_contracts::topology::{
    OdinRuntimeDependencyEvidence, OdinRuntimeTopologyCorrelationRecord, OdinTopologyDisagreement,
};
use crate::text::opt;
use crate::wire::Wire;

verus! {

/// Each field stands at its place.
pub proof fn gamecult_runtime_capability_fields_stand_in_this_order(record: GameCultRuntimeCapability)
    ensures
        record.wire() is Sequence,
        record.wire()->Sequence_0.len() == 4,
        record.wire()->Sequence_0[0] == Wire::Text(record.capability@),
        record.wire()->Sequence_0[1] == Wire::Text(record.schema@),
        record.wire()->Sequence_0[2] == Wire::Text(record.compatibility@),
        record.wire()->Sequence_0[3] == Wire::Unsigned(record.capacity as u64),
{
}

/// Each field stands at its place.
pub proof fn idunn_expected_capability_fields_stand_in_this_order(record: IdunnExpectedCapability)
    ensures
        record.wire() is Sequence,
        record.wire()->Sequence_0.len() == 4,
        record.wire()->Sequence_0[0] == Wire::Text(record.capability@),
        record.wire()->Sequence_0[1] == Wire::Text(record.schema@),
        record.wire()->Sequence_0[2] == Wire::Text(record.compatibility@),
        record.wire()->Sequence_0[3] == Wire::Unsigned(record.minimum_capacity as u64),
{
}

/// Each field stands at its place.
pub proof fn idunn_expected_route_fields_stand_in_this_order(record: IdunnExpectedRoute)
    ensures
        record.wire() is Sequence,
        record.wire()->Sequence_0.len() == 4,
        record.wire()->Sequence_0[0] == Wire::Text(record.route_id@),
        record.wire()->Sequence_0[1] == Wire::Text(record.transport@),
        record.wire()->Sequence_0[2] == Wire::Text(record.stable_endpoint@),
        record.wire()->Sequence_0[3] == Wire::Text(record.candidate_endpoint@),
{
}

/// Each field stands at its place.
pub proof fn idunn_expected_dependency_fields_stand_in_this_order(record: IdunnExpectedDependency)
    ensures
        record.wire() is Sequence,
        record.wire()->Sequence_0.len() == 10,
        record.wire()->Sequence_0[0] == Wire::Text(record.kind@),
        record.wire()->Sequence_0[1] == Wire::Text(record.capability@),
        record.wire()->Sequence_0[2] == Wire::Text(record.schema@),
        record.wire()->Sequence_0[3] == Wire::Text(record.compatibility@),
        record.wire()->Sequence_0[4] == Wire::Unsigned(record.minimum_capacity as u64),
        record.wire()->Sequence_0[5] == Wire::Text(record.startup@),
        record.wire()->Sequence_0[6] == optional_text(opt(record.provider_id)),
        record.wire()->Sequence_0[7] == optional_text(opt(record.provider_authority)),
        record.wire()->Sequence_0[8] == optional_text(opt(record.provider_expected_projection_sha256)),
        record.wire()->Sequence_0[9] == optional_text(opt(record.provider_endpoint)),
{
}

/// Each field stands at its place.
pub proof fn idunn_expected_incarnation_record_fields_stand_in_this_order(record: IdunnExpectedIncarnationRecord)
    ensures
        record.wire() is Sequence,
        record.wire()->Sequence_0.len() == 18,
        record.wire()->Sequence_0[0] == Wire::Text(record.schema_version@),
        record.wire()->Sequence_0[1] == Wire::Text(record.target@),
        record.wire()->Sequence_0[2] == Wire::Text(record.plan_id@),
        record.wire()->Sequence_0[3] == Wire::Text(record.incarnation_id@),
        record.wire()->Sequence_0[4] == Wire::Text(record.sealed_release_id@),
        record.wire()->Sequence_0[5] == Wire::Text(record.source_repository@),
        record.wire()->Sequence_0[6] == Wire::Text(record.source_revision@),
        record.wire()->Sequence_0[7] == Wire::Text(record.recipe_sha256@),
        record.wire()->Sequence_0[8] == Wire::Text(record.runtime_id@),
        record.wire()->Sequence_0[9] == Wire::Text(record.expected_signer_identity_id@),
        record.wire()->Sequence_0[10] == Wire::Text(record.health_contract@),
        record.wire()->Sequence_0[11] == Wire::Text(record.artifact_sha256@),
        record.wire()->Sequence_0[12] == optional_text(opt(record.state_schema_generation)),
        record.wire()->Sequence_0[13] == optional_text(opt(record.state_contract_sha256)),
        record.wire()->Sequence_0[14] == Wire::Flag(record.write_lease_required),
        record.wire()->Sequence_0[15] == optional_record(record.route),
        record.wire()->Sequence_0[16] == record_list(record.capabilities@),
        record.wire()->Sequence_0[17] == record_list(record.dependencies@),
{
}

/// Each field stands at its place.
pub proof fn odin_runtime_dependency_evidence_fields_stand_in_this_order(record: OdinRuntimeDependencyEvidence)
    ensures
        record.wire() is Sequence,
        record.wire()->Sequence_0.len() == 11,
        record.wire()->Sequence_0[0] == Wire::Text(record.kind@),
        record.wire()->Sequence_0[1] == Wire::Text(record.capability@),
        record.wire()->Sequence_0[2] == Wire::Text(record.schema@),
        record.wire()->Sequence_0[3] == Wire::Text(record.compatibility@),
        record.wire()->Sequence_0[4] == optional_text(opt(record.provider_id)),
        record.wire()->Sequence_0[5] == optional_text(opt(record.provider_authority)),
        record.wire()->Sequence_0[6] == optional_text(opt(record.provider_expected_projection_sha256)),
        record.wire()->Sequence_0[7] == optional_text(opt(record.provider_endpoint)),
        record.wire()->Sequence_0[8] == optional_small(record.observed_capacity),
        record.wire()->Sequence_0[9] == optional_text(opt(record.provider_evidence_sha256)),
        record.wire()->Sequence_0[10] == Wire::Flag(record.ready),
{
}

/// Each field stands at its place.
pub proof fn odin_topology_disagreement_fields_stand_in_this_order(record: OdinTopologyDisagreement)
    ensures
        record.wire() is Sequence,
        record.wire()->Sequence_0.len() == 3,
        record.wire()->Sequence_0[0] == Wire::Text(record.code@),
        record.wire()->Sequence_0[1] == optional_text(opt(record.expected)),
        record.wire()->Sequence_0[2] == optional_text(opt(record.observed)),
{
}

/// Each field stands at its place.
pub proof fn odin_runtime_topology_correlation_record_fields_stand_in_this_order(record: OdinRuntimeTopologyCorrelationRecord)
    ensures
        record.wire() is Sequence,
        record.wire()->Sequence_0.len() == 21,
        record.wire()->Sequence_0[0] == Wire::Text(record.schema_version@),
        record.wire()->Sequence_0[1] == Wire::Text(record.target@),
        record.wire()->Sequence_0[2] == Wire::Text(record.expected_projection_sha256@),
        record.wire()->Sequence_0[3] == Wire::Flag(record.expected),
        record.wire()->Sequence_0[4] == optional_text(opt(record.current_activation_sha256)),
        record.wire()->Sequence_0[5] == optional_text(opt(record.signed_presence_sha256)),
        record.wire()->Sequence_0[6] == optional_text(opt(record.observed_presence_state)),
        record.wire()->Sequence_0[7] == optional_number(record.observed_presence_publisher_sequence),
        record.wire()->Sequence_0[8] == optional_text(opt(record.observed_write_lease_sha256)),
        record.wire()->Sequence_0[9] == record_list(record.observed_capabilities@),
        record.wire()->Sequence_0[10] == Wire::Text(record.runtime_id@),
        record.wire()->Sequence_0[11] == optional_text(opt(record.runtime_instance_id)),
        record.wire()->Sequence_0[12] == Wire::Flag(record.present),
        record.wire()->Sequence_0[13] == Wire::Flag(record.ready),
        record.wire()->Sequence_0[14] == record_list(record.dependencies@),
        record.wire()->Sequence_0[15] == record_list(record.disagreements@),
        record.wire()->Sequence_0[16] == Wire::Text(record.signer_identity_id@),
        record.wire()->Sequence_0[17] == Wire::Unsigned(record.publisher_sequence),
        record.wire()->Sequence_0[18] == Wire::Unsigned(record.observed_at_unix_millis),
        record.wire()->Sequence_0[19] == Wire::Text(record.signature_algorithm@),
        record.wire()->Sequence_0[20] == Wire::Binary(record.signature@),
{
}

/// Each field stands at its place.
pub proof fn gamecult_runtime_presence_health_record_fields_stand_in_this_order(record: GameCultRuntimePresenceHealthRecord)
    ensures
        record.wire() is Sequence,
        record.wire()->Sequence_0.len() == 24,
        record.wire()->Sequence_0[0] == Wire::Text(record.schema_version@),
        record.wire()->Sequence_0[1] == Wire::Text(record.target@),
        record.wire()->Sequence_0[2] == Wire::Text(record.expected_projection_sha256@),
        record.wire()->Sequence_0[3] == Wire::Text(record.plan_id@),
        record.wire()->Sequence_0[4] == Wire::Text(record.incarnation_id@),
        record.wire()->Sequence_0[5] == Wire::Text(record.sealed_release_id@),
        record.wire()->Sequence_0[6] == Wire::Text(record.activation_witness_sha256@),
        record.wire()->Sequence_0[7] == optional_text(opt(record.state_schema_generation)),
        record.wire()->Sequence_0[8] == optional_text(opt(record.state_contract_sha256)),
        record.wire()->Sequence_0[9] == Wire::Text(record.runtime_id@),
        record.wire()->Sequence_0[10] == Wire::Text(record.runtime_instance_id@),
        record.wire()->Sequence_0[11] == optional_text(opt(record.bound_endpoint)),
        record.wire()->Sequence_0[12] == record_list(record.capabilities@),
        record.wire()->Sequence_0[13] == Wire::Text(record.health_contract@),
        record.wire()->Sequence_0[14] == Wire::Text(record.state@),
        record.wire()->Sequence_0[15] == Wire::Text(record.detail@),
        record.wire()->Sequence_0[16] == optional_text(opt(record.write_lease_sha256)),
        record.wire()->Sequence_0[17] == Wire::Text(record.signer_identity_id@),
        record.wire()->Sequence_0[18] == Wire::Unsigned(record.publisher_sequence),
        record.wire()->Sequence_0[19] == Wire::Unsigned(record.observed_at_unix_millis),
        record.wire()->Sequence_0[20] == Wire::Text(record.signature_algorithm@),
        record.wire()->Sequence_0[21] == Wire::Binary(record.signature@),
        record.wire()->Sequence_0[22] == Wire::Text(record.activation_signer_identity_id@),
        record.wire()->Sequence_0[23] == Wire::Binary(record.activation_signature@),
{
}

/// Each field stands at its place.
pub proof fn idunn_process_write_lease_record_fields_stand_in_this_order(record: IdunnProcessWriteLeaseRecord)
    ensures
        record.wire() is Sequence,
        record.wire()->Sequence_0.len() == 14,
        record.wire()->Sequence_0[0] == Wire::Text(record.schema_version@),
        record.wire()->Sequence_0[1] == Wire::Text(record.target@),
        record.wire()->Sequence_0[2] == Wire::Text(record.expected_projection_sha256@),
        record.wire()->Sequence_0[3] == Wire::Text(record.plan_id@),
        record.wire()->Sequence_0[4] == Wire::Text(record.incarnation_id@),
        record.wire()->Sequence_0[5] == Wire::Text(record.sealed_release_id@),
        record.wire()->Sequence_0[6] == Wire::Text(record.activation_witness_sha256@),
        record.wire()->Sequence_0[7] == Wire::Text(record.state_schema_generation@),
        record.wire()->Sequence_0[8] == Wire::Text(record.state_contract_sha256@),
        record.wire()->Sequence_0[9] == Wire::Text(record.runtime_id@),
        record.wire()->Sequence_0[10] == Wire::Text(record.runtime_instance_id@),
        record.wire()->Sequence_0[11] == Wire::Text(record.warming_presence_sha256@),
        record.wire()->Sequence_0[12] == Wire::Unsigned(record.lease_epoch),
        record.wire()->Sequence_0[13] == Wire::Unsigned(record.issued_at_unix_millis),
{
}

/// Each field stands at its place.
pub proof fn idunn_runtime_activation_record_fields_stand_in_this_order(record: IdunnRuntimeActivationRecord)
    ensures
        record.wire() is Sequence,
        record.wire()->Sequence_0.len() == 10,
        record.wire()->Sequence_0[0] == Wire::Text(record.schema_version@),
        record.wire()->Sequence_0[1] == Wire::Text(record.expected_projection_sha256@),
        record.wire()->Sequence_0[2] == Wire::Text(record.runtime_id@),
        record.wire()->Sequence_0[3] == Wire::Text(record.runtime_instance_id@),
        record.wire()->Sequence_0[4] == Wire::Text(record.activation_signer_identity_id@),
        record.wire()->Sequence_0[5] == Wire::Binary(record.activation_signer_public_key@),
        record.wire()->Sequence_0[6] == Wire::Unsigned(record.issued_at_unix_millis),
        record.wire()->Sequence_0[7] == Wire::Text(record.idunn_signer_identity_id@),
        record.wire()->Sequence_0[8] == Wire::Text(record.signature_algorithm@),
        record.wire()->Sequence_0[9] == Wire::Binary(record.signature@),
{
}

/// Each field stands at its place.
pub proof fn idunn_deployment_brake_record_fields_stand_in_this_order(record: IdunnDeploymentBrakeRecord)
    ensures
        record.wire() is Sequence,
        record.wire()->Sequence_0.len() == 20,
        record.wire()->Sequence_0[0] == Wire::Text(record.schema_version@),
        record.wire()->Sequence_0[1] == Wire::Text(record.brake_id@),
        record.wire()->Sequence_0[2] == Wire::Text(record.authority@),
        record.wire()->Sequence_0[3] == Wire::Text(record.runtime_id@),
        record.wire()->Sequence_0[4] == Wire::Text(record.status@),
        record.wire()->Sequence_0[5] == Wire::Text(record.scope@),
        record.wire()->Sequence_0[6] == Wire::Text(record.reason@),
        record.wire()->Sequence_0[7] == Wire::Unsigned(record.observed_at_unix_millis),
        record.wire()->Sequence_0[8] == optional_number(record.expires_at_unix_millis),
        record.wire()->Sequence_0[9] == optional_text(opt(record.authorization_id)),
        record.wire()->Sequence_0[10] == optional_text(opt(record.authorization_purpose)),
        record.wire()->Sequence_0[11] == optional_text(opt(record.authorized_release_id)),
        record.wire()->Sequence_0[12] == optional_text(opt(record.authorized_deployment_id)),
        record.wire()->Sequence_0[13] == optional_text(opt(record.authorized_by)),
        record.wire()->Sequence_0[14] == optional_number(record.authorization_issued_at_unix_millis),
        record.wire()->Sequence_0[15] == optional_number(record.authorization_expires_at_unix_millis),
        record.wire()->Sequence_0[16] == optional_text(opt(record.signature_algorithm)),
        record.wire()->Sequence_0[17] == optional_byte_list(record.signature),
        record.wire()->Sequence_0[18] == Wire::Flag(record.private_state_exposed),
        record.wire()->Sequence_0[19] == Wire::Text(record.updated_by@),
{
}

/// Each field stands at its place.
pub proof fn idunn_lifecycle_brake_record_fields_stand_in_this_order(record: IdunnLifecycleBrakeRecord)
    ensures
        record.wire() is Sequence,
        record.wire()->Sequence_0.len() == 9,
        record.wire()->Sequence_0[0] == Wire::Text(record.schema_version@),
        record.wire()->Sequence_0[1] == Wire::Text(record.authority@),
        record.wire()->Sequence_0[2] == Wire::Text(record.runtime_id@),
        record.wire()->Sequence_0[3] == Wire::Text(record.target@),
        record.wire()->Sequence_0[4] == Wire::Text(record.scope@),
        record.wire()->Sequence_0[5] == Wire::Text(record.status@),
        record.wire()->Sequence_0[6] == Wire::Text(record.reason@),
        record.wire()->Sequence_0[7] == Wire::Unsigned(record.updated_at_unix_millis),
        record.wire()->Sequence_0[8] == optional_number(record.released_until_unix_millis),
{
}

/// Each field stands at its place.
pub proof fn idunn_signed_daemon_health_record_fields_stand_in_this_order(record: IdunnSignedDaemonHealthRecord)
    ensures
        record.wire() is Sequence,
        record.wire()->Sequence_0.len() == 17,
        record.wire()->Sequence_0[0] == Wire::Text(record.schema_version@),
        record.wire()->Sequence_0[1] == Wire::Text(record.daemon_id@),
        record.wire()->Sequence_0[2] == Wire::Text(record.health_contract@),
        record.wire()->Sequence_0[3] == Wire::Text(record.source_runtime_id@),
        record.wire()->Sequence_0[4] == Wire::Text(record.state@),
        record.wire()->Sequence_0[5] == Wire::Text(record.detail@),
        record.wire()->Sequence_0[6] == Wire::Text(record.signer_identity_id@),
        record.wire()->Sequence_0[7] == Wire::Text(record.publisher_incarnation_id@),
        record.wire()->Sequence_0[8] == Wire::Unsigned(record.publisher_sequence),
        record.wire()->Sequence_0[9] == Wire::Unsigned(record.observed_at_unix_millis),
        record.wire()->Sequence_0[10] == optional_text(opt(record.release_id)),
        record.wire()->Sequence_0[11] == optional_text(opt(record.release_witness_sha256)),
        record.wire()->Sequence_0[12] == optional_text(opt(record.source_commit)),
        record.wire()->Sequence_0[13] == optional_text(opt(record.deployment_id)),
        record.wire()->Sequence_0[14] == Wire::Text(record.signature_algorithm@),
        record.wire()->Sequence_0[15] == byte_list(record.signature@),
        record.wire()->Sequence_0[16] == Wire::Flag(record.private_state_exposed),
{
}

/// Each field stands at its place.
pub proof fn gamecult_service_trust_anchor_record_fields_stand_in_this_order(record: GameCultServiceTrustAnchorRecord)
    ensures
        record.wire() is Sequence,
        record.wire()->Sequence_0.len() == 13,
        record.wire()->Sequence_0[0] == Wire::Text(record.schema_version@),
        record.wire()->Sequence_0[1] == Wire::Text(record.trust_anchor_id@),
        record.wire()->Sequence_0[2] == Wire::Text(record.service_id@),
        record.wire()->Sequence_0[3] == Wire::Text(record.runtime_id@),
        record.wire()->Sequence_0[4] == Wire::Text(record.signer_identity_id@),
        record.wire()->Sequence_0[5] == byte_list(record.signer_public_key@),
        record.wire()->Sequence_0[6] == Wire::Text(record.signature_algorithm@),
        record.wire()->Sequence_0[7] == Wire::Text(record.signing_purpose@),
        record.wire()->Sequence_0[8] == Wire::Text(record.signed_schema@),
        record.wire()->Sequence_0[9] == Wire::Text(record.binding_authority@),
        record.wire()->Sequence_0[10] == Wire::Unsigned(record.bound_at_unix_millis),
        record.wire()->Sequence_0[11] == optional_number(record.expires_at_unix_millis),
        record.wire()->Sequence_0[12] == Wire::Flag(record.private_state_exposed),
{
}

/// Each field stands at its place.
pub proof fn idunn_authenticated_provider_health_projection_record_fields_stand_in_this_order(record: IdunnAuthenticatedProviderHealthProjectionRecord)
    ensures
        record.wire() is Sequence,
        record.wire()->Sequence_0.len() == 28,
        record.wire()->Sequence_0[0] == Wire::Text(record.schema_version@),
        record.wire()->Sequence_0[1] == Wire::Text(record.projection_id@),
        record.wire()->Sequence_0[2] == Wire::Text(record.daemon_id@),
        record.wire()->Sequence_0[3] == Wire::Text(record.health_contract@),
        record.wire()->Sequence_0[4] == Wire::Text(record.provider_state@),
        record.wire()->Sequence_0[5] == Wire::Text(record.reason_code@),
        record.wire()->Sequence_0[6] == Wire::Unsigned(record.provider_observed_at_unix_millis),
        record.wire()->Sequence_0[7] == Wire::Unsigned(record.admitted_at_unix_millis),
        record.wire()->Sequence_0[8] == Wire::Unsigned(record.evaluated_at_unix_millis),
        record.wire()->Sequence_0[9] == Wire::Text(record.trust_binding_id@),
        record.wire()->Sequence_0[10] == Wire::Text(record.trust_binding_sha256@),
        record.wire()->Sequence_0[11] == Wire::Text(record.signed_health_sha256@),
        record.wire()->Sequence_0[12] == Wire::Text(record.authenticated_admission_sha256@),
        record.wire()->Sequence_0[13] == Wire::Text(record.provider_signer_identity_id@),
        record.wire()->Sequence_0[14] == Wire::Text(record.provider_incarnation_id@),
        record.wire()->Sequence_0[15] == Wire::Unsigned(record.provider_sequence),
        record.wire()->Sequence_0[16] == optional_text(opt(record.release_id)),
        record.wire()->Sequence_0[17] == optional_text(opt(record.release_witness_sha256)),
        record.wire()->Sequence_0[18] == optional_text(opt(record.source_commit)),
        record.wire()->Sequence_0[19] == optional_text(opt(record.deployment_id)),
        record.wire()->Sequence_0[20] == Wire::Text(record.idunn_runtime_id@),
        record.wire()->Sequence_0[21] == Wire::Text(record.idunn_signer_identity_id@),
        record.wire()->Sequence_0[22] == Wire::Text(record.projection_incarnation_id@),
        record.wire()->Sequence_0[23] == Wire::Unsigned(record.projection_sequence),
        record.wire()->Sequence_0[24] == Wire::Text(record.signature_algorithm@),
        record.wire()->Sequence_0[25] == byte_list(record.signature@),
        record.wire()->Sequence_0[26] == Wire::Flag(record.private_state_exposed),
        record.wire()->Sequence_0[27] == Wire::Unsigned(record.expires_at_unix_millis),
{
}

/// What is signed of a record is the record with its signatures emptied, and all else as it
/// is.
pub proof fn what_is_signed_is_all_but_the_signatures(
    receipt: OdinRuntimeTopologyCorrelationRecord,
    presence: GameCultRuntimePresenceHealthRecord,
    activation: IdunnRuntimeActivationRecord,
    brake: IdunnDeploymentBrakeRecord,
)
    ensures
        receipt.unsigned_wire()->Sequence_0.len() == 21,
        forall|i: int|
            0 <= i < 20 ==> receipt.unsigned_wire()->Sequence_0[i] == #[trigger] receipt.wire()->Sequence_0[i],
        receipt.unsigned_wire()->Sequence_0[20] == Wire::Binary(Seq::empty()),
        presence.proof_wire()->Sequence_0.len() == 24,
        forall|i: int|
            0 <= i < 24 && i != 21 && i != 23 ==> presence.proof_wire()->Sequence_0[i]
                == #[trigger] presence.wire()->Sequence_0[i],
        presence.proof_wire()->Sequence_0[21] == Wire::Binary(Seq::empty()),
        presence.proof_wire()->Sequence_0[23] == Wire::Binary(Seq::empty()),
        activation.unsigned_wire()->Sequence_0.len() == 10,
        forall|i: int|
            0 <= i < 9 ==> activation.unsigned_wire()->Sequence_0[i] == #[trigger] activation.wire()->Sequence_0[i],
        activation.unsigned_wire()->Sequence_0[9] == Wire::Binary(Seq::empty()),
        brake.unsigned_wire()->Sequence_0.len() == 20,
        forall|i: int|
            0 <= i < 20 && i != 17 ==> brake.unsigned_wire()->Sequence_0[i] == #[trigger] brake.wire()->Sequence_0[i],
        brake.unsigned_wire()->Sequence_0[17] == Wire::Nil,
{
}

/// What is not there is nil, bytes are a list of their numbers, and a list of records is the
/// list of their forms.
pub proof fn parts_have_these_forms<R: Record>(
    text: Option<Seq<char>>,
    number: Option<u64>,
    small: Option<u32>,
    bytes: Seq<u8>,
    list: Option<Vec<u8>>,
    record: Option<R>,
    records: Seq<R>,
)
    ensures
        text is None ==> optional_text(text) == Wire::Nil,
        text matches Some(found) ==> optional_text(text) == Wire::Text(found),
        number is None ==> optional_number(number) == Wire::Nil,
        number matches Some(found) ==> optional_number(number) == Wire::Unsigned(found),
        small is None ==> optional_small(small) == Wire::Nil,
        small matches Some(found) ==> optional_small(small) == Wire::Unsigned(found as u64),
        byte_list(bytes) is Sequence,
        byte_list(bytes)->Sequence_0.len() == bytes.len(),
        forall|i: int| 0 <= i < bytes.len() ==> #[trigger] byte_list(bytes)->Sequence_0[i] == Wire::Unsigned(bytes[i] as u64),
        list is None ==> optional_byte_list(list) == Wire::Nil,
        list matches Some(found) ==> optional_byte_list(list) == byte_list(found@),
        record is None ==> optional_record(record) == Wire::Nil,
        record matches Some(found) ==> optional_record(record) == found.wire(),
        record_list(records) is Sequence,
        record_list(records)->Sequence_0.len() == records.len(),
        forall|i: int| 0 <= i < records.len() ==> record_list(records)->Sequence_0[i] == (#[trigger] records[i]).wire(),
{
}

}

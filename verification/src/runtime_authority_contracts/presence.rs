//! What a provider states of one exact launch of a runtime.
use vstd::prelude::*;
use super::capability::{
    runtime_capabilities_violation, validate_runtime_capabilities, GameCultRuntimeCapability,
    MAX_RUNTIME_CAPABILITIES,
};
use super::expected::{check_state_lineage, state_lineage_violation, ENDPOINT_LIMIT};
use super::GAMECULT_RUNTIME_PRESENCE_HEALTH_SCHEMA;
use crate::error::{ensure, reports, CultNetError};
use crate::provider_health_contracts::{is_provider_state, provider_state};
use crate::text::byte_length_is_bounded;
use crate::record::{
    accepted_list_is_sorted, binary_field, canonical_digest, canonical_record_sha256, number_field,
    optional_text, optional_text_field, read_binary, read_items, read_number, read_optional_text,
    read_record_list, read_text, record_list, record_list_field, record_list_is_carried,
    record_list_is_plain, same_lists_same_violation, same_record_lists, sequence_field,
    sha256_reference_is_short, text_field, with_field, CanonicalRecord, Record,
};
use crate::rules::{
    authority_violation, check_authority, check_optional_bounded, check_optional_sha256,
    check_sha256, optional_bounded_violation, optional_sha256_violation, sha256_violation,
};
use crate::text::{byte_length, contains_control, has_control, opt, same_text, sha256_reference};
use crate::wire::{
    carried, encode_messagepack, messagepack_encoding, plain, plain_with_field, trees, Wire,
    WireValue,
};

verus! {

/// Dual-proved claim from one exact runtime launch. The stable provider key and
/// Idunn's activation-scoped ephemeral key both sign `canonical_proof_payload`:
/// the canonical positional encoding of this complete record with both proof
/// byte fields empty. Present authority requires a matching Idunn-published
/// current activation; neither proof can establish admission by itself.
#[derive(Clone, Debug, PartialEq, Eq)]
pub struct GameCultRuntimePresenceHealthRecord {
    pub schema_version: String,
    pub target: String,
    pub expected_projection_sha256: String,
    pub plan_id: String,
    pub incarnation_id: String,
    pub sealed_release_id: String,
    pub activation_witness_sha256: String,
    pub state_schema_generation: Option<String>,
    pub state_contract_sha256: Option<String>,
    pub runtime_id: String,
    pub runtime_instance_id: String,
    pub bound_endpoint: Option<String>,
    pub capabilities: Vec<GameCultRuntimeCapability>,
    pub health_contract: String,
    pub state: String,
    pub detail: String,
    pub write_lease_sha256: Option<String>,
    pub signer_identity_id: String,
    pub publisher_sequence: u64,
    pub observed_at_unix_millis: u64,
    pub signature_algorithm: String,
    pub signature: Vec<u8>,
    pub activation_signer_identity_id: String,
    pub activation_signature: Vec<u8>,
}

impl Record for GameCultRuntimePresenceHealthRecord {
    open spec fn wire(self) -> Wire {
        Wire::Sequence(
            seq![
                Wire::Text(self.schema_version@),
                Wire::Text(self.target@),
                Wire::Text(self.expected_projection_sha256@),
                Wire::Text(self.plan_id@),
                Wire::Text(self.incarnation_id@),
                Wire::Text(self.sealed_release_id@),
                Wire::Text(self.activation_witness_sha256@),
                optional_text(opt(self.state_schema_generation)),
                optional_text(opt(self.state_contract_sha256)),
                Wire::Text(self.runtime_id@),
                Wire::Text(self.runtime_instance_id@),
                optional_text(opt(self.bound_endpoint)),
                record_list(self.capabilities@),
                Wire::Text(self.health_contract@),
                Wire::Text(self.state@),
                Wire::Text(self.detail@),
                optional_text(opt(self.write_lease_sha256)),
                Wire::Text(self.signer_identity_id@),
                Wire::Unsigned(self.publisher_sequence),
                Wire::Unsigned(self.observed_at_unix_millis),
                Wire::Text(self.signature_algorithm@),
                Wire::Binary(self.signature@),
                Wire::Text(self.activation_signer_identity_id@),
                Wire::Binary(self.activation_signature@),
            ],
        )
    }

    open spec fn width() -> nat {
        24
    }

    open spec fn depth() -> nat {
        3
    }

    open spec fn violation(self) -> Option<Seq<char>> {
        self.shape_violation(false)
    }

    proof fn shape(self) {
        let fields = self.wire()->Sequence_0;
        record_list_is_plain(self.capabilities@);
        assert forall|i: int| 0 <= i < fields.len() implies plain(#[trigger] fields[i]) by {}
    }

    #[verifier::rlimit(60)]
    proof fn valid_is_carried(self) {
        reveal(GameCultRuntimePresenceHealthRecord::shape_violation);
        broadcast use sha256_reference_is_short;

        byte_length_is_bounded(self.schema_version@);
        reveal_strlit("gamecult.runtime_presence_health.v2");
        byte_length_is_bounded(self.state@);
        reveal_strlit("active");
        reveal_strlit("warming");
        reveal_strlit("degraded");
        reveal_strlit("failed");
        byte_length_is_bounded(self.signature_algorithm@);
        reveal_strlit("ed25519");
        accepted_list_is_sorted(
            self.capabilities@,
            MAX_RUNTIME_CAPABILITIES as int,
            "runtime presence capability count exceeds its contract bound"@,
            "runtime capabilities are not strictly sorted and unique"@,
        );
        let fields = self.wire()->Sequence_0;
        record_list_is_carried(self.capabilities@);
        assert forall|i: int| 0 <= i < fields.len() implies carried(#[trigger] fields[i], 2) by {}
    }

    proof fn wire_decides(self, other: Self) {
        let (a, b) = (self.wire()->Sequence_0, other.wire()->Sequence_0);
        assert(a[0] == b[0] && a[1] == b[1] && a[2] == b[2] && a[3] == b[3] && a[4] == b[4] && a[5] == b[5]);
        assert(a[6] == b[6] && a[7] == b[7] && a[8] == b[8] && a[9] == b[9] && a[10] == b[10] && a[11] == b[11]);
        assert(a[12] == b[12] && a[13] == b[13] && a[14] == b[14] && a[15] == b[15] && a[16] == b[16] && a[17] == b[17]);
        assert(a[18] == b[18] && a[19] == b[19] && a[20] == b[20] && a[21] == b[21] && a[22] == b[22] && a[23] == b[23]);
        same_record_lists(self.capabilities@, other.capabilities@);
        same_lists_same_violation(
            self.capabilities@,
            other.capabilities@,
            MAX_RUNTIME_CAPABILITIES as int,
            "runtime presence capability count exceeds its contract bound"@,
            "runtime capabilities are not strictly sorted and unique"@,
        );
        reveal(GameCultRuntimePresenceHealthRecord::shape_violation);
    }

    fn to_wire(&self) -> (field: WireValue) {
        let field = sequence_field(
            vec![
                text_field(&self.schema_version),
                text_field(&self.target),
                text_field(&self.expected_projection_sha256),
                text_field(&self.plan_id),
                text_field(&self.incarnation_id),
                text_field(&self.sealed_release_id),
                text_field(&self.activation_witness_sha256),
                optional_text_field(&self.state_schema_generation),
                optional_text_field(&self.state_contract_sha256),
                text_field(&self.runtime_id),
                text_field(&self.runtime_instance_id),
                optional_text_field(&self.bound_endpoint),
                record_list_field(&self.capabilities),
                text_field(&self.health_contract),
                text_field(&self.state),
                text_field(&self.detail),
                optional_text_field(&self.write_lease_sha256),
                text_field(&self.signer_identity_id),
                number_field(self.publisher_sequence),
                number_field(self.observed_at_unix_millis),
                text_field(&self.signature_algorithm),
                binary_field(&self.signature),
                text_field(&self.activation_signer_identity_id),
                binary_field(&self.activation_signature),
            ],
        );
        assert(field@->Sequence_0 =~= self.wire()->Sequence_0);
        field
    }

    fn from_wire(field: &WireValue) -> (record: Option<Self>) {
        let items = match read_items(field, 24) {
            Some(found) => found,
            None => {
                return None;
            },
        };
        let ghost all = trees(items@);
        assert forall|any: Self| #[trigger] any.wire() == field@ implies {
            &&& all[0] is Text
            &&& all[1] is Text
            &&& all[2] is Text
            &&& all[3] is Text
            &&& all[4] is Text
            &&& all[5] is Text
            &&& all[6] is Text
            &&& all[7] is Text || all[7] is Nil
            &&& all[8] is Text || all[8] is Nil
            &&& all[9] is Text
            &&& all[10] is Text
            &&& all[11] is Text || all[11] is Nil
            &&& all[12] == record_list(any.capabilities@)
            &&& all[13] is Text
            &&& all[14] is Text
            &&& all[15] is Text
            &&& all[16] is Text || all[16] is Nil
            &&& all[17] is Text
            &&& all[18] is Unsigned
            &&& all[19] is Unsigned
            &&& all[20] is Text
            &&& all[21] is Binary
            &&& all[22] is Text
            &&& all[23] is Binary
        } by {
            assert(any.wire()->Sequence_0 == all);
        }
        let record = GameCultRuntimePresenceHealthRecord {
            schema_version: read_text(&items[0])?,
            target: read_text(&items[1])?,
            expected_projection_sha256: read_text(&items[2])?,
            plan_id: read_text(&items[3])?,
            incarnation_id: read_text(&items[4])?,
            sealed_release_id: read_text(&items[5])?,
            activation_witness_sha256: read_text(&items[6])?,
            state_schema_generation: read_optional_text(&items[7])?,
            state_contract_sha256: read_optional_text(&items[8])?,
            runtime_id: read_text(&items[9])?,
            runtime_instance_id: read_text(&items[10])?,
            bound_endpoint: read_optional_text(&items[11])?,
            capabilities: read_record_list(&items[12])?,
            health_contract: read_text(&items[13])?,
            state: read_text(&items[14])?,
            detail: read_text(&items[15])?,
            write_lease_sha256: read_optional_text(&items[16])?,
            signer_identity_id: read_text(&items[17])?,
            publisher_sequence: read_number(&items[18])?,
            observed_at_unix_millis: read_number(&items[19])?,
            signature_algorithm: read_text(&items[20])?,
            signature: read_binary(&items[21])?,
            activation_signer_identity_id: read_text(&items[22])?,
            activation_signature: read_binary(&items[23])?,
        };
        assert(record.wire()->Sequence_0 =~= all);
        Some(record)
    }

    fn check(&self) -> (outcome: Result<(), CultNetError>) {
        self.validate()
    }
}

impl CanonicalRecord for GameCultRuntimePresenceHealthRecord {
    const WIDTH_REFUSAL: &'static str = "runtime presence payload is not the 24-field positional contract";

    const MALFORMED_REFUSAL: &'static str = "decoding runtime presence health";

    const NONCANONICAL_REFUSAL: &'static str =
        "runtime presence payload is not canonical positional MessagePack";

    const RULES_FIRST: bool = false;
}

impl GameCultRuntimePresenceHealthRecord {
    /// State, sequence, time, detail and both signatures are as a statement has them;
    /// a statement that is still to be signed may lack the signatures.
    pub open spec fn statement_is_valid(self, allow_unsigned: bool) -> bool {
        &&& self.publisher_sequence != 0
        &&& self.observed_at_unix_millis != 0
        &&& provider_state(self.state@)
        &&& byte_length(self.detail@) <= 512
        &&& !has_control(self.detail@)
        &&& self.signature_algorithm@ == "ed25519"@
        &&& self.signature@.len() == 64 || (allow_unsigned && self.signature@.len() == 0)
        &&& self.activation_signature@.len() == 64 || (allow_unsigned && self.activation_signature@.len() == 0)
    }

    /// Why the record is refused, if it is.
    #[verifier::opaque]
    pub open spec fn shape_violation(self, allow_unsigned: bool) -> Option<Seq<char>> {
        if self.schema_version@ != GAMECULT_RUNTIME_PRESENCE_HEALTH_SCHEMA@ {
            Some("runtime presence schema is unsupported"@)
        } else if authority_violation(self.target@, "target"@) is Some {
            authority_violation(self.target@, "target"@)
        } else if sha256_violation(self.expected_projection_sha256@, "expected projection sha256"@) is Some {
            sha256_violation(self.expected_projection_sha256@, "expected projection sha256"@)
        } else if sha256_violation(self.plan_id@, "plan id"@) is Some {
            sha256_violation(self.plan_id@, "plan id"@)
        } else if authority_violation(self.incarnation_id@, "incarnation id"@) is Some {
            authority_violation(self.incarnation_id@, "incarnation id"@)
        } else if sha256_violation(self.sealed_release_id@, "sealed release id"@) is Some {
            sha256_violation(self.sealed_release_id@, "sealed release id"@)
        } else if sha256_violation(self.activation_witness_sha256@, "activation witness sha256"@) is Some {
            sha256_violation(self.activation_witness_sha256@, "activation witness sha256"@)
        } else if state_lineage_violation(opt(self.state_schema_generation), opt(self.state_contract_sha256), "runtime presence state lineage is partial"@) is Some {
            state_lineage_violation(opt(self.state_schema_generation), opt(self.state_contract_sha256), "runtime presence state lineage is partial"@)
        } else if authority_violation(self.runtime_id@, "runtime id"@) is Some {
            authority_violation(self.runtime_id@, "runtime id"@)
        } else if sha256_violation(self.runtime_instance_id@, "runtime instance id"@) is Some {
            sha256_violation(self.runtime_instance_id@, "runtime instance id"@)
        } else if optional_bounded_violation(opt(self.bound_endpoint), ENDPOINT_LIMIT as int, "bound endpoint"@) is Some {
            optional_bounded_violation(opt(self.bound_endpoint), ENDPOINT_LIMIT as int, "bound endpoint"@)
        } else if runtime_capabilities_violation(self.capabilities@) is Some {
            runtime_capabilities_violation(self.capabilities@)
        } else if authority_violation(self.health_contract@, "health contract"@) is Some {
            authority_violation(self.health_contract@, "health contract"@)
        } else if authority_violation(self.signer_identity_id@, "signer identity id"@) is Some {
            authority_violation(self.signer_identity_id@, "signer identity id"@)
        } else if authority_violation(self.activation_signer_identity_id@, "activation signer identity id"@) is Some {
            authority_violation(self.activation_signer_identity_id@, "activation signer identity id"@)
        } else if optional_sha256_violation(opt(self.write_lease_sha256), "write lease sha256"@) is Some {
            optional_sha256_violation(opt(self.write_lease_sha256), "write lease sha256"@)
        } else if !self.statement_is_valid(allow_unsigned) {
            Some("runtime presence state, sequence, detail, or signature is invalid"@)
        } else if self.state@ == "warming"@ && self.write_lease_sha256 is Some {
            Some("warming runtime presence cannot claim a process write lease"@)
        } else if self.state_schema_generation is None && self.write_lease_sha256 is Some {
            Some("stateless runtime presence cannot claim a process write lease"@)
        } else {
            None
        }
    }

    /// A signed record that meets its rules meets them without its signatures.
    pub proof fn signed_is_well_shaped(self)
        requires
            self.violation() is None,
        ensures
            self.shape_violation(true) is None,
    {
        reveal(GameCultRuntimePresenceHealthRecord::shape_violation);
    }

    /// The positional form with both signatures empty: what both keys sign.
    pub open spec fn proof_wire(self) -> Wire {
        Wire::Sequence(
            self.wire()->Sequence_0.update(21, Wire::Binary(Seq::empty())).update(
                23,
                Wire::Binary(Seq::empty()),
            ),
        )
    }

    /// Return the one canonical payload covered by both the stable provider
    /// signature and the activation-scoped proof. Both signature fields are
    /// empty in these bytes, avoiding circular signatures while binding every
    /// authority-bearing statement field and both signer identities.
    pub fn canonical_proof_payload(&self) -> (outcome: Result<Vec<u8>, CultNetError>)
        ensures
            reports(outcome, self.shape_violation(true)),
            outcome matches Ok(bytes) ==> bytes@ == messagepack_encoding(self.proof_wire()),
    {
        self.validate_shape(true)?;
        let empty: Vec<u8> = Vec::new();
        let without_signature = with_field(self.to_wire(), 21, binary_field(&empty));
        let unsigned = with_field(without_signature, 23, binary_field(&empty));
        assert(empty@ =~= Seq::empty());
        proof {
            self.shape();
            let none = Wire::Binary(Seq::empty());
            plain_with_field(self.wire(), 21, none);
            plain_with_field(Wire::Sequence(self.wire()->Sequence_0.update(21, none)), 23, none);
        }
        Ok(encode_messagepack(&unsigned))
    }

    /// Digest the complete signed presence record for an Odin correlation
    /// receipt. An unsigned construction value is deliberately not digestible.
    pub fn canonical_sha256(&self) -> (outcome: Result<String, CultNetError>)
        ensures
            reports(outcome, self.violation()),
            outcome matches Ok(digest) ==> digest@ == canonical_digest(*self) && sha256_reference(digest@),
    {
        canonical_record_sha256(self)
    }

    pub fn validate(&self) -> (outcome: Result<(), CultNetError>)
        ensures
            reports(outcome, self.violation()),
    {
        self.validate_shape(false)
    }

    fn validate_shape(&self, allow_unsigned: bool) -> (outcome: Result<(), CultNetError>)
        ensures
            reports(outcome, self.shape_violation(allow_unsigned)),
    {
        reveal(GameCultRuntimePresenceHealthRecord::shape_violation);
        ensure(
            same_text(&self.schema_version, GAMECULT_RUNTIME_PRESENCE_HEALTH_SCHEMA),
            "runtime presence schema is unsupported",
        )?;
        check_authority(&self.target, "target")?;
        check_sha256(&self.expected_projection_sha256, "expected projection sha256")?;
        check_sha256(&self.plan_id, "plan id")?;
        check_authority(&self.incarnation_id, "incarnation id")?;
        check_sha256(&self.sealed_release_id, "sealed release id")?;
        check_sha256(&self.activation_witness_sha256, "activation witness sha256")?;
        check_state_lineage(
            &self.state_schema_generation,
            &self.state_contract_sha256,
            "runtime presence state lineage is partial",
        )?;
        check_authority(&self.runtime_id, "runtime id")?;
        check_sha256(&self.runtime_instance_id, "runtime instance id")?;
        check_optional_bounded(&self.bound_endpoint, ENDPOINT_LIMIT, "bound endpoint")?;
        validate_runtime_capabilities(&self.capabilities)?;
        check_authority(&self.health_contract, "health contract")?;
        check_authority(&self.signer_identity_id, "signer identity id")?;
        check_authority(&self.activation_signer_identity_id, "activation signer identity id")?;
        check_optional_sha256(&self.write_lease_sha256, "write lease sha256")?;
        let signature_is_valid = self.signature.len() == 64 || (allow_unsigned && self.signature.len() == 0);
        let activation_signature_is_valid = self.activation_signature.len() == 64 || (allow_unsigned
            && self.activation_signature.len() == 0);
        ensure(
            self.publisher_sequence != 0 && self.observed_at_unix_millis != 0 && is_provider_state(&self.state)
                && self.detail.as_str().as_bytes().len() <= 512 && !contains_control(&self.detail) && same_text(
                &self.signature_algorithm,
                "ed25519",
            ) && signature_is_valid && activation_signature_is_valid,
            "runtime presence state, sequence, detail, or signature is invalid",
        )?;
        ensure(
            !(same_text(&self.state, "warming") && self.write_lease_sha256.is_some()),
            "warming runtime presence cannot claim a process write lease",
        )?;
        ensure(
            !(self.state_schema_generation.is_none() && self.write_lease_sha256.is_some()),
            "stateless runtime presence cannot claim a process write lease",
        )
    }
}

/// The bytes that both keys sign do not depend on the signatures.
pub proof fn the_proof_payload_leaves_the_signatures_out(
    a: GameCultRuntimePresenceHealthRecord,
    b: GameCultRuntimePresenceHealthRecord,
)
    requires
        forall|i: int| 0 <= i < 24 && i != 21 && i != 23 ==> #[trigger] a.wire()->Sequence_0[i] == b.wire()->Sequence_0[i],
    ensures
        a.proof_wire() == b.proof_wire(),
{
    assert(a.proof_wire()->Sequence_0 =~= b.proof_wire()->Sequence_0);
}

}

//! The lease by which Idunn lets one process incarnation write its state.
use vstd::prelude::*;
use super::IDUNN_PROCESS_WRITE_LEASE_SCHEMA;
use crate::error::{ensure, reports, CultNetError};
use crate::text::byte_length_is_bounded;
use crate::record::{
    canonical_digest, canonical_record_bytes, canonical_record_sha256, decode_canonical_record,
    decoded_canonically, number_field, read_items, read_number, read_text, sequence_field,
    sha256_reference_is_short, text_field, CanonicalRecord, Record,
};
use crate::rules::{authority_violation, check_authority, check_sha256, sha256_violation};
use crate::text::{same_text, sha256_reference};
use crate::wire::{carried, messagepack_encoding, plain, trees, Wire, WireValue};

verus! {

/// Unsigned Idunn-owned local file that grants one exact process incarnation
/// state-write authority. It is authoritative only when read through the
/// root-owned admitted path and lock protocol; its bytes carry no route or
/// traffic authority.
#[derive(Clone, Debug, PartialEq, Eq)]
pub struct IdunnProcessWriteLeaseRecord {
    pub schema_version: String,
    pub target: String,
    pub expected_projection_sha256: String,
    pub plan_id: String,
    pub incarnation_id: String,
    pub sealed_release_id: String,
    pub activation_witness_sha256: String,
    pub state_schema_generation: String,
    pub state_contract_sha256: String,
    pub runtime_id: String,
    pub runtime_instance_id: String,
    pub warming_presence_sha256: String,
    pub lease_epoch: u64,
    pub issued_at_unix_millis: u64,
}

impl Record for IdunnProcessWriteLeaseRecord {
    open spec fn wire(self) -> Wire {
        Wire::Sequence(
            seq![
                Wire::Text(self.schema_version@),
                Wire::Text(self.target@),
                Wire::Text(self.expected_projection_sha256@),
                Wire::Text(self.plan_id@),
                Wire::Text(self.incarnation_id@),
                Wire::Text(self.sealed_release_id@),
                Wire::Text(self.activation_witness_sha256@),
                Wire::Text(self.state_schema_generation@),
                Wire::Text(self.state_contract_sha256@),
                Wire::Text(self.runtime_id@),
                Wire::Text(self.runtime_instance_id@),
                Wire::Text(self.warming_presence_sha256@),
                Wire::Unsigned(self.lease_epoch),
                Wire::Unsigned(self.issued_at_unix_millis),
            ],
        )
    }

    open spec fn width() -> nat {
        14
    }

    open spec fn depth() -> nat {
        1
    }

    open spec fn violation(self) -> Option<Seq<char>> {
        if self.schema_version@ != IDUNN_PROCESS_WRITE_LEASE_SCHEMA@ {
            Some("process write lease schema is unsupported"@)
        } else if authority_violation(self.target@, "target"@) is Some {
            authority_violation(self.target@, "target"@)
        } else if sha256_violation(self.expected_projection_sha256@, "lease expected projection sha256"@) is Some {
            sha256_violation(self.expected_projection_sha256@, "lease expected projection sha256"@)
        } else if sha256_violation(self.plan_id@, "plan id"@) is Some {
            sha256_violation(self.plan_id@, "plan id"@)
        } else if authority_violation(self.incarnation_id@, "incarnation id"@) is Some {
            authority_violation(self.incarnation_id@, "incarnation id"@)
        } else if sha256_violation(self.sealed_release_id@, "sealed release id"@) is Some {
            sha256_violation(self.sealed_release_id@, "sealed release id"@)
        } else if sha256_violation(self.activation_witness_sha256@, "activation witness sha256"@) is Some {
            sha256_violation(self.activation_witness_sha256@, "activation witness sha256"@)
        } else if authority_violation(self.state_schema_generation@, "state schema generation"@) is Some {
            authority_violation(self.state_schema_generation@, "state schema generation"@)
        } else if sha256_violation(self.state_contract_sha256@, "state contract sha256"@) is Some {
            sha256_violation(self.state_contract_sha256@, "state contract sha256"@)
        } else if authority_violation(self.runtime_id@, "runtime id"@) is Some {
            authority_violation(self.runtime_id@, "runtime id"@)
        } else if sha256_violation(self.runtime_instance_id@, "runtime instance id"@) is Some {
            sha256_violation(self.runtime_instance_id@, "runtime instance id"@)
        } else if sha256_violation(self.warming_presence_sha256@, "warming presence sha256"@) is Some {
            sha256_violation(self.warming_presence_sha256@, "warming presence sha256"@)
        } else if self.lease_epoch == 0 || self.issued_at_unix_millis == 0 {
            Some("process write lease epoch or issue time is invalid"@)
        } else {
            None
        }
    }

    proof fn shape(self) {
        let fields = self.wire()->Sequence_0;
        assert forall|i: int| 0 <= i < fields.len() implies plain(#[trigger] fields[i]) by {}
    }

    #[verifier::rlimit(60)]
    proof fn valid_is_carried(self) {
        broadcast use sha256_reference_is_short;

        byte_length_is_bounded(self.schema_version@);
        reveal_strlit("idunn.process_write_lease.v1");
        let fields = self.wire()->Sequence_0;
        assert forall|i: int| 0 <= i < fields.len() implies carried(#[trigger] fields[i], 0) by {}
    }

    proof fn wire_decides(self, other: Self) {
        let (a, b) = (self.wire()->Sequence_0, other.wire()->Sequence_0);
        assert(a[0] == b[0] && a[1] == b[1] && a[2] == b[2] && a[3] == b[3] && a[4] == b[4] && a[5] == b[5]);
        assert(a[6] == b[6] && a[7] == b[7] && a[8] == b[8] && a[9] == b[9] && a[10] == b[10] && a[11] == b[11]);
        assert(a[12] == b[12] && a[13] == b[13]);
    }

    fn to_wire(&self) -> (field: WireValue) {
        let field = sequence_field(
            vec![
                text_field(&self.schema_version),
                text_field(&self.target),
                text_field(&self.expected_projection_sha256),
                text_field(&self.plan_id),
                text_field(&self.incarnation_id),
                text_field(&self.sealed_release_id),
                text_field(&self.activation_witness_sha256),
                text_field(&self.state_schema_generation),
                text_field(&self.state_contract_sha256),
                text_field(&self.runtime_id),
                text_field(&self.runtime_instance_id),
                text_field(&self.warming_presence_sha256),
                number_field(self.lease_epoch),
                number_field(self.issued_at_unix_millis),
            ],
        );
        assert(field@->Sequence_0 =~= self.wire()->Sequence_0);
        field
    }

    fn from_wire(field: &WireValue) -> (record: Option<Self>) {
        let items = match read_items(field, 14) {
            Some(found) => found,
            None => {
                return None;
            },
        };
        let ghost all = trees(items@);
        assert forall|any: Self| #[trigger] any.wire() == field@ implies {
            &&& all[0] is Text
            &&& all[1] is Text
            &&& all[2] is Text
            &&& all[3] is Text
            &&& all[4] is Text
            &&& all[5] is Text
            &&& all[6] is Text
            &&& all[7] is Text
            &&& all[8] is Text
            &&& all[9] is Text
            &&& all[10] is Text
            &&& all[11] is Text
            &&& all[12] is Unsigned
            &&& all[13] is Unsigned
        } by {
            assert(any.wire()->Sequence_0 == all);
        }
        let record = IdunnProcessWriteLeaseRecord {
            schema_version: read_text(&items[0])?,
            target: read_text(&items[1])?,
            expected_projection_sha256: read_text(&items[2])?,
            plan_id: read_text(&items[3])?,
            incarnation_id: read_text(&items[4])?,
            sealed_release_id: read_text(&items[5])?,
            activation_witness_sha256: read_text(&items[6])?,
            state_schema_generation: read_text(&items[7])?,
            state_contract_sha256: read_text(&items[8])?,
            runtime_id: read_text(&items[9])?,
            runtime_instance_id: read_text(&items[10])?,
            warming_presence_sha256: read_text(&items[11])?,
            lease_epoch: read_number(&items[12])?,
            issued_at_unix_millis: read_number(&items[13])?,
        };
        assert(record.wire()->Sequence_0 =~= all);
        Some(record)
    }

    fn check(&self) -> (outcome: Result<(), CultNetError>) {
        self.validate()
    }
}

impl CanonicalRecord for IdunnProcessWriteLeaseRecord {
    const WIDTH_REFUSAL: &'static str = "process write lease is not the 14-field positional contract";

    const MALFORMED_REFUSAL: &'static str = "decoding process write lease";

    const NONCANONICAL_REFUSAL: &'static str = "process write lease is not canonical positional MessagePack";

    const RULES_FIRST: bool = false;
}

impl IdunnProcessWriteLeaseRecord {
    pub fn decode_canonical(payload: &[u8]) -> (outcome: Result<Self, CultNetError>)
        ensures
            decoded_canonically(payload@, outcome),
    {
        decode_canonical_record(payload, 14)
    }

    pub fn canonical_bytes(&self) -> (outcome: Result<Vec<u8>, CultNetError>)
        ensures
            reports(outcome, self.violation()),
            outcome matches Ok(bytes) ==> bytes@ == messagepack_encoding(self.wire()),
    {
        canonical_record_bytes(self)
    }

    pub fn canonical_sha256(&self) -> (outcome: Result<String, CultNetError>)
        ensures
            reports(outcome, self.violation()),
            outcome matches Ok(digest) ==> digest@ == canonical_digest(*self) && sha256_reference(digest@),
    {
        canonical_record_sha256(self)
    }

    pub fn validate(&self) -> (outcome: Result<(), CultNetError>)
        ensures
            reports(outcome, self.violation()),
    {
        ensure(
            same_text(&self.schema_version, IDUNN_PROCESS_WRITE_LEASE_SCHEMA),
            "process write lease schema is unsupported",
        )?;
        check_authority(&self.target, "target")?;
        check_sha256(&self.expected_projection_sha256, "lease expected projection sha256")?;
        check_sha256(&self.plan_id, "plan id")?;
        check_authority(&self.incarnation_id, "incarnation id")?;
        check_sha256(&self.sealed_release_id, "sealed release id")?;
        check_sha256(&self.activation_witness_sha256, "activation witness sha256")?;
        check_authority(&self.state_schema_generation, "state schema generation")?;
        check_sha256(&self.state_contract_sha256, "state contract sha256")?;
        check_authority(&self.runtime_id, "runtime id")?;
        check_sha256(&self.runtime_instance_id, "runtime instance id")?;
        check_sha256(&self.warming_presence_sha256, "warming presence sha256")?;
        ensure(
            self.lease_epoch != 0 && self.issued_at_unix_millis != 0,
            "process write lease epoch or issue time is invalid",
        )
    }
}

}

//! Idunn's lifecycle brake: whether one already admitted target may be restarted to
//! keep it alive.
use vstd::prelude::*;
use crate::error::{ensure, reports, CultNetError};
use crate::record::{
    CanonicalRecord, canonical_record_bytes, decode_canonical_record, decoded_canonically,
    number_field, optional_number, optional_number_field, read_items, read_number,
    read_optional_number, read_text, sequence_field, text_field, Record,
};
use crate::rules::{check_identifier, identifier_violation};
use crate::text::{byte_length_is_bounded, same_text};
use crate::wire::{carried, messagepack_encoding, plain, trees, Wire, WireValue};

verus! {

pub const IDUNN_LIFECYCLE_BRAKE_SCHEMA: &'static str = "idunn.lifecycle_brake.v1";

pub const IDUNN_LIFECYCLE_BRAKE_TYPE: &'static str = "idunn.lifecycle_brake";

pub const IDUNN_LIFECYCLE_BRAKE_AUTHORITY: &'static str = "idunn.root";

pub const IDUNN_LIFECYCLE_BRAKE_SCOPE: &'static str = "continuity-restart";

/// Root-owned, per-target continuity brake. This document has no authority over
/// Idunn startup, deployment, route admission, or any target other than the one
/// named in `target`.
#[derive(Clone, Debug, PartialEq, Eq)]
pub struct IdunnLifecycleBrakeRecord {
    pub schema_version: String,
    pub authority: String,
    pub runtime_id: String,
    pub target: String,
    pub scope: String,
    pub status: String,
    pub reason: String,
    pub updated_at_unix_millis: u64,
    pub released_until_unix_millis: Option<u64>,
}

impl Record for IdunnLifecycleBrakeRecord {
    open spec fn wire(self) -> Wire {
        Wire::Sequence(
            seq![
                Wire::Text(self.schema_version@),
                Wire::Text(self.authority@),
                Wire::Text(self.runtime_id@),
                Wire::Text(self.target@),
                Wire::Text(self.scope@),
                Wire::Text(self.status@),
                Wire::Text(self.reason@),
                Wire::Unsigned(self.updated_at_unix_millis),
                optional_number(self.released_until_unix_millis),
            ],
        )
    }

    open spec fn width() -> nat {
        9
    }

    open spec fn depth() -> nat {
        1
    }

    open spec fn violation(self) -> Option<Seq<char>> {
        if self.schema_version@ != IDUNN_LIFECYCLE_BRAKE_SCHEMA@ {
            Some("lifecycle brake schema is unsupported"@)
        } else if identifier_violation(self.authority@, "authority"@) is Some {
            identifier_violation(self.authority@, "authority"@)
        } else if identifier_violation(self.runtime_id@, "runtime id"@) is Some {
            identifier_violation(self.runtime_id@, "runtime id"@)
        } else if identifier_violation(self.target@, "target"@) is Some {
            identifier_violation(self.target@, "target"@)
        } else if identifier_violation(self.scope@, "scope"@) is Some {
            identifier_violation(self.scope@, "scope"@)
        } else if identifier_violation(self.reason@, "reason"@) is Some {
            identifier_violation(self.reason@, "reason"@)
        } else if (self.status@ != "engaged"@ && self.status@ != "released"@) || self.updated_at_unix_millis == 0 {
            Some("lifecycle brake status or update time is invalid"@)
        } else if self.status@ == "engaged"@ && self.released_until_unix_millis is Some {
            Some("engaged lifecycle brake cannot carry a release expiry"@)
        } else if self.released_until_unix_millis matches Some(expires) && expires <= self.updated_at_unix_millis {
            Some("lifecycle brake release expiry is not after its update"@)
        } else {
            None
        }
    }

    proof fn shape(self) {
        let fields = self.wire()->Sequence_0;
        assert forall|i: int| 0 <= i < fields.len() implies plain(#[trigger] fields[i]) by {}
    }

    #[verifier::rlimit(60)]
    proof fn valid_is_carried(self) {
        byte_length_is_bounded(self.schema_version@);
        byte_length_is_bounded(self.status@);
        reveal_strlit("idunn.lifecycle_brake.v1");
        reveal_strlit("engaged");
        reveal_strlit("released");
        let fields = self.wire()->Sequence_0;
        assert forall|i: int| 0 <= i < fields.len() implies carried(#[trigger] fields[i], 0) by {}
    }

    proof fn wire_decides(self, other: Self) {
        let (a, b) = (self.wire()->Sequence_0, other.wire()->Sequence_0);
        assert(a[0] == b[0] && a[1] == b[1] && a[2] == b[2] && a[3] == b[3] && a[4] == b[4] && a[5] == b[5]);
        assert(a[6] == b[6] && a[7] == b[7] && a[8] == b[8]);
    }

    fn to_wire(&self) -> (field: WireValue) {
        let field = sequence_field(
            vec![
                text_field(&self.schema_version),
                text_field(&self.authority),
                text_field(&self.runtime_id),
                text_field(&self.target),
                text_field(&self.scope),
                text_field(&self.status),
                text_field(&self.reason),
                number_field(self.updated_at_unix_millis),
                optional_number_field(self.released_until_unix_millis),
            ],
        );
        assert(field@->Sequence_0 =~= self.wire()->Sequence_0);
        field
    }

    fn from_wire(field: &WireValue) -> (record: Option<Self>) {
        let items = match read_items(field, 9) {
            Some(found) => found,
            None => {
                return None;
            },
        };
        let ghost all = trees(items@);
        assert forall|any: Self| #[trigger] any.wire() == field@ implies {
            &&& all[0] is Text
            &&& all[1] is Text
            &&& all[2] is Text
            &&& all[3] is Text
            &&& all[4] is Text
            &&& all[5] is Text
            &&& all[6] is Text
            &&& all[7] is Unsigned
            &&& all[8] is Unsigned || all[8] is Nil
        } by {
            assert(any.wire()->Sequence_0 == all);
        }
        let record = IdunnLifecycleBrakeRecord {
            schema_version: read_text(&items[0])?,
            authority: read_text(&items[1])?,
            runtime_id: read_text(&items[2])?,
            target: read_text(&items[3])?,
            scope: read_text(&items[4])?,
            status: read_text(&items[5])?,
            reason: read_text(&items[6])?,
            updated_at_unix_millis: read_number(&items[7])?,
            released_until_unix_millis: read_optional_number(&items[8])?,
        };
        assert(record.wire()->Sequence_0 =~= all);
        Some(record)
    }

    fn check(&self) -> (outcome: Result<(), CultNetError>) {
        self.validate()
    }
}

impl CanonicalRecord for IdunnLifecycleBrakeRecord {
    const WIDTH_REFUSAL: &'static str = "lifecycle brake is not the 9-field positional contract";

    const MALFORMED_REFUSAL: &'static str = "lifecycle brake is malformed MessagePack";

    const NONCANONICAL_REFUSAL: &'static str = "lifecycle brake encoding is not canonical";

    const RULES_FIRST: bool = true;
}

impl IdunnLifecycleBrakeRecord {
    pub fn validate(&self) -> (outcome: Result<(), CultNetError>)
        ensures
            reports(outcome, self.violation()),
    {
        ensure(
            same_text(&self.schema_version, IDUNN_LIFECYCLE_BRAKE_SCHEMA),
            "lifecycle brake schema is unsupported",
        )?;
        check_identifier(&self.authority, "authority")?;
        check_identifier(&self.runtime_id, "runtime id")?;
        check_identifier(&self.target, "target")?;
        check_identifier(&self.scope, "scope")?;
        check_identifier(&self.reason, "reason")?;
        let engaged = same_text(&self.status, "engaged");
        ensure(
            (engaged || same_text(&self.status, "released")) && self.updated_at_unix_millis != 0,
            "lifecycle brake status or update time is invalid",
        )?;
        ensure(
            !(engaged && self.released_until_unix_millis.is_some()),
            "engaged lifecycle brake cannot carry a release expiry",
        )?;
        if let Some(expires) = self.released_until_unix_millis {
            ensure(
                expires > self.updated_at_unix_millis,
                "lifecycle brake release expiry is not after its update",
            )?;
        }
        Ok(())
    }

    pub fn canonical_bytes(&self) -> (outcome: Result<Vec<u8>, CultNetError>)
        ensures
            reports(outcome, self.violation()),
            outcome matches Ok(bytes) ==> bytes@ == messagepack_encoding(self.wire()),
    {
        canonical_record_bytes(self)
    }

    pub fn decode_canonical(payload: &[u8]) -> (outcome: Result<Self, CultNetError>)
        ensures
            decoded_canonically(payload@, outcome),
    {
        decode_canonical_record(payload, 9)
    }
}

#[derive(Clone, Copy, Debug)]
pub enum IdunnLifecycleBrakeObservation<'a> {
    Missing,
    Corrupt,
    Present(&'a IdunnLifecycleBrakeRecord),
}

#[derive(Clone, Copy, Debug, PartialEq, Eq, Structural)]
pub enum IdunnLifecycleBrakeDenial {
    Corrupt,
    Foreign,
    WrongRuntime,
    WrongTarget,
    Engaged,
    Expired,
}

/// Why a restart of the target is denied at the given time, if it is.
pub open spec fn restart_denial(
    observation: IdunnLifecycleBrakeObservation<'_>,
    runtime_id: Seq<char>,
    target: Seq<char>,
    now: u64,
) -> Option<IdunnLifecycleBrakeDenial> {
    match observation {
        IdunnLifecycleBrakeObservation::Missing => None,
        IdunnLifecycleBrakeObservation::Corrupt => Some(IdunnLifecycleBrakeDenial::Corrupt),
        IdunnLifecycleBrakeObservation::Present(record) => {
            if record.violation() is Some {
                Some(IdunnLifecycleBrakeDenial::Corrupt)
            } else if record.authority@ != IDUNN_LIFECYCLE_BRAKE_AUTHORITY@ || record.scope@
                != IDUNN_LIFECYCLE_BRAKE_SCOPE@ {
                Some(IdunnLifecycleBrakeDenial::Foreign)
            } else if record.runtime_id@ != runtime_id {
                Some(IdunnLifecycleBrakeDenial::WrongRuntime)
            } else if record.target@ != target {
                Some(IdunnLifecycleBrakeDenial::WrongTarget)
            } else if record.status@ == "engaged"@ {
                Some(IdunnLifecycleBrakeDenial::Engaged)
            } else if record.released_until_unix_millis matches Some(expires) && now >= expires {
                Some(IdunnLifecycleBrakeDenial::Expired)
            } else {
                None
            }
        },
    }
}

/// Decide only whether Idunn may restart one already-admitted target to keep it
/// alive. Absence is the default allow state; a present record must bind the
/// exact Idunn runtime and target and must be explicitly released.
pub fn evaluate_idunn_continuity_restart(
    observation: IdunnLifecycleBrakeObservation<'_>,
    runtime_id: &str,
    target: &str,
    now_unix_millis: u64,
) -> (outcome: Result<(), IdunnLifecycleBrakeDenial>)
    ensures
        match restart_denial(observation, runtime_id@, target@, now_unix_millis) {
            None => outcome is Ok,
            Some(denial) => outcome == Err::<(), IdunnLifecycleBrakeDenial>(denial),
        },
{
    let record = match observation {
        IdunnLifecycleBrakeObservation::Missing => {
            return Ok(());
        },
        IdunnLifecycleBrakeObservation::Corrupt => {
            return Err(IdunnLifecycleBrakeDenial::Corrupt);
        },
        IdunnLifecycleBrakeObservation::Present(record) => record,
    };
    if record.validate().is_err() {
        return Err(IdunnLifecycleBrakeDenial::Corrupt);
    }
    if !same_text(&record.authority, IDUNN_LIFECYCLE_BRAKE_AUTHORITY) || !same_text(
        &record.scope,
        IDUNN_LIFECYCLE_BRAKE_SCOPE,
    ) {
        return Err(IdunnLifecycleBrakeDenial::Foreign);
    }
    if !same_text(&record.runtime_id, runtime_id) {
        return Err(IdunnLifecycleBrakeDenial::WrongRuntime);
    }
    if !same_text(&record.target, target) {
        return Err(IdunnLifecycleBrakeDenial::WrongTarget);
    }
    if same_text(&record.status, "engaged") {
        return Err(IdunnLifecycleBrakeDenial::Engaged);
    }
    if let Some(expires) = record.released_until_unix_millis {
        if now_unix_millis >= expires {
            return Err(IdunnLifecycleBrakeDenial::Expired);
        }
    }
    Ok(())
}

/// A present record permits a restart only if it is valid, root's own, released, not
/// expired, and about exactly this runtime and this target; an engaged one permits
/// none.
pub proof fn only_an_exact_release_permits_a_restart(
    record: IdunnLifecycleBrakeRecord,
    runtime_id: Seq<char>,
    target: Seq<char>,
    now: u64,
)
    ensures
        restart_denial(
            IdunnLifecycleBrakeObservation::Present(&record),
            runtime_id,
            target,
            now,
        ) is None <==> {
            &&& record.violation() is None
            &&& record.authority@ == IDUNN_LIFECYCLE_BRAKE_AUTHORITY@
            &&& record.scope@ == IDUNN_LIFECYCLE_BRAKE_SCOPE@
            &&& record.runtime_id@ == runtime_id
            &&& record.target@ == target
            &&& record.status@ == "released"@
            &&& record.released_until_unix_millis matches Some(expires) ==> now < expires
        },
{
    reveal_strlit("engaged");
    reveal_strlit("released");
    assert("engaged"@.len() != "released"@.len());
}

}

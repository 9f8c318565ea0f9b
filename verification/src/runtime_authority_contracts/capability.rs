//! Capabilities: what a runtime claims to provide, and what Idunn requires of it.
use vstd::prelude::*;
use crate::error::{ensure, reports, CultNetError};
use crate::record::{
    check_sorted_list, number_field, read_items, read_small, read_text, sequence_field,
    sorted_list_violation, text_field, Identified, Record,
};
use crate::rules::{authority_violation, check_authority};
use crate::wire::{carried, plain, trees, Wire, WireValue};

verus! {

/// The most capabilities that one record may list.
pub const MAX_RUNTIME_CAPABILITIES: usize = 256;

/// One provider-owned capability claim inside a runtime-presence statement.
/// The enclosing vector is canonical only when these records are strictly
/// increasing by `(capability, schema, compatibility)`. Capacity describes
/// that one claim and does not create a second identity for the same claim.
#[derive(Clone, Debug, PartialEq, Eq)]
pub struct GameCultRuntimeCapability {
    pub capability: String,
    pub schema: String,
    pub compatibility: String,
    pub capacity: u32,
}

impl Record for GameCultRuntimeCapability {
    open spec fn wire(self) -> Wire {
        Wire::Sequence(
            seq![
                Wire::Text(self.capability@),
                Wire::Text(self.schema@),
                Wire::Text(self.compatibility@),
                Wire::Unsigned(self.capacity as u64),
            ],
        )
    }

    open spec fn width() -> nat {
        4
    }

    open spec fn depth() -> nat {
        1
    }

    open spec fn violation(self) -> Option<Seq<char>> {
        if authority_violation(self.capability@, "capability"@) is Some {
            authority_violation(self.capability@, "capability"@)
        } else if authority_violation(self.schema@, "capability schema"@) is Some {
            authority_violation(self.schema@, "capability schema"@)
        } else if authority_violation(self.compatibility@, "capability compatibility"@) is Some {
            authority_violation(self.compatibility@, "capability compatibility"@)
        } else if self.capacity == 0 {
            Some("runtime capability capacity is zero"@)
        } else {
            None
        }
    }

    proof fn shape(self) {
        let fields = self.wire()->Sequence_0;
        assert forall|i: int| 0 <= i < fields.len() implies plain(#[trigger] fields[i]) by {}
    }

    #[verifier::rlimit(60)]
    proof fn valid_is_carried(self) {
        let fields = self.wire()->Sequence_0;
        assert forall|i: int| 0 <= i < fields.len() implies carried(#[trigger] fields[i], 0) by {}
    }

    proof fn wire_decides(self, other: Self) {
        let (a, b) = (self.wire()->Sequence_0, other.wire()->Sequence_0);
        assert(a[0] == b[0] && a[1] == b[1] && a[2] == b[2] && a[3] == b[3]);
    }

    fn to_wire(&self) -> (field: WireValue) {
        let field = sequence_field(
            vec![
                text_field(&self.capability),
                text_field(&self.schema),
                text_field(&self.compatibility),
                number_field(self.capacity as u64),
            ],
        );
        assert(field@->Sequence_0 =~= self.wire()->Sequence_0);
        field
    }

    fn from_wire(field: &WireValue) -> (record: Option<Self>) {
        let items = match read_items(field, 4) {
            Some(found) => found,
            None => {
                return None;
            },
        };
        let ghost all = trees(items@);
        assert forall|any: Self| #[trigger] any.wire() == field@ implies {
            &&& all[0] is Text
            &&& all[1] is Text
            &&& all[2] is Text
            &&& all[3] matches Wire::Unsigned(number) && number <= u32::MAX
        } by {
            assert(any.wire()->Sequence_0 == all);
        }
        let record = GameCultRuntimeCapability {
            capability: read_text(&items[0])?,
            schema: read_text(&items[1])?,
            compatibility: read_text(&items[2])?,
            capacity: read_small(&items[3])?,
        };
        assert(record.wire()->Sequence_0 =~= all);
        Some(record)
    }

    fn check(&self) -> (outcome: Result<(), CultNetError>) {
        self.validate()
    }
}

impl Identified for GameCultRuntimeCapability {
    open spec fn identity(self) -> (Seq<char>, Seq<char>, Seq<char>) {
        (self.capability@, self.schema@, self.compatibility@)
    }

    proof fn wire_identifies(self, other: Self) {
        let (a, b) = (self.wire()->Sequence_0, other.wire()->Sequence_0);
        assert(a[0] == b[0] && a[1] == b[1] && a[2] == b[2] && a[3] == b[3]);
    }

    fn identity_texts(&self) -> (texts: (&str, &str, &str)) {
        (&self.capability, &self.schema, &self.compatibility)
    }
}

impl GameCultRuntimeCapability {
    pub fn validate(&self) -> (outcome: Result<(), CultNetError>)
        ensures
            reports(outcome, self.violation()),
    {
        check_authority(&self.capability, "capability")?;
        check_authority(&self.schema, "capability schema")?;
        check_authority(&self.compatibility, "capability compatibility")?;
        ensure(self.capacity != 0, "runtime capability capacity is zero")
    }
}

/// Idunn's admitted requirement for one provider-owned runtime capability.
/// The provider reports actual capacity in `GameCultRuntimeCapability`; this
/// record states only the minimum needed for this incarnation to be Ready.
#[derive(Clone, Debug, PartialEq, Eq)]
pub struct IdunnExpectedCapability {
    pub capability: String,
    pub schema: String,
    pub compatibility: String,
    pub minimum_capacity: u32,
}

impl Record for IdunnExpectedCapability {
    open spec fn wire(self) -> Wire {
        Wire::Sequence(
            seq![
                Wire::Text(self.capability@),
                Wire::Text(self.schema@),
                Wire::Text(self.compatibility@),
                Wire::Unsigned(self.minimum_capacity as u64),
            ],
        )
    }

    open spec fn width() -> nat {
        4
    }

    open spec fn depth() -> nat {
        1
    }

    open spec fn violation(self) -> Option<Seq<char>> {
        if authority_violation(self.capability@, "Expected capability"@) is Some {
            authority_violation(self.capability@, "Expected capability"@)
        } else if authority_violation(self.schema@, "Expected capability schema"@) is Some {
            authority_violation(self.schema@, "Expected capability schema"@)
        } else if authority_violation(self.compatibility@, "Expected capability compatibility"@) is Some {
            authority_violation(self.compatibility@, "Expected capability compatibility"@)
        } else if self.minimum_capacity == 0 {
            Some("Expected capability minimum capacity is zero"@)
        } else {
            None
        }
    }

    proof fn shape(self) {
        let fields = self.wire()->Sequence_0;
        assert forall|i: int| 0 <= i < fields.len() implies plain(#[trigger] fields[i]) by {}
    }

    #[verifier::rlimit(60)]
    proof fn valid_is_carried(self) {
        let fields = self.wire()->Sequence_0;
        assert forall|i: int| 0 <= i < fields.len() implies carried(#[trigger] fields[i], 0) by {}
    }

    proof fn wire_decides(self, other: Self) {
        let (a, b) = (self.wire()->Sequence_0, other.wire()->Sequence_0);
        assert(a[0] == b[0] && a[1] == b[1] && a[2] == b[2] && a[3] == b[3]);
    }

    fn to_wire(&self) -> (field: WireValue) {
        let field = sequence_field(
            vec![
                text_field(&self.capability),
                text_field(&self.schema),
                text_field(&self.compatibility),
                number_field(self.minimum_capacity as u64),
            ],
        );
        assert(field@->Sequence_0 =~= self.wire()->Sequence_0);
        field
    }

    fn from_wire(field: &WireValue) -> (record: Option<Self>) {
        let items = match read_items(field, 4) {
            Some(found) => found,
            None => {
                return None;
            },
        };
        let ghost all = trees(items@);
        assert forall|any: Self| #[trigger] any.wire() == field@ implies {
            &&& all[0] is Text
            &&& all[1] is Text
            &&& all[2] is Text
            &&& all[3] matches Wire::Unsigned(number) && number <= u32::MAX
        } by {
            assert(any.wire()->Sequence_0 == all);
        }
        let record = IdunnExpectedCapability {
            capability: read_text(&items[0])?,
            schema: read_text(&items[1])?,
            compatibility: read_text(&items[2])?,
            minimum_capacity: read_small(&items[3])?,
        };
        assert(record.wire()->Sequence_0 =~= all);
        Some(record)
    }

    fn check(&self) -> (outcome: Result<(), CultNetError>) {
        self.validate()
    }
}

impl Identified for IdunnExpectedCapability {
    open spec fn identity(self) -> (Seq<char>, Seq<char>, Seq<char>) {
        (self.capability@, self.schema@, self.compatibility@)
    }

    proof fn wire_identifies(self, other: Self) {
        let (a, b) = (self.wire()->Sequence_0, other.wire()->Sequence_0);
        assert(a[0] == b[0] && a[1] == b[1] && a[2] == b[2] && a[3] == b[3]);
    }

    fn identity_texts(&self) -> (texts: (&str, &str, &str)) {
        (&self.capability, &self.schema, &self.compatibility)
    }
}

impl IdunnExpectedCapability {
    pub fn validate(&self) -> (outcome: Result<(), CultNetError>)
        ensures
            reports(outcome, self.violation()),
    {
        check_authority(&self.capability, "Expected capability")?;
        check_authority(&self.schema, "Expected capability schema")?;
        check_authority(&self.compatibility, "Expected capability compatibility")?;
        ensure(self.minimum_capacity != 0, "Expected capability minimum capacity is zero")
    }
}

/// Why the claimed capabilities are refused, if they are.
pub open spec fn runtime_capabilities_violation(capabilities: Seq<GameCultRuntimeCapability>) -> Option<Seq<char>> {
    sorted_list_violation(
        capabilities,
        MAX_RUNTIME_CAPABILITIES as int,
        "runtime presence capability count exceeds its contract bound"@,
        "runtime capabilities are not strictly sorted and unique"@,
    )
}

/// Why the required capabilities are refused, if they are.
pub open spec fn expected_capabilities_violation(capabilities: Seq<IdunnExpectedCapability>) -> Option<Seq<char>> {
    sorted_list_violation(
        capabilities,
        MAX_RUNTIME_CAPABILITIES as int,
        "Expected capability count exceeds its contract bound"@,
        "Expected capabilities are not strictly sorted and unique"@,
    )
}

pub fn validate_runtime_capabilities(capabilities: &Vec<GameCultRuntimeCapability>) -> (outcome: Result<
    (),
    CultNetError,
>)
    ensures
        reports(outcome, runtime_capabilities_violation(capabilities@)),
{
    check_sorted_list(
        capabilities,
        MAX_RUNTIME_CAPABILITIES,
        "runtime presence capability count exceeds its contract bound",
        "runtime capabilities are not strictly sorted and unique",
    )
}

pub fn validate_expected_capabilities(capabilities: &Vec<IdunnExpectedCapability>) -> (outcome: Result<
    (),
    CultNetError,
>)
    ensures
        reports(outcome, expected_capabilities_violation(capabilities@)),
{
    check_sorted_list(
        capabilities,
        MAX_RUNTIME_CAPABILITIES,
        "Expected capability count exceeds its contract bound",
        "Expected capabilities are not strictly sorted and unique",
    )
}

}

//! Odin's receipt: how the expected incarnation, its activation and its presence
//! correlate.
use vstd::prelude::*;
use super::capability::{
    runtime_capabilities_violation, validate_runtime_capabilities, GameCultRuntimeCapability,
    IdunnExpectedCapability, MAX_RUNTIME_CAPABILITIES,
};
use super::expected::{
    check_provider_binding, dependency_kind, is_dependency_kind, provider_binding_violation,
    ENDPOINT_LIMIT, MAX_RUNTIME_DEPENDENCIES,
};
use super::ODIN_RUNTIME_TOPOLOGY_CORRELATION_SCHEMA;
use crate::error::{
    ensure, first_among, first_among_stays, first_of, none_among, refuse, reports, unless,
    CultNetError,
};
use crate::number::{decimal, decimal_text, zero_padded, zero_padded_text};
use crate::provider_health_contracts::{is_provider_state, provider_state};
use crate::text::byte_length_is_bounded;
use crate::record::{
    accepted_list_is_sorted, binary_field, canonical_digest, canonical_record_bytes,
    canonical_record_sha256, check_sorted_list, decode_canonical_record, decoded_canonically,
    flag_field, number_field, optional_number, optional_number_field, optional_small,
    optional_small_field, optional_text, optional_text_field, read_binary, read_flag, read_items,
    read_number, read_optional_number, read_optional_small, read_optional_text, read_record_list,
    read_text, record_list, record_list_field, record_list_is_carried, record_list_is_plain,
    same_lists_same_violation, same_record_lists, sequence_field, sha256_reference_is_short,
    sorted_list_violation, text_field, with_field, CanonicalRecord, Identified, Record,
};
use crate::rules::{
    authority_violation, check_authority, check_optional_authority, check_optional_bounded,
    check_optional_sha256, check_sha256, optional_authority_violation, optional_bounded_violation,
    optional_sha256_violation, sha256_violation,
};
use crate::text::{
    before, byte_length, holds_text, is_before, joined, opt, same_optional_text, same_text,
    sha256_reference,
};
use crate::wire::{
    carried, encode_messagepack, messagepack_encoding, plain, plain_with_field, trees, Wire,
    WireValue,
};

verus! {

/// The most disagreements that one record may list.
pub const MAX_TOPOLOGY_DISAGREEMENTS: usize = 256;

/// The longest value, in bytes, that a disagreement may quote.
pub const DETAIL_LIMIT: usize = 1024;

// ---------------------------------------------------------------------------
// Evidence on dependencies
// ---------------------------------------------------------------------------

/// Odin's observation of one dependency selected in the bound Expected
/// projection. Evidence digests identify the signed/provider-owned facts Odin
/// used; they do not copy those facts into Odin authority.
#[derive(Clone, Debug, PartialEq, Eq)]
pub struct OdinRuntimeDependencyEvidence {
    pub kind: String,
    pub capability: String,
    pub schema: String,
    pub compatibility: String,
    pub provider_id: Option<String>,
    pub provider_authority: Option<String>,
    pub provider_expected_projection_sha256: Option<String>,
    pub provider_endpoint: Option<String>,
    pub observed_capacity: Option<u32>,
    pub provider_evidence_sha256: Option<String>,
    pub ready: bool,
}

impl Record for OdinRuntimeDependencyEvidence {
    open spec fn wire(self) -> Wire {
        Wire::Sequence(
            seq![
                Wire::Text(self.kind@),
                Wire::Text(self.capability@),
                Wire::Text(self.schema@),
                Wire::Text(self.compatibility@),
                optional_text(opt(self.provider_id)),
                optional_text(opt(self.provider_authority)),
                optional_text(opt(self.provider_expected_projection_sha256)),
                optional_text(opt(self.provider_endpoint)),
                optional_small(self.observed_capacity),
                optional_text(opt(self.provider_evidence_sha256)),
                Wire::Flag(self.ready),
            ],
        )
    }

    open spec fn width() -> nat {
        11
    }

    open spec fn depth() -> nat {
        1
    }

    open spec fn violation(self) -> Option<Seq<char>> {
        if !dependency_kind(self.kind@) {
            Some("dependency evidence kind is unsupported"@)
        } else if authority_violation(self.kind@, "dependency evidence kind"@) is Some {
            authority_violation(self.kind@, "dependency evidence kind"@)
        } else if authority_violation(self.capability@, "dependency evidence capability"@) is Some {
            authority_violation(self.capability@, "dependency evidence capability"@)
        } else if authority_violation(self.schema@, "dependency evidence schema"@) is Some {
            authority_violation(self.schema@, "dependency evidence schema"@)
        } else if authority_violation(self.compatibility@, "dependency evidence compatibility"@) is Some {
            authority_violation(self.compatibility@, "dependency evidence compatibility"@)
        } else if optional_authority_violation(opt(self.provider_id), "dependency evidence provider id"@) is Some {
            optional_authority_violation(opt(self.provider_id), "dependency evidence provider id"@)
        } else if optional_authority_violation(opt(self.provider_authority), "dependency evidence provider authority"@) is Some {
            optional_authority_violation(opt(self.provider_authority), "dependency evidence provider authority"@)
        } else if optional_sha256_violation(opt(self.provider_expected_projection_sha256), "dependency evidence provider expected projection sha256"@) is Some {
            optional_sha256_violation(opt(self.provider_expected_projection_sha256), "dependency evidence provider expected projection sha256"@)
        } else if optional_bounded_violation(opt(self.provider_endpoint), ENDPOINT_LIMIT as int, "dependency evidence provider endpoint"@) is Some {
            optional_bounded_violation(opt(self.provider_endpoint), ENDPOINT_LIMIT as int, "dependency evidence provider endpoint"@)
        } else if optional_sha256_violation(opt(self.provider_evidence_sha256), "dependency provider evidence sha256"@) is Some {
            optional_sha256_violation(opt(self.provider_evidence_sha256), "dependency provider evidence sha256"@)
        } else if self.observed_capacity == Some(0u32) {
            Some("dependency evidence capacity is zero"@)
        } else if self.provider_id is None && self.holds_facts() {
            Some("dependency evidence has facts without a provider"@)
        } else if self.provider_id is Some && self.provider_authority is None {
            Some("dependency evidence provider authority is missing"@)
        } else if provider_binding_violation(self.kind@, opt(self.provider_id), opt(self.provider_authority), opt(self.provider_expected_projection_sha256), opt(self.provider_endpoint), "external dependency evidence names a managed incarnation"@, "dependency evidence provider binding is authority-incoherent"@) is Some {
            provider_binding_violation(self.kind@, opt(self.provider_id), opt(self.provider_authority), opt(self.provider_expected_projection_sha256), opt(self.provider_endpoint), "external dependency evidence names a managed incarnation"@, "dependency evidence provider binding is authority-incoherent"@)
        } else if self.ready && (self.observed_capacity is None || self.provider_evidence_sha256 is None) {
            Some("ready dependency lacks capacity or signed evidence"@)
        } else {
            None
        }
    }

    proof fn shape(self) {
        let fields = self.wire()->Sequence_0;
        assert forall|i: int| 0 <= i < fields.len() implies plain(#[trigger] fields[i]) by {}
    }

    #[verifier::rlimit(60)]
    proof fn valid_is_carried(self) {
        broadcast use sha256_reference_is_short;

        let fields = self.wire()->Sequence_0;
        assert forall|i: int| 0 <= i < fields.len() implies carried(#[trigger] fields[i], 0) by {}
    }

    proof fn wire_decides(self, other: Self) {
        let (a, b) = (self.wire()->Sequence_0, other.wire()->Sequence_0);
        assert(a[0] == b[0] && a[1] == b[1] && a[2] == b[2] && a[3] == b[3] && a[4] == b[4] && a[5] == b[5]);
        assert(a[6] == b[6] && a[7] == b[7] && a[8] == b[8] && a[9] == b[9] && a[10] == b[10]);
    }

    fn to_wire(&self) -> (field: WireValue) {
        let field = sequence_field(
            vec![
                text_field(&self.kind),
                text_field(&self.capability),
                text_field(&self.schema),
                text_field(&self.compatibility),
                optional_text_field(&self.provider_id),
                optional_text_field(&self.provider_authority),
                optional_text_field(&self.provider_expected_projection_sha256),
                optional_text_field(&self.provider_endpoint),
                optional_small_field(self.observed_capacity),
                optional_text_field(&self.provider_evidence_sha256),
                flag_field(self.ready),
            ],
        );
        assert(field@->Sequence_0 =~= self.wire()->Sequence_0);
        field
    }

    fn from_wire(field: &WireValue) -> (record: Option<Self>) {
        let items = match read_items(field, 11) {
            Some(found) => found,
            None => {
                return None;
            },
        };
        let ghost all = trees(items@);
        assert forall|any: Self| #[trigger] any.wire() == field@ implies {
            &&& all[0] is Text
            &&& all[1] is Text
            &&& all[2] is Text
            &&& all[3] is Text
            &&& all[4] is Text || all[4] is Nil
            &&& all[5] is Text || all[5] is Nil
            &&& all[6] is Text || all[6] is Nil
            &&& all[7] is Text || all[7] is Nil
            &&& all[8] == optional_small(any.observed_capacity)
            &&& all[9] is Text || all[9] is Nil
            &&& all[10] is Flag
        } by {
            assert(any.wire()->Sequence_0 == all);
        }
        let record = OdinRuntimeDependencyEvidence {
            kind: read_text(&items[0])?,
            capability: read_text(&items[1])?,
            schema: read_text(&items[2])?,
            compatibility: read_text(&items[3])?,
            provider_id: read_optional_text(&items[4])?,
            provider_authority: read_optional_text(&items[5])?,
            provider_expected_projection_sha256: read_optional_text(&items[6])?,
            provider_endpoint: read_optional_text(&items[7])?,
            observed_capacity: read_optional_small(&items[8])?,
            provider_evidence_sha256: read_optional_text(&items[9])?,
            ready: read_flag(&items[10])?,
        };
        assert(record.wire()->Sequence_0 =~= all);
        Some(record)
    }

    fn check(&self) -> (outcome: Result<(), CultNetError>) {
        self.validate()
    }
}

impl Identified for OdinRuntimeDependencyEvidence {
    open spec fn identity(self) -> (Seq<char>, Seq<char>, Seq<char>) {
        (self.capability@, self.schema@, self.compatibility@)
    }

    proof fn wire_identifies(self, other: Self) {
        let (a, b) = (self.wire()->Sequence_0, other.wire()->Sequence_0);
        assert(a[1] == b[1] && a[2] == b[2] && a[3] == b[3]);
    }

    fn identity_texts(&self) -> (texts: (&str, &str, &str)) {
        (&self.capability, &self.schema, &self.compatibility)
    }
}

impl OdinRuntimeDependencyEvidence {
    /// Something is stated that only a provider can have.
    pub open spec fn holds_facts(self) -> bool {
        ||| self.provider_authority is Some
        ||| self.provider_expected_projection_sha256 is Some
        ||| self.provider_endpoint is Some
        ||| self.observed_capacity is Some
        ||| self.provider_evidence_sha256 is Some
        ||| self.ready
    }

    pub fn validate(&self) -> (outcome: Result<(), CultNetError>)
        ensures
            reports(outcome, self.violation()),
    {
        ensure(is_dependency_kind(&self.kind), "dependency evidence kind is unsupported")?;
        check_authority(&self.kind, "dependency evidence kind")?;
        check_authority(&self.capability, "dependency evidence capability")?;
        check_authority(&self.schema, "dependency evidence schema")?;
        check_authority(&self.compatibility, "dependency evidence compatibility")?;
        check_optional_authority(&self.provider_id, "dependency evidence provider id")?;
        check_optional_authority(&self.provider_authority, "dependency evidence provider authority")?;
        check_optional_sha256(
            &self.provider_expected_projection_sha256,
            "dependency evidence provider expected projection sha256",
        )?;
        check_optional_bounded(
            &self.provider_endpoint,
            ENDPOINT_LIMIT,
            "dependency evidence provider endpoint",
        )?;
        check_optional_sha256(&self.provider_evidence_sha256, "dependency provider evidence sha256")?;
        ensure(self.observed_capacity != Some(0u32), "dependency evidence capacity is zero")?;
        let facts = self.provider_authority.is_some() || self.provider_expected_projection_sha256.is_some()
            || self.provider_endpoint.is_some() || self.observed_capacity.is_some()
            || self.provider_evidence_sha256.is_some() || self.ready;
        ensure(
            !(self.provider_id.is_none() && facts),
            "dependency evidence has facts without a provider",
        )?;
        ensure(
            !(self.provider_id.is_some() && self.provider_authority.is_none()),
            "dependency evidence provider authority is missing",
        )?;
        check_provider_binding(
            &self.kind,
            &self.provider_id,
            &self.provider_authority,
            &self.provider_expected_projection_sha256,
            &self.provider_endpoint,
            "external dependency evidence names a managed incarnation",
            "dependency evidence provider binding is authority-incoherent",
        )?;
        ensure(
            !(self.ready && (self.observed_capacity.is_none() || self.provider_evidence_sha256.is_none())),
            "ready dependency lacks capacity or signed evidence",
        )
    }
}

/// Why the evidence is refused, if it is.
pub open spec fn dependency_evidence_violation(dependencies: Seq<OdinRuntimeDependencyEvidence>) -> Option<Seq<char>> {
    sorted_list_violation(
        dependencies,
        MAX_RUNTIME_DEPENDENCIES as int,
        "dependency evidence count exceeds its contract bound"@,
        "dependency evidence is not strictly sorted and unique"@,
    )
}

pub fn validate_dependency_evidence(dependencies: &Vec<OdinRuntimeDependencyEvidence>) -> (outcome: Result<
    (),
    CultNetError,
>)
    ensures
        reports(outcome, dependency_evidence_violation(dependencies@)),
{
    check_sorted_list(
        dependencies,
        MAX_RUNTIME_DEPENDENCIES,
        "dependency evidence count exceeds its contract bound",
        "dependency evidence is not strictly sorted and unique",
    )
}

/// Every dependency that is not optional is ready.
pub open spec fn dependencies_are_ready(dependencies: Seq<OdinRuntimeDependencyEvidence>) -> bool {
    forall|i: int|
        0 <= i < dependencies.len() ==> (#[trigger] dependencies[i]).kind@ == "optional"@ || dependencies[i].ready
}

fn are_dependencies_ready(dependencies: &Vec<OdinRuntimeDependencyEvidence>) -> (found: bool)
    ensures
        found == dependencies_are_ready(dependencies@),
{
    let mut i: usize = 0;
    while i < dependencies.len()
        invariant
            i <= dependencies@.len(),
            forall|k: int|
                0 <= k < i ==> (#[trigger] dependencies@[k]).kind@ == "optional"@ || dependencies@[k].ready,
        decreases dependencies@.len() - i,
    {
        if !same_text(&dependencies[i].kind, "optional") && !dependencies[i].ready {
            return false;
        }
        i += 1;
    }
    true
}

proof fn same_readiness(a: Seq<OdinRuntimeDependencyEvidence>, b: Seq<OdinRuntimeDependencyEvidence>)
    requires
        record_list(a) == record_list(b),
    ensures
        dependencies_are_ready(a) == dependencies_are_ready(b),
{
    same_record_lists(a, b);
    assert forall|i: int| 0 <= i < a.len() implies (#[trigger] a[i]).kind@ == b[i].kind@ && a[i].ready
        == b[i].ready by {
        let (x, y) = (a[i].wire()->Sequence_0, b[i].wire()->Sequence_0);
        assert(x[0] == y[0] && x[10] == y[10]);
    }
    assert forall|i: int| 0 <= i < b.len() implies (#[trigger] b[i]).kind@ == a[i].kind@ && b[i].ready
        == a[i].ready by {
        assert(a[i].kind@ == b[i].kind@);
    }
}

// ---------------------------------------------------------------------------
// Disagreements
// ---------------------------------------------------------------------------

/// One explicit Expected/observed disagreement. Codes are unique and sorted so
/// the signed receipt has one canonical explanation for each disagreement.
#[derive(Clone, Debug, PartialEq, Eq)]
pub struct OdinTopologyDisagreement {
    pub code: String,
    pub expected: Option<String>,
    pub observed: Option<String>,
}

/// What a disagreement says.
#[verifier::ext_equal]
pub struct Disagreement {
    pub code: Seq<char>,
    pub expected: Option<Seq<char>>,
    pub observed: Option<Seq<char>>,
}

impl View for OdinTopologyDisagreement {
    type V = Disagreement;

    open spec fn view(&self) -> Disagreement {
        Disagreement { code: self.code@, expected: opt(self.expected), observed: opt(self.observed) }
    }
}

/// Why the disagreement is refused, if it is.
pub open spec fn disagreement_violation(disagreement: Disagreement) -> Option<Seq<char>> {
    first_of(
        authority_violation(disagreement.code, "topology disagreement code"@),
        first_of(
            optional_bounded_violation(
                disagreement.expected,
                DETAIL_LIMIT as int,
                "topology disagreement expected value"@,
            ),
            first_of(
                optional_bounded_violation(
                    disagreement.observed,
                    DETAIL_LIMIT as int,
                    "topology disagreement observed value"@,
                ),
                unless(
                    disagreement.expected is Some || disagreement.observed is Some,
                    "topology disagreement carries no expected or observed value"@,
                ),
            ),
        ),
    )
}

impl Record for OdinTopologyDisagreement {
    open spec fn wire(self) -> Wire {
        Wire::Sequence(
            seq![
                Wire::Text(self.code@),
                optional_text(opt(self.expected)),
                optional_text(opt(self.observed)),
            ],
        )
    }

    open spec fn width() -> nat {
        3
    }

    open spec fn depth() -> nat {
        1
    }

    open spec fn violation(self) -> Option<Seq<char>> {
        disagreement_violation(self@)
    }

    proof fn shape(self) {
        let fields = self.wire()->Sequence_0;
        assert forall|i: int| 0 <= i < fields.len() implies plain(#[trigger] fields[i]) by {}
    }

    #[verifier::rlimit(60)]
    proof fn valid_is_carried(self) {
        let fields = self.wire()->Sequence_0;
        assert forall|i: int| 0 <= i < fields.len() implies carried(#[trigger] fields[i], 0) by {}
    }

    proof fn wire_decides(self, other: Self) {
        let (a, b) = (self.wire()->Sequence_0, other.wire()->Sequence_0);
        assert(a[0] == b[0] && a[1] == b[1] && a[2] == b[2]);
    }

    fn to_wire(&self) -> (field: WireValue) {
        let field = sequence_field(
            vec![
                text_field(&self.code),
                optional_text_field(&self.expected),
                optional_text_field(&self.observed),
            ],
        );
        assert(field@->Sequence_0 =~= self.wire()->Sequence_0);
        field
    }

    fn from_wire(field: &WireValue) -> (record: Option<Self>) {
        let items = match read_items(field, 3) {
            Some(found) => found,
            None => {
                return None;
            },
        };
        let ghost all = trees(items@);
        assert forall|any: Self| #[trigger] any.wire() == field@ implies {
            &&& all[0] is Text
            &&& all[1] is Text || all[1] is Nil
            &&& all[2] is Text || all[2] is Nil
        } by {
            assert(any.wire()->Sequence_0 == all);
        }
        let record = OdinTopologyDisagreement {
            code: read_text(&items[0])?,
            expected: read_optional_text(&items[1])?,
            observed: read_optional_text(&items[2])?,
        };
        assert(record.wire()->Sequence_0 =~= all);
        Some(record)
    }

    fn check(&self) -> (outcome: Result<(), CultNetError>) {
        self.validate()
    }
}

impl OdinTopologyDisagreement {
    pub fn validate(&self) -> (outcome: Result<(), CultNetError>)
        ensures
            reports(outcome, self.violation()),
    {
        check_authority(&self.code, "topology disagreement code")?;
        check_optional_bounded(&self.expected, DETAIL_LIMIT, "topology disagreement expected value")?;
        check_optional_bounded(&self.observed, DETAIL_LIMIT, "topology disagreement observed value")?;
        ensure(
            self.expected.is_some() || self.observed.is_some(),
            "topology disagreement carries no expected or observed value",
        )
    }

    pub fn same(&self, other: &OdinTopologyDisagreement) -> (same: bool)
        ensures
            same == (self@ == other@),
    {
        same_text(&self.code, &other.code) && same_optional_text(&self.expected, &other.expected)
            && same_optional_text(&self.observed, &other.observed)
    }
}

/// What the disagreements of a list say.
pub open spec fn disagreements_of(list: Seq<OdinTopologyDisagreement>) -> Seq<Disagreement> {
    list.map_values(|disagreement: OdinTopologyDisagreement| disagreement@)
}

/// Why the disagreement at the position is refused, if it is: for a rule of its own, or
/// for its place.
pub open spec fn listed_disagreement_violation(list: Seq<Disagreement>, position: int) -> Option<Seq<char>> {
    first_of(
        disagreement_violation(list[position]),
        unless(
            position == 0 || before(list[position - 1].code, list[position].code),
            "topology disagreements are not strictly sorted and unique by code"@,
        ),
    )
}

/// Why the disagreements are refused, if they are.
pub open spec fn disagreements_violation(list: Seq<Disagreement>) -> Option<Seq<char>> {
    if list.len() > MAX_TOPOLOGY_DISAGREEMENTS {
        Some("topology disagreement count exceeds its contract bound"@)
    } else {
        first_among(|i: int| listed_disagreement_violation(list, i), list.len())
    }
}

pub open spec fn topology_disagreements_violation(list: Seq<OdinTopologyDisagreement>) -> Option<Seq<char>> {
    disagreements_violation(disagreements_of(list))
}

pub fn validate_topology_disagreements(list: &Vec<OdinTopologyDisagreement>) -> (outcome: Result<(), CultNetError>)
    ensures
        reports(outcome, topology_disagreements_violation(list@)),
{
    ensure(
        list.len() <= MAX_TOPOLOGY_DISAGREEMENTS,
        "topology disagreement count exceeds its contract bound",
    )?;
    let ghost all = disagreements_of(list@);
    let ghost reasons = |i: int| listed_disagreement_violation(all, i);
    let mut i: usize = 0;
    while i < list.len()
        invariant
            i <= list@.len() <= MAX_TOPOLOGY_DISAGREEMENTS,
            all == disagreements_of(list@),
            reasons == (|i: int| listed_disagreement_violation(all, i)),
            first_among(reasons, i as nat) is None,
        decreases list@.len() - i,
    {
        let checked = list[i].validate();
        proof {
            assert(all[i as int] == list@[i as int]@);
            assert(reasons(i as int) == listed_disagreement_violation(all, i as int));
            assert(first_among(reasons, (i + 1) as nat) == reasons(i as int));
            if reasons(i as int) is Some {
                first_among_stays(reasons, (i + 1) as nat, list@.len());
            }
            if i > 0 {
                assert(all[i - 1] == list@[i - 1]@);
            }
        }
        if checked.is_err() {
            return checked;
        }
        if i > 0 && !is_before(&list[i - 1].code, &list[i].code) {
            return refuse("topology disagreements are not strictly sorted and unique by code");
        }
        i += 1;
    }
    Ok(())
}

/// Disagreements that are not refused meet their rules, are within the limit, and are
/// strictly sorted by code.
pub proof fn accepted_disagreements_are_sorted(list: Seq<Disagreement>)
    requires
        disagreements_violation(list) is None,
    ensures
        list.len() <= MAX_TOPOLOGY_DISAGREEMENTS,
        forall|i: int| 0 <= i < list.len() ==> disagreement_violation(#[trigger] list[i]) is None,
        forall|i: int| 0 < i < list.len() ==> before(list[i - 1].code, (#[trigger] list[i]).code),
{
    let reasons = |i: int| listed_disagreement_violation(list, i);
    none_among(reasons, list.len());
    assert forall|i: int| 0 <= i < list.len() implies disagreement_violation(#[trigger] list[i]) is None by {
        assert(reasons(i) is None);
    }
    assert forall|i: int| 0 < i < list.len() implies before(list[i - 1].code, (#[trigger] list[i]).code) by {
        assert(reasons(i) is None);
    }
}

proof fn same_disagreements(a: Seq<OdinTopologyDisagreement>, b: Seq<OdinTopologyDisagreement>)
    requires
        record_list(a) == record_list(b),
    ensures
        disagreements_of(a) == disagreements_of(b),
{
    same_record_lists(a, b);
    assert forall|i: int| 0 <= i < a.len() implies disagreements_of(a)[i] == disagreements_of(b)[i] by {
        let (x, y) = (a[i].wire()->Sequence_0, b[i].wire()->Sequence_0);
        assert(x[0] == y[0] && x[1] == y[1] && x[2] == y[2]);
    }
    assert(disagreements_of(a) =~= disagreements_of(b));
}

// ---------------------------------------------------------------------------
// Capabilities against what is required
// ---------------------------------------------------------------------------

/// The capacity that the first claim with the identity states.
pub open spec fn claimed_capacity(
    observed: Seq<GameCultRuntimeCapability>,
    identity: (Seq<char>, Seq<char>, Seq<char>),
) -> Option<u32>
    decreases observed.len(),
{
    if observed.len() == 0 {
        None
    } else if observed[0].identity() == identity {
        Some(observed[0].capacity)
    } else {
        claimed_capacity(observed.drop_first(), identity)
    }
}

/// A required capability in words.
pub open spec fn requirement_text(required: IdunnExpectedCapability) -> Seq<char> {
    required.capability@ + "/"@ + required.schema@ + "/"@ + required.compatibility@ + " capacity>="@ + decimal(
        required.minimum_capacity as nat,
    )
}

/// The disagreement between what is required at the position and what is claimed: the
/// capability is missing, or its capacity is too small.
pub open spec fn capability_disagreement(
    required: IdunnExpectedCapability,
    position: nat,
    observed: Seq<GameCultRuntimeCapability>,
) -> Option<Disagreement> {
    let code = "expected-capability-"@ + zero_padded(position, 3);
    match claimed_capacity(observed, required.identity()) {
        None => Some(
            Disagreement {
                code: code + "-missing"@,
                expected: Some(requirement_text(required)),
                observed: None,
            },
        ),
        Some(capacity) => if capacity < required.minimum_capacity {
            Some(
                Disagreement {
                    code: code + "-capacity"@,
                    expected: Some(requirement_text(required)),
                    observed: Some("capacity="@ + decimal(capacity as nat)),
                },
            )
        } else {
            None
        },
    }
}

/// The disagreements on the first `end` of the required capabilities, in their order.
pub open spec fn capability_disagreements(
    required: Seq<IdunnExpectedCapability>,
    observed: Seq<GameCultRuntimeCapability>,
    end: nat,
) -> Seq<Disagreement>
    decreases end,
{
    if end == 0 {
        Seq::empty()
    } else {
        let earlier = capability_disagreements(required, observed, (end - 1) as nat);
        match capability_disagreement(required[end - 1], (end - 1) as nat, observed) {
            Some(disagreement) => earlier.push(disagreement),
            None => earlier,
        }
    }
}

fn find_claim(observed: &Vec<GameCultRuntimeCapability>, required: &IdunnExpectedCapability) -> (capacity: Option<u32>)
    ensures
        capacity == claimed_capacity(observed@, required.identity()),
{
    let mut i: usize = 0;
    assert(observed@.skip(0) =~= observed@);
    while i < observed.len()
        invariant
            i <= observed@.len(),
            claimed_capacity(observed@.skip(i as int), required.identity()) == claimed_capacity(
                observed@,
                required.identity(),
            ),
        decreases observed@.len() - i,
    {
        let claim = &observed[i];
        assert(observed@.skip(i as int)[0] == *claim);
        assert(observed@.skip(i as int).drop_first() =~= observed@.skip(i + 1));
        if same_text(&claim.capability, &required.capability) && same_text(&claim.schema, &required.schema)
            && same_text(&claim.compatibility, &required.compatibility) {
            return Some(claim.capacity);
        }
        i += 1;
    }
    None
}

fn requirement(required: &IdunnExpectedCapability) -> (text: String)
    ensures
        text@ == requirement_text(*required),
{
    let schema = joined(&joined(&joined(&required.capability, "/"), &required.schema), "/");
    joined(
        &joined(&joined(&schema, &required.compatibility), " capacity>="),
        &decimal_text(required.minimum_capacity as u64),
    )
}

/// Appends the disagreements between what is required and what is claimed.
pub fn correlate_capabilities(
    disagreements: &mut Vec<OdinTopologyDisagreement>,
    required: &Vec<IdunnExpectedCapability>,
    observed: &Vec<GameCultRuntimeCapability>,
)
    ensures
        disagreements_of(final(disagreements)@) == disagreements_of(old(disagreements)@)
            + capability_disagreements(required@, observed@, required@.len()),
{
    let mut i: usize = 0;
    assert(disagreements_of(disagreements@) =~= disagreements_of(old(disagreements)@)
        + capability_disagreements(required@, observed@, 0));
    while i < required.len()
        invariant
            i <= required@.len(),
            disagreements_of(disagreements@) == disagreements_of(old(disagreements)@)
                + capability_disagreements(required@, observed@, i as nat),
        decreases required@.len() - i,
    {
        let wanted = &required[i];
        let code = joined("expected-capability-", &zero_padded_text(i as u64, 3));
        let ghost sofar = disagreements_of(disagreements@);
        match find_claim(observed, wanted) {
            None => {
                let found = OdinTopologyDisagreement {
                    code: joined(&code, "-missing"),
                    expected: Some(requirement(wanted)),
                    observed: None,
                };
                disagreements.push(found);
                assert(disagreements_of(disagreements@) =~= sofar.push(found@));
            },
            Some(capacity) => {
                if capacity < wanted.minimum_capacity {
                    let found = OdinTopologyDisagreement {
                        code: joined(&code, "-capacity"),
                        expected: Some(requirement(wanted)),
                        observed: Some(joined("capacity=", &decimal_text(capacity as u64))),
                    };
                    disagreements.push(found);
                    assert(disagreements_of(disagreements@) =~= sofar.push(found@));
                }
            },
        }
        i += 1;
        assert(disagreements_of(disagreements@) =~= disagreements_of(old(disagreements)@)
            + capability_disagreements(required@, observed@, i as nat));
    }
}

/// Nothing is said on capabilities exactly if each required one is claimed, with at
/// least the required capacity.
pub proof fn capabilities_agree_exactly_if_each_is_claimed(
    required: Seq<IdunnExpectedCapability>,
    observed: Seq<GameCultRuntimeCapability>,
    end: nat,
)
    requires
        end <= required.len(),
    ensures
        capability_disagreements(required, observed, end).len() == 0 <==> forall|i: int|
            0 <= i < end ==> (claimed_capacity(observed, (#[trigger] required[i]).identity()) matches Some(
                capacity,
            ) && capacity >= required[i].minimum_capacity),
    decreases end,
{
    if end > 0 {
        capabilities_agree_exactly_if_each_is_claimed(required, observed, (end - 1) as nat);
    }
}

// ---------------------------------------------------------------------------
// The receipt
// ---------------------------------------------------------------------------

/// Odin-owned signed correlation of Idunn's exact Expected projection with
/// current Idunn activation and provider-signed presence. Presence state and
/// write-lease observation remain explicit so an opaque Ready bit cannot cross
/// Idunn's warming/fencing boundary. The signature covers the canonical
/// positional encoding with `signature` empty.
#[derive(Clone, Debug, PartialEq, Eq)]
pub struct OdinRuntimeTopologyCorrelationRecord {
    pub schema_version: String,
    pub target: String,
    pub expected_projection_sha256: String,
    pub expected: bool,
    pub current_activation_sha256: Option<String>,
    pub signed_presence_sha256: Option<String>,
    pub observed_presence_state: Option<String>,
    pub observed_presence_publisher_sequence: Option<u64>,
    pub observed_write_lease_sha256: Option<String>,
    pub observed_capabilities: Vec<GameCultRuntimeCapability>,
    pub runtime_id: String,
    pub runtime_instance_id: Option<String>,
    pub present: bool,
    pub ready: bool,
    pub dependencies: Vec<OdinRuntimeDependencyEvidence>,
    pub disagreements: Vec<OdinTopologyDisagreement>,
    pub signer_identity_id: String,
    pub publisher_sequence: u64,
    pub observed_at_unix_millis: u64,
    pub signature_algorithm: String,
    pub signature: Vec<u8>,
}

impl Record for OdinRuntimeTopologyCorrelationRecord {
    open spec fn wire(self) -> Wire {
        Wire::Sequence(
            seq![
                Wire::Text(self.schema_version@),
                Wire::Text(self.target@),
                Wire::Text(self.expected_projection_sha256@),
                Wire::Flag(self.expected),
                optional_text(opt(self.current_activation_sha256)),
                optional_text(opt(self.signed_presence_sha256)),
                optional_text(opt(self.observed_presence_state)),
                optional_number(self.observed_presence_publisher_sequence),
                optional_text(opt(self.observed_write_lease_sha256)),
                record_list(self.observed_capabilities@),
                Wire::Text(self.runtime_id@),
                optional_text(opt(self.runtime_instance_id)),
                Wire::Flag(self.present),
                Wire::Flag(self.ready),
                record_list(self.dependencies@),
                record_list(self.disagreements@),
                Wire::Text(self.signer_identity_id@),
                Wire::Unsigned(self.publisher_sequence),
                Wire::Unsigned(self.observed_at_unix_millis),
                Wire::Text(self.signature_algorithm@),
                Wire::Binary(self.signature@),
            ],
        )
    }

    open spec fn width() -> nat {
        21
    }

    open spec fn depth() -> nat {
        3
    }

    open spec fn violation(self) -> Option<Seq<char>> {
        self.shape_violation(false)
    }

    proof fn shape(self) {
        let fields = self.wire()->Sequence_0;
        record_list_is_plain(self.observed_capabilities@);
        record_list_is_plain(self.dependencies@);
        record_list_is_plain(self.disagreements@);
        assert forall|i: int| 0 <= i < fields.len() implies plain(#[trigger] fields[i]) by {}
    }

    #[verifier::rlimit(60)]
    proof fn valid_is_carried(self) {
        self.valid_fields_are_short();
        self.valid_lists_are_carried();
        let fields = self.wire()->Sequence_0;
        assert(fields[9] == record_list(self.observed_capabilities@));
        assert(fields[14] == record_list(self.dependencies@));
        assert(fields[15] == record_list(self.disagreements@));
        assert forall|i: int| 0 <= i < fields.len() implies carried(#[trigger] fields[i], 2) by {
            if i != 9 && i != 14 && i != 15 {
                assert(!(fields[i] is Sequence));
            }
        }
    }

    proof fn wire_decides(self, other: Self) {
        let (a, b) = (self.wire()->Sequence_0, other.wire()->Sequence_0);
        assert(a[0] == b[0] && a[1] == b[1] && a[2] == b[2] && a[3] == b[3] && a[4] == b[4] && a[5] == b[5]);
        assert(a[6] == b[6] && a[7] == b[7] && a[8] == b[8] && a[9] == b[9] && a[10] == b[10] && a[11] == b[11]);
        assert(a[12] == b[12] && a[13] == b[13] && a[14] == b[14] && a[15] == b[15] && a[16] == b[16] && a[17] == b[17]);
        assert(a[18] == b[18] && a[19] == b[19] && a[20] == b[20]);
        same_record_lists(self.observed_capabilities@, other.observed_capabilities@);
        same_record_lists(self.dependencies@, other.dependencies@);
        same_record_lists(self.disagreements@, other.disagreements@);
        reveal(OdinRuntimeTopologyCorrelationRecord::shape_violation);
        same_lists_same_violation(
            self.observed_capabilities@,
            other.observed_capabilities@,
            MAX_RUNTIME_CAPABILITIES as int,
            "runtime presence capability count exceeds its contract bound"@,
            "runtime capabilities are not strictly sorted and unique"@,
        );
        same_lists_same_violation(
            self.dependencies@,
            other.dependencies@,
            MAX_RUNTIME_DEPENDENCIES as int,
            "dependency evidence count exceeds its contract bound"@,
            "dependency evidence is not strictly sorted and unique"@,
        );
        same_disagreements(self.disagreements@, other.disagreements@);
        same_readiness(self.dependencies@, other.dependencies@);
    }

    fn to_wire(&self) -> (field: WireValue) {
        let field = sequence_field(
            vec![
                text_field(&self.schema_version),
                text_field(&self.target),
                text_field(&self.expected_projection_sha256),
                flag_field(self.expected),
                optional_text_field(&self.current_activation_sha256),
                optional_text_field(&self.signed_presence_sha256),
                optional_text_field(&self.observed_presence_state),
                optional_number_field(self.observed_presence_publisher_sequence),
                optional_text_field(&self.observed_write_lease_sha256),
                record_list_field(&self.observed_capabilities),
                text_field(&self.runtime_id),
                optional_text_field(&self.runtime_instance_id),
                flag_field(self.present),
                flag_field(self.ready),
                record_list_field(&self.dependencies),
                record_list_field(&self.disagreements),
                text_field(&self.signer_identity_id),
                number_field(self.publisher_sequence),
                number_field(self.observed_at_unix_millis),
                text_field(&self.signature_algorithm),
                binary_field(&self.signature),
            ],
        );
        assert(field@->Sequence_0 =~= self.wire()->Sequence_0);
        field
    }

    fn from_wire(field: &WireValue) -> (record: Option<Self>) {
        let items = match read_items(field, 21) {
            Some(found) => found,
            None => {
                return None;
            },
        };
        let ghost all = trees(items@);
        assert forall|any: Self| #[trigger] any.wire() == field@ implies {
            &&& all[0] is Text
            &&& all[1] is Text
            &&& all[2] is Text
            &&& all[3] is Flag
            &&& all[4] is Text || all[4] is Nil
            &&& all[5] is Text || all[5] is Nil
            &&& all[6] is Text || all[6] is Nil
            &&& all[7] is Unsigned || all[7] is Nil
            &&& all[8] is Text || all[8] is Nil
            &&& all[9] == record_list(any.observed_capabilities@)
            &&& all[10] is Text
            &&& all[11] is Text || all[11] is Nil
            &&& all[12] is Flag
            &&& all[13] is Flag
            &&& all[14] == record_list(any.dependencies@)
            &&& all[15] == record_list(any.disagreements@)
            &&& all[16] is Text
            &&& all[17] is Unsigned
            &&& all[18] is Unsigned
            &&& all[19] is Text
            &&& all[20] is Binary
        } by {
            assert(any.wire()->Sequence_0 == all);
        }
        let record = OdinRuntimeTopologyCorrelationRecord {
            schema_version: read_text(&items[0])?,
            target: read_text(&items[1])?,
            expected_projection_sha256: read_text(&items[2])?,
            expected: read_flag(&items[3])?,
            current_activation_sha256: read_optional_text(&items[4])?,
            signed_presence_sha256: read_optional_text(&items[5])?,
            observed_presence_state: read_optional_text(&items[6])?,
            observed_presence_publisher_sequence: read_optional_number(&items[7])?,
            observed_write_lease_sha256: read_optional_text(&items[8])?,
            observed_capabilities: read_record_list(&items[9])?,
            runtime_id: read_text(&items[10])?,
            runtime_instance_id: read_optional_text(&items[11])?,
            present: read_flag(&items[12])?,
            ready: read_flag(&items[13])?,
            dependencies: read_record_list(&items[14])?,
            disagreements: read_record_list(&items[15])?,
            signer_identity_id: read_text(&items[16])?,
            publisher_sequence: read_number(&items[17])?,
            observed_at_unix_millis: read_number(&items[18])?,
            signature_algorithm: read_text(&items[19])?,
            signature: read_binary(&items[20])?,
        };
        assert(record.wire()->Sequence_0 =~= all);
        Some(record)
    }

    fn check(&self) -> (outcome: Result<(), CultNetError>) {
        self.validate()
    }
}

impl CanonicalRecord for OdinRuntimeTopologyCorrelationRecord {
    const WIDTH_REFUSAL: &'static str = "topology correlation is not the 21-field positional contract";

    const MALFORMED_REFUSAL: &'static str = "decoding runtime topology correlation";

    const NONCANONICAL_REFUSAL: &'static str = "topology correlation is not canonical positional MessagePack";

    const RULES_FIRST: bool = false;
}

impl OdinRuntimeTopologyCorrelationRecord {
    /// Why digest, state, sequence and lease of the observed presence do not fit
    /// together: all are missing, or the first three are there, the state is one that a
    /// provider may state, and a warming runtime has no lease.
    pub open spec fn observation_violation(self) -> Option<Seq<char>> {
        if self.signed_presence_sha256 is None && self.observed_presence_state is None
            && self.observed_presence_publisher_sequence is None && self.observed_write_lease_sha256 is None {
            None
        } else if self.signed_presence_sha256 is Some && self.observed_presence_publisher_sequence is Some && (
        self.observed_presence_state matches Some(state) && provider_state(state@)) {
            unless(
                !(opt(self.observed_presence_state) == Some("warming"@)
                    && self.observed_write_lease_sha256 is Some),
                "warming topology presence cannot carry a process write lease"@,
            )
        } else {
            Some("signed presence state, sequence, or write-lease observation is partial"@)
        }
    }

    /// Activation, presence, its sequence and the instance are all there.
    pub open spec fn has_session(self) -> bool {
        &&& self.current_activation_sha256 is Some
        &&& self.signed_presence_sha256 is Some
        &&& self.observed_presence_publisher_sequence is Some
        &&& self.runtime_instance_id is Some
    }

    /// What Ready needs: a present and active runtime, no disagreement, and every
    /// dependency that is not optional ready.
    pub open spec fn supports_ready(self) -> bool {
        &&& self.present
        &&& opt(self.observed_presence_state) == Some("active"@)
        &&& self.disagreements@.len() == 0
        &&& dependencies_are_ready(self.dependencies@)
    }

    /// Sequence, time, algorithm and signature are as a receipt has them; one that is
    /// still to be signed may lack the signature.
    pub open spec fn receipt_is_valid(self, allow_unsigned: bool) -> bool {
        &&& self.publisher_sequence != 0
        &&& self.observed_at_unix_millis != 0
        &&& self.signature_algorithm@ == "ed25519"@
        &&& self.signature@.len() == 64 || (allow_unsigned && self.signature@.len() == 0)
    }

    /// Why the record is refused, if it is.
    #[verifier::opaque]
    pub open spec fn shape_violation(self, allow_unsigned: bool) -> Option<Seq<char>> {
        if self.schema_version@ != ODIN_RUNTIME_TOPOLOGY_CORRELATION_SCHEMA@ {
            Some("topology correlation schema is unsupported"@)
        } else if authority_violation(self.target@, "target"@) is Some {
            authority_violation(self.target@, "target"@)
        } else if sha256_violation(self.expected_projection_sha256@, "correlation expected projection sha256"@) is Some {
            sha256_violation(self.expected_projection_sha256@, "correlation expected projection sha256"@)
        } else if !self.expected {
            Some("topology correlation cannot deny the Expected record it binds"@)
        } else if optional_sha256_violation(opt(self.current_activation_sha256), "current activation sha256"@) is Some {
            optional_sha256_violation(opt(self.current_activation_sha256), "current activation sha256"@)
        } else if optional_sha256_violation(opt(self.signed_presence_sha256), "signed presence sha256"@) is Some {
            optional_sha256_violation(opt(self.signed_presence_sha256), "signed presence sha256"@)
        } else if optional_authority_violation(opt(self.observed_presence_state), "observed presence state"@) is Some {
            optional_authority_violation(opt(self.observed_presence_state), "observed presence state"@)
        } else if self.observed_presence_publisher_sequence == Some(0u64) {
            Some("observed presence publisher sequence is zero"@)
        } else if optional_sha256_violation(opt(self.observed_write_lease_sha256), "observed write lease sha256"@) is Some {
            optional_sha256_violation(opt(self.observed_write_lease_sha256), "observed write lease sha256"@)
        } else if runtime_capabilities_violation(self.observed_capabilities@) is Some {
            runtime_capabilities_violation(self.observed_capabilities@)
        } else if self.signed_presence_sha256 is None && self.observed_capabilities@.len() > 0 {
            Some("topology correlation has capabilities without signed presence"@)
        } else if self.observation_violation() is Some {
            self.observation_violation()
        } else if authority_violation(self.runtime_id@, "runtime id"@) is Some {
            authority_violation(self.runtime_id@, "runtime id"@)
        } else if optional_sha256_violation(opt(self.runtime_instance_id), "runtime instance id"@) is Some {
            optional_sha256_violation(opt(self.runtime_instance_id), "runtime instance id"@)
        } else if (self.runtime_instance_id is Some) != (self.current_activation_sha256 is Some || self.signed_presence_sha256 is Some) {
            Some("runtime instance identity and observation evidence are partial"@)
        } else if self.present && !self.has_session() {
            Some("Present topology state lacks an authenticated runtime session"@)
        } else if dependency_evidence_violation(self.dependencies@) is Some {
            dependency_evidence_violation(self.dependencies@)
        } else if topology_disagreements_violation(self.disagreements@) is Some {
            topology_disagreements_violation(self.disagreements@)
        } else if self.current_activation_sha256 is Some && self.signed_presence_sha256 is Some && !self.present {
            Some("authenticated runtime session cannot be projected as not Present"@)
        } else if (self.current_activation_sha256 is Some) != (self.signed_presence_sha256 is Some) && self.disagreements@.len() == 0 {
            Some("partial or rejected runtime evidence lacks an explicit disagreement"@)
        } else if self.ready && !self.supports_ready() {
            Some("Ready topology state is not supported by correlated evidence"@)
        } else if authority_violation(self.signer_identity_id@, "signer identity id"@) is Some {
            authority_violation(self.signer_identity_id@, "signer identity id"@)
        } else if !self.receipt_is_valid(allow_unsigned) {
            Some("topology correlation sequence, time, or signature is invalid"@)
        } else {
            None
        }
    }

    /// The positional form with its signature empty: what Odin signs.
    pub open spec fn unsigned_wire(self) -> Wire {
        Wire::Sequence(self.wire()->Sequence_0.update(20, Wire::Binary(Seq::empty())))
    }

    /// In a record that meets its rules texts are short and lists are not refused.
    proof fn valid_fields_are_short(self)
        requires
            self.violation() is None,
        ensures
            byte_length(self.schema_version@) <= u32::MAX,
            byte_length(self.target@) <= u32::MAX,
            byte_length(self.expected_projection_sha256@) <= u32::MAX,
            opt(self.current_activation_sha256) matches Some(text) ==> byte_length(text) <= u32::MAX,
            opt(self.signed_presence_sha256) matches Some(text) ==> byte_length(text) <= u32::MAX,
            opt(self.observed_presence_state) matches Some(text) ==> byte_length(text) <= u32::MAX,
            opt(self.observed_write_lease_sha256) matches Some(text) ==> byte_length(text) <= u32::MAX,
            byte_length(self.runtime_id@) <= u32::MAX,
            opt(self.runtime_instance_id) matches Some(text) ==> byte_length(text) <= u32::MAX,
            byte_length(self.signer_identity_id@) <= u32::MAX,
            byte_length(self.signature_algorithm@) <= u32::MAX,
            self.signature@.len() == 64,
            runtime_capabilities_violation(self.observed_capabilities@) is None,
            dependency_evidence_violation(self.dependencies@) is None,
            topology_disagreements_violation(self.disagreements@) is None,
    {
        reveal(OdinRuntimeTopologyCorrelationRecord::shape_violation);
        broadcast use sha256_reference_is_short;

        byte_length_is_bounded(self.schema_version@);
        reveal_strlit("odin.runtime_topology_correlation.v2");
        byte_length_is_bounded(self.signature_algorithm@);
        reveal_strlit("ed25519");
    }

    /// In a record that meets its rules the lists fit MessagePack's bounds.
    proof fn valid_lists_are_carried(self)
        requires
            runtime_capabilities_violation(self.observed_capabilities@) is None,
            dependency_evidence_violation(self.dependencies@) is None,
            topology_disagreements_violation(self.disagreements@) is None,
        ensures
            carried(record_list(self.observed_capabilities@), 2),
            carried(record_list(self.dependencies@), 2),
            carried(record_list(self.disagreements@), 2),
    {
        accepted_list_is_sorted(
            self.observed_capabilities@,
            MAX_RUNTIME_CAPABILITIES as int,
            "runtime presence capability count exceeds its contract bound"@,
            "runtime capabilities are not strictly sorted and unique"@,
        );
        accepted_list_is_sorted(
            self.dependencies@,
            MAX_RUNTIME_DEPENDENCIES as int,
            "dependency evidence count exceeds its contract bound"@,
            "dependency evidence is not strictly sorted and unique"@,
        );
        accepted_disagreements_are_sorted(disagreements_of(self.disagreements@));
        assert forall|i: int| 0 <= i < self.disagreements@.len() implies (
        #[trigger] self.disagreements@[i]).violation() is None by {
            assert(disagreements_of(self.disagreements@)[i] == self.disagreements@[i]@);
        }
        record_list_is_carried(self.observed_capabilities@);
        record_list_is_carried(self.dependencies@);
        record_list_is_carried(self.disagreements@);
    }

    /// A signed record that meets its rules meets them without its signature.
    proof fn signed_is_well_shaped(self)
        requires
            self.violation() is None,
        ensures
            self.shape_violation(true) is None,
    {
        reveal(OdinRuntimeTopologyCorrelationRecord::shape_violation);
    }

    /// The record in the canonical payload, and the bytes that its signature covers.
    pub fn decode_canonical_signed_payload(payload: &[u8]) -> (outcome: Result<(Self, Vec<u8>), CultNetError>)
        ensures
            exists|decoded: Result<Self, CultNetError>|
                {
                    &&& #[trigger] decoded_canonically(payload@, decoded)
                    &&& match decoded {
                        Ok(record) => outcome matches Ok(pair) && pair.0 == record && pair.1@
                            == messagepack_encoding(record.unsigned_wire()),
                        Err(error) => outcome == Err::<(Self, Vec<u8>), CultNetError>(error),
                    }
                },
    {
        let decoded: Result<Self, CultNetError> = decode_canonical_record(payload, 21);
        let ghost witness = decoded;
        assert(decoded_canonically(payload@, witness));
        match decoded {
            Err(error) => Err(error),
            Ok(receipt) => {
                proof {
                    receipt.signed_is_well_shaped();
                }
                let unsigned = receipt.unsigned_signature_payload()?;
                Ok((receipt, unsigned))
            },
        }
    }

    pub fn unsigned_signature_payload(&self) -> (outcome: Result<Vec<u8>, CultNetError>)
        ensures
            reports(outcome, self.shape_violation(true)),
            outcome matches Ok(bytes) ==> bytes@ == messagepack_encoding(self.unsigned_wire()),
    {
        self.validate_shape(true)?;
        let empty: Vec<u8> = Vec::new();
        let unsigned = with_field(self.to_wire(), 20, binary_field(&empty));
        assert(empty@ =~= Seq::empty());
        proof {
            self.shape();
            plain_with_field(self.wire(), 20, Wire::Binary(Seq::empty()));
        }
        Ok(encode_messagepack(&unsigned))
    }

    pub fn canonical_bytes(&self) -> (outcome: Result<Vec<u8>, CultNetError>)
        ensures
            reports(outcome, self.violation()),
            outcome matches Ok(bytes) ==> bytes@ == messagepack_encoding(self.wire()),
    {
        canonical_record_bytes(self)
    }

    pub fn canonical_sha256(&self) -> (outcome: Result<String, CultNetError>)
        ensures
            reports(outcome, self.violation()),
            outcome matches Ok(digest) ==> digest@ == canonical_digest(*self) && sha256_reference(digest@),
    {
        canonical_record_sha256(self)
    }

    pub fn validate(&self) -> (outcome: Result<(), CultNetError>)
        ensures
            reports(outcome, self.violation()),
    {
        self.validate_shape(false)
    }

    fn check_observation(&self) -> (outcome: Result<(), CultNetError>)
        ensures
            reports(outcome, self.observation_violation()),
    {
        match (
            &self.signed_presence_sha256,
            &self.observed_presence_state,
            self.observed_presence_publisher_sequence,
        ) {
            (None, None, None) => ensure(
                self.observed_write_lease_sha256.is_none(),
                "signed presence state, sequence, or write-lease observation is partial",
            ),
            (Some(_), Some(state), Some(_)) => {
                ensure(
                    is_provider_state(state),
                    "signed presence state, sequence, or write-lease observation is partial",
                )?;
                ensure(
                    !(same_text(state, "warming") && self.observed_write_lease_sha256.is_some()),
                    "warming topology presence cannot carry a process write lease",
                )
            },
            _ => refuse("signed presence state, sequence, or write-lease observation is partial"),
        }
    }

    fn validate_shape(&self, allow_unsigned: bool) -> (outcome: Result<(), CultNetError>)
        ensures
            reports(outcome, self.shape_violation(allow_unsigned)),
    {
        reveal(OdinRuntimeTopologyCorrelationRecord::shape_violation);
        ensure(
            same_text(&self.schema_version, ODIN_RUNTIME_TOPOLOGY_CORRELATION_SCHEMA),
            "topology correlation schema is unsupported",
        )?;
        check_authority(&self.target, "target")?;
        check_sha256(&self.expected_projection_sha256, "correlation expected projection sha256")?;
        ensure(
            self.expected,
            "topology correlation cannot deny the Expected record it binds",
        )?;
        check_optional_sha256(&self.current_activation_sha256, "current activation sha256")?;
        check_optional_sha256(&self.signed_presence_sha256, "signed presence sha256")?;
        check_optional_authority(&self.observed_presence_state, "observed presence state")?;
        ensure(
            self.observed_presence_publisher_sequence != Some(0u64),
            "observed presence publisher sequence is zero",
        )?;
        check_optional_sha256(&self.observed_write_lease_sha256, "observed write lease sha256")?;
        validate_runtime_capabilities(&self.observed_capabilities)?;
        ensure(
            !(self.signed_presence_sha256.is_none() && self.observed_capabilities.len() > 0),
            "topology correlation has capabilities without signed presence",
        )?;
        self.check_observation()?;
        check_authority(&self.runtime_id, "runtime id")?;
        check_optional_sha256(&self.runtime_instance_id, "runtime instance id")?;
        let has_activation = self.current_activation_sha256.is_some();
        let has_presence = self.signed_presence_sha256.is_some();
        ensure(
            self.runtime_instance_id.is_some() == (has_activation || has_presence),
            "runtime instance identity and observation evidence are partial",
        )?;
        ensure(
            !self.present || (has_activation && has_presence
                && self.observed_presence_publisher_sequence.is_some() && self.runtime_instance_id.is_some()),
            "Present topology state lacks an authenticated runtime session",
        )?;
        validate_dependency_evidence(&self.dependencies)?;
        validate_topology_disagreements(&self.disagreements)?;
        ensure(
            !(has_activation && has_presence && !self.present),
            "authenticated runtime session cannot be projected as not Present",
        )?;
        ensure(
            !(has_activation != has_presence && self.disagreements.len() == 0),
            "partial or rejected runtime evidence lacks an explicit disagreement",
        )?;
        ensure(
            !self.ready || (self.present && holds_text(&self.observed_presence_state, "active")
                && self.disagreements.len() == 0 && are_dependencies_ready(&self.dependencies)),
            "Ready topology state is not supported by correlated evidence",
        )?;
        check_authority(&self.signer_identity_id, "signer identity id")?;
        let signature_is_valid = self.signature.len() == 64 || (allow_unsigned && self.signature.len() == 0);
        ensure(
            self.publisher_sequence != 0 && self.observed_at_unix_millis != 0 && same_text(
                &self.signature_algorithm,
                "ed25519",
            ) && signature_is_valid,
            "topology correlation sequence, time, or signature is invalid",
        )
    }
}

/// No receipt that meets its rules makes Ready up: the runtime is present and active
/// in an authenticated session, nothing is in disagreement, and every dependency that
/// is not optional is ready.
pub proof fn ready_is_never_manufactured(receipt: OdinRuntimeTopologyCorrelationRecord)
    requires
        receipt.violation() is None,
        receipt.ready,
    ensures
        receipt.present,
        receipt.has_session(),
        opt(receipt.observed_presence_state) == Some("active"@),
        receipt.disagreements@.len() == 0,
        dependencies_are_ready(receipt.dependencies@),
{
    reveal(OdinRuntimeTopologyCorrelationRecord::shape_violation);
}

/// In every receipt that meets its rules, Present says exactly that activation and
/// presence are both there, and where only one of them is, a disagreement says why.
pub proof fn present_is_exactly_an_authenticated_session(receipt: OdinRuntimeTopologyCorrelationRecord)
    requires
        receipt.violation() is None,
    ensures
        receipt.present <==> receipt.current_activation_sha256 is Some && receipt.signed_presence_sha256 is Some,
        (receipt.current_activation_sha256 is Some) != (receipt.signed_presence_sha256 is Some)
            ==> receipt.disagreements@.len() > 0,
        opt(receipt.observed_presence_state) == Some("warming"@) ==> receipt.observed_write_lease_sha256 is None,
{
    reveal(OdinRuntimeTopologyCorrelationRecord::shape_violation);
}

}

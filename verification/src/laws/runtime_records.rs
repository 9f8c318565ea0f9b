//! The runtime records: which values are taken, and in which words the others are
//! refused.
use vstd::prelude::*;
use vstd::utf8::encode_utf8;
use super::words::{
    digest_if_there, digest_text, hex_digits_of, hex_texts_are_plain, in_turn, leads,
    lower_hex_digits, no_control_is_plain, prefixes_lead, reads, rejoined, says,
    splitting_is_undone_by_joining, text_rules, the_only_reason_counts, tidy, tidy_if_there,
    triples_are_ordered_text_by_text,
};
use crate::error::{first_among, none_among, CultNetError};
use crate::primitives::sha256_digest;
use crate::record::{member_violation, sorted_list_violation, Identified, Record};
use crate::runtime_authority_contracts::activation::IdunnRuntimeActivationRecord;
use crate::runtime_authority_contracts::capability::{
    validate_expected_capabilities, validate_runtime_capabilities, GameCultRuntimeCapability,
    IdunnExpectedCapability,
};
use crate::runtime_authority_contracts::expected::{
    canonical_repository, repository_letter, repository_segment, validate_expected_dependencies,
    validate_source_repository, IdunnExpectedDependency, IdunnExpectedIncarnationRecord,
    IdunnExpectedRoute,
};
use crate::runtime_authority_contracts::lease::IdunnProcessWriteLeaseRecord;
use crate::runtime_authority_contracts::presence::GameCultRuntimePresenceHealthRecord;
use crate::runtime_authority_contracts::topology::{
    dependencies_are_ready, disagreements_of, listed_disagreement_violation,
    topology_disagreements_violation, validate_dependency_evidence,
    validate_topology_disagreements, OdinRuntimeDependencyEvidence,
    OdinRuntimeTopologyCorrelationRecord, OdinTopologyDisagreement,
};
use crate::text::{control, split};

verus! {

/// What is asked of the record.
pub open spec fn runtime_capability_fits(record: GameCultRuntimeCapability) -> bool {
    &&& tidy(record.capability@, 256)
    &&& tidy(record.schema@, 256)
    &&& tidy(record.compatibility@, 256)
    &&& record.capacity > 0
}

/// A runtime capability is taken exactly if it is named, has a schema and a
/// compatibility, and some capacity.
pub proof fn runtime_capability_rules_are_exact(record: &GameCultRuntimeCapability, outcome: Result<(), CultNetError>)
    requires
        call_ensures(GameCultRuntimeCapability::validate, (record,), outcome),
    ensures
        ({
            if !(tidy(record.capability@, 256)) {
                says(outcome, "capability"@ + " is empty, oversized, padded, or contains control characters"@)
            } else if !(tidy(record.schema@, 256)) {
                says(outcome, "capability schema"@ + " is empty, oversized, padded, or contains control characters"@)
            } else if !(tidy(record.compatibility@, 256)) {
                says(outcome, "capability compatibility"@ + " is empty, oversized, padded, or contains control characters"@)
            } else if !(record.capacity > 0) {
                says(outcome, "runtime capability capacity is zero"@)
            } else {
                outcome is Ok
            }
        }),
        outcome is Ok <==> runtime_capability_fits(*record),
        record.violation() is None <==> runtime_capability_fits(*record),
{
    broadcast use text_rules;

}

proof fn runtime_capability_is_taken(record: GameCultRuntimeCapability)
    ensures
        record.violation() is None <==> runtime_capability_fits(record),
{
    broadcast use text_rules;

}

/// At most 256 items that fit, each with a capability, schema and compatibility that come
/// strictly after those of the one before it.
pub open spec fn runtime_capability_list_fits(items: Seq<GameCultRuntimeCapability>) -> bool {
    &&& items.len() <= 256
    &&& forall|i: int| 0 <= i < items.len() ==> runtime_capability_fits(#[trigger] items[i])
    &&& forall|i: int| 0 < i < items.len() ==> in_turn(
        items[i - 1].capability@,
        items[i - 1].schema@,
        items[i - 1].compatibility@,
        (#[trigger] items[i]).capability@,
        items[i].schema@,
        items[i].compatibility@,
    )
}

proof fn runtime_capability_list_is_taken(items: Seq<GameCultRuntimeCapability>)
    ensures
        sorted_list_violation(items, 256, "runtime presence capability count exceeds its contract bound"@, "runtime capabilities are not strictly sorted and unique"@) is None <==> runtime_capability_list_fits(items),
{
    let reasons = |i: int| member_violation(items, i, "runtime capabilities are not strictly sorted and unique"@);
    none_among(reasons, items.len());
    assert forall|i: int| 0 <= i < items.len() implies (#[trigger] items[i]).violation() is None <==> runtime_capability_fits(items[i]) by {
        runtime_capability_is_taken(items[i]);
    }
    if items.len() <= 256 {
        assert(sorted_list_violation(items, 256, "runtime presence capability count exceeds its contract bound"@, "runtime capabilities are not strictly sorted and unique"@) == first_among(reasons, items.len()));
        if first_among(reasons, items.len()) is None {
            assert forall|i: int| 0 <= i < items.len() implies runtime_capability_fits(#[trigger] items[i]) by {
                assert(reasons(i) is None);
            }
            assert forall|i: int| 0 < i < items.len() implies in_turn(
                items[i - 1].capability@,
                items[i - 1].schema@,
                items[i - 1].compatibility@,
                (#[trigger] items[i]).capability@,
                items[i].schema@,
                items[i].compatibility@,
            ) by {
                assert(reasons(i) is None);
                triples_are_ordered_text_by_text(items[i - 1].identity(), items[i].identity());
            }
        }
        if runtime_capability_list_fits(items) {
            assert forall|i: int| 0 <= i < items.len() implies (#[trigger] reasons(i)) is None by {
                assert(runtime_capability_fits(items[i]));
                if i > 0 {
                    triples_are_ordered_text_by_text(items[i - 1].identity(), items[i].identity());
                }
            }
        }
    }
}

/// The list is taken exactly if it fits; a list that is too long, and one whose items fit
/// but stand in another order, is refused in these words.
pub proof fn runtime_capability_lists_are_exact(items: &Vec<GameCultRuntimeCapability>, outcome: Result<(), CultNetError>)
    requires
        call_ensures(validate_runtime_capabilities, (items,), outcome),
    ensures
        outcome is Ok <==> runtime_capability_list_fits(items@),
        items@.len() > 256 ==> says(outcome, "runtime presence capability count exceeds its contract bound"@),
        items@.len() <= 256 && outcome is Err && (forall|i: int|
            0 <= i < items@.len() ==> runtime_capability_fits(#[trigger] items@[i])) ==> says(outcome, "runtime capabilities are not strictly sorted and unique"@),
{
    runtime_capability_list_is_taken(items@);
    if items@.len() <= 256 && outcome is Err && (forall|i: int|
        0 <= i < items@.len() ==> runtime_capability_fits(#[trigger] items@[i])) {
        let reasons = |i: int| member_violation(items@, i, "runtime capabilities are not strictly sorted and unique"@);
        none_among(reasons, items@.len());
        assert forall|i: int| 0 <= i < items@.len() implies (#[trigger] reasons(i)) is None || reasons(i) == Some("runtime capabilities are not strictly sorted and unique"@) by {
            runtime_capability_is_taken(items@[i]);
        }
        the_only_reason_counts(reasons, items@.len(), "runtime capabilities are not strictly sorted and unique"@);
        assert(sorted_list_violation(items@, 256, "runtime presence capability count exceeds its contract bound"@, "runtime capabilities are not strictly sorted and unique"@) == first_among(reasons, items@.len()));
    }
}

/// What is asked of the record.
pub open spec fn expected_capability_fits(record: IdunnExpectedCapability) -> bool {
    &&& tidy(record.capability@, 256)
    &&& tidy(record.schema@, 256)
    &&& tidy(record.compatibility@, 256)
    &&& record.minimum_capacity > 0
}

/// A required capability is taken exactly if it is named, has a schema and a
/// compatibility, and asks for some capacity.
pub proof fn expected_capability_rules_are_exact(record: &IdunnExpectedCapability, outcome: Result<(), CultNetError>)
    requires
        call_ensures(IdunnExpectedCapability::validate, (record,), outcome),
    ensures
        ({
            if !(tidy(record.capability@, 256)) {
                says(outcome, "Expected capability"@ + " is empty, oversized, padded, or contains control characters"@)
            } else if !(tidy(record.schema@, 256)) {
                says(outcome, "Expected capability schema"@ + " is empty, oversized, padded, or contains control characters"@)
            } else if !(tidy(record.compatibility@, 256)) {
                says(outcome, "Expected capability compatibility"@ + " is empty, oversized, padded, or contains control characters"@)
            } else if !(record.minimum_capacity > 0) {
                says(outcome, "Expected capability minimum capacity is zero"@)
            } else {
                outcome is Ok
            }
        }),
        outcome is Ok <==> expected_capability_fits(*record),
        record.violation() is None <==> expected_capability_fits(*record),
{
    broadcast use text_rules;

}

proof fn expected_capability_is_taken(record: IdunnExpectedCapability)
    ensures
        record.violation() is None <==> expected_capability_fits(record),
{
    broadcast use text_rules;

}

/// At most 256 items that fit, each with a capability, schema and compatibility that come
/// strictly after those of the one before it.
pub open spec fn expected_capability_list_fits(items: Seq<IdunnExpectedCapability>) -> bool {
    &&& items.len() <= 256
    &&& forall|i: int| 0 <= i < items.len() ==> expected_capability_fits(#[trigger] items[i])
    &&& forall|i: int| 0 < i < items.len() ==> in_turn(
        items[i - 1].capability@,
        items[i - 1].schema@,
        items[i - 1].compatibility@,
        (#[trigger] items[i]).capability@,
        items[i].schema@,
        items[i].compatibility@,
    )
}

proof fn expected_capability_list_is_taken(items: Seq<IdunnExpectedCapability>)
    ensures
        sorted_list_violation(items, 256, "Expected capability count exceeds its contract bound"@, "Expected capabilities are not strictly sorted and unique"@) is None <==> expected_capability_list_fits(items),
{
    let reasons = |i: int| member_violation(items, i, "Expected capabilities are not strictly sorted and unique"@);
    none_among(reasons, items.len());
    assert forall|i: int| 0 <= i < items.len() implies (#[trigger] items[i]).violation() is None <==> expected_capability_fits(items[i]) by {
        expected_capability_is_taken(items[i]);
    }
    if items.len() <= 256 {
        assert(sorted_list_violation(items, 256, "Expected capability count exceeds its contract bound"@, "Expected capabilities are not strictly sorted and unique"@) == first_among(reasons, items.len()));
        if first_among(reasons, items.len()) is None {
            assert forall|i: int| 0 <= i < items.len() implies expected_capability_fits(#[trigger] items[i]) by {
                assert(reasons(i) is None);
            }
            assert forall|i: int| 0 < i < items.len() implies in_turn(
                items[i - 1].capability@,
                items[i - 1].schema@,
                items[i - 1].compatibility@,
                (#[trigger] items[i]).capability@,
                items[i].schema@,
                items[i].compatibility@,
            ) by {
                assert(reasons(i) is None);
                triples_are_ordered_text_by_text(items[i - 1].identity(), items[i].identity());
            }
        }
        if expected_capability_list_fits(items) {
            assert forall|i: int| 0 <= i < items.len() implies (#[trigger] reasons(i)) is None by {
                assert(expected_capability_fits(items[i]));
                if i > 0 {
                    triples_are_ordered_text_by_text(items[i - 1].identity(), items[i].identity());
                }
            }
        }
    }
}

/// The list is taken exactly if it fits; a list that is too long, and one whose items fit
/// but stand in another order, is refused in these words.
pub proof fn expected_capability_lists_are_exact(items: &Vec<IdunnExpectedCapability>, outcome: Result<(), CultNetError>)
    requires
        call_ensures(validate_expected_capabilities, (items,), outcome),
    ensures
        outcome is Ok <==> expected_capability_list_fits(items@),
        items@.len() > 256 ==> says(outcome, "Expected capability count exceeds its contract bound"@),
        items@.len() <= 256 && outcome is Err && (forall|i: int|
            0 <= i < items@.len() ==> expected_capability_fits(#[trigger] items@[i])) ==> says(outcome, "Expected capabilities are not strictly sorted and unique"@),
{
    expected_capability_list_is_taken(items@);
    if items@.len() <= 256 && outcome is Err && (forall|i: int|
        0 <= i < items@.len() ==> expected_capability_fits(#[trigger] items@[i])) {
        let reasons = |i: int| member_violation(items@, i, "Expected capabilities are not strictly sorted and unique"@);
        none_among(reasons, items@.len());
        assert forall|i: int| 0 <= i < items@.len() implies (#[trigger] reasons(i)) is None || reasons(i) == Some("Expected capabilities are not strictly sorted and unique"@) by {
            expected_capability_is_taken(items@[i]);
        }
        the_only_reason_counts(reasons, items@.len(), "Expected capabilities are not strictly sorted and unique"@);
        assert(sorted_list_violation(items@, 256, "Expected capability count exceeds its contract bound"@, "Expected capabilities are not strictly sorted and unique"@) == first_among(reasons, items@.len()));
    }
}

/// What is asked of the record.
pub open spec fn route_fits(record: IdunnExpectedRoute) -> bool {
    &&& tidy(record.route_id@, 256)
    &&& tidy(record.stable_endpoint@, 2048)
    &&& tidy(record.candidate_endpoint@, 2048)
    &&& record.stable_endpoint@ != record.candidate_endpoint@
    &&& (record.transport@ == "http"@ ==> (leads(record.stable_endpoint@, "http://"@) || leads(record.stable_endpoint@, "https://"@)) && leads(record.candidate_endpoint@, "http://"@))
    &&& (record.transport@ == "tcp"@ ==> leads(record.stable_endpoint@, "tcp://"@) && leads(record.candidate_endpoint@, "tcp://"@))
    &&& (record.transport@ == "rudp"@ ==> leads(record.stable_endpoint@, "rudp://"@) && leads(record.candidate_endpoint@, "rudp://"@))
    &&& (record.transport@ == "http"@ || record.transport@ == "tcp"@ || record.transport@ == "rudp"@)
}

/// A route is taken exactly if its two endpoints differ and have the scheme of its
/// transport, which is one of three.
pub proof fn route_rules_are_exact(record: &IdunnExpectedRoute, outcome: Result<(), CultNetError>)
    requires
        call_ensures(IdunnExpectedRoute::validate, (record,), outcome),
    ensures
        ({
            if !(tidy(record.route_id@, 256)) {
                says(outcome, "route id"@ + " is empty, oversized, padded, or contains control characters"@)
            } else if !(tidy(record.stable_endpoint@, 2048)) {
                says(outcome, "stable route endpoint"@ + " is empty, oversized, padded, or contains control characters"@)
            } else if !(tidy(record.candidate_endpoint@, 2048)) {
                says(outcome, "candidate route endpoint"@ + " is empty, oversized, padded, or contains control characters"@)
            } else if !(record.stable_endpoint@ != record.candidate_endpoint@) {
                says(outcome, "stable and candidate route endpoints are identical"@)
            } else if !(record.transport@ == "http"@ ==> (leads(record.stable_endpoint@, "http://"@) || leads(record.stable_endpoint@, "https://"@)) && leads(record.candidate_endpoint@, "http://"@)) {
                says(outcome, "HTTP route endpoints use an unsupported scheme"@)
            } else if !(record.transport@ == "tcp"@ ==> leads(record.stable_endpoint@, "tcp://"@) && leads(record.candidate_endpoint@, "tcp://"@)) {
                says(outcome, "TCP route endpoints use an unsupported scheme"@)
            } else if !(record.transport@ == "rudp"@ ==> leads(record.stable_endpoint@, "rudp://"@) && leads(record.candidate_endpoint@, "rudp://"@)) {
                says(outcome, "RUDP route endpoints use an unsupported scheme"@)
            } else if !(record.transport@ == "http"@ || record.transport@ == "tcp"@ || record.transport@ == "rudp"@) {
                says(outcome, "route transport is unsupported"@)
            } else {
                outcome is Ok
            }
        }),
        outcome is Ok <==> route_fits(*record),
        record.violation() is None <==> route_fits(*record),
{
    broadcast use text_rules;

    reveal_strlit("http");
    assert("http"@.len() == 4);
    reveal_strlit("tcp");
    assert("tcp"@.len() == 3);
    reveal_strlit("rudp");
    assert("rudp"@.len() == 4);
    assert("http"@[0] != "rudp"@[0]);
    prefixes_lead(record.stable_endpoint@, "http://"@);
    prefixes_lead(record.stable_endpoint@, "https://"@);
    prefixes_lead(record.stable_endpoint@, "tcp://"@);
    prefixes_lead(record.stable_endpoint@, "rudp://"@);
    prefixes_lead(record.candidate_endpoint@, "http://"@);
    prefixes_lead(record.candidate_endpoint@, "https://"@);
    prefixes_lead(record.candidate_endpoint@, "tcp://"@);
    prefixes_lead(record.candidate_endpoint@, "rudp://"@);
}

proof fn route_is_taken(record: IdunnExpectedRoute)
    ensures
        record.violation() is None <==> route_fits(record),
{
    broadcast use text_rules;

    reveal_strlit("http");
    assert("http"@.len() == 4);
    reveal_strlit("tcp");
    assert("tcp"@.len() == 3);
    reveal_strlit("rudp");
    assert("rudp"@.len() == 4);
    assert("http"@[0] != "rudp"@[0]);
    prefixes_lead(record.stable_endpoint@, "http://"@);
    prefixes_lead(record.stable_endpoint@, "https://"@);
    prefixes_lead(record.stable_endpoint@, "tcp://"@);
    prefixes_lead(record.stable_endpoint@, "rudp://"@);
    prefixes_lead(record.candidate_endpoint@, "http://"@);
    prefixes_lead(record.candidate_endpoint@, "https://"@);
    prefixes_lead(record.candidate_endpoint@, "tcp://"@);
    prefixes_lead(record.candidate_endpoint@, "rudp://"@);
}

/// What is asked of the record.
pub open spec fn dependency_fits(record: IdunnExpectedDependency) -> bool {
    &&& ((record.kind@ == "bootstrap"@ || record.kind@ == "required"@ || record.kind@ == "optional"@ || record.kind@ == "shared-infrastructure"@ || record.kind@ == "private"@ || record.kind@ == "external-operator-binding"@))
    &&& tidy(record.capability@, 256)
    &&& tidy(record.schema@, 256)
    &&& tidy(record.compatibility@, 256)
    &&& (record.minimum_capacity > 0 && (record.startup@ == "before-start"@ || record.startup@ == "before-promotion"@))
    &&& (record.kind@ == "bootstrap"@ ==> record.startup@ == "before-start"@)
    &&& tidy_if_there(record.provider_id, 256)
    &&& tidy_if_there(record.provider_authority, 256)
    &&& digest_if_there(record.provider_expected_projection_sha256)
    &&& tidy_if_there(record.provider_endpoint, 2048)
    &&& ((record.provider_id is Some && reads(record.provider_authority, "managed-incarnation"@) && record.provider_expected_projection_sha256 is Some) ==> record.kind@ != "external-operator-binding"@)
    &&& ((record.provider_id is None && record.provider_authority is None && record.provider_expected_projection_sha256 is None && record.provider_endpoint is None) || (record.provider_id is Some && reads(record.provider_authority, "managed-incarnation"@) && record.provider_expected_projection_sha256 is Some) || (record.provider_id is Some && reads(record.provider_authority, "external-operator-binding"@) && record.provider_expected_projection_sha256 is None && record.provider_endpoint is Some && record.kind@ == "external-operator-binding"@))
}

/// A required dependency is taken exactly if its kind, capability and startup are valid
/// and its provider is absent, a managed incarnation, or an external binding of an
/// external dependency.
pub proof fn dependency_rules_are_exact(record: &IdunnExpectedDependency, outcome: Result<(), CultNetError>)
    requires
        call_ensures(IdunnExpectedDependency::validate, (record,), outcome),
    ensures
        ({
            if !((record.kind@ == "bootstrap"@ || record.kind@ == "required"@ || record.kind@ == "optional"@ || record.kind@ == "shared-infrastructure"@ || record.kind@ == "private"@ || record.kind@ == "external-operator-binding"@)) {
                says(outcome, "dependency kind is unsupported"@)
            } else if !(tidy(record.capability@, 256)) {
                says(outcome, "dependency capability"@ + " is empty, oversized, padded, or contains control characters"@)
            } else if !(tidy(record.schema@, 256)) {
                says(outcome, "dependency schema"@ + " is empty, oversized, padded, or contains control characters"@)
            } else if !(tidy(record.compatibility@, 256)) {
                says(outcome, "dependency compatibility"@ + " is empty, oversized, padded, or contains control characters"@)
            } else if !(record.minimum_capacity > 0 && (record.startup@ == "before-start"@ || record.startup@ == "before-promotion"@)) {
                says(outcome, "dependency capacity or startup condition is invalid"@)
            } else if !(record.kind@ == "bootstrap"@ ==> record.startup@ == "before-start"@) {
                says(outcome, "bootstrap dependency must be satisfied before start"@)
            } else if !(tidy_if_there(record.provider_id, 256)) {
                says(outcome, "dependency provider id"@ + " is empty, oversized, padded, or contains control characters"@)
            } else if !(tidy_if_there(record.provider_authority, 256)) {
                says(outcome, "dependency provider authority"@ + " is empty, oversized, padded, or contains control characters"@)
            } else if !(digest_if_there(record.provider_expected_projection_sha256)) {
                says(outcome, "dependency provider expected projection sha256"@ + " is malformed"@)
            } else if !(tidy_if_there(record.provider_endpoint, 2048)) {
                says(outcome, "dependency provider endpoint"@ + " is empty, oversized, padded, or contains control characters"@)
            } else if !((record.provider_id is Some && reads(record.provider_authority, "managed-incarnation"@) && record.provider_expected_projection_sha256 is Some) ==> record.kind@ != "external-operator-binding"@) {
                says(outcome, "external operator dependency cannot select a managed incarnation"@)
            } else if !((record.provider_id is None && record.provider_authority is None && record.provider_expected_projection_sha256 is None && record.provider_endpoint is None) || (record.provider_id is Some && reads(record.provider_authority, "managed-incarnation"@) && record.provider_expected_projection_sha256 is Some) || (record.provider_id is Some && reads(record.provider_authority, "external-operator-binding"@) && record.provider_expected_projection_sha256 is None && record.provider_endpoint is Some && record.kind@ == "external-operator-binding"@)) {
                says(outcome, "dependency provider binding is partial or authority-incoherent"@)
            } else {
                outcome is Ok
            }
        }),
        outcome is Ok <==> dependency_fits(*record),
        record.violation() is None <==> dependency_fits(*record),
{
    broadcast use text_rules;

}

proof fn dependency_is_taken(record: IdunnExpectedDependency)
    ensures
        record.violation() is None <==> dependency_fits(record),
{
    broadcast use text_rules;

}

/// At most 256 items that fit, each with a capability, schema and compatibility that come
/// strictly after those of the one before it.
pub open spec fn dependency_list_fits(items: Seq<IdunnExpectedDependency>) -> bool {
    &&& items.len() <= 256
    &&& forall|i: int| 0 <= i < items.len() ==> dependency_fits(#[trigger] items[i])
    &&& forall|i: int| 0 < i < items.len() ==> in_turn(
        items[i - 1].capability@,
        items[i - 1].schema@,
        items[i - 1].compatibility@,
        (#[trigger] items[i]).capability@,
        items[i].schema@,
        items[i].compatibility@,
    )
}

proof fn dependency_list_is_taken(items: Seq<IdunnExpectedDependency>)
    ensures
        sorted_list_violation(items, 256, "Expected dependency count exceeds its contract bound"@, "Expected dependencies are not strictly sorted and unique"@) is None <==> dependency_list_fits(items),
{
    let reasons = |i: int| member_violation(items, i, "Expected dependencies are not strictly sorted and unique"@);
    none_among(reasons, items.len());
    assert forall|i: int| 0 <= i < items.len() implies (#[trigger] items[i]).violation() is None <==> dependency_fits(items[i]) by {
        dependency_is_taken(items[i]);
    }
    if items.len() <= 256 {
        assert(sorted_list_violation(items, 256, "Expected dependency count exceeds its contract bound"@, "Expected dependencies are not strictly sorted and unique"@) == first_among(reasons, items.len()));
        if first_among(reasons, items.len()) is None {
            assert forall|i: int| 0 <= i < items.len() implies dependency_fits(#[trigger] items[i]) by {
                assert(reasons(i) is None);
            }
            assert forall|i: int| 0 < i < items.len() implies in_turn(
                items[i - 1].capability@,
                items[i - 1].schema@,
                items[i - 1].compatibility@,
                (#[trigger] items[i]).capability@,
                items[i].schema@,
                items[i].compatibility@,
            ) by {
                assert(reasons(i) is None);
                triples_are_ordered_text_by_text(items[i - 1].identity(), items[i].identity());
            }
        }
        if dependency_list_fits(items) {
            assert forall|i: int| 0 <= i < items.len() implies (#[trigger] reasons(i)) is None by {
                assert(dependency_fits(items[i]));
                if i > 0 {
                    triples_are_ordered_text_by_text(items[i - 1].identity(), items[i].identity());
                }
            }
        }
    }
}

/// The list is taken exactly if it fits; a list that is too long, and one whose items fit
/// but stand in another order, is refused in these words.
pub proof fn dependency_lists_are_exact(items: &Vec<IdunnExpectedDependency>, outcome: Result<(), CultNetError>)
    requires
        call_ensures(validate_expected_dependencies, (items,), outcome),
    ensures
        outcome is Ok <==> dependency_list_fits(items@),
        items@.len() > 256 ==> says(outcome, "Expected dependency count exceeds its contract bound"@),
        items@.len() <= 256 && outcome is Err && (forall|i: int|
            0 <= i < items@.len() ==> dependency_fits(#[trigger] items@[i])) ==> says(outcome, "Expected dependencies are not strictly sorted and unique"@),
{
    dependency_list_is_taken(items@);
    if items@.len() <= 256 && outcome is Err && (forall|i: int|
        0 <= i < items@.len() ==> dependency_fits(#[trigger] items@[i])) {
        let reasons = |i: int| member_violation(items@, i, "Expected dependencies are not strictly sorted and unique"@);
        none_among(reasons, items@.len());
        assert forall|i: int| 0 <= i < items@.len() implies (#[trigger] reasons(i)) is None || reasons(i) == Some("Expected dependencies are not strictly sorted and unique"@) by {
            dependency_is_taken(items@[i]);
        }
        the_only_reason_counts(reasons, items@.len(), "Expected dependencies are not strictly sorted and unique"@);
        assert(sorted_list_violation(items@, 256, "Expected dependency count exceeds its contract bound"@, "Expected dependencies are not strictly sorted and unique"@) == first_among(reasons, items@.len()));
    }
}

/// What is asked of the record.
pub open spec fn evidence_fits(record: OdinRuntimeDependencyEvidence) -> bool {
    &&& ((record.kind@ == "bootstrap"@ || record.kind@ == "required"@ || record.kind@ == "optional"@ || record.kind@ == "shared-infrastructure"@ || record.kind@ == "private"@ || record.kind@ == "external-operator-binding"@))
    &&& tidy(record.kind@, 256)
    &&& tidy(record.capability@, 256)
    &&& tidy(record.schema@, 256)
    &&& tidy(record.compatibility@, 256)
    &&& tidy_if_there(record.provider_id, 256)
    &&& tidy_if_there(record.provider_authority, 256)
    &&& digest_if_there(record.provider_expected_projection_sha256)
    &&& tidy_if_there(record.provider_endpoint, 2048)
    &&& digest_if_there(record.provider_evidence_sha256)
    &&& (record.observed_capacity matches Some(capacity) ==> capacity > 0)
    &&& (record.provider_id is None ==> record.provider_authority is None && record.provider_expected_projection_sha256 is None && record.provider_endpoint is None && record.observed_capacity is None && record.provider_evidence_sha256 is None && !record.ready)
    &&& (record.provider_id is Some ==> record.provider_authority is Some)
    &&& ((record.provider_id is Some && reads(record.provider_authority, "managed-incarnation"@) && record.provider_expected_projection_sha256 is Some) ==> record.kind@ != "external-operator-binding"@)
    &&& ((record.provider_id is None && record.provider_authority is None && record.provider_expected_projection_sha256 is None && record.provider_endpoint is None) || (record.provider_id is Some && reads(record.provider_authority, "managed-incarnation"@) && record.provider_expected_projection_sha256 is Some) || (record.provider_id is Some && reads(record.provider_authority, "external-operator-binding"@) && record.provider_expected_projection_sha256 is None && record.provider_endpoint is Some && record.kind@ == "external-operator-binding"@))
    &&& (record.ready ==> record.observed_capacity is Some && record.provider_evidence_sha256 is Some)
}

/// Evidence on a dependency is taken exactly if it states facts only of a provider that
/// it names, and states Ready only with a capacity and signed evidence.
pub proof fn evidence_rules_are_exact(record: &OdinRuntimeDependencyEvidence, outcome: Result<(), CultNetError>)
    requires
        call_ensures(OdinRuntimeDependencyEvidence::validate, (record,), outcome),
    ensures
        ({
            if !((record.kind@ == "bootstrap"@ || record.kind@ == "required"@ || record.kind@ == "optional"@ || record.kind@ == "shared-infrastructure"@ || record.kind@ == "private"@ || record.kind@ == "external-operator-binding"@)) {
                says(outcome, "dependency evidence kind is unsupported"@)
            } else if !(tidy(record.kind@, 256)) {
                says(outcome, "dependency evidence kind"@ + " is empty, oversized, padded, or contains control characters"@)
            } else if !(tidy(record.capability@, 256)) {
                says(outcome, "dependency evidence capability"@ + " is empty, oversized, padded, or contains control characters"@)
            } else if !(tidy(record.schema@, 256)) {
                says(outcome, "dependency evidence schema"@ + " is empty, oversized, padded, or contains control characters"@)
            } else if !(tidy(record.compatibility@, 256)) {
                says(outcome, "dependency evidence compatibility"@ + " is empty, oversized, padded, or contains control characters"@)
            } else if !(tidy_if_there(record.provider_id, 256)) {
                says(outcome, "dependency evidence provider id"@ + " is empty, oversized, padded, or contains control characters"@)
            } else if !(tidy_if_there(record.provider_authority, 256)) {
                says(outcome, "dependency evidence provider authority"@ + " is empty, oversized, padded, or contains control characters"@)
            } else if !(digest_if_there(record.provider_expected_projection_sha256)) {
                says(outcome, "dependency evidence provider expected projection sha256"@ + " is malformed"@)
            } else if !(tidy_if_there(record.provider_endpoint, 2048)) {
                says(outcome, "dependency evidence provider endpoint"@ + " is empty, oversized, padded, or contains control characters"@)
            } else if !(digest_if_there(record.provider_evidence_sha256)) {
                says(outcome, "dependency provider evidence sha256"@ + " is malformed"@)
            } else if !(record.observed_capacity matches Some(capacity) ==> capacity > 0) {
                says(outcome, "dependency evidence capacity is zero"@)
            } else if !(record.provider_id is None ==> record.provider_authority is None && record.provider_expected_projection_sha256 is None && record.provider_endpoint is None && record.observed_capacity is None && record.provider_evidence_sha256 is None && !record.ready) {
                says(outcome, "dependency evidence has facts without a provider"@)
            } else if !(record.provider_id is Some ==> record.provider_authority is Some) {
                says(outcome, "dependency evidence provider authority is missing"@)
            } else if !((record.provider_id is Some && reads(record.provider_authority, "managed-incarnation"@) && record.provider_expected_projection_sha256 is Some) ==> record.kind@ != "external-operator-binding"@) {
                says(outcome, "external dependency evidence names a managed incarnation"@)
            } else if !((record.provider_id is None && record.provider_authority is None && record.provider_expected_projection_sha256 is None && record.provider_endpoint is None) || (record.provider_id is Some && reads(record.provider_authority, "managed-incarnation"@) && record.provider_expected_projection_sha256 is Some) || (record.provider_id is Some && reads(record.provider_authority, "external-operator-binding"@) && record.provider_expected_projection_sha256 is None && record.provider_endpoint is Some && record.kind@ == "external-operator-binding"@)) {
                says(outcome, "dependency evidence provider binding is authority-incoherent"@)
            } else if !(record.ready ==> record.observed_capacity is Some && record.provider_evidence_sha256 is Some) {
                says(outcome, "ready dependency lacks capacity or signed evidence"@)
            } else {
                outcome is Ok
            }
        }),
        outcome is Ok <==> evidence_fits(*record),
        record.violation() is None <==> evidence_fits(*record),
{
    broadcast use text_rules;

}

proof fn evidence_is_taken(record: OdinRuntimeDependencyEvidence)
    ensures
        record.violation() is None <==> evidence_fits(record),
{
    broadcast use text_rules;

}

/// At most 256 items that fit, each with a capability, schema and compatibility that come
/// strictly after those of the one before it.
pub open spec fn evidence_list_fits(items: Seq<OdinRuntimeDependencyEvidence>) -> bool {
    &&& items.len() <= 256
    &&& forall|i: int| 0 <= i < items.len() ==> evidence_fits(#[trigger] items[i])
    &&& forall|i: int| 0 < i < items.len() ==> in_turn(
        items[i - 1].capability@,
        items[i - 1].schema@,
        items[i - 1].compatibility@,
        (#[trigger] items[i]).capability@,
        items[i].schema@,
        items[i].compatibility@,
    )
}

proof fn evidence_list_is_taken(items: Seq<OdinRuntimeDependencyEvidence>)
    ensures
        sorted_list_violation(items, 256, "dependency evidence count exceeds its contract bound"@, "dependency evidence is not strictly sorted and unique"@) is None <==> evidence_list_fits(items),
{
    let reasons = |i: int| member_violation(items, i, "dependency evidence is not strictly sorted and unique"@);
    none_among(reasons, items.len());
    assert forall|i: int| 0 <= i < items.len() implies (#[trigger] items[i]).violation() is None <==> evidence_fits(items[i]) by {
        evidence_is_taken(items[i]);
    }
    if items.len() <= 256 {
        assert(sorted_list_violation(items, 256, "dependency evidence count exceeds its contract bound"@, "dependency evidence is not strictly sorted and unique"@) == first_among(reasons, items.len()));
        if first_among(reasons, items.len()) is None {
            assert forall|i: int| 0 <= i < items.len() implies evidence_fits(#[trigger] items[i]) by {
                assert(reasons(i) is None);
            }
            assert forall|i: int| 0 < i < items.len() implies in_turn(
                items[i - 1].capability@,
                items[i - 1].schema@,
                items[i - 1].compatibility@,
                (#[trigger] items[i]).capability@,
                items[i].schema@,
                items[i].compatibility@,
            ) by {
                assert(reasons(i) is None);
                triples_are_ordered_text_by_text(items[i - 1].identity(), items[i].identity());
            }
        }
        if evidence_list_fits(items) {
            assert forall|i: int| 0 <= i < items.len() implies (#[trigger] reasons(i)) is None by {
                assert(evidence_fits(items[i]));
                if i > 0 {
                    triples_are_ordered_text_by_text(items[i - 1].identity(), items[i].identity());
                }
            }
        }
    }
}

/// The list is taken exactly if it fits; a list that is too long, and one whose items fit
/// but stand in another order, is refused in these words.
pub proof fn evidence_lists_are_exact(items: &Vec<OdinRuntimeDependencyEvidence>, outcome: Result<(), CultNetError>)
    requires
        call_ensures(validate_dependency_evidence, (items,), outcome),
    ensures
        outcome is Ok <==> evidence_list_fits(items@),
        items@.len() > 256 ==> says(outcome, "dependency evidence count exceeds its contract bound"@),
        items@.len() <= 256 && outcome is Err && (forall|i: int|
            0 <= i < items@.len() ==> evidence_fits(#[trigger] items@[i])) ==> says(outcome, "dependency evidence is not strictly sorted and unique"@),
{
    evidence_list_is_taken(items@);
    if items@.len() <= 256 && outcome is Err && (forall|i: int|
        0 <= i < items@.len() ==> evidence_fits(#[trigger] items@[i])) {
        let reasons = |i: int| member_violation(items@, i, "dependency evidence is not strictly sorted and unique"@);
        none_among(reasons, items@.len());
        assert forall|i: int| 0 <= i < items@.len() implies (#[trigger] reasons(i)) is None || reasons(i) == Some("dependency evidence is not strictly sorted and unique"@) by {
            evidence_is_taken(items@[i]);
        }
        the_only_reason_counts(reasons, items@.len(), "dependency evidence is not strictly sorted and unique"@);
        assert(sorted_list_violation(items@, 256, "dependency evidence count exceeds its contract bound"@, "dependency evidence is not strictly sorted and unique"@) == first_among(reasons, items@.len()));
    }
}

/// What is asked of the record.
pub open spec fn disagreement_fits(record: OdinTopologyDisagreement) -> bool {
    &&& tidy(record.code@, 256)
    &&& tidy_if_there(record.expected, 1024)
    &&& tidy_if_there(record.observed, 1024)
    &&& (record.expected is Some || record.observed is Some)
}

/// A disagreement is taken exactly if it has a code and says what was expected, what was
/// observed, or both.
pub proof fn disagreement_rules_are_exact(record: &OdinTopologyDisagreement, outcome: Result<(), CultNetError>)
    requires
        call_ensures(OdinTopologyDisagreement::validate, (record,), outcome),
    ensures
        ({
            if !(tidy(record.code@, 256)) {
                says(outcome, "topology disagreement code"@ + " is empty, oversized, padded, or contains control characters"@)
            } else if !(tidy_if_there(record.expected, 1024)) {
                says(outcome, "topology disagreement expected value"@ + " is empty, oversized, padded, or contains control characters"@)
            } else if !(tidy_if_there(record.observed, 1024)) {
                says(outcome, "topology disagreement observed value"@ + " is empty, oversized, padded, or contains control characters"@)
            } else if !(record.expected is Some || record.observed is Some) {
                says(outcome, "topology disagreement carries no expected or observed value"@)
            } else {
                outcome is Ok
            }
        }),
        outcome is Ok <==> disagreement_fits(*record),
        record.violation() is None <==> disagreement_fits(*record),
{
    broadcast use text_rules;

}

proof fn disagreement_is_taken(record: OdinTopologyDisagreement)
    ensures
        record.violation() is None <==> disagreement_fits(record),
{
    broadcast use text_rules;

}

/// Some letters, digits, hyphens, underscores and dots, but neither one dot nor two alone.
pub open spec fn segment_text(piece: Seq<char>) -> bool {
    &&& piece.len() > 0
    &&& !(piece.len() == 1 && piece[0] == '.')
    &&& !(piece.len() == 2 && piece[0] == '.' && piece[1] == '.')
    &&& forall|i: int|
        0 <= i < piece.len() ==> {
            ||| 'a' <= #[trigger] piece[i] && piece[i] <= 'z'
            ||| 'A' <= piece[i] && piece[i] <= 'Z'
            ||| '0' <= piece[i] && piece[i] <= '9'
            ||| piece[i] == '-' || piece[i] == '_' || piece[i] == '.'
        }
}

/// A host with a dot, an owner, a repository and perhaps more such pieces, with slashes
/// between them.
pub open spec fn repository_text(text: Seq<char>) -> bool {
    exists|pieces: Seq<Seq<char>>|
        {
            &&& #[trigger] rejoined(pieces, '/') == text
            &&& pieces.len() >= 3
            &&& pieces[0].contains('.')
            &&& forall|i: int| 0 <= i < pieces.len() ==> segment_text(#[trigger] pieces[i])
        }
}

proof fn segments_are_plain(piece: Seq<char>)
    ensures
        repository_segment(piece) == segment_text(piece),
        segment_text(piece) ==> !piece.contains('/'),
{
    reveal_strlit(".");
    reveal_strlit("..");
    assert(piece.len() == 1 && piece[0] == '.' ==> piece =~= "."@);
    assert(piece.len() == 2 && piece[0] == '.' && piece[1] == '.' ==> piece =~= ".."@);
    if repository_segment(piece) {
        assert forall|i: int| 0 <= i < piece.len() implies {
            ||| 'a' <= #[trigger] piece[i] && piece[i] <= 'z'
            ||| 'A' <= piece[i] && piece[i] <= 'Z'
            ||| '0' <= piece[i] && piece[i] <= '9'
            ||| piece[i] == '-' || piece[i] == '_' || piece[i] == '.'
        } by {
            assert(repository_letter(piece[i]));
        }
    }
    if segment_text(piece) {
        assert forall|i: int| 0 <= i < piece.len() implies repository_letter(#[trigger] piece[i]) by {}
    }
}

proof fn repository_texts_are_plain(text: Seq<char>)
    ensures
        canonical_repository(text) == repository_text(text),
{
    let found = split(text, '/');
    splitting_is_undone_by_joining(text, found, '/');
    if canonical_repository(text) {
        assert forall|i: int| 0 <= i < found.len() implies segment_text(#[trigger] found[i]) by {
            segments_are_plain(found[i]);
        }
    }
    if repository_text(text) {
        let pieces = choose|pieces: Seq<Seq<char>>|
            {
                &&& #[trigger] rejoined(pieces, '/') == text
                &&& pieces.len() >= 3
                &&& pieces[0].contains('.')
                &&& forall|i: int| 0 <= i < pieces.len() ==> segment_text(#[trigger] pieces[i])
            };
        assert forall|i: int| 0 <= i < pieces.len() implies !(#[trigger] pieces[i]).contains('/')
            && repository_segment(pieces[i]) by {
            segments_are_plain(pieces[i]);
        }
        splitting_is_undone_by_joining(text, pieces, '/');
    }
}

/// A source repository is taken exactly if it is a host, an owner and a repository.
pub proof fn source_repositories_are_exact(text: &str, outcome: Result<(), CultNetError>)
    requires
        call_ensures(validate_source_repository, (text,), outcome),
    ensures
        outcome is Ok <==> tidy(text@, 256) && repository_text(text@),
        tidy(text@, 256) && !repository_text(text@) ==> says(
            outcome,
            "source repository is not a canonical host/owner/repository identity"@,
        ),
{
    broadcast use text_rules;

    repository_texts_are_plain(text@);
}

/// At most 256 disagreements that fit, with codes that come strictly one after the other.
pub open spec fn disagreement_list_fits(items: Seq<OdinTopologyDisagreement>) -> bool {
    &&& items.len() <= 256
    &&& forall|i: int| 0 <= i < items.len() ==> disagreement_fits(#[trigger] items[i])
    &&& forall|i: int| 0 < i < items.len() ==> crate::text::before(items[i - 1].code@, (#[trigger] items[i]).code@)
}

proof fn disagreement_list_is_taken(items: Seq<OdinTopologyDisagreement>)
    ensures
        topology_disagreements_violation(items) is None <==> disagreement_list_fits(items),
{
    let all = disagreements_of(items);
    let reasons = |i: int| listed_disagreement_violation(all, i);
    none_among(reasons, items.len());
    assert forall|i: int| 0 <= i < items.len() implies (#[trigger] items[i]).violation() is None <==> disagreement_fits(
        items[i],
    ) by {
        disagreement_is_taken(items[i]);
    }
    assert forall|i: int| 0 <= i < items.len() implies all[i] == (#[trigger] items[i])@ by {}
    if items.len() <= 256 {
        assert(topology_disagreements_violation(items) == first_among(reasons, items.len()));
        if first_among(reasons, items.len()) is None {
            assert forall|i: int| 0 <= i < items.len() implies disagreement_fits(#[trigger] items[i]) by {
                assert(reasons(i) is None);
                assert(all[i] == items[i]@);
            }
            assert forall|i: int| 0 < i < items.len() implies crate::text::before(
                items[i - 1].code@,
                (#[trigger] items[i]).code@,
            ) by {
                assert(reasons(i) is None);
                assert(all[i] == items[i]@);
                assert(all[i - 1] == items[i - 1]@);
            }
        }
        if disagreement_list_fits(items) {
            assert forall|i: int| 0 <= i < items.len() implies (#[trigger] reasons(i)) is None by {
                assert(disagreement_fits(items[i]));
                assert(items[i].violation() is None);
                assert(all[i] == items[i]@);
                if i > 0 {
                    assert(all[i - 1] == items[i - 1]@);
                }
            }
        }
    }
}

/// A list of disagreements is taken exactly if it fits.
pub proof fn disagreement_lists_are_exact(items: &Vec<OdinTopologyDisagreement>, outcome: Result<(), CultNetError>)
    requires
        call_ensures(validate_topology_disagreements, (items,), outcome),
    ensures
        outcome is Ok <==> disagreement_list_fits(items@),
        items@.len() > 256 ==> says(outcome, "topology disagreement count exceeds its contract bound"@),
{
    disagreement_list_is_taken(items@);
}

proof fn readiness_is_plain(items: Seq<OdinRuntimeDependencyEvidence>)
    ensures
        dependencies_are_ready(items) <==> forall|i: int|
            0 <= i < items.len() ==> ((#[trigger] items[i]).kind@ != "optional"@ ==> items[i].ready),
{
}

/// No receipt that is taken as Ready has a dependency that is not optional and not ready,
/// nor a disagreement; it is present and active in a session that activation and presence
/// vouch for.
pub proof fn a_ready_receipt_has_every_needed_dependency(
    record: &OdinRuntimeTopologyCorrelationRecord,
    outcome: Result<(), CultNetError>,
    bytes: Result<Vec<u8>, CultNetError>,
    position: int,
)
    requires
        call_ensures(OdinRuntimeTopologyCorrelationRecord::validate, (record,), outcome),
        call_ensures(OdinRuntimeTopologyCorrelationRecord::canonical_bytes, (record,), bytes),
        record.ready,
        0 <= position < record.dependencies@.len(),
        record.dependencies@[position].kind@ != "optional"@,
    ensures
        outcome is Ok <==> bytes is Ok,
        outcome is Ok ==> record.dependencies@[position].ready,
        outcome is Ok ==> record.dependencies@[position].provider_id is Some,
        outcome is Ok ==> record.dependencies@[position].provider_evidence_sha256 is Some,
        outcome is Ok ==> record.dependencies@[position].observed_capacity is Some,
        outcome is Ok ==> record.present && record.disagreements@.len() == 0,
        outcome is Ok ==> reads(record.observed_presence_state, "active"@),
        outcome is Ok ==> record.current_activation_sha256 is Some && record.signed_presence_sha256 is Some,
{
    receipt_rules_are_exact(record, outcome);
    if outcome is Ok {
        assert(evidence_fits(record.dependencies@[position]));
    }
}

/// What is asked of the record.
pub open spec fn lease_fits(record: IdunnProcessWriteLeaseRecord) -> bool {
    &&& record.schema_version@ == "idunn.process_write_lease.v1"@
    &&& tidy(record.target@, 256)
    &&& digest_text(record.expected_projection_sha256@)
    &&& digest_text(record.plan_id@)
    &&& tidy(record.incarnation_id@, 256)
    &&& digest_text(record.sealed_release_id@)
    &&& digest_text(record.activation_witness_sha256@)
    &&& tidy(record.state_schema_generation@, 256)
    &&& digest_text(record.state_contract_sha256@)
    &&& tidy(record.runtime_id@, 256)
    &&& digest_text(record.runtime_instance_id@)
    &&& digest_text(record.warming_presence_sha256@)
    &&& record.lease_epoch > 0 && record.issued_at_unix_millis > 0
}

/// A write lease is taken exactly if these rules hold of its fields.
pub proof fn lease_rules_are_exact(record: &IdunnProcessWriteLeaseRecord, outcome: Result<(), CultNetError>)
    requires
        call_ensures(IdunnProcessWriteLeaseRecord::validate, (record,), outcome),
    ensures
        ({
            if !(record.schema_version@ == "idunn.process_write_lease.v1"@) {
                says(outcome, "process write lease schema is unsupported"@)
            } else if !(tidy(record.target@, 256)) {
                says(outcome, "target"@ + " is empty, oversized, padded, or contains control characters"@)
            } else if !(digest_text(record.expected_projection_sha256@)) {
                says(outcome, "lease expected projection sha256"@ + " is malformed"@)
            } else if !(digest_text(record.plan_id@)) {
                says(outcome, "plan id"@ + " is malformed"@)
            } else if !(tidy(record.incarnation_id@, 256)) {
                says(outcome, "incarnation id"@ + " is empty, oversized, padded, or contains control characters"@)
            } else if !(digest_text(record.sealed_release_id@)) {
                says(outcome, "sealed release id"@ + " is malformed"@)
            } else if !(digest_text(record.activation_witness_sha256@)) {
                says(outcome, "activation witness sha256"@ + " is malformed"@)
            } else if !(tidy(record.state_schema_generation@, 256)) {
                says(outcome, "state schema generation"@ + " is empty, oversized, padded, or contains control characters"@)
            } else if !(digest_text(record.state_contract_sha256@)) {
                says(outcome, "state contract sha256"@ + " is malformed"@)
            } else if !(tidy(record.runtime_id@, 256)) {
                says(outcome, "runtime id"@ + " is empty, oversized, padded, or contains control characters"@)
            } else if !(digest_text(record.runtime_instance_id@)) {
                says(outcome, "runtime instance id"@ + " is malformed"@)
            } else if !(digest_text(record.warming_presence_sha256@)) {
                says(outcome, "warming presence sha256"@ + " is malformed"@)
            } else if !(record.lease_epoch > 0 && record.issued_at_unix_millis > 0) {
                says(outcome, "process write lease epoch or issue time is invalid"@)
            } else {
                outcome is Ok
            }
        }),
        outcome is Ok <==> lease_fits(*record),
        record.violation() is None <==> lease_fits(*record),
{
    broadcast use text_rules;

}

/// What is asked of the record; one that is still to be signed may lack what is signed.
pub open spec fn activation_fits(record: IdunnRuntimeActivationRecord, unsigned: bool) -> bool {
    &&& record.schema_version@ == "idunn.runtime_activation.v2"@
    &&& digest_text(record.expected_projection_sha256@)
    &&& tidy(record.runtime_id@, 256)
    &&& digest_text(record.runtime_instance_id@)
    &&& tidy(record.activation_signer_identity_id@, 256)
    &&& record.activation_signer_public_key@.len() == 32
    &&& record.activation_signer_identity_id@ == hex_digits_of(sha256_digest(encode_utf8("idunn.runtime-activation.id.v1\0"@) + record.activation_signer_public_key@))
    &&& tidy(record.idunn_signer_identity_id@, 256)
    &&& (record.issued_at_unix_millis > 0 && record.signature_algorithm@ == "ed25519"@ && (record.signature@.len() == 64 || (unsigned && record.signature@.len() == 0)))
}

/// An activation is taken exactly if these rules hold of its fields; its signer is the
/// identity of the key that it carries.
pub proof fn activation_rules_are_exact(record: &IdunnRuntimeActivationRecord, outcome: Result<(), CultNetError>)
    requires
        call_ensures(IdunnRuntimeActivationRecord::validate, (record,), outcome),
    ensures
        ({
            if !(record.schema_version@ == "idunn.runtime_activation.v2"@) {
                says(outcome, "runtime activation schema is unsupported"@)
            } else if !(digest_text(record.expected_projection_sha256@)) {
                says(outcome, "activation expected projection sha256"@ + " is malformed"@)
            } else if !(tidy(record.runtime_id@, 256)) {
                says(outcome, "activation runtime id"@ + " is empty, oversized, padded, or contains control characters"@)
            } else if !(digest_text(record.runtime_instance_id@)) {
                says(outcome, "runtime instance id"@ + " is malformed"@)
            } else if !(tidy(record.activation_signer_identity_id@, 256)) {
                says(outcome, "activation signer identity id"@ + " is empty, oversized, padded, or contains control characters"@)
            } else if !(record.activation_signer_public_key@.len() == 32) {
                says(outcome, "runtime activation public key has invalid length"@)
            } else if !(record.activation_signer_identity_id@ == hex_digits_of(sha256_digest(encode_utf8("idunn.runtime-activation.id.v1\0"@) + record.activation_signer_public_key@))) {
                says(outcome, "runtime activation signer identity does not match its public key"@)
            } else if !(tidy(record.idunn_signer_identity_id@, 256)) {
                says(outcome, "Idunn activation signer identity id"@ + " is empty, oversized, padded, or contains control characters"@)
            } else if !(record.issued_at_unix_millis > 0 && record.signature_algorithm@ == "ed25519"@ && (record.signature@.len() == 64 || (false && record.signature@.len() == 0))) {
                says(outcome, "runtime activation issue time or signature is invalid"@)
            } else {
                outcome is Ok
            }
        }),
        outcome is Ok <==> activation_fits(*record, false),
        record.violation() is None <==> activation_fits(*record, false),
{
    broadcast use text_rules;

    reveal(IdunnRuntimeActivationRecord::shape_violation);
    hex_texts_are_plain(sha256_digest(encode_utf8("idunn.runtime-activation.id.v1\0"@) + record.activation_signer_public_key@));
}

/// Signed or still to be signed, the record is drawn up for its signature exactly if
/// everything else fits.
pub proof fn activation_drafts_are_exact(record: &IdunnRuntimeActivationRecord, outcome: Result<Vec<u8>, CultNetError>)
    requires
        call_ensures(IdunnRuntimeActivationRecord::unsigned_signature_payload, (record,), outcome),
    ensures
        outcome is Ok <==> activation_fits(*record, true),
{
    broadcast use text_rules;

    reveal(IdunnRuntimeActivationRecord::shape_violation);
    hex_texts_are_plain(sha256_digest(encode_utf8("idunn.runtime-activation.id.v1\0"@) + record.activation_signer_public_key@));
}

/// What is asked of the record; one that is still to be signed may lack what is signed.
pub open spec fn presence_fits(record: GameCultRuntimePresenceHealthRecord, unsigned: bool) -> bool {
    &&& record.schema_version@ == "gamecult.runtime_presence_health.v2"@
    &&& tidy(record.target@, 256)
    &&& digest_text(record.expected_projection_sha256@)
    &&& digest_text(record.plan_id@)
    &&& tidy(record.incarnation_id@, 256)
    &&& digest_text(record.sealed_release_id@)
    &&& digest_text(record.activation_witness_sha256@)
    &&& (record.state_schema_generation is Some) == (record.state_contract_sha256 is Some)
    &&& tidy_if_there(record.state_schema_generation, 256)
    &&& digest_if_there(record.state_contract_sha256)
    &&& tidy(record.runtime_id@, 256)
    &&& digest_text(record.runtime_instance_id@)
    &&& tidy_if_there(record.bound_endpoint, 2048)
    &&& runtime_capability_list_fits(record.capabilities@)
    &&& tidy(record.health_contract@, 256)
    &&& tidy(record.signer_identity_id@, 256)
    &&& tidy(record.activation_signer_identity_id@, 256)
    &&& digest_if_there(record.write_lease_sha256)
    &&& (record.publisher_sequence > 0 && record.observed_at_unix_millis > 0 && (record.state@ == "active"@ || record.state@ == "warming"@ || record.state@ == "degraded"@ || record.state@ == "failed"@) && encode_utf8(record.detail@).len() <= 512 && (forall|i: int| 0 <= i < record.detail@.len() ==> !control(#[trigger] record.detail@[i])) && record.signature_algorithm@ == "ed25519"@ && (record.signature@.len() == 64 || (unsigned && record.signature@.len() == 0)) && (record.activation_signature@.len() == 64 || (unsigned && record.activation_signature@.len() == 0)))
    &&& (record.state@ == "warming"@ ==> record.write_lease_sha256 is None)
    &&& (record.state_schema_generation is None ==> record.write_lease_sha256 is None)
}

/// A runtime presence is taken exactly if these rules hold of its fields, and is
/// otherwise refused for the first of them that it breaks.
#[verifier::rlimit(60)]
pub proof fn presence_rules_are_exact(record: &GameCultRuntimePresenceHealthRecord, outcome: Result<(), CultNetError>)
    requires
        call_ensures(GameCultRuntimePresenceHealthRecord::validate, (record,), outcome),
    ensures
        ({
            if !(record.schema_version@ == "gamecult.runtime_presence_health.v2"@) {
                says(outcome, "runtime presence schema is unsupported"@)
            } else if !(tidy(record.target@, 256)) {
                says(outcome, "target"@ + " is empty, oversized, padded, or contains control characters"@)
            } else if !(digest_text(record.expected_projection_sha256@)) {
                says(outcome, "expected projection sha256"@ + " is malformed"@)
            } else if !(digest_text(record.plan_id@)) {
                says(outcome, "plan id"@ + " is malformed"@)
            } else if !(tidy(record.incarnation_id@, 256)) {
                says(outcome, "incarnation id"@ + " is empty, oversized, padded, or contains control characters"@)
            } else if !(digest_text(record.sealed_release_id@)) {
                says(outcome, "sealed release id"@ + " is malformed"@)
            } else if !(digest_text(record.activation_witness_sha256@)) {
                says(outcome, "activation witness sha256"@ + " is malformed"@)
            } else if !((record.state_schema_generation is Some) == (record.state_contract_sha256 is Some)) {
                says(outcome, "runtime presence state lineage is partial"@)
            } else if !(tidy_if_there(record.state_schema_generation, 256)) {
                says(outcome, "state schema generation"@ + " is empty, oversized, padded, or contains control characters"@)
            } else if !(digest_if_there(record.state_contract_sha256)) {
                says(outcome, "state contract sha256"@ + " is malformed"@)
            } else if !(tidy(record.runtime_id@, 256)) {
                says(outcome, "runtime id"@ + " is empty, oversized, padded, or contains control characters"@)
            } else if !(digest_text(record.runtime_instance_id@)) {
                says(outcome, "runtime instance id"@ + " is malformed"@)
            } else if !(tidy_if_there(record.bound_endpoint, 2048)) {
                says(outcome, "bound endpoint"@ + " is empty, oversized, padded, or contains control characters"@)
            } else if !(runtime_capability_list_fits(record.capabilities@)) {
                outcome is Err
            } else if !(tidy(record.health_contract@, 256)) {
                says(outcome, "health contract"@ + " is empty, oversized, padded, or contains control characters"@)
            } else if !(tidy(record.signer_identity_id@, 256)) {
                says(outcome, "signer identity id"@ + " is empty, oversized, padded, or contains control characters"@)
            } else if !(tidy(record.activation_signer_identity_id@, 256)) {
                says(outcome, "activation signer identity id"@ + " is empty, oversized, padded, or contains control characters"@)
            } else if !(digest_if_there(record.write_lease_sha256)) {
                says(outcome, "write lease sha256"@ + " is malformed"@)
            } else if !(record.publisher_sequence > 0 && record.observed_at_unix_millis > 0 && (record.state@ == "active"@ || record.state@ == "warming"@ || record.state@ == "degraded"@ || record.state@ == "failed"@) && encode_utf8(record.detail@).len() <= 512 && (forall|i: int| 0 <= i < record.detail@.len() ==> !control(#[trigger] record.detail@[i])) && record.signature_algorithm@ == "ed25519"@ && (record.signature@.len() == 64 || (false && record.signature@.len() == 0)) && (record.activation_signature@.len() == 64 || (false && record.activation_signature@.len() == 0))) {
                says(outcome, "runtime presence state, sequence, detail, or signature is invalid"@)
            } else if !(record.state@ == "warming"@ ==> record.write_lease_sha256 is None) {
                says(outcome, "warming runtime presence cannot claim a process write lease"@)
            } else if !(record.state_schema_generation is None ==> record.write_lease_sha256 is None) {
                says(outcome, "stateless runtime presence cannot claim a process write lease"@)
            } else {
                outcome is Ok
            }
        }),
        outcome is Ok <==> presence_fits(*record, false),
        record.violation() is None <==> presence_fits(*record, false),
{
    broadcast use text_rules;

    reveal(GameCultRuntimePresenceHealthRecord::shape_violation);
    runtime_capability_list_is_taken(record.capabilities@);
    no_control_is_plain(record.detail@);
}

/// Signed or still to be signed, the record is drawn up for its signature exactly if
/// everything else fits.
#[verifier::rlimit(60)]
pub proof fn presence_drafts_are_exact(record: &GameCultRuntimePresenceHealthRecord, outcome: Result<Vec<u8>, CultNetError>)
    requires
        call_ensures(GameCultRuntimePresenceHealthRecord::canonical_proof_payload, (record,), outcome),
    ensures
        outcome is Ok <==> presence_fits(*record, true),
{
    broadcast use text_rules;

    reveal(GameCultRuntimePresenceHealthRecord::shape_violation);
    runtime_capability_list_is_taken(record.capabilities@);
    no_control_is_plain(record.detail@);
}

/// What is asked of the record.
pub open spec fn expected_fits(record: IdunnExpectedIncarnationRecord) -> bool {
    &&& record.schema_version@ == "idunn.expected_incarnation.v2"@
    &&& tidy(record.target@, 256)
    &&& digest_text(record.plan_id@)
    &&& tidy(record.incarnation_id@, 256)
    &&& digest_text(record.sealed_release_id@)
    &&& tidy(record.source_repository@, 256)
    &&& repository_text(record.source_repository@)
    &&& lower_hex_digits(record.source_revision@, 40)
    &&& digest_text(record.recipe_sha256@)
    &&& tidy(record.runtime_id@, 256)
    &&& tidy(record.expected_signer_identity_id@, 256)
    &&& tidy(record.health_contract@, 256)
    &&& digest_text(record.artifact_sha256@)
    &&& (record.state_schema_generation is Some) == (record.state_contract_sha256 is Some)
    &&& tidy_if_there(record.state_schema_generation, 256)
    &&& digest_if_there(record.state_contract_sha256)
    &&& (record.write_lease_required ==> record.state_schema_generation is Some)
    &&& (record.route matches Some(route) ==> route_fits(route))
    &&& expected_capability_list_fits(record.capabilities@)
    &&& dependency_list_fits(record.dependencies@)
}

/// An expected incarnation is taken exactly if these rules hold of its fields, and is
/// otherwise refused for the first of them that it breaks.
#[verifier::rlimit(60)]
pub proof fn expected_rules_are_exact(record: &IdunnExpectedIncarnationRecord, outcome: Result<(), CultNetError>)
    requires
        call_ensures(IdunnExpectedIncarnationRecord::validate, (record,), outcome),
    ensures
        ({
            if !(record.schema_version@ == "idunn.expected_incarnation.v2"@) {
                says(outcome, "expected incarnation schema is unsupported"@)
            } else if !(tidy(record.target@, 256)) {
                says(outcome, "target"@ + " is empty, oversized, padded, or contains control characters"@)
            } else if !(digest_text(record.plan_id@)) {
                says(outcome, "plan id"@ + " is malformed"@)
            } else if !(tidy(record.incarnation_id@, 256)) {
                says(outcome, "incarnation id"@ + " is empty, oversized, padded, or contains control characters"@)
            } else if !(digest_text(record.sealed_release_id@)) {
                says(outcome, "sealed release id"@ + " is malformed"@)
            } else if !(tidy(record.source_repository@, 256)) {
                says(outcome, "source repository"@ + " is empty, oversized, padded, or contains control characters"@)
            } else if !(repository_text(record.source_repository@)) {
                says(outcome, "source repository is not a canonical host/owner/repository identity"@)
            } else if !(lower_hex_digits(record.source_revision@, 40)) {
                says(outcome, "source revision is not a lowercase Git object id"@)
            } else if !(digest_text(record.recipe_sha256@)) {
                says(outcome, "recipe sha256"@ + " is malformed"@)
            } else if !(tidy(record.runtime_id@, 256)) {
                says(outcome, "runtime id"@ + " is empty, oversized, padded, or contains control characters"@)
            } else if !(tidy(record.expected_signer_identity_id@, 256)) {
                says(outcome, "expected signer identity id"@ + " is empty, oversized, padded, or contains control characters"@)
            } else if !(tidy(record.health_contract@, 256)) {
                says(outcome, "health contract"@ + " is empty, oversized, padded, or contains control characters"@)
            } else if !(digest_text(record.artifact_sha256@)) {
                says(outcome, "artifact sha256"@ + " is malformed"@)
            } else if !((record.state_schema_generation is Some) == (record.state_contract_sha256 is Some)) {
                says(outcome, "expected incarnation state lineage is partial"@)
            } else if !(tidy_if_there(record.state_schema_generation, 256)) {
                says(outcome, "state schema generation"@ + " is empty, oversized, padded, or contains control characters"@)
            } else if !(digest_if_there(record.state_contract_sha256)) {
                says(outcome, "state contract sha256"@ + " is malformed"@)
            } else if !(record.write_lease_required ==> record.state_schema_generation is Some) {
                says(outcome, "stateless incarnation cannot require a process write lease"@)
            } else if !(record.route matches Some(route) ==> route_fits(route)) {
                outcome is Err
            } else if !(expected_capability_list_fits(record.capabilities@)) {
                outcome is Err
            } else if !(dependency_list_fits(record.dependencies@)) {
                outcome is Err
            } else {
                outcome is Ok
            }
        }),
        outcome is Ok <==> expected_fits(*record),
        record.violation() is None <==> expected_fits(*record),
{
    broadcast use text_rules;

    reveal(IdunnExpectedIncarnationRecord::rule_violation);
    expected_capability_list_is_taken(record.capabilities@);
    dependency_list_is_taken(record.dependencies@);
    if let Some(route) = record.route {
        route_is_taken(route);
    }
    repository_texts_are_plain(record.source_repository@);
}

/// What is asked of the record; one that is still to be signed may lack what is signed.
pub open spec fn receipt_fits(record: OdinRuntimeTopologyCorrelationRecord, unsigned: bool) -> bool {
    &&& record.schema_version@ == "odin.runtime_topology_correlation.v2"@
    &&& tidy(record.target@, 256)
    &&& digest_text(record.expected_projection_sha256@)
    &&& record.expected
    &&& digest_if_there(record.current_activation_sha256)
    &&& digest_if_there(record.signed_presence_sha256)
    &&& tidy_if_there(record.observed_presence_state, 256)
    &&& (record.observed_presence_publisher_sequence matches Some(sequence) ==> sequence > 0)
    &&& digest_if_there(record.observed_write_lease_sha256)
    &&& runtime_capability_list_fits(record.observed_capabilities@)
    &&& (record.signed_presence_sha256 is None ==> record.observed_capabilities@.len() == 0)
    &&& ((record.signed_presence_sha256 is None && record.observed_presence_state is None && record.observed_presence_publisher_sequence is None && record.observed_write_lease_sha256 is None) || (record.signed_presence_sha256 is Some && record.observed_presence_publisher_sequence is Some && (reads(record.observed_presence_state, "active"@) || reads(record.observed_presence_state, "warming"@) || reads(record.observed_presence_state, "degraded"@) || reads(record.observed_presence_state, "failed"@))))
    &&& (reads(record.observed_presence_state, "warming"@) ==> record.observed_write_lease_sha256 is None)
    &&& tidy(record.runtime_id@, 256)
    &&& digest_if_there(record.runtime_instance_id)
    &&& (record.runtime_instance_id is Some <==> record.current_activation_sha256 is Some || record.signed_presence_sha256 is Some)
    &&& (record.present ==> record.current_activation_sha256 is Some && record.signed_presence_sha256 is Some && record.observed_presence_publisher_sequence is Some && record.runtime_instance_id is Some)
    &&& evidence_list_fits(record.dependencies@)
    &&& disagreement_list_fits(record.disagreements@)
    &&& (record.current_activation_sha256 is Some && record.signed_presence_sha256 is Some ==> record.present)
    &&& ((record.current_activation_sha256 is Some) == (record.signed_presence_sha256 is Some) || record.disagreements@.len() > 0)
    &&& (record.ready ==> record.present && reads(record.observed_presence_state, "active"@) && record.disagreements@.len() == 0 && forall|i: int| 0 <= i < record.dependencies@.len() ==> ((#[trigger] record.dependencies@[i]).kind@ != "optional"@ ==> record.dependencies@[i].ready))
    &&& tidy(record.signer_identity_id@, 256)
    &&& (record.publisher_sequence > 0 && record.observed_at_unix_millis > 0 && record.signature_algorithm@ == "ed25519"@ && (record.signature@.len() == 64 || (unsigned && record.signature@.len() == 0)))
}

/// A topology receipt is taken exactly if these rules hold of its fields, and is
/// otherwise refused for the first of them that it breaks.
#[verifier::rlimit(60)]
pub proof fn receipt_rules_are_exact(record: &OdinRuntimeTopologyCorrelationRecord, outcome: Result<(), CultNetError>)
    requires
        call_ensures(OdinRuntimeTopologyCorrelationRecord::validate, (record,), outcome),
    ensures
        ({
            if !(record.schema_version@ == "odin.runtime_topology_correlation.v2"@) {
                says(outcome, "topology correlation schema is unsupported"@)
            } else if !(tidy(record.target@, 256)) {
                says(outcome, "target"@ + " is empty, oversized, padded, or contains control characters"@)
            } else if !(digest_text(record.expected_projection_sha256@)) {
                says(outcome, "correlation expected projection sha256"@ + " is malformed"@)
            } else if !(record.expected) {
                says(outcome, "topology correlation cannot deny the Expected record it binds"@)
            } else if !(digest_if_there(record.current_activation_sha256)) {
                says(outcome, "current activation sha256"@ + " is malformed"@)
            } else if !(digest_if_there(record.signed_presence_sha256)) {
                says(outcome, "signed presence sha256"@ + " is malformed"@)
            } else if !(tidy_if_there(record.observed_presence_state, 256)) {
                says(outcome, "observed presence state"@ + " is empty, oversized, padded, or contains control characters"@)
            } else if !(record.observed_presence_publisher_sequence matches Some(sequence) ==> sequence > 0) {
                says(outcome, "observed presence publisher sequence is zero"@)
            } else if !(digest_if_there(record.observed_write_lease_sha256)) {
                says(outcome, "observed write lease sha256"@ + " is malformed"@)
            } else if !(runtime_capability_list_fits(record.observed_capabilities@)) {
                outcome is Err
            } else if !(record.signed_presence_sha256 is None ==> record.observed_capabilities@.len() == 0) {
                says(outcome, "topology correlation has capabilities without signed presence"@)
            } else if !((record.signed_presence_sha256 is None && record.observed_presence_state is None && record.observed_presence_publisher_sequence is None && record.observed_write_lease_sha256 is None) || (record.signed_presence_sha256 is Some && record.observed_presence_publisher_sequence is Some && (reads(record.observed_presence_state, "active"@) || reads(record.observed_presence_state, "warming"@) || reads(record.observed_presence_state, "degraded"@) || reads(record.observed_presence_state, "failed"@)))) {
                says(outcome, "signed presence state, sequence, or write-lease observation is partial"@)
            } else if !(reads(record.observed_presence_state, "warming"@) ==> record.observed_write_lease_sha256 is None) {
                says(outcome, "warming topology presence cannot carry a process write lease"@)
            } else if !(tidy(record.runtime_id@, 256)) {
                says(outcome, "runtime id"@ + " is empty, oversized, padded, or contains control characters"@)
            } else if !(digest_if_there(record.runtime_instance_id)) {
                says(outcome, "runtime instance id"@ + " is malformed"@)
            } else if !(record.runtime_instance_id is Some <==> record.current_activation_sha256 is Some || record.signed_presence_sha256 is Some) {
                says(outcome, "runtime instance identity and observation evidence are partial"@)
            } else if !(record.present ==> record.current_activation_sha256 is Some && record.signed_presence_sha256 is Some && record.observed_presence_publisher_sequence is Some && record.runtime_instance_id is Some) {
                says(outcome, "Present topology state lacks an authenticated runtime session"@)
            } else if !(evidence_list_fits(record.dependencies@)) {
                outcome is Err
            } else if !(disagreement_list_fits(record.disagreements@)) {
                outcome is Err
            } else if !(record.current_activation_sha256 is Some && record.signed_presence_sha256 is Some ==> record.present) {
                says(outcome, "authenticated runtime session cannot be projected as not Present"@)
            } else if !((record.current_activation_sha256 is Some) == (record.signed_presence_sha256 is Some) || record.disagreements@.len() > 0) {
                says(outcome, "partial or rejected runtime evidence lacks an explicit disagreement"@)
            } else if !(record.ready ==> record.present && reads(record.observed_presence_state, "active"@) && record.disagreements@.len() == 0 && forall|i: int| 0 <= i < record.dependencies@.len() ==> ((#[trigger] record.dependencies@[i]).kind@ != "optional"@ ==> record.dependencies@[i].ready)) {
                says(outcome, "Ready topology state is not supported by correlated evidence"@)
            } else if !(tidy(record.signer_identity_id@, 256)) {
                says(outcome, "signer identity id"@ + " is empty, oversized, padded, or contains control characters"@)
            } else if !(record.publisher_sequence > 0 && record.observed_at_unix_millis > 0 && record.signature_algorithm@ == "ed25519"@ && (record.signature@.len() == 64 || (false && record.signature@.len() == 0))) {
                says(outcome, "topology correlation sequence, time, or signature is invalid"@)
            } else {
                outcome is Ok
            }
        }),
        outcome is Ok <==> receipt_fits(*record, false),
        record.violation() is None <==> receipt_fits(*record, false),
{
    broadcast use text_rules;

    reveal(OdinRuntimeTopologyCorrelationRecord::shape_violation);
    runtime_capability_list_is_taken(record.observed_capabilities@);
    evidence_list_is_taken(record.dependencies@);
    disagreement_list_is_taken(record.disagreements@);
    readiness_is_plain(record.dependencies@);
}

/// Signed or still to be signed, the record is drawn up for its signature exactly if
/// everything else fits.
#[verifier::rlimit(60)]
pub proof fn receipt_drafts_are_exact(record: &OdinRuntimeTopologyCorrelationRecord, outcome: Result<Vec<u8>, CultNetError>)
    requires
        call_ensures(OdinRuntimeTopologyCorrelationRecord::unsigned_signature_payload, (record,), outcome),
    ensures
        outcome is Ok <==> receipt_fits(*record, true),
{
    broadcast use text_rules;

    reveal(OdinRuntimeTopologyCorrelationRecord::shape_violation);
    runtime_capability_list_is_taken(record.observed_capabilities@);
    evidence_list_is_taken(record.dependencies@);
    disagreement_list_is_taken(record.disagreements@);
    readiness_is_plain(record.dependencies@);
}

}

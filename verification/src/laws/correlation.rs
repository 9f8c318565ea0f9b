//! Correlation: every point on which a presence and current authority disagree is listed,
//! with what authority expects and what the runtime claims, and nothing else is.
use vstd::prelude::*;
use super::words::says;
use crate::error::CultNetError;
use crate::number::{decimal, zero_padded};
use crate::record::Identified;
use crate::runtime_authority_contracts::authority::{
    AuthenticatedRuntimePresenceClaim, VerifiedRuntimeAuthority,
};
use crate::runtime_authority_contracts::capability::{
    GameCultRuntimeCapability, IdunnExpectedCapability,
};
use crate::runtime_authority_contracts::correlation::{
    by_code, by_code_is_a_sorted_permutation, correlate_runtime_presence_claim, field_disagreement,
    identity_disagreements, issue_disagreement, lineage_disagreements, presence_disagreements,
    RuntimePresenceCorrelation, VerifiedRuntimePresence,
};
use crate::runtime_authority_contracts::expected::IdunnExpectedIncarnationRecord;
use crate::runtime_authority_contracts::topology::{
    capability_disagreement, capability_disagreements, claimed_capacity, disagreements_of,
    Disagreement, OdinTopologyDisagreement,
};
use crate::text::before;

verus! {

/// The text in it, if there is one.
pub open spec fn text_in(text: Option<String>) -> Option<Seq<char>> {
    match text {
        Some(found) => Some(found@),
        None => None,
    }
}

/// The candidate endpoint of the route, if there is a route.
pub open spec fn endpoint_of(expected: IdunnExpectedIncarnationRecord) -> Option<Seq<char>> {
    match expected.route {
        Some(route) => Some(route.candidate_endpoint@),
        None => None,
    }
}

/// The disagreement has this code, this expected value and this observed value.
pub open spec fn states(
    found: OdinTopologyDisagreement,
    code: Seq<char>,
    expected: Option<Seq<char>>,
    observed: Option<Seq<char>>,
) -> bool {
    found.code@ == code && text_in(found.expected) == expected && text_in(found.observed) == observed
}

/// Some disagreement of the list states this.
pub open spec fn stated_in(
    list: Seq<OdinTopologyDisagreement>,
    code: Seq<char>,
    expected: Option<Seq<char>>,
    observed: Option<Seq<char>>,
) -> bool {
    exists|i: int| 0 <= i < list.len() && states(#[trigger] list[i], code, expected, observed)
}

// ---------------------------------------------------------------------------
// Capabilities
// ---------------------------------------------------------------------------

/// The claim is for the required capability, in its schema and compatibility.
pub open spec fn answers(claim: GameCultRuntimeCapability, required: IdunnExpectedCapability) -> bool {
    claim.capability@ == required.capability@ && claim.schema@ == required.schema@ && claim.compatibility@
        == required.compatibility@
}

/// No claim is for the required capability.
pub open spec fn unanswered(observed: Seq<GameCultRuntimeCapability>, required: IdunnExpectedCapability) -> bool {
    forall|i: int| 0 <= i < observed.len() ==> !answers(#[trigger] observed[i], required)
}

/// The first claim for the required capability is for this capacity.
pub open spec fn first_answered_with(
    observed: Seq<GameCultRuntimeCapability>,
    required: IdunnExpectedCapability,
    capacity: u32,
) -> bool {
    exists|i: int|
        {
            &&& 0 <= i < observed.len()
            &&& answers(#[trigger] observed[i], required)
            &&& observed[i].capacity == capacity
            &&& forall|k: int| 0 <= k < i ==> !answers(#[trigger] observed[k], required)
        }
}

/// What is said of a required capability.
pub open spec fn requirement_words(required: IdunnExpectedCapability) -> Seq<char> {
    required.capability@ + "/"@ + required.schema@ + "/"@ + required.compatibility@ + " capacity>="@ + decimal(
        required.minimum_capacity as nat,
    )
}

proof fn claims_are_found(observed: Seq<GameCultRuntimeCapability>, required: IdunnExpectedCapability)
    ensures
        claimed_capacity(observed, required.identity()) is None <==> unanswered(observed, required),
        forall|capacity: u32|
            claimed_capacity(observed, required.identity()) == Some(capacity) <==> #[trigger] first_answered_with(
                observed,
                required,
                capacity,
            ),
    decreases observed.len(),
{
    if observed.len() > 0 {
        let rest = observed.drop_first();
        claims_are_found(rest, required);
        assert forall|i: int| 0 <= i < rest.len() implies #[trigger] rest[i] == observed[i + 1] by {}
        if answers(observed[0], required) {
            assert(observed[0].identity() == required.identity());
            assert forall|capacity: u32| #[trigger] first_answered_with(observed, required, capacity) <==> observed[0].capacity
                == capacity by {
                if first_answered_with(observed, required, capacity) {
                    let i = choose|i: int|
                        {
                            &&& 0 <= i < observed.len()
                            &&& answers(#[trigger] observed[i], required)
                            &&& observed[i].capacity == capacity
                            &&& forall|k: int| 0 <= k < i ==> !answers(#[trigger] observed[k], required)
                        };
                    if i > 0 {
                        assert(!answers(observed[0], required));
                    }
                }
            }
        } else {
            assert(observed[0].identity() != required.identity());
            if unanswered(rest, required) {
                assert forall|i: int| 0 <= i < observed.len() implies !answers(#[trigger] observed[i], required) by {
                    if i > 0 {
                        assert(!answers(rest[i - 1], required));
                    }
                }
            }
            if unanswered(observed, required) {
                assert forall|i: int| 0 <= i < rest.len() implies !answers(#[trigger] rest[i], required) by {
                    assert(!answers(observed[i + 1], required));
                }
            }
            assert forall|capacity: u32| #[trigger] first_answered_with(observed, required, capacity)
                <==> first_answered_with(rest, required, capacity) by {
                if first_answered_with(observed, required, capacity) {
                    let i = choose|i: int|
                        {
                            &&& 0 <= i < observed.len()
                            &&& answers(#[trigger] observed[i], required)
                            &&& observed[i].capacity == capacity
                            &&& forall|k: int| 0 <= k < i ==> !answers(#[trigger] observed[k], required)
                        };
                    assert(answers(rest[i - 1], required));
                    assert forall|k: int| 0 <= k < i - 1 implies !answers(#[trigger] rest[k], required) by {
                        assert(!answers(observed[k + 1], required));
                    }
                }
                if first_answered_with(rest, required, capacity) {
                    let i = choose|i: int|
                        {
                            &&& 0 <= i < rest.len()
                            &&& answers(#[trigger] rest[i], required)
                            &&& rest[i].capacity == capacity
                            &&& forall|k: int| 0 <= k < i ==> !answers(#[trigger] rest[k], required)
                        };
                    assert(answers(observed[i + 1], required));
                    assert forall|k: int| 0 <= k < i + 1 implies !answers(#[trigger] observed[k], required) by {
                        if k > 0 {
                            assert(!answers(rest[k - 1], required));
                        }
                    }
                }
            }
        }
    }
}

/// The disagreement is on the required capability at the position: it is missing, or it
/// is claimed with less than the required capacity.
#[verifier::opaque]
pub open spec fn on_capability(
    found: Disagreement,
    required: Seq<IdunnExpectedCapability>,
    observed: Seq<GameCultRuntimeCapability>,
    position: int,
) -> bool {
    let code = "expected-capability-"@ + zero_padded(position as nat, 3);
    &&& found.expected == Some(requirement_words(required[position]))
    &&& {
        ||| {
            &&& unanswered(observed, required[position])
            &&& found.code == code + "-missing"@
            &&& found.observed is None
        }
        ||| exists|capacity: u32|
            {
                &&& #[trigger] first_answered_with(observed, required[position], capacity)
                &&& capacity < required[position].minimum_capacity
                &&& found.code == code + "-capacity"@
                &&& found.observed == Some("capacity="@ + decimal(capacity as nat))
            }
    }
}

/// There is one disagreement on a required capability.
pub proof fn the_first_answer_is_one(
    required: Seq<IdunnExpectedCapability>,
    observed: Seq<GameCultRuntimeCapability>,
    position: int,
    a: Disagreement,
    b: Disagreement,
)
    requires
        on_capability(a, required, observed, position),
        on_capability(b, required, observed, position),
    ensures
        a == b,
{
    reveal(on_capability);
    claims_are_found(observed, required[position]);
    assert(a.code =~= b.code);
}

/// The required capability is claimed with at least its capacity.
#[verifier::opaque]
pub open spec fn is_answered(observed: Seq<GameCultRuntimeCapability>, required: IdunnExpectedCapability) -> bool {
    exists|capacity: u32|
        #[trigger] first_answered_with(observed, required, capacity) && capacity >= required.minimum_capacity
}

proof fn a_lacking_capability_disagrees(
    required: Seq<IdunnExpectedCapability>,
    observed: Seq<GameCultRuntimeCapability>,
    position: int,
)
    requires
        0 <= position < required.len(),
    ensures
        capability_disagreement(required[position], position as nat, observed) is Some <==> !is_answered(
            observed,
            required[position],
        ),
        capability_disagreement(required[position], position as nat, observed) matches Some(found)
            ==> on_capability(found, required, observed, position),
{
    reveal(on_capability);
    reveal(is_answered);
    let last = required[position];
    claims_are_found(observed, last);
    let claimed = claimed_capacity(observed, last.identity());
    if let Some(capacity) = claimed {
        assert(first_answered_with(observed, last, capacity));
    }
    if is_answered(observed, last) {
        let capacity = choose|capacity: u32|
            #[trigger] first_answered_with(observed, last, capacity) && capacity >= last.minimum_capacity;
        assert(claimed == Some(capacity));
    }
}

/// Each required capability that is missing or too small has its disagreement.
pub proof fn each_lacking_capability_is_listed(
    required: Seq<IdunnExpectedCapability>,
    observed: Seq<GameCultRuntimeCapability>,
    end: nat,
)
    requires
        end <= required.len(),
    ensures
        forall|k: int|
            0 <= k < end ==> is_answered(observed, #[trigger] required[k]) || exists|i: int|
                0 <= i < capability_disagreements(required, observed, end).len() && on_capability(
                    #[trigger] capability_disagreements(required, observed, end)[i],
                    required,
                    observed,
                    k,
                ),
    decreases end,
{
    let whole = capability_disagreements(required, observed, end);
    if end > 0 {
        let earlier = capability_disagreements(required, observed, (end - 1) as nat);
        let last = required[end - 1];
        let found = capability_disagreement(last, (end - 1) as nat, observed);
        a_lacking_capability_disagrees(required, observed, end - 1);
        each_lacking_capability_is_listed(required, observed, (end - 1) as nat);
        assert forall|k: int| 0 <= k < end && !is_answered(observed, #[trigger] required[k]) implies exists|i: int|
            0 <= i < whole.len() && on_capability(#[trigger] whole[i], required, observed, k) by {
            if k < end - 1 {
                let i = choose|i: int|
                    0 <= i < earlier.len() && on_capability(#[trigger] earlier[i], required, observed, k);
                assert(whole[i] == earlier[i]);
                assert(on_capability(whole[i], required, observed, k));
            } else {
                assert(whole[whole.len() - 1] == found->0);
                assert(on_capability(whole[whole.len() - 1], required, observed, k));
            }
        }
    }
}

/// The disagreement is on one of the first `end` required capabilities, which is missing or
/// too small.
pub open spec fn on_a_lacking_capability(
    found: Disagreement,
    required: Seq<IdunnExpectedCapability>,
    observed: Seq<GameCultRuntimeCapability>,
    end: nat,
) -> bool {
    exists|k: int|
        0 <= k < end && !is_answered(observed, required[k]) && #[trigger] on_capability(found, required, observed, k)
}

/// Each disagreement is on a required capability that is missing or too small.
pub proof fn each_listed_capability_is_lacking(
    required: Seq<IdunnExpectedCapability>,
    observed: Seq<GameCultRuntimeCapability>,
    end: nat,
)
    requires
        end <= required.len(),
    ensures
        forall|i: int|
            0 <= i < capability_disagreements(required, observed, end).len() ==> on_a_lacking_capability(
                #[trigger] capability_disagreements(required, observed, end)[i],
                required,
                observed,
                end,
            ),
    decreases end,
{
    let whole = capability_disagreements(required, observed, end);
    if end > 0 {
        let earlier = capability_disagreements(required, observed, (end - 1) as nat);
        let last = required[end - 1];
        let found = capability_disagreement(last, (end - 1) as nat, observed);
        a_lacking_capability_disagrees(required, observed, end - 1);
        each_listed_capability_is_lacking(required, observed, (end - 1) as nat);
        assert forall|i: int| 0 <= i < whole.len() implies on_a_lacking_capability(
            #[trigger] whole[i],
            required,
            observed,
            end,
        ) by {
            if i < earlier.len() {
                assert(whole[i] == earlier[i]);
                let k = choose|k: int|
                    0 <= k < end - 1 && !is_answered(observed, required[k]) && #[trigger] on_capability(
                        earlier[i],
                        required,
                        observed,
                        k,
                    );
                assert(on_capability(whole[i], required, observed, k));
            } else {
                assert(on_capability(whole[i], required, observed, end - 1));
            }
        }
    } else {
        assert(whole.len() == 0);
    }
}

/// Nothing is listed exactly if every required capability is claimed with its capacity,
/// and none is listed twice.
pub proof fn nothing_is_listed_if_nothing_is_lacking(
    required: Seq<IdunnExpectedCapability>,
    observed: Seq<GameCultRuntimeCapability>,
    end: nat,
)
    requires
        end <= required.len(),
    ensures
        capability_disagreements(required, observed, end).len() <= end,
        (forall|k: int| 0 <= k < end ==> is_answered(observed, #[trigger] required[k])) <==> capability_disagreements(
            required,
            observed,
            end,
        ).len() == 0,
    decreases end,
{
    let whole = capability_disagreements(required, observed, end);
    if end > 0 {
        let earlier = capability_disagreements(required, observed, (end - 1) as nat);
        let last = required[end - 1];
        let found = capability_disagreement(last, (end - 1) as nat, observed);
        a_lacking_capability_disagrees(required, observed, end - 1);
        nothing_is_listed_if_nothing_is_lacking(required, observed, (end - 1) as nat);
        if whole.len() == 0 {
            assert(earlier.len() == 0);
            assert forall|k: int| 0 <= k < end implies is_answered(observed, #[trigger] required[k]) by {}
        }
    }
}

// ---------------------------------------------------------------------------
// Presence
// ---------------------------------------------------------------------------

/// The disagreement is on a point on which the claim and authority differ, with what
/// authority expects as expected and what the runtime claims as observed.
pub open spec fn is_a_point(
    found: Disagreement,
    claim: AuthenticatedRuntimePresenceClaim,
    authority: VerifiedRuntimeAuthority,
) -> bool {
    ||| differs(found, "activation-signer-identity"@, Some(authority.activation_record().activation_signer_identity_id@), Some(claim.claimed().activation_signer_identity_id@))
    ||| differs(found, "activation-witness"@, Some(authority.activation_digest()), Some(claim.claimed().activation_witness_sha256@))
    ||| differs(found, "bound-endpoint"@, endpoint_of(authority.expected_record()), text_in(claim.claimed().bound_endpoint))
    ||| differs(found, "expected-projection"@, Some(authority.expected_digest()), Some(claim.claimed().expected_projection_sha256@))
    ||| differs(found, "health-contract"@, Some(authority.expected_record().health_contract@), Some(claim.claimed().health_contract@))
    ||| differs(found, "incarnation-id"@, Some(authority.expected_record().incarnation_id@), Some(claim.claimed().incarnation_id@))
    ||| differs(found, "plan-id"@, Some(authority.expected_record().plan_id@), Some(claim.claimed().plan_id@))
    ||| differs(found, "runtime-id"@, Some(authority.expected_record().runtime_id@), Some(claim.claimed().runtime_id@))
    ||| differs(found, "runtime-instance-id"@, Some(authority.activation_record().runtime_instance_id@), Some(claim.claimed().runtime_instance_id@))
    ||| differs(found, "sealed-release-id"@, Some(authority.expected_record().sealed_release_id@), Some(claim.claimed().sealed_release_id@))
    ||| differs(found, "signer-identity"@, Some(authority.expected_record().expected_signer_identity_id@), Some(claim.claimed().signer_identity_id@))
    ||| differs(found, "state-contract"@, text_in(authority.expected_record().state_contract_sha256), text_in(claim.claimed().state_contract_sha256))
    ||| differs(found, "state-schema-generation"@, text_in(authority.expected_record().state_schema_generation), text_in(claim.claimed().state_schema_generation))
    ||| differs(found, "target"@, Some(authority.expected_record().target@), Some(claim.claimed().target@))
    ||| {
        &&& authority.activation_record().issued_at_unix_millis > claim.claimed().observed_at_unix_millis
        &&& found.code == "activation-issued-after-presence"@
        &&& found.expected == Some("at-most:"@ + decimal(claim.claimed().observed_at_unix_millis as nat))
        &&& found.observed == Some(decimal(authority.activation_record().issued_at_unix_millis as nat))
    }
    ||| on_a_lacking_capability(
        found,
        authority.expected_record().capabilities@,
        claim.claimed().capabilities@,
        authority.expected_record().capabilities@.len(),
    )
}

/// The disagreement states two values that differ.
pub open spec fn differs(
    found: Disagreement,
    code: Seq<char>,
    expected: Option<Seq<char>>,
    observed: Option<Seq<char>>,
) -> bool {
    found.code == code && found.expected == expected && found.observed == observed && expected != observed
}

proof fn a_point_is_listed(list: Seq<OdinTopologyDisagreement>, found: Disagreement)
    requires
        disagreements_of(list).contains(found),
    ensures
        stated_in(list, found.code, found.expected, found.observed),
{
    let i = choose|i: int| 0 <= i < disagreements_of(list).len() && disagreements_of(list)[i] == found;
    assert(disagreements_of(list)[i] == list[i]@);
    assert(states(list[i], found.code, found.expected, found.observed));
}

broadcast proof fn a_point_is_in_either_part(first: Seq<Disagreement>, last: Seq<Disagreement>, found: Disagreement)
    ensures
        #[trigger] (first + last).contains(found) <==> first.contains(found) || last.contains(found),
{
    let whole = first + last;
    if first.contains(found) {
        let i = choose|i: int| 0 <= i < first.len() && first[i] == found;
        assert(whole[i] == found);
    }
    if last.contains(found) {
        let i = choose|i: int| 0 <= i < last.len() && last[i] == found;
        assert(whole[first.len() + i] == found);
    }
    if whole.contains(found) {
        let i = choose|i: int| 0 <= i < whole.len() && whole[i] == found;
        if i < first.len() {
            assert(first[i] == found);
        } else {
            assert(last[i - first.len()] == found);
        }
    }
}

broadcast proof fn a_field_is_there_if_it_differs(
    code: Seq<char>,
    expected: Option<Seq<char>>,
    observed: Option<Seq<char>>,
    found: Disagreement,
)
    ensures
        #[trigger] field_disagreement(code, expected, observed).contains(found) <==> expected != observed && found == (
        Disagreement { code, expected, observed }),
{
    let list = field_disagreement(code, expected, observed);
    if expected != observed {
        assert(list[0] == (Disagreement { code, expected, observed }));
    }
}

proof fn sorting_keeps_points(list: Seq<Disagreement>, found: Disagreement)
    ensures
        by_code(list).contains(found) <==> list.contains(found),
{
    broadcast use vstd::seq_lib::group_to_multiset_ensures;

    by_code_is_a_sorted_permutation(list);
    assert(by_code(list).to_multiset().count(found) == list.to_multiset().count(found));
}

proof fn activation_signer_identity_is_among_the_points(claim: AuthenticatedRuntimePresenceClaim, authority: VerifiedRuntimeAuthority)
    ensures
        Some(authority.activation_record().activation_signer_identity_id@) != Some(claim.claimed().activation_signer_identity_id@) ==> presence_disagreements(claim.claimed(), authority).contains(
            Disagreement { code: "activation-signer-identity"@, expected: Some(authority.activation_record().activation_signer_identity_id@), observed: Some(claim.claimed().activation_signer_identity_id@) },
        ),
{
    broadcast use {a_point_is_in_either_part, a_field_is_there_if_it_differs};

}

proof fn activation_witness_is_among_the_points(claim: AuthenticatedRuntimePresenceClaim, authority: VerifiedRuntimeAuthority)
    ensures
        Some(authority.activation_digest()) != Some(claim.claimed().activation_witness_sha256@) ==> presence_disagreements(claim.claimed(), authority).contains(
            Disagreement { code: "activation-witness"@, expected: Some(authority.activation_digest()), observed: Some(claim.claimed().activation_witness_sha256@) },
        ),
{
    broadcast use {a_point_is_in_either_part, a_field_is_there_if_it_differs};

}

proof fn bound_endpoint_is_among_the_points(claim: AuthenticatedRuntimePresenceClaim, authority: VerifiedRuntimeAuthority)
    ensures
        endpoint_of(authority.expected_record()) != text_in(claim.claimed().bound_endpoint) ==> presence_disagreements(claim.claimed(), authority).contains(
            Disagreement { code: "bound-endpoint"@, expected: endpoint_of(authority.expected_record()), observed: text_in(claim.claimed().bound_endpoint) },
        ),
{
    broadcast use {a_point_is_in_either_part, a_field_is_there_if_it_differs};

}

proof fn expected_projection_is_among_the_points(claim: AuthenticatedRuntimePresenceClaim, authority: VerifiedRuntimeAuthority)
    ensures
        Some(authority.expected_digest()) != Some(claim.claimed().expected_projection_sha256@) ==> presence_disagreements(claim.claimed(), authority).contains(
            Disagreement { code: "expected-projection"@, expected: Some(authority.expected_digest()), observed: Some(claim.claimed().expected_projection_sha256@) },
        ),
{
    broadcast use {a_point_is_in_either_part, a_field_is_there_if_it_differs};

}

proof fn health_contract_is_among_the_points(claim: AuthenticatedRuntimePresenceClaim, authority: VerifiedRuntimeAuthority)
    ensures
        Some(authority.expected_record().health_contract@) != Some(claim.claimed().health_contract@) ==> presence_disagreements(claim.claimed(), authority).contains(
            Disagreement { code: "health-contract"@, expected: Some(authority.expected_record().health_contract@), observed: Some(claim.claimed().health_contract@) },
        ),
{
    broadcast use {a_point_is_in_either_part, a_field_is_there_if_it_differs};

}

proof fn incarnation_id_is_among_the_points(claim: AuthenticatedRuntimePresenceClaim, authority: VerifiedRuntimeAuthority)
    ensures
        Some(authority.expected_record().incarnation_id@) != Some(claim.claimed().incarnation_id@) ==> presence_disagreements(claim.claimed(), authority).contains(
            Disagreement { code: "incarnation-id"@, expected: Some(authority.expected_record().incarnation_id@), observed: Some(claim.claimed().incarnation_id@) },
        ),
{
    broadcast use {a_point_is_in_either_part, a_field_is_there_if_it_differs};

}

proof fn plan_id_is_among_the_points(claim: AuthenticatedRuntimePresenceClaim, authority: VerifiedRuntimeAuthority)
    ensures
        Some(authority.expected_record().plan_id@) != Some(claim.claimed().plan_id@) ==> presence_disagreements(claim.claimed(), authority).contains(
            Disagreement { code: "plan-id"@, expected: Some(authority.expected_record().plan_id@), observed: Some(claim.claimed().plan_id@) },
        ),
{
    broadcast use {a_point_is_in_either_part, a_field_is_there_if_it_differs};

}

proof fn runtime_id_is_among_the_points(claim: AuthenticatedRuntimePresenceClaim, authority: VerifiedRuntimeAuthority)
    ensures
        Some(authority.expected_record().runtime_id@) != Some(claim.claimed().runtime_id@) ==> presence_disagreements(claim.claimed(), authority).contains(
            Disagreement { code: "runtime-id"@, expected: Some(authority.expected_record().runtime_id@), observed: Some(claim.claimed().runtime_id@) },
        ),
{
    broadcast use {a_point_is_in_either_part, a_field_is_there_if_it_differs};

}

proof fn runtime_instance_id_is_among_the_points(claim: AuthenticatedRuntimePresenceClaim, authority: VerifiedRuntimeAuthority)
    ensures
        Some(authority.activation_record().runtime_instance_id@) != Some(claim.claimed().runtime_instance_id@) ==> presence_disagreements(claim.claimed(), authority).contains(
            Disagreement { code: "runtime-instance-id"@, expected: Some(authority.activation_record().runtime_instance_id@), observed: Some(claim.claimed().runtime_instance_id@) },
        ),
{
    broadcast use {a_point_is_in_either_part, a_field_is_there_if_it_differs};

}

proof fn sealed_release_id_is_among_the_points(claim: AuthenticatedRuntimePresenceClaim, authority: VerifiedRuntimeAuthority)
    ensures
        Some(authority.expected_record().sealed_release_id@) != Some(claim.claimed().sealed_release_id@) ==> presence_disagreements(claim.claimed(), authority).contains(
            Disagreement { code: "sealed-release-id"@, expected: Some(authority.expected_record().sealed_release_id@), observed: Some(claim.claimed().sealed_release_id@) },
        ),
{
    broadcast use {a_point_is_in_either_part, a_field_is_there_if_it_differs};

}

proof fn signer_identity_is_among_the_points(claim: AuthenticatedRuntimePresenceClaim, authority: VerifiedRuntimeAuthority)
    ensures
        Some(authority.expected_record().expected_signer_identity_id@) != Some(claim.claimed().signer_identity_id@) ==> presence_disagreements(claim.claimed(), authority).contains(
            Disagreement { code: "signer-identity"@, expected: Some(authority.expected_record().expected_signer_identity_id@), observed: Some(claim.claimed().signer_identity_id@) },
        ),
{
    broadcast use {a_point_is_in_either_part, a_field_is_there_if_it_differs};

}

proof fn state_contract_is_among_the_points(claim: AuthenticatedRuntimePresenceClaim, authority: VerifiedRuntimeAuthority)
    ensures
        text_in(authority.expected_record().state_contract_sha256) != text_in(claim.claimed().state_contract_sha256) ==> presence_disagreements(claim.claimed(), authority).contains(
            Disagreement { code: "state-contract"@, expected: text_in(authority.expected_record().state_contract_sha256), observed: text_in(claim.claimed().state_contract_sha256) },
        ),
{
    broadcast use {a_point_is_in_either_part, a_field_is_there_if_it_differs};

}

proof fn state_schema_generation_is_among_the_points(claim: AuthenticatedRuntimePresenceClaim, authority: VerifiedRuntimeAuthority)
    ensures
        text_in(authority.expected_record().state_schema_generation) != text_in(claim.claimed().state_schema_generation) ==> presence_disagreements(claim.claimed(), authority).contains(
            Disagreement { code: "state-schema-generation"@, expected: text_in(authority.expected_record().state_schema_generation), observed: text_in(claim.claimed().state_schema_generation) },
        ),
{
    broadcast use {a_point_is_in_either_part, a_field_is_there_if_it_differs};

}

proof fn target_is_among_the_points(claim: AuthenticatedRuntimePresenceClaim, authority: VerifiedRuntimeAuthority)
    ensures
        Some(authority.expected_record().target@) != Some(claim.claimed().target@) ==> presence_disagreements(claim.claimed(), authority).contains(
            Disagreement { code: "target"@, expected: Some(authority.expected_record().target@), observed: Some(claim.claimed().target@) },
        ),
{
    broadcast use {a_point_is_in_either_part, a_field_is_there_if_it_differs};

}

proof fn every_differing_field_is_among_the_points(
    claim: AuthenticatedRuntimePresenceClaim,
    authority: VerifiedRuntimeAuthority,
)
    ensures
        Some(authority.activation_record().activation_signer_identity_id@) != Some(claim.claimed().activation_signer_identity_id@) ==> presence_disagreements(claim.claimed(), authority).contains(
            Disagreement { code: "activation-signer-identity"@, expected: Some(authority.activation_record().activation_signer_identity_id@), observed: Some(claim.claimed().activation_signer_identity_id@) },
        ),
        Some(authority.activation_digest()) != Some(claim.claimed().activation_witness_sha256@) ==> presence_disagreements(claim.claimed(), authority).contains(
            Disagreement { code: "activation-witness"@, expected: Some(authority.activation_digest()), observed: Some(claim.claimed().activation_witness_sha256@) },
        ),
        endpoint_of(authority.expected_record()) != text_in(claim.claimed().bound_endpoint) ==> presence_disagreements(claim.claimed(), authority).contains(
            Disagreement { code: "bound-endpoint"@, expected: endpoint_of(authority.expected_record()), observed: text_in(claim.claimed().bound_endpoint) },
        ),
        Some(authority.expected_digest()) != Some(claim.claimed().expected_projection_sha256@) ==> presence_disagreements(claim.claimed(), authority).contains(
            Disagreement { code: "expected-projection"@, expected: Some(authority.expected_digest()), observed: Some(claim.claimed().expected_projection_sha256@) },
        ),
        Some(authority.expected_record().health_contract@) != Some(claim.claimed().health_contract@) ==> presence_disagreements(claim.claimed(), authority).contains(
            Disagreement { code: "health-contract"@, expected: Some(authority.expected_record().health_contract@), observed: Some(claim.claimed().health_contract@) },
        ),
        Some(authority.expected_record().incarnation_id@) != Some(claim.claimed().incarnation_id@) ==> presence_disagreements(claim.claimed(), authority).contains(
            Disagreement { code: "incarnation-id"@, expected: Some(authority.expected_record().incarnation_id@), observed: Some(claim.claimed().incarnation_id@) },
        ),
        Some(authority.expected_record().plan_id@) != Some(claim.claimed().plan_id@) ==> presence_disagreements(claim.claimed(), authority).contains(
            Disagreement { code: "plan-id"@, expected: Some(authority.expected_record().plan_id@), observed: Some(claim.claimed().plan_id@) },
        ),
        Some(authority.expected_record().runtime_id@) != Some(claim.claimed().runtime_id@) ==> presence_disagreements(claim.claimed(), authority).contains(
            Disagreement { code: "runtime-id"@, expected: Some(authority.expected_record().runtime_id@), observed: Some(claim.claimed().runtime_id@) },
        ),
        Some(authority.activation_record().runtime_instance_id@) != Some(claim.claimed().runtime_instance_id@) ==> presence_disagreements(claim.claimed(), authority).contains(
            Disagreement { code: "runtime-instance-id"@, expected: Some(authority.activation_record().runtime_instance_id@), observed: Some(claim.claimed().runtime_instance_id@) },
        ),
        Some(authority.expected_record().sealed_release_id@) != Some(claim.claimed().sealed_release_id@) ==> presence_disagreements(claim.claimed(), authority).contains(
            Disagreement { code: "sealed-release-id"@, expected: Some(authority.expected_record().sealed_release_id@), observed: Some(claim.claimed().sealed_release_id@) },
        ),
        Some(authority.expected_record().expected_signer_identity_id@) != Some(claim.claimed().signer_identity_id@) ==> presence_disagreements(claim.claimed(), authority).contains(
            Disagreement { code: "signer-identity"@, expected: Some(authority.expected_record().expected_signer_identity_id@), observed: Some(claim.claimed().signer_identity_id@) },
        ),
        text_in(authority.expected_record().state_contract_sha256) != text_in(claim.claimed().state_contract_sha256) ==> presence_disagreements(claim.claimed(), authority).contains(
            Disagreement { code: "state-contract"@, expected: text_in(authority.expected_record().state_contract_sha256), observed: text_in(claim.claimed().state_contract_sha256) },
        ),
        text_in(authority.expected_record().state_schema_generation) != text_in(claim.claimed().state_schema_generation) ==> presence_disagreements(claim.claimed(), authority).contains(
            Disagreement { code: "state-schema-generation"@, expected: text_in(authority.expected_record().state_schema_generation), observed: text_in(claim.claimed().state_schema_generation) },
        ),
        Some(authority.expected_record().target@) != Some(claim.claimed().target@) ==> presence_disagreements(claim.claimed(), authority).contains(
            Disagreement { code: "target"@, expected: Some(authority.expected_record().target@), observed: Some(claim.claimed().target@) },
        ),
{
    activation_signer_identity_is_among_the_points(claim, authority);
    activation_witness_is_among_the_points(claim, authority);
    bound_endpoint_is_among_the_points(claim, authority);
    expected_projection_is_among_the_points(claim, authority);
    health_contract_is_among_the_points(claim, authority);
    incarnation_id_is_among_the_points(claim, authority);
    plan_id_is_among_the_points(claim, authority);
    runtime_id_is_among_the_points(claim, authority);
    runtime_instance_id_is_among_the_points(claim, authority);
    sealed_release_id_is_among_the_points(claim, authority);
    signer_identity_is_among_the_points(claim, authority);
    state_contract_is_among_the_points(claim, authority);
    state_schema_generation_is_among_the_points(claim, authority);
    target_is_among_the_points(claim, authority);
}

proof fn every_identity_point_is_a_difference(
    claim: AuthenticatedRuntimePresenceClaim,
    authority: VerifiedRuntimeAuthority,
    found: Disagreement,
)
    requires
        identity_disagreements(claim.claimed(), authority).contains(found),
    ensures
        is_a_point(found, claim, authority),
{
    broadcast use {a_point_is_in_either_part, a_field_is_there_if_it_differs};

}

proof fn every_lineage_point_is_a_difference(
    claim: AuthenticatedRuntimePresenceClaim,
    authority: VerifiedRuntimeAuthority,
    found: Disagreement,
)
    requires
        lineage_disagreements(claim.claimed(), authority.expected_record()).contains(found),
    ensures
        is_a_point(found, claim, authority),
{
    broadcast use {a_point_is_in_either_part, a_field_is_there_if_it_differs};

}

proof fn every_capability_point_is_a_difference(
    claim: AuthenticatedRuntimePresenceClaim,
    authority: VerifiedRuntimeAuthority,
    found: Disagreement,
)
    requires
        capability_disagreements(
            authority.expected_record().capabilities@,
            claim.claimed().capabilities@,
            authority.expected_record().capabilities@.len(),
        ).contains(found),
    ensures
        is_a_point(found, claim, authority),
{
    let required = authority.expected_record().capabilities@;
    let observed = claim.claimed().capabilities@;
    let capabilities = capability_disagreements(required, observed, required.len());
    each_listed_capability_is_lacking(required, observed, required.len());
    let i = choose|i: int| 0 <= i < capabilities.len() && capabilities[i] == found;
    assert(capabilities[i] == found);
}

proof fn every_point_is_a_difference(
    claim: AuthenticatedRuntimePresenceClaim,
    authority: VerifiedRuntimeAuthority,
    found: Disagreement,
)
    requires
        presence_disagreements(claim.claimed(), authority).contains(found),
    ensures
        is_a_point(found, claim, authority),
{
    let presence = claim.claimed();
    let required = authority.expected_record().capabilities@;
    let identity = identity_disagreements(presence, authority);
    let lineage = lineage_disagreements(presence, authority.expected_record());
    let issue = issue_disagreement(
        authority.activation_record().issued_at_unix_millis,
        presence.observed_at_unix_millis,
    );
    let capabilities = capability_disagreements(required, presence.capabilities@, required.len());
    a_point_is_in_either_part(identity + lineage + issue, capabilities, found);
    a_point_is_in_either_part(identity + lineage, issue, found);
    a_point_is_in_either_part(identity, lineage, found);
    if identity.contains(found) {
        every_identity_point_is_a_difference(claim, authority, found);
    } else if lineage.contains(found) {
        every_lineage_point_is_a_difference(claim, authority, found);
    } else if issue.contains(found) {
        assert(found == issue[0]);
    } else {
        every_capability_point_is_a_difference(claim, authority, found);
    }
}

proof fn a_late_issue_is_stated(
    claim: AuthenticatedRuntimePresenceClaim,
    authority: VerifiedRuntimeAuthority,
    list: Seq<OdinTopologyDisagreement>,
)
    requires
        disagreements_of(list) == by_code(presence_disagreements(claim.claimed(), authority)),
    ensures
        authority.activation_record().issued_at_unix_millis > claim.claimed().observed_at_unix_millis ==> stated_in(
            list,
            "activation-issued-after-presence"@,
            Some("at-most:"@ + decimal(claim.claimed().observed_at_unix_millis as nat)),
            Some(decimal(authority.activation_record().issued_at_unix_millis as nat)),
        ),
{
    broadcast use a_point_is_in_either_part;

    let points = presence_disagreements(claim.claimed(), authority);
    let issue = issue_disagreement(
        authority.activation_record().issued_at_unix_millis,
        claim.claimed().observed_at_unix_millis,
    );
    if issue.len() > 0 {
        assert(issue.contains(issue[0]));
        assert(points.contains(issue[0]));
        sorting_keeps_points(points, issue[0]);
        a_point_is_listed(list, issue[0]);
    }
}

proof fn every_lacking_capability_is_stated(
    claim: AuthenticatedRuntimePresenceClaim,
    authority: VerifiedRuntimeAuthority,
    list: Seq<OdinTopologyDisagreement>,
)
    requires
        disagreements_of(list) == by_code(presence_disagreements(claim.claimed(), authority)),
    ensures
        forall|k: int|
            0 <= k < authority.expected_record().capabilities@.len() ==> is_answered(
                claim.claimed().capabilities@,
                #[trigger] authority.expected_record().capabilities@[k],
            ) || exists|i: int|
                0 <= i < list.len() && on_capability(
                    (#[trigger] list[i])@,
                    authority.expected_record().capabilities@,
                    claim.claimed().capabilities@,
                    k,
                ),
{
    broadcast use a_point_is_in_either_part;

    let required = authority.expected_record().capabilities@;
    let observed = claim.claimed().capabilities@;
    let points = presence_disagreements(claim.claimed(), authority);
    let capabilities = capability_disagreements(required, observed, required.len());
    each_lacking_capability_is_listed(required, observed, required.len());
    assert forall|k: int| 0 <= k < required.len() && !is_answered(observed, #[trigger] required[k]) implies exists|i: int|
        0 <= i < list.len() && on_capability((#[trigger] list[i])@, required, observed, k) by {
        let c = choose|c: int|
            0 <= c < capabilities.len() && on_capability(#[trigger] capabilities[c], required, observed, k);
        let found = capabilities[c];
        assert(capabilities.contains(found));
        assert(points.contains(found));
        sorting_keeps_points(points, found);
        let i = choose|i: int| 0 <= i < disagreements_of(list).len() && disagreements_of(list)[i] == found;
        assert(list[i]@ == found);
    }
}

proof fn every_differing_field_is_stated(
    claim: AuthenticatedRuntimePresenceClaim,
    authority: VerifiedRuntimeAuthority,
    list: Seq<OdinTopologyDisagreement>,
)
    requires
        disagreements_of(list) == by_code(presence_disagreements(claim.claimed(), authority)),
    ensures
        Some(authority.activation_record().activation_signer_identity_id@) != Some(claim.claimed().activation_signer_identity_id@) ==> stated_in(
            list,
            "activation-signer-identity"@,
            Some(authority.activation_record().activation_signer_identity_id@),
            Some(claim.claimed().activation_signer_identity_id@),
        ),
        Some(authority.activation_digest()) != Some(claim.claimed().activation_witness_sha256@) ==> stated_in(
            list,
            "activation-witness"@,
            Some(authority.activation_digest()),
            Some(claim.claimed().activation_witness_sha256@),
        ),
        endpoint_of(authority.expected_record()) != text_in(claim.claimed().bound_endpoint) ==> stated_in(
            list,
            "bound-endpoint"@,
            endpoint_of(authority.expected_record()),
            text_in(claim.claimed().bound_endpoint),
        ),
        Some(authority.expected_digest()) != Some(claim.claimed().expected_projection_sha256@) ==> stated_in(
            list,
            "expected-projection"@,
            Some(authority.expected_digest()),
            Some(claim.claimed().expected_projection_sha256@),
        ),
        Some(authority.expected_record().health_contract@) != Some(claim.claimed().health_contract@) ==> stated_in(
            list,
            "health-contract"@,
            Some(authority.expected_record().health_contract@),
            Some(claim.claimed().health_contract@),
        ),
        Some(authority.expected_record().incarnation_id@) != Some(claim.claimed().incarnation_id@) ==> stated_in(
            list,
            "incarnation-id"@,
            Some(authority.expected_record().incarnation_id@),
            Some(claim.claimed().incarnation_id@),
        ),
        Some(authority.expected_record().plan_id@) != Some(claim.claimed().plan_id@) ==> stated_in(
            list,
            "plan-id"@,
            Some(authority.expected_record().plan_id@),
            Some(claim.claimed().plan_id@),
        ),
        Some(authority.expected_record().runtime_id@) != Some(claim.claimed().runtime_id@) ==> stated_in(
            list,
            "runtime-id"@,
            Some(authority.expected_record().runtime_id@),
            Some(claim.claimed().runtime_id@),
        ),
        Some(authority.activation_record().runtime_instance_id@) != Some(claim.claimed().runtime_instance_id@) ==> stated_in(
            list,
            "runtime-instance-id"@,
            Some(authority.activation_record().runtime_instance_id@),
            Some(claim.claimed().runtime_instance_id@),
        ),
        Some(authority.expected_record().sealed_release_id@) != Some(claim.claimed().sealed_release_id@) ==> stated_in(
            list,
            "sealed-release-id"@,
            Some(authority.expected_record().sealed_release_id@),
            Some(claim.claimed().sealed_release_id@),
        ),
        Some(authority.expected_record().expected_signer_identity_id@) != Some(claim.claimed().signer_identity_id@) ==> stated_in(
            list,
            "signer-identity"@,
            Some(authority.expected_record().expected_signer_identity_id@),
            Some(claim.claimed().signer_identity_id@),
        ),
        text_in(authority.expected_record().state_contract_sha256) != text_in(claim.claimed().state_contract_sha256) ==> stated_in(
            list,
            "state-contract"@,
            text_in(authority.expected_record().state_contract_sha256),
            text_in(claim.claimed().state_contract_sha256),
        ),
        text_in(authority.expected_record().state_schema_generation) != text_in(claim.claimed().state_schema_generation) ==> stated_in(
            list,
            "state-schema-generation"@,
            text_in(authority.expected_record().state_schema_generation),
            text_in(claim.claimed().state_schema_generation),
        ),
        Some(authority.expected_record().target@) != Some(claim.claimed().target@) ==> stated_in(
            list,
            "target"@,
            Some(authority.expected_record().target@),
            Some(claim.claimed().target@),
        ),
{
    let points = presence_disagreements(claim.claimed(), authority);
    every_differing_field_is_among_the_points(claim, authority);
    assert forall|found: Disagreement| #[trigger] points.contains(found) implies stated_in(
        list,
        found.code,
        found.expected,
        found.observed,
    ) by {
        sorting_keeps_points(points, found);
        a_point_is_listed(list, found);
    }
}

/// A correlation lists every point on which the claim and authority differ, with what
/// authority expects and what the runtime claims.
pub proof fn a_correlation_lists_every_difference(
    claim: AuthenticatedRuntimePresenceClaim,
    authority: &VerifiedRuntimeAuthority,
    outcome: Result<RuntimePresenceCorrelation, CultNetError>,
    list: &[OdinTopologyDisagreement],
)
    requires
        call_ensures(correlate_runtime_presence_claim, (claim, authority), outcome),
        outcome is Ok,
        call_ensures(RuntimePresenceCorrelation::disagreements, (&outcome->Ok_0,), list),
    ensures
        outcome->Ok_0.correlated_claim() == claim,
        Some(authority.activation_record().activation_signer_identity_id@) != Some(claim.claimed().activation_signer_identity_id@) ==> stated_in(
            list@,
            "activation-signer-identity"@,
            Some(authority.activation_record().activation_signer_identity_id@),
            Some(claim.claimed().activation_signer_identity_id@),
        ),
        Some(authority.activation_digest()) != Some(claim.claimed().activation_witness_sha256@) ==> stated_in(
            list@,
            "activation-witness"@,
            Some(authority.activation_digest()),
            Some(claim.claimed().activation_witness_sha256@),
        ),
        endpoint_of(authority.expected_record()) != text_in(claim.claimed().bound_endpoint) ==> stated_in(
            list@,
            "bound-endpoint"@,
            endpoint_of(authority.expected_record()),
            text_in(claim.claimed().bound_endpoint),
        ),
        Some(authority.expected_digest()) != Some(claim.claimed().expected_projection_sha256@) ==> stated_in(
            list@,
            "expected-projection"@,
            Some(authority.expected_digest()),
            Some(claim.claimed().expected_projection_sha256@),
        ),
        Some(authority.expected_record().health_contract@) != Some(claim.claimed().health_contract@) ==> stated_in(
            list@,
            "health-contract"@,
            Some(authority.expected_record().health_contract@),
            Some(claim.claimed().health_contract@),
        ),
        Some(authority.expected_record().incarnation_id@) != Some(claim.claimed().incarnation_id@) ==> stated_in(
            list@,
            "incarnation-id"@,
            Some(authority.expected_record().incarnation_id@),
            Some(claim.claimed().incarnation_id@),
        ),
        Some(authority.expected_record().plan_id@) != Some(claim.claimed().plan_id@) ==> stated_in(
            list@,
            "plan-id"@,
            Some(authority.expected_record().plan_id@),
            Some(claim.claimed().plan_id@),
        ),
        Some(authority.expected_record().runtime_id@) != Some(claim.claimed().runtime_id@) ==> stated_in(
            list@,
            "runtime-id"@,
            Some(authority.expected_record().runtime_id@),
            Some(claim.claimed().runtime_id@),
        ),
        Some(authority.activation_record().runtime_instance_id@) != Some(claim.claimed().runtime_instance_id@) ==> stated_in(
            list@,
            "runtime-instance-id"@,
            Some(authority.activation_record().runtime_instance_id@),
            Some(claim.claimed().runtime_instance_id@),
        ),
        Some(authority.expected_record().sealed_release_id@) != Some(claim.claimed().sealed_release_id@) ==> stated_in(
            list@,
            "sealed-release-id"@,
            Some(authority.expected_record().sealed_release_id@),
            Some(claim.claimed().sealed_release_id@),
        ),
        Some(authority.expected_record().expected_signer_identity_id@) != Some(claim.claimed().signer_identity_id@) ==> stated_in(
            list@,
            "signer-identity"@,
            Some(authority.expected_record().expected_signer_identity_id@),
            Some(claim.claimed().signer_identity_id@),
        ),
        text_in(authority.expected_record().state_contract_sha256) != text_in(claim.claimed().state_contract_sha256) ==> stated_in(
            list@,
            "state-contract"@,
            text_in(authority.expected_record().state_contract_sha256),
            text_in(claim.claimed().state_contract_sha256),
        ),
        text_in(authority.expected_record().state_schema_generation) != text_in(claim.claimed().state_schema_generation) ==> stated_in(
            list@,
            "state-schema-generation"@,
            text_in(authority.expected_record().state_schema_generation),
            text_in(claim.claimed().state_schema_generation),
        ),
        Some(authority.expected_record().target@) != Some(claim.claimed().target@) ==> stated_in(
            list@,
            "target"@,
            Some(authority.expected_record().target@),
            Some(claim.claimed().target@),
        ),
        authority.activation_record().issued_at_unix_millis > claim.claimed().observed_at_unix_millis ==> stated_in(
            list@,
            "activation-issued-after-presence"@,
            Some("at-most:"@ + decimal(claim.claimed().observed_at_unix_millis as nat)),
            Some(decimal(authority.activation_record().issued_at_unix_millis as nat)),
        ),
        forall|k: int|
            0 <= k < authority.expected_record().capabilities@.len() ==> is_answered(
                claim.claimed().capabilities@,
                #[trigger] authority.expected_record().capabilities@[k],
            ) || exists|i: int|
                0 <= i < list@.len() && on_capability(
                    (#[trigger] list@[i])@,
                    authority.expected_record().capabilities@,
                    claim.claimed().capabilities@,
                    k,
                ),
{
    every_differing_field_is_stated(claim, *authority, list@);
    a_late_issue_is_stated(claim, *authority, list@);
    every_lacking_capability_is_stated(claim, *authority, list@);
}

/// Everything that a correlation lists is a difference between the claim and authority, and
/// the list is in the order of the codes.
pub proof fn a_correlation_lists_nothing_else(
    claim: AuthenticatedRuntimePresenceClaim,
    authority: &VerifiedRuntimeAuthority,
    outcome: Result<RuntimePresenceCorrelation, CultNetError>,
    list: &[OdinTopologyDisagreement],
)
    requires
        call_ensures(correlate_runtime_presence_claim, (claim, authority), outcome),
        outcome is Ok,
        call_ensures(RuntimePresenceCorrelation::disagreements, (&outcome->Ok_0,), list),
    ensures
        forall|i: int| 0 <= i < list@.len() ==> is_a_point((#[trigger] list@[i])@, claim, *authority),
        forall|i: int, j: int|
            0 <= i < j < list@.len() ==> !before((#[trigger] list@[j]).code@, (#[trigger] list@[i]).code@),
{
    nothing_else_is_stated(claim, *authority, list@);
    codes_are_in_order(presence_disagreements(claim.claimed(), *authority), list@);
}

proof fn nothing_else_is_stated(
    claim: AuthenticatedRuntimePresenceClaim,
    authority: VerifiedRuntimeAuthority,
    list: Seq<OdinTopologyDisagreement>,
)
    requires
        disagreements_of(list) == by_code(presence_disagreements(claim.claimed(), authority)),
    ensures
        forall|i: int| 0 <= i < list.len() ==> is_a_point((#[trigger] list[i])@, claim, authority),
{
    let points = presence_disagreements(claim.claimed(), authority);
    assert forall|i: int| 0 <= i < list.len() implies is_a_point((#[trigger] list[i])@, claim, authority) by {
        assert(disagreements_of(list)[i] == list[i]@);
        assert(by_code(points).contains(list[i]@));
        sorting_keeps_points(points, list[i]@);
        every_point_is_a_difference(claim, authority, list[i]@);
    }
}

proof fn codes_are_in_order(points: Seq<Disagreement>, list: Seq<OdinTopologyDisagreement>)
    requires
        disagreements_of(list) == by_code(points),
    ensures
        forall|i: int, j: int|
            0 <= i < j < list.len() ==> !before((#[trigger] list[j]).code@, (#[trigger] list[i]).code@),
{
    by_code_is_a_sorted_permutation(points);
    assert forall|i: int, j: int| 0 <= i < j < list.len() implies !before(
        (#[trigger] list[j]).code@,
        (#[trigger] list[i]).code@,
    ) by {
        assert(by_code(points)[i].code == list[i].code@);
        assert(by_code(points)[j].code == list[j].code@);
    }
}

/// A disagreement holds its three texts as they are.
pub proof fn a_disagreement_is_its_three_texts(found: OdinTopologyDisagreement)
    ensures
        found@.code == found.code@,
        found@.expected == text_in(found.expected),
        found@.observed == text_in(found.observed),
{
}

/// A claim is undisputed exactly if it and authority agree on every field, the activation
/// was not issued after the presence was observed, and every required capability is
/// claimed with its capacity.
pub proof fn a_claim_is_undisputed_exactly_if_everything_agrees(
    claim: AuthenticatedRuntimePresenceClaim,
    authority: &VerifiedRuntimeAuthority,
    outcome: Result<RuntimePresenceCorrelation, CultNetError>,
    present: Result<VerifiedRuntimePresence, CultNetError>,
)
    requires
        call_ensures(correlate_runtime_presence_claim, (claim, authority), outcome),
        outcome is Ok,
        call_ensures(RuntimePresenceCorrelation::into_undisputed_present, (outcome->Ok_0,), present),
    ensures
        present is Ok <==> {
            &&& Some(authority.activation_record().activation_signer_identity_id@) == Some(claim.claimed().activation_signer_identity_id@)
            &&& Some(authority.activation_digest()) == Some(claim.claimed().activation_witness_sha256@)
            &&& endpoint_of(authority.expected_record()) == text_in(claim.claimed().bound_endpoint)
            &&& Some(authority.expected_digest()) == Some(claim.claimed().expected_projection_sha256@)
            &&& Some(authority.expected_record().health_contract@) == Some(claim.claimed().health_contract@)
            &&& Some(authority.expected_record().incarnation_id@) == Some(claim.claimed().incarnation_id@)
            &&& Some(authority.expected_record().plan_id@) == Some(claim.claimed().plan_id@)
            &&& Some(authority.expected_record().runtime_id@) == Some(claim.claimed().runtime_id@)
            &&& Some(authority.activation_record().runtime_instance_id@) == Some(claim.claimed().runtime_instance_id@)
            &&& Some(authority.expected_record().sealed_release_id@) == Some(claim.claimed().sealed_release_id@)
            &&& Some(authority.expected_record().expected_signer_identity_id@) == Some(claim.claimed().signer_identity_id@)
            &&& text_in(authority.expected_record().state_contract_sha256) == text_in(claim.claimed().state_contract_sha256)
            &&& text_in(authority.expected_record().state_schema_generation) == text_in(claim.claimed().state_schema_generation)
            &&& Some(authority.expected_record().target@) == Some(claim.claimed().target@)
            &&& authority.activation_record().issued_at_unix_millis <= claim.claimed().observed_at_unix_millis
            &&& forall|k: int|
                0 <= k < authority.expected_record().capabilities@.len() ==> is_answered(
                    claim.claimed().capabilities@,
                    #[trigger] authority.expected_record().capabilities@[k],
                )
        },
        present is Err ==> says(present, "runtime presence disagrees with current Expected projection"@),
        present matches Ok(accepted) ==> accepted.accepted_claim() == claim,
{
    let presence = claim.claimed();
    let required = authority.expected_record().capabilities@;
    let points = presence_disagreements(presence, *authority);
    by_code_is_a_sorted_permutation(points);
    every_differing_field_is_among_the_points(claim, *authority);
    nothing_is_listed_if_nothing_is_lacking(required, presence.capabilities@, required.len());
    if points.len() == 0 {
        assert(forall|found: Disagreement| !points.contains(found));
        let issue = issue_disagreement(
            authority.activation_record().issued_at_unix_millis,
            presence.observed_at_unix_millis,
        );
        assert(issue.len() == 0);
    }
}

/// Sorting keeps those with the same code in the order that they had.
pub proof fn sorting_is_stable(list: Seq<Disagreement>)
    requires
        forall|i: int, j: int| 0 <= i < j < list.len() ==> !before(#[trigger] list[j].code, #[trigger] list[i].code),
    ensures
        by_code(list) == list,
    decreases list.len(),
{
    if list.len() > 0 {
        let shorter = list.drop_last();
        assert forall|i: int, j: int| 0 <= i < j < shorter.len() implies !before(
            #[trigger] shorter[j].code,
            #[trigger] shorter[i].code,
        ) by {
            assert(!before(list[j].code, list[i].code));
        }
        sorting_is_stable(shorter);
        if shorter.len() > 0 {
            assert(!before(list[list.len() - 1].code, list[list.len() - 2].code));
        }
        assert(shorter.push(list.last()) =~= list);
    }
}

/// One where it holds, and nothing where it does not.
pub open spec fn one_if(holds: bool) -> nat {
    if holds {
        1
    } else {
        0
    }
}

proof fn each_lacking_capability_counts_once(
    required: Seq<IdunnExpectedCapability>,
    observed: Seq<GameCultRuntimeCapability>,
    end: nat,
)
    requires
        end <= required.len(),
    ensures
        capability_disagreements(required, observed, end).len() == required.take(end as int).filter(
            |capability: IdunnExpectedCapability| !is_answered(observed, capability),
        ).len(),
    decreases end,
{
    reveal(Seq::filter);
    let taken = required.take(end as int);
    if end > 0 {
        each_lacking_capability_counts_once(required, observed, (end - 1) as nat);
        a_lacking_capability_disagrees(required, observed, end - 1);
        assert(taken.drop_last() =~= required.take(end - 1));
        assert(taken.last() == required[end - 1]);
    }
}

/// The number of fields on which the claim and authority differ.
#[verifier::opaque]
pub open spec fn differing_fields(claim: AuthenticatedRuntimePresenceClaim, authority: VerifiedRuntimeAuthority) -> nat {
    differing_identity_fields(claim, authority) + differing_lineage_fields(claim, authority)
}

/// The number of fields that identify the launch and differ.
#[verifier::opaque]
pub open spec fn differing_identity_fields(
    claim: AuthenticatedRuntimePresenceClaim,
    authority: VerifiedRuntimeAuthority,
) -> nat {
    one_if(Some(authority.activation_record().activation_signer_identity_id@) != Some(claim.claimed().activation_signer_identity_id@)) + one_if(Some(authority.activation_digest()) != Some(claim.claimed().activation_witness_sha256@)) + one_if(endpoint_of(authority.expected_record()) != text_in(claim.claimed().bound_endpoint)) + one_if(Some(authority.expected_digest()) != Some(claim.claimed().expected_projection_sha256@)) + one_if(Some(authority.expected_record().health_contract@) != Some(claim.claimed().health_contract@)) + one_if(Some(authority.expected_record().incarnation_id@) != Some(claim.claimed().incarnation_id@)) + one_if(Some(authority.expected_record().plan_id@) != Some(claim.claimed().plan_id@)) + one_if(Some(authority.expected_record().runtime_id@) != Some(claim.claimed().runtime_id@)) + one_if(Some(authority.activation_record().runtime_instance_id@) != Some(claim.claimed().runtime_instance_id@))
}

/// The number of fields that say what is run and by whom and differ.
#[verifier::opaque]
pub open spec fn differing_lineage_fields(
    claim: AuthenticatedRuntimePresenceClaim,
    authority: VerifiedRuntimeAuthority,
) -> nat {
    one_if(Some(authority.expected_record().sealed_release_id@) != Some(claim.claimed().sealed_release_id@)) + one_if(Some(authority.expected_record().expected_signer_identity_id@) != Some(claim.claimed().signer_identity_id@)) + one_if(text_in(authority.expected_record().state_contract_sha256) != text_in(claim.claimed().state_contract_sha256)) + one_if(text_in(authority.expected_record().state_schema_generation) != text_in(claim.claimed().state_schema_generation)) + one_if(Some(authority.expected_record().target@) != Some(claim.claimed().target@))
}

broadcast proof fn a_field_counts_if_it_differs(code: Seq<char>, expected: Option<Seq<char>>, observed: Option<Seq<char>>)
    ensures
        #[trigger] field_disagreement(code, expected, observed).len() == one_if(expected != observed),
{
}

proof fn differing_identity_fields_count_once(
    claim: AuthenticatedRuntimePresenceClaim,
    authority: VerifiedRuntimeAuthority,
)
    ensures
        identity_disagreements(claim.claimed(), authority).len() == differing_identity_fields(claim, authority),
{
    broadcast use a_field_counts_if_it_differs;

    reveal(differing_identity_fields);
}

proof fn differing_lineage_fields_count_once(
    claim: AuthenticatedRuntimePresenceClaim,
    authority: VerifiedRuntimeAuthority,
)
    ensures
        lineage_disagreements(claim.claimed(), authority.expected_record()).len() == differing_lineage_fields(
            claim,
            authority,
        ),
{
    broadcast use a_field_counts_if_it_differs;

    reveal(differing_lineage_fields);
}

proof fn the_parts_make_the_whole(claim: AuthenticatedRuntimePresenceClaim, authority: VerifiedRuntimeAuthority)
    ensures
        presence_disagreements(claim.claimed(), authority).len() == differing_fields(claim, authority) + one_if(
            authority.activation_record().issued_at_unix_millis > claim.claimed().observed_at_unix_millis,
        ) + capability_disagreements(
            authority.expected_record().capabilities@,
            claim.claimed().capabilities@,
            authority.expected_record().capabilities@.len(),
        ).len(),
{
    reveal(differing_fields);
    differing_identity_fields_count_once(claim, authority);
    differing_lineage_fields_count_once(claim, authority);
}

/// A correlation lists each difference once: as many disagreements as there are fields that
/// differ, one more for an activation that was issued too late, and one for each required
/// capability that is lacking.
pub proof fn each_difference_is_listed_once(
    claim: AuthenticatedRuntimePresenceClaim,
    authority: &VerifiedRuntimeAuthority,
    outcome: Result<RuntimePresenceCorrelation, CultNetError>,
    list: &[OdinTopologyDisagreement],
)
    requires
        call_ensures(correlate_runtime_presence_claim, (claim, authority), outcome),
        outcome is Ok,
        call_ensures(RuntimePresenceCorrelation::disagreements, (&outcome->Ok_0,), list),
    ensures
        list@.len() == differing_fields(claim, *authority) + one_if(
            authority.activation_record().issued_at_unix_millis > claim.claimed().observed_at_unix_millis,
        ) + authority.expected_record().capabilities@.filter(
            |capability: IdunnExpectedCapability| !is_answered(claim.claimed().capabilities@, capability),
        ).len(),
{
    let required = authority.expected_record().capabilities@;
    let points = presence_disagreements(claim.claimed(), *authority);
    assert(list@.len() == points.len()) by {
        by_code_is_a_sorted_permutation(points);
        assert(disagreements_of(list@).len() == list@.len());
    }
    the_parts_make_the_whole(claim, *authority);
    each_lacking_capability_counts_once(required, claim.claimed().capabilities@, required.len());
    assert(required.take(required.len() as int) =~= required);
}

/// A claim that agrees with authority on every point is correlated.
pub proof fn an_agreeing_claim_is_correlated(
    claim: AuthenticatedRuntimePresenceClaim,
    authority: &VerifiedRuntimeAuthority,
    outcome: Result<RuntimePresenceCorrelation, CultNetError>,
)
    requires
        call_ensures(correlate_runtime_presence_claim, (claim, authority), outcome),
        ({
            &&& Some(authority.activation_record().activation_signer_identity_id@) == Some(claim.claimed().activation_signer_identity_id@)
            &&& Some(authority.activation_digest()) == Some(claim.claimed().activation_witness_sha256@)
            &&& endpoint_of(authority.expected_record()) == text_in(claim.claimed().bound_endpoint)
            &&& Some(authority.expected_digest()) == Some(claim.claimed().expected_projection_sha256@)
            &&& Some(authority.expected_record().health_contract@) == Some(claim.claimed().health_contract@)
            &&& Some(authority.expected_record().incarnation_id@) == Some(claim.claimed().incarnation_id@)
            &&& Some(authority.expected_record().plan_id@) == Some(claim.claimed().plan_id@)
            &&& Some(authority.expected_record().runtime_id@) == Some(claim.claimed().runtime_id@)
            &&& Some(authority.activation_record().runtime_instance_id@) == Some(claim.claimed().runtime_instance_id@)
            &&& Some(authority.expected_record().sealed_release_id@) == Some(claim.claimed().sealed_release_id@)
            &&& Some(authority.expected_record().expected_signer_identity_id@) == Some(claim.claimed().signer_identity_id@)
            &&& text_in(authority.expected_record().state_contract_sha256) == text_in(claim.claimed().state_contract_sha256)
            &&& text_in(authority.expected_record().state_schema_generation) == text_in(claim.claimed().state_schema_generation)
            &&& Some(authority.expected_record().target@) == Some(claim.claimed().target@)
            &&& authority.activation_record().issued_at_unix_millis <= claim.claimed().observed_at_unix_millis
            &&& forall|k: int|
                0 <= k < authority.expected_record().capabilities@.len() ==> is_answered(
                    claim.claimed().capabilities@,
                    #[trigger] authority.expected_record().capabilities@[k],
                )
        }),
    ensures
        outcome is Ok,
        outcome->Ok_0.correlated_claim() == claim,
        outcome->Ok_0.found().len() == 0,
{
    let required = authority.expected_record().capabilities@;
    let points = presence_disagreements(claim.claimed(), *authority);
    nothing_is_listed_if_nothing_is_lacking(required, claim.claimed().capabilities@, required.len());
    by_code_is_a_sorted_permutation(points);
    assert(points.len() == 0);
    assert(by_code(points) =~= Seq::empty());
}

}

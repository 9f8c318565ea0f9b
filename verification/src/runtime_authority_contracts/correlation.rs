//! What Odin makes of an authenticated presence claim: every point on which it and
//! current authority disagree.
use vstd::prelude::*;
use super::authority::{AuthenticatedRuntimePresenceClaim, VerifiedRuntimeAuthority};
use super::expected::IdunnExpectedIncarnationRecord;
use super::presence::GameCultRuntimePresenceHealthRecord;
use super::topology::{
    capability_disagreements, correlate_capabilities, disagreements_of, disagreements_violation,
    validate_topology_disagreements, Disagreement, OdinTopologyDisagreement,
};
use crate::error::{ensure, reports, unless, CultNetError};
use crate::number::{decimal, decimal_text};
use crate::text::{
    as_text, before, before_is_total, before_is_transitive, is_before, joined, opt, same_text,
    text_of_option,
};

verus! {

/// A dual-authenticated claim that matches current authority. This is the only
/// value that represents semantic Present. Replay admission deliberately does
/// not live here: Odin's durable store must atomically check and advance every
/// authenticated provider sequence, including disagreement-bearing claims,
/// before it signs a topology correlation.
#[derive(Clone, Debug)]
pub struct VerifiedRuntimePresence {
    claim: AuthenticatedRuntimePresenceClaim,
}

impl VerifiedRuntimePresence {
    pub closed spec fn accepted_claim(self) -> AuthenticatedRuntimePresenceClaim {
        self.claim
    }

    pub fn record(&self) -> (record: &GameCultRuntimePresenceHealthRecord)
        ensures
            *record == self.accepted_claim().claimed(),
    {
        self.claim.record()
    }

    pub fn canonical_bytes(&self) -> (bytes: &[u8])
        ensures
            bytes@ == self.accepted_claim().claimed_bytes(),
    {
        self.claim.canonical_bytes()
    }

    pub fn signed_presence_sha256(&self) -> (digest: &str)
        ensures
            digest@ == self.accepted_claim().claimed_digest(),
    {
        self.claim.signed_presence_sha256()
    }

    pub fn accepted_at_unix_millis(&self) -> (accepted: u64)
        ensures
            accepted == self.accepted_claim().received_at(),
    {
        self.claim.received_at_unix_millis()
    }
}

/// Odin's deterministic interpretation of an authenticated provider claim.
/// Authentication of the stable provider and current activation establishes
/// Present. Correlation disagreements remain explicit and deny Ready; they do
/// not erase the observed session that produced them.
#[derive(Clone, Debug)]
pub struct RuntimePresenceCorrelation {
    presence: VerifiedRuntimePresence,
    disagreements: Vec<OdinTopologyDisagreement>,
}

impl RuntimePresenceCorrelation {
    pub closed spec fn correlated_claim(self) -> AuthenticatedRuntimePresenceClaim {
        self.presence.claim
    }

    pub closed spec fn found(self) -> Seq<Disagreement> {
        disagreements_of(self.disagreements@)
    }

    pub fn claim(&self) -> (claim: &AuthenticatedRuntimePresenceClaim)
        ensures
            *claim == self.correlated_claim(),
    {
        &self.presence.claim
    }

    pub fn disagreements(&self) -> (disagreements: &[OdinTopologyDisagreement])
        ensures
            disagreements_of(disagreements@) == self.found(),
    {
        &self.disagreements
    }

    pub fn into_present(self) -> (presence: VerifiedRuntimePresence)
        ensures
            presence.accepted_claim() == self.correlated_claim(),
    {
        self.presence
    }

    pub fn into_undisputed_present(self) -> (outcome: Result<VerifiedRuntimePresence, CultNetError>)
        ensures
            reports(
                outcome,
                unless(
                    self.found().len() == 0,
                    "runtime presence disagrees with current Expected projection"@,
                ),
            ),
            outcome matches Ok(presence) ==> presence.accepted_claim() == self.correlated_claim(),
    {
        ensure(
            self.disagreements.len() == 0,
            "runtime presence disagrees with current Expected projection",
        )?;
        Ok(self.presence)
    }
}

// ---------------------------------------------------------------------------
// Points of disagreement
// ---------------------------------------------------------------------------

/// The disagreement on one field, if the two values differ.
pub open spec fn field_disagreement(
    code: Seq<char>,
    expected: Option<Seq<char>>,
    observed: Option<Seq<char>>,
) -> Seq<Disagreement> {
    if expected == observed {
        Seq::empty()
    } else {
        seq![Disagreement { code, expected, observed }]
    }
}

/// The disagreement on time, if the activation was issued after the presence was
/// observed.
pub open spec fn issue_disagreement(issued_at: u64, observed_at: u64) -> Seq<Disagreement> {
    if issued_at > observed_at {
        seq![
            Disagreement {
                code: "activation-issued-after-presence"@,
                expected: Some("at-most:"@ + decimal(observed_at as nat)),
                observed: Some(decimal(issued_at as nat)),
            },
        ]
    } else {
        Seq::empty()
    }
}

/// The endpoint at which the incarnation is expected to listen.
pub open spec fn expected_endpoint(expected: IdunnExpectedIncarnationRecord) -> Option<Seq<char>> {
    match expected.route {
        Some(route) => Some(route.candidate_endpoint@),
        None => None,
    }
}

/// Every point on which the presence and current authority disagree, field by field
/// and then capability by capability.
pub open spec fn presence_disagreements(
    presence: GameCultRuntimePresenceHealthRecord,
    authority: VerifiedRuntimeAuthority,
) -> Seq<Disagreement> {
    let expected = authority.expected_record();
    let activation = authority.activation_record();
    identity_disagreements(presence, authority) + lineage_disagreements(presence, expected)
        + issue_disagreement(activation.issued_at_unix_millis, presence.observed_at_unix_millis)
        + capability_disagreements(expected.capabilities@, presence.capabilities@, expected.capabilities@.len())
}

/// The points that identify the launch.
pub open spec fn identity_disagreements(
    presence: GameCultRuntimePresenceHealthRecord,
    authority: VerifiedRuntimeAuthority,
) -> Seq<Disagreement> {
    let expected = authority.expected_record();
    let activation = authority.activation_record();
    Seq::<Disagreement>::empty() + field_disagreement(
        "activation-signer-identity"@,
        Some(activation.activation_signer_identity_id@),
        Some(presence.activation_signer_identity_id@),
    ) + field_disagreement(
        "activation-witness"@,
        Some(authority.activation_digest()),
        Some(presence.activation_witness_sha256@),
    ) + field_disagreement(
        "bound-endpoint"@,
        expected_endpoint(expected),
        opt(presence.bound_endpoint),
    ) + field_disagreement(
        "expected-projection"@,
        Some(authority.expected_digest()),
        Some(presence.expected_projection_sha256@),
    ) + field_disagreement(
        "health-contract"@,
        Some(expected.health_contract@),
        Some(presence.health_contract@),
    ) + field_disagreement(
        "incarnation-id"@,
        Some(expected.incarnation_id@),
        Some(presence.incarnation_id@),
    ) + field_disagreement("plan-id"@, Some(expected.plan_id@), Some(presence.plan_id@)) + field_disagreement(
        "runtime-id"@,
        Some(expected.runtime_id@),
        Some(presence.runtime_id@),
    ) + field_disagreement(
        "runtime-instance-id"@,
        Some(activation.runtime_instance_id@),
        Some(presence.runtime_instance_id@),
    )
}

/// The points that say what is run and by whom.
pub open spec fn lineage_disagreements(
    presence: GameCultRuntimePresenceHealthRecord,
    expected: IdunnExpectedIncarnationRecord,
) -> Seq<Disagreement> {
    Seq::<Disagreement>::empty() + field_disagreement(
        "sealed-release-id"@,
        Some(expected.sealed_release_id@),
        Some(presence.sealed_release_id@),
    ) + field_disagreement(
        "signer-identity"@,
        Some(expected.expected_signer_identity_id@),
        Some(presence.signer_identity_id@),
    ) + field_disagreement(
        "state-contract"@,
        opt(expected.state_contract_sha256),
        opt(presence.state_contract_sha256),
    ) + field_disagreement(
        "state-schema-generation"@,
        opt(expected.state_schema_generation),
        opt(presence.state_schema_generation),
    ) + field_disagreement("target"@, Some(expected.target@), Some(presence.target@))
}

fn push_disagreement(
    disagreements: &mut Vec<OdinTopologyDisagreement>,
    code: &str,
    expected: Option<&str>,
    observed: Option<&str>,
)
    ensures
        disagreements_of(final(disagreements)@) == disagreements_of(old(disagreements)@)
            + field_disagreement(code@, text_of_option(expected), text_of_option(observed)),
{
    let agree = match (expected, observed) {
        (Some(a), Some(b)) => same_text(a, b),
        (None, None) => true,
        _ => false,
    };
    if !agree {
        let found = OdinTopologyDisagreement {
            code: code.to_owned(),
            expected: owned(expected),
            observed: owned(observed),
        };
        disagreements.push(found);
        assert(disagreements_of(disagreements@) =~= disagreements_of(old(disagreements)@)
            + field_disagreement(code@, text_of_option(expected), text_of_option(observed)));
    } else {
        assert(disagreements_of(disagreements@) =~= disagreements_of(old(disagreements)@) + Seq::empty());
    }
}

fn owned(text: Option<&str>) -> (copy: Option<String>)
    ensures
        opt(copy) == text_of_option(text),
{
    match text {
        Some(found) => Some(found.to_owned()),
        None => None,
    }
}

fn push_identity_disagreements(
    disagreements: &mut Vec<OdinTopologyDisagreement>,
    presence: &GameCultRuntimePresenceHealthRecord,
    authority: &VerifiedRuntimeAuthority,
)
    requires
        old(disagreements)@.len() == 0,
    ensures
        disagreements_of(final(disagreements)@) == identity_disagreements(*presence, *authority),
{
    let expected = authority.expected();
    let activation = authority.activation();
    let endpoint: Option<&str> = match &expected.route {
        Some(route) => Some(route.candidate_endpoint.as_str()),
        None => None,
    };
    assert(disagreements_of(disagreements@) =~= Seq::<Disagreement>::empty());
    push_disagreement(
        disagreements,
        "activation-signer-identity",
        Some(&activation.activation_signer_identity_id),
        Some(&presence.activation_signer_identity_id),
    );
    push_disagreement(
        disagreements,
        "activation-witness",
        Some(authority.activation_sha256()),
        Some(&presence.activation_witness_sha256),
    );
    push_disagreement(disagreements, "bound-endpoint", endpoint, as_text(&presence.bound_endpoint));
    push_disagreement(
        disagreements,
        "expected-projection",
        Some(authority.expected_sha256()),
        Some(&presence.expected_projection_sha256),
    );
    push_disagreement(
        disagreements,
        "health-contract",
        Some(&expected.health_contract),
        Some(&presence.health_contract),
    );
    push_disagreement(
        disagreements,
        "incarnation-id",
        Some(&expected.incarnation_id),
        Some(&presence.incarnation_id),
    );
    push_disagreement(disagreements, "plan-id", Some(&expected.plan_id), Some(&presence.plan_id));
    push_disagreement(
        disagreements,
        "runtime-id",
        Some(&expected.runtime_id),
        Some(&presence.runtime_id),
    );
    push_disagreement(
        disagreements,
        "runtime-instance-id",
        Some(&activation.runtime_instance_id),
        Some(&presence.runtime_instance_id),
    );
}

fn push_lineage_disagreements(
    disagreements: &mut Vec<OdinTopologyDisagreement>,
    presence: &GameCultRuntimePresenceHealthRecord,
    expected: &IdunnExpectedIncarnationRecord,
)
    ensures
        disagreements_of(final(disagreements)@) == disagreements_of(old(disagreements)@)
            + lineage_disagreements(*presence, *expected),
{
    let ghost start = disagreements_of(disagreements@);
    push_disagreement(
        disagreements,
        "sealed-release-id",
        Some(&expected.sealed_release_id),
        Some(&presence.sealed_release_id),
    );
    push_disagreement(
        disagreements,
        "signer-identity",
        Some(&expected.expected_signer_identity_id),
        Some(&presence.signer_identity_id),
    );
    push_disagreement(
        disagreements,
        "state-contract",
        as_text(&expected.state_contract_sha256),
        as_text(&presence.state_contract_sha256),
    );
    push_disagreement(
        disagreements,
        "state-schema-generation",
        as_text(&expected.state_schema_generation),
        as_text(&presence.state_schema_generation),
    );
    push_disagreement(disagreements, "target", Some(&expected.target), Some(&presence.target));
    assert(disagreements_of(disagreements@) =~= start + lineage_disagreements(*presence, *expected));
}

fn push_issue_disagreement(disagreements: &mut Vec<OdinTopologyDisagreement>, issued_at: u64, observed_at: u64)
    ensures
        disagreements_of(final(disagreements)@) == disagreements_of(old(disagreements)@)
            + issue_disagreement(issued_at, observed_at),
{
    if issued_at > observed_at {
        let found = OdinTopologyDisagreement {
            code: "activation-issued-after-presence".to_owned(),
            expected: Some(joined("at-most:", &decimal_text(observed_at))),
            observed: Some(decimal_text(issued_at)),
        };
        disagreements.push(found);
    }
    assert(disagreements_of(disagreements@) =~= disagreements_of(old(disagreements)@) + issue_disagreement(
        issued_at,
        observed_at,
    ));
}

// ---------------------------------------------------------------------------
// Order
// ---------------------------------------------------------------------------

/// The sorted list with one more disagreement, behind those whose code does not come
/// after its own.
pub open spec fn with_inserted(sorted: Seq<Disagreement>, added: Disagreement) -> Seq<Disagreement>
    decreases sorted.len(),
{
    if sorted.len() > 0 && before(added.code, sorted.last().code) {
        with_inserted(sorted.drop_last(), added).push(sorted.last())
    } else {
        sorted.push(added)
    }
}

/// The disagreements in the order of their codes; those with the same code keep the
/// order that they have.
pub open spec fn by_code(list: Seq<Disagreement>) -> Seq<Disagreement>
    decreases list.len(),
{
    if list.len() == 0 {
        list
    } else {
        with_inserted(by_code(list.drop_last()), list.last())
    }
}

/// No code comes before an earlier one.
pub open spec fn sorted_by_code(list: Seq<Disagreement>) -> bool {
    forall|i: int, j: int| 0 <= i < j < list.len() ==> !before(#[trigger] list[j].code, #[trigger] list[i].code)
}

proof fn with_inserted_at(sorted: Seq<Disagreement>, added: Disagreement, position: int)
    requires
        0 <= position <= sorted.len(),
        forall|k: int| position <= k < sorted.len() ==> before(added.code, (#[trigger] sorted[k]).code),
        position == 0 || !before(added.code, sorted[position - 1].code),
    ensures
        with_inserted(sorted, added) == sorted.insert(position, added),
    decreases sorted.len(),
{
    if position == sorted.len() {
        assert(sorted.insert(position, added) =~= sorted.push(added));
    } else {
        with_inserted_at(sorted.drop_last(), added, position);
        assert(sorted.insert(position, added) =~= sorted.drop_last().insert(position, added).push(sorted.last()));
    }
}

fn sort_by_code(list: Vec<OdinTopologyDisagreement>) -> (sorted: Vec<OdinTopologyDisagreement>)
    ensures
        disagreements_of(sorted@) == by_code(disagreements_of(list@)),
{
    let ghost all = disagreements_of(list@);
    let mut rest = list;
    let mut sorted: Vec<OdinTopologyDisagreement> = Vec::new();
    assert(disagreements_of(rest@) =~= all.skip(0));
    assert(disagreements_of(sorted@) =~= by_code(all.take(0)));
    while rest.len() > 0
        invariant
            rest@.len() + sorted@.len() == all.len(),
            disagreements_of(rest@) == all.skip(sorted@.len() as int),
            disagreements_of(sorted@) == by_code(all.take(sorted@.len() as int)),
        decreases rest@.len(),
    {
        let ghost done = sorted@.len() as int;
        let ghost before_rest = disagreements_of(rest@);
        let added = rest.remove(0);
        assert(added@ == before_rest[0]);
        assert(disagreements_of(rest@) =~= before_rest.skip(1));
        assert(before_rest.skip(1) =~= all.skip(done + 1));
        let ghost model = disagreements_of(sorted@);
        let mut position: usize = sorted.len();
        while position > 0 && is_before(&added.code, &sorted[position - 1].code)
            invariant
                position <= sorted@.len(),
                model == disagreements_of(sorted@),
                forall|k: int| position <= k < sorted@.len() ==> before(added.code@, (#[trigger] model[k]).code),
            decreases position,
        {
            assert(model[position - 1] == sorted@[position - 1]@);
            position -= 1;
        }
        proof {
            if position > 0 {
                assert(model[position - 1] == sorted@[position - 1]@);
            }
            with_inserted_at(model, added@, position as int);
            assert(all.take(done + 1).drop_last() =~= all.take(done));
            assert(all.take(done + 1).last() == added@);
        }
        sorted.insert(position, added);
        assert(disagreements_of(sorted@) =~= model.insert(position as int, added@));
    }
    assert(all.take(all.len() as int) =~= all);
    sorted
}

proof fn inserting_keeps_order(sorted: Seq<Disagreement>, added: Disagreement)
    requires
        sorted_by_code(sorted),
    ensures
        sorted_by_code(with_inserted(sorted, added)),
        with_inserted(sorted, added).to_multiset() == sorted.to_multiset().insert(added),
        with_inserted(sorted, added).len() == sorted.len() + 1,
    decreases sorted.len(),
{
    broadcast use vstd::seq_lib::group_to_multiset_ensures;

    if sorted.len() > 0 && before(added.code, sorted.last().code) {
        let shorter = sorted.drop_last();
        let rest = with_inserted(shorter, added);
        let last = sorted.last();
        assert forall|i: int, j: int| 0 <= i < j < shorter.len() implies !before(
            #[trigger] shorter[j].code,
            #[trigger] shorter[i].code,
        ) by {
            assert(!before(sorted[j].code, sorted[i].code));
        }
        inserting_keeps_order(shorter, added);
        assert(sorted =~= shorter.push(last));
        let whole = rest.push(last);
        assert forall|i: int, j: int| 0 <= i < j < whole.len() implies !before(
            #[trigger] whole[j].code,
            #[trigger] whole[i].code,
        ) by {
            if j < rest.len() {
                assert(!before(rest[j].code, rest[i].code));
            } else {
                assert(rest.to_multiset().contains(rest[i]));
                if rest[i] == added {
                    before_is_total(added.code, last.code);
                } else {
                    assert(shorter.to_multiset().contains(rest[i]));
                    assert(shorter.contains(rest[i]));
                    let k = choose|k: int| 0 <= k < shorter.len() && shorter[k] == rest[i];
                    assert(!before(sorted[sorted.len() - 1].code, sorted[k].code));
                }
            }
        }
        assert(sorted.to_multiset() =~= shorter.to_multiset().insert(last));
        assert(whole.to_multiset() =~= sorted.to_multiset().insert(added));
    } else {
        let whole = sorted.push(added);
        assert forall|i: int, j: int| 0 <= i < j < whole.len() implies !before(
            #[trigger] whole[j].code,
            #[trigger] whole[i].code,
        ) by {
            if j < sorted.len() {
                assert(!before(sorted[j].code, sorted[i].code));
            } else if before(added.code, sorted[i].code) {
                if i < sorted.len() - 1 {
                    assert(!before(sorted[sorted.len() - 1].code, sorted[i].code));
                    before_is_total(sorted.last().code, sorted[i].code);
                    if sorted.last().code != sorted[i].code {
                        before_is_transitive(added.code, sorted[i].code, sorted.last().code);
                    }
                }
            }
        }
    }
}

/// Sorting by code loses nothing, adds nothing, and puts the codes in order.
pub proof fn by_code_is_a_sorted_permutation(list: Seq<Disagreement>)
    ensures
        sorted_by_code(by_code(list)),
        by_code(list).to_multiset() == list.to_multiset(),
        by_code(list).len() == list.len(),
    decreases list.len(),
{
    broadcast use vstd::seq_lib::group_to_multiset_ensures;

    if list.len() > 0 {
        by_code_is_a_sorted_permutation(list.drop_last());
        inserting_keeps_order(by_code(list.drop_last()), list.last());
        assert(list =~= list.drop_last().push(list.last()));
    }
}

// ---------------------------------------------------------------------------
// Correlation
// ---------------------------------------------------------------------------

pub fn correlate_runtime_presence_claim(
    claim: AuthenticatedRuntimePresenceClaim,
    authority: &VerifiedRuntimeAuthority,
) -> (outcome: Result<RuntimePresenceCorrelation, CultNetError>)
    ensures
        reports(
            outcome,
            disagreements_violation(by_code(presence_disagreements(claim.claimed(), *authority))),
        ),
        outcome matches Ok(correlation) ==> {
            &&& correlation.correlated_claim() == claim
            &&& correlation.found() == by_code(presence_disagreements(claim.claimed(), *authority))
        },
{
    let expected = authority.expected();
    let presence = claim.record();
    let mut disagreements: Vec<OdinTopologyDisagreement> = Vec::new();
    push_identity_disagreements(&mut disagreements, presence, authority);
    push_lineage_disagreements(&mut disagreements, presence, expected);
    push_issue_disagreement(
        &mut disagreements,
        authority.activation().issued_at_unix_millis,
        presence.observed_at_unix_millis,
    );
    correlate_capabilities(&mut disagreements, &expected.capabilities, &presence.capabilities);
    let sorted = sort_by_code(disagreements);
    validate_topology_disagreements(&sorted)?;
    Ok(RuntimePresenceCorrelation { presence: VerifiedRuntimePresence { claim }, disagreements: sorted })
}

/// The presence states exactly what authority does, on every point.
pub open spec fn presence_agrees(
    presence: GameCultRuntimePresenceHealthRecord,
    authority: VerifiedRuntimeAuthority,
) -> bool {
    let expected = authority.expected_record();
    let activation = authority.activation_record();
    &&& presence.activation_signer_identity_id@ == activation.activation_signer_identity_id@
    &&& presence.activation_witness_sha256@ == authority.activation_digest()
    &&& opt(presence.bound_endpoint) == expected_endpoint(expected)
    &&& presence.expected_projection_sha256@ == authority.expected_digest()
    &&& presence.health_contract@ == expected.health_contract@
    &&& presence.incarnation_id@ == expected.incarnation_id@
    &&& presence.plan_id@ == expected.plan_id@
    &&& presence.runtime_id@ == expected.runtime_id@
    &&& presence.runtime_instance_id@ == activation.runtime_instance_id@
    &&& presence.sealed_release_id@ == expected.sealed_release_id@
    &&& presence.signer_identity_id@ == expected.expected_signer_identity_id@
    &&& opt(presence.state_contract_sha256) == opt(expected.state_contract_sha256)
    &&& opt(presence.state_schema_generation) == opt(expected.state_schema_generation)
    &&& presence.target@ == expected.target@
    &&& activation.issued_at_unix_millis <= presence.observed_at_unix_millis
    &&& capability_disagreements(
        expected.capabilities@,
        presence.capabilities@,
        expected.capabilities@.len(),
    ).len() == 0
}

/// A correlation is without disagreement exactly if the presence states what authority
/// does on every point.
pub proof fn no_disagreement_exactly_if_the_presence_agrees(
    presence: GameCultRuntimePresenceHealthRecord,
    authority: VerifiedRuntimeAuthority,
)
    ensures
        by_code(presence_disagreements(presence, authority)).len() == 0 <==> presence_agrees(
            presence,
            authority,
        ),
{
    by_code_is_a_sorted_permutation(presence_disagreements(presence, authority));
}

}

//! Odin's receipt against what Idunn expects.
use vstd::prelude::*;
use super::expected::{IdunnExpectedDependency, IdunnExpectedIncarnationRecord};
use super::topology::{
    capability_disagreements, correlate_capabilities, disagreements_of, Disagreement,
    OdinRuntimeDependencyEvidence, OdinRuntimeTopologyCorrelationRecord, OdinTopologyDisagreement,
};
use crate::error::{ensure, first_among, first_among_stays, first_of, reports, unless, CultNetError};
use crate::record::{canonical_digest, Identified, Record};
use crate::rules::{check_sha256, optional_sha256_violation};
use crate::text::{opt, same_optional_text, same_text, text_of_option};

verus! {

/// The evidence is about exactly the dependency that is required, and about the
/// provider that Idunn selected for it.
pub open spec fn evidence_binds(
    evidence: OdinRuntimeDependencyEvidence,
    requirement: IdunnExpectedDependency,
) -> bool {
    &&& evidence.identity() == requirement.identity()
    &&& evidence.kind@ == requirement.kind@
    &&& opt(evidence.provider_id) == opt(requirement.provider_id)
    &&& opt(evidence.provider_authority) == opt(requirement.provider_authority)
    &&& opt(evidence.provider_expected_projection_sha256) == opt(
        requirement.provider_expected_projection_sha256,
    )
    &&& opt(evidence.provider_endpoint) == opt(requirement.provider_endpoint)
}

/// What is said to be ready has at least the required capacity.
pub open spec fn capacity_suffices(
    evidence: OdinRuntimeDependencyEvidence,
    requirement: IdunnExpectedDependency,
) -> bool {
    evidence.ready ==> (evidence.observed_capacity matches Some(capacity) && capacity
        >= requirement.minimum_capacity)
}

/// Why the evidence does not answer the requirement, if it does not.
pub open spec fn evidence_violation(
    evidence: OdinRuntimeDependencyEvidence,
    requirement: IdunnExpectedDependency,
) -> Option<Seq<char>> {
    first_of(
        unless(
            evidence_binds(evidence, requirement),
            "topology dependency evidence does not bind the Expected dependency"@,
        ),
        unless(
            capacity_suffices(evidence, requirement),
            "ready dependency does not meet Expected capacity"@,
        ),
    )
}

/// Why the first evidence that does not answer its requirement is refused.
pub open spec fn all_evidence_violation(
    evidence: Seq<OdinRuntimeDependencyEvidence>,
    requirements: Seq<IdunnExpectedDependency>,
) -> Option<Seq<char>> {
    first_among(|i: int| evidence_violation(evidence[i], requirements[i]), evidence.len())
}

/// Every one of the disagreements is listed.
pub open spec fn lists_all(list: Seq<Disagreement>, wanted: Seq<Disagreement>) -> bool {
    forall|i: int| 0 <= i < wanted.len() ==> list.contains(#[trigger] wanted[i])
}

/// Why the observed lease is not the one that Idunn granted, if it is not: where a
/// lease is required, an observed one is the current one, and Ready needs both; where
/// none is required, there is none.
pub open spec fn lease_violation(
    required: bool,
    ready: bool,
    observed: Option<Seq<char>>,
    current: Option<Seq<char>>,
) -> Option<Seq<char>> {
    if required {
        first_of(
            unless(
                observed is Some ==> observed == current,
                "observed write lease is not the current Idunn grant"@,
            ),
            unless(
                ready ==> observed is Some && current is Some,
                "Ready stateful topology lacks the exact current write lease"@,
            ),
        )
    } else {
        unless(
            observed is None && current is None,
            "stateless Expected topology cannot carry a process write lease"@,
        )
    }
}

impl OdinRuntimeTopologyCorrelationRecord {
    /// The receipt is about the expected incarnation, and about each of its
    /// dependencies.
    pub open spec fn binds_expected(self, expected: IdunnExpectedIncarnationRecord) -> bool {
        &&& self.expected_projection_sha256@ == canonical_digest(expected)
        &&& self.target@ == expected.target@
        &&& self.runtime_id@ == expected.runtime_id@
        &&& self.dependencies@.len() == expected.dependencies@.len()
    }

    /// Every disagreement between required and claimed capabilities is in the receipt.
    pub open spec fn admits_capability_disagreements(self, expected: IdunnExpectedIncarnationRecord) -> bool {
        lists_all(
            disagreements_of(self.disagreements@),
            capability_disagreements(
                expected.capabilities@,
                self.observed_capabilities@,
                expected.capabilities@.len(),
            ),
        )
    }

    /// Why the receipt does not answer what Idunn expects, if it does not.
    pub open spec fn expected_violation(
        self,
        expected: IdunnExpectedIncarnationRecord,
        current_lease: Option<Seq<char>>,
    ) -> Option<Seq<char>> {
        if self.violation() is Some {
            self.violation()
        } else if expected.violation() is Some {
            expected.violation()
        } else if !self.binds_expected(expected) {
            Some("topology correlation substitutes or omits Expected authority"@)
        } else if all_evidence_violation(self.dependencies@, expected.dependencies@) is Some {
            all_evidence_violation(self.dependencies@, expected.dependencies@)
        } else if !self.admits_capability_disagreements(expected) {
            Some("topology correlation omits an observed capability disagreement"@)
        } else if optional_sha256_violation(current_lease, "current write lease sha256"@) is Some {
            optional_sha256_violation(current_lease, "current write lease sha256"@)
        } else {
            lease_violation(
                expected.write_lease_required,
                self.ready,
                opt(self.observed_write_lease_sha256),
                current_lease,
            )
        }
    }

    pub fn validate_against_expected(
        &self,
        expected: &IdunnExpectedIncarnationRecord,
        current_write_lease_sha256: Option<&str>,
    ) -> (outcome: Result<(), CultNetError>)
        ensures
            reports(
                outcome,
                self.expected_violation(*expected, text_of_option(current_write_lease_sha256)),
            ),
    {
        self.validate()?;
        let digest = expected.canonical_sha256()?;
        ensure(
            same_text(&self.expected_projection_sha256, &digest) && same_text(&self.target, &expected.target)
                && same_text(&self.runtime_id, &expected.runtime_id) && self.dependencies.len()
                == expected.dependencies.len(),
            "topology correlation substitutes or omits Expected authority",
        )?;
        check_all_evidence(&self.dependencies, &expected.dependencies)?;
        let mut capability: Vec<OdinTopologyDisagreement> = Vec::new();
        correlate_capabilities(&mut capability, &expected.capabilities, &self.observed_capabilities);
        assert(disagreements_of(capability@) =~= capability_disagreements(
            expected.capabilities@,
            self.observed_capabilities@,
            expected.capabilities@.len(),
        ));
        ensure(
            are_all_listed(&self.disagreements, &capability),
            "topology correlation omits an observed capability disagreement",
        )?;
        if let Some(current) = current_write_lease_sha256 {
            check_sha256(current, "current write lease sha256")?;
        }
        check_lease(
            expected.write_lease_required,
            self.ready,
            &self.observed_write_lease_sha256,
            current_write_lease_sha256,
        )
    }
}

fn check_all_evidence(
    evidence: &Vec<OdinRuntimeDependencyEvidence>,
    requirements: &Vec<IdunnExpectedDependency>,
) -> (outcome: Result<(), CultNetError>)
    requires
        evidence@.len() == requirements@.len(),
    ensures
        reports(outcome, all_evidence_violation(evidence@, requirements@)),
{
    let ghost reasons = |i: int| evidence_violation(evidence@[i], requirements@[i]);
    let mut i: usize = 0;
    while i < evidence.len()
        invariant
            i <= evidence@.len(),
            evidence@.len() == requirements@.len(),
            reasons == (|i: int| evidence_violation(evidence@[i], requirements@[i])),
            first_among(reasons, i as nat) is None,
        decreases evidence@.len() - i,
    {
        let found = &evidence[i];
        let wanted = &requirements[i];
        proof {
            assert(reasons(i as int) == evidence_violation(*found, *wanted));
            assert(first_among(reasons, (i + 1) as nat) == reasons(i as int));
            if reasons(i as int) is Some {
                first_among_stays(reasons, (i + 1) as nat, evidence@.len());
            }
        }
        ensure(
            same_text(&found.capability, &wanted.capability) && same_text(&found.schema, &wanted.schema)
                && same_text(&found.compatibility, &wanted.compatibility) && same_text(
                &found.kind,
                &wanted.kind,
            ) && same_optional_text(&found.provider_id, &wanted.provider_id) && same_optional_text(
                &found.provider_authority,
                &wanted.provider_authority,
            ) && same_optional_text(
                &found.provider_expected_projection_sha256,
                &wanted.provider_expected_projection_sha256,
            ) && same_optional_text(&found.provider_endpoint, &wanted.provider_endpoint),
            "topology dependency evidence does not bind the Expected dependency",
        )?;
        let suffices = match found.observed_capacity {
            Some(capacity) => capacity >= wanted.minimum_capacity,
            None => false,
        };
        ensure(!found.ready || suffices, "ready dependency does not meet Expected capacity")?;
        i += 1;
    }
    Ok(())
}

fn is_listed(list: &Vec<OdinTopologyDisagreement>, wanted: &OdinTopologyDisagreement) -> (found: bool)
    ensures
        found == disagreements_of(list@).contains(wanted@),
{
    let ghost all = disagreements_of(list@);
    let mut i: usize = 0;
    while i < list.len()
        invariant
            i <= list@.len(),
            all == disagreements_of(list@),
            forall|k: int| 0 <= k < i ==> all[k] != wanted@,
        decreases list@.len() - i,
    {
        if list[i].same(wanted) {
            assert(all[i as int] == wanted@);
            return true;
        }
        i += 1;
    }
    false
}

fn are_all_listed(list: &Vec<OdinTopologyDisagreement>, wanted: &Vec<OdinTopologyDisagreement>) -> (found: bool)
    ensures
        found == lists_all(disagreements_of(list@), disagreements_of(wanted@)),
{
    let ghost all = disagreements_of(list@);
    let ghost needed = disagreements_of(wanted@);
    let mut i: usize = 0;
    while i < wanted.len()
        invariant
            i <= wanted@.len(),
            all == disagreements_of(list@),
            needed == disagreements_of(wanted@),
            forall|k: int| 0 <= k < i ==> all.contains(#[trigger] needed[k]),
        decreases wanted@.len() - i,
    {
        assert(needed[i as int] == wanted@[i as int]@);
        if !is_listed(list, &wanted[i]) {
            return false;
        }
        i += 1;
    }
    true
}

fn check_lease(
    required: bool,
    ready: bool,
    observed: &Option<String>,
    current: Option<&str>,
) -> (outcome: Result<(), CultNetError>)
    ensures
        reports(outcome, lease_violation(required, ready, opt(*observed), text_of_option(current))),
{
    if required {
        let is_current = match (observed, current) {
            (None, _) => true,
            (Some(found), Some(granted)) => same_text(found, granted),
            (Some(_), None) => false,
        };
        ensure(is_current, "observed write lease is not the current Idunn grant")?;
        ensure(
            !ready || (observed.is_some() && current.is_some()),
            "Ready stateful topology lacks the exact current write lease",
        )
    } else {
        ensure(
            observed.is_none() && current.is_none(),
            "stateless Expected topology cannot carry a process write lease",
        )
    }
}

/// A receipt that answers what Idunn expects and says Ready has the exact current
/// lease where one is required, claims every required capability, and lists one piece
/// of evidence for each expected dependency.
pub proof fn an_admitted_ready_receipt_is_exact(
    receipt: OdinRuntimeTopologyCorrelationRecord,
    expected: IdunnExpectedIncarnationRecord,
    current_lease: Option<Seq<char>>,
)
    requires
        receipt.expected_violation(expected, current_lease) is None,
        receipt.ready,
    ensures
        receipt.binds_expected(expected),
        expected.write_lease_required ==> current_lease is Some && opt(receipt.observed_write_lease_sha256)
            == current_lease,
        !expected.write_lease_required ==> receipt.observed_write_lease_sha256 is None && current_lease is None,
        capability_disagreements(
            expected.capabilities@,
            receipt.observed_capabilities@,
            expected.capabilities@.len(),
        ).len() == 0,
        forall|i: int|
            0 <= i < expected.dependencies@.len() ==> evidence_binds(
                receipt.dependencies@[i],
                #[trigger] expected.dependencies@[i],
            ) && capacity_suffices(receipt.dependencies@[i], expected.dependencies@[i]),
{
    super::topology::ready_is_never_manufactured(receipt);
    let wanted = capability_disagreements(
        expected.capabilities@,
        receipt.observed_capabilities@,
        expected.capabilities@.len(),
    );
    if wanted.len() > 0 {
        assert(disagreements_of(receipt.disagreements@).contains(wanted[0]));
        assert(disagreements_of(receipt.disagreements@).len() == 0);
    }
    let reasons = |i: int| evidence_violation(receipt.dependencies@[i], expected.dependencies@[i]);
    crate::error::none_among(reasons, receipt.dependencies@.len());
    assert forall|i: int| 0 <= i < expected.dependencies@.len() implies evidence_binds(
        receipt.dependencies@[i],
        #[trigger] expected.dependencies@[i],
    ) && capacity_suffices(receipt.dependencies@[i], expected.dependencies@[i]) by {
        assert(reasons(i) is None);
    }
}

}

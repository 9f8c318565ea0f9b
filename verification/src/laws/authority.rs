//! Authority: what a receipt, a presence and an activation must hold to be taken.
use vstd::prelude::*;
use vstd::utf8::encode_utf8;
use super::correlation::{
    each_lacking_capability_is_listed, each_listed_capability_is_lacking, is_answered,
    on_a_lacking_capability, on_capability, the_first_answer_is_one,
};
use super::identities::{
    a_digest_is_written_so, a_signed_message_is_laid_out_so, an_activation_message_is_laid_out_so,
    an_identity_is_the_digest_of_its_key, identity_text, message_of,
};
use super::words::{digest_text, hex_digits_of, references_are_digests, same_if_there, says};
use crate::error::{first_among, CultNetError};
use crate::primitives::{
    ed25519_point, ed25519_public_key, ed25519_signature, ed25519_verifies, sha256_digest,
};
use crate::record::Record;
use crate::runtime_authority_contracts::activation::{
    IdunnRuntimeActivationRecord, IdunnRuntimeActivationSigner,
};
use crate::runtime_authority_contracts::admission::{evidence_violation, lists_all};
use crate::runtime_authority_contracts::authority::{
    authenticate_presence, authenticate_receipt, verify_runtime_authority,
    OdinTopologyAuthenticationContext, RuntimePresenceAuthenticationContext,
    VerifiedRuntimeAuthority,
};
use crate::runtime_authority_contracts::expected::{
    IdunnExpectedDependency, IdunnExpectedIncarnationRecord,
};
use crate::runtime_authority_contracts::presence::GameCultRuntimePresenceHealthRecord;
use crate::runtime_authority_contracts::topology::{
    capability_disagreements, disagreements_of, OdinRuntimeDependencyEvidence,
    OdinRuntimeTopologyCorrelationRecord,
};
use crate::service_identity::{
    GameCultProviderHealthIdentity, GameCultRuntimePresenceHealthPurpose,
    IdunnRuntimeActivationPurpose, IdunnServiceIdentity, OdinRuntimeTopologyCorrelationPurpose,
    OdinTopologyIdentity, ServiceIdentityProfile, ServiceIdentitySigner,
    ServiceIdentityTrustAnchor, ServiceSignaturePurpose,
};
use crate::text::text_of_option;
use crate::wire::messagepack_encoding;

verus! {

// ---------------------------------------------------------------------------
// Receipts
// ---------------------------------------------------------------------------

/// The evidence is about the required dependency and the provider that was selected for it.
pub open spec fn answers_requirement(
    evidence: OdinRuntimeDependencyEvidence,
    requirement: IdunnExpectedDependency,
) -> bool {
    &&& evidence.capability@ == requirement.capability@
    &&& evidence.schema@ == requirement.schema@
    &&& evidence.compatibility@ == requirement.compatibility@
    &&& evidence.kind@ == requirement.kind@
    &&& same_if_there(evidence.provider_id, requirement.provider_id)
    &&& same_if_there(evidence.provider_authority, requirement.provider_authority)
    &&& same_if_there(evidence.provider_expected_projection_sha256, requirement.provider_expected_projection_sha256)
    &&& same_if_there(evidence.provider_endpoint, requirement.provider_endpoint)
}

/// Where the evidence says that the dependency is ready, it is with the required capacity.
pub open spec fn has_the_capacity(
    evidence: OdinRuntimeDependencyEvidence,
    requirement: IdunnExpectedDependency,
) -> bool {
    evidence.ready ==> (evidence.observed_capacity matches Some(capacity) && capacity >= requirement.minimum_capacity)
}

/// Every required capability that is missing or too small is stated in the receipt.
pub open spec fn states_what_is_lacking(
    receipt: OdinRuntimeTopologyCorrelationRecord,
    expected: IdunnExpectedIncarnationRecord,
) -> bool {
    forall|k: int|
        0 <= k < expected.capabilities@.len() && !is_answered(
            receipt.observed_capabilities@,
            #[trigger] expected.capabilities@[k],
        ) ==> states_on(receipt, expected, k)
}

/// A disagreement of the receipt is on the required capability at the position.
pub open spec fn states_on(
    receipt: OdinRuntimeTopologyCorrelationRecord,
    expected: IdunnExpectedIncarnationRecord,
    position: int,
) -> bool {
    exists|i: int|
        0 <= i < receipt.disagreements@.len() && on_capability(
            (#[trigger] receipt.disagreements@[i])@,
            expected.capabilities@,
            receipt.observed_capabilities@,
            position,
        )
}

/// The lease is as it has to be: where one is required, an observed one is the current one,
/// and Ready needs both; where none is required, there is none.
pub open spec fn lease_is_in_order(required: bool, ready: bool, observed: Option<String>, current: Option<&str>) -> bool {
    if required {
        &&& observed matches Some(found) ==> (current matches Some(granted) && granted@ == found@)
        &&& ready ==> observed is Some && current is Some
    } else {
        observed is None && current is None
    }
}

proof fn the_lacking_are_stated(receipt: OdinRuntimeTopologyCorrelationRecord, expected: IdunnExpectedIncarnationRecord)
    ensures
        receipt.admits_capability_disagreements(expected) <==> states_what_is_lacking(receipt, expected),
{
    let required = expected.capabilities@;
    let observed = receipt.observed_capabilities@;
    let wanted = capability_disagreements(required, observed, required.len());
    let list = disagreements_of(receipt.disagreements@);
    if lists_all(list, wanted) {
        each_lacking_capability_is_listed(required, observed, required.len());
        assert forall|k: int| 0 <= k < required.len() && !is_answered(observed, #[trigger] required[k]) implies states_on(
            receipt,
            expected,
            k,
        ) by {
            let c = choose|c: int|
                0 <= c < wanted.len() && on_capability(#[trigger] wanted[c], required, observed, k);
            assert(list.contains(wanted[c]));
            let i = choose|i: int| 0 <= i < list.len() && list[i] == wanted[c];
            assert(receipt.disagreements@[i]@ == wanted[c]);
        }
    }
    if states_what_is_lacking(receipt, expected) {
        each_listed_capability_is_lacking(required, observed, required.len());
        assert forall|c: int| 0 <= c < wanted.len() implies list.contains(#[trigger] wanted[c]) by {
            assert(on_a_lacking_capability(wanted[c], required, observed, required.len()));
            let k = choose|k: int|
                0 <= k < required.len() && !is_answered(observed, required[k]) && #[trigger] on_capability(
                    wanted[c],
                    required,
                    observed,
                    k,
                );
            assert(states_on(receipt, expected, k));
            let i = choose|i: int|
                0 <= i < receipt.disagreements@.len() && on_capability(
                    (#[trigger] receipt.disagreements@[i])@,
                    required,
                    observed,
                    k,
                );
            the_first_answer_is_one(required, observed, k, receipt.disagreements@[i]@, wanted[c]);
            assert(list[i] == wanted[c]);
        }
    }
}

proof fn the_evidence_answers(
    evidence: Seq<OdinRuntimeDependencyEvidence>,
    requirements: Seq<IdunnExpectedDependency>,
)
    requires
        evidence.len() == requirements.len(),
    ensures
        crate::runtime_authority_contracts::admission::all_evidence_violation(evidence, requirements) is None
            <==> forall|i: int|
            0 <= i < evidence.len() ==> answers_requirement(#[trigger] evidence[i], requirements[i]) && has_the_capacity(
                evidence[i],
                requirements[i],
            ),
{
    let reasons = |i: int| evidence_violation(evidence[i], requirements[i]);
    super::snapshots::no_reason_among_none(reasons, evidence.len());
    assert forall|i: int| 0 <= i < evidence.len() implies (reasons(i) is None <==> answers_requirement(
        #[trigger] evidence[i],
        requirements[i],
    ) && has_the_capacity(evidence[i], requirements[i])) by {}
    if forall|i: int|
        0 <= i < evidence.len() ==> answers_requirement(#[trigger] evidence[i], requirements[i]) && has_the_capacity(
            evidence[i],
            requirements[i],
        ) {
        assert forall|i: int| 0 <= i < evidence.len() implies (#[trigger] reasons(i)) is None by {
            assert(answers_requirement(evidence[i], requirements[i]));
        }
    }
    if first_among(reasons, evidence.len()) is None {
        assert forall|i: int| 0 <= i < evidence.len() implies answers_requirement(#[trigger] evidence[i], requirements[i])
            && has_the_capacity(evidence[i], requirements[i]) by {
            assert(reasons(i) is None);
        }
    }
}

/// The digest of the record's canonical form.
pub open spec fn digest_of<R: Record>(record: R) -> Seq<char> {
    "sha256-"@ + hex_digits_of(sha256_digest(messagepack_encoding(record.wire())))
}

/// A receipt answers what Idunn expects exactly if both meet their rules, it names the
/// expected projection, target and runtime, each dependency is answered with its capacity,
/// everything that is lacking is stated, and the lease is in order; otherwise the first that
/// fails is said.
pub proof fn a_receipt_answers_exactly_what_is_expected(
    receipt: &OdinRuntimeTopologyCorrelationRecord,
    expected: &IdunnExpectedIncarnationRecord,
    current: Option<&str>,
    outcome: Result<(), CultNetError>,
)
    requires
        call_ensures(
            OdinRuntimeTopologyCorrelationRecord::validate_against_expected,
            (receipt, expected, current),
            outcome,
        ),
    ensures
        ({
            let valid = receipt.violation() is None && expected.violation() is None;
            let bound = receipt.expected_projection_sha256@ == digest_of(*expected) && receipt.target@
                == expected.target@ && receipt.runtime_id@ == expected.runtime_id@ && receipt.dependencies@.len()
                == expected.dependencies@.len();
            let answered = forall|i: int|
                0 <= i < receipt.dependencies@.len() ==> answers_requirement(
                    #[trigger] receipt.dependencies@[i],
                    expected.dependencies@[i],
                ) && has_the_capacity(receipt.dependencies@[i], expected.dependencies@[i]);
            let stated = states_what_is_lacking(*receipt, *expected);
            let digest = current matches Some(text) ==> digest_text(text@);
            let lease = lease_is_in_order(
                expected.write_lease_required,
                receipt.ready,
                receipt.observed_write_lease_sha256,
                current,
            );
            &&& outcome is Ok <==> valid && bound && answered && stated && digest && lease
            &&& receipt.violation() matches Some(words) ==> says(outcome, words)
            &&& receipt.violation() is None ==> (expected.violation() matches Some(words) ==> says(outcome, words))
            &&& valid && !bound ==> says(outcome, "topology correlation substitutes or omits Expected authority"@)
            &&& valid && bound && answered && !stated ==> says(
                outcome,
                "topology correlation omits an observed capability disagreement"@,
            )
            &&& valid && bound && answered && stated && !digest ==> says(
                outcome,
                "current write lease sha256"@ + " is malformed"@,
            )
        }),
{
    broadcast use references_are_digests;

    a_digest_is_written_so(messagepack_encoding(expected.wire()));
    the_lacking_are_stated(*receipt, *expected);
    if receipt.dependencies@.len() == expected.dependencies@.len() {
        the_evidence_answers(receipt.dependencies@, expected.dependencies@);
    }
}

/// The words on a lease that is not in order.
pub proof fn a_lease_that_is_not_in_order_is_named(
    receipt: &OdinRuntimeTopologyCorrelationRecord,
    expected: &IdunnExpectedIncarnationRecord,
    current: Option<&str>,
    outcome: Result<(), CultNetError>,
)
    requires
        call_ensures(
            OdinRuntimeTopologyCorrelationRecord::validate_against_expected,
            (receipt, expected, current),
            outcome,
        ),
        receipt.violation() is None,
        expected.violation() is None,
        receipt.binds_expected(*expected),
        crate::runtime_authority_contracts::admission::all_evidence_violation(
            receipt.dependencies@,
            expected.dependencies@,
        ) is None,
        receipt.admits_capability_disagreements(*expected),
        current matches Some(text) ==> digest_text(text@),
    ensures
        !expected.write_lease_required && (receipt.observed_write_lease_sha256 is Some || current is Some) ==> says(
            outcome,
            "stateless Expected topology cannot carry a process write lease"@,
        ),
        expected.write_lease_required && (receipt.observed_write_lease_sha256 matches Some(found) && !(
        current matches Some(granted) && granted@ == found@)) ==> says(
            outcome,
            "observed write lease is not the current Idunn grant"@,
        ),
        expected.write_lease_required && receipt.ready && receipt.observed_write_lease_sha256 is None ==> says(
            outcome,
            "Ready stateful topology lacks the exact current write lease"@,
        ),
{
    broadcast use references_are_digests;

}

// ---------------------------------------------------------------------------
// Time
// ---------------------------------------------------------------------------

/// The observation is at most the skew later and at most the age earlier than its receipt.
pub open spec fn timely(observed: u64, received: u64, age: u64, skew: u64) -> bool {
    observed <= received + skew && received <= observed + age
}

// ---------------------------------------------------------------------------
// Presence
// ---------------------------------------------------------------------------

/// The signature of the profile's identity with the key, over the payload and for the
/// purpose, is genuine.
pub open spec fn genuinely_signed<P: ServiceIdentityProfile, S: ServiceSignaturePurpose<P>>(
    public_key: Seq<u8>,
    payload: Seq<u8>,
    signer: Seq<char>,
    signature: Seq<u8>,
) -> bool {
    &&& public_key.len() == 32
    &&& signer == identity_text(P::ID_DOMAIN@, public_key)
    &&& signature.len() == 64
    &&& ed25519_point(public_key)
    &&& ed25519_verifies(public_key, message_of(P::SIGNATURE_DOMAIN@, S::PURPOSE@, payload), signature)
}

/// The activation's key signed the payload.
pub open spec fn proven_by_activation(public_key: Seq<u8>, payload: Seq<u8>, signature: Seq<u8>) -> bool {
    &&& public_key.len() == 32
    &&& signature.len() == 64
    &&& ed25519_point(public_key)
    &&& ed25519_verifies(
        public_key,
        message_of(
            "idunn.runtime-activation.signature.v1\0"@,
            "gamecult.runtime_presence.activation-proof.v1"@,
            payload,
        ),
        signature,
    )
}

/// A presence is authenticated exactly if it and the activation are timely, it names the
/// expected signer, and the provider's key and the activation's key signed it; otherwise the
/// first that fails is said.
pub proof fn a_presence_is_authenticated_exactly_if_both_keys_signed_it(
    presence: &GameCultRuntimePresenceHealthRecord,
    authority: &VerifiedRuntimeAuthority,
    context: RuntimePresenceAuthenticationContext,
    outcome: Result<(), CultNetError>,
)
    requires
        call_ensures(authenticate_presence, (presence, authority, context), outcome),
        presence.violation() is None,
        encode_utf8(<GameCultRuntimePresenceHealthPurpose as ServiceSignaturePurpose<GameCultProviderHealthIdentity>>::PURPOSE@).len()
            <= u64::MAX,
        encode_utf8("gamecult.runtime_presence.activation-proof.v1"@).len() <= u64::MAX,
        messagepack_encoding(presence.proof_wire()).len() <= u64::MAX,
    ensures
        ({
            let payload = messagepack_encoding(presence.proof_wire());
            let received = context.trusted_received_at_unix_millis;
            let on_time = timely(
                presence.observed_at_unix_millis,
                received,
                context.maximum_age_millis,
                context.maximum_future_skew_millis,
            ) && authority.activation_record().issued_at_unix_millis <= received + context.maximum_future_skew_millis;
            let named = presence.signer_identity_id@ == authority.expected_record().expected_signer_identity_id@;
            let signed = genuinely_signed::<GameCultProviderHealthIdentity, GameCultRuntimePresenceHealthPurpose>(
                authority.provider_key(),
                payload,
                presence.signer_identity_id@,
                presence.signature@,
            );
            let key = authority.activation_record().activation_signer_public_key@;
            let proven = proven_by_activation(key, payload, presence.activation_signature@);
            &&& outcome is Ok <==> on_time && named && signed && proven
            &&& !on_time ==> says(outcome, "runtime presence is outside the trusted observation window"@)
            &&& on_time && !named ==> says(
                outcome,
                "runtime presence signer is not Idunn's Expected signer selection"@,
            )
            &&& on_time && named && signed && !proven ==> {
                ||| says(outcome, "runtime activation public key has invalid length"@)
                ||| says(outcome, "runtime activation signature has invalid length"@)
                ||| says(outcome, "runtime activation public key is not a curve point"@)
                ||| says(outcome, "runtime activation proof verification failed"@)
            }
        }),
{
    let payload = messagepack_encoding(presence.proof_wire());
    an_identity_is_the_digest_of_its_key::<GameCultProviderHealthIdentity>(authority.provider_key());
    a_signed_message_is_laid_out_so::<GameCultProviderHealthIdentity, GameCultRuntimePresenceHealthPurpose>(payload);
    an_activation_message_is_laid_out_so(payload);
}

/// A receipt is authenticated exactly if it answers what is expected, names the current
/// activation and runtime instance, is timely, and Odin's admitted key signed it.
pub proof fn a_receipt_is_authenticated_exactly_if_odin_signed_it(
    receipt: &OdinRuntimeTopologyCorrelationRecord,
    unsigned: &[u8],
    authority: &VerifiedRuntimeAuthority,
    current: Option<&str>,
    odin_key: &[u8],
    context: OdinTopologyAuthenticationContext,
    outcome: Result<(), CultNetError>,
)
    requires
        unsigned@ == messagepack_encoding(receipt.unsigned_wire()),
        call_ensures(authenticate_receipt, (receipt, unsigned, authority, current, odin_key, context), outcome),
        encode_utf8(<OdinRuntimeTopologyCorrelationPurpose as ServiceSignaturePurpose<OdinTopologyIdentity>>::PURPOSE@).len()
            <= u64::MAX,
        unsigned@.len() <= u64::MAX,
    ensures
        ({
            let answers = receipt.expected_violation(authority.expected_record(), text_of_option(current));
            let current_one = (receipt.current_activation_sha256 matches Some(digest) && digest@
                == authority.activation_digest()) && (receipt.runtime_instance_id matches Some(instance) && instance@
                == authority.activation_record().runtime_instance_id@);
            let on_time = timely(
                receipt.observed_at_unix_millis,
                context.trusted_received_at_unix_millis,
                context.maximum_age_millis,
                context.maximum_future_skew_millis,
            );
            let signed = genuinely_signed::<OdinTopologyIdentity, OdinRuntimeTopologyCorrelationPurpose>(
                odin_key@,
                unsigned@,
                receipt.signer_identity_id@,
                receipt.signature@,
            );
            &&& outcome is Ok <==> answers is None && current_one && on_time && signed
            &&& answers matches Some(words) ==> says(outcome, words)
            &&& answers is None && !current_one ==> says(
                outcome,
                "topology correlation does not bind the current activation"@,
            )
            &&& answers is None && current_one && !on_time ==> says(
                outcome,
                "Odin topology correlation is outside the trusted observation window"@,
            )
        }),
{
    an_identity_is_the_digest_of_its_key::<OdinTopologyIdentity>(odin_key@);
    a_signed_message_is_laid_out_so::<OdinTopologyIdentity, OdinRuntimeTopologyCorrelationPurpose>(unsigned@);
}

// ---------------------------------------------------------------------------
// Activations
// ---------------------------------------------------------------------------

/// An activation is Idunn's for the expected incarnation exactly if both records meet their
/// rules, it names the incarnation's digest and runtime, the anchor is Idunn's, and its key
/// signed the activation.
pub proof fn an_activation_binds_exactly_the_expected_incarnation(
    activation: &IdunnRuntimeActivationRecord,
    expected: &IdunnExpectedIncarnationRecord,
    anchor: &ServiceIdentityTrustAnchor,
    outcome: Result<(), CultNetError>,
)
    requires
        call_ensures(IdunnRuntimeActivationRecord::verify_for_expected, (activation, expected, anchor), outcome),
        encode_utf8(<IdunnRuntimeActivationPurpose as ServiceSignaturePurpose<IdunnServiceIdentity>>::PURPOSE@).len()
            <= u64::MAX,
        messagepack_encoding(activation.unsigned_wire()).len() <= u64::MAX,
    ensures
        ({
            let valid = activation.violation() is None && expected.violation() is None;
            let bound = activation.expected_projection_sha256@ == digest_of(*expected) && activation.runtime_id@
                == expected.runtime_id@;
            let signed = anchor.schema_version@
                == <IdunnServiceIdentity as ServiceIdentityProfile>::TRUST_ANCHOR_SCHEMA@ && anchor.identity_id@
                == identity_text(<IdunnServiceIdentity as ServiceIdentityProfile>::ID_DOMAIN@, anchor.public_key@)
                && genuinely_signed::<IdunnServiceIdentity, IdunnRuntimeActivationPurpose>(
                anchor.public_key@,
                messagepack_encoding(activation.unsigned_wire()),
                activation.idunn_signer_identity_id@,
                activation.signature@,
            );
            &&& outcome is Ok <==> valid && bound && signed
            &&& activation.violation() matches Some(words) ==> says(outcome, words)
            &&& activation.violation() is None ==> (expected.violation() matches Some(words) ==> says(outcome, words))
            &&& valid && !bound ==> says(
                outcome,
                "runtime activation does not bind the current Expected incarnation"@,
            )
            &&& valid && bound && !signed ==> says(outcome, "verifying Idunn runtime activation signature"@)
        }),
{
    a_digest_is_written_so(messagepack_encoding(expected.wire()));
    an_identity_is_the_digest_of_its_key::<IdunnServiceIdentity>(anchor.public_key@);
    a_signed_message_is_laid_out_so::<IdunnServiceIdentity, IdunnRuntimeActivationPurpose>(
        messagepack_encoding(activation.unsigned_wire()),
    );
}

/// Authority is verified exactly if the activation is Idunn's for the expected incarnation
/// and the provider's key is the one that Idunn selected; it holds both records, their
/// digests and the key.
pub proof fn authority_is_verified_exactly_if_the_activation_and_the_key_are_right(
    expected: &IdunnExpectedIncarnationRecord,
    activation: &IdunnRuntimeActivationRecord,
    anchor: &ServiceIdentityTrustAnchor,
    provider_key: &[u8],
    outcome: Result<VerifiedRuntimeAuthority, CultNetError>,
    verified: Result<(), CultNetError>,
)
    requires
        call_ensures(verify_runtime_authority, (expected, activation, anchor, provider_key), outcome),
        call_ensures(IdunnRuntimeActivationRecord::verify_for_expected, (activation, expected, anchor), verified),
    ensures
        ({
            let key = provider_key@.len() == 32;
            let selected = expected.expected_signer_identity_id@ == identity_text(
                <GameCultProviderHealthIdentity as ServiceIdentityProfile>::ID_DOMAIN@,
                provider_key@,
            );
            &&& outcome is Ok <==> expected.violation() is None && verified is Ok && key && selected
            &&& expected.violation() is None && verified is Ok && !key ==> says(
                outcome,
                "service identity public key has invalid length"@,
            )
            &&& expected.violation() is None && verified is Ok && key && !selected ==> says(
                outcome,
                "provider public key is not Idunn's Expected signer selection"@,
            )
            &&& outcome matches Ok(authority) ==> {
                &&& authority.expected_record().wire() == expected.wire()
                &&& authority.activation_record().wire() == activation.wire()
                &&& authority.provider_key() == provider_key@
                &&& authority.expected_digest() == digest_of(*expected)
                &&& authority.activation_digest() == digest_of(*activation)
            }
        }),
{
    a_digest_is_written_so(messagepack_encoding(expected.wire()));
    a_digest_is_written_so(messagepack_encoding(activation.wire()));
    an_identity_is_the_digest_of_its_key::<GameCultProviderHealthIdentity>(provider_key@);
}

/// An activation is issued exactly if the incarnation meets its rules, the instance is a
/// digest, the issuer is tidy and the time is not zero; it names all of them and the key, and
/// nothing else goes into it.
pub proof fn an_activation_is_issued_for_what_is_given(
    expected: &IdunnExpectedIncarnationRecord,
    runtime_instance_id: String,
    activation_signer: &IdunnRuntimeActivationSigner,
    issued_at: u64,
    idunn: &ServiceIdentitySigner<IdunnServiceIdentity>,
    outcome: Result<IdunnRuntimeActivationRecord, CultNetError>,
)
    requires
        call_ensures(
            IdunnRuntimeActivationRecord::issue_with_signer,
            (expected, runtime_instance_id, activation_signer, issued_at, idunn),
            outcome,
        ),
    ensures
        outcome is Ok <==> expected.violation() is None && digest_text(runtime_instance_id@) && super::words::tidy(
            idunn.private_entry().identity_id@,
            256,
        ) && issued_at != 0,
        expected.violation() matches Some(words) ==> says(outcome, words),
        expected.violation() is None && !digest_text(runtime_instance_id@) ==> says(
            outcome,
            "runtime instance id"@ + " is malformed"@,
        ),
        outcome matches Ok(activation) ==> {
            let key = ed25519_public_key(activation_signer.private_seed());
            &&& activation.schema_version@ == "idunn.runtime_activation.v2"@
            &&& activation.expected_projection_sha256@ == digest_of(*expected)
            &&& activation.runtime_id@ == expected.runtime_id@
            &&& activation.runtime_instance_id@ == runtime_instance_id@
            &&& activation.activation_signer_identity_id@ == identity_text("idunn.runtime-activation.id.v1\0"@, key)
            &&& activation.activation_signer_public_key@ == key
            &&& activation.issued_at_unix_millis == issued_at
            &&& activation.idunn_signer_identity_id@ == idunn.private_entry().identity_id@
            &&& activation.signature_algorithm@ == "ed25519"@
        },
{
    broadcast use references_are_digests;
    broadcast use super::words::bounded_is_tidy;

    a_digest_is_written_so(messagepack_encoding(expected.wire()));
    an_identity_is_the_digest_of_its_key::<IdunnServiceIdentity>(
        ed25519_public_key(activation_signer.private_seed()),
    );
}

/// A presence is proven exactly if it names the signer's activation and is well formed but
/// for its signatures; the proof signs what is signed of it.
pub proof fn a_presence_is_proven_by_its_own_activation(
    signer: &IdunnRuntimeActivationSigner,
    presence: &GameCultRuntimePresenceHealthRecord,
    outcome: Result<Vec<u8>, CultNetError>,
)
    requires
        call_ensures(IdunnRuntimeActivationSigner::sign_presence_proof, (signer, presence), outcome),
        encode_utf8("gamecult.runtime_presence.activation-proof.v1"@).len() <= u64::MAX,
        messagepack_encoding(presence.proof_wire()).len() <= u64::MAX,
    ensures
        ({
            let own = presence.activation_signer_identity_id@ == identity_text(
                "idunn.runtime-activation.id.v1\0"@,
                ed25519_public_key(signer.private_seed()),
            );
            &&& outcome is Ok <==> own && presence.shape_violation(true) is None
            &&& !own ==> says(outcome, "runtime presence names a different activation signer"@)
            &&& outcome matches Ok(signature) ==> signature@ == ed25519_signature(
                signer.private_seed(),
                message_of(
                    "idunn.runtime-activation.signature.v1\0"@,
                    "gamecult.runtime_presence.activation-proof.v1"@,
                    messagepack_encoding(presence.proof_wire()),
                ),
            )
        }),
{
    an_identity_is_the_digest_of_its_key::<IdunnServiceIdentity>(ed25519_public_key(signer.private_seed()));
    an_activation_message_is_laid_out_so(messagepack_encoding(presence.proof_wire()));
}

}

//! Current authority over one launch, and what is authenticated against it: a
//! provider's presence claim and Odin's receipt.
use vstd::prelude::*;
use super::activation::{
    activation_message, runtime_activation_signing_message, IdunnRuntimeActivationRecord,
};
use super::expected::IdunnExpectedIncarnationRecord;
use super::presence::GameCultRuntimePresenceHealthRecord;
use super::topology::OdinRuntimeTopologyCorrelationRecord;
use crate::error::{ensure, first_of, reports, unless, CultNetError};
use crate::primitives::{ed25519_point, ed25519_verifies, is_point, verifies};
use crate::record::{
    canonical_digest, copy_record, decode_canonical_record, decoded_canonically, prefixed_sha256,
    sha256_text, Record,
};
use crate::service_identity::{
    derive_service_identity_id, identity_of, proof_violation,
    verify_service_identity_signature_with_public_key, GameCultProviderHealthIdentity,
    GameCultRuntimePresenceHealthPurpose, OdinRuntimeTopologyCorrelationPurpose,
    OdinTopologyIdentity, ServiceIdentitySignature, ServiceIdentityTrustAnchor,
};
use crate::text::{copy_bytes, holds_text, opt, same_text, text_of_option};
use crate::wire::messagepack_encoding;

verus! {

// ---------------------------------------------------------------------------
// Authority
// ---------------------------------------------------------------------------

/// Current Idunn authority for one launch. Idunn's stable signature binds the
/// complete Expected digest and activation key; Expected in turn pins the
/// provider signer identity. The provider public key is lookup material, not a
/// second authority: its profile-derived identity must equal Idunn's signed
/// selection exactly.
#[derive(Clone, Debug)]
pub struct VerifiedRuntimeAuthority {
    expected: IdunnExpectedIncarnationRecord,
    activation: IdunnRuntimeActivationRecord,
    provider_signer_public_key: Vec<u8>,
    expected_sha256: String,
    activation_sha256: String,
}

impl VerifiedRuntimeAuthority {
    pub closed spec fn expected_record(self) -> IdunnExpectedIncarnationRecord {
        self.expected
    }

    pub closed spec fn activation_record(self) -> IdunnRuntimeActivationRecord {
        self.activation
    }

    pub closed spec fn provider_key(self) -> Seq<u8> {
        self.provider_signer_public_key@
    }

    pub closed spec fn expected_digest(self) -> Seq<char> {
        self.expected_sha256@
    }

    pub closed spec fn activation_digest(self) -> Seq<char> {
        self.activation_sha256@
    }

    /// Both records meet their rules, the digests are theirs, the activation is for the
    /// expected incarnation, and the provider's key is the one that Idunn selected.
    pub open spec fn well_formed(self) -> bool {
        &&& self.expected_record().violation() is None
        &&& self.activation_record().violation() is None
        &&& self.expected_digest() == canonical_digest(self.expected_record())
        &&& self.activation_digest() == canonical_digest(self.activation_record())
        &&& self.activation_record().expected_projection_sha256@ == self.expected_digest()
        &&& self.activation_record().runtime_id@ == self.expected_record().runtime_id@
        &&& self.provider_key().len() == 32
        &&& identity_of::<GameCultProviderHealthIdentity>(self.provider_key())
            == self.expected_record().expected_signer_identity_id@
    }

    pub fn expected(&self) -> (expected: &IdunnExpectedIncarnationRecord)
        ensures
            *expected == self.expected_record(),
    {
        &self.expected
    }

    pub fn activation(&self) -> (activation: &IdunnRuntimeActivationRecord)
        ensures
            *activation == self.activation_record(),
    {
        &self.activation
    }

    pub fn expected_sha256(&self) -> (digest: &str)
        ensures
            digest@ == self.expected_digest(),
    {
        &self.expected_sha256
    }

    pub fn activation_sha256(&self) -> (digest: &str)
        ensures
            digest@ == self.activation_digest(),
    {
        &self.activation_sha256
    }
}

/// Why the two records and the key are not current authority, if they are not.
pub open spec fn runtime_authority_violation(
    expected: IdunnExpectedIncarnationRecord,
    activation: IdunnRuntimeActivationRecord,
    anchor: ServiceIdentityTrustAnchor,
    provider_key: Seq<u8>,
) -> Option<Seq<char>> {
    first_of(
        expected.violation(),
        first_of(
            activation.binding_violation(expected, anchor),
            first_of(
                unless(provider_key.len() == 32, "service identity public key has invalid length"@),
                unless(
                    identity_of::<GameCultProviderHealthIdentity>(provider_key)
                        == expected.expected_signer_identity_id@,
                    "provider public key is not Idunn's Expected signer selection"@,
                ),
            ),
        ),
    )
}

pub fn verify_runtime_authority(
    expected: &IdunnExpectedIncarnationRecord,
    activation: &IdunnRuntimeActivationRecord,
    idunn_anchor: &ServiceIdentityTrustAnchor,
    provider_signer_public_key: &[u8],
) -> (outcome: Result<VerifiedRuntimeAuthority, CultNetError>)
    ensures
        reports(
            outcome,
            runtime_authority_violation(
                *expected,
                *activation,
                *idunn_anchor,
                provider_signer_public_key@,
            ),
        ),
        outcome matches Ok(authority) ==> {
            &&& authority.well_formed()
            &&& authority.expected_record().wire() == expected.wire()
            &&& authority.activation_record().wire() == activation.wire()
            &&& authority.provider_key() == provider_signer_public_key@
        },
{
    let expected_sha256 = expected.canonical_sha256()?;
    activation.verify_for_expected(expected, idunn_anchor)?;
    let identity = derive_service_identity_id::<GameCultProviderHealthIdentity>(provider_signer_public_key)?;
    ensure(
        same_text(&identity, &expected.expected_signer_identity_id),
        "provider public key is not Idunn's Expected signer selection",
    )?;
    let activation_sha256 = activation.canonical_sha256()?;
    let authority = VerifiedRuntimeAuthority {
        expected: copy_record(expected),
        activation: copy_record(activation),
        provider_signer_public_key: copy_bytes(provider_signer_public_key),
        expected_sha256,
        activation_sha256,
    };
    proof {
        let (a, b) = (authority.expected.wire()->Sequence_0, expected.wire()->Sequence_0);
        assert(a[8] == b[8] && a[9] == b[9]);
        let (c, d) = (authority.activation.wire()->Sequence_0, activation.wire()->Sequence_0);
        assert(c[1] == d[1] && c[2] == d[2]);
    }
    Ok(authority)
}

// ---------------------------------------------------------------------------
// Time
// ---------------------------------------------------------------------------

/// The latest time that is still trusted.
pub open spec fn latest_trusted(received_at: u64, future_skew: u64) -> int {
    if received_at + future_skew <= u64::MAX {
        received_at + future_skew
    } else {
        u64::MAX as int
    }
}

/// The time is neither too far in the future nor too long ago.
pub open spec fn in_window(observed_at: u64, received_at: u64, maximum_age: u64, future_skew: u64) -> bool {
    &&& observed_at <= latest_trusted(received_at, future_skew)
    &&& received_at - observed_at <= maximum_age
}

fn latest_trusted_timestamp(received_at: u64, future_skew: u64) -> (latest: u64)
    ensures
        latest == latest_trusted(received_at, future_skew),
{
    received_at.saturating_add(future_skew)
}

fn is_in_window(observed_at: u64, received_at: u64, maximum_age: u64, future_skew: u64) -> (found: bool)
    ensures
        found == in_window(observed_at, received_at, maximum_age, future_skew),
{
    observed_at <= latest_trusted_timestamp(received_at, future_skew) && received_at.saturating_sub(observed_at)
        <= maximum_age
}

// ---------------------------------------------------------------------------
// Presence claims
// ---------------------------------------------------------------------------

#[derive(Clone, Copy, Debug)]
pub struct RuntimePresenceAuthenticationContext {
    pub trusted_received_at_unix_millis: u64,
    pub maximum_age_millis: u64,
    pub maximum_future_skew_millis: u64,
}

/// Canonical runtime bytes authenticated by both the Expected provider key and
/// the current activation key. No semantic claim has yet been accepted as
/// Present; Odin must correlate this observation against current authority.
#[derive(Clone, Debug)]
pub struct AuthenticatedRuntimePresenceClaim {
    record: GameCultRuntimePresenceHealthRecord,
    canonical_bytes: Vec<u8>,
    signed_presence_sha256: String,
    received_at_unix_millis: u64,
}

impl AuthenticatedRuntimePresenceClaim {
    pub closed spec fn claimed(self) -> GameCultRuntimePresenceHealthRecord {
        self.record
    }

    pub closed spec fn claimed_bytes(self) -> Seq<u8> {
        self.canonical_bytes@
    }

    pub closed spec fn claimed_digest(self) -> Seq<char> {
        self.signed_presence_sha256@
    }

    pub closed spec fn received_at(self) -> u64 {
        self.received_at_unix_millis
    }

    /// The record meets its rules, and bytes and digest are its own.
    pub open spec fn well_formed(self) -> bool {
        &&& self.claimed().violation() is None
        &&& self.claimed_bytes() == messagepack_encoding(self.claimed().wire())
        &&& self.claimed_digest() == sha256_text(self.claimed_bytes())
    }

    pub fn record(&self) -> (record: &GameCultRuntimePresenceHealthRecord)
        ensures
            *record == self.claimed(),
    {
        &self.record
    }

    pub fn canonical_bytes(&self) -> (bytes: &[u8])
        ensures
            bytes@ == self.claimed_bytes(),
    {
        &self.canonical_bytes
    }

    pub fn signed_presence_sha256(&self) -> (digest: &str)
        ensures
            digest@ == self.claimed_digest(),
    {
        &self.signed_presence_sha256
    }

    pub fn received_at_unix_millis(&self) -> (received: u64)
        ensures
            received == self.received_at(),
    {
        self.received_at_unix_millis
    }
}

/// Why the activation's key did not sign the payload, if it did not.
pub open spec fn activation_proof_violation(
    public_key: Seq<u8>,
    payload: Seq<u8>,
    signature: Seq<u8>,
) -> Option<Seq<char>> {
    first_of(
        unless(public_key.len() == 32, "runtime activation public key has invalid length"@),
        first_of(
            unless(signature.len() == 64, "runtime activation signature has invalid length"@),
            first_of(
                unless(ed25519_point(public_key), "runtime activation public key is not a curve point"@),
                unless(
                    ed25519_verifies(public_key, activation_message(payload), signature),
                    "runtime activation proof verification failed"@,
                ),
            ),
        ),
    )
}

/// Why the presence is not authenticated against the authority, if it is not.
pub open spec fn presence_claim_violation(
    presence: GameCultRuntimePresenceHealthRecord,
    authority: VerifiedRuntimeAuthority,
    context: RuntimePresenceAuthenticationContext,
) -> Option<Seq<char>> {
    let payload = messagepack_encoding(presence.proof_wire());
    first_of(
        unless(
            in_window(
                presence.observed_at_unix_millis,
                context.trusted_received_at_unix_millis,
                context.maximum_age_millis,
                context.maximum_future_skew_millis,
            ) && authority.activation_record().issued_at_unix_millis <= latest_trusted(
                context.trusted_received_at_unix_millis,
                context.maximum_future_skew_millis,
            ),
            "runtime presence is outside the trusted observation window"@,
        ),
        first_of(
            unless(
                presence.signer_identity_id@ == authority.expected_record().expected_signer_identity_id@,
                "runtime presence signer is not Idunn's Expected signer selection"@,
            ),
            first_of(
                first_of(
                    unless(
                        authority.provider_key().len() == 32,
                        "service identity public key has invalid length"@,
                    ),
                    proof_violation::<GameCultProviderHealthIdentity, GameCultRuntimePresenceHealthPurpose>(
                        identity_of::<GameCultProviderHealthIdentity>(authority.provider_key()),
                        authority.provider_key(),
                        payload,
                        presence.signer_identity_id@,
                        presence.signature@,
                    ),
                ),
                activation_proof_violation(
                    authority.activation_record().activation_signer_public_key@,
                    payload,
                    presence.activation_signature@,
                ),
            ),
        ),
    )
}

fn verify_activation_proof(public_key: &[u8], payload: &[u8], signature: &[u8]) -> (outcome: Result<
    (),
    CultNetError,
>)
    ensures
        reports(outcome, activation_proof_violation(public_key@, payload@, signature@)),
{
    ensure(public_key.len() == 32, "runtime activation public key has invalid length")?;
    ensure(signature.len() == 64, "runtime activation signature has invalid length")?;
    ensure(is_point(public_key), "runtime activation public key is not a curve point")?;
    ensure(
        verifies(public_key, &runtime_activation_signing_message(payload), signature),
        "runtime activation proof verification failed",
    )
}

/// Holds a presence that was read from its canonical bytes against the authority.
pub fn authenticate_presence(
    presence: &GameCultRuntimePresenceHealthRecord,
    authority: &VerifiedRuntimeAuthority,
    context: RuntimePresenceAuthenticationContext,
) -> (outcome: Result<(), CultNetError>)
    requires
        presence.violation() is None,
    ensures
        reports(outcome, presence_claim_violation(*presence, *authority, context)),
{
    ensure(
        is_in_window(
            presence.observed_at_unix_millis,
            context.trusted_received_at_unix_millis,
            context.maximum_age_millis,
            context.maximum_future_skew_millis,
        ) && authority.activation.issued_at_unix_millis <= latest_trusted_timestamp(
            context.trusted_received_at_unix_millis,
            context.maximum_future_skew_millis,
        ),
        "runtime presence is outside the trusted observation window",
    )?;
    ensure(
        same_text(&presence.signer_identity_id, &authority.expected.expected_signer_identity_id),
        "runtime presence signer is not Idunn's Expected signer selection",
    )?;
    proof {
        presence.signed_is_well_shaped();
    }
    let payload = presence.canonical_proof_payload()?;
    let proof = ServiceIdentitySignature {
        identity_id: presence.signer_identity_id.clone(),
        signature: copy_bytes(&presence.signature),
    };
    verify_service_identity_signature_with_public_key::<
        GameCultProviderHealthIdentity,
        GameCultRuntimePresenceHealthPurpose,
    >(&authority.provider_signer_public_key, &payload, &proof)?;
    verify_activation_proof(
        &authority.activation.activation_signer_public_key,
        &payload,
        &presence.activation_signature,
    )
}

pub fn authenticate_runtime_presence_claim(
    canonical_presence: &[u8],
    authority: &VerifiedRuntimeAuthority,
    context: RuntimePresenceAuthenticationContext,
) -> (outcome: Result<AuthenticatedRuntimePresenceClaim, CultNetError>)
    ensures
        (context.trusted_received_at_unix_millis == 0 || context.maximum_age_millis == 0) ==> outcome is Err
            && outcome->Err_0@ == "runtime presence trusted time and maximum age must be positive"@,
        (context.trusted_received_at_unix_millis != 0 && context.maximum_age_millis != 0) ==> exists|
            decoded: Result<GameCultRuntimePresenceHealthRecord, CultNetError>,
        |
            {
                &&& #[trigger] decoded_canonically(canonical_presence@, decoded)
                &&& match decoded {
                    Ok(presence) => {
                        &&& reports(outcome, presence_claim_violation(presence, *authority, context))
                        &&& outcome matches Ok(claim) ==> claim.claimed() == presence
                    },
                    Err(error) => outcome is Err && outcome->Err_0@ == error@,
                }
            },
        outcome matches Ok(claim) ==> {
            &&& claim.well_formed()
            &&& claim.claimed_bytes() == canonical_presence@
            &&& claim.received_at() == context.trusted_received_at_unix_millis
            &&& presence_claim_violation(claim.claimed(), *authority, context) is None
        },
{
    ensure(
        context.trusted_received_at_unix_millis > 0 && context.maximum_age_millis > 0,
        "runtime presence trusted time and maximum age must be positive",
    )?;
    let decoded: Result<GameCultRuntimePresenceHealthRecord, CultNetError> = decode_canonical_record(
        canonical_presence,
        24,
    );
    let ghost witness = decoded;
    assert(decoded_canonically(canonical_presence@, witness));
    match decoded {
        Err(error) => Err(error),
        Ok(presence) => {
            authenticate_presence(&presence, authority, context)?;
            Ok(
                AuthenticatedRuntimePresenceClaim {
                    record: presence,
                    canonical_bytes: copy_bytes(canonical_presence),
                    signed_presence_sha256: prefixed_sha256(canonical_presence),
                    received_at_unix_millis: context.trusted_received_at_unix_millis,
                },
            )
        },
    }
}

// ---------------------------------------------------------------------------
// Odin's receipts
// ---------------------------------------------------------------------------

/// A signed Odin receipt authenticated against the exact current Expected,
/// activation, write lease, Idunn-admitted topology key, and trusted receipt
/// time. This is evidence, not a replay cursor or route-promotion grant. The
/// caller must source the key from Idunn's admitted Odin binding. Idunn's
/// durable admission owner must atomically check and advance Odin's publisher
/// sequence before treating the receipt as current.
#[derive(Clone, Debug)]
pub struct AuthenticatedOdinRuntimeTopologyCorrelation {
    record: OdinRuntimeTopologyCorrelationRecord,
    canonical_bytes: Vec<u8>,
}

impl AuthenticatedOdinRuntimeTopologyCorrelation {
    pub closed spec fn receipt(self) -> OdinRuntimeTopologyCorrelationRecord {
        self.record
    }

    pub closed spec fn receipt_bytes(self) -> Seq<u8> {
        self.canonical_bytes@
    }

    pub fn record(&self) -> (record: &OdinRuntimeTopologyCorrelationRecord)
        ensures
            *record == self.receipt(),
    {
        &self.record
    }

    pub fn canonical_bytes(&self) -> (bytes: &[u8])
        ensures
            bytes@ == self.receipt_bytes(),
    {
        &self.canonical_bytes
    }
}

#[derive(Clone, Copy, Debug)]
pub struct OdinTopologyAuthenticationContext {
    pub trusted_received_at_unix_millis: u64,
    pub maximum_age_millis: u64,
    pub maximum_future_skew_millis: u64,
}

/// Why the receipt is not authenticated against the authority, if it is not.
pub open spec fn receipt_violation(
    receipt: OdinRuntimeTopologyCorrelationRecord,
    authority: VerifiedRuntimeAuthority,
    current_lease: Option<Seq<char>>,
    odin_key: Seq<u8>,
    context: OdinTopologyAuthenticationContext,
) -> Option<Seq<char>> {
    first_of(
        receipt.expected_violation(authority.expected_record(), current_lease),
        first_of(
            unless(
                opt(receipt.current_activation_sha256) == Some(authority.activation_digest()) && opt(
                    receipt.runtime_instance_id,
                ) == Some(authority.activation_record().runtime_instance_id@),
                "topology correlation does not bind the current activation"@,
            ),
            first_of(
                unless(
                    in_window(
                        receipt.observed_at_unix_millis,
                        context.trusted_received_at_unix_millis,
                        context.maximum_age_millis,
                        context.maximum_future_skew_millis,
                    ),
                    "Odin topology correlation is outside the trusted observation window"@,
                ),
                first_of(
                    unless(odin_key.len() == 32, "service identity public key has invalid length"@),
                    proof_violation::<OdinTopologyIdentity, OdinRuntimeTopologyCorrelationPurpose>(
                        identity_of::<OdinTopologyIdentity>(odin_key),
                        odin_key,
                        messagepack_encoding(receipt.unsigned_wire()),
                        receipt.signer_identity_id@,
                        receipt.signature@,
                    ),
                ),
            ),
        ),
    )
}

/// Holds a receipt, with the bytes that its signature covers, against the authority.
pub fn authenticate_receipt(
    receipt: &OdinRuntimeTopologyCorrelationRecord,
    unsigned: &[u8],
    authority: &VerifiedRuntimeAuthority,
    current_write_lease_sha256: Option<&str>,
    admitted_odin_signer_public_key: &[u8],
    context: OdinTopologyAuthenticationContext,
) -> (outcome: Result<(), CultNetError>)
    requires
        unsigned@ == messagepack_encoding(receipt.unsigned_wire()),
    ensures
        reports(
            outcome,
            receipt_violation(
                *receipt,
                *authority,
                text_of_option(current_write_lease_sha256),
                admitted_odin_signer_public_key@,
                context,
            ),
        ),
{
    receipt.validate_against_expected(&authority.expected, current_write_lease_sha256)?;
    ensure(
        holds_text(&receipt.current_activation_sha256, &authority.activation_sha256) && holds_text(
            &receipt.runtime_instance_id,
            &authority.activation.runtime_instance_id,
        ),
        "topology correlation does not bind the current activation",
    )?;
    ensure(
        is_in_window(
            receipt.observed_at_unix_millis,
            context.trusted_received_at_unix_millis,
            context.maximum_age_millis,
            context.maximum_future_skew_millis,
        ),
        "Odin topology correlation is outside the trusted observation window",
    )?;
    let proof = ServiceIdentitySignature {
        identity_id: receipt.signer_identity_id.clone(),
        signature: copy_bytes(&receipt.signature),
    };
    verify_service_identity_signature_with_public_key::<
        OdinTopologyIdentity,
        OdinRuntimeTopologyCorrelationPurpose,
    >(admitted_odin_signer_public_key, unsigned, &proof)
}

pub fn authenticate_odin_runtime_topology_correlation(
    canonical_correlation: &[u8],
    authority: &VerifiedRuntimeAuthority,
    current_write_lease_sha256: Option<&str>,
    admitted_odin_signer_public_key: &[u8],
    context: OdinTopologyAuthenticationContext,
) -> (outcome: Result<AuthenticatedOdinRuntimeTopologyCorrelation, CultNetError>)
    ensures
        (context.trusted_received_at_unix_millis == 0 || context.maximum_age_millis == 0) ==> outcome is Err
            && outcome->Err_0@ == "Odin topology trusted time and maximum age must be positive"@,
        (context.trusted_received_at_unix_millis != 0 && context.maximum_age_millis != 0) ==> exists|
            decoded: Result<OdinRuntimeTopologyCorrelationRecord, CultNetError>,
        |
            {
                &&& #[trigger] decoded_canonically(canonical_correlation@, decoded)
                &&& match decoded {
                    Ok(receipt) => {
                        &&& reports(
                            outcome,
                            receipt_violation(
                                receipt,
                                *authority,
                                text_of_option(current_write_lease_sha256),
                                admitted_odin_signer_public_key@,
                                context,
                            ),
                        )
                        &&& outcome matches Ok(found) ==> found.receipt() == receipt
                    },
                    Err(error) => outcome is Err && outcome->Err_0@ == error@,
                }
            },
        outcome matches Ok(found) ==> {
            &&& found.receipt_bytes() == canonical_correlation@
            &&& found.receipt_bytes() == messagepack_encoding(found.receipt().wire())
            &&& receipt_violation(
                found.receipt(),
                *authority,
                text_of_option(current_write_lease_sha256),
                admitted_odin_signer_public_key@,
                context,
            ) is None
        },
{
    ensure(
        context.trusted_received_at_unix_millis > 0 && context.maximum_age_millis > 0,
        "Odin topology trusted time and maximum age must be positive",
    )?;
    let (record, unsigned) = OdinRuntimeTopologyCorrelationRecord::decode_canonical_signed_payload(
        canonical_correlation,
    )?;
    authenticate_receipt(
        &record,
        &unsigned,
        authority,
        current_write_lease_sha256,
        admitted_odin_signer_public_key,
        context,
    )?;
    Ok(
        AuthenticatedOdinRuntimeTopologyCorrelation {
            record,
            canonical_bytes: copy_bytes(canonical_correlation),
        },
    )
}

}

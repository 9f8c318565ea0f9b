//! Service identities: profiles that fix every authority-bearing name, private
//! entries that hold a protected seed, public trust anchors, and signatures that are
//! bound to a profile, a purpose and a payload.
use std::marker::PhantomData;
use ed25519_dalek::SigningKey;
use vstd::prelude::*;
use vstd::utf8::encode_utf8;
use crate::envelope::{envelopes, CultCacheEnvelope, Envelope};
use crate::error::{ensure, first_of, refuse, reports, unless, CultNetError};
use crate::primitives::{
    ed25519_point, ed25519_public_key, ed25519_signature, ed25519_verifies, is_point, is_rfc3339,
    now_rfc3339, public_key_of, random_seed, rfc3339, sha256, sha256_digest, sign_with,
    signing_key, signing_seed, verifies,
};
use crate::record::{
    byte_list, byte_list_field, byte_list_is_faithful, byte_list_is_plain, prefixed_sha256,
    read_byte_list, read_items, read_text, sequence_field, sha256_text, text_field,
};
use crate::text::{
    append_big_endian, append_bytes, big_endian, big_endian_is_faithful, copy_bytes, hex, hex_text,
    holds_text, joined, same_bytes, same_text, trim, trimmed,
};
use crate::wire::{
    carried, decode_messagepack, encode_messagepack, messagepack_decoding, messagepack_encoding,
    plain, trees, Wire, WireValue,
};

verus! {

pub const WINDOWS_SERVICE_IDENTITY_ASSURANCE: &'static str = "os_user_installation_bound_best_effort";

pub const LINUX_SERVICE_IDENTITY_ASSURANCE: &'static str = "os_installation_file_bound_cloneable_baseline";

/// How the seed is protected on Linux.
pub const LINUX_PROTECTOR_KIND: &'static str = "linux_file_mode_machine_id_binding";

/// Fixes every authority-bearing name at the call site. A service cannot open
/// another service's identity by supplying a convenient runtime string. The two
/// domains are the UTF-8 bytes of their texts.
pub trait ServiceIdentityProfile: Send + Sync + 'static {
    const PRIVATE_TYPE: &'static str;

    const PRIVATE_SCHEMA: &'static str;

    const PRIVATE_KEY: &'static str;

    const TRUST_ANCHOR_TYPE: &'static str;

    const TRUST_ANCHOR_SCHEMA: &'static str;

    const TRUST_ANCHOR_KEY: &'static str;

    const ID_DOMAIN: &'static str;

    const SIGNATURE_DOMAIN: &'static str;

    const PROTECTOR_CONTEXT: &'static str;
}

/// A purpose is a type, not caller-provided prose. Protocol implementations
/// define one type per signed statement kind; its purpose is the UTF-8 bytes of
/// the text.
pub trait ServiceSignaturePurpose<P: ServiceIdentityProfile>: Send + Sync + 'static {
    const PURPOSE: &'static str;
}

pub struct IdunnServiceIdentity;

/// Root-operated identity dedicated to deployment-brake release grants. The
/// Idunn daemon receives only this profile's public trust anchor; opening the
/// private store is a provisioning operation, never daemon startup work.
pub struct IdunnDeploymentBrakeOperatorIdentity;

pub struct IdunnDeploymentBrakeReleasePurpose;

impl ServiceSignaturePurpose<IdunnDeploymentBrakeOperatorIdentity> for IdunnDeploymentBrakeReleasePurpose {
    const PURPOSE: &'static str = "idunn.deployment-release.v1";
}

impl ServiceIdentityProfile for IdunnDeploymentBrakeOperatorIdentity {
    const PRIVATE_TYPE: &'static str = "idunn.deployment_brake_operator.private.v1";

    const PRIVATE_SCHEMA: &'static str = "idunn.deployment_brake_operator.private.v1";

    const PRIVATE_KEY: &'static str = "idunn-deployment-brake-operator";

    const TRUST_ANCHOR_TYPE: &'static str = "idunn.deployment_brake_operator.trust_anchor.v1";

    const TRUST_ANCHOR_SCHEMA: &'static str = "idunn.deployment_brake_operator.trust_anchor.v1";

    const TRUST_ANCHOR_KEY: &'static str = "idunn-deployment-brake-operator-public";

    const ID_DOMAIN: &'static str = "idunn.deployment-brake-operator.id.v1\0";

    const SIGNATURE_DOMAIN: &'static str = "idunn.deployment-brake-operator.signature.v1\0";

    const PROTECTOR_CONTEXT: &'static str = "idunn-deployment-brake-operator-v1";
}

/// Dedicated provider-owned identity for generic daemon-health statements.
/// It is intentionally independent of any one provider runtime or repository.
pub struct GameCultProviderHealthIdentity;

/// The only generic health statement purpose accepted from provider-health
/// identities by Idunn admission.
pub struct IdunnSignedDaemonHealthPurpose;

impl ServiceSignaturePurpose<GameCultProviderHealthIdentity> for IdunnSignedDaemonHealthPurpose {
    const PURPOSE: &'static str = "idunn.signed_daemon_health.v1";
}

/// The purpose of a provider's statement that one of its runtimes is present.
pub struct GameCultRuntimePresenceHealthPurpose;

impl ServiceSignaturePurpose<GameCultProviderHealthIdentity> for GameCultRuntimePresenceHealthPurpose {
    const PURPOSE: &'static str = "gamecult.runtime_presence_health.v2";
}

impl ServiceIdentityProfile for GameCultProviderHealthIdentity {
    const PRIVATE_TYPE: &'static str = "gamecult.provider_health_identity.private.v1";

    const PRIVATE_SCHEMA: &'static str = "gamecult.provider_health_identity.private.v1";

    const PRIVATE_KEY: &'static str = "gamecult-provider-health-identity";

    const TRUST_ANCHOR_TYPE: &'static str = "gamecult.provider_health_identity.trust_anchor.v1";

    const TRUST_ANCHOR_SCHEMA: &'static str = "gamecult.provider_health_identity.trust_anchor.v1";

    const TRUST_ANCHOR_KEY: &'static str = "gamecult-provider-health-identity-public";

    const ID_DOMAIN: &'static str = "gamecult.provider-health.identity.v1\0";

    const SIGNATURE_DOMAIN: &'static str = "gamecult.provider-health.signature.v1\0";

    const PROTECTOR_CONTEXT: &'static str = "gamecult-provider-health-identity-v1";
}

/// The identity under which Odin states how runtimes and their topology correlate.
pub struct OdinTopologyIdentity;

/// The purpose of Odin's statement on one runtime's topology.
pub struct OdinRuntimeTopologyCorrelationPurpose;

impl ServiceSignaturePurpose<OdinTopologyIdentity> for OdinRuntimeTopologyCorrelationPurpose {
    const PURPOSE: &'static str = "odin.runtime_topology_correlation.v2";
}

impl ServiceIdentityProfile for OdinTopologyIdentity {
    const PRIVATE_TYPE: &'static str = "odin.topology_identity.private.v1";

    const PRIVATE_SCHEMA: &'static str = "odin.topology_identity.private.v1";

    const PRIVATE_KEY: &'static str = "odin-topology-identity";

    const TRUST_ANCHOR_TYPE: &'static str = "odin.topology_identity.trust_anchor.v1";

    const TRUST_ANCHOR_SCHEMA: &'static str = "odin.topology_identity.trust_anchor.v1";

    const TRUST_ANCHOR_KEY: &'static str = "odin-topology-identity-public";

    const ID_DOMAIN: &'static str = "odin.topology-identity.id.v1\0";

    const SIGNATURE_DOMAIN: &'static str = "odin.topology-identity.signature.v1\0";

    const PROTECTOR_CONTEXT: &'static str = "odin-topology-identity-v1";
}

/// The only signing purpose accepted for Idunn's public projection of a
/// provider-authenticated health admission. Keeping this profile here makes
/// purpose selection a compile-time protocol choice rather than caller text.
pub struct IdunnAuthenticatedProviderHealthProjectionPurpose;

impl ServiceSignaturePurpose<IdunnServiceIdentity> for IdunnAuthenticatedProviderHealthProjectionPurpose {
    const PURPOSE: &'static str = "idunn.authenticated-provider-health-projection.v1";
}

/// The purpose of Idunn's statement that it activated a runtime.
pub struct IdunnRuntimeActivationPurpose;

impl ServiceSignaturePurpose<IdunnServiceIdentity> for IdunnRuntimeActivationPurpose {
    const PURPOSE: &'static str = "idunn.runtime_activation.v2";
}

impl ServiceIdentityProfile for IdunnServiceIdentity {
    const PRIVATE_TYPE: &'static str = "idunn.service_identity.private.v1";

    const PRIVATE_SCHEMA: &'static str = "idunn.service_identity.private.v1";

    const PRIVATE_KEY: &'static str = "idunn-service-identity";

    const TRUST_ANCHOR_TYPE: &'static str = "idunn.service_identity.trust_anchor.v1";

    const TRUST_ANCHOR_SCHEMA: &'static str = "idunn.service_identity.trust_anchor.v1";

    const TRUST_ANCHOR_KEY: &'static str = "idunn-service-identity-public";

    const ID_DOMAIN: &'static str = "idunn.service-identity.id.v1\0";

    const SIGNATURE_DOMAIN: &'static str = "idunn.service-identity.signature.v1\0";

    const PROTECTOR_CONTEXT: &'static str = "idunn-service-identity-v1";
}

// ---------------------------------------------------------------------------
// Entries, anchors and signatures
// ---------------------------------------------------------------------------

#[derive(Clone, Debug, PartialEq, Eq)]
pub struct ServiceIdentityPrivateEntry {
    pub schema_version: String,
    pub identity_id: String,
    pub public_key: Vec<u8>,
    pub protected_private_seed: Vec<u8>,
    pub protector_kind: String,
    pub protector_binding: String,
    pub protector_version: String,
    pub assurance: String,
    pub created_at: String,
    pub enrollment_nonce: Vec<u8>,
}

impl ServiceIdentityPrivateEntry {
    /// The positional form.
    pub open spec fn wire(self) -> Wire {
        Wire::Sequence(
            seq![
                Wire::Text(self.schema_version@),
                Wire::Text(self.identity_id@),
                byte_list(self.public_key@),
                byte_list(self.protected_private_seed@),
                Wire::Text(self.protector_kind@),
                Wire::Text(self.protector_binding@),
                Wire::Text(self.protector_version@),
                Wire::Text(self.assurance@),
                Wire::Text(self.created_at@),
                byte_list(self.enrollment_nonce@),
            ],
        )
    }

    pub fn to_wire(&self) -> (field: WireValue)
        ensures
            field@ == self.wire(),
    {
        let field = sequence_field(
            vec![
                text_field(&self.schema_version),
                text_field(&self.identity_id),
                byte_list_field(&self.public_key),
                byte_list_field(&self.protected_private_seed),
                text_field(&self.protector_kind),
                text_field(&self.protector_binding),
                text_field(&self.protector_version),
                text_field(&self.assurance),
                text_field(&self.created_at),
                byte_list_field(&self.enrollment_nonce),
            ],
        );
        assert(field@->Sequence_0 =~= self.wire()->Sequence_0);
        field
    }

    pub fn from_wire(field: &WireValue) -> (entry: Option<ServiceIdentityPrivateEntry>)
        ensures
            match entry {
                Some(found) => found.wire() == field@,
                None => forall|any: ServiceIdentityPrivateEntry| #[trigger] any.wire() != field@,
            },
    {
        let items = match read_items(field, 10) {
            Some(found) => found,
            None => {
                return None;
            },
        };
        let ghost all = trees(items@);
        assert(all.len() == 10);
        assert forall|any: ServiceIdentityPrivateEntry| #[trigger] any.wire() == field@ implies {
            &&& all[0] is Text && all[1] is Text && all[4] is Text && all[5] is Text
            &&& all[6] is Text && all[7] is Text && all[8] is Text
            &&& all[2] == byte_list(any.public_key@)
            &&& all[3] == byte_list(any.protected_private_seed@)
            &&& all[9] == byte_list(any.enrollment_nonce@)
        } by {
            assert(any.wire()->Sequence_0 == all);
        }
        let entry = ServiceIdentityPrivateEntry {
            schema_version: read_text(&items[0])?,
            identity_id: read_text(&items[1])?,
            public_key: read_byte_list(&items[2])?,
            protected_private_seed: read_byte_list(&items[3])?,
            protector_kind: read_text(&items[4])?,
            protector_binding: read_text(&items[5])?,
            protector_version: read_text(&items[6])?,
            assurance: read_text(&items[7])?,
            created_at: read_text(&items[8])?,
            enrollment_nonce: read_byte_list(&items[9])?,
        };
        assert(entry.wire()->Sequence_0 =~= all);
        Some(entry)
    }
}

#[derive(Clone, Debug, PartialEq, Eq)]
pub struct ServiceIdentityTrustAnchor {
    pub schema_version: String,
    pub identity_id: String,
    pub public_key: Vec<u8>,
    pub assurance: String,
    pub identity_created_at: String,
    pub source_identity_record_sha256: String,
}

impl ServiceIdentityTrustAnchor {
    /// The positional form.
    pub open spec fn wire(self) -> Wire {
        Wire::Sequence(
            seq![
                Wire::Text(self.schema_version@),
                Wire::Text(self.identity_id@),
                byte_list(self.public_key@),
                Wire::Text(self.assurance@),
                Wire::Text(self.identity_created_at@),
                Wire::Text(self.source_identity_record_sha256@),
            ],
        )
    }

    pub fn to_wire(&self) -> (field: WireValue)
        ensures
            field@ == self.wire(),
    {
        let field = sequence_field(
            vec![
                text_field(&self.schema_version),
                text_field(&self.identity_id),
                byte_list_field(&self.public_key),
                text_field(&self.assurance),
                text_field(&self.identity_created_at),
                text_field(&self.source_identity_record_sha256),
            ],
        );
        assert(field@->Sequence_0 =~= self.wire()->Sequence_0);
        field
    }
}

#[derive(Clone, Debug, PartialEq, Eq)]
pub struct ServiceIdentitySignature {
    pub identity_id: String,
    pub signature: Vec<u8>,
}

/// The only value holding unprotected key material. It exposes signing, never
/// seed export or access to the underlying signing key.
pub struct ServiceIdentitySigner<P: ServiceIdentityProfile> {
    entry: ServiceIdentityPrivateEntry,
    signing_key: SigningKey,
    profile: PhantomData<P>,
}

// ---------------------------------------------------------------------------
// Identities and signed messages
// ---------------------------------------------------------------------------

/// The identity that a profile derives from a public key.
pub open spec fn identity_of<P: ServiceIdentityProfile>(public_key: Seq<u8>) -> Seq<char> {
    hex_text(sha256_digest(encode_utf8(P::ID_DOMAIN@) + public_key))
}

/// The bytes that are signed: the profile's domain, and purpose and payload, each
/// behind its length.
pub open spec fn signed_message<P: ServiceIdentityProfile, S: ServiceSignaturePurpose<P>>(
    payload: Seq<u8>,
) -> Seq<u8> {
    encode_utf8(P::SIGNATURE_DOMAIN@) + big_endian(encode_utf8(S::PURPOSE@).len() as u64) + encode_utf8(
        S::PURPOSE@,
    ) + big_endian(payload.len() as u64) + payload
}

/// Derives the profile-bound identity id from an exact Ed25519 public key.
/// Consumers use this instead of accepting a caller-supplied identity string.
pub fn derive_service_identity_id<P: ServiceIdentityProfile>(public_key: &[u8]) -> (outcome: Result<
    String,
    CultNetError,
>)
    ensures
        reports(
            outcome,
            unless(public_key@.len() == 32, "service identity public key has invalid length"@),
        ),
        outcome matches Ok(identity) ==> identity@ == identity_of::<P>(public_key@),
{
    ensure(public_key.len() == 32, "service identity public key has invalid length")?;
    Ok(identity_id::<P>(public_key))
}

fn identity_id<P: ServiceIdentityProfile>(public_key: &[u8]) -> (identity: String)
    ensures
        identity@ == identity_of::<P>(public_key@),
{
    let mut preimage = copy_bytes(P::ID_DOMAIN.as_bytes());
    append_bytes(&mut preimage, public_key);
    hex(&sha256(&preimage))
}

fn signing_message<P: ServiceIdentityProfile, S: ServiceSignaturePurpose<P>>(payload: &[u8]) -> (message:
    Vec<u8>)
    ensures
        message@ == signed_message::<P, S>(payload@),
{
    let mut out = copy_bytes(P::SIGNATURE_DOMAIN.as_bytes());
    append_big_endian(&mut out, S::PURPOSE.as_bytes().len() as u64);
    append_bytes(&mut out, S::PURPOSE.as_bytes());
    append_big_endian(&mut out, payload.len() as u64);
    append_bytes(&mut out, payload);
    out
}

/// A signed message tells purposes and payloads apart: no signature of one profile
/// covers another purpose or another payload.
pub proof fn signed_message_is_purpose_and_payload_bound<
    P: ServiceIdentityProfile,
    S: ServiceSignaturePurpose<P>,
    T: ServiceSignaturePurpose<P>,
>(payload: Seq<u8>, other: Seq<u8>)
    requires
        payload.len() <= u64::MAX,
        other.len() <= u64::MAX,
        encode_utf8(S::PURPOSE@).len() <= u64::MAX,
        encode_utf8(T::PURPOSE@).len() <= u64::MAX,
    ensures
        signed_message::<P, S>(payload) == signed_message::<P, T>(other) ==> S::PURPOSE@ == T::PURPOSE@
            && payload == other,
{
    if signed_message::<P, S>(payload) == signed_message::<P, T>(other) {
        let (s, t) = (encode_utf8(S::PURPOSE@), encode_utf8(T::PURPOSE@));
        big_endian_is_faithful(s.len() as u64, t.len() as u64);
        big_endian_is_faithful(payload.len() as u64, other.len() as u64);
        parts_are_determined(
            encode_utf8(P::SIGNATURE_DOMAIN@),
            (big_endian(s.len() as u64), s, big_endian(payload.len() as u64), payload),
            (big_endian(t.len() as u64), t, big_endian(other.len() as u64), other),
        );
        vstd::utf8::encode_utf8_decode_utf8(S::PURPOSE@);
        vstd::utf8::encode_utf8_decode_utf8(T::PURPOSE@);
    }
}

/// Two sequences that are put together in the same way have the same parts, as far
/// as the parts before them fix where they stand.
proof fn parts_are_determined(
    start: Seq<u8>,
    a: (Seq<u8>, Seq<u8>, Seq<u8>, Seq<u8>),
    b: (Seq<u8>, Seq<u8>, Seq<u8>, Seq<u8>),
)
    requires
        start + a.0 + a.1 + a.2 + a.3 == start + b.0 + b.1 + b.2 + b.3,
        a.0.len() == b.0.len(),
        a.2.len() == b.2.len(),
    ensures
        a.0 == b.0,
        a.1.len() == b.1.len() ==> a.1 == b.1 && a.3 == b.3,
{
    let left = start + a.0 + a.1 + a.2 + a.3;
    let right = start + b.0 + b.1 + b.2 + b.3;
    let first = start.len() as int;
    let second = first + a.0.len();
    assert(left.subrange(first, second) =~= a.0);
    assert(right.subrange(first, second) =~= b.0);
    if a.1.len() == b.1.len() {
        let third = second + a.1.len();
        assert(left.subrange(second, third) =~= a.1);
        assert(right.subrange(second, third) =~= b.1);
        assert(left.skip(third + a.2.len()) =~= a.3);
        assert(right.skip(third + a.2.len()) =~= b.3);
    }
}

// ---------------------------------------------------------------------------
// Rules
// ---------------------------------------------------------------------------

/// Why the private entry breaks the rules of the profile, if it does.
pub open spec fn private_violation<P: ServiceIdentityProfile>(entry: ServiceIdentityPrivateEntry) -> Option<
    Seq<char>,
> {
    first_of(
        unless(
            {
                &&& entry.schema_version@ == P::PRIVATE_SCHEMA@
                &&& entry.public_key@.len() == 32
                &&& entry.enrollment_nonce@.len() == 32
                &&& entry.protected_private_seed@.len() > 0
                &&& entry.protector_version@ == "v1"@
            },
            "service identity private entry violates its profile schema"@,
        ),
        first_of(
            unless(rfc3339(entry.created_at@), "service identity created_at is not RFC3339"@),
            unless(
                identity_of::<P>(entry.public_key@) == entry.identity_id@,
                "service identity id does not match public key"@,
            ),
        ),
    )
}

/// Why the trust anchor breaks the rules of the profile, if it does.
pub open spec fn anchor_violation<P: ServiceIdentityProfile>(anchor: ServiceIdentityTrustAnchor) -> Option<
    Seq<char>,
> {
    unless(
        {
            &&& anchor.schema_version@ == P::TRUST_ANCHOR_SCHEMA@
            &&& anchor.public_key@.len() == 32
            &&& identity_of::<P>(anchor.public_key@) == anchor.identity_id@
        },
        "service identity trust anchor violates its profile schema"@,
    )
}

/// Why a proof does not show that the identity with the public key signed the
/// payload for the purpose.
pub open spec fn proof_violation<P: ServiceIdentityProfile, S: ServiceSignaturePurpose<P>>(
    identity: Seq<char>,
    public_key: Seq<u8>,
    payload: Seq<u8>,
    signer: Seq<char>,
    signature: Seq<u8>,
) -> Option<Seq<char>> {
    first_of(
        unless(signer == identity, "service identity signature names a different identity"@),
        first_of(
            unless(signature.len() == 64, "service identity signature has invalid length"@),
            first_of(
                unless(ed25519_point(public_key), "service identity public key is not a curve point"@),
                unless(
                    ed25519_verifies(public_key, signed_message::<P, S>(payload), signature),
                    "service identity signature verification failed"@,
                ),
            ),
        ),
    )
}

fn validate_private<P: ServiceIdentityProfile>(entry: &ServiceIdentityPrivateEntry) -> (outcome: Result<
    (),
    CultNetError,
>)
    ensures
        reports(outcome, private_violation::<P>(*entry)),
{
    ensure(
        same_text(&entry.schema_version, P::PRIVATE_SCHEMA) && entry.public_key.len() == 32
            && entry.enrollment_nonce.len() == 32 && entry.protected_private_seed.len() > 0 && same_text(
            &entry.protector_version,
            "v1",
        ),
        "service identity private entry violates its profile schema",
    )?;
    ensure(is_rfc3339(&entry.created_at), "service identity created_at is not RFC3339")?;
    ensure(
        same_text(&identity_id::<P>(&entry.public_key), &entry.identity_id),
        "service identity id does not match public key",
    )
}

fn validate_anchor<P: ServiceIdentityProfile>(anchor: &ServiceIdentityTrustAnchor) -> (outcome: Result<
    (),
    CultNetError,
>)
    ensures
        reports(outcome, anchor_violation::<P>(*anchor)),
{
    ensure(
        same_text(&anchor.schema_version, P::TRUST_ANCHOR_SCHEMA) && anchor.public_key.len() == 32 && same_text(
            &identity_id::<P>(&anchor.public_key),
            &anchor.identity_id,
        ),
        "service identity trust anchor violates its profile schema",
    )
}

fn verify_proof<P: ServiceIdentityProfile, S: ServiceSignaturePurpose<P>>(
    identity: &str,
    public_key: &[u8],
    payload: &[u8],
    proof: &ServiceIdentitySignature,
) -> (outcome: Result<(), CultNetError>)
    requires
        public_key@.len() == 32,
    ensures
        reports(outcome, proof_violation::<P, S>(identity@, public_key@, payload@, proof.identity_id@, proof.signature@)),
{
    ensure(
        same_text(&proof.identity_id, identity),
        "service identity signature names a different identity",
    )?;
    ensure(proof.signature.len() == 64, "service identity signature has invalid length")?;
    ensure(is_point(public_key), "service identity public key is not a curve point")?;
    ensure(
        verifies(public_key, &signing_message::<P, S>(payload), &proof.signature),
        "service identity signature verification failed",
    )
}

pub fn verify_service_identity_signature<P: ServiceIdentityProfile, S: ServiceSignaturePurpose<P>>(
    anchor: &ServiceIdentityTrustAnchor,
    payload: &[u8],
    proof: &ServiceIdentitySignature,
) -> (outcome: Result<(), CultNetError>)
    ensures
        reports(
            outcome,
            first_of(
                anchor_violation::<P>(*anchor),
                proof_violation::<P, S>(anchor.identity_id@, anchor.public_key@, payload@, proof.identity_id@, proof.signature@),
            ),
        ),
{
    validate_anchor::<P>(anchor)?;
    verify_proof::<P, S>(&anchor.identity_id, &anchor.public_key, payload, proof)
}

/// Verify against a public key already admitted by an owning trust store.
/// The profile derives the identity, so callers cannot substitute a convenient
/// identity string while retaining the same signature bytes.
pub fn verify_service_identity_signature_with_public_key<
    P: ServiceIdentityProfile,
    S: ServiceSignaturePurpose<P>,
>(public_key: &[u8], payload: &[u8], proof: &ServiceIdentitySignature) -> (outcome: Result<
    (),
    CultNetError,
>)
    ensures
        reports(
            outcome,
            first_of(
                unless(public_key@.len() == 32, "service identity public key has invalid length"@),
                proof_violation::<P, S>(identity_of::<P>(public_key@), public_key@, payload@, proof.identity_id@, proof.signature@),
            ),
        ),
{
    let identity = derive_service_identity_id::<P>(public_key)?;
    verify_proof::<P, S>(&identity, public_key, payload, proof)
}

// ---------------------------------------------------------------------------
// Protection of the seed
// ---------------------------------------------------------------------------

/// What binds a protected seed to this installation: the profile's context and the
/// digest of the machine id.
pub open spec fn binding_of<P: ServiceIdentityProfile>(machine_id: Seq<char>) -> Seq<char> {
    P::PROTECTOR_CONTEXT@ + ":machine-id-sha256:"@ + hex_text(
        sha256_digest(encode_utf8(trimmed(machine_id))),
    )
}

/// The mask under which a seed is kept.
pub open spec fn seed_mask<P: ServiceIdentityProfile>(binding: Seq<char>) -> Seq<u8> {
    sha256_digest(
        encode_utf8("gamecult-linux-service-seed-v1\0"@) + encode_utf8(P::PROTECTOR_CONTEXT@) + encode_utf8(
            binding,
        ),
    )
}

/// The bytes under the mask, as far as both go.
pub open spec fn masked(bytes: Seq<u8>, mask: Seq<u8>) -> Seq<u8> {
    Seq::new(
        if bytes.len() <= mask.len() {
            bytes.len()
        } else {
            mask.len()
        },
        |i: int| bytes[i] ^ mask[i],
    )
}

/// Masking twice gives the bytes back.
pub proof fn masking_is_undone_by_masking(bytes: Seq<u8>, mask: Seq<u8>)
    requires
        bytes.len() <= mask.len(),
    ensures
        masked(masked(bytes, mask), mask) == bytes,
{
    assert forall|i: int| 0 <= i < bytes.len() implies masked(masked(bytes, mask), mask)[i] == bytes[i] by {
        let (byte, bits) = (bytes[i], mask[i]);
        assert((byte ^ bits) ^ bits == byte) by (bit_vector);
    }
    assert(masked(masked(bytes, mask), mask) =~= bytes);
}

/// The binding to the installation whose machine id is given as its file holds it.
pub fn platform_binding<P: ServiceIdentityProfile>(machine_id: &str) -> (outcome: Result<
    String,
    CultNetError,
>)
    ensures
        reports(outcome, unless(trimmed(machine_id@).len() > 0, "Linux machine-id is empty"@)),
        outcome matches Ok(binding) ==> binding@ == binding_of::<P>(machine_id@),
{
    let id = trim(machine_id);
    ensure(crate::text::letters(&id).len() > 0, "Linux machine-id is empty")?;
    Ok(
        joined(
            &joined(P::PROTECTOR_CONTEXT, ":machine-id-sha256:"),
            &hex(&sha256(id.as_str().as_bytes())),
        ),
    )
}

fn mask_seed<P: ServiceIdentityProfile>(seed: &[u8], binding: &str) -> (bytes: Vec<u8>)
    ensures
        bytes@ == masked(seed@, seed_mask::<P>(binding@)),
        seed_mask::<P>(binding@).len() == 32,
{
    let mut preimage = copy_bytes("gamecult-linux-service-seed-v1\0".as_bytes());
    append_bytes(&mut preimage, P::PROTECTOR_CONTEXT.as_bytes());
    append_bytes(&mut preimage, binding.as_bytes());
    let mask = sha256(&preimage);
    let mut out: Vec<u8> = Vec::new();
    let mut i: usize = 0;
    while i < seed.len() && i < 32
        invariant
            i <= seed@.len(),
            i <= 32,
            mask@.len() == 32,
            out@.len() == i,
            forall|k: int| 0 <= k < i ==> out@[k] == seed@[k] ^ mask@[k],
        decreases seed@.len() - i,
    {
        out.push(seed[i] ^ mask[i]);
        i += 1;
    }
    assert(out@ =~= masked(seed@, mask@));
    out
}

fn unprotect_seed<P: ServiceIdentityProfile>(seed: &[u8], binding: &str) -> (outcome: Result<
    [u8; 32],
    CultNetError,
>)
    ensures
        reports(
            outcome,
            unless(seed@.len() == 32, "protected Linux service seed has invalid length"@),
        ),
        outcome matches Ok(found) ==> found@ == masked(seed@, seed_mask::<P>(binding@)),
{
    ensure(seed.len() == 32, "protected Linux service seed has invalid length")?;
    let bytes = mask_seed::<P>(seed, binding);
    let mut out = [0u8; 32];
    let mut i: usize = 0;
    while i < 32
        invariant
            i <= 32,
            bytes@.len() == 32,
            forall|k: int| 0 <= k < i ==> out@[k] == bytes@[k],
        decreases 32 - i,
    {
        out[i] = bytes[i];
        i += 1;
    }
    assert(out@ =~= bytes@);
    Ok(out)
}

// ---------------------------------------------------------------------------
// Signers
// ---------------------------------------------------------------------------

impl<P: ServiceIdentityProfile> ServiceIdentitySigner<P> {
    /// The private entry that the signer was opened from.
    pub closed spec fn private_entry(self) -> ServiceIdentityPrivateEntry {
        self.entry
    }

    /// The unprotected seed.
    pub closed spec fn private_seed(self) -> Seq<u8> {
        signing_seed(self.signing_key)
    }

    /// The entry meets the profile's rules and holds the public key of the seed.
    pub open spec fn well_formed(self) -> bool {
        &&& private_violation::<P>(self.private_entry()) is None
        &&& self.private_entry().public_key@ == ed25519_public_key(self.private_seed())
        &&& ed25519_point(self.private_entry().public_key@)
    }

    pub fn entry(&self) -> (entry: &ServiceIdentityPrivateEntry)
        ensures
            *entry == self.private_entry(),
    {
        &self.entry
    }

    /// The public part of the identity, for those who check its signatures.
    pub fn trust_anchor(&self) -> (outcome: Result<ServiceIdentityTrustAnchor, CultNetError>)
        ensures
            outcome is Ok,
            is_anchor_of::<P>(outcome->Ok_0, self.private_entry()),
    {
        proof {
            entry_is_plain(self.entry);
        }
        Ok(
            ServiceIdentityTrustAnchor {
                schema_version: P::TRUST_ANCHOR_SCHEMA.to_owned(),
                identity_id: self.entry.identity_id.clone(),
                public_key: copy_bytes(&self.entry.public_key),
                assurance: self.entry.assurance.clone(),
                identity_created_at: self.entry.created_at.clone(),
                source_identity_record_sha256: prefixed_sha256(
                    &encode_messagepack(&self.entry.to_wire()),
                ),
            },
        )
    }

    pub fn sign<S: ServiceSignaturePurpose<P>>(&self, payload: &[u8]) -> (proof: ServiceIdentitySignature)
        ensures
            proof.identity_id@ == self.private_entry().identity_id@,
            proof.signature@ == ed25519_signature(
                self.private_seed(),
                signed_message::<P, S>(payload@),
            ),
            proof.signature@.len() == 64,
            self.well_formed() ==> proof_violation::<P, S>(
                self.private_entry().identity_id@,
                self.private_entry().public_key@,
                payload@,
                proof.identity_id@,
                proof.signature@,
            ) is None,
    {
        ServiceIdentitySignature {
            identity_id: self.entry.identity_id.clone(),
            signature: sign_with(&self.signing_key, &signing_message::<P, S>(payload)),
        }
    }
}

/// The anchor holds the public fields of the entry and the digest of the whole of it.
pub open spec fn is_anchor_of<P: ServiceIdentityProfile>(
    anchor: ServiceIdentityTrustAnchor,
    entry: ServiceIdentityPrivateEntry,
) -> bool {
    &&& anchor.schema_version@ == P::TRUST_ANCHOR_SCHEMA@
    &&& anchor.identity_id@ == entry.identity_id@
    &&& anchor.public_key@ == entry.public_key@
    &&& anchor.assurance@ == entry.assurance@
    &&& anchor.identity_created_at@ == entry.created_at@
    &&& anchor.source_identity_record_sha256@ == sha256_text(messagepack_encoding(entry.wire()))
}

/// What a signer signs for a purpose, everyone who holds its trust anchor accepts
/// for that purpose and payload.
pub proof fn a_signature_verifies_under_the_trust_anchor<
    P: ServiceIdentityProfile,
    S: ServiceSignaturePurpose<P>,
>(
    signer: ServiceIdentitySigner<P>,
    anchor: ServiceIdentityTrustAnchor,
    payload: Seq<u8>,
    proof: ServiceIdentitySignature,
)
    requires
        signer.well_formed(),
        is_anchor_of::<P>(anchor, signer.private_entry()),
        proof_violation::<P, S>(
            signer.private_entry().identity_id@,
            signer.private_entry().public_key@,
            payload,
            proof.identity_id@,
            proof.signature@,
        ) is None,
    ensures
        first_of(
            anchor_violation::<P>(anchor),
            proof_violation::<P, S>(anchor.identity_id@, anchor.public_key@, payload, proof.identity_id@, proof.signature@),
        ) is None,
        proof_violation::<P, S>(
            identity_of::<P>(anchor.public_key@),
            anchor.public_key@,
            payload,
            proof.identity_id@,
            proof.signature@,
        ) is None,
{
}

// ---------------------------------------------------------------------------
// Enrollment, opening and export
// ---------------------------------------------------------------------------

/// The entry that enrollment makes of what was drawn and found.
pub open spec fn is_enrolled_entry<P: ServiceIdentityProfile>(
    entry: ServiceIdentityPrivateEntry,
    seed: Seq<u8>,
    nonce: Seq<u8>,
    machine_id: Seq<char>,
    created_at: Seq<char>,
) -> bool {
    &&& entry.schema_version@ == P::PRIVATE_SCHEMA@
    &&& entry.identity_id@ == identity_of::<P>(ed25519_public_key(seed))
    &&& entry.public_key@ == ed25519_public_key(seed)
    &&& entry.protected_private_seed@ == masked(seed, seed_mask::<P>(binding_of::<P>(machine_id)))
    &&& entry.protector_kind@ == LINUX_PROTECTOR_KIND@
    &&& entry.protector_binding@ == binding_of::<P>(machine_id)
    &&& entry.protector_version@ == "v1"@
    &&& entry.assurance@ == LINUX_SERVICE_IDENTITY_ASSURANCE@
    &&& entry.created_at@ == created_at
    &&& entry.enrollment_nonce@ == nonce
}

/// The envelope in which a private entry is stored.
pub open spec fn private_envelope_of<P: ServiceIdentityProfile>(entry: ServiceIdentityPrivateEntry) -> Envelope {
    Envelope {
        key: P::PRIVATE_KEY@,
        entry_type: P::PRIVATE_TYPE@,
        payload: messagepack_encoding(entry.wire()),
        stored_at: entry.created_at@,
        schema_id: Some(P::PRIVATE_SCHEMA@),
    }
}

/// The envelope in which a trust anchor is published.
pub open spec fn anchor_envelope_of<P: ServiceIdentityProfile>(anchor: ServiceIdentityTrustAnchor) -> Envelope {
    Envelope {
        key: P::TRUST_ANCHOR_KEY@,
        entry_type: P::TRUST_ANCHOR_TYPE@,
        payload: messagepack_encoding(anchor.wire()),
        stored_at: anchor.identity_created_at@,
        schema_id: Some(P::TRUST_ANCHOR_SCHEMA@),
    }
}

/// The envelope that a new private store holds.
pub fn private_envelope<P: ServiceIdentityProfile>(entry: &ServiceIdentityPrivateEntry) -> (envelope:
    CultCacheEnvelope)
    ensures
        envelope@ == private_envelope_of::<P>(*entry),
{
    proof {
        entry_is_plain(*entry);
    }
    CultCacheEnvelope {
        key: P::PRIVATE_KEY.to_owned(),
        entry_type: P::PRIVATE_TYPE.to_owned(),
        payload: encode_messagepack(&entry.to_wire()),
        stored_at: entry.created_at.clone(),
        schema_id: Some(P::PRIVATE_SCHEMA.to_owned()),
    }
}

/// Enrolls an identity from the given seed, nonce and time on the machine with the
/// given id.
pub fn enroll_service_identity_with<P: ServiceIdentityProfile>(
    seed: [u8; 32],
    nonce: [u8; 32],
    machine_id: &str,
    created_at: &str,
) -> (outcome: Result<ServiceIdentitySigner<P>, CultNetError>)
    ensures
        reports(
            outcome,
            first_of(
                unless(trimmed(machine_id@).len() > 0, "Linux machine-id is empty"@),
                unless(rfc3339(created_at@), "service identity created_at is not RFC3339"@),
            ),
        ),
        outcome matches Ok(signer) ==> {
            &&& signer.well_formed()
            &&& signer.private_seed() == seed@
            &&& is_enrolled_entry::<P>(
                signer.private_entry(),
                seed@,
                nonce@,
                machine_id@,
                created_at@,
            )
            &&& open_violation::<P>(signer.private_entry(), machine_id@) is None
        },
{
    let signing_key = signing_key(&seed);
    let public_key = public_key_of(&signing_key);
    let binding = platform_binding::<P>(machine_id)?;
    let entry = ServiceIdentityPrivateEntry {
        schema_version: P::PRIVATE_SCHEMA.to_owned(),
        identity_id: identity_id::<P>(&public_key),
        public_key: copy_bytes(&public_key),
        protected_private_seed: mask_seed::<P>(&seed, &binding),
        protector_kind: LINUX_PROTECTOR_KIND.to_owned(),
        protector_binding: binding,
        protector_version: "v1".to_owned(),
        assurance: LINUX_SERVICE_IDENTITY_ASSURANCE.to_owned(),
        created_at: created_at.to_owned(),
        enrollment_nonce: copy_bytes(&nonce),
    };
    validate_private::<P>(&entry)?;
    proof {
        an_enrolled_identity_opens_again::<P>(entry, seed@, nonce@, machine_id@, created_at@);
    }
    Ok(ServiceIdentitySigner { entry, signing_key, profile: PhantomData })
}

/// Enrolls a new identity on the machine with the given id: seed and nonce are drawn
/// at random, and the time is now.
pub fn enroll_service_identity<P: ServiceIdentityProfile>(machine_id: &str) -> (outcome: Result<
    ServiceIdentitySigner<P>,
    CultNetError,
>)
    ensures
        trimmed(machine_id@).len() == 0 <==> (outcome is Err && outcome->Err_0@ == "Linux machine-id is empty"@),
        exists|created_at: Seq<char>|
            reports(
                outcome,
                first_of(
                    unless(trimmed(machine_id@).len() > 0, "Linux machine-id is empty"@),
                    unless(#[trigger] rfc3339(created_at), "service identity created_at is not RFC3339"@),
                ),
            ),
        outcome matches Ok(signer) ==> {
            &&& signer.well_formed()
            &&& open_violation::<P>(signer.private_entry(), machine_id@) is None
            &&& exists|nonce: Seq<u8>, created_at: Seq<char>|
                is_enrolled_entry::<P>(
                    signer.private_entry(),
                    signer.private_seed(),
                    nonce,
                    machine_id@,
                    created_at,
                )
        },
{
    let seed = random_seed();
    let nonce = random_seed();
    let created_at = now_rfc3339();
    proof {
        reveal_strlit("Linux machine-id is empty");
        reveal_strlit("service identity created_at is not RFC3339");
        assert("Linux machine-id is empty"@.len() != "service identity created_at is not RFC3339"@.len());
        assert(rfc3339(created_at@) == rfc3339(created_at@));
    }
    enroll_service_identity_with::<P>(seed, nonce, machine_id, &created_at)
}

/// Why the stored envelopes are not the one private envelope of the profile.
pub open spec fn store_violation<P: ServiceIdentityProfile>(stored: Seq<Envelope>) -> Option<Seq<char>> {
    first_of(
        unless(
            stored.len() == 1,
            "service identity store must contain exactly one immutable envelope"@,
        ),
        unless(
            {
                &&& stored[0].entry_type == P::PRIVATE_TYPE@
                &&& stored[0].key == P::PRIVATE_KEY@
                &&& stored[0].schema_id == Some(P::PRIVATE_SCHEMA@)
            },
            "service identity store belongs to a different profile or schema"@,
        ),
    )
}

/// Why a stored entry cannot be opened on the machine with the given id.
pub open spec fn open_violation<P: ServiceIdentityProfile>(
    entry: ServiceIdentityPrivateEntry,
    machine_id: Seq<char>,
) -> Option<Seq<char>> {
    first_of(
        private_violation::<P>(entry),
        first_of(
            unless(
                entry.protector_kind@ == LINUX_PROTECTOR_KIND@ && entry.assurance@
                    == LINUX_SERVICE_IDENTITY_ASSURANCE@,
                "service identity protector does not belong to this platform implementation"@,
            ),
            first_of(
                unless(trimmed(machine_id).len() > 0, "Linux machine-id is empty"@),
                first_of(
                    unless(
                        entry.protector_binding@ == binding_of::<P>(machine_id),
                        "service identity protector binding does not match this OS installation or profile"@,
                    ),
                    first_of(
                        unless(
                            entry.protected_private_seed@.len() == 32,
                            "protected Linux service seed has invalid length"@,
                        ),
                        unless(
                            ed25519_public_key(
                                masked(
                                    entry.protected_private_seed@,
                                    seed_mask::<P>(binding_of::<P>(machine_id)),
                                ),
                            ) == entry.public_key@,
                            "service identity private seed does not match enrolled public key"@,
                        ),
                    ),
                ),
            ),
        ),
    )
}

/// Opens a private entry on the machine with the given id.
pub fn open_private_entry<P: ServiceIdentityProfile>(
    entry: ServiceIdentityPrivateEntry,
    machine_id: &str,
) -> (outcome: Result<ServiceIdentitySigner<P>, CultNetError>)
    ensures
        reports(outcome, open_violation::<P>(entry, machine_id@)),
        outcome matches Ok(signer) ==> {
            &&& signer.well_formed()
            &&& signer.private_entry() == entry
            &&& signer.private_seed() == masked(
                entry.protected_private_seed@,
                seed_mask::<P>(binding_of::<P>(machine_id@)),
            )
        },
{
    validate_private::<P>(&entry)?;
    ensure(
        same_text(&entry.protector_kind, LINUX_PROTECTOR_KIND) && same_text(
            &entry.assurance,
            LINUX_SERVICE_IDENTITY_ASSURANCE,
        ),
        "service identity protector does not belong to this platform implementation",
    )?;
    let binding = platform_binding::<P>(machine_id)?;
    ensure(
        same_text(&entry.protector_binding, &binding),
        "service identity protector binding does not match this OS installation or profile",
    )?;
    let seed = unprotect_seed::<P>(&entry.protected_private_seed, &binding)?;
    let signing_key = signing_key(&seed);
    ensure(
        same_bytes(&public_key_of(&signing_key), &entry.public_key),
        "service identity private seed does not match enrolled public key",
    )?;
    Ok(ServiceIdentitySigner { entry, signing_key, profile: PhantomData })
}

/// The payload of the one private envelope that the store must hold.
pub fn private_payload<P: ServiceIdentityProfile>(stored: &Vec<CultCacheEnvelope>) -> (outcome: Result<
    &Vec<u8>,
    CultNetError,
>)
    ensures
        reports(outcome, store_violation::<P>(envelopes(stored@))),
        outcome matches Ok(payload) ==> payload == stored@[0].payload,
{
    ensure(
        stored.len() == 1,
        "service identity store must contain exactly one immutable envelope",
    )?;
    let envelope = &stored[0];
    assert(envelopes(stored@)[0] == envelope@);
    ensure(
        same_text(&envelope.entry_type, P::PRIVATE_TYPE) && same_text(&envelope.key, P::PRIVATE_KEY)
            && holds_text(&envelope.schema_id, P::PRIVATE_SCHEMA),
        "service identity store belongs to a different profile or schema",
    )?;
    Ok(&envelope.payload)
}

/// Opens the identity that the stored envelopes hold on the machine with the given
/// id. The entry is read in the positional form that enrollment writes; one that was read
/// in another form is opened by `open_private_entry`.
pub fn open_service_identity<P: ServiceIdentityProfile>(
    stored: &Vec<CultCacheEnvelope>,
    machine_id: &str,
) -> (outcome: Result<ServiceIdentitySigner<P>, CultNetError>)
    ensures
        store_violation::<P>(envelopes(stored@)) is Some ==> reports(
            outcome,
            store_violation::<P>(envelopes(stored@)),
        ),
        store_violation::<P>(envelopes(stored@)) is None ==> {
            let payload = stored@[0].payload@;
            &&& forall|entry: ServiceIdentityPrivateEntry|
                messagepack_decoding(payload) == Some(#[trigger] entry.wire()) ==> reports(
                    outcome,
                    open_violation::<P>(entry, machine_id@),
                )
            &&& forall|entry: ServiceIdentityPrivateEntry|
                carried(entry.wire(), 1023) && payload == messagepack_encoding(#[trigger] entry.wire())
                    ==> reports(outcome, open_violation::<P>(entry, machine_id@))
            &&& (forall|entry: ServiceIdentityPrivateEntry|
                messagepack_decoding(payload) != Some(#[trigger] entry.wire())) ==> outcome is Err
                && outcome->Err_0@ == "service identity private payload is malformed MessagePack"@
            &&& outcome matches Ok(signer) ==> {
                &&& signer.well_formed()
                &&& messagepack_decoding(payload) == Some(signer.private_entry().wire())
                &&& signer.private_seed() == masked(
                    signer.private_entry().protected_private_seed@,
                    seed_mask::<P>(binding_of::<P>(machine_id@)),
                )
            }
        },
{
    let payload = private_payload::<P>(stored)?;
    let decoded = decode_messagepack(payload);
    match decoded {
        None => refuse("service identity private payload is malformed MessagePack"),
        Some(tree) => match ServiceIdentityPrivateEntry::from_wire(&tree) {
            None => refuse("service identity private payload is malformed MessagePack"),
            Some(entry) => {
                proof {
                    assert forall|other: ServiceIdentityPrivateEntry|
                        messagepack_decoding(payload@) == Some(
                            #[trigger] other.wire(),
                        ) implies open_violation::<P>(entry, machine_id@) == open_violation::<P>(
                        other,
                        machine_id@,
                    ) by {
                        same_wire_same_entry(entry, other);
                    }
                }
                open_private_entry::<P>(entry, machine_id)
            },
        },
    }
}

proof fn entry_is_plain(entry: ServiceIdentityPrivateEntry)
    ensures
        plain(entry.wire()),
{
    let fields = entry.wire()->Sequence_0;
    byte_list_is_plain(entry.public_key@);
    byte_list_is_plain(entry.protected_private_seed@);
    byte_list_is_plain(entry.enrollment_nonce@);
    assert forall|i: int| 0 <= i < fields.len() implies plain(#[trigger] fields[i]) by {}
}

proof fn anchor_is_plain(anchor: ServiceIdentityTrustAnchor)
    ensures
        plain(anchor.wire()),
{
    let fields = anchor.wire()->Sequence_0;
    byte_list_is_plain(anchor.public_key@);
    assert forall|i: int| 0 <= i < fields.len() implies plain(#[trigger] fields[i]) by {}
}

proof fn same_wire_same_entry(a: ServiceIdentityPrivateEntry, b: ServiceIdentityPrivateEntry)
    requires
        a.wire() == b.wire(),
    ensures
        a.schema_version@ == b.schema_version@,
        a.identity_id@ == b.identity_id@,
        a.public_key@ == b.public_key@,
        a.protected_private_seed@ == b.protected_private_seed@,
        a.protector_kind@ == b.protector_kind@,
        a.protector_binding@ == b.protector_binding@,
        a.protector_version@ == b.protector_version@,
        a.assurance@ == b.assurance@,
        a.created_at@ == b.created_at@,
        a.enrollment_nonce@ == b.enrollment_nonce@,
{
    let (x, y) = (a.wire()->Sequence_0, b.wire()->Sequence_0);
    assert(x[0] == y[0] && x[1] == y[1] && x[2] == y[2] && x[3] == y[3] && x[4] == y[4]);
    assert(x[5] == y[5] && x[6] == y[6] && x[7] == y[7] && x[8] == y[8] && x[9] == y[9]);
    byte_list_is_faithful(a.public_key@, b.public_key@);
    byte_list_is_faithful(a.protected_private_seed@, b.protected_private_seed@);
    byte_list_is_faithful(a.enrollment_nonce@, b.enrollment_nonce@);
}

/// An enrolled identity opens again on the machine that it was enrolled on, to the
/// seed that it was enrolled with.
pub proof fn an_enrolled_identity_opens_again<P: ServiceIdentityProfile>(
    entry: ServiceIdentityPrivateEntry,
    seed: Seq<u8>,
    nonce: Seq<u8>,
    machine_id: Seq<char>,
    created_at: Seq<char>,
)
    requires
        is_enrolled_entry::<P>(entry, seed, nonce, machine_id, created_at),
        private_violation::<P>(entry) is None,
        trimmed(machine_id).len() > 0,
        seed.len() == 32,
        seed_mask::<P>(binding_of::<P>(machine_id)).len() == 32,
    ensures
        open_violation::<P>(entry, machine_id) is None,
        masked(entry.protected_private_seed@, seed_mask::<P>(binding_of::<P>(machine_id))) == seed,
{
    masking_is_undone_by_masking(seed, seed_mask::<P>(binding_of::<P>(machine_id)));
}

/// Why a trust anchor cannot be published over what is there, if it cannot.
pub open spec fn publication_violation(current: Seq<Envelope>, wanted: Envelope) -> Option<Seq<char>> {
    unless(
        current.len() == 0 || current == seq![wanted],
        "service identity trust anchor output already contains different state"@,
    )
}

/// The trust anchor of the signer, and the envelope that has to be written so that
/// the output holds it: none, if the output holds it already.
pub fn export_service_identity_trust_anchor<P: ServiceIdentityProfile>(
    signer: &ServiceIdentitySigner<P>,
    current: &Vec<CultCacheEnvelope>,
) -> (outcome: Result<(ServiceIdentityTrustAnchor, Option<CultCacheEnvelope>), CultNetError>)
    ensures
        forall|anchor: ServiceIdentityTrustAnchor|
            is_anchor_of::<P>(anchor, signer.private_entry()) ==> reports(
                outcome,
                publication_violation(envelopes(current@), #[trigger] anchor_envelope_of::<P>(anchor)),
            ),
        outcome matches Ok((anchor, envelope)) ==> {
            &&& is_anchor_of::<P>(anchor, signer.private_entry())
            &&& envelope is Some <==> current@.len() == 0
            &&& envelope matches Some(written) ==> written@ == anchor_envelope_of::<P>(anchor)
        },
{
    let anchor = signer.trust_anchor()?;
    proof {
        anchor_is_plain(anchor);
    }
    let envelope = CultCacheEnvelope {
        key: P::TRUST_ANCHOR_KEY.to_owned(),
        entry_type: P::TRUST_ANCHOR_TYPE.to_owned(),
        payload: encode_messagepack(&anchor.to_wire()),
        stored_at: anchor.identity_created_at.clone(),
        schema_id: Some(P::TRUST_ANCHOR_SCHEMA.to_owned()),
    };
    proof {
        assert forall|other: ServiceIdentityTrustAnchor|
            is_anchor_of::<P>(other, signer.private_entry()) implies #[trigger] anchor_envelope_of::<P>(
            other,
        ) == envelope@ by {
            assert(other.wire()->Sequence_0 =~= anchor.wire()->Sequence_0);
        }
        assert(anchor_envelope_of::<P>(anchor) == envelope@);
        if current@.len() == 1 {
            assert((envelopes(current@) == seq![envelope@]) == (current@[0]@ == envelope@)) by {
                assert(envelopes(current@)[0] == current@[0]@);
                if current@[0]@ == envelope@ {
                    assert(envelopes(current@) =~= seq![envelope@]);
                }
            }
        } else if current@.len() > 1 {
            assert(envelopes(current@).len() != seq![envelope@].len());
        }
    }
    if current.len() == 0 {
        Ok((anchor, Some(envelope)))
    } else if current.len() == 1 && current[0].same(&envelope) {
        Ok((anchor, None))
    } else {
        refuse("service identity trust anchor output already contains different state")
    }
}

}

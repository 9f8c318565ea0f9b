//! Service identities: how they are derived, what exactly they sign, and what opens them.
use vstd::prelude::*;
use vstd::utf8::encode_utf8;
use super::words::{hex_digits_of, hex_texts_are_plain, says};
use crate::envelope::{envelopes, CultCacheEnvelope};
use crate::error::CultNetError;
use crate::primitives::{
    ed25519_point, ed25519_public_key, ed25519_signature, ed25519_verifies, rfc3339, sha256_digest,
};
use crate::record::{byte_list, sha256_text};
use crate::runtime_authority_contracts::activation::{
    activation_identity, activation_message, derive_idunn_runtime_activation_identity_id,
    IdunnRuntimeActivationSigner,
};
use crate::service_identity::{
    derive_service_identity_id, enroll_service_identity_with, export_service_identity_trust_anchor,
    identity_of, is_anchor_of, masked, open_private_entry, platform_binding, private_envelope,
    private_payload, seed_mask, signed_message, verify_service_identity_signature,
    verify_service_identity_signature_with_public_key, ServiceIdentityPrivateEntry,
    ServiceIdentityProfile, ServiceIdentitySignature, ServiceIdentitySigner,
    ServiceIdentityTrustAnchor, ServiceSignaturePurpose,
};
use crate::text::{big_endian, trimmed, white_space};
use crate::wire::{messagepack_encoding, Wire};

verus! {

// ---------------------------------------------------------------------------
// Signed messages
// ---------------------------------------------------------------------------

/// The number in eight bytes, the most significant one first.
pub open spec fn eight_bytes(number: int) -> Seq<u8> {
    seq![
        (number / 72057594037927936 % 256) as u8,
        (number / 281474976710656 % 256) as u8,
        (number / 1099511627776 % 256) as u8,
        (number / 4294967296 % 256) as u8,
        (number / 16777216 % 256) as u8,
        (number / 65536 % 256) as u8,
        (number / 256 % 256) as u8,
        (number % 256) as u8,
    ]
}

/// A number in eight bytes has the most significant byte first.
pub proof fn numbers_are_in_eight_bytes(number: u64)
    ensures
        big_endian(number) == eight_bytes(number as int),
{
    assert(big_endian(number) =~= eight_bytes(number as int));
}

/// The bytes behind their number.
pub open spec fn counted(bytes: Seq<u8>) -> Seq<u8> {
    eight_bytes(bytes.len() as int) + bytes
}

/// What is signed: the domain, then the purpose and the payload, each behind its length.
pub open spec fn message_of(domain: Seq<char>, purpose: Seq<char>, payload: Seq<u8>) -> Seq<u8> {
    encode_utf8(domain) + counted(encode_utf8(purpose)) + counted(payload)
}

/// A signed message is domain, purpose and payload in this order, with the lengths of the
/// latter two before them.
pub proof fn a_signed_message_is_laid_out_so<P: ServiceIdentityProfile, S: ServiceSignaturePurpose<P>>(payload: Seq<u8>)
    requires
        encode_utf8(S::PURPOSE@).len() <= u64::MAX,
        payload.len() <= u64::MAX,
    ensures
        signed_message::<P, S>(payload) == message_of(P::SIGNATURE_DOMAIN@, S::PURPOSE@, payload),
{
    numbers_are_in_eight_bytes(encode_utf8(S::PURPOSE@).len() as u64);
    numbers_are_in_eight_bytes(payload.len() as u64);
    assert(signed_message::<P, S>(payload) =~= message_of(P::SIGNATURE_DOMAIN@, S::PURPOSE@, payload));
}

/// What an activation's key signs is laid out in the same way, under its own domain and
/// purpose.
pub proof fn an_activation_message_is_laid_out_so(payload: Seq<u8>)
    requires
        encode_utf8("gamecult.runtime_presence.activation-proof.v1"@).len() <= u64::MAX,
        payload.len() <= u64::MAX,
    ensures
        activation_message(payload) == message_of(
            "idunn.runtime-activation.signature.v1\0"@,
            "gamecult.runtime_presence.activation-proof.v1"@,
            payload,
        ),
{
    let purpose = "gamecult.runtime_presence.activation-proof.v1"@;
    numbers_are_in_eight_bytes(encode_utf8(purpose).len() as u64);
    numbers_are_in_eight_bytes(payload.len() as u64);
    assert(activation_message(payload) =~= message_of("idunn.runtime-activation.signature.v1\0"@, purpose, payload));
}

// ---------------------------------------------------------------------------
// Identities
// ---------------------------------------------------------------------------

/// The digest of the domain and the key, in hexadecimal digits.
pub open spec fn identity_text(domain: Seq<char>, public_key: Seq<u8>) -> Seq<char> {
    hex_digits_of(sha256_digest(encode_utf8(domain) + public_key))
}

/// An identity is derived exactly from a key of 32 bytes, and is the digest of the
/// profile's domain and the key.
pub proof fn identities_are_derived_from_keys<P: ServiceIdentityProfile>(
    public_key: &[u8],
    service: Result<String, CultNetError>,
    activation: Result<String, CultNetError>,
)
    requires
        call_ensures(derive_service_identity_id::<P>, (public_key,), service),
        call_ensures(derive_idunn_runtime_activation_identity_id, (public_key,), activation),
    ensures
        public_key@.len() == 32 <==> service is Ok,
        public_key@.len() == 32 <==> activation is Ok,
        public_key@.len() != 32 ==> says(service, "service identity public key has invalid length"@),
        public_key@.len() != 32 ==> says(activation, "runtime activation public key has invalid length"@),
        service matches Ok(identity) ==> identity@ == identity_text(P::ID_DOMAIN@, public_key@),
        activation matches Ok(identity) ==> identity@ == identity_text("idunn.runtime-activation.id.v1\0"@, public_key@),
{
    hex_texts_are_plain(sha256_digest(encode_utf8(P::ID_DOMAIN@) + public_key@));
    hex_texts_are_plain(sha256_digest(encode_utf8("idunn.runtime-activation.id.v1\0"@) + public_key@));
}

/// An identity is the digest of the profile's domain and the key.
pub proof fn an_identity_is_the_digest_of_its_key<P: ServiceIdentityProfile>(public_key: Seq<u8>)
    ensures
        identity_of::<P>(public_key) == identity_text(P::ID_DOMAIN@, public_key),
        activation_identity(public_key) == identity_text("idunn.runtime-activation.id.v1\0"@, public_key),
{
    hex_texts_are_plain(sha256_digest(encode_utf8(P::ID_DOMAIN@) + public_key));
    hex_texts_are_plain(sha256_digest(encode_utf8("idunn.runtime-activation.id.v1\0"@) + public_key));
}

/// The digest of bytes in words is `sha256-` and its hexadecimal digits.
pub proof fn a_digest_is_written_so(bytes: Seq<u8>)
    ensures
        sha256_text(bytes) == "sha256-"@ + hex_digits_of(sha256_digest(bytes)),
{
    hex_texts_are_plain(sha256_digest(bytes));
}

// ---------------------------------------------------------------------------
// Signatures
// ---------------------------------------------------------------------------

/// A signature is taken under an anchor exactly if the anchor is one of the profile, the
/// signature names the anchor's identity and has 64 bytes, the key is a point, and the
/// signature is genuine; otherwise the first that fails is said.
pub proof fn a_signature_is_taken_under_an_anchor_exactly_if_it_is_genuine<
    P: ServiceIdentityProfile,
    S: ServiceSignaturePurpose<P>,
>(
    anchor: &ServiceIdentityTrustAnchor,
    payload: &[u8],
    proof: &ServiceIdentitySignature,
    outcome: Result<(), CultNetError>,
)
    requires
        call_ensures(verify_service_identity_signature::<P, S>, (anchor, payload, proof), outcome),
        encode_utf8(S::PURPOSE@).len() <= u64::MAX,
        payload@.len() <= u64::MAX,
    ensures
        ({
            let sound = anchor.schema_version@ == P::TRUST_ANCHOR_SCHEMA@ && anchor.public_key@.len() == 32
                && anchor.identity_id@ == identity_text(P::ID_DOMAIN@, anchor.public_key@);
            let named = proof.identity_id@ == anchor.identity_id@;
            let whole = proof.signature@.len() == 64;
            let point = ed25519_point(anchor.public_key@);
            let genuine = ed25519_verifies(
                anchor.public_key@,
                message_of(P::SIGNATURE_DOMAIN@, S::PURPOSE@, payload@),
                proof.signature@,
            );
            &&& outcome is Ok <==> sound && named && whole && point && genuine
            &&& !sound ==> says(outcome, "service identity trust anchor violates its profile schema"@)
            &&& sound && !named ==> says(outcome, "service identity signature names a different identity"@)
            &&& sound && named && !whole ==> says(outcome, "service identity signature has invalid length"@)
            &&& sound && named && whole && !point ==> says(
                outcome,
                "service identity public key is not a curve point"@,
            )
            &&& sound && named && whole && point && !genuine ==> says(
                outcome,
                "service identity signature verification failed"@,
            )
        }),
{
    an_identity_is_the_digest_of_its_key::<P>(anchor.public_key@);
    a_signed_message_is_laid_out_so::<P, S>(payload@);
}

/// A signature is taken under a key exactly if the key has 32 bytes, the signature names the
/// identity that the profile derives from it and has 64 bytes, the key is a point, and the
/// signature is genuine; otherwise the first that fails is said.
pub proof fn a_signature_is_taken_under_a_key_exactly_if_it_is_genuine<
    P: ServiceIdentityProfile,
    S: ServiceSignaturePurpose<P>,
>(public_key: &[u8], payload: &[u8], proof: &ServiceIdentitySignature, outcome: Result<(), CultNetError>)
    requires
        call_ensures(
            verify_service_identity_signature_with_public_key::<P, S>,
            (public_key, payload, proof),
            outcome,
        ),
        encode_utf8(S::PURPOSE@).len() <= u64::MAX,
        payload@.len() <= u64::MAX,
    ensures
        ({
            let sound = public_key@.len() == 32;
            let named = proof.identity_id@ == identity_text(P::ID_DOMAIN@, public_key@);
            let whole = proof.signature@.len() == 64;
            let point = ed25519_point(public_key@);
            let genuine = ed25519_verifies(
                public_key@,
                message_of(P::SIGNATURE_DOMAIN@, S::PURPOSE@, payload@),
                proof.signature@,
            );
            &&& outcome is Ok <==> sound && named && whole && point && genuine
            &&& !sound ==> says(outcome, "service identity public key has invalid length"@)
            &&& sound && !named ==> says(outcome, "service identity signature names a different identity"@)
            &&& sound && named && !whole ==> says(outcome, "service identity signature has invalid length"@)
            &&& sound && named && whole && !point ==> says(
                outcome,
                "service identity public key is not a curve point"@,
            )
            &&& sound && named && whole && point && !genuine ==> says(
                outcome,
                "service identity signature verification failed"@,
            )
        }),
{
    an_identity_is_the_digest_of_its_key::<P>(public_key@);
    a_signed_message_is_laid_out_so::<P, S>(payload@);
}

/// A signer signs the laid-out message with its seed, and names its identity.
pub proof fn a_signer_signs_the_message<P: ServiceIdentityProfile, S: ServiceSignaturePurpose<P>>(
    signer: &ServiceIdentitySigner<P>,
    payload: &[u8],
    proof: ServiceIdentitySignature,
)
    requires
        call_ensures(ServiceIdentitySigner::<P>::sign::<S>, (signer, payload), proof),
        encode_utf8(S::PURPOSE@).len() <= u64::MAX,
        payload@.len() <= u64::MAX,
    ensures
        proof.identity_id@ == signer.private_entry().identity_id@,
        proof.signature@ == ed25519_signature(
            signer.private_seed(),
            message_of(P::SIGNATURE_DOMAIN@, S::PURPOSE@, payload@),
        ),
{
    a_signed_message_is_laid_out_so::<P, S>(payload@);
}

/// A trust anchor holds the public part of the entry, and the digest of the whole of it.
pub proof fn a_trust_anchor_is_the_public_part<P: ServiceIdentityProfile>(
    signer: &ServiceIdentitySigner<P>,
    outcome: Result<ServiceIdentityTrustAnchor, CultNetError>,
)
    requires
        call_ensures(ServiceIdentitySigner::<P>::trust_anchor, (signer,), outcome),
    ensures
        outcome matches Ok(anchor) && {
            let entry = signer.private_entry();
            &&& anchor.schema_version@ == P::TRUST_ANCHOR_SCHEMA@
            &&& anchor.identity_id@ == entry.identity_id@
            &&& anchor.public_key@ == entry.public_key@
            &&& anchor.assurance@ == entry.assurance@
            &&& anchor.identity_created_at@ == entry.created_at@
            &&& anchor.source_identity_record_sha256@ == "sha256-"@ + hex_digits_of(
                sha256_digest(messagepack_encoding(entry.wire())),
            )
        },
{
    a_digest_is_written_so(messagepack_encoding(signer.private_entry().wire()));
}

/// The fields of a private entry and of a trust anchor stand at these places.
pub proof fn entries_and_anchors_are_positional(entry: ServiceIdentityPrivateEntry, anchor: ServiceIdentityTrustAnchor)
    ensures
        entry.wire() == Wire::Sequence(
            seq![
                Wire::Text(entry.schema_version@),
                Wire::Text(entry.identity_id@),
                byte_list(entry.public_key@),
                byte_list(entry.protected_private_seed@),
                Wire::Text(entry.protector_kind@),
                Wire::Text(entry.protector_binding@),
                Wire::Text(entry.protector_version@),
                Wire::Text(entry.assurance@),
                Wire::Text(entry.created_at@),
                byte_list(entry.enrollment_nonce@),
            ],
        ),
        anchor.wire() == Wire::Sequence(
            seq![
                Wire::Text(anchor.schema_version@),
                Wire::Text(anchor.identity_id@),
                byte_list(anchor.public_key@),
                Wire::Text(anchor.assurance@),
                Wire::Text(anchor.identity_created_at@),
                Wire::Text(anchor.source_identity_record_sha256@),
            ],
        ),
{
}

// ---------------------------------------------------------------------------
// Protection
// ---------------------------------------------------------------------------

/// What is between the two positions is left, and what is around it is white space.
pub open spec fn stripped_at(text: Seq<char>, inner: Seq<char>, start: int, end: int) -> bool {
    &&& 0 <= start <= end <= text.len()
    &&& text.subrange(start, end) == inner
    &&& forall|i: int| 0 <= i < start ==> white_space(#[trigger] text[i])
    &&& forall|i: int| end <= i < text.len() ==> white_space(#[trigger] text[i])
    &&& inner.len() > 0 ==> !white_space(inner[0]) && !white_space(inner[inner.len() - 1])
}

/// The text without what is white space at its ends.
pub open spec fn stripped(text: Seq<char>, inner: Seq<char>) -> bool {
    exists|start: int, end: int| #[trigger] stripped_at(text, inner, start, end)
}

proof fn stripping_the_first(text: Seq<char>, inner: Seq<char>, start: int, end: int)
    requires
        text.len() > 0,
        white_space(text[0]),
        stripped_at(text.drop_first(), inner, start, end),
    ensures
        stripped_at(text, inner, start + 1, end + 1),
{
    let rest = text.drop_first();
    assert(text.subrange(start + 1, end + 1) =~= rest.subrange(start, end));
    assert forall|i: int| 0 <= i < start + 1 implies white_space(#[trigger] text[i]) by {
        if i > 0 {
            assert(white_space(rest[i - 1]));
        }
    }
    assert forall|i: int| end + 1 <= i < text.len() implies white_space(#[trigger] text[i]) by {
        assert(white_space(rest[i - 1]));
    }
}

proof fn stripping_the_last(text: Seq<char>, inner: Seq<char>, start: int, end: int)
    requires
        text.len() > 0,
        white_space(text.last()),
        stripped_at(text.drop_last(), inner, start, end),
    ensures
        stripped_at(text, inner, start, end),
{
    let rest = text.drop_last();
    assert(text.subrange(start, end) =~= rest.subrange(start, end));
    assert forall|i: int| 0 <= i < start implies white_space(#[trigger] text[i]) by {
        assert(white_space(rest[i]));
    }
    assert forall|i: int| end <= i < text.len() implies white_space(#[trigger] text[i]) by {
        if i < rest.len() {
            assert(white_space(rest[i]));
        }
    }
}

/// Trimming takes away exactly the white space at the ends.
pub proof fn trimming_strips_the_ends(text: Seq<char>)
    ensures
        stripped(text, trimmed(text)),
    decreases text.len(),
{
    let inner = trimmed(text);
    if text.len() == 0 {
        assert(text.subrange(0, 0) =~= inner);
        assert(stripped_at(text, inner, 0, 0));
    } else if white_space(text[0]) {
        trimming_strips_the_ends(text.drop_first());
        let (start, end) = choose|start: int, end: int| #[trigger] stripped_at(text.drop_first(), inner, start, end);
        stripping_the_first(text, inner, start, end);
    } else if white_space(text.last()) {
        trimming_strips_the_ends(text.drop_last());
        let (start, end) = choose|start: int, end: int| #[trigger] stripped_at(text.drop_last(), inner, start, end);
        stripping_the_last(text, inner, start, end);
    } else {
        assert(text.subrange(0, text.len() as int) =~= inner);
        assert(stripped_at(text, inner, 0, text.len() as int));
    }
}

/// What binds a seed to the machine: the profile's context and the digest of the machine's
/// id.
pub open spec fn binding_text<P: ServiceIdentityProfile>(machine_id: Seq<char>) -> Seq<char> {
    P::PROTECTOR_CONTEXT@ + ":machine-id-sha256:"@ + hex_digits_of(sha256_digest(encode_utf8(machine_id)))
}

/// A machine is bound exactly if its id is more than white space, by the digest of what is
/// between the white space.
pub proof fn a_machine_is_bound_by_its_id<P: ServiceIdentityProfile>(
    machine_id: &str,
    outcome: Result<String, CultNetError>,
)
    requires
        call_ensures(platform_binding::<P>, (machine_id,), outcome),
    ensures
        outcome is Ok <==> exists|i: int| 0 <= i < machine_id@.len() && !white_space(#[trigger] machine_id@[i]),
        outcome is Err ==> says(outcome, "Linux machine-id is empty"@),
        outcome matches Ok(binding) ==> exists|inner: Seq<char>| #[trigger]
            stripped(machine_id@, inner) && binding@ == binding_text::<P>(inner),
{
    let inner = trimmed(machine_id@);
    trimming_strips_the_ends(machine_id@);
    hex_texts_are_plain(sha256_digest(encode_utf8(inner)));
    let (start, end) = choose|start: int, end: int| #[trigger] stripped_at(machine_id@, inner, start, end);
    if inner.len() > 0 {
        assert(machine_id@[start] == inner[0]);
    }
}

/// The mask of a binding is the digest of the protector's name, the profile's context and
/// the binding; a seed is kept under it bit by bit.
pub proof fn a_seed_is_kept_under_the_mask<P: ServiceIdentityProfile>(seed: Seq<u8>, binding: Seq<char>)
    requires
        seed.len() <= sha256_digest(
            encode_utf8("gamecult-linux-service-seed-v1\0"@) + encode_utf8(P::PROTECTOR_CONTEXT@) + encode_utf8(binding),
        ).len(),
    ensures
        masked(seed, seed_mask::<P>(binding)).len() == seed.len(),
        forall|i: int|
            0 <= i < seed.len() ==> #[trigger] masked(seed, seed_mask::<P>(binding))[i] == seed[i] ^ sha256_digest(
                encode_utf8("gamecult-linux-service-seed-v1\0"@) + encode_utf8(P::PROTECTOR_CONTEXT@) + encode_utf8(
                    binding,
                ),
            )[i],
{
}

/// An enrolled identity holds its public key, its identity, its seed under the mask, and
/// what it was enrolled with.
pub proof fn an_enrolled_identity_holds_this<P: ServiceIdentityProfile>(
    seed: [u8; 32],
    nonce: [u8; 32],
    machine_id: &str,
    created_at: &str,
    outcome: Result<ServiceIdentitySigner<P>, CultNetError>,
)
    requires
        call_ensures(enroll_service_identity_with::<P>, (seed, nonce, machine_id, created_at), outcome),
    ensures
        outcome is Ok <==> trimmed(machine_id@).len() > 0 && rfc3339(created_at@),
        trimmed(machine_id@).len() == 0 ==> says(outcome, "Linux machine-id is empty"@),
        trimmed(machine_id@).len() > 0 && !rfc3339(created_at@) ==> says(
            outcome,
            "service identity created_at is not RFC3339"@,
        ),
        outcome matches Ok(signer) ==> {
            let entry = signer.private_entry();
            let binding = binding_text::<P>(trimmed(machine_id@));
            &&& signer.private_seed() == seed@
            &&& entry.schema_version@ == P::PRIVATE_SCHEMA@
            &&& entry.public_key@ == ed25519_public_key(seed@)
            &&& entry.identity_id@ == identity_text(P::ID_DOMAIN@, ed25519_public_key(seed@))
            &&& entry.protector_kind@ == "linux_file_mode_machine_id_binding"@
            &&& entry.protector_binding@ == binding
            &&& entry.protector_version@ == "v1"@
            &&& entry.assurance@ == "os_installation_file_bound_cloneable_baseline"@
            &&& entry.created_at@ == created_at@
            &&& entry.enrollment_nonce@ == nonce@
            &&& entry.protected_private_seed@ == masked(seed@, seed_mask::<P>(binding))
        },
{
    hex_texts_are_plain(sha256_digest(encode_utf8(trimmed(machine_id@))));
    an_identity_is_the_digest_of_its_key::<P>(ed25519_public_key(seed@));
}

/// An entry opens exactly if it is one of the profile, is protected in this way, was
/// enrolled on this machine, and its unmasked seed has its public key.
pub proof fn an_entry_opens_exactly_where_it_was_enrolled<P: ServiceIdentityProfile>(
    entry: ServiceIdentityPrivateEntry,
    machine_id: &str,
    outcome: Result<ServiceIdentitySigner<P>, CultNetError>,
)
    requires
        call_ensures(open_private_entry::<P>, (entry, machine_id), outcome),
    ensures
        ({
            let binding = binding_text::<P>(trimmed(machine_id@));
            let seed = masked(entry.protected_private_seed@, seed_mask::<P>(binding));
            let schema = entry.schema_version@ == P::PRIVATE_SCHEMA@ && entry.public_key@.len() == 32
                && entry.enrollment_nonce@.len() == 32 && entry.protected_private_seed@.len() > 0
                && entry.protector_version@ == "v1"@;
            let time = rfc3339(entry.created_at@);
            let named = entry.identity_id@ == identity_text(P::ID_DOMAIN@, entry.public_key@);
            let platform = entry.protector_kind@ == "linux_file_mode_machine_id_binding"@ && entry.assurance@
                == "os_installation_file_bound_cloneable_baseline"@;
            let machine = trimmed(machine_id@).len() > 0;
            let bound = entry.protector_binding@ == binding;
            let length = entry.protected_private_seed@.len() == 32;
            let own = ed25519_public_key(seed) == entry.public_key@;
            &&& outcome is Ok <==> schema && time && named && platform && machine && bound && length && own
            &&& outcome matches Ok(signer) ==> signer.private_entry() == entry && signer.private_seed() == seed
            &&& !schema ==> says(outcome, "service identity private entry violates its profile schema"@)
            &&& schema && !time ==> says(outcome, "service identity created_at is not RFC3339"@)
            &&& schema && time && !named ==> says(outcome, "service identity id does not match public key"@)
            &&& schema && time && named && !platform ==> says(
                outcome,
                "service identity protector does not belong to this platform implementation"@,
            )
            &&& schema && time && named && platform && !machine ==> says(outcome, "Linux machine-id is empty"@)
            &&& schema && time && named && platform && machine && !bound ==> says(
                outcome,
                "service identity protector binding does not match this OS installation or profile"@,
            )
            &&& schema && time && named && platform && machine && bound && !length ==> says(
                outcome,
                "protected Linux service seed has invalid length"@,
            )
            &&& schema && time && named && platform && machine && bound && length && !own ==> says(
                outcome,
                "service identity private seed does not match enrolled public key"@,
            )
        }),
{
    hex_texts_are_plain(sha256_digest(encode_utf8(trimmed(machine_id@))));
    an_identity_is_the_digest_of_its_key::<P>(entry.public_key@);
}

/// A store is taken exactly if it holds one envelope, with the type, the key and the schema
/// of the profile; what is read is its payload.
pub proof fn a_store_holds_one_envelope_of_the_profile<P: ServiceIdentityProfile>(
    stored: &Vec<CultCacheEnvelope>,
    entry: &ServiceIdentityPrivateEntry,
    outcome: Result<&Vec<u8>, CultNetError>,
    written: CultCacheEnvelope,
)
    requires
        call_ensures(private_payload::<P>, (stored,), outcome),
        call_ensures(private_envelope::<P>, (entry,), written),
    ensures
        outcome is Ok <==> stored@.len() == 1 && stored@[0].entry_type@ == P::PRIVATE_TYPE@ && stored@[0].key@
            == P::PRIVATE_KEY@ && (stored@[0].schema_id matches Some(schema) && schema@ == P::PRIVATE_SCHEMA@),
        stored@.len() != 1 ==> says(outcome, "service identity store must contain exactly one immutable envelope"@),
        stored@.len() == 1 && outcome is Err ==> says(
            outcome,
            "service identity store belongs to a different profile or schema"@,
        ),
        outcome matches Ok(payload) ==> *payload == stored@[0].payload,
        written.key@ == P::PRIVATE_KEY@,
        written.entry_type@ == P::PRIVATE_TYPE@,
        written.payload@ == messagepack_encoding(entry.wire()),
        written.stored_at@ == entry.created_at@,
        written.schema_id matches Some(schema) && schema@ == P::PRIVATE_SCHEMA@,
{
    if stored@.len() == 1 {
        assert(envelopes(stored@)[0] == stored@[0]@);
    }
    assert(written@.key == written.key@);
    assert(written@.schema_id == Some(P::PRIVATE_SCHEMA@));
}

/// An anchor is written where nothing is, is there already where exactly it is, and is
/// refused where anything else is.
pub proof fn an_anchor_is_published_once<P: ServiceIdentityProfile>(
    signer: &ServiceIdentitySigner<P>,
    current: &Vec<CultCacheEnvelope>,
    anchor: ServiceIdentityTrustAnchor,
    outcome: Result<(ServiceIdentityTrustAnchor, Option<CultCacheEnvelope>), CultNetError>,
)
    requires
        call_ensures(export_service_identity_trust_anchor::<P>, (signer, current), outcome),
        is_anchor_of::<P>(anchor, signer.private_entry()),
    ensures
        ({
            let there = current@.len() == 1 && current@[0].key@ == P::TRUST_ANCHOR_KEY@ && current@[0].entry_type@
                == P::TRUST_ANCHOR_TYPE@ && current@[0].payload@ == messagepack_encoding(anchor.wire())
                && current@[0].stored_at@ == anchor.identity_created_at@ && (current@[0].schema_id matches Some(schema)
                && schema@ == P::TRUST_ANCHOR_SCHEMA@);
            &&& outcome is Ok <==> current@.len() == 0 || there
            &&& outcome is Err ==> says(
                outcome,
                "service identity trust anchor output already contains different state"@,
            )
            &&& outcome matches Ok((_, envelope)) ==> (envelope is Some <==> current@.len() == 0)
            &&& outcome matches Ok((_, Some(written))) ==> {
                &&& written.key@ == P::TRUST_ANCHOR_KEY@
                &&& written.entry_type@ == P::TRUST_ANCHOR_TYPE@
                &&& written.payload@ == messagepack_encoding(anchor.wire())
                &&& written.stored_at@ == anchor.identity_created_at@
                &&& written.schema_id matches Some(schema) && schema@ == P::TRUST_ANCHOR_SCHEMA@
            }
        }),
{
    let wanted = crate::service_identity::anchor_envelope_of::<P>(anchor);
    if current@.len() == 1 {
        assert(envelopes(current@)[0] == current@[0]@);
        assert(seq![wanted][0] == wanted);
        if current@[0]@ == wanted {
            assert(envelopes(current@) =~= seq![wanted]);
        }
    } else {
        assert(envelopes(current@).len() == current@.len());
        assert(seq![wanted].len() == 1);
    }
    if let Ok((own, envelope)) = outcome {
        assert(own.wire()->Sequence_0 =~= anchor.wire()->Sequence_0);
        if let Some(written) = envelope {
            assert(written@.key == written.key@);
            assert(written@.schema_id == Some(P::TRUST_ANCHOR_SCHEMA@));
        }
    }
}

/// An activation's signer is opened exactly by a credential of 32 bytes, which is its seed.
pub proof fn an_activation_credential_is_the_seed(
    credential: &[u8],
    outcome: Result<IdunnRuntimeActivationSigner, CultNetError>,
)
    requires
        call_ensures(IdunnRuntimeActivationSigner::from_credential_reader, (credential,), outcome),
    ensures
        outcome is Ok <==> credential@.len() == 32,
        credential@.len() < 32 ==> says(outcome, "reading runtime activation credential"@),
        credential@.len() > 32 ==> says(outcome, "runtime activation credential is longer than 32 bytes"@),
        outcome matches Ok(signer) ==> signer.private_seed() == credential@,
{
}

}

//! How Idunn launches a runtime: a key for one activation, and the record by which
//! Idunn vouches for it.
use ed25519_dalek::SigningKey;
use vstd::prelude::*;
use vstd::utf8::encode_utf8;
use super::expected::IdunnExpectedIncarnationRecord;
use super::presence::GameCultRuntimePresenceHealthRecord;
use super::{GAMECULT_RUNTIME_ACTIVATION_PROOF_SIGNING_PURPOSE, IDUNN_RUNTIME_ACTIVATION_SCHEMA};
use crate::error::{ensure, first_of, reports, unless, CultNetError};
use crate::primitives::{
    ed25519_point, ed25519_public_key, ed25519_signature, ed25519_verifies, public_key_of,
    random_seed, seed_of, sha256, sha256_digest, sign_with, signing_key, signing_seed, wipe,
};
use crate::text::byte_length_is_bounded;
use crate::record::{
    binary_field, canonical_digest, canonical_record_bytes, canonical_record_sha256,
    decode_canonical_record, decoded_canonically, number_field, read_binary, read_items,
    read_number, read_text, sequence_field, sha256_reference_is_short, text_field, with_field,
    CanonicalRecord, Record,
};
use crate::rules::{authority_violation, check_authority, check_sha256, sha256_violation};
use crate::service_identity::{
    anchor_violation, proof_violation, verify_service_identity_signature,
    IdunnRuntimeActivationPurpose, IdunnServiceIdentity, ServiceIdentitySignature,
    ServiceIdentitySigner, ServiceIdentityTrustAnchor,
};
use crate::text::{
    append_big_endian, append_bytes, big_endian, bounded, copy_bytes, hex, hex_text,
    hex_text_is_bounded, same_text, sha256_reference,
};
use crate::wire::{
    carried, encode_messagepack, messagepack_encoding, plain, plain_with_field, trees, Wire,
    WireValue,
};

verus! {

/// What an activation's identity is derived under.
pub const IDUNN_RUNTIME_ACTIVATION_ID_DOMAIN: &'static str = "idunn.runtime-activation.id.v1\0";

/// What an activation's key signs under.
pub const IDUNN_RUNTIME_ACTIVATION_SIGNATURE_DOMAIN: &'static str = "idunn.runtime-activation.signature.v1\0";

/// The identity of an activation's public key.
pub open spec fn activation_identity(public_key: Seq<u8>) -> Seq<char> {
    hex_text(sha256_digest(encode_utf8(IDUNN_RUNTIME_ACTIVATION_ID_DOMAIN@) + public_key))
}

/// The bytes that an activation's key signs to prove a presence.
pub open spec fn activation_message(payload: Seq<u8>) -> Seq<u8> {
    let purpose = encode_utf8(GAMECULT_RUNTIME_ACTIVATION_PROOF_SIGNING_PURPOSE@);
    encode_utf8(IDUNN_RUNTIME_ACTIVATION_SIGNATURE_DOMAIN@) + big_endian(purpose.len() as u64) + purpose
        + big_endian(payload.len() as u64) + payload
}

/// Derive the activation-scoped identity from the Idunn-issued public key. The
/// domain is dedicated to runtime activation and cannot be substituted for a
/// stable provider, Idunn, or Odin service identity.
pub fn derive_idunn_runtime_activation_identity_id(public_key: &[u8]) -> (outcome: Result<String, CultNetError>)
    ensures
        reports(
            outcome,
            unless(public_key@.len() == 32, "runtime activation public key has invalid length"@),
        ),
        outcome matches Ok(identity) ==> identity@ == activation_identity(public_key@) && bounded(
            identity@,
            256,
        ),
{
    ensure(public_key.len() == 32, "runtime activation public key has invalid length")?;
    Ok(activation_identity_id(public_key))
}

fn activation_identity_id(public_key: &[u8]) -> (identity: String)
    ensures
        identity@ == activation_identity(public_key@),
        bounded(identity@, 256),
{
    let mut preimage = copy_bytes(IDUNN_RUNTIME_ACTIVATION_ID_DOMAIN.as_bytes());
    append_bytes(&mut preimage, public_key);
    let digest = sha256(&preimage);
    proof {
        hex_text_is_bounded(digest@);
    }
    hex(&digest)
}

pub(crate) fn runtime_activation_signing_message(payload: &[u8]) -> (message: Vec<u8>)
    ensures
        message@ == activation_message(payload@),
{
    let purpose = GAMECULT_RUNTIME_ACTIVATION_PROOF_SIGNING_PURPOSE.as_bytes();
    let mut out = copy_bytes(IDUNN_RUNTIME_ACTIVATION_SIGNATURE_DOMAIN.as_bytes());
    append_big_endian(&mut out, purpose.len() as u64);
    append_bytes(&mut out, purpose);
    append_big_endian(&mut out, payload.len() as u64);
    append_bytes(&mut out, payload);
    out
}

// ---------------------------------------------------------------------------
// The activation's key
// ---------------------------------------------------------------------------

/// An in-memory activation-scoped signer reconstructed by the launched service
/// from its protected systemd credential. The stable service identity never
/// receives this key, and the public activation record never contains it.
pub struct IdunnRuntimeActivationSigner {
    signing_key: SigningKey,
}

impl IdunnRuntimeActivationSigner {
    /// The seed of the key.
    pub closed spec fn private_seed(self) -> Seq<u8> {
        signing_seed(self.signing_key)
    }

    /// The signer with the given seed.
    pub fn from_seed(seed: [u8; 32]) -> (signer: Self)
        ensures
            signer.private_seed() == seed@,
    {
        IdunnRuntimeActivationSigner { signing_key: signing_key(&seed) }
    }

    /// A signer with a seed drawn at random: any seed may come.
    fn generate() -> Self {
        let mut seed = random_seed();
        let signer = IdunnRuntimeActivationSigner { signing_key: signing_key(&seed) };
        wipe(&mut seed);
        signer
    }

    /// Open the exact raw 32-byte Ed25519 seed supplied through Idunn's systemd
    /// credential. No persistent key schema exists: this authority lives for one
    /// activation and is replaced on every launch.
    pub fn from_credential_reader(credential: &[u8]) -> (outcome: Result<Self, CultNetError>)
        ensures
            reports(
                outcome,
                first_of(
                    unless(credential@.len() >= 32, "reading runtime activation credential"@),
                    unless(
                        credential@.len() <= 32,
                        "runtime activation credential is longer than 32 bytes"@,
                    ),
                ),
            ),
            outcome matches Ok(signer) ==> signer.private_seed() == credential@,
    {
        ensure(credential.len() >= 32, "reading runtime activation credential")?;
        ensure(credential.len() <= 32, "runtime activation credential is longer than 32 bytes")?;
        let mut seed = [0u8; 32];
        let mut i: usize = 0;
        while i < 32
            invariant
                i <= 32,
                credential@.len() == 32,
                forall|k: int| 0 <= k < i ==> seed@[k] == credential@[k],
            decreases 32 - i,
        {
            seed[i] = credential[i];
            i += 1;
        }
        assert(seed@ =~= credential@);
        let signer = IdunnRuntimeActivationSigner { signing_key: signing_key(&seed) };
        wipe(&mut seed);
        Ok(signer)
    }

    fn write_credential(&self, destination: &mut Vec<u8>)
        ensures
            final(destination)@ == old(destination)@ + self.private_seed(),
    {
        let mut seed = seed_of(&self.signing_key);
        append_bytes(destination, &seed);
        wipe(&mut seed);
    }

    pub fn public_key(&self) -> (key: Vec<u8>)
        ensures
            key@ == ed25519_public_key(self.private_seed()),
            key@.len() == 32,
            ed25519_point(key@),
    {
        copy_bytes(&public_key_of(&self.signing_key))
    }

    pub fn identity_id(&self) -> (identity: String)
        ensures
            identity@ == activation_identity(ed25519_public_key(self.private_seed())),
            bounded(identity@, 256),
    {
        activation_identity_id(&self.public_key())
    }

    /// Why the signer does not prove the presence, if it does not.
    pub open spec fn presence_violation(self, presence: GameCultRuntimePresenceHealthRecord) -> Option<Seq<char>> {
        first_of(
            unless(
                presence.activation_signer_identity_id@ == activation_identity(
                    ed25519_public_key(self.private_seed()),
                ),
                "runtime presence names a different activation signer"@,
            ),
            presence.shape_violation(true),
        )
    }

    pub fn sign_presence_proof(&self, presence: &GameCultRuntimePresenceHealthRecord) -> (outcome: Result<
        Vec<u8>,
        CultNetError,
    >)
        ensures
            reports(outcome, self.presence_violation(*presence)),
            outcome matches Ok(signature) ==> {
                let message = activation_message(messagepack_encoding(presence.proof_wire()));
                &&& signature@ == ed25519_signature(self.private_seed(), message)
                &&& signature@.len() == 64
                &&& ed25519_verifies(ed25519_public_key(self.private_seed()), message, signature@)
            },
    {
        ensure(
            same_text(&presence.activation_signer_identity_id, &self.identity_id()),
            "runtime presence names a different activation signer",
        )?;
        let payload = presence.canonical_proof_payload()?;
        Ok(sign_with(&self.signing_key, &runtime_activation_signing_message(&payload)))
    }
}

// ---------------------------------------------------------------------------
// The activation record
// ---------------------------------------------------------------------------

/// Idunn-issued launch identity. Idunn's stable service identity signs the
/// complete activation, including the ephemeral public key, before the private
/// credential is passed to one workload alongside Expected. Odin still treats
/// it as current only after Idunn publishes an observed native process.
#[derive(Clone, Debug, PartialEq, Eq)]
pub struct IdunnRuntimeActivationRecord {
    pub schema_version: String,
    pub expected_projection_sha256: String,
    pub runtime_id: String,
    pub runtime_instance_id: String,
    pub activation_signer_identity_id: String,
    pub activation_signer_public_key: Vec<u8>,
    pub issued_at_unix_millis: u64,
    pub idunn_signer_identity_id: String,
    pub signature_algorithm: String,
    pub signature: Vec<u8>,
}

impl Record for IdunnRuntimeActivationRecord {
    open spec fn wire(self) -> Wire {
        Wire::Sequence(
            seq![
                Wire::Text(self.schema_version@),
                Wire::Text(self.expected_projection_sha256@),
                Wire::Text(self.runtime_id@),
                Wire::Text(self.runtime_instance_id@),
                Wire::Text(self.activation_signer_identity_id@),
                Wire::Binary(self.activation_signer_public_key@),
                Wire::Unsigned(self.issued_at_unix_millis),
                Wire::Text(self.idunn_signer_identity_id@),
                Wire::Text(self.signature_algorithm@),
                Wire::Binary(self.signature@),
            ],
        )
    }

    open spec fn width() -> nat {
        10
    }

    open spec fn depth() -> nat {
        1
    }

    open spec fn violation(self) -> Option<Seq<char>> {
        self.shape_violation(false)
    }

    proof fn shape(self) {
        let fields = self.wire()->Sequence_0;
        assert forall|i: int| 0 <= i < fields.len() implies plain(#[trigger] fields[i]) by {}
    }

    #[verifier::rlimit(60)]
    proof fn valid_is_carried(self) {
        reveal(IdunnRuntimeActivationRecord::shape_violation);
        broadcast use sha256_reference_is_short;

        byte_length_is_bounded(self.schema_version@);
        reveal_strlit("idunn.runtime_activation.v2");
        byte_length_is_bounded(self.signature_algorithm@);
        reveal_strlit("ed25519");
        let fields = self.wire()->Sequence_0;
        assert forall|i: int| 0 <= i < fields.len() implies carried(#[trigger] fields[i], 0) by {}
    }

    proof fn wire_decides(self, other: Self) {
        let (a, b) = (self.wire()->Sequence_0, other.wire()->Sequence_0);
        assert(a[0] == b[0] && a[1] == b[1] && a[2] == b[2] && a[3] == b[3] && a[4] == b[4] && a[5] == b[5]);
        assert(a[6] == b[6] && a[7] == b[7] && a[8] == b[8] && a[9] == b[9]);
        reveal(IdunnRuntimeActivationRecord::shape_violation);
    }

    fn to_wire(&self) -> (field: WireValue) {
        let field = sequence_field(
            vec![
                text_field(&self.schema_version),
                text_field(&self.expected_projection_sha256),
                text_field(&self.runtime_id),
                text_field(&self.runtime_instance_id),
                text_field(&self.activation_signer_identity_id),
                binary_field(&self.activation_signer_public_key),
                number_field(self.issued_at_unix_millis),
                text_field(&self.idunn_signer_identity_id),
                text_field(&self.signature_algorithm),
                binary_field(&self.signature),
            ],
        );
        assert(field@->Sequence_0 =~= self.wire()->Sequence_0);
        field
    }

    fn from_wire(field: &WireValue) -> (record: Option<Self>) {
        let items = match read_items(field, 10) {
            Some(found) => found,
            None => {
                return None;
            },
        };
        let ghost all = trees(items@);
        assert forall|any: Self| #[trigger] any.wire() == field@ implies {
            &&& all[0] is Text
            &&& all[1] is Text
            &&& all[2] is Text
            &&& all[3] is Text
            &&& all[4] is Text
            &&& all[5] is Binary
            &&& all[6] is Unsigned
            &&& all[7] is Text
            &&& all[8] is Text
            &&& all[9] is Binary
        } by {
            assert(any.wire()->Sequence_0 == all);
        }
        let record = IdunnRuntimeActivationRecord {
            schema_version: read_text(&items[0])?,
            expected_projection_sha256: read_text(&items[1])?,
            runtime_id: read_text(&items[2])?,
            runtime_instance_id: read_text(&items[3])?,
            activation_signer_identity_id: read_text(&items[4])?,
            activation_signer_public_key: read_binary(&items[5])?,
            issued_at_unix_millis: read_number(&items[6])?,
            idunn_signer_identity_id: read_text(&items[7])?,
            signature_algorithm: read_text(&items[8])?,
            signature: read_binary(&items[9])?,
        };
        assert(record.wire()->Sequence_0 =~= all);
        Some(record)
    }

    fn check(&self) -> (outcome: Result<(), CultNetError>) {
        self.validate()
    }
}

impl CanonicalRecord for IdunnRuntimeActivationRecord {
    const WIDTH_REFUSAL: &'static str = "runtime activation is not the 10-field positional contract";

    const MALFORMED_REFUSAL: &'static str = "decoding runtime activation";

    const NONCANONICAL_REFUSAL: &'static str = "runtime activation is not canonical positional MessagePack";

    const RULES_FIRST: bool = false;
}

impl IdunnRuntimeActivationRecord {
    /// Issue time, algorithm and signature are as an activation has them; one that is
    /// still to be signed may lack the signature.
    pub open spec fn issue_is_valid(self, allow_unsigned: bool) -> bool {
        &&& self.issued_at_unix_millis != 0
        &&& self.signature_algorithm@ == "ed25519"@
        &&& self.signature@.len() == 64 || (allow_unsigned && self.signature@.len() == 0)
    }

    /// Why the record is refused, if it is.
    #[verifier::opaque]
    pub open spec fn shape_violation(self, allow_unsigned: bool) -> Option<Seq<char>> {
        if self.schema_version@ != IDUNN_RUNTIME_ACTIVATION_SCHEMA@ {
            Some("runtime activation schema is unsupported"@)
        } else if sha256_violation(self.expected_projection_sha256@, "activation expected projection sha256"@) is Some {
            sha256_violation(self.expected_projection_sha256@, "activation expected projection sha256"@)
        } else if authority_violation(self.runtime_id@, "activation runtime id"@) is Some {
            authority_violation(self.runtime_id@, "activation runtime id"@)
        } else if sha256_violation(self.runtime_instance_id@, "runtime instance id"@) is Some {
            sha256_violation(self.runtime_instance_id@, "runtime instance id"@)
        } else if authority_violation(self.activation_signer_identity_id@, "activation signer identity id"@) is Some {
            authority_violation(self.activation_signer_identity_id@, "activation signer identity id"@)
        } else if self.activation_signer_public_key@.len() != 32 {
            Some("runtime activation public key has invalid length"@)
        } else if self.activation_signer_identity_id@ != activation_identity(self.activation_signer_public_key@) {
            Some("runtime activation signer identity does not match its public key"@)
        } else if authority_violation(self.idunn_signer_identity_id@, "Idunn activation signer identity id"@) is Some {
            authority_violation(self.idunn_signer_identity_id@, "Idunn activation signer identity id"@)
        } else if !self.issue_is_valid(allow_unsigned) {
            Some("runtime activation issue time or signature is invalid"@)
        } else {
            None
        }
    }

    /// The positional form with its signature empty: what Idunn signs.
    pub open spec fn unsigned_wire(self) -> Wire {
        Wire::Sequence(self.wire()->Sequence_0.update(9, Wire::Binary(Seq::empty())))
    }

    /// The record is what Idunn issues for the expected incarnation and the key.
    pub open spec fn is_issued_for(
        self,
        expected: IdunnExpectedIncarnationRecord,
        runtime_instance_id: Seq<char>,
        activation_key: Seq<u8>,
        issued_at: u64,
        issuer: Seq<char>,
    ) -> bool {
        &&& self.schema_version@ == IDUNN_RUNTIME_ACTIVATION_SCHEMA@
        &&& self.expected_projection_sha256@ == canonical_digest(expected)
        &&& self.runtime_id@ == expected.runtime_id@
        &&& self.runtime_instance_id@ == runtime_instance_id
        &&& self.activation_signer_identity_id@ == activation_identity(activation_key)
        &&& self.activation_signer_public_key@ == activation_key
        &&& self.issued_at_unix_millis == issued_at
        &&& self.idunn_signer_identity_id@ == issuer
        &&& self.signature_algorithm@ == "ed25519"@
    }

    /// Why nothing is issued, if nothing is.
    pub open spec fn issue_violation(
        expected: IdunnExpectedIncarnationRecord,
        runtime_instance_id: Seq<char>,
        issued_at: u64,
        issuer: Seq<char>,
    ) -> Option<Seq<char>> {
        first_of(
            expected.violation(),
            first_of(
                sha256_violation(runtime_instance_id, "runtime instance id"@),
                first_of(
                    authority_violation(issuer, "Idunn activation signer identity id"@),
                    unless(
                        issued_at != 0,
                        "runtime activation issue time or signature is invalid"@,
                    ),
                ),
            ),
        )
    }

    /// What is drawn up for a valid incarnation is refused for the reason for which
    /// nothing is issued.
    proof fn issued_draft_violation(
        self,
        expected: IdunnExpectedIncarnationRecord,
        runtime_instance_id: Seq<char>,
        activation_key: Seq<u8>,
        issued_at: u64,
        issuer: Seq<char>,
    )
        requires
            expected.violation() is None,
            self.is_issued_for(expected, runtime_instance_id, activation_key, issued_at, issuer),
            sha256_reference(self.expected_projection_sha256@),
            bounded(self.activation_signer_identity_id@, 256),
            activation_key.len() == 32,
            self.signature@.len() == 0,
        ensures
            self.shape_violation(true) == Self::issue_violation(
                expected,
                runtime_instance_id,
                issued_at,
                issuer,
            ),
    {
        reveal(IdunnRuntimeActivationRecord::shape_violation);
        reveal(IdunnExpectedIncarnationRecord::rule_violation);
    }

    /// A signature of the right length changes nothing else that the rules look at.
    proof fn signing_keeps_the_shape(self, draft: Self)
        requires
            self == (IdunnRuntimeActivationRecord { signature: self.signature, ..draft }),
            draft.signature@.len() == 0,
            self.signature@.len() == 64,
        ensures
            self.violation() == draft.shape_violation(true),
    {
        reveal(IdunnRuntimeActivationRecord::shape_violation);
    }

    /// A record that is refused with its signature missing is refused anyway.
    proof fn signed_is_well_shaped(self)
        requires
            self.violation() is None,
        ensures
            self.shape_violation(true) is None,
    {
        reveal(IdunnRuntimeActivationRecord::shape_violation);
    }

    /// Issues the activation of the expected incarnation for the signer's key, signed by
    /// Idunn.
    pub fn issue_with_signer(
        expected: &IdunnExpectedIncarnationRecord,
        runtime_instance_id: String,
        activation_signer: &IdunnRuntimeActivationSigner,
        issued_at_unix_millis: u64,
        idunn_signer: &ServiceIdentitySigner<IdunnServiceIdentity>,
    ) -> (outcome: Result<Self, CultNetError>)
        ensures
            reports(
                outcome,
                Self::issue_violation(
                    *expected,
                    runtime_instance_id@,
                    issued_at_unix_millis,
                    idunn_signer.private_entry().identity_id@,
                ),
            ),
            outcome matches Ok(activation) ==> {
                &&& activation.violation() is None
                &&& activation.is_issued_for(
                    *expected,
                    runtime_instance_id@,
                    ed25519_public_key(activation_signer.private_seed()),
                    issued_at_unix_millis,
                    idunn_signer.private_entry().identity_id@,
                )
                &&& idunn_signer.well_formed() ==> proof_violation::<
                    IdunnServiceIdentity,
                    IdunnRuntimeActivationPurpose,
                >(
                    idunn_signer.private_entry().identity_id@,
                    idunn_signer.private_entry().public_key@,
                    messagepack_encoding(activation.unsigned_wire()),
                    activation.idunn_signer_identity_id@,
                    activation.signature@,
                ) is None
            },
    {
        let digest = expected.canonical_sha256()?;
        let unsigned: Vec<u8> = Vec::new();
        let draft = IdunnRuntimeActivationRecord {
            schema_version: IDUNN_RUNTIME_ACTIVATION_SCHEMA.to_owned(),
            expected_projection_sha256: digest,
            runtime_id: expected.runtime_id.clone(),
            runtime_instance_id,
            activation_signer_identity_id: activation_signer.identity_id(),
            activation_signer_public_key: activation_signer.public_key(),
            issued_at_unix_millis,
            idunn_signer_identity_id: idunn_signer.entry().identity_id.clone(),
            signature_algorithm: "ed25519".to_owned(),
            signature: unsigned,
        };
        proof {
            draft.issued_draft_violation(
                *expected,
                runtime_instance_id@,
                ed25519_public_key(activation_signer.private_seed()),
                issued_at_unix_millis,
                idunn_signer.private_entry().identity_id@,
            );
        }
        draft.signed_by(idunn_signer)
    }

    /// The record with Idunn's signature.
    fn signed_by(self, idunn_signer: &ServiceIdentitySigner<IdunnServiceIdentity>) -> (outcome: Result<
        Self,
        CultNetError,
    >)
        requires
            self.signature@.len() == 0,
            self.idunn_signer_identity_id@ == idunn_signer.private_entry().identity_id@,
        ensures
            reports(outcome, self.shape_violation(true)),
            outcome matches Ok(signed) ==> {
                &&& signed.violation() is None
                &&& signed == (IdunnRuntimeActivationRecord { signature: signed.signature, ..self })
                &&& idunn_signer.well_formed() ==> proof_violation::<
                    IdunnServiceIdentity,
                    IdunnRuntimeActivationPurpose,
                >(
                    idunn_signer.private_entry().identity_id@,
                    idunn_signer.private_entry().public_key@,
                    messagepack_encoding(signed.unsigned_wire()),
                    signed.idunn_signer_identity_id@,
                    signed.signature@,
                ) is None
            },
    {
        let payload = self.unsigned_signature_payload()?;
        let proof = idunn_signer.sign::<IdunnRuntimeActivationPurpose>(&payload);
        let signed = IdunnRuntimeActivationRecord { signature: proof.signature, ..self };
        proof {
            assert(signed.unsigned_wire()->Sequence_0 =~= self.unsigned_wire()->Sequence_0);
            signed.signing_keeps_the_shape(self);
        }
        signed.validate()?;
        Ok(signed)
    }

    pub fn decode_canonical(payload: &[u8]) -> (outcome: Result<Self, CultNetError>)
        ensures
            decoded_canonically(payload@, outcome),
    {
        decode_canonical_record(payload, 10)
    }

    pub fn canonical_bytes(&self) -> (outcome: Result<Vec<u8>, CultNetError>)
        ensures
            reports(outcome, self.violation()),
            outcome matches Ok(bytes) ==> bytes@ == messagepack_encoding(self.wire()),
    {
        canonical_record_bytes(self)
    }

    pub fn canonical_sha256(&self) -> (outcome: Result<String, CultNetError>)
        ensures
            reports(outcome, self.violation()),
            outcome matches Ok(digest) ==> digest@ == canonical_digest(*self) && sha256_reference(digest@),
    {
        canonical_record_sha256(self)
    }

    pub fn unsigned_signature_payload(&self) -> (outcome: Result<Vec<u8>, CultNetError>)
        ensures
            reports(outcome, self.shape_violation(true)),
            outcome matches Ok(bytes) ==> bytes@ == messagepack_encoding(self.unsigned_wire()),
    {
        self.validate_shape(true)?;
        let empty: Vec<u8> = Vec::new();
        let unsigned = with_field(self.to_wire(), 9, binary_field(&empty));
        assert(empty@ =~= Seq::empty());
        proof {
            self.shape();
            plain_with_field(self.wire(), 9, Wire::Binary(Seq::empty()));
        }
        Ok(encode_messagepack(&unsigned))
    }

    /// Why the activation is not Idunn's for the expected incarnation, if it is not.
    pub open spec fn binding_violation(
        self,
        expected: IdunnExpectedIncarnationRecord,
        anchor: ServiceIdentityTrustAnchor,
    ) -> Option<Seq<char>> {
        first_of(
            self.violation(),
            first_of(
                expected.violation(),
                first_of(
                    unless(
                        self.expected_projection_sha256@ == canonical_digest(expected) && self.runtime_id@
                            == expected.runtime_id@,
                        "runtime activation does not bind the current Expected incarnation"@,
                    ),
                    unless(
                        first_of(
                            anchor_violation::<IdunnServiceIdentity>(anchor),
                            proof_violation::<IdunnServiceIdentity, IdunnRuntimeActivationPurpose>(
                                anchor.identity_id@,
                                anchor.public_key@,
                                messagepack_encoding(self.unsigned_wire()),
                                self.idunn_signer_identity_id@,
                                self.signature@,
                            ),
                        ) is None,
                        "verifying Idunn runtime activation signature"@,
                    ),
                ),
            ),
        )
    }

    pub fn verify_for_expected(
        &self,
        expected: &IdunnExpectedIncarnationRecord,
        idunn_anchor: &ServiceIdentityTrustAnchor,
    ) -> (outcome: Result<(), CultNetError>)
        ensures
            reports(outcome, self.binding_violation(*expected, *idunn_anchor)),
    {
        self.validate()?;
        proof {
            self.signed_is_well_shaped();
        }
        let digest = expected.canonical_sha256()?;
        ensure(
            same_text(&self.expected_projection_sha256, &digest) && same_text(
                &self.runtime_id,
                &expected.runtime_id,
            ),
            "runtime activation does not bind the current Expected incarnation",
        )?;
        let payload = self.unsigned_signature_payload()?;
        let proof = ServiceIdentitySignature {
            identity_id: self.idunn_signer_identity_id.clone(),
            signature: copy_bytes(&self.signature),
        };
        let verified = verify_service_identity_signature::<
            IdunnServiceIdentity,
            IdunnRuntimeActivationPurpose,
        >(idunn_anchor, &payload, &proof);
        ensure(verified.is_ok(), "verifying Idunn runtime activation signature")
    }

    pub fn validate(&self) -> (outcome: Result<(), CultNetError>)
        ensures
            reports(outcome, self.violation()),
    {
        self.validate_shape(false)
    }

    fn validate_shape(&self, allow_unsigned: bool) -> (outcome: Result<(), CultNetError>)
        ensures
            reports(outcome, self.shape_violation(allow_unsigned)),
    {
        reveal(IdunnRuntimeActivationRecord::shape_violation);
        ensure(
            same_text(&self.schema_version, IDUNN_RUNTIME_ACTIVATION_SCHEMA),
            "runtime activation schema is unsupported",
        )?;
        check_sha256(&self.expected_projection_sha256, "activation expected projection sha256")?;
        check_authority(&self.runtime_id, "activation runtime id")?;
        check_sha256(&self.runtime_instance_id, "runtime instance id")?;
        check_authority(&self.activation_signer_identity_id, "activation signer identity id")?;
        let identity = derive_idunn_runtime_activation_identity_id(&self.activation_signer_public_key)?;
        ensure(
            same_text(&self.activation_signer_identity_id, &identity),
            "runtime activation signer identity does not match its public key",
        )?;
        check_authority(&self.idunn_signer_identity_id, "Idunn activation signer identity id")?;
        let signature_is_valid = self.signature.len() == 64 || (allow_unsigned && self.signature.len() == 0);
        ensure(
            self.issued_at_unix_millis != 0 && same_text(&self.signature_algorithm, "ed25519")
                && signature_is_valid,
            "runtime activation issue time or signature is invalid",
        )
    }
}

// ---------------------------------------------------------------------------
// Launches
// ---------------------------------------------------------------------------

/// Idunn's one-shot launch material. Issuance always creates a fresh key, and
/// writing the protected credential consumes the only Idunn-side signer.
pub struct IdunnRuntimeActivationLaunch {
    activation: IdunnRuntimeActivationRecord,
    signer: IdunnRuntimeActivationSigner,
}

impl IdunnRuntimeActivationLaunch {
    /// The activation that is launched.
    pub closed spec fn issued(self) -> IdunnRuntimeActivationRecord {
        self.activation
    }

    /// The seed of the activation's key.
    pub closed spec fn private_seed(self) -> Seq<u8> {
        self.signer.private_seed()
    }

    pub fn issue(
        expected: &IdunnExpectedIncarnationRecord,
        runtime_instance_id: String,
        issued_at_unix_millis: u64,
        idunn_signer: &ServiceIdentitySigner<IdunnServiceIdentity>,
    ) -> (outcome: Result<Self, CultNetError>)
        ensures
            reports(
                outcome,
                IdunnRuntimeActivationRecord::issue_violation(
                    *expected,
                    runtime_instance_id@,
                    issued_at_unix_millis,
                    idunn_signer.private_entry().identity_id@,
                ),
            ),
            outcome matches Ok(launch) ==> {
                &&& launch.issued().violation() is None
                &&& launch.issued().is_issued_for(
                    *expected,
                    runtime_instance_id@,
                    ed25519_public_key(launch.private_seed()),
                    issued_at_unix_millis,
                    idunn_signer.private_entry().identity_id@,
                )
                &&& idunn_signer.well_formed() ==> proof_violation::<
                    IdunnServiceIdentity,
                    IdunnRuntimeActivationPurpose,
                >(
                    idunn_signer.private_entry().identity_id@,
                    idunn_signer.private_entry().public_key@,
                    messagepack_encoding(launch.issued().unsigned_wire()),
                    launch.issued().idunn_signer_identity_id@,
                    launch.issued().signature@,
                ) is None
            },
    {
        let signer = IdunnRuntimeActivationSigner::generate();
        let activation = IdunnRuntimeActivationRecord::issue_with_signer(
            expected,
            runtime_instance_id,
            &signer,
            issued_at_unix_millis,
            idunn_signer,
        )?;
        Ok(IdunnRuntimeActivationLaunch { activation, signer })
    }

    pub fn activation(&self) -> (activation: &IdunnRuntimeActivationRecord)
        ensures
            *activation == self.issued(),
    {
        &self.activation
    }

    /// Appends the credential, the raw seed, to the destination.
    pub fn write_credential(self, destination: &mut Vec<u8>) -> (outcome: Result<
        IdunnRuntimeActivationRecord,
        CultNetError,
    >)
        ensures
            outcome == Ok::<IdunnRuntimeActivationRecord, CultNetError>(self.issued()),
            final(destination)@ == old(destination)@ + self.private_seed(),
    {
        self.signer.write_credential(destination);
        Ok(self.activation)
    }
}

/// What Idunn issues for an expected incarnation verifies for it under Idunn's trust
/// anchor, and for no other expected digest or runtime.
pub proof fn an_issued_activation_verifies_for_its_incarnation(
    activation: IdunnRuntimeActivationRecord,
    expected: IdunnExpectedIncarnationRecord,
    runtime_instance_id: Seq<char>,
    activation_key: Seq<u8>,
    issued_at: u64,
    signer: ServiceIdentitySigner<IdunnServiceIdentity>,
    anchor: ServiceIdentityTrustAnchor,
)
    requires
        signer.well_formed(),
        crate::service_identity::is_anchor_of::<IdunnServiceIdentity>(anchor, signer.private_entry()),
        expected.violation() is None,
        activation.violation() is None,
        activation.is_issued_for(
            expected,
            runtime_instance_id,
            activation_key,
            issued_at,
            signer.private_entry().identity_id@,
        ),
        proof_violation::<IdunnServiceIdentity, IdunnRuntimeActivationPurpose>(
            signer.private_entry().identity_id@,
            signer.private_entry().public_key@,
            messagepack_encoding(activation.unsigned_wire()),
            activation.idunn_signer_identity_id@,
            activation.signature@,
        ) is None,
    ensures
        activation.binding_violation(expected, anchor) is None,
        forall|other: IdunnExpectedIncarnationRecord|
            canonical_digest(other) != canonical_digest(expected) ==> (#[trigger] activation.binding_violation(
                other,
                anchor,
            )) is Some,
{
}

}

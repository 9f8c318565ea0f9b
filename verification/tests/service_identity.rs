use cultnet::service_identity::{LINUX_PROTECTOR_KIND, open_private_entry};
use cultnet::{
    CultCacheEnvelope, CultNetError, GameCultProviderHealthIdentity,
    IdunnAuthenticatedProviderHealthProjectionPurpose, IdunnServiceIdentity,
    IdunnSignedDaemonHealthPurpose, LINUX_SERVICE_IDENTITY_ASSURANCE, ServiceIdentityProfile,
    ServiceIdentitySignature, ServiceSignaturePurpose, derive_service_identity_id,
    enroll_service_identity, enroll_service_identity_with, export_service_identity_trust_anchor,
    open_service_identity, private_envelope, verify_service_identity_signature,
    verify_service_identity_signature_with_public_key,
};

const MACHINE_ID: &str = "5f0c8d3a9b7e4c1d8a6f2b3c4d5e6f70";

type Result<T> = std::result::Result<T, CultNetError>;

enum OtherPurpose {}

impl ServiceSignaturePurpose<IdunnServiceIdentity> for OtherPurpose {
    const PURPOSE: &'static str = "idunn.other.v1";
}

enum Alien {}

impl ServiceIdentityProfile for Alien {
    const PRIVATE_TYPE: &'static str = "alien.private.v1";
    const PRIVATE_SCHEMA: &'static str = "alien.private.v1";
    const PRIVATE_KEY: &'static str = "alien";
    const TRUST_ANCHOR_TYPE: &'static str = "alien.anchor.v1";
    const TRUST_ANCHOR_SCHEMA: &'static str = "alien.anchor.v1";
    const TRUST_ANCHOR_KEY: &'static str = "alien-public";
    const ID_DOMAIN: &'static str = "alien.id\0";
    const SIGNATURE_DOMAIN: &'static str = "alien.sig\0";
    const PROTECTOR_CONTEXT: &'static str = "alien-v1";
}

#[test]
fn immutable_enrollment_reopens_and_is_purpose_and_payload_bound() -> Result<()> {
    let signer = enroll_service_identity::<IdunnServiceIdentity>(MACHINE_ID)?;
    let store = vec![private_envelope::<IdunnServiceIdentity>(signer.entry())];
    let proof = signer.sign::<IdunnAuthenticatedProviderHealthProjectionPurpose>(b"healthy");
    let anchor = signer.trust_anchor()?;
    verify_service_identity_signature::<
        IdunnServiceIdentity,
        IdunnAuthenticatedProviderHealthProjectionPurpose,
    >(&anchor, b"healthy", &proof)?;
    assert!(
        verify_service_identity_signature::<
            IdunnServiceIdentity,
            IdunnAuthenticatedProviderHealthProjectionPurpose,
        >(&anchor, b"unhealthy", &proof)
        .is_err()
    );
    assert!(
        verify_service_identity_signature::<IdunnServiceIdentity, OtherPurpose>(
            &anchor, b"healthy", &proof
        )
        .is_err()
    );
    // A store that was enrolled into twice is no store of one immutable envelope.
    let again = enroll_service_identity::<IdunnServiceIdentity>(MACHINE_ID)?;
    let twice = vec![
        private_envelope::<IdunnServiceIdentity>(signer.entry()),
        private_envelope::<IdunnServiceIdentity>(again.entry()),
    ];
    assert!(open_service_identity::<IdunnServiceIdentity>(&twice, MACHINE_ID).is_err());
    assert_eq!(
        derive_service_identity_id::<IdunnServiceIdentity>(&anchor.public_key)?,
        anchor.identity_id
    );
    assert!(derive_service_identity_id::<IdunnServiceIdentity>(&[0; 31]).is_err());
    assert_eq!(
        open_service_identity::<IdunnServiceIdentity>(&store, MACHINE_ID)?.entry(),
        signer.entry()
    );
    Ok(())
}

#[test]
fn malformed_or_profile_substituted_state_fails_closed_without_replacement() -> Result<()> {
    let signer = enroll_service_identity::<IdunnServiceIdentity>(MACHINE_ID)?;
    let good = vec![private_envelope::<IdunnServiceIdentity>(signer.entry())];
    let malformed = vec![CultCacheEnvelope {
        key: good[0].key.clone(),
        entry_type: good[0].entry_type.clone(),
        payload: b"rot".to_vec(),
        stored_at: good[0].stored_at.clone(),
        schema_id: good[0].schema_id.clone(),
    }];
    let before = malformed[0].payload.clone();
    assert!(open_service_identity::<IdunnServiceIdentity>(&malformed, MACHINE_ID).is_err());
    assert_eq!(before, malformed[0].payload);
    assert!(open_service_identity::<Alien>(&good, MACHINE_ID).is_err());
    Ok(())
}

#[test]
fn exported_anchor_is_public_only_immutable_and_rejects_identity_substitution() -> Result<()> {
    let signer = enroll_service_identity::<IdunnServiceIdentity>(MACHINE_ID)?;
    let (anchor, written) = export_service_identity_trust_anchor(&signer, &Vec::new())?;
    let output = vec![written.unwrap()];
    let bytes = output[0].payload.clone();
    assert!(
        !bytes
            .windows(signer.entry().protected_private_seed.len())
            .any(|w| w == signer.entry().protected_private_seed)
    );
    let (_, rewritten) = export_service_identity_trust_anchor(&signer, &output)?;
    assert_eq!(rewritten, None);
    let other = enroll_service_identity::<IdunnServiceIdentity>(MACHINE_ID)?;
    assert!(export_service_identity_trust_anchor(&other, &output).is_err());
    let proof = other.sign::<IdunnAuthenticatedProviderHealthProjectionPurpose>(b"healthy");
    assert!(
        verify_service_identity_signature::<
            IdunnServiceIdentity,
            IdunnAuthenticatedProviderHealthProjectionPurpose,
        >(&anchor, b"healthy", &proof)
        .is_err()
    );
    Ok(())
}

#[test]
fn provider_health_profile_is_domain_separated_and_purpose_bound() -> Result<()> {
    let signer = enroll_service_identity::<GameCultProviderHealthIdentity>(MACHINE_ID)?;
    let proof = signer.sign::<IdunnSignedDaemonHealthPurpose>(b"signed-health-record");
    let anchor = signer.trust_anchor()?;
    verify_service_identity_signature::<
        GameCultProviderHealthIdentity,
        IdunnSignedDaemonHealthPurpose,
    >(&anchor, b"signed-health-record", &proof)?;
    verify_service_identity_signature_with_public_key::<
        GameCultProviderHealthIdentity,
        IdunnSignedDaemonHealthPurpose,
    >(&anchor.public_key, b"signed-health-record", &proof)?;
    assert_eq!(
        anchor.schema_version,
        "gamecult.provider_health_identity.trust_anchor.v1"
    );
    assert_ne!(
        derive_service_identity_id::<GameCultProviderHealthIdentity>(&anchor.public_key)?,
        derive_service_identity_id::<IdunnServiceIdentity>(&anchor.public_key)?
    );
    Ok(())
}

#[test]
fn an_enrollment_from_a_known_seed_is_exact() -> Result<()> {
    // The first test vector of RFC 8032: this seed has this public key.
    let seed: [u8; 32] = [
        0x9d, 0x61, 0xb1, 0x9d, 0xef, 0xfd, 0x5a, 0x60, 0xba, 0x84, 0x4a, 0xf4, 0x92, 0xec, 0x2c,
        0xc4, 0x44, 0x49, 0xc5, 0x69, 0x7b, 0x32, 0x69, 0x19, 0x70, 0x3b, 0xac, 0x03, 0x1c, 0xae,
        0x7f, 0x60,
    ];
    let public_key: [u8; 32] = [
        0xd7, 0x5a, 0x98, 0x01, 0x82, 0xb1, 0x0a, 0xb7, 0xd5, 0x4b, 0xfe, 0xd3, 0xc9, 0x64, 0x07,
        0x3a, 0x0e, 0xe1, 0x72, 0xf3, 0xda, 0xa6, 0x23, 0x25, 0xaf, 0x02, 0x1a, 0x68, 0xf7, 0x07,
        0x51, 0x1a,
    ];
    let signer = enroll_service_identity_with::<IdunnServiceIdentity>(
        seed,
        [7; 32],
        MACHINE_ID,
        "2026-09-02T00:00:00+00:00",
    )?;
    let entry = signer.entry();
    assert_eq!(entry.public_key, public_key.to_vec());
    assert_eq!(entry.enrollment_nonce, vec![7; 32]);
    assert_eq!(entry.protector_kind, LINUX_PROTECTOR_KIND);
    assert_eq!(entry.assurance, LINUX_SERVICE_IDENTITY_ASSURANCE);
    assert_eq!(entry.created_at, "2026-09-02T00:00:00+00:00");
    assert_ne!(entry.protected_private_seed, seed.to_vec());
    assert_eq!(entry.protected_private_seed.len(), 32);
    let opened = open_private_entry::<IdunnServiceIdentity>(entry.clone(), MACHINE_ID)?;
    assert_eq!(
        opened.sign::<OtherPurpose>(b"payload"),
        signer.sign::<OtherPurpose>(b"payload")
    );
    Ok(())
}

#[test]
fn enrollment_refuses_an_empty_machine_id_and_an_unreadable_time() {
    let refused = |machine_id: &str, created_at: &str| {
        enroll_service_identity_with::<IdunnServiceIdentity>(
            [1; 32],
            [2; 32],
            machine_id,
            created_at,
        )
        .err()
        .unwrap()
        .message()
        .to_string()
    };
    assert_eq!(refused(" \n", "2026-09-02T00:00:00Z"), "Linux machine-id is empty");
    assert_eq!(
        refused(MACHINE_ID, "the day before yesterday"),
        "service identity created_at is not RFC3339"
    );
    assert_eq!(
        enroll_service_identity::<IdunnServiceIdentity>("").err().unwrap().message(),
        "Linux machine-id is empty"
    );
}

#[test]
fn every_way_to_spoil_a_stored_identity_is_refused() -> Result<()> {
    let signer = enroll_service_identity_with::<IdunnServiceIdentity>(
        [1; 32],
        [2; 32],
        MACHINE_ID,
        "2026-09-02T00:00:00Z",
    )?;
    let refusal = |store: &Vec<CultCacheEnvelope>, machine_id: &str| {
        open_service_identity::<IdunnServiceIdentity>(store, machine_id)
            .err()
            .unwrap()
            .message()
            .to_string()
    };
    let good = private_envelope::<IdunnServiceIdentity>(signer.entry());
    assert_eq!(
        refusal(&Vec::new(), MACHINE_ID),
        "service identity store must contain exactly one immutable envelope"
    );
    let mut foreign = good.clone();
    foreign.key = "alien".into();
    assert_eq!(
        refusal(&vec![foreign], MACHINE_ID),
        "service identity store belongs to a different profile or schema"
    );
    let mut rotten = good.clone();
    rotten.payload = vec![0xc1];
    assert_eq!(
        refusal(&vec![rotten], MACHINE_ID),
        "service identity private payload is malformed MessagePack"
    );
    assert_eq!(
        refusal(&vec![good], "another-machine"),
        "service identity protector binding does not match this OS installation or profile"
    );

    let mut entry = signer.entry().clone();
    entry.protector_kind = "windows_dpapi_current_user".into();
    assert_eq!(
        refusal(&vec![private_envelope::<IdunnServiceIdentity>(&entry)], MACHINE_ID),
        "service identity protector does not belong to this platform implementation"
    );
    let mut entry = signer.entry().clone();
    entry.protected_private_seed.pop();
    assert_eq!(
        refusal(&vec![private_envelope::<IdunnServiceIdentity>(&entry)], MACHINE_ID),
        "protected Linux service seed has invalid length"
    );
    let mut entry = signer.entry().clone();
    entry.protected_private_seed[0] ^= 1;
    assert_eq!(
        refusal(&vec![private_envelope::<IdunnServiceIdentity>(&entry)], MACHINE_ID),
        "service identity private seed does not match enrolled public key"
    );
    Ok(())
}

#[test]
fn proofs_that_name_another_identity_or_have_another_length_are_refused() -> Result<()> {
    let signer = enroll_service_identity::<IdunnServiceIdentity>(MACHINE_ID)?;
    let anchor = signer.trust_anchor()?;
    let proof = signer.sign::<OtherPurpose>(b"payload");
    let refusal = |proof: &ServiceIdentitySignature| {
        verify_service_identity_signature::<IdunnServiceIdentity, OtherPurpose>(
            &anchor, b"payload", proof,
        )
        .err()
        .unwrap()
        .message()
        .to_string()
    };
    let mut renamed = proof.clone();
    renamed.identity_id = "someone-else".into();
    assert_eq!(
        refusal(&renamed),
        "service identity signature names a different identity"
    );
    let mut shortened = proof.clone();
    shortened.signature.pop();
    assert_eq!(
        refusal(&shortened),
        "service identity signature has invalid length"
    );
    let mut altered = proof.clone();
    altered.signature[0] ^= 1;
    assert_eq!(
        refusal(&altered),
        "service identity signature verification failed"
    );
    Ok(())
}

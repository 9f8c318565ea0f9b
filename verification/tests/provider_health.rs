use cultnet::{
    CultNetError, GAMECULT_SERVICE_TRUST_ANCHOR_SCHEMA, GameCultServiceTrustAnchorRecord,
    IDUNN_AUTHENTICATED_PROVIDER_HEALTH_PROJECTION_SCHEMA,
    IDUNN_AUTHENTICATED_PROVIDER_HEALTH_PROJECTION_SIGNING_PURPOSE, IDUNN_PROVIDER_ACTIVE_REASON,
    IDUNN_SIGNED_DAEMON_HEALTH_SCHEMA, IdunnAuthenticatedProviderHealthProjectionRecord,
    IdunnServiceIdentity, IdunnSignedDaemonHealthRecord, Record,
    authenticated_provider_health_reason_code, decode_messagepack, derive_service_identity_id,
    record_bytes,
};

type Result<T> = std::result::Result<T, CultNetError>;

fn read_record<R: Record>(bytes: &[u8]) -> R {
    R::from_wire(&decode_messagepack(bytes).unwrap()).unwrap()
}

fn signed_health() -> IdunnSignedDaemonHealthRecord {
    IdunnSignedDaemonHealthRecord {
        schema_version: IDUNN_SIGNED_DAEMON_HEALTH_SCHEMA.into(),
        daemon_id: "epiphany".into(),
        health_contract: "epiphany.cultnet-rudp-runtime-health".into(),
        source_runtime_id: "epiphany-yggdrasil".into(),
        state: "active".into(),
        detail: "managed-services-current".into(),
        signer_identity_id: "provider-signing-key".into(),
        publisher_incarnation_id: "9c2cba2e-c2de-4750-b222-b732f97d0435".into(),
        publisher_sequence: 1,
        observed_at_unix_millis: 100,
        release_id: Some("release-1".into()),
        release_witness_sha256: Some(format!("sha256-{}", "d".repeat(64))),
        source_commit: Some("e".repeat(40)),
        deployment_id: Some("deployment-1".into()),
        signature_algorithm: "ed25519".into(),
        signature: vec![6; 64],
        private_state_exposed: false,
    }
}

fn anchor() -> GameCultServiceTrustAnchorRecord {
    let public_key = vec![5; 32];
    GameCultServiceTrustAnchorRecord {
        schema_version: GAMECULT_SERVICE_TRUST_ANCHOR_SCHEMA.into(),
        trust_anchor_id: "root/idunn/provider-health".into(),
        service_id: "idunn".into(),
        runtime_id: "idunn-yggdrasil".into(),
        signer_identity_id: derive_service_identity_id::<IdunnServiceIdentity>(&public_key)
            .unwrap(),
        signer_public_key: public_key,
        signature_algorithm: "ed25519".into(),
        signing_purpose: IDUNN_AUTHENTICATED_PROVIDER_HEALTH_PROJECTION_SIGNING_PURPOSE.into(),
        signed_schema: IDUNN_AUTHENTICATED_PROVIDER_HEALTH_PROJECTION_SCHEMA.into(),
        binding_authority: "root".into(),
        bound_at_unix_millis: 100,
        expires_at_unix_millis: Some(200),
        private_state_exposed: false,
    }
}

fn projection() -> IdunnAuthenticatedProviderHealthProjectionRecord {
    IdunnAuthenticatedProviderHealthProjectionRecord {
        schema_version: IDUNN_AUTHENTICATED_PROVIDER_HEALTH_PROJECTION_SCHEMA.into(),
        projection_id: "authenticated-provider-health:epiphany".into(),
        daemon_id: "epiphany".into(),
        health_contract: "health.v1".into(),
        provider_state: "active".into(),
        reason_code: IDUNN_PROVIDER_ACTIVE_REASON.into(),
        provider_observed_at_unix_millis: 100,
        admitted_at_unix_millis: 101,
        evaluated_at_unix_millis: 102,
        trust_binding_id: "root/epiphany".into(),
        trust_binding_sha256: format!("sha256-{}", "a".repeat(64)),
        signed_health_sha256: format!("sha256-{}", "b".repeat(64)),
        authenticated_admission_sha256: format!("sha256-{}", "c".repeat(64)),
        provider_signer_identity_id: "provider-signing-key".into(),
        provider_incarnation_id: "provider/boot/1".into(),
        provider_sequence: 1,
        release_id: Some("release-1".into()),
        release_witness_sha256: Some(format!("sha256-{}", "d".repeat(64))),
        source_commit: Some("e".repeat(40)),
        deployment_id: Some("deployment-1".into()),
        idunn_runtime_id: "idunn-yggdrasil".into(),
        idunn_signer_identity_id: "idunn-signing-key".into(),
        projection_incarnation_id: "idunn/boot/1".into(),
        projection_sequence: 1,
        signature_algorithm: "ed25519".into(),
        signature: vec![6; 64],
        private_state_exposed: false,
        expires_at_unix_millis: 200,
    }
}

#[test]
fn contracts_accept_exact_root_and_lineage_shapes() -> Result<()> {
    let anchor = anchor();
    let projection = projection();
    let health = signed_health();
    anchor.validate()?;
    projection.validate()?;
    health.validate()?;
    let encoded = record_bytes(&health);
    assert_eq!(encoded.first().copied(), Some(0xdc));
    assert_eq!(&encoded[1..3], &[0, 17]);
    assert_eq!(
        read_record::<IdunnSignedDaemonHealthRecord>(&encoded),
        health
    );
    assert_eq!(
        read_record::<GameCultServiceTrustAnchorRecord>(&record_bytes(&anchor)),
        anchor
    );
    assert_eq!(
        read_record::<IdunnAuthenticatedProviderHealthProjectionRecord>(&record_bytes(&projection)),
        projection
    );
    assert_eq!(authenticated_provider_health_reason_code("missing"), None);
    Ok(())
}

#[test]
fn contracts_refuse_substitution_and_manufactured_states() {
    let mut value = anchor();
    value.binding_authority = "idunn".into();
    assert!(value.validate().is_err());
    let mut value = anchor();
    value.signer_identity_id = "caller-selected".into();
    assert!(value.validate().is_err());
    let mut value = projection();
    value.reason_code = "release_drift".into();
    assert!(value.validate().is_err());
    let mut value = projection();
    value.provider_state = "missing".into();
    assert!(value.validate().is_err());
    let mut value = projection();
    value.deployment_id = None;
    assert!(value.validate().is_err());
    let mut value = projection();
    value.signature.clear();
    assert!(value.validate().is_err());
    let mut value = projection();
    value.signed_health_sha256 = format!("sha256-{}", "A".repeat(64));
    assert!(value.validate().is_err());
    let mut value = signed_health();
    value.publisher_sequence = 0;
    assert!(value.validate().is_err());
    let mut value = signed_health();
    value.release_witness_sha256 = None;
    assert!(value.validate().is_err());
    let mut value = signed_health();
    value.private_state_exposed = true;
    assert!(value.validate().is_err());
}

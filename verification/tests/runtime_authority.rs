use cultnet::runtime_authority_contracts::topology::correlate_capabilities;
use cultnet::{
    AuthenticatedOdinRuntimeTopologyCorrelation, AuthenticatedRuntimePresenceClaim, CultNetError,
    GAMECULT_RUNTIME_PRESENCE_HEALTH_SCHEMA, GAMECULT_RUNTIME_PRESENCE_HEALTH_SIGNING_PURPOSE,
    GAMECULT_SERVICE_TRUST_ANCHOR_SCHEMA, GameCultProviderHealthIdentity, GameCultRuntimeCapability,
    GameCultRuntimePresenceHealthPurpose, GameCultRuntimePresenceHealthRecord,
    GameCultServiceTrustAnchorRecord, IDUNN_EXPECTED_INCARNATION_SCHEMA,
    IDUNN_PROCESS_WRITE_LEASE_SCHEMA, IDUNN_RUNTIME_ACTIVATION_SCHEMA,
    IDUNN_SIGNED_DAEMON_HEALTH_SCHEMA, IdunnExpectedCapability, IdunnExpectedDependency,
    IdunnExpectedIncarnationRecord, IdunnExpectedRoute, IdunnProcessWriteLeaseRecord,
    IdunnRuntimeActivationLaunch, IdunnRuntimeActivationRecord, IdunnRuntimeActivationSigner,
    IdunnServiceIdentity, ODIN_RUNTIME_TOPOLOGY_CORRELATION_SCHEMA,
    ODIN_RUNTIME_TOPOLOGY_CORRELATION_SIGNING_PURPOSE, OdinRuntimeDependencyEvidence,
    OdinRuntimeTopologyCorrelationPurpose, OdinRuntimeTopologyCorrelationRecord,
    OdinTopologyAuthenticationContext, OdinTopologyDisagreement, OdinTopologyIdentity, Record,
    RuntimePresenceAuthenticationContext, RuntimePresenceCorrelation, ServiceIdentitySignature,
    ServiceIdentitySigner, ServiceIdentityTrustAnchor, ServiceSignaturePurpose,
    VerifiedRuntimeAuthority, VerifiedRuntimePresence, WireValue,
    authenticate_odin_runtime_topology_correlation, authenticate_runtime_presence_claim,
    correlate_runtime_presence_claim, decode_messagepack, derive_service_identity_id,
    encode_messagepack, enroll_service_identity, messagepack_array_len, prefixed_sha256,
    record_bytes, verify_runtime_authority, verify_service_identity_signature,
};

const MACHINE_ID: &str = "5f0c8d3a9b7e4c1d8a6f2b3c4d5e6f70";

type Result<T> = std::result::Result<T, CultNetError>;

fn read_record<R: Record>(bytes: &[u8]) -> R {
    R::from_wire(&decode_messagepack(bytes).unwrap()).unwrap()
}

struct WrongOdinTopologyPurpose;

impl ServiceSignaturePurpose<OdinTopologyIdentity> for WrongOdinTopologyPurpose {
    const PURPOSE: &'static str = "odin.not-runtime-topology-correlation.v1";
}

fn digest(byte: char) -> String {
    format!("sha256-{}", byte.to_string().repeat(64))
}

fn runtime_capability(name: &str) -> GameCultRuntimeCapability {
    GameCultRuntimeCapability {
        capability: name.into(),
        schema: format!("{name}.v1"),
        compatibility: "v1".into(),
        capacity: 1,
    }
}

fn expected_capability(name: &str) -> IdunnExpectedCapability {
    IdunnExpectedCapability {
        capability: name.into(),
        schema: format!("{name}.v1"),
        compatibility: "v1".into(),
        minimum_capacity: 1,
    }
}

fn runtime_presence() -> GameCultRuntimePresenceHealthRecord {
    GameCultRuntimePresenceHealthRecord {
        schema_version: GAMECULT_RUNTIME_PRESENCE_HEALTH_SCHEMA.into(),
        target: "ghostlight".into(),
        expected_projection_sha256: digest('9'),
        plan_id: digest('e'),
        incarnation_id: "ghostlight/2026-09-02/1".into(),
        sealed_release_id: digest('f'),
        activation_witness_sha256: digest('a'),
        state_schema_generation: Some("world-v2".into()),
        state_contract_sha256: Some(digest('b')),
        runtime_id: "ghostlight-yggdrasil-1".into(),
        runtime_instance_id: digest('8'),
        bound_endpoint: Some("http://127.0.0.1:14103".into()),
        capabilities: vec![
            runtime_capability("conversation"),
            runtime_capability("state"),
        ],
        health_contract: "ghostlight.runtime-health.v1".into(),
        state: "active".into(),
        detail: "ready".into(),
        write_lease_sha256: Some(digest('c')),
        signer_identity_id: "provider-signing-key".into(),
        publisher_sequence: 1,
        observed_at_unix_millis: 100,
        signature_algorithm: "ed25519".into(),
        signature: vec![6; 64],
        activation_signer_identity_id: "activation-signing-key".into(),
        activation_signature: vec![7; 64],
    }
}

fn runtime_activation() -> IdunnRuntimeActivationRecord {
    let signer = IdunnRuntimeActivationSigner::from_credential_reader(&[8; 32][..]).unwrap();
    IdunnRuntimeActivationRecord {
        schema_version: IDUNN_RUNTIME_ACTIVATION_SCHEMA.into(),
        expected_projection_sha256: digest('9'),
        runtime_id: "ghostlight-yggdrasil-1".into(),
        runtime_instance_id: digest('8'),
        activation_signer_identity_id: signer.identity_id(),
        activation_signer_public_key: signer.public_key(),
        issued_at_unix_millis: 99,
        idunn_signer_identity_id: "idunn-signing-key".into(),
        signature_algorithm: "ed25519".into(),
        signature: vec![5; 64],
    }
}

fn process_write_lease() -> IdunnProcessWriteLeaseRecord {
    IdunnProcessWriteLeaseRecord {
        schema_version: IDUNN_PROCESS_WRITE_LEASE_SCHEMA.into(),
        target: "ghostlight".into(),
        expected_projection_sha256: digest('9'),
        plan_id: digest('e'),
        incarnation_id: "ghostlight/2026-09-02/1".into(),
        sealed_release_id: digest('f'),
        activation_witness_sha256: digest('a'),
        state_schema_generation: "world-v2".into(),
        state_contract_sha256: digest('b'),
        runtime_id: "ghostlight-yggdrasil-1".into(),
        runtime_instance_id: digest('8'),
        warming_presence_sha256: digest('d'),
        lease_epoch: 1,
        issued_at_unix_millis: 101,
    }
}

fn expected_dependency(
    kind: &str,
    capability: &str,
    provider_id: Option<&str>,
) -> IdunnExpectedDependency {
    IdunnExpectedDependency {
        kind: kind.into(),
        capability: capability.into(),
        schema: format!("{capability}.v1"),
        compatibility: "v1".into(),
        minimum_capacity: 1,
        startup: if kind == "bootstrap" {
            "before-start".into()
        } else {
            "before-promotion".into()
        },
        provider_id: provider_id.map(str::to_string),
        provider_authority: provider_id.map(|_| "managed-incarnation".into()),
        provider_expected_projection_sha256: provider_id.map(|_| digest('1')),
        provider_endpoint: provider_id.map(|_| "tcp://127.0.0.1:14100".into()),
    }
}

fn expected_incarnation() -> IdunnExpectedIncarnationRecord {
    IdunnExpectedIncarnationRecord {
        schema_version: IDUNN_EXPECTED_INCARNATION_SCHEMA.into(),
        target: "ghostlight".into(),
        plan_id: digest('2'),
        incarnation_id: "ghostlight/2026-09-02/1".into(),
        sealed_release_id: digest('3'),
        source_repository: "github.com/GameCult/Ghostlight".into(),
        source_revision: "4".repeat(40),
        recipe_sha256: digest('5'),
        runtime_id: "ghostlight-yggdrasil-1".into(),
        expected_signer_identity_id: "ghostlight-provider-signing-key".into(),
        health_contract: "ghostlight.runtime-health.v1".into(),
        artifact_sha256: digest('6'),
        state_schema_generation: Some("world-v2".into()),
        state_contract_sha256: Some(digest('7')),
        write_lease_required: true,
        route: Some(IdunnExpectedRoute {
            route_id: "ghostlight-public".into(),
            transport: "http".into(),
            stable_endpoint: "https://ghostlight.gamecult.net".into(),
            candidate_endpoint: "http://127.0.0.1:14103".into(),
        }),
        capabilities: vec![
            expected_capability("conversation"),
            expected_capability("state"),
        ],
        dependencies: vec![
            expected_dependency("shared-infrastructure", "rendezvous", Some("odin-ygg-1")),
            expected_dependency("optional", "telemetry", None),
        ],
    }
}

fn dependency_evidence(requirement: &IdunnExpectedDependency) -> OdinRuntimeDependencyEvidence {
    let selected = requirement.provider_id.is_some();
    OdinRuntimeDependencyEvidence {
        kind: requirement.kind.clone(),
        capability: requirement.capability.clone(),
        schema: requirement.schema.clone(),
        compatibility: requirement.compatibility.clone(),
        provider_id: requirement.provider_id.clone(),
        provider_authority: requirement.provider_authority.clone(),
        provider_expected_projection_sha256: requirement
            .provider_expected_projection_sha256
            .clone(),
        provider_endpoint: requirement.provider_endpoint.clone(),
        observed_capacity: selected.then_some(1),
        provider_evidence_sha256: selected.then(|| digest('8')),
        ready: selected,
    }
}

fn topology_correlation(
    expected: &IdunnExpectedIncarnationRecord,
) -> OdinRuntimeTopologyCorrelationRecord {
    OdinRuntimeTopologyCorrelationRecord {
        schema_version: ODIN_RUNTIME_TOPOLOGY_CORRELATION_SCHEMA.into(),
        target: expected.target.clone(),
        expected_projection_sha256: expected.canonical_sha256().unwrap(),
        expected: true,
        current_activation_sha256: Some(digest('9')),
        signed_presence_sha256: Some(digest('a')),
        observed_presence_state: Some("active".into()),
        observed_presence_publisher_sequence: Some(1),
        observed_write_lease_sha256: Some(digest('c')),
        observed_capabilities: expected
            .capabilities
            .iter()
            .map(|capability| GameCultRuntimeCapability {
                capability: capability.capability.clone(),
                schema: capability.schema.clone(),
                compatibility: capability.compatibility.clone(),
                capacity: capability.minimum_capacity,
            })
            .collect(),
        runtime_id: expected.runtime_id.clone(),
        runtime_instance_id: Some(digest('b')),
        present: true,
        ready: true,
        dependencies: expected
            .dependencies
            .iter()
            .map(dependency_evidence)
            .collect(),
        disagreements: vec![],
        signer_identity_id: "odin-topology-signing-key".into(),
        publisher_sequence: 1,
        observed_at_unix_millis: 102,
        signature_algorithm: "ed25519".into(),
        signature: vec![7; 64],
    }
}

fn validate_against_current_lease(
    receipt: &OdinRuntimeTopologyCorrelationRecord,
    expected: &IdunnExpectedIncarnationRecord,
) -> Result<()> {
    let current_lease = digest('c');
    receipt.validate_against_expected(expected, Some(&current_lease))
}

fn topology_anchor() -> GameCultServiceTrustAnchorRecord {
    let public_key = vec![9; 32];
    GameCultServiceTrustAnchorRecord {
        schema_version: GAMECULT_SERVICE_TRUST_ANCHOR_SCHEMA.into(),
        trust_anchor_id: "root/odin/runtime-topology".into(),
        service_id: "odin".into(),
        runtime_id: "odin-yggdrasil-1".into(),
        signer_identity_id: derive_service_identity_id::<OdinTopologyIdentity>(&public_key)
            .unwrap(),
        signer_public_key: public_key,
        signature_algorithm: "ed25519".into(),
        signing_purpose: ODIN_RUNTIME_TOPOLOGY_CORRELATION_SIGNING_PURPOSE.into(),
        signed_schema: ODIN_RUNTIME_TOPOLOGY_CORRELATION_SCHEMA.into(),
        binding_authority: "root".into(),
        bound_at_unix_millis: 100,
        expires_at_unix_millis: Some(200),
        private_state_exposed: false,
    }
}

fn runtime_presence_anchor() -> GameCultServiceTrustAnchorRecord {
    let public_key = vec![7; 32];
    GameCultServiceTrustAnchorRecord {
        schema_version: GAMECULT_SERVICE_TRUST_ANCHOR_SCHEMA.into(),
        trust_anchor_id: "root/ghostlight/runtime-presence".into(),
        service_id: "ghostlight".into(),
        runtime_id: "ghostlight-yggdrasil-1".into(),
        signer_identity_id: derive_service_identity_id::<GameCultProviderHealthIdentity>(
            &public_key,
        )
        .unwrap(),
        signer_public_key: public_key,
        signature_algorithm: "ed25519".into(),
        signing_purpose: GAMECULT_RUNTIME_PRESENCE_HEALTH_SIGNING_PURPOSE.into(),
        signed_schema: GAMECULT_RUNTIME_PRESENCE_HEALTH_SCHEMA.into(),
        binding_authority: "root".into(),
        bound_at_unix_millis: 100,
        expires_at_unix_millis: Some(200),
        private_state_exposed: false,
    }
}

struct DualProofFixture {
    stable_signer: ServiceIdentitySigner<GameCultProviderHealthIdentity>,
    activation_signer: IdunnRuntimeActivationSigner,
    odin_signer: ServiceIdentitySigner<OdinTopologyIdentity>,
    idunn_anchor: ServiceIdentityTrustAnchor,
    stable_public_key: Vec<u8>,
    odin_anchor: GameCultServiceTrustAnchorRecord,
    expected: IdunnExpectedIncarnationRecord,
    activation: IdunnRuntimeActivationRecord,
    presence: GameCultRuntimePresenceHealthRecord,
}

fn dual_proof_fixture() -> Result<DualProofFixture> {
    let stable_signer =
        enroll_service_identity::<GameCultProviderHealthIdentity>(MACHINE_ID)?;
    let stable_public = stable_signer.trust_anchor()?;
    let idunn_signer = enroll_service_identity::<IdunnServiceIdentity>(MACHINE_ID)?;
    let idunn_anchor = idunn_signer.trust_anchor()?;
    let odin_signer = enroll_service_identity::<OdinTopologyIdentity>(MACHINE_ID)?;
    let odin_public = odin_signer.trust_anchor()?;
    let mut expected = expected_incarnation();
    expected.expected_signer_identity_id = stable_public.identity_id.clone();
    expected.capabilities[0].minimum_capacity = 2;
    let launch =
        IdunnRuntimeActivationLaunch::issue(&expected, digest('8'), 99, &idunn_signer)?;
    let activation = launch.activation().clone();
    let mut activation_credential = Vec::new();
    assert_eq!(
        launch.write_credential(&mut activation_credential)?,
        activation
    );
    let activation_signer =
        IdunnRuntimeActivationSigner::from_credential_reader(&activation_credential[..])?;

    let stable_public_key = stable_public.public_key.clone();
    let odin_anchor = GameCultServiceTrustAnchorRecord {
        schema_version: GAMECULT_SERVICE_TRUST_ANCHOR_SCHEMA.into(),
        trust_anchor_id: "root/odin/runtime-topology".into(),
        service_id: "odin".into(),
        runtime_id: "odin-yggdrasil-1".into(),
        signer_identity_id: odin_public.identity_id,
        signer_public_key: odin_public.public_key,
        signature_algorithm: "ed25519".into(),
        signing_purpose: ODIN_RUNTIME_TOPOLOGY_CORRELATION_SIGNING_PURPOSE.into(),
        signed_schema: ODIN_RUNTIME_TOPOLOGY_CORRELATION_SCHEMA.into(),
        binding_authority: "root".into(),
        bound_at_unix_millis: 1,
        expires_at_unix_millis: Some(1_000),
        private_state_exposed: false,
    };

    let mut presence = runtime_presence();
    presence.target = expected.target.clone();
    presence.plan_id = expected.plan_id.clone();
    presence.incarnation_id = expected.incarnation_id.clone();
    presence.sealed_release_id = expected.sealed_release_id.clone();
    presence.state_schema_generation = expected.state_schema_generation.clone();
    presence.state_contract_sha256 = expected.state_contract_sha256.clone();
    presence.bound_endpoint = expected
        .route
        .as_ref()
        .map(|route| route.candidate_endpoint.clone());
    presence.capabilities = expected
        .capabilities
        .iter()
        .map(|capability| GameCultRuntimeCapability {
            capability: capability.capability.clone(),
            schema: capability.schema.clone(),
            compatibility: capability.compatibility.clone(),
            capacity: capability.minimum_capacity,
        })
        .collect();
    presence.health_contract = expected.health_contract.clone();
    presence.runtime_id = activation.runtime_id.clone();
    presence.runtime_instance_id = activation.runtime_instance_id.clone();
    presence.expected_projection_sha256 = activation.expected_projection_sha256.clone();
    presence.activation_witness_sha256 = activation.canonical_sha256()?;
    presence.signer_identity_id = stable_public.identity_id;
    presence.activation_signer_identity_id = activation_signer.identity_id();
    presence.observed_at_unix_millis = 110;
    presence.signature.clear();
    presence.activation_signature.clear();
    let proof_payload = presence.canonical_proof_payload()?;
    presence.signature = stable_signer
        .sign::<GameCultRuntimePresenceHealthPurpose>(&proof_payload)
        .signature;
    presence.activation_signature = activation_signer.sign_presence_proof(&presence)?;

    Ok(DualProofFixture {
        stable_signer,
        activation_signer,
        odin_signer,
        idunn_anchor,
        stable_public_key,
        odin_anchor,
        expected,
        activation,
        presence,
    })
}

fn resign_presence(fixture: &mut DualProofFixture) -> Result<Vec<u8>> {
    fixture.presence.signature.clear();
    fixture.presence.activation_signature.clear();
    let proof_payload = fixture.presence.canonical_proof_payload()?;
    fixture.presence.signature = fixture
        .stable_signer
        .sign::<GameCultRuntimePresenceHealthPurpose>(&proof_payload)
        .signature;
    fixture.presence.activation_signature = fixture
        .activation_signer
        .sign_presence_proof(&fixture.presence)?;
    Ok(record_bytes(&fixture.presence))
}

fn fixture_authority(fixture: &DualProofFixture) -> Result<VerifiedRuntimeAuthority> {
    verify_runtime_authority(
        &fixture.expected,
        &fixture.activation,
        &fixture.idunn_anchor,
        &fixture.stable_public_key,
    )
}

fn authenticate_fixture(
    fixture: &DualProofFixture,
) -> Result<AuthenticatedRuntimePresenceClaim> {
    authenticate_runtime_presence_claim(
        &record_bytes(&fixture.presence),
        &fixture_authority(fixture)?,
        RuntimePresenceAuthenticationContext {
            trusted_received_at_unix_millis: 120,
            maximum_age_millis: 30,
            maximum_future_skew_millis: 5,
        },
    )
}

fn correlate_fixture(fixture: &DualProofFixture) -> Result<RuntimePresenceCorrelation> {
    correlate_runtime_presence_claim(
        authenticate_fixture(fixture)?,
        &fixture_authority(fixture)?,
    )
}

fn verify_fixture(fixture: &DualProofFixture) -> Result<VerifiedRuntimePresence> {
    correlate_fixture(fixture)?.into_undisputed_present()
}

fn authenticated_topology_receipt(
    fixture: &DualProofFixture,
    presence: &VerifiedRuntimePresence,
    present: bool,
    disagreements: Vec<OdinTopologyDisagreement>,
) -> Result<AuthenticatedOdinRuntimeTopologyCorrelation> {
    let authority = fixture_authority(fixture)?;
    let mut receipt = topology_correlation(&fixture.expected);
    receipt.current_activation_sha256 = Some(authority.activation_sha256().into());
    receipt.signed_presence_sha256 = Some(presence.signed_presence_sha256().into());
    receipt.observed_presence_state = Some(presence.record().state.clone());
    receipt.observed_presence_publisher_sequence = Some(presence.record().publisher_sequence);
    receipt.observed_write_lease_sha256 = presence.record().write_lease_sha256.clone();
    receipt.observed_capabilities = presence.record().capabilities.clone();
    receipt.runtime_instance_id = Some(fixture.activation.runtime_instance_id.clone());
    receipt.present = present;
    receipt.ready = present && presence.record().state == "active";
    receipt.disagreements = disagreements;
    receipt.signer_identity_id = fixture.odin_anchor.signer_identity_id.clone();
    receipt.signature.clear();
    receipt.signature = fixture
        .odin_signer
        .sign::<OdinRuntimeTopologyCorrelationPurpose>(&receipt.unsigned_signature_payload()?)
        .signature;
    let encoded = receipt.canonical_bytes()?;
    authenticate_odin_runtime_topology_correlation(
        &encoded,
        &authority,
        presence.record().write_lease_sha256.as_deref(),
        &fixture.odin_anchor.signer_public_key,
        OdinTopologyAuthenticationContext {
            trusted_received_at_unix_millis: 120,
            maximum_age_millis: 30,
            maximum_future_skew_millis: 5,
        },
    )
}

#[test]
fn runtime_authority_contracts_round_trip_as_canonical_positional_records() -> Result<()> {
    let presence = runtime_presence();
    presence.validate()?;
    let encoded_presence = record_bytes(&presence);
    assert_eq!(messagepack_array_len(&encoded_presence), Some(24));
    let decoded_presence: GameCultRuntimePresenceHealthRecord =
        read_record(&encoded_presence);
    assert_eq!(decoded_presence, presence);
    let unsigned = presence.canonical_proof_payload()?;
    let unsigned_presence: GameCultRuntimePresenceHealthRecord =
        read_record(&unsigned);
    assert!(unsigned_presence.signature.is_empty());
    assert!(unsigned_presence.activation_signature.is_empty());

    let activation = runtime_activation();
    let encoded_activation = activation.canonical_bytes()?;
    assert_eq!(messagepack_array_len(&encoded_activation), Some(10));
    assert_eq!(
        IdunnRuntimeActivationRecord::decode_canonical(&encoded_activation)?,
        activation
    );
    assert_eq!(
        activation.canonical_sha256()?,
        prefixed_sha256(&encoded_activation)
    );

    let lease = process_write_lease();
    lease.validate()?;
    let encoded_lease = lease.canonical_bytes()?;
    assert_eq!(messagepack_array_len(&encoded_lease), Some(14));
    assert_eq!(
        IdunnProcessWriteLeaseRecord::decode_canonical(&encoded_lease)?,
        lease
    );
    assert_eq!(lease.canonical_sha256()?, prefixed_sha256(&encoded_lease));
    Ok(())
}

#[test]
fn exact_stable_and_activation_proofs_admit_runtime_presence() -> Result<()> {
    let fixture = dual_proof_fixture()?;
    assert_eq!(fixture.activation.activation_signer_public_key.len(), 32);
    let verified = verify_fixture(&fixture)?;
    assert_eq!(verified.record(), &fixture.presence);
    Ok(())
}

#[test]
fn authenticated_expected_disagreements_remain_typed_present_and_not_ready() -> Result<()> {
    type Mutation = fn(&mut GameCultRuntimePresenceHealthRecord);
    let cases: &[(&str, &str, Mutation)] = &[
        ("target", "target", |value| value.target = "epiphany".into()),
        ("projection", "expected-projection", |value| {
            value.expected_projection_sha256 = digest('0')
        }),
        ("plan", "plan-id", |value| value.plan_id = digest('0')),
        ("incarnation", "incarnation-id", |value| {
            value.incarnation_id = "ghostlight/other/1".into()
        }),
        ("release", "sealed-release-id", |value| {
            value.sealed_release_id = digest('0')
        }),
        ("runtime", "runtime-id", |value| {
            value.runtime_id = "ghostlight-other-runtime".into()
        }),
        ("process", "runtime-instance-id", |value| {
            value.runtime_instance_id = digest('0')
        }),
        ("endpoint", "bound-endpoint", |value| {
            value.bound_endpoint = Some("http://127.0.0.1:14104".into())
        }),
        ("health", "health-contract", |value| {
            value.health_contract = "ghostlight.other-health.v1".into()
        }),
        ("state-generation", "state-schema-generation", |value| {
            value.state_schema_generation = Some("world-v3".into())
        }),
        ("state-contract", "state-contract", |value| {
            value.state_contract_sha256 = Some(digest('0'))
        }),
        ("activation", "activation-witness", |value| {
            value.activation_witness_sha256 = digest('0')
        }),
    ];

    for (name, expected_code, mutate) in cases {
        let mut fixture = dual_proof_fixture()?;
        mutate(&mut fixture.presence);
        resign_presence(&mut fixture)?;
        let correlation = correlate_fixture(&fixture)?;
        assert!(
            correlation
                .disagreements()
                .iter()
                .any(|disagreement| disagreement.code == *expected_code),
            "missing {expected_code} disagreement for {name}"
        );
        assert_eq!(
            correlation.claim().record().runtime_instance_id,
            fixture.presence.runtime_instance_id
        );
        assert!(correlation.into_undisputed_present().is_err());
    }
    Ok(())
}

#[test]
fn provider_owns_observed_capacity_while_expected_owns_only_the_minimum() -> Result<()> {
    let mut fixture = dual_proof_fixture()?;
    fixture.presence.capabilities[0].capacity = 50;
    fixture
        .presence
        .capabilities
        .push(runtime_capability("telemetry"));
    resign_presence(&mut fixture)?;
    verify_fixture(&fixture)?;

    fixture.presence.capabilities[0].capacity = 1;
    fixture
        .presence
        .capabilities
        .retain(|capability| capability.capability != "state");
    resign_presence(&mut fixture)?;
    let correlation = correlate_fixture(&fixture)?;
    let codes = correlation
        .disagreements()
        .iter()
        .map(|disagreement| disagreement.code.as_str())
        .collect::<Vec<_>>();
    assert!(codes.contains(&"expected-capability-000-capacity"));
    assert!(codes.contains(&"expected-capability-001-missing"));
    assert!(!codes.iter().any(|code| code.contains("unexpected")));
    Ok(())
}

#[test]
fn stable_proof_and_provider_key_substitution_fail_closed() -> Result<()> {
    let mut fixture = dual_proof_fixture()?;
    fixture.presence.detail = "tampered after signing".into();
    assert!(authenticate_fixture(&fixture).is_err());

    let other_idunn = enroll_service_identity::<IdunnServiceIdentity>(MACHINE_ID)?;
    assert!(
        verify_runtime_authority(
            &fixture.expected,
            &fixture.activation,
            &other_idunn.trust_anchor()?,
            &fixture.stable_public_key,
        )
        .is_err()
    );

    fixture.stable_public_key = vec![9; 32];
    assert!(fixture_authority(&fixture).is_err());
    Ok(())
}

#[test]
fn incumbent_stable_key_without_activation_key_cannot_claim_presence() -> Result<()> {
    let mut fixture = dual_proof_fixture()?;
    fixture.presence.activation_signature = vec![0; 64];
    let proof_payload = fixture.presence.canonical_proof_payload()?;
    fixture.presence.signature = fixture
        .stable_signer
        .sign::<GameCultRuntimePresenceHealthPurpose>(&proof_payload)
        .signature;

    let error = verify_fixture(&fixture).unwrap_err();
    assert!(error.message().contains("activation proof verification"));
    Ok(())
}

#[test]
fn activation_cannot_substitute_another_expected_runtime_id() -> Result<()> {
    let mut fixture = dual_proof_fixture()?;
    fixture.activation.runtime_id = "ghostlight-yggdrasil-2".into();
    fixture.presence.runtime_id = fixture.activation.runtime_id.clone();
    fixture.presence.activation_witness_sha256 = fixture.activation.canonical_sha256()?;

    // The stable service key can re-sign the altered canonical statement,
    // but the activation proof still came from the other runtime id.
    let proof_payload = fixture.presence.canonical_proof_payload()?;
    fixture.presence.signature = fixture
        .stable_signer
        .sign::<GameCultRuntimePresenceHealthPurpose>(&proof_payload)
        .signature;
    let error = fixture_authority(&fixture).unwrap_err();
    assert!(error.message().contains("current Expected"));
    Ok(())
}

#[test]
fn idunn_signature_prevents_provider_minted_activation() -> Result<()> {
    let mut fixture = dual_proof_fixture()?;
    fixture.activation.issued_at_unix_millis += 1;
    fixture.presence.activation_witness_sha256 = fixture.activation.canonical_sha256()?;
    resign_presence(&mut fixture)?;
    let error = fixture_authority(&fixture).unwrap_err();
    assert!(
        error
            .message()
            .contains("Idunn runtime activation signature")
    );
    Ok(())
}

#[test]
fn authenticated_odin_receipt_is_fresh_evidence_not_replay_authority() -> Result<()> {
    let fixture = dual_proof_fixture()?;
    let authority = fixture_authority(&fixture)?;
    let presence = verify_fixture(&fixture)?;
    let accepted = authenticated_topology_receipt(&fixture, &presence, true, Vec::new())?;
    assert_eq!(
        accepted.record().observed_presence_publisher_sequence,
        Some(fixture.presence.publisher_sequence)
    );
    assert_eq!(
        accepted.record().signed_presence_sha256.as_deref(),
        Some(presence.signed_presence_sha256())
    );

    let mut tampered = accepted.record().clone();
    tampered.signature = vec![0; 64];
    assert!(
        authenticate_odin_runtime_topology_correlation(
            &tampered.canonical_bytes()?,
            &authority,
            presence.record().write_lease_sha256.as_deref(),
            &fixture.odin_anchor.signer_public_key,
            OdinTopologyAuthenticationContext {
                trusted_received_at_unix_millis: 120,
                maximum_age_millis: 30,
                maximum_future_skew_millis: 5,
            },
        )
        .is_err()
    );
    assert!(
        authenticate_odin_runtime_topology_correlation(
            accepted.canonical_bytes(),
            &authority,
            presence.record().write_lease_sha256.as_deref(),
            &fixture.odin_anchor.signer_public_key,
            OdinTopologyAuthenticationContext {
                trusted_received_at_unix_millis: 200,
                maximum_age_millis: 30,
                maximum_future_skew_millis: 5,
            },
        )
        .is_err()
    );
    Ok(())
}

#[test]
fn separate_launches_receive_distinct_activation_identities() -> Result<()> {
    let idunn =
        enroll_service_identity::<IdunnServiceIdentity>(MACHINE_ID)?;
    let expected = expected_incarnation();
    let first = IdunnRuntimeActivationLaunch::issue(&expected, digest('8'), 99, &idunn)?;
    let second = IdunnRuntimeActivationLaunch::issue(&expected, digest('9'), 100, &idunn)?;
    assert_ne!(
        first.activation().activation_signer_identity_id,
        second.activation().activation_signer_identity_id
    );
    Ok(())
}

#[test]
fn trusted_time_rejects_stale_and_future_presence() -> Result<()> {
    let mut fixture = dual_proof_fixture()?;
    let authority = fixture_authority(&fixture)?;
    let canonical = record_bytes(&fixture.presence);
    assert!(
        authenticate_runtime_presence_claim(
            &canonical,
            &authority,
            RuntimePresenceAuthenticationContext {
                trusted_received_at_unix_millis: 200,
                maximum_age_millis: 10,
                maximum_future_skew_millis: 5,
            },
        )
        .is_err()
    );

    fixture.presence.observed_at_unix_millis = 126;
    resign_presence(&mut fixture)?;
    assert!(
        authenticate_runtime_presence_claim(
            &record_bytes(&fixture.presence),
            &authority,
            RuntimePresenceAuthenticationContext {
                trusted_received_at_unix_millis: 120,
                maximum_age_millis: 30,
                maximum_future_skew_millis: 5,
            },
        )
        .is_err()
    );

    Ok(())
}

#[test]
fn runtime_authority_decoders_reject_malformed_and_noncanonical_bytes() -> Result<()> {
    let fixture = dual_proof_fixture()?;
    assert!(
        authenticate_runtime_presence_claim(
            &[0x91, 0xc0],
            &fixture_authority(&fixture)?,
            RuntimePresenceAuthenticationContext {
                trusted_received_at_unix_millis: 120,
                maximum_age_millis: 30,
                maximum_future_skew_millis: 5,
            },
        )
        .is_err()
    );
    assert!(IdunnRuntimeActivationRecord::decode_canonical(&[0x91, 0xc0]).is_err());
    assert!(IdunnProcessWriteLeaseRecord::decode_canonical(&[0x91, 0xc0]).is_err());

    let mut legacy_presence = fixture.presence.clone();
    legacy_presence.schema_version = "gamecult.runtime_presence_health.v1".into();
    assert!(
        authenticate_runtime_presence_claim(
            &record_bytes(&legacy_presence),
            &fixture_authority(&fixture)?,
            RuntimePresenceAuthenticationContext {
                trusted_received_at_unix_millis: 120,
                maximum_age_millis: 30,
                maximum_future_skew_millis: 5,
            },
        )
        .is_err()
    );
    let mut legacy_activation = fixture.activation.clone();
    legacy_activation.schema_version = "idunn.runtime_activation.v1".into();
    assert!(
        IdunnRuntimeActivationRecord::decode_canonical(&record_bytes(&legacy_activation))
            .is_err()
    );
    let mut legacy_expected = fixture.expected.clone();
    legacy_expected.schema_version = "idunn.expected_incarnation.v1".into();
    assert!(
        IdunnExpectedIncarnationRecord::decode_canonical(&record_bytes(&legacy_expected))
            .is_err()
    );
    let mut legacy_topology = topology_correlation(&fixture.expected);
    legacy_topology.schema_version = "odin.runtime_topology_correlation.v1".into();
    assert!(
        OdinRuntimeTopologyCorrelationRecord::decode_canonical_signed_payload(
            &record_bytes(&legacy_topology),
        )
        .is_err()
    );

    let presence = record_bytes(&runtime_presence());
    assert_eq!(&presence[..3], &[0xdc, 0, 24]);
    let mut noncanonical_presence = vec![0xdd, 0, 0, 0, 24];
    noncanonical_presence.extend_from_slice(&presence[3..]);
    assert!(
        authenticate_runtime_presence_claim(
            &noncanonical_presence,
            &fixture_authority(&fixture)?,
            RuntimePresenceAuthenticationContext {
                trusted_received_at_unix_millis: 120,
                maximum_age_millis: 30,
                maximum_future_skew_millis: 5,
            },
        )
        .is_err()
    );

    let activation = runtime_activation().canonical_bytes()?;
    assert_eq!(activation[0], 0x9a);
    let mut noncanonical_activation = vec![0xdc, 0, 10];
    noncanonical_activation.extend_from_slice(&activation[1..]);
    assert!(IdunnRuntimeActivationRecord::decode_canonical(&noncanonical_activation).is_err());

    let lease = process_write_lease().canonical_bytes()?;
    assert_eq!(lease[0], 0x9e);
    let mut noncanonical_lease = vec![0xdc, 0, 14];
    noncanonical_lease.extend_from_slice(&lease[1..]);
    assert!(IdunnProcessWriteLeaseRecord::decode_canonical(&noncanonical_lease).is_err());
    Ok(())
}

#[test]
fn runtime_presence_refuses_capability_and_warming_lease_ambiguity() {
    let mut value = runtime_presence();
    value.capabilities.reverse();
    assert!(value.validate().is_err());

    let mut value = runtime_presence();
    let mut duplicate = runtime_capability("state");
    duplicate.capacity = 2;
    value.capabilities.push(duplicate);
    assert!(value.validate().is_err());

    let mut value = runtime_presence();
    value.capabilities[0].capacity = 0;
    assert!(value.validate().is_err());

    let mut value = runtime_presence();
    value.state = "warming".into();
    assert!(value.validate().is_err());
    value.write_lease_sha256 = None;
    assert!(value.validate().is_ok());

    let mut value = runtime_presence();
    value.state_schema_generation = None;
    assert!(value.validate().is_err());
    value.state_contract_sha256 = None;
    assert!(value.validate().is_err());
    value.write_lease_sha256 = None;
    assert!(value.validate().is_ok());
}

#[test]
fn runtime_authority_refuses_malformed_digest_process_and_epoch_bindings() {
    let mut value = runtime_presence();
    value.activation_witness_sha256 = digest('A');
    assert!(value.validate().is_err());

    let mut value = runtime_presence();
    value.plan_id = "plan-1".into();
    assert!(value.validate().is_err());

    let mut value = runtime_presence();
    value.sealed_release_id = "release-1".into();
    assert!(value.validate().is_err());

    let mut value = runtime_presence();
    value.runtime_instance_id = "systemd-invocation-1".into();
    assert!(value.validate().is_err());

    let mut value = runtime_presence();
    value.expected_projection_sha256 = "expected-1".into();
    assert!(value.validate().is_err());

    let mut value = runtime_presence();
    value.write_lease_sha256 = Some("lease-1".into());
    assert!(value.validate().is_err());

    let mut value = process_write_lease();
    value.warming_presence_sha256 = digest('D');
    assert!(value.validate().is_err());

    let mut value = process_write_lease();
    value.plan_id = "plan-1".into();
    assert!(value.validate().is_err());

    let mut value = process_write_lease();
    value.runtime_instance_id = "pid-4242".into();
    assert!(value.validate().is_err());

    let mut value = process_write_lease();
    value.lease_epoch = 0;
    assert!(value.validate().is_err());

    let mut value = runtime_activation();
    value.runtime_instance_id = digest('A');
    assert!(value.validate().is_err());

    let mut value = runtime_activation();
    value.expected_projection_sha256 = "expected-1".into();
    assert!(value.validate().is_err());
}

#[test]
fn runtime_presence_trust_anchor_is_provider_profile_and_purpose_bound() -> Result<()> {
    let anchor = runtime_presence_anchor();
    anchor.validate()?;

    let mut value = anchor.clone();
    value.signing_purpose = "idunn.signed_daemon_health.v1".into();
    assert!(value.validate().is_err());

    let mut value = anchor.clone();
    value.signed_schema = IDUNN_SIGNED_DAEMON_HEALTH_SCHEMA.into();
    assert!(value.validate().is_err());

    let mut value = anchor.clone();
    value.signing_purpose = "gamecult.runtime_presence_health.v1".into();
    value.signed_schema = "gamecult.runtime_presence_health.v1".into();
    assert!(value.validate().is_err());

    let mut value = anchor;
    value.signer_identity_id =
        derive_service_identity_id::<IdunnServiceIdentity>(&value.signer_public_key)?;
    assert!(value.validate().is_err());
    Ok(())
}

#[test]
fn process_write_lease_cannot_encode_route_or_traffic_authority() -> Result<()> {
    let canonical = process_write_lease().canonical_bytes()?;
    assert_eq!(messagepack_array_len(&canonical), Some(14));

    for forbidden in ["route", "traffic"] {
        let mut with_extra_authority = vec![0xdc, 0, 15];
        with_extra_authority.extend_from_slice(&canonical[1..]);
        with_extra_authority.extend_from_slice(&encode_messagepack(&WireValue::Text(forbidden.into())));
        assert!(IdunnProcessWriteLeaseRecord::decode_canonical(&with_extra_authority).is_err());
    }
    Ok(())
}

#[test]
fn expected_and_topology_correlation_round_trip_canonically() -> Result<()> {
    let expected = expected_incarnation();
    let expected_bytes = expected.canonical_bytes()?;
    assert_eq!(&expected_bytes[..3], &[0xdc, 0, 18]);
    assert_eq!(
        IdunnExpectedIncarnationRecord::decode_canonical(&expected_bytes)?,
        expected
    );
    assert_eq!(
        expected.canonical_sha256()?,
        prefixed_sha256(&expected_bytes)
    );

    let receipt = topology_correlation(&expected);
    validate_against_current_lease(&receipt, &expected)?;
    let receipt_bytes = receipt.canonical_bytes()?;
    assert_eq!(&receipt_bytes[..3], &[0xdc, 0, 21]);
    let (decoded, unsigned) =
        OdinRuntimeTopologyCorrelationRecord::decode_canonical_signed_payload(&receipt_bytes)?;
    assert_eq!(decoded, receipt);
    let unsigned_receipt: OdinRuntimeTopologyCorrelationRecord =
        read_record(&unsigned);
    assert!(unsigned_receipt.signature.is_empty());
    assert_eq!(unsigned, receipt.unsigned_signature_payload()?);
    assert_eq!(receipt.canonical_sha256()?, prefixed_sha256(&receipt_bytes));
    Ok(())
}

#[test]
fn expected_and_topology_decoders_reject_noncanonical_or_extended_records() -> Result<()> {
    assert!(IdunnExpectedIncarnationRecord::decode_canonical(&[0x91, 0xc0]).is_err());
    assert!(
        OdinRuntimeTopologyCorrelationRecord::decode_canonical_signed_payload(&[0x91, 0xc0])
            .is_err()
    );

    let expected = expected_incarnation().canonical_bytes()?;
    let mut noncanonical_expected = vec![0xdd, 0, 0, 0, 18];
    noncanonical_expected.extend_from_slice(&expected[3..]);
    assert!(IdunnExpectedIncarnationRecord::decode_canonical(&noncanonical_expected).is_err());

    let receipt = topology_correlation(&expected_incarnation()).canonical_bytes()?;
    let mut noncanonical_receipt = vec![0xdd, 0, 0, 0, 21];
    noncanonical_receipt.extend_from_slice(&receipt[3..]);
    assert!(
        OdinRuntimeTopologyCorrelationRecord::decode_canonical_signed_payload(
            &noncanonical_receipt,
        )
        .is_err()
    );

    for forbidden in ["private-host-path", "runner-secret"] {
        let mut extended = vec![0xdc, 0, 19];
        extended.extend_from_slice(&expected[3..]);
        extended.extend_from_slice(&encode_messagepack(&WireValue::Text(forbidden.into())));
        assert!(IdunnExpectedIncarnationRecord::decode_canonical(&extended).is_err());
    }
    Ok(())
}

#[test]
fn expected_refuses_partial_state_and_noncanonical_claim_sets() {
    let mut value = expected_incarnation();
    value.state_contract_sha256 = None;
    assert!(value.validate().is_err());

    let mut value = expected_incarnation();
    value.state_schema_generation = None;
    assert!(value.validate().is_err());

    let mut value = expected_incarnation();
    value.state_schema_generation = None;
    value.state_contract_sha256 = None;
    assert!(value.validate().is_err());
    value.write_lease_required = false;
    assert!(value.validate().is_ok());

    let mut value = expected_incarnation();
    value.capabilities.reverse();
    assert!(value.validate().is_err());

    let mut value = expected_incarnation();
    value.capabilities.push(expected_capability("state"));
    assert!(value.validate().is_err());

    let mut value = expected_incarnation();
    value.dependencies.reverse();
    assert!(value.validate().is_err());

    let mut value = expected_incarnation();
    value.dependencies.push(value.dependencies[1].clone());
    assert!(value.validate().is_err());

    let mut value = expected_incarnation();
    let mut duplicate = value.dependencies[1].clone();
    duplicate.kind = "required".into();
    value.dependencies.push(duplicate);
    assert!(value.validate().is_err());

    let mut value = expected_incarnation();
    value.dependencies[0].provider_authority = None;
    assert!(value.validate().is_err());

    let mut value = expected_incarnation();
    value.source_revision = "A".repeat(40);
    assert!(value.validate().is_err());

    for private_source in [
        "F:\\Projects\\Ghostlight",
        "/srv/build/Ghostlight",
        "https://token@github.com/GameCult/Ghostlight",
    ] {
        let mut value = expected_incarnation();
        value.source_repository = private_source.into();
        assert!(value.validate().is_err());
    }

    let mut value = expected_incarnation();
    let stable_endpoint = value.route.as_ref().unwrap().stable_endpoint.clone();
    value.route.as_mut().unwrap().candidate_endpoint = stable_endpoint;
    assert!(value.validate().is_err());
}

#[test]
fn expected_route_keeps_rudp_distinct_and_scheme_exact() {
    let mut value = expected_incarnation();
    value.route = Some(IdunnExpectedRoute {
        route_id: "odin-rendezvous".into(),
        transport: "rudp".into(),
        stable_endpoint: "rudp://10.77.0.1:17871".into(),
        candidate_endpoint: "rudp://127.0.0.1:24171".into(),
    });
    assert!(value.validate().is_ok());

    value.route.as_mut().unwrap().candidate_endpoint = "tcp://127.0.0.1:24171".into();
    assert!(value.validate().is_err());

    value.route.as_mut().unwrap().candidate_endpoint = "udp://127.0.0.1:24171".into();
    assert!(value.validate().is_err());
}

#[test]
fn topology_correlation_refuses_expected_substitution_and_dependency_omission() {
    let expected = expected_incarnation();

    let mut value = topology_correlation(&expected);
    value.target = "epiphany".into();
    assert!(value.validate().is_ok());
    assert!(validate_against_current_lease(&value, &expected).is_err());

    let mut value = topology_correlation(&expected);
    value.runtime_id = "ghostlight-other-runtime".into();
    assert!(validate_against_current_lease(&value, &expected).is_err());

    let mut value = topology_correlation(&expected);
    value.expected_projection_sha256 = digest('c');
    assert!(validate_against_current_lease(&value, &expected).is_err());

    let mut value = topology_correlation(&expected);
    value.dependencies.pop();
    assert!(value.validate().is_ok());
    assert!(validate_against_current_lease(&value, &expected).is_err());

    let mut value = topology_correlation(&expected);
    value.dependencies[0].provider_id = Some("odin-substitute".into());
    assert!(value.validate().is_ok());
    assert!(validate_against_current_lease(&value, &expected).is_err());

    let mut value = topology_correlation(&expected);
    value.dependencies[0].kind = "required".into();
    assert!(value.validate().is_ok());
    assert!(validate_against_current_lease(&value, &expected).is_err());

    let mut value = topology_correlation(&expected);
    value.dependencies[0].observed_capacity = Some(0);
    assert!(value.validate().is_err());

    let mut value = topology_correlation(&expected);
    value.dependencies[0].observed_capacity = Some(1);
    let mut stricter = expected.clone();
    stricter.dependencies[0].minimum_capacity = 2;
    value.expected_projection_sha256 = stricter.canonical_sha256().unwrap();
    assert!(validate_against_current_lease(&value, &stricter).is_err());
}

#[test]
fn topology_correlation_requires_explicit_coherent_partial_states() {
    let expected = expected_incarnation();
    let mut value = topology_correlation(&expected);
    value.signed_presence_sha256 = None;
    value.observed_presence_state = None;
    value.observed_presence_publisher_sequence = None;
    value.observed_write_lease_sha256 = None;
    value.observed_capabilities.clear();
    value.present = false;
    value.ready = false;
    assert!(value.validate().is_err());

    value.disagreements.push(OdinTopologyDisagreement {
        code: "presence-missing".into(),
        expected: Some("signed-runtime-presence".into()),
        observed: None,
    });
    assert!(value.validate().is_ok());

    let mut value = topology_correlation(&expected);
    value.runtime_instance_id = None;
    assert!(value.validate().is_err());

    let mut value = topology_correlation(&expected);
    value.current_activation_sha256 = None;
    value.present = true;
    value.ready = false;
    value.disagreements.push(OdinTopologyDisagreement {
        code: "activation-missing".into(),
        expected: Some("current-activation".into()),
        observed: None,
    });
    assert!(value.validate().is_err());

    let mut value = topology_correlation(&expected);
    value.expected = false;
    value.present = false;
    value.ready = false;
    assert!(value.validate().is_err());
}

#[test]
fn topology_correlation_refuses_unsorted_or_duplicate_claims() {
    let expected = expected_incarnation();
    let mut value = topology_correlation(&expected);
    value.dependencies.reverse();
    assert!(value.validate().is_err());

    let mut value = topology_correlation(&expected);
    value.dependencies.push(value.dependencies[1].clone());
    assert!(value.validate().is_err());

    let mut value = topology_correlation(&expected);
    value.ready = false;
    value.disagreements = vec![
        OdinTopologyDisagreement {
            code: "schema-mismatch".into(),
            expected: Some("state.v2".into()),
            observed: Some("state.v1".into()),
        },
        OdinTopologyDisagreement {
            code: "endpoint-mismatch".into(),
            expected: Some("route-a".into()),
            observed: Some("route-b".into()),
        },
    ];
    assert!(value.validate().is_err());

    value.disagreements[1].code = "schema-mismatch".into();
    assert!(value.validate().is_err());
}

#[test]
fn topology_correlation_preserves_warming_and_exact_write_lease_authority() {
    let expected = expected_incarnation();
    let value = topology_correlation(&expected);
    validate_against_current_lease(&value, &expected).unwrap();
    assert!(
        value
            .validate_against_expected(&expected, Some(&digest('d')))
            .is_err()
    );
    assert!(value.validate_against_expected(&expected, None).is_err());

    let mut digest_only_ready = topology_correlation(&expected);
    digest_only_ready.observed_write_lease_sha256 = None;
    digest_only_ready.validate().unwrap();
    assert!(
        digest_only_ready
            .validate_against_expected(&expected, Some(&digest('c')))
            .is_err()
    );

    let mut warming = topology_correlation(&expected);
    warming.observed_presence_state = Some("warming".into());
    warming.ready = false;
    assert!(warming.validate().is_err());
    warming.observed_write_lease_sha256 = None;
    warming.validate().unwrap();
    warming.validate_against_expected(&expected, None).unwrap();
    warming.ready = true;
    assert!(warming.validate().is_err());

    let mut partial = topology_correlation(&expected);
    partial.observed_presence_state = None;
    assert!(partial.validate().is_err());
    let mut partial = topology_correlation(&expected);
    partial.signed_presence_sha256 = None;
    assert!(partial.validate().is_err());

    let mut stateless = expected.clone();
    stateless.state_schema_generation = None;
    stateless.state_contract_sha256 = None;
    stateless.write_lease_required = false;
    let mut stateless_receipt = topology_correlation(&stateless);
    stateless_receipt.observed_write_lease_sha256 = None;
    stateless_receipt
        .validate_against_expected(&stateless, None)
        .unwrap();
    stateless_receipt.observed_write_lease_sha256 = Some(digest('c'));
    assert!(
        stateless_receipt
            .validate_against_expected(&stateless, Some(&digest('c')))
            .is_err()
    );
}

#[test]
fn topology_correlation_cannot_manufacture_ready() {
    let expected = expected_incarnation();
    let mut value = topology_correlation(&expected);
    value.dependencies[0].ready = false;
    assert!(value.validate().is_err());

    let mut value = topology_correlation(&expected);
    value.disagreements.push(OdinTopologyDisagreement {
        code: "capability-mismatch".into(),
        expected: Some("conversation.v1".into()),
        observed: Some("conversation.v0".into()),
    });
    assert!(value.validate().is_err());

    let mut value = topology_correlation(&expected);
    value.present = false;
    value.disagreements.push(OdinTopologyDisagreement {
        code: "identity-mismatch".into(),
        expected: Some("expected-runtime".into()),
        observed: Some("other-runtime".into()),
    });
    assert!(value.validate().is_err());

    let mut value = topology_correlation(&expected);
    value.dependencies[0].provider_evidence_sha256 = None;
    assert!(value.validate().is_err());

    let mut missing_capability = topology_correlation(&expected);
    missing_capability.observed_capabilities.pop();
    assert!(missing_capability.validate().is_ok());
    assert!(
        missing_capability
            .validate_against_expected(&expected, Some(&digest('c')))
            .is_err()
    );
    missing_capability.present = true;
    missing_capability.ready = false;
    missing_capability.disagreements = vec![OdinTopologyDisagreement {
        code: "generic-mismatch".into(),
        expected: Some("expected".into()),
        observed: Some("observed".into()),
    }];
    assert!(
        missing_capability
            .validate_against_expected(&expected, Some(&digest('c')))
            .is_err()
    );
    correlate_capabilities(
        &mut missing_capability.disagreements,
        &expected.capabilities,
        &missing_capability.observed_capabilities,
    );
    missing_capability
        .disagreements
        .sort_by(|left, right| left.code.cmp(&right.code));
    missing_capability
        .validate_against_expected(&expected, Some(&digest('c')))
        .unwrap();

    let mut additional_capability = topology_correlation(&expected);
    additional_capability
        .observed_capabilities
        .push(runtime_capability("telemetry"));
    additional_capability
        .validate_against_expected(&expected, Some(&digest('c')))
        .unwrap();
}

#[test]
fn topology_signature_is_exact_and_purpose_bound() -> Result<()> {
    let signer = enroll_service_identity::<OdinTopologyIdentity>(MACHINE_ID)?;
    let anchor = signer.trust_anchor()?;
    let expected = expected_incarnation();
    let mut receipt = topology_correlation(&expected);
    receipt.signer_identity_id = anchor.identity_id.clone();
    receipt.signature.clear();
    let unsigned = receipt.unsigned_signature_payload()?;
    let proof = signer.sign::<OdinRuntimeTopologyCorrelationPurpose>(&unsigned);
    receipt.signature = proof.signature.clone();

    let encoded = receipt.canonical_bytes()?;
    let (decoded, decoded_unsigned) =
        OdinRuntimeTopologyCorrelationRecord::decode_canonical_signed_payload(&encoded)?;
    verify_service_identity_signature::<
        OdinTopologyIdentity,
        OdinRuntimeTopologyCorrelationPurpose,
    >(
        &anchor,
        &decoded_unsigned,
        &ServiceIdentitySignature {
            identity_id: decoded.signer_identity_id,
            signature: decoded.signature,
        },
    )?;

    let mut substituted = decoded_unsigned.clone();
    substituted.push(0);
    assert!(
        verify_service_identity_signature::<
            OdinTopologyIdentity,
            OdinRuntimeTopologyCorrelationPurpose,
        >(&anchor, &substituted, &proof)
        .is_err()
    );

    let wrong_purpose = signer.sign::<WrongOdinTopologyPurpose>(&decoded_unsigned);
    assert!(
        verify_service_identity_signature::<
            OdinTopologyIdentity,
            OdinRuntimeTopologyCorrelationPurpose,
        >(&anchor, &decoded_unsigned, &wrong_purpose)
        .is_err()
    );
    Ok(())
}

#[test]
fn topology_trust_anchor_is_odin_profile_and_purpose_bound() -> Result<()> {
    let anchor = topology_anchor();
    anchor.validate()?;

    let mut value = anchor.clone();
    value.service_id = "idunn".into();
    assert!(value.validate().is_err());

    let mut value = anchor.clone();
    value.signing_purpose = GAMECULT_RUNTIME_PRESENCE_HEALTH_SIGNING_PURPOSE.into();
    assert!(value.validate().is_err());

    let mut value = anchor.clone();
    value.signed_schema = GAMECULT_RUNTIME_PRESENCE_HEALTH_SCHEMA.into();
    assert!(value.validate().is_err());

    let mut value = anchor;
    value.signer_identity_id =
        derive_service_identity_id::<IdunnServiceIdentity>(&value.signer_public_key)?;
    assert!(value.validate().is_err());
    Ok(())
}

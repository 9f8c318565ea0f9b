use cultnet::{
    CultNetError, IDUNN_DEPLOYMENT_BRAKE_AUTHORITY, IDUNN_DEPLOYMENT_BRAKE_ID,
    IDUNN_DEPLOYMENT_BRAKE_SCHEMA, IDUNN_DEPLOYMENT_RELEASE_MAX_LIFETIME_MILLIS,
    IDUNN_DEPLOYMENT_RELEASE_PURPOSE, IdunnDeploymentBrakeDenial, IdunnDeploymentBrakeObservation,
    IdunnDeploymentBrakeOperatorIdentity, IdunnDeploymentBrakeRecord,
    IdunnDeploymentBrakeReleasePurpose, classify_idunn_deployment_brake, enroll_service_identity,
    evaluate_idunn_deployment_brake, record_bytes,
};

const MACHINE_ID: &str = "5f0c8d3a9b7e4c1d8a6f2b3c4d5e6f70";

type Result<T> = std::result::Result<T, CultNetError>;

fn released() -> IdunnDeploymentBrakeRecord {
    IdunnDeploymentBrakeRecord {
        schema_version: IDUNN_DEPLOYMENT_BRAKE_SCHEMA.into(),
        brake_id: IDUNN_DEPLOYMENT_BRAKE_ID.into(),
        authority: IDUNN_DEPLOYMENT_BRAKE_AUTHORITY.into(),
        runtime_id: "yggdrasil".into(),
        status: "released".into(),
        scope: "deployment".into(),
        reason: "operator authorized one attempt".into(),
        observed_at_unix_millis: 100,
        expires_at_unix_millis: Some(1000),
        authorization_id: Some("auth/r4".into()),
        authorization_purpose: Some(IDUNN_DEPLOYMENT_RELEASE_PURPOSE.into()),
        authorized_release_id: Some("release-4".into()),
        authorized_deployment_id: Some("deployment-4".into()),
        authorized_by: Some("operator/metacrat".into()),
        authorization_issued_at_unix_millis: Some(100),
        authorization_expires_at_unix_millis: Some(900),
        signature_algorithm: Some("ed25519".into()),
        signature: Some(vec![7; 64]),
        private_state_exposed: false,
        updated_by: "operator/metacrat".into(),
    }
}

#[test]
fn only_exact_bounded_release_is_permitted() {
    let value = released();
    assert_eq!(
        classify_idunn_deployment_brake(
            IdunnDeploymentBrakeObservation::Present(&value),
            "yggdrasil",
            "release-4",
            "deployment-4",
            500
        ),
        Ok(())
    );
    assert_eq!(
        classify_idunn_deployment_brake(
            IdunnDeploymentBrakeObservation::Missing,
            "yggdrasil",
            "release-4",
            "deployment-4",
            500
        ),
        Err(IdunnDeploymentBrakeDenial::Missing)
    );
    assert_eq!(
        classify_idunn_deployment_brake(
            IdunnDeploymentBrakeObservation::Corrupt,
            "yggdrasil",
            "release-4",
            "deployment-4",
            500
        ),
        Err(IdunnDeploymentBrakeDenial::Corrupt)
    );
    assert_eq!(
        classify_idunn_deployment_brake(
            IdunnDeploymentBrakeObservation::Present(&value),
            "yggdrasil",
            "other",
            "deployment-4",
            500
        ),
        Err(IdunnDeploymentBrakeDenial::ReleaseMismatch)
    );
    assert_eq!(
        classify_idunn_deployment_brake(
            IdunnDeploymentBrakeObservation::Present(&value),
            "yggdrasil",
            "release-4",
            "other",
            500
        ),
        Err(IdunnDeploymentBrakeDenial::DeploymentMismatch)
    );
    assert_eq!(
        classify_idunn_deployment_brake(
            IdunnDeploymentBrakeObservation::Present(&value),
            "yggdrasil",
            "release-4",
            "deployment-4",
            900
        ),
        Err(IdunnDeploymentBrakeDenial::Expired)
    );
}

#[test]
fn hostile_authority_scope_and_shape_substitutions_fail_closed() {
    let mut value = released();
    value.authority = "idunn".into();
    assert_eq!(
        classify_idunn_deployment_brake(
            IdunnDeploymentBrakeObservation::Present(&value),
            "yggdrasil",
            "release-4",
            "deployment-4",
            500
        ),
        Err(IdunnDeploymentBrakeDenial::Foreign)
    );
    let mut value = released();
    value.runtime_id = "nightwing".into();
    assert_eq!(
        classify_idunn_deployment_brake(
            IdunnDeploymentBrakeObservation::Present(&value),
            "yggdrasil",
            "release-4",
            "deployment-4",
            500
        ),
        Err(IdunnDeploymentBrakeDenial::WrongRuntime)
    );
    let mut value = released();
    value.scope = "persona.public_speech".into();
    assert_eq!(
        classify_idunn_deployment_brake(
            IdunnDeploymentBrakeObservation::Present(&value),
            "yggdrasil",
            "release-4",
            "deployment-4",
            500
        ),
        Err(IdunnDeploymentBrakeDenial::WrongScope)
    );
    let mut value = released();
    value.signature = Some(vec![0; 63]);
    assert_eq!(
        classify_idunn_deployment_brake(
            IdunnDeploymentBrakeObservation::Present(&value),
            "yggdrasil",
            "release-4",
            "deployment-4",
            500
        ),
        Err(IdunnDeploymentBrakeDenial::Corrupt)
    );
    let mut value = released();
    value.authorization_expires_at_unix_millis =
        Some(100 + IDUNN_DEPLOYMENT_RELEASE_MAX_LIFETIME_MILLIS + 1);
    assert!(value.validate().is_err());
}

#[test]
fn engaged_record_cannot_smuggle_authorization() {
    let mut value = released();
    value.status = "engaged".into();
    assert!(value.validate().is_err());
    value.authorization_id = None;
    value.authorization_purpose = None;
    value.authorized_release_id = None;
    value.authorized_deployment_id = None;
    value.authorized_by = None;
    value.authorization_issued_at_unix_millis = None;
    value.authorization_expires_at_unix_millis = None;
    value.signature_algorithm = None;
    value.signature = None;
    value.validate().unwrap();
    assert_eq!(
        classify_idunn_deployment_brake(
            IdunnDeploymentBrakeObservation::Present(&value),
            "yggdrasil",
            "release-4",
            "deployment-4",
            500
        ),
        Err(IdunnDeploymentBrakeDenial::Engaged)
    );
}

#[test]
fn evaluation_requires_the_dedicated_operator_signature() -> Result<()> {
    let signer = enroll_service_identity::<IdunnDeploymentBrakeOperatorIdentity>(MACHINE_ID)?;
    let anchor = signer.trust_anchor()?;
    let mut value = released();
    value.authorized_by = Some(anchor.identity_id.clone());
    value.signature = None;
    let proof = signer.sign::<IdunnDeploymentBrakeReleasePurpose>(&record_bytes(&value));
    value.signature = Some(proof.signature);
    assert_eq!(
        evaluate_idunn_deployment_brake(
            IdunnDeploymentBrakeObservation::Present(&value),
            &anchor,
            "yggdrasil",
            "release-4",
            "deployment-4",
            500,
        ),
        Ok(())
    );
    value.reason = "tampered after authorization".into();
    assert_eq!(
        evaluate_idunn_deployment_brake(
            IdunnDeploymentBrakeObservation::Present(&value),
            &anchor,
            "yggdrasil",
            "release-4",
            "deployment-4",
            500,
        ),
        Err(IdunnDeploymentBrakeDenial::InvalidSignature)
    );
    Ok(())
}

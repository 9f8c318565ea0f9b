use cultnet::{
    CultNetError, IDUNN_LIFECYCLE_BRAKE_AUTHORITY, IDUNN_LIFECYCLE_BRAKE_SCHEMA,
    IDUNN_LIFECYCLE_BRAKE_SCOPE, IdunnLifecycleBrakeDenial, IdunnLifecycleBrakeObservation,
    IdunnLifecycleBrakeRecord, evaluate_idunn_continuity_restart,
};

type Result<T> = std::result::Result<T, CultNetError>;

fn released() -> IdunnLifecycleBrakeRecord {
    IdunnLifecycleBrakeRecord {
        schema_version: IDUNN_LIFECYCLE_BRAKE_SCHEMA.into(),
        authority: IDUNN_LIFECYCLE_BRAKE_AUTHORITY.into(),
        runtime_id: "idunn-yggdrasil".into(),
        target: "ghostlight".into(),
        scope: IDUNN_LIFECYCLE_BRAKE_SCOPE.into(),
        status: "released".into(),
        reason: "continuity restart permitted".into(),
        updated_at_unix_millis: 100,
        released_until_unix_millis: None,
    }
}

fn evaluate(
    observation: IdunnLifecycleBrakeObservation<'_>,
    target: &str,
    now: u64,
) -> std::result::Result<(), IdunnLifecycleBrakeDenial> {
    evaluate_idunn_continuity_restart(observation, "idunn-yggdrasil", target, now)
}

#[test]
fn lifecycle_brake_round_trips_only_as_the_canonical_positional_contract() -> Result<()> {
    let value = released();
    let encoded = value.canonical_bytes()?;
    assert_eq!(encoded[0], 0x99);
    assert_eq!(
        IdunnLifecycleBrakeRecord::decode_canonical(&encoded)?,
        value
    );

    let mut noncanonical = vec![0xdc, 0, 9];
    noncanonical.extend_from_slice(&encoded[1..]);
    assert!(IdunnLifecycleBrakeRecord::decode_canonical(&noncanonical).is_err());

    let mut extended = encoded;
    extended[0] = 0x9a;
    extended.push(0xc0);
    assert!(IdunnLifecycleBrakeRecord::decode_canonical(&extended).is_err());
    Ok(())
}

#[test]
fn absence_and_explicit_release_allow_only_the_named_continuity_restart() {
    assert_eq!(
        evaluate(IdunnLifecycleBrakeObservation::Missing, "ghostlight", 500),
        Ok(())
    );

    let mut value = released();
    assert_eq!(
        evaluate(
            IdunnLifecycleBrakeObservation::Present(&value),
            "ghostlight",
            500
        ),
        Ok(())
    );
    value.released_until_unix_millis = Some(900);
    assert_eq!(
        evaluate(
            IdunnLifecycleBrakeObservation::Present(&value),
            "ghostlight",
            899
        ),
        Ok(())
    );
    assert_eq!(
        evaluate(
            IdunnLifecycleBrakeObservation::Present(&value),
            "ghostlight",
            900
        ),
        Err(IdunnLifecycleBrakeDenial::Expired)
    );
    assert_eq!(
        evaluate(IdunnLifecycleBrakeObservation::Missing, "odin", 900),
        Ok(())
    );
    assert_eq!(
        evaluate(IdunnLifecycleBrakeObservation::Present(&value), "odin", 500),
        Err(IdunnLifecycleBrakeDenial::WrongTarget)
    );
}

#[test]
fn corrupt_foreign_wrong_runtime_and_wrong_target_records_deny() {
    assert_eq!(
        evaluate(IdunnLifecycleBrakeObservation::Corrupt, "ghostlight", 500),
        Err(IdunnLifecycleBrakeDenial::Corrupt)
    );

    let mut value = released();
    value.status = "paused".into();
    assert_eq!(
        evaluate(
            IdunnLifecycleBrakeObservation::Present(&value),
            "ghostlight",
            500
        ),
        Err(IdunnLifecycleBrakeDenial::Corrupt)
    );

    let mut value = released();
    value.authority = "service-owned".into();
    assert_eq!(
        evaluate(
            IdunnLifecycleBrakeObservation::Present(&value),
            "ghostlight",
            500
        ),
        Err(IdunnLifecycleBrakeDenial::Foreign)
    );

    let mut value = released();
    value.scope = "deployment".into();
    assert_eq!(
        evaluate(
            IdunnLifecycleBrakeObservation::Present(&value),
            "ghostlight",
            500
        ),
        Err(IdunnLifecycleBrakeDenial::Foreign)
    );

    let value = released();
    assert_eq!(
        evaluate_idunn_continuity_restart(
            IdunnLifecycleBrakeObservation::Present(&value),
            "idunn-nightwing",
            "ghostlight",
            500
        ),
        Err(IdunnLifecycleBrakeDenial::WrongRuntime)
    );
    assert_eq!(
        evaluate(IdunnLifecycleBrakeObservation::Present(&value), "odin", 500),
        Err(IdunnLifecycleBrakeDenial::WrongTarget)
    );
}

#[test]
fn engaged_always_denies_and_cannot_smuggle_a_release_expiry() {
    let mut value = released();
    value.status = "engaged".into();
    assert_eq!(
        evaluate(
            IdunnLifecycleBrakeObservation::Present(&value),
            "ghostlight",
            500
        ),
        Err(IdunnLifecycleBrakeDenial::Engaged)
    );
    value.released_until_unix_millis = Some(900);
    assert_eq!(
        evaluate(
            IdunnLifecycleBrakeObservation::Present(&value),
            "ghostlight",
            500
        ),
        Err(IdunnLifecycleBrakeDenial::Corrupt)
    );
}

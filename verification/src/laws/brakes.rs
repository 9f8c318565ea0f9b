//! The brakes: when a restart or a deployment is let through, and why not.
use vstd::prelude::*;
use super::words::{named, named_if_there, reads, says, text_rules};
use crate::error::CultNetError;
use crate::idunn_deployment_brake::{
    classify_idunn_deployment_brake, evaluate_idunn_deployment_brake,
    verify_idunn_deployment_brake_authorization, IdunnDeploymentBrakeDenial,
    IdunnDeploymentBrakeObservation, IdunnDeploymentBrakeRecord,
};
use crate::idunn_lifecycle_brake::{
    evaluate_idunn_continuity_restart, IdunnLifecycleBrakeDenial, IdunnLifecycleBrakeObservation,
    IdunnLifecycleBrakeRecord,
};
use crate::record::Record;
use crate::service_identity::ServiceIdentityTrustAnchor;

verus! {

/// What is asked of the record.
pub open spec fn deployment_brake_fits(record: IdunnDeploymentBrakeRecord) -> bool {
    &&& record.schema_version@ == "idunn.deployment_brake.v1"@
    &&& named(record.brake_id@)
    &&& named(record.authority@)
    &&& named(record.runtime_id@)
    &&& named(record.reason@)
    &&& named(record.scope@)
    &&& named(record.updated_by@)
    &&& ((record.status@ == "engaged"@ || record.status@ == "released"@) && record.observed_at_unix_millis > 0 && (record.expires_at_unix_millis matches Some(expires) ==> expires > record.observed_at_unix_millis) && !record.private_state_exposed)
    &&& (record.status@ == "engaged"@ ==> record.authorization_id is None && record.authorization_purpose is None && record.authorized_release_id is None && record.authorized_deployment_id is None && record.authorized_by is None && record.authorization_issued_at_unix_millis is None && record.authorization_expires_at_unix_millis is None && record.signature_algorithm is None && record.signature is None)
    &&& (record.status@ == "released"@ ==> record.authorization_id is Some && record.authorization_purpose is Some && record.authorized_release_id is Some && record.authorized_deployment_id is Some && record.authorized_by is Some && record.authorization_issued_at_unix_millis is Some && record.authorization_expires_at_unix_millis is Some && record.signature_algorithm is Some && record.signature is Some)
    &&& named_if_there(record.authorization_id)
    &&& named_if_there(record.authorized_release_id)
    &&& named_if_there(record.authorized_deployment_id)
    &&& named_if_there(record.authorized_by)
    &&& (record.status@ == "released"@ ==> reads(record.authorization_purpose, "idunn.deployment-release.v1"@) && reads(record.signature_algorithm, "ed25519"@) && record.signature->0@.len() == 64 && record.observed_at_unix_millis <= record.authorization_issued_at_unix_millis->0 && record.authorization_issued_at_unix_millis->0 < record.authorization_expires_at_unix_millis->0 && record.authorization_expires_at_unix_millis->0 - record.authorization_issued_at_unix_millis->0 <= 900_000 && (record.expires_at_unix_millis matches Some(end) ==> record.authorization_expires_at_unix_millis->0 <= end))
}

/// A deployment brake is taken exactly if these rules hold of its fields: an engaged one
/// carries no authorization, a released one a whole one, signed and for at most fifteen
/// minutes within the life of the brake.
pub proof fn deployment_brake_rules_are_exact(record: &IdunnDeploymentBrakeRecord, outcome: Result<(), CultNetError>)
    requires
        call_ensures(IdunnDeploymentBrakeRecord::validate, (record,), outcome),
    ensures
        ({
            if !(record.schema_version@ == "idunn.deployment_brake.v1"@) {
                says(outcome, "deployment brake schema is unsupported"@)
            } else if !(named(record.brake_id@)) {
                says(outcome, "brake id"@ + " is empty, oversized, or contains control characters"@)
            } else if !(named(record.authority@)) {
                says(outcome, "authority"@ + " is empty, oversized, or contains control characters"@)
            } else if !(named(record.runtime_id@)) {
                says(outcome, "runtime id"@ + " is empty, oversized, or contains control characters"@)
            } else if !(named(record.reason@)) {
                says(outcome, "reason"@ + " is empty, oversized, or contains control characters"@)
            } else if !(named(record.scope@)) {
                says(outcome, "scope"@ + " is empty, oversized, or contains control characters"@)
            } else if !(named(record.updated_by@)) {
                says(outcome, "updating operator"@ + " is empty, oversized, or contains control characters"@)
            } else if !((record.status@ == "engaged"@ || record.status@ == "released"@) && record.observed_at_unix_millis > 0 && (record.expires_at_unix_millis matches Some(expires) ==> expires > record.observed_at_unix_millis) && !record.private_state_exposed) {
                says(outcome, "deployment brake shape, lifetime, or privacy is invalid"@)
            } else if !(record.status@ == "engaged"@ ==> record.authorization_id is None && record.authorization_purpose is None && record.authorized_release_id is None && record.authorized_deployment_id is None && record.authorized_by is None && record.authorization_issued_at_unix_millis is None && record.authorization_expires_at_unix_millis is None && record.signature_algorithm is None && record.signature is None) {
                says(outcome, "engaged deployment brake must not carry release authorization"@)
            } else if !(record.status@ == "released"@ ==> record.authorization_id is Some && record.authorization_purpose is Some && record.authorized_release_id is Some && record.authorized_deployment_id is Some && record.authorized_by is Some && record.authorization_issued_at_unix_millis is Some && record.authorization_expires_at_unix_millis is Some && record.signature_algorithm is Some && record.signature is Some) {
                says(outcome, "released deployment brake authorization is incomplete"@)
            } else if !(named_if_there(record.authorization_id)) {
                says(outcome, "authorization id"@ + " is empty, oversized, or contains control characters"@)
            } else if !(named_if_there(record.authorized_release_id)) {
                says(outcome, "authorized release id"@ + " is empty, oversized, or contains control characters"@)
            } else if !(named_if_there(record.authorized_deployment_id)) {
                says(outcome, "authorized deployment id"@ + " is empty, oversized, or contains control characters"@)
            } else if !(named_if_there(record.authorized_by)) {
                says(outcome, "authorizer"@ + " is empty, oversized, or contains control characters"@)
            } else if !(record.status@ == "released"@ ==> reads(record.authorization_purpose, "idunn.deployment-release.v1"@) && reads(record.signature_algorithm, "ed25519"@) && record.signature->0@.len() == 64 && record.observed_at_unix_millis <= record.authorization_issued_at_unix_millis->0 && record.authorization_issued_at_unix_millis->0 < record.authorization_expires_at_unix_millis->0 && record.authorization_expires_at_unix_millis->0 - record.authorization_issued_at_unix_millis->0 <= 900_000 && (record.expires_at_unix_millis matches Some(end) ==> record.authorization_expires_at_unix_millis->0 <= end)) {
                says(outcome, "deployment release authorization purpose, signature, or lifetime is invalid"@)
            } else {
                outcome is Ok
            }
        }),
        outcome is Ok <==> deployment_brake_fits(*record),
        record.violation() is None <==> deployment_brake_fits(*record),
{
    broadcast use text_rules;

    reveal_strlit("engaged");
    assert("engaged"@.len() == 7);
    reveal_strlit("released");
    assert("released"@.len() == 8);
}

proof fn deployment_brake_is_taken(record: IdunnDeploymentBrakeRecord)
    ensures
        record.violation() is None <==> deployment_brake_fits(record),
{
    broadcast use text_rules;

    reveal_strlit("engaged");
    assert("engaged"@.len() == 7);
    reveal_strlit("released");
    assert("released"@.len() == 8);
}

/// What is asked of the record.
pub open spec fn lifecycle_brake_fits(record: IdunnLifecycleBrakeRecord) -> bool {
    &&& record.schema_version@ == "idunn.lifecycle_brake.v1"@
    &&& named(record.authority@)
    &&& named(record.runtime_id@)
    &&& named(record.target@)
    &&& named(record.scope@)
    &&& named(record.reason@)
    &&& ((record.status@ == "engaged"@ || record.status@ == "released"@) && record.updated_at_unix_millis > 0)
    &&& (record.status@ == "engaged"@ ==> record.released_until_unix_millis is None)
    &&& (record.released_until_unix_millis matches Some(until) ==> until > record.updated_at_unix_millis)
}

/// A lifecycle brake is taken exactly if these rules hold of its fields.
pub proof fn lifecycle_brake_rules_are_exact(record: &IdunnLifecycleBrakeRecord, outcome: Result<(), CultNetError>)
    requires
        call_ensures(IdunnLifecycleBrakeRecord::validate, (record,), outcome),
    ensures
        ({
            if !(record.schema_version@ == "idunn.lifecycle_brake.v1"@) {
                says(outcome, "lifecycle brake schema is unsupported"@)
            } else if !(named(record.authority@)) {
                says(outcome, "authority"@ + " is empty, oversized, or contains control characters"@)
            } else if !(named(record.runtime_id@)) {
                says(outcome, "runtime id"@ + " is empty, oversized, or contains control characters"@)
            } else if !(named(record.target@)) {
                says(outcome, "target"@ + " is empty, oversized, or contains control characters"@)
            } else if !(named(record.scope@)) {
                says(outcome, "scope"@ + " is empty, oversized, or contains control characters"@)
            } else if !(named(record.reason@)) {
                says(outcome, "reason"@ + " is empty, oversized, or contains control characters"@)
            } else if !((record.status@ == "engaged"@ || record.status@ == "released"@) && record.updated_at_unix_millis > 0) {
                says(outcome, "lifecycle brake status or update time is invalid"@)
            } else if !(record.status@ == "engaged"@ ==> record.released_until_unix_millis is None) {
                says(outcome, "engaged lifecycle brake cannot carry a release expiry"@)
            } else if !(record.released_until_unix_millis matches Some(until) ==> until > record.updated_at_unix_millis) {
                says(outcome, "lifecycle brake release expiry is not after its update"@)
            } else {
                outcome is Ok
            }
        }),
        outcome is Ok <==> lifecycle_brake_fits(*record),
        record.violation() is None <==> lifecycle_brake_fits(*record),
{
    broadcast use text_rules;

    reveal_strlit("engaged");
    assert("engaged"@.len() == 7);
    reveal_strlit("released");
    assert("released"@.len() == 8);
}

proof fn lifecycle_brake_is_taken(record: IdunnLifecycleBrakeRecord)
    ensures
        record.violation() is None <==> lifecycle_brake_fits(record),
{
    broadcast use text_rules;

    reveal_strlit("engaged");
    assert("engaged"@.len() == 7);
    reveal_strlit("released");
    assert("released"@.len() == 8);
}

/// The time lies in the interval of the authorization, from its issue and before its end,
/// and before the end of the brake, if it has one.
pub open spec fn authorized_at(record: IdunnDeploymentBrakeRecord, now: u64) -> bool {
    &&& record.authorization_issued_at_unix_millis matches Some(start) && start <= now
    &&& record.authorization_expires_at_unix_millis matches Some(end) && now < end
    &&& record.expires_at_unix_millis matches Some(end) ==> now < end
}

/// The brake is Idunn's own, and it is released for exactly this runtime, release and
/// deployment at this time.
pub open spec fn released_for(
    record: IdunnDeploymentBrakeRecord,
    runtime_id: Seq<char>,
    release_id: Seq<char>,
    deployment_id: Seq<char>,
    now: u64,
) -> bool {
    &&& deployment_brake_fits(record)
    &&& record.brake_id@ == "idunn/deployment-brake"@
    &&& record.authority@ == "idunn.deployment-brake"@
    &&& record.runtime_id@ == runtime_id
    &&& record.scope@ == "all"@ || record.scope@ == "deployment"@
    &&& record.status@ == "released"@
    &&& authorized_at(record, now)
    &&& reads(record.authorized_release_id, release_id)
    &&& reads(record.authorized_deployment_id, deployment_id)
}

/// A deployment is classified as permitted exactly if the brake is released for it, and
/// each denial names the first point on which the brake is not.
pub proof fn a_deployment_is_classified_exactly(
    record: &IdunnDeploymentBrakeRecord,
    runtime_id: &str,
    release_id: &str,
    deployment_id: &str,
    now: u64,
    outcome: Result<(), IdunnDeploymentBrakeDenial>,
    missing: Result<(), IdunnDeploymentBrakeDenial>,
    corrupt: Result<(), IdunnDeploymentBrakeDenial>,
)
    requires
        call_ensures(
            classify_idunn_deployment_brake,
            (IdunnDeploymentBrakeObservation::Present(record), runtime_id, release_id, deployment_id, now),
            outcome,
        ),
        call_ensures(
            classify_idunn_deployment_brake,
            (IdunnDeploymentBrakeObservation::Missing, runtime_id, release_id, deployment_id, now),
            missing,
        ),
        call_ensures(
            classify_idunn_deployment_brake,
            (IdunnDeploymentBrakeObservation::Corrupt, runtime_id, release_id, deployment_id, now),
            corrupt,
        ),
    ensures
        missing matches Err(denial) && denial is Missing,
        corrupt matches Err(denial) && denial is Corrupt,
        outcome is Ok <==> released_for(*record, runtime_id@, release_id@, deployment_id@, now),
        ({
            if !deployment_brake_fits(*record) {
                outcome matches Err(denial) && denial is Corrupt
            } else if record.brake_id@ != "idunn/deployment-brake"@ || record.authority@
                != "idunn.deployment-brake"@ {
                outcome matches Err(denial) && denial is Foreign
            } else if record.runtime_id@ != runtime_id@ {
                outcome matches Err(denial) && denial is WrongRuntime
            } else if record.scope@ != "all"@ && record.scope@ != "deployment"@ {
                outcome matches Err(denial) && denial is WrongScope
            } else if record.status@ == "engaged"@ {
                outcome matches Err(denial) && denial is Engaged
            } else if !authorized_at(*record, now) {
                outcome matches Err(denial) && denial is Expired
            } else if !reads(record.authorized_release_id, release_id@) {
                outcome matches Err(denial) && denial is ReleaseMismatch
            } else if !reads(record.authorized_deployment_id, deployment_id@) {
                outcome matches Err(denial) && denial is DeploymentMismatch
            } else {
                outcome is Ok
            }
        }),
{
    deployment_brake_is_taken(*record);
    reveal_strlit("engaged");
    reveal_strlit("released");
    assert("engaged"@.len() != "released"@.len());
}

/// A deployment is let through exactly if the brake is released for it and the operator's
/// anchor verifies the authorization; a release that does not verify is denied for that.
pub proof fn a_deployment_is_let_through_exactly_if_it_is_released_and_signed(
    record: &IdunnDeploymentBrakeRecord,
    anchor: &ServiceIdentityTrustAnchor,
    runtime_id: &str,
    release_id: &str,
    deployment_id: &str,
    now: u64,
    verified: Result<(), CultNetError>,
    outcome: Result<(), IdunnDeploymentBrakeDenial>,
    missing: Result<(), IdunnDeploymentBrakeDenial>,
    corrupt: Result<(), IdunnDeploymentBrakeDenial>,
)
    requires
        call_ensures(verify_idunn_deployment_brake_authorization, (record, anchor), verified),
        call_ensures(
            evaluate_idunn_deployment_brake,
            (IdunnDeploymentBrakeObservation::Present(record), anchor, runtime_id, release_id, deployment_id, now),
            outcome,
        ),
        call_ensures(
            evaluate_idunn_deployment_brake,
            (IdunnDeploymentBrakeObservation::Missing, anchor, runtime_id, release_id, deployment_id, now),
            missing,
        ),
        call_ensures(
            evaluate_idunn_deployment_brake,
            (IdunnDeploymentBrakeObservation::Corrupt, anchor, runtime_id, release_id, deployment_id, now),
            corrupt,
        ),
    ensures
        missing matches Err(denial) && denial is Missing,
        corrupt matches Err(denial) && denial is Corrupt,
        outcome is Ok <==> released_for(*record, runtime_id@, release_id@, deployment_id@, now) && verified is Ok,
        released_for(*record, runtime_id@, release_id@, deployment_id@, now) && verified is Err ==> (outcome matches Err(
            denial,
        ) && denial is InvalidSignature),
        verified is Ok ==> deployment_brake_fits(*record) && record.status@ == "released"@,
{
    deployment_brake_is_taken(*record);
    reveal_strlit("engaged");
    reveal_strlit("released");
    assert("engaged"@.len() != "released"@.len());
}

/// An authorization that lives no longer than fifteen minutes and lies within the life of
/// its brake is not refused for its lifetime, whatever its length; one that lives longer
/// always is.
pub proof fn lifetimes_up_to_fifteen_minutes_are_taken(
    record: &IdunnDeploymentBrakeRecord,
    longer: &IdunnDeploymentBrakeRecord,
    outcome: Result<(), CultNetError>,
    refused: Result<(), CultNetError>,
    expires: u64,
)
    requires
        call_ensures(IdunnDeploymentBrakeRecord::validate, (record,), outcome),
        call_ensures(IdunnDeploymentBrakeRecord::validate, (longer,), refused),
        outcome is Ok,
        record.status@ == "released"@,
        record.authorization_issued_at_unix_millis->0 < expires,
        record.expires_at_unix_millis matches Some(end) ==> expires <= end,
        *longer == (IdunnDeploymentBrakeRecord { authorization_expires_at_unix_millis: Some(expires), ..*record }),
    ensures
        refused is Ok <==> expires - record.authorization_issued_at_unix_millis->0 <= 15 * 60 * 1000,
{
    deployment_brake_rules_are_exact(record, outcome);
    deployment_brake_rules_are_exact(longer, refused);
}

/// A restart is let through exactly if there is no brake, or a valid one of Idunn's root
/// for this runtime and target that is released and has not run out.
pub proof fn a_restart_is_let_through_exactly_if_nothing_holds_it(
    record: &IdunnLifecycleBrakeRecord,
    runtime_id: &str,
    target: &str,
    now: u64,
    outcome: Result<(), IdunnLifecycleBrakeDenial>,
    missing: Result<(), IdunnLifecycleBrakeDenial>,
    corrupt: Result<(), IdunnLifecycleBrakeDenial>,
)
    requires
        call_ensures(
            evaluate_idunn_continuity_restart,
            (IdunnLifecycleBrakeObservation::Present(record), runtime_id, target, now),
            outcome,
        ),
        call_ensures(
            evaluate_idunn_continuity_restart,
            (IdunnLifecycleBrakeObservation::Missing, runtime_id, target, now),
            missing,
        ),
        call_ensures(
            evaluate_idunn_continuity_restart,
            (IdunnLifecycleBrakeObservation::Corrupt, runtime_id, target, now),
            corrupt,
        ),
    ensures
        missing is Ok,
        corrupt matches Err(denial) && denial is Corrupt,
        outcome is Ok <==> {
            &&& lifecycle_brake_fits(*record)
            &&& record.authority@ == "idunn.root"@
            &&& record.scope@ == "continuity-restart"@
            &&& record.runtime_id@ == runtime_id@
            &&& record.target@ == target@
            &&& record.status@ == "released"@
            &&& record.released_until_unix_millis matches Some(until) ==> now < until
        },
        ({
            if !lifecycle_brake_fits(*record) {
                outcome matches Err(denial) && denial is Corrupt
            } else if record.authority@ != "idunn.root"@ || record.scope@ != "continuity-restart"@ {
                outcome matches Err(denial) && denial is Foreign
            } else if record.runtime_id@ != runtime_id@ {
                outcome matches Err(denial) && denial is WrongRuntime
            } else if record.target@ != target@ {
                outcome matches Err(denial) && denial is WrongTarget
            } else if record.status@ == "engaged"@ {
                outcome matches Err(denial) && denial is Engaged
            } else if record.released_until_unix_millis matches Some(until) && until <= now {
                outcome matches Err(denial) && denial is Expired
            } else {
                outcome is Ok
            }
        }),
{
    lifecycle_brake_is_taken(*record);
    reveal_strlit("engaged");
    reveal_strlit("released");
    assert("engaged"@.len() != "released"@.len());
}

}

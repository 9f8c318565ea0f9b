//! Idunn's deployment brake: one release and one deployment attempt, permitted for a
//! short interval by a signature of the operator.
use vstd::prelude::*;
use crate::error::{ensure, first_of, refuse, reports, unless, CultNetError};
use crate::text::byte_length_is_bounded;
use crate::record::{
    byte_list_is_plain, flag_field, number_field, optional_byte_list, optional_byte_list_field,
    optional_byte_list_is_faithful, optional_number, optional_number_field, optional_text,
    optional_text_field, read_flag, read_items, read_number, read_optional_byte_list,
    read_optional_number, read_optional_text, read_text, sequence_field, text_field, with_field,
    Record,
};
use crate::rules::{
    check_identifier, check_optional_identifier, identifier_violation,
    optional_identifier_violation,
};
use crate::service_identity::{
    anchor_violation, proof_violation, verify_service_identity_signature,
    IdunnDeploymentBrakeOperatorIdentity, IdunnDeploymentBrakeReleasePurpose,
    ServiceIdentitySignature, ServiceIdentityTrustAnchor,
};
use crate::text::{copy_bytes, holds_text, opt, same_text};
use crate::wire::{
    carried, encode_messagepack, messagepack_encoding, plain, plain_with_field, trees, Wire,
    WireValue,
};

verus! {

pub const IDUNN_DEPLOYMENT_BRAKE_SCHEMA: &'static str = "idunn.deployment_brake.v1";

pub const IDUNN_DEPLOYMENT_BRAKE_TYPE: &'static str = "idunn.deployment_brake";

pub const IDUNN_DEPLOYMENT_BRAKE_ID: &'static str = "idunn/deployment-brake";

pub const IDUNN_DEPLOYMENT_BRAKE_AUTHORITY: &'static str = "idunn.deployment-brake";

pub const IDUNN_DEPLOYMENT_BRAKE_SCOPE: &'static str = "deployment";

pub const IDUNN_DEPLOYMENT_RELEASE_PURPOSE: &'static str = "idunn.deployment-release.v1";

/// Fifteen minutes.
pub const IDUNN_DEPLOYMENT_RELEASE_MAX_LIFETIME_MILLIS: u64 = 900_000;

/// Canonical deployment-facing brake projection consumed by Idunn. A released
/// status is not permission by itself: the authorization fields bind one
/// release and one deployment attempt for a short, explicit interval.
#[derive(Clone, Debug, PartialEq, Eq)]
pub struct IdunnDeploymentBrakeRecord {
    pub schema_version: String,
    pub brake_id: String,
    pub authority: String,
    pub runtime_id: String,
    pub status: String,
    pub scope: String,
    pub reason: String,
    pub observed_at_unix_millis: u64,
    pub expires_at_unix_millis: Option<u64>,
    pub authorization_id: Option<String>,
    pub authorization_purpose: Option<String>,
    pub authorized_release_id: Option<String>,
    pub authorized_deployment_id: Option<String>,
    pub authorized_by: Option<String>,
    pub authorization_issued_at_unix_millis: Option<u64>,
    pub authorization_expires_at_unix_millis: Option<u64>,
    pub signature_algorithm: Option<String>,
    pub signature: Option<Vec<u8>>,
    pub private_state_exposed: bool,
    /// Human/operator principal responsible for the latest transition. This is
    /// distinct from `authorized_by`, which is the cryptographic identity id.
    pub updated_by: String,
}

impl Record for IdunnDeploymentBrakeRecord {
    open spec fn wire(self) -> Wire {
        Wire::Sequence(
            seq![
                Wire::Text(self.schema_version@),
                Wire::Text(self.brake_id@),
                Wire::Text(self.authority@),
                Wire::Text(self.runtime_id@),
                Wire::Text(self.status@),
                Wire::Text(self.scope@),
                Wire::Text(self.reason@),
                Wire::Unsigned(self.observed_at_unix_millis),
                optional_number(self.expires_at_unix_millis),
                optional_text(opt(self.authorization_id)),
                optional_text(opt(self.authorization_purpose)),
                optional_text(opt(self.authorized_release_id)),
                optional_text(opt(self.authorized_deployment_id)),
                optional_text(opt(self.authorized_by)),
                optional_number(self.authorization_issued_at_unix_millis),
                optional_number(self.authorization_expires_at_unix_millis),
                optional_text(opt(self.signature_algorithm)),
                optional_byte_list(self.signature),
                Wire::Flag(self.private_state_exposed),
                Wire::Text(self.updated_by@),
            ],
        )
    }

    open spec fn width() -> nat {
        20
    }

    open spec fn depth() -> nat {
        2
    }

    open spec fn violation(self) -> Option<Seq<char>> {
        if self.schema_version@ != IDUNN_DEPLOYMENT_BRAKE_SCHEMA@ {
            Some("deployment brake schema is unsupported"@)
        } else if identifier_violation(self.brake_id@, "brake id"@) is Some {
            identifier_violation(self.brake_id@, "brake id"@)
        } else if identifier_violation(self.authority@, "authority"@) is Some {
            identifier_violation(self.authority@, "authority"@)
        } else if identifier_violation(self.runtime_id@, "runtime id"@) is Some {
            identifier_violation(self.runtime_id@, "runtime id"@)
        } else if identifier_violation(self.reason@, "reason"@) is Some {
            identifier_violation(self.reason@, "reason"@)
        } else if identifier_violation(self.scope@, "scope"@) is Some {
            identifier_violation(self.scope@, "scope"@)
        } else if identifier_violation(self.updated_by@, "updating operator"@) is Some {
            identifier_violation(self.updated_by@, "updating operator"@)
        } else if !self.shape_is_valid() {
            Some("deployment brake shape, lifetime, or privacy is invalid"@)
        } else if self.status@ == "engaged"@ && self.carries_authorization() {
            Some("engaged deployment brake must not carry release authorization"@)
        } else if self.status@ != "engaged"@ && !self.authorization_is_complete() {
            Some("released deployment brake authorization is incomplete"@)
        } else if self.status@ != "engaged"@ {
            self.release_violation()
        } else {
            None
        }
    }

    proof fn shape(self) {
        let fields = self.wire()->Sequence_0;
        if let Some(found) = self.signature {
            byte_list_is_plain(found@);
        }
        assert forall|i: int| 0 <= i < fields.len() implies plain(#[trigger] fields[i]) by {}
    }

    #[verifier::rlimit(60)]
    proof fn valid_is_carried(self) {
        byte_length_is_bounded(self.schema_version@);
        byte_length_is_bounded(self.status@);
        reveal_strlit("idunn.deployment_brake.v1");
        reveal_strlit("engaged");
        reveal_strlit("released");
        if self.status@ != "engaged"@ {
            byte_length_is_bounded(IDUNN_DEPLOYMENT_RELEASE_PURPOSE@);
            reveal_strlit("idunn.deployment-release.v1");
            byte_length_is_bounded("ed25519"@);
            reveal_strlit("ed25519");
        }
        let fields = self.wire()->Sequence_0;
        if let Some(found) = self.signature {
            byte_list_is_plain(found@);
        }
        assert forall|i: int| 0 <= i < fields.len() implies carried(#[trigger] fields[i], 1) by {}
    }

    proof fn wire_decides(self, other: Self) {
        let (a, b) = (self.wire()->Sequence_0, other.wire()->Sequence_0);
        assert(a[0] == b[0] && a[1] == b[1] && a[2] == b[2] && a[3] == b[3] && a[4] == b[4] && a[5] == b[5]);
        assert(a[6] == b[6] && a[7] == b[7] && a[8] == b[8] && a[9] == b[9] && a[10] == b[10] && a[11] == b[11]);
        assert(a[12] == b[12] && a[13] == b[13] && a[14] == b[14] && a[15] == b[15] && a[16] == b[16] && a[17] == b[17]);
        assert(a[18] == b[18] && a[19] == b[19]);
        optional_byte_list_is_faithful(self.signature, other.signature);
    }

    fn to_wire(&self) -> (field: WireValue) {
        let field = sequence_field(
            vec![
                text_field(&self.schema_version),
                text_field(&self.brake_id),
                text_field(&self.authority),
                text_field(&self.runtime_id),
                text_field(&self.status),
                text_field(&self.scope),
                text_field(&self.reason),
                number_field(self.observed_at_unix_millis),
                optional_number_field(self.expires_at_unix_millis),
                optional_text_field(&self.authorization_id),
                optional_text_field(&self.authorization_purpose),
                optional_text_field(&self.authorized_release_id),
                optional_text_field(&self.authorized_deployment_id),
                optional_text_field(&self.authorized_by),
                optional_number_field(self.authorization_issued_at_unix_millis),
                optional_number_field(self.authorization_expires_at_unix_millis),
                optional_text_field(&self.signature_algorithm),
                optional_byte_list_field(&self.signature),
                flag_field(self.private_state_exposed),
                text_field(&self.updated_by),
            ],
        );
        assert(field@->Sequence_0 =~= self.wire()->Sequence_0);
        field
    }

    fn from_wire(field: &WireValue) -> (record: Option<Self>) {
        let items = match read_items(field, 20) {
            Some(found) => found,
            None => {
                return None;
            },
        };
        let ghost all = trees(items@);
        assert forall|any: Self| #[trigger] any.wire() == field@ implies {
            &&& all[0] is Text
            &&& all[1] is Text
            &&& all[2] is Text
            &&& all[3] is Text
            &&& all[4] is Text
            &&& all[5] is Text
            &&& all[6] is Text
            &&& all[7] is Unsigned
            &&& all[8] is Unsigned || all[8] is Nil
            &&& all[9] is Text || all[9] is Nil
            &&& all[10] is Text || all[10] is Nil
            &&& all[11] is Text || all[11] is Nil
            &&& all[12] is Text || all[12] is Nil
            &&& all[13] is Text || all[13] is Nil
            &&& all[14] is Unsigned || all[14] is Nil
            &&& all[15] is Unsigned || all[15] is Nil
            &&& all[16] is Text || all[16] is Nil
            &&& all[17] == optional_byte_list(any.signature)
            &&& all[18] is Flag
            &&& all[19] is Text
        } by {
            assert(any.wire()->Sequence_0 == all);
        }
        let record = IdunnDeploymentBrakeRecord {
            schema_version: read_text(&items[0])?,
            brake_id: read_text(&items[1])?,
            authority: read_text(&items[2])?,
            runtime_id: read_text(&items[3])?,
            status: read_text(&items[4])?,
            scope: read_text(&items[5])?,
            reason: read_text(&items[6])?,
            observed_at_unix_millis: read_number(&items[7])?,
            expires_at_unix_millis: read_optional_number(&items[8])?,
            authorization_id: read_optional_text(&items[9])?,
            authorization_purpose: read_optional_text(&items[10])?,
            authorized_release_id: read_optional_text(&items[11])?,
            authorized_deployment_id: read_optional_text(&items[12])?,
            authorized_by: read_optional_text(&items[13])?,
            authorization_issued_at_unix_millis: read_optional_number(&items[14])?,
            authorization_expires_at_unix_millis: read_optional_number(&items[15])?,
            signature_algorithm: read_optional_text(&items[16])?,
            signature: read_optional_byte_list(&items[17])?,
            private_state_exposed: read_flag(&items[18])?,
            updated_by: read_text(&items[19])?,
        };
        assert(record.wire()->Sequence_0 =~= all);
        Some(record)
    }

    fn check(&self) -> (outcome: Result<(), CultNetError>) {
        self.validate()
    }
}

impl IdunnDeploymentBrakeRecord {
    /// Status, times and privacy are as every brake has them.
    pub open spec fn shape_is_valid(self) -> bool {
        &&& self.status@ == "engaged"@ || self.status@ == "released"@
        &&& self.observed_at_unix_millis != 0
        &&& self.expires_at_unix_millis matches Some(expires) ==> expires > self.observed_at_unix_millis
        &&& !self.private_state_exposed
    }

    /// Some field of a release authorization is there.
    pub open spec fn carries_authorization(self) -> bool {
        ||| self.authorization_id is Some
        ||| self.authorization_purpose is Some
        ||| self.authorized_release_id is Some
        ||| self.authorized_deployment_id is Some
        ||| self.authorized_by is Some
        ||| self.authorization_issued_at_unix_millis is Some
        ||| self.authorization_expires_at_unix_millis is Some
        ||| self.signature_algorithm is Some
        ||| self.signature is Some
    }

    /// Every field of a release authorization is there.
    pub open spec fn authorization_is_complete(self) -> bool {
        &&& self.authorization_id is Some
        &&& self.authorization_purpose is Some
        &&& self.authorized_release_id is Some
        &&& self.authorized_deployment_id is Some
        &&& self.authorized_by is Some
        &&& self.authorization_issued_at_unix_millis is Some
        &&& self.authorization_expires_at_unix_millis is Some
        &&& self.signature_algorithm is Some
        &&& self.signature is Some
    }

    /// The authorization is for a deployment release, signed with Ed25519, and its
    /// interval lies within the brake's own and within the longest lifetime.
    pub open spec fn authorization_is_valid(self) -> bool {
        let issued = self.authorization_issued_at_unix_millis->0;
        let expires = self.authorization_expires_at_unix_millis->0;
        &&& opt(self.authorization_purpose) == Some(IDUNN_DEPLOYMENT_RELEASE_PURPOSE@)
        &&& opt(self.signature_algorithm) == Some("ed25519"@)
        &&& self.signature->0@.len() == 64
        &&& self.observed_at_unix_millis <= issued < expires
        &&& expires - issued <= IDUNN_DEPLOYMENT_RELEASE_MAX_LIFETIME_MILLIS
        &&& self.expires_at_unix_millis matches Some(end) ==> expires <= end
    }

    /// Why a complete release authorization is refused, if it is.
    pub open spec fn release_violation(self) -> Option<Seq<char>> {
        first_of(
            optional_identifier_violation(opt(self.authorization_id), "authorization id"@),
            first_of(
                optional_identifier_violation(opt(self.authorized_release_id), "authorized release id"@),
                first_of(
                    optional_identifier_violation(
                        opt(self.authorized_deployment_id),
                        "authorized deployment id"@,
                    ),
                    first_of(
                        optional_identifier_violation(opt(self.authorized_by), "authorizer"@),
                        unless(
                            self.authorization_is_valid(),
                            "deployment release authorization purpose, signature, or lifetime is invalid"@,
                        ),
                    ),
                ),
            ),
        )
    }

    /// The positional form without its signature: what the operator signs.
    pub open spec fn unsigned_wire(self) -> Wire {
        Wire::Sequence(self.wire()->Sequence_0.update(17, Wire::Nil))
    }

    pub fn validate(&self) -> (outcome: Result<(), CultNetError>)
        ensures
            reports(outcome, self.violation()),
    {
        ensure(
            same_text(&self.schema_version, IDUNN_DEPLOYMENT_BRAKE_SCHEMA),
            "deployment brake schema is unsupported",
        )?;
        check_identifier(&self.brake_id, "brake id")?;
        check_identifier(&self.authority, "authority")?;
        check_identifier(&self.runtime_id, "runtime id")?;
        check_identifier(&self.reason, "reason")?;
        check_identifier(&self.scope, "scope")?;
        check_identifier(&self.updated_by, "updating operator")?;
        let engaged = same_text(&self.status, "engaged");
        let in_time = match self.expires_at_unix_millis {
            Some(expires) => expires > self.observed_at_unix_millis,
            None => true,
        };
        ensure(
            (engaged || same_text(&self.status, "released")) && self.observed_at_unix_millis != 0 && in_time
                && !self.private_state_exposed,
            "deployment brake shape, lifetime, or privacy is invalid",
        )?;
        if engaged {
            let carries = self.authorization_id.is_some() || self.authorization_purpose.is_some()
                || self.authorized_release_id.is_some() || self.authorized_deployment_id.is_some()
                || self.authorized_by.is_some() || self.signature_algorithm.is_some()
                || self.authorization_issued_at_unix_millis.is_some()
                || self.authorization_expires_at_unix_millis.is_some() || self.signature.is_some();
            return ensure(
                !carries,
                "engaged deployment brake must not carry release authorization",
            );
        }
        match (
            &self.signature,
            self.authorization_issued_at_unix_millis,
            self.authorization_expires_at_unix_millis,
        ) {
            (Some(signature), Some(issued), Some(expires)) => {
                ensure(
                    self.authorization_id.is_some() && self.authorization_purpose.is_some()
                        && self.authorized_release_id.is_some() && self.authorized_deployment_id.is_some()
                        && self.authorized_by.is_some() && self.signature_algorithm.is_some(),
                    "released deployment brake authorization is incomplete",
                )?;
                check_optional_identifier(&self.authorization_id, "authorization id")?;
                check_optional_identifier(&self.authorized_release_id, "authorized release id")?;
                check_optional_identifier(&self.authorized_deployment_id, "authorized deployment id")?;
                check_optional_identifier(&self.authorized_by, "authorizer")?;
                let within_brake = match self.expires_at_unix_millis {
                    Some(end) => expires <= end,
                    None => true,
                };
                ensure(
                    holds_text(&self.authorization_purpose, IDUNN_DEPLOYMENT_RELEASE_PURPOSE) && holds_text(
                        &self.signature_algorithm,
                        "ed25519",
                    ) && signature.len() == 64 && issued >= self.observed_at_unix_millis && expires > issued
                        && expires - issued <= IDUNN_DEPLOYMENT_RELEASE_MAX_LIFETIME_MILLIS && within_brake,
                    "deployment release authorization purpose, signature, or lifetime is invalid",
                )
            },
            _ => refuse("released deployment brake authorization is incomplete"),
        }
    }
}

#[derive(Clone, Copy, Debug)]
pub enum IdunnDeploymentBrakeObservation<'a> {
    Missing,
    Corrupt,
    Present(&'a IdunnDeploymentBrakeRecord),
}

#[derive(Clone, Copy, Debug, PartialEq, Eq, Structural)]
pub enum IdunnDeploymentBrakeDenial {
    Missing,
    Corrupt,
    Foreign,
    WrongRuntime,
    WrongScope,
    Engaged,
    Expired,
    ReleaseMismatch,
    DeploymentMismatch,
    InvalidSignature,
}

/// Why the deployment is denied at the given time before any signature is looked at,
/// if it is.
pub open spec fn deployment_denial(
    observation: IdunnDeploymentBrakeObservation<'_>,
    runtime_id: Seq<char>,
    release_id: Seq<char>,
    deployment_id: Seq<char>,
    now: u64,
) -> Option<IdunnDeploymentBrakeDenial> {
    match observation {
        IdunnDeploymentBrakeObservation::Missing => Some(IdunnDeploymentBrakeDenial::Missing),
        IdunnDeploymentBrakeObservation::Corrupt => Some(IdunnDeploymentBrakeDenial::Corrupt),
        IdunnDeploymentBrakeObservation::Present(record) => {
            if record.violation() is Some {
                Some(IdunnDeploymentBrakeDenial::Corrupt)
            } else if record.brake_id@ != IDUNN_DEPLOYMENT_BRAKE_ID@ || record.authority@
                != IDUNN_DEPLOYMENT_BRAKE_AUTHORITY@ {
                Some(IdunnDeploymentBrakeDenial::Foreign)
            } else if record.runtime_id@ != runtime_id {
                Some(IdunnDeploymentBrakeDenial::WrongRuntime)
            } else if record.scope@ != "all"@ && record.scope@ != IDUNN_DEPLOYMENT_BRAKE_SCOPE@ {
                Some(IdunnDeploymentBrakeDenial::WrongScope)
            } else if record.status@ == "engaged"@ {
                Some(IdunnDeploymentBrakeDenial::Engaged)
            } else if !in_force(*record, now) {
                Some(IdunnDeploymentBrakeDenial::Expired)
            } else if opt(record.authorized_release_id) != Some(release_id) {
                Some(IdunnDeploymentBrakeDenial::ReleaseMismatch)
            } else if opt(record.authorized_deployment_id) != Some(deployment_id) {
                Some(IdunnDeploymentBrakeDenial::DeploymentMismatch)
            } else {
                None
            }
        },
    }
}

/// The time lies before the brake's end and within the authorization's interval.
pub open spec fn in_force(record: IdunnDeploymentBrakeRecord, now: u64) -> bool {
    &&& record.expires_at_unix_millis matches Some(end) ==> now < end
    &&& record.authorization_expires_at_unix_millis matches Some(end) && now < end
    &&& record.authorization_issued_at_unix_millis matches Some(start) && start <= now
}

/// Decides on everything but the signature whether the brake lets the deployment
/// through.
pub fn classify_idunn_deployment_brake(
    observation: IdunnDeploymentBrakeObservation<'_>,
    runtime_id: &str,
    release_id: &str,
    deployment_id: &str,
    now_unix_millis: u64,
) -> (outcome: Result<(), IdunnDeploymentBrakeDenial>)
    ensures
        match deployment_denial(observation, runtime_id@, release_id@, deployment_id@, now_unix_millis) {
            None => outcome is Ok,
            Some(denial) => outcome == Err::<(), IdunnDeploymentBrakeDenial>(denial),
        },
{
    let record = match observation {
        IdunnDeploymentBrakeObservation::Missing => {
            return Err(IdunnDeploymentBrakeDenial::Missing);
        },
        IdunnDeploymentBrakeObservation::Corrupt => {
            return Err(IdunnDeploymentBrakeDenial::Corrupt);
        },
        IdunnDeploymentBrakeObservation::Present(record) => record,
    };
    if record.validate().is_err() {
        return Err(IdunnDeploymentBrakeDenial::Corrupt);
    }
    if !same_text(&record.brake_id, IDUNN_DEPLOYMENT_BRAKE_ID) || !same_text(
        &record.authority,
        IDUNN_DEPLOYMENT_BRAKE_AUTHORITY,
    ) {
        return Err(IdunnDeploymentBrakeDenial::Foreign);
    }
    if !same_text(&record.runtime_id, runtime_id) {
        return Err(IdunnDeploymentBrakeDenial::WrongRuntime);
    }
    if !same_text(&record.scope, "all") && !same_text(&record.scope, IDUNN_DEPLOYMENT_BRAKE_SCOPE) {
        return Err(IdunnDeploymentBrakeDenial::WrongScope);
    }
    if same_text(&record.status, "engaged") {
        return Err(IdunnDeploymentBrakeDenial::Engaged);
    }
    let brake_holds = match record.expires_at_unix_millis {
        Some(end) => now_unix_millis < end,
        None => true,
    };
    let not_over = match record.authorization_expires_at_unix_millis {
        Some(end) => now_unix_millis < end,
        None => false,
    };
    let begun = match record.authorization_issued_at_unix_millis {
        Some(start) => start <= now_unix_millis,
        None => false,
    };
    if !brake_holds || !not_over || !begun {
        return Err(IdunnDeploymentBrakeDenial::Expired);
    }
    if !holds_text(&record.authorized_release_id, release_id) {
        return Err(IdunnDeploymentBrakeDenial::ReleaseMismatch);
    }
    if !holds_text(&record.authorized_deployment_id, deployment_id) {
        return Err(IdunnDeploymentBrakeDenial::DeploymentMismatch);
    }
    Ok(())
}

/// Why the operator's anchor does not vouch for the release grant, if it does not.
pub open spec fn authorization_violation(
    record: IdunnDeploymentBrakeRecord,
    anchor: ServiceIdentityTrustAnchor,
) -> Option<Seq<char>> {
    first_of(
        record.violation(),
        first_of(
            unless(
                record.status@ == "released"@,
                "engaged deployment brake has no release authorization to verify"@,
            ),
            first_of(
                anchor_violation::<IdunnDeploymentBrakeOperatorIdentity>(anchor),
                proof_violation::<IdunnDeploymentBrakeOperatorIdentity, IdunnDeploymentBrakeReleasePurpose>(
                    anchor.identity_id@,
                    anchor.public_key@,
                    messagepack_encoding(record.unsigned_wire()),
                    record.authorized_by->0@,
                    record.signature->0@,
                ),
            ),
        ),
    )
}

/// Verify the release grant using the dedicated operator public anchor. The
/// signed payload is the complete positional record with the signature field
/// empty, so authority, runtime, target IDs, and both time bounds are covered.
pub fn verify_idunn_deployment_brake_authorization(
    record: &IdunnDeploymentBrakeRecord,
    anchor: &ServiceIdentityTrustAnchor,
) -> (outcome: Result<(), CultNetError>)
    ensures
        reports(outcome, authorization_violation(*record, *anchor)),
{
    record.validate()?;
    ensure(
        same_text(&record.status, "released"),
        "engaged deployment brake has no release authorization to verify",
    )?;
    proof {
        reveal_strlit("engaged");
        reveal_strlit("released");
        assert("engaged"@.len() != "released"@.len());
    }
    match (&record.authorized_by, &record.signature) {
        (Some(identity_id), Some(signature)) => {
            proof {
                record.shape();
                plain_with_field(record.wire(), 17, Wire::Nil);
            }
            let unsigned = encode_messagepack(&with_field(record.to_wire(), 17, WireValue::Nil));
            let proof = ServiceIdentitySignature {
                identity_id: identity_id.clone(),
                signature: copy_bytes(signature),
            };
            verify_service_identity_signature::<
                IdunnDeploymentBrakeOperatorIdentity,
                IdunnDeploymentBrakeReleasePurpose,
            >(anchor, &unsigned, &proof)
        },
        _ => refuse("deployment brake authorization is absent"),
    }
}

/// Why the deployment is denied, signature and all, if it is.
pub open spec fn signed_deployment_denial(
    observation: IdunnDeploymentBrakeObservation<'_>,
    anchor: ServiceIdentityTrustAnchor,
    runtime_id: Seq<char>,
    release_id: Seq<char>,
    deployment_id: Seq<char>,
    now: u64,
) -> Option<IdunnDeploymentBrakeDenial> {
    let denial = deployment_denial(observation, runtime_id, release_id, deployment_id, now);
    if denial is Some {
        denial
    } else if observation matches IdunnDeploymentBrakeObservation::Present(record)
        && authorization_violation(*record, anchor) is None {
        None
    } else {
        Some(IdunnDeploymentBrakeDenial::InvalidSignature)
    }
}

pub fn evaluate_idunn_deployment_brake(
    observation: IdunnDeploymentBrakeObservation<'_>,
    operator_anchor: &ServiceIdentityTrustAnchor,
    runtime_id: &str,
    release_id: &str,
    deployment_id: &str,
    now_unix_millis: u64,
) -> (outcome: Result<(), IdunnDeploymentBrakeDenial>)
    ensures
        match signed_deployment_denial(
            observation,
            *operator_anchor,
            runtime_id@,
            release_id@,
            deployment_id@,
            now_unix_millis,
        ) {
            None => outcome is Ok,
            Some(denial) => outcome == Err::<(), IdunnDeploymentBrakeDenial>(denial),
        },
{
    let classified = classify_idunn_deployment_brake(
        observation,
        runtime_id,
        release_id,
        deployment_id,
        now_unix_millis,
    );
    if classified.is_err() {
        return classified;
    }
    match observation {
        IdunnDeploymentBrakeObservation::Present(record) => {
            if verify_idunn_deployment_brake_authorization(record, operator_anchor).is_ok() {
                Ok(())
            } else {
                Err(IdunnDeploymentBrakeDenial::InvalidSignature)
            }
        },
        _ => Err(IdunnDeploymentBrakeDenial::InvalidSignature),
    }
}

/// A deployment is let through only by a valid brake of Idunn's own that is released
/// for exactly this runtime, release and deployment, in an interval of at most
/// fifteen minutes that holds the time, with a signature of the operator over the
/// whole of it.
pub proof fn only_an_exact_signed_release_permits_a_deployment(
    record: IdunnDeploymentBrakeRecord,
    anchor: ServiceIdentityTrustAnchor,
    runtime_id: Seq<char>,
    release_id: Seq<char>,
    deployment_id: Seq<char>,
    now: u64,
)
    requires
        signed_deployment_denial(
            IdunnDeploymentBrakeObservation::Present(&record),
            anchor,
            runtime_id,
            release_id,
            deployment_id,
            now,
        ) is None,
    ensures
        record.violation() is None,
        record.status@ == "released"@,
        record.brake_id@ == IDUNN_DEPLOYMENT_BRAKE_ID@,
        record.authority@ == IDUNN_DEPLOYMENT_BRAKE_AUTHORITY@,
        record.runtime_id@ == runtime_id,
        opt(record.authorized_release_id) == Some(release_id),
        opt(record.authorized_deployment_id) == Some(deployment_id),
        record.authorization_issued_at_unix_millis->0 <= now < record.authorization_expires_at_unix_millis->0,
        record.authorization_expires_at_unix_millis->0 - record.authorization_issued_at_unix_millis->0
            <= IDUNN_DEPLOYMENT_RELEASE_MAX_LIFETIME_MILLIS,
        authorization_violation(record, anchor) is None,
{
}

/// An engaged brake, a missing one and a corrupt one never let a deployment through.
pub proof fn engaged_missing_and_corrupt_brakes_deny(
    record: IdunnDeploymentBrakeRecord,
    anchor: ServiceIdentityTrustAnchor,
    runtime_id: Seq<char>,
    release_id: Seq<char>,
    deployment_id: Seq<char>,
    now: u64,
)
    ensures
        record.status@ == "engaged"@ ==> signed_deployment_denial(
            IdunnDeploymentBrakeObservation::Present(&record),
            anchor,
            runtime_id,
            release_id,
            deployment_id,
            now,
        ) is Some,
        signed_deployment_denial(
            IdunnDeploymentBrakeObservation::Missing,
            anchor,
            runtime_id,
            release_id,
            deployment_id,
            now,
        ) == Some(IdunnDeploymentBrakeDenial::Missing),
        signed_deployment_denial(
            IdunnDeploymentBrakeObservation::Corrupt,
            anchor,
            runtime_id,
            release_id,
            deployment_id,
            now,
        ) == Some(IdunnDeploymentBrakeDenial::Corrupt),
{
}

}

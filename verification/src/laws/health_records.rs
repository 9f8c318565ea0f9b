//! Provider health: which statements, anchors and projections are taken.
use vstd::prelude::*;
use vstd::utf8::encode_utf8;
use super::words::{
    digest_text, hex_digits_of, hex_texts_are_plain, lower_hex_digits, named, named_if_there, says,
    text_rules,
};
use crate::error::CultNetError;
use crate::primitives::sha256_digest;
use crate::provider_health_contracts::{
    authenticated_provider_health_reason_code, release_binding_violation,
    GameCultServiceTrustAnchorRecord, IdunnAuthenticatedProviderHealthProjectionRecord,
    IdunnSignedDaemonHealthRecord,
};
use crate::record::Record;
use crate::service_identity::{
    identity_of, GameCultProviderHealthIdentity, IdunnServiceIdentity, OdinTopologyIdentity,
    ServiceIdentityProfile,
};
use crate::text::opt;

verus! {

/// A statement is bound to no release, or to one by its name, its witness and its commit.
pub open spec fn release_fits(release_id: Option<String>, witness: Option<String>, commit: Option<String>) -> bool {
    match (release_id, witness, commit) {
        (None, None, None) => true,
        (Some(release), Some(digest), Some(source)) => {
            &&& named(release@)
            &&& digest_text(digest@)
            &&& lower_hex_digits(source@, 40)
        },
        _ => false,
    }
}

proof fn releases_are_plain(release_id: Option<String>, witness: Option<String>, commit: Option<String>)
    ensures
        release_binding_violation(opt(release_id), opt(witness), opt(commit)) is None <==> release_fits(
            release_id,
            witness,
            commit,
        ),
{
    broadcast use text_rules;

}

/// The identity is the digest, in hexadecimal digits, of the profile's domain and the key.
pub open spec fn signed_by_key<P: ServiceIdentityProfile>(identity: Seq<char>, public_key: Seq<u8>) -> bool {
    identity == hex_digits_of(sha256_digest(encode_utf8(P::ID_DOMAIN@) + public_key))
}

pub(crate) proof fn identities_are_plain<P: ServiceIdentityProfile>(public_key: Seq<u8>)
    ensures
        signed_by_key::<P>(identity_of::<P>(public_key), public_key),
        forall|identity: Seq<char>|
            #[trigger] signed_by_key::<P>(identity, public_key) <==> identity == identity_of::<P>(public_key),
{
    hex_texts_are_plain(sha256_digest(encode_utf8(P::ID_DOMAIN@) + public_key));
}

/// The four states of a provider have their reasons, and no other text has one.
pub proof fn each_state_has_its_reason(state: &str, reason: Option<&'static str>)
    requires
        call_ensures(authenticated_provider_health_reason_code, (state,), reason),
    ensures
        state@ == "active"@ ==> (reason matches Some(words) && words@ == "authenticated_provider_active"@),
        state@ == "warming"@ ==> (reason matches Some(words) && words@ == "authenticated_provider_warming"@),
        state@ == "degraded"@ ==> (reason matches Some(words) && words@ == "authenticated_provider_degraded"@),
        state@ == "failed"@ ==> (reason matches Some(words) && words@ == "authenticated_provider_failed"@),
        reason is Some <==> state@ == "active"@ || state@ == "warming"@ || state@ == "degraded"@ || state@
            == "failed"@,
{
    reveal_strlit("active");
    assert("active"@.len() == 6);
    reveal_strlit("warming");
    assert("warming"@.len() == 7);
    reveal_strlit("degraded");
    assert("degraded"@.len() == 8);
    reveal_strlit("failed");
    assert("failed"@.len() == 6);
    assert("active"@[0] != "failed"@[0]);
}

/// What is asked of the record.
pub open spec fn signed_health_fits(record: IdunnSignedDaemonHealthRecord) -> bool {
    &&& record.schema_version@ == "idunn.signed_daemon_health.v1"@
    &&& named(record.daemon_id@)
    &&& named(record.health_contract@)
    &&& named(record.source_runtime_id@)
    &&& named(record.signer_identity_id@)
    &&& named(record.publisher_incarnation_id@)
    &&& ((record.state@ == "active"@ || record.state@ == "warming"@ || record.state@ == "degraded"@ || record.state@ == "failed"@) && encode_utf8(record.detail@).len() <= 512 && record.signature_algorithm@ == "ed25519"@ && record.signature@.len() == 64 && record.publisher_sequence > 0 && record.observed_at_unix_millis > 0)
    &&& release_fits(record.release_id, record.release_witness_sha256, record.source_commit)
    &&& named_if_there(record.deployment_id)
    &&& !record.private_state_exposed
}

/// A signed health statement is taken exactly if these rules hold of its fields.
pub proof fn signed_health_rules_are_exact(record: &IdunnSignedDaemonHealthRecord, outcome: Result<(), CultNetError>)
    requires
        call_ensures(IdunnSignedDaemonHealthRecord::validate, (record,), outcome),
    ensures
        ({
            if !(record.schema_version@ == "idunn.signed_daemon_health.v1"@) {
                says(outcome, "signed daemon health schema is unsupported"@)
            } else if !(named(record.daemon_id@)) {
                says(outcome, "daemon id"@ + " is empty, oversized, or contains control characters"@)
            } else if !(named(record.health_contract@)) {
                says(outcome, "health contract"@ + " is empty, oversized, or contains control characters"@)
            } else if !(named(record.source_runtime_id@)) {
                says(outcome, "source runtime id"@ + " is empty, oversized, or contains control characters"@)
            } else if !(named(record.signer_identity_id@)) {
                says(outcome, "signer identity id"@ + " is empty, oversized, or contains control characters"@)
            } else if !(named(record.publisher_incarnation_id@)) {
                says(outcome, "publisher incarnation id"@ + " is empty, oversized, or contains control characters"@)
            } else if !((record.state@ == "active"@ || record.state@ == "warming"@ || record.state@ == "degraded"@ || record.state@ == "failed"@) && encode_utf8(record.detail@).len() <= 512 && record.signature_algorithm@ == "ed25519"@ && record.signature@.len() == 64 && record.publisher_sequence > 0 && record.observed_at_unix_millis > 0) {
                says(outcome, "signed daemon health shape is invalid"@)
            } else if !(release_fits(record.release_id, record.release_witness_sha256, record.source_commit)) {
                outcome is Err
            } else if !(named_if_there(record.deployment_id)) {
                says(outcome, "deployment id"@ + " is empty, oversized, or contains control characters"@)
            } else if !(!record.private_state_exposed) {
                says(outcome, "signed daemon health exposes private state"@)
            } else {
                outcome is Ok
            }
        }),
        outcome is Ok <==> signed_health_fits(*record),
        record.violation() is None <==> signed_health_fits(*record),
{
    broadcast use text_rules;

    releases_are_plain(record.release_id, record.release_witness_sha256, record.source_commit);
}

/// What is asked of the record.
pub open spec fn trust_anchor_fits(record: GameCultServiceTrustAnchorRecord) -> bool {
    &&& record.schema_version@ == "gamecult.service_trust_anchor.v1"@
    &&& named(record.trust_anchor_id@)
    &&& named(record.service_id@)
    &&& named(record.runtime_id@)
    &&& named(record.signer_identity_id@)
    &&& named(record.signing_purpose@)
    &&& named(record.signed_schema@)
    &&& (record.signer_public_key@.len() == 32 && record.signature_algorithm@ == "ed25519"@ && record.binding_authority@ == "root"@ && record.bound_at_unix_millis > 0 && (record.expires_at_unix_millis matches Some(expires) ==> expires > record.bound_at_unix_millis) && !record.private_state_exposed)
    &&& (record.signed_schema@ == "idunn.authenticated_provider_health_projection.v1"@ ==> record.service_id@ == "idunn"@ && record.signing_purpose@ == "idunn.authenticated-provider-health-projection.v1"@ && signed_by_key::<IdunnServiceIdentity>(record.signer_identity_id@, record.signer_public_key@))
    &&& (record.signed_schema@ == "gamecult.runtime_presence_health.v2"@ || record.signing_purpose@ == "gamecult.runtime_presence_health.v2"@ || record.signed_schema@ == "gamecult.runtime_presence_health.v1"@ || record.signing_purpose@ == "gamecult.runtime_presence_health.v1"@ ==> record.signed_schema@ == "gamecult.runtime_presence_health.v2"@ && record.signing_purpose@ == "gamecult.runtime_presence_health.v2"@ && signed_by_key::<GameCultProviderHealthIdentity>(record.signer_identity_id@, record.signer_public_key@))
    &&& (record.signed_schema@ == "odin.runtime_topology_correlation.v2"@ || record.signing_purpose@ == "odin.runtime_topology_correlation.v2"@ ==> record.service_id@ == "odin"@ && record.signed_schema@ == "odin.runtime_topology_correlation.v2"@ && record.signing_purpose@ == "odin.runtime_topology_correlation.v2"@ && signed_by_key::<OdinTopologyIdentity>(record.signer_identity_id@, record.signer_public_key@))
}

/// A trust anchor is taken exactly if root bound an Ed25519 key for some lifetime, and an
/// anchor for one of the known contracts is bound to its service, purpose and profile.
pub proof fn trust_anchor_rules_are_exact(record: &GameCultServiceTrustAnchorRecord, outcome: Result<(), CultNetError>)
    requires
        call_ensures(GameCultServiceTrustAnchorRecord::validate, (record,), outcome),
    ensures
        ({
            if !(record.schema_version@ == "gamecult.service_trust_anchor.v1"@) {
                says(outcome, "service trust anchor schema is unsupported"@)
            } else if !(named(record.trust_anchor_id@)) {
                says(outcome, "trust anchor id"@ + " is empty, oversized, or contains control characters"@)
            } else if !(named(record.service_id@)) {
                says(outcome, "service id"@ + " is empty, oversized, or contains control characters"@)
            } else if !(named(record.runtime_id@)) {
                says(outcome, "runtime id"@ + " is empty, oversized, or contains control characters"@)
            } else if !(named(record.signer_identity_id@)) {
                says(outcome, "signer identity id"@ + " is empty, oversized, or contains control characters"@)
            } else if !(named(record.signing_purpose@)) {
                says(outcome, "signing purpose"@ + " is empty, oversized, or contains control characters"@)
            } else if !(named(record.signed_schema@)) {
                says(outcome, "signed schema"@ + " is empty, oversized, or contains control characters"@)
            } else if !(record.signer_public_key@.len() == 32 && record.signature_algorithm@ == "ed25519"@ && record.binding_authority@ == "root"@ && record.bound_at_unix_millis > 0 && (record.expires_at_unix_millis matches Some(expires) ==> expires > record.bound_at_unix_millis) && !record.private_state_exposed) {
                says(outcome, "service trust anchor authority, key, lifetime, or privacy is invalid"@)
            } else if !(record.signed_schema@ == "idunn.authenticated_provider_health_projection.v1"@ ==> record.service_id@ == "idunn"@ && record.signing_purpose@ == "idunn.authenticated-provider-health-projection.v1"@ && signed_by_key::<IdunnServiceIdentity>(record.signer_identity_id@, record.signer_public_key@)) {
                says(outcome, "Idunn provider-health trust anchor profile is invalid"@)
            } else if !(record.signed_schema@ == "gamecult.runtime_presence_health.v2"@ || record.signing_purpose@ == "gamecult.runtime_presence_health.v2"@ || record.signed_schema@ == "gamecult.runtime_presence_health.v1"@ || record.signing_purpose@ == "gamecult.runtime_presence_health.v1"@ ==> record.signed_schema@ == "gamecult.runtime_presence_health.v2"@ && record.signing_purpose@ == "gamecult.runtime_presence_health.v2"@ && signed_by_key::<GameCultProviderHealthIdentity>(record.signer_identity_id@, record.signer_public_key@)) {
                says(outcome, "runtime presence trust anchor profile is invalid"@)
            } else if !(record.signed_schema@ == "odin.runtime_topology_correlation.v2"@ || record.signing_purpose@ == "odin.runtime_topology_correlation.v2"@ ==> record.service_id@ == "odin"@ && record.signed_schema@ == "odin.runtime_topology_correlation.v2"@ && record.signing_purpose@ == "odin.runtime_topology_correlation.v2"@ && signed_by_key::<OdinTopologyIdentity>(record.signer_identity_id@, record.signer_public_key@)) {
                says(outcome, "Odin topology trust anchor profile is invalid"@)
            } else {
                outcome is Ok
            }
        }),
        outcome is Ok <==> trust_anchor_fits(*record),
        record.violation() is None <==> trust_anchor_fits(*record),
{
    broadcast use text_rules;

    identities_are_plain::<IdunnServiceIdentity>(record.signer_public_key@);
    identities_are_plain::<GameCultProviderHealthIdentity>(record.signer_public_key@);
    identities_are_plain::<OdinTopologyIdentity>(record.signer_public_key@);
}

/// What is asked of the record.
pub open spec fn projection_fits(record: IdunnAuthenticatedProviderHealthProjectionRecord) -> bool {
    &&& record.schema_version@ == "idunn.authenticated_provider_health_projection.v1"@
    &&& named(record.projection_id@)
    &&& named(record.daemon_id@)
    &&& named(record.health_contract@)
    &&& named(record.trust_binding_id@)
    &&& named(record.provider_signer_identity_id@)
    &&& named(record.provider_incarnation_id@)
    &&& named(record.idunn_runtime_id@)
    &&& named(record.idunn_signer_identity_id@)
    &&& named(record.projection_incarnation_id@)
    &&& (((record.provider_state@ == "active"@ && record.reason_code@ == "authenticated_provider_active"@) || (record.provider_state@ == "warming"@ && record.reason_code@ == "authenticated_provider_warming"@) || (record.provider_state@ == "degraded"@ && record.reason_code@ == "authenticated_provider_degraded"@) || (record.provider_state@ == "failed"@ && record.reason_code@ == "authenticated_provider_failed"@)) && record.provider_observed_at_unix_millis > 0 && record.provider_observed_at_unix_millis <= record.admitted_at_unix_millis && record.admitted_at_unix_millis <= record.evaluated_at_unix_millis && record.evaluated_at_unix_millis < record.expires_at_unix_millis && record.provider_sequence > 0 && record.projection_sequence > 0 && digest_text(record.trust_binding_sha256@) && digest_text(record.signed_health_sha256@) && digest_text(record.authenticated_admission_sha256@) && record.signature_algorithm@ == "ed25519"@ && record.signature@.len() == 64 && !record.private_state_exposed)
    &&& release_fits(record.release_id, record.release_witness_sha256, record.source_commit)
    &&& named_if_there(record.deployment_id)
    &&& (record.deployment_id is Some <==> record.release_id is Some)
}

/// A health projection is taken exactly if its reason goes with its state, its times
/// follow one another, and its lineage is whole.
pub proof fn projection_rules_are_exact(record: &IdunnAuthenticatedProviderHealthProjectionRecord, outcome: Result<(), CultNetError>)
    requires
        call_ensures(IdunnAuthenticatedProviderHealthProjectionRecord::validate, (record,), outcome),
    ensures
        ({
            if !(record.schema_version@ == "idunn.authenticated_provider_health_projection.v1"@) {
                says(outcome, "authenticated provider health projection schema is unsupported"@)
            } else if !(named(record.projection_id@)) {
                says(outcome, "projection id"@ + " is empty, oversized, or contains control characters"@)
            } else if !(named(record.daemon_id@)) {
                says(outcome, "daemon id"@ + " is empty, oversized, or contains control characters"@)
            } else if !(named(record.health_contract@)) {
                says(outcome, "health contract"@ + " is empty, oversized, or contains control characters"@)
            } else if !(named(record.trust_binding_id@)) {
                says(outcome, "trust binding id"@ + " is empty, oversized, or contains control characters"@)
            } else if !(named(record.provider_signer_identity_id@)) {
                says(outcome, "provider signer identity id"@ + " is empty, oversized, or contains control characters"@)
            } else if !(named(record.provider_incarnation_id@)) {
                says(outcome, "provider incarnation id"@ + " is empty, oversized, or contains control characters"@)
            } else if !(named(record.idunn_runtime_id@)) {
                says(outcome, "Idunn runtime id"@ + " is empty, oversized, or contains control characters"@)
            } else if !(named(record.idunn_signer_identity_id@)) {
                says(outcome, "Idunn signer identity id"@ + " is empty, oversized, or contains control characters"@)
            } else if !(named(record.projection_incarnation_id@)) {
                says(outcome, "projection incarnation id"@ + " is empty, oversized, or contains control characters"@)
            } else if !(((record.provider_state@ == "active"@ && record.reason_code@ == "authenticated_provider_active"@) || (record.provider_state@ == "warming"@ && record.reason_code@ == "authenticated_provider_warming"@) || (record.provider_state@ == "degraded"@ && record.reason_code@ == "authenticated_provider_degraded"@) || (record.provider_state@ == "failed"@ && record.reason_code@ == "authenticated_provider_failed"@)) && record.provider_observed_at_unix_millis > 0 && record.provider_observed_at_unix_millis <= record.admitted_at_unix_millis && record.admitted_at_unix_millis <= record.evaluated_at_unix_millis && record.evaluated_at_unix_millis < record.expires_at_unix_millis && record.provider_sequence > 0 && record.projection_sequence > 0 && digest_text(record.trust_binding_sha256@) && digest_text(record.signed_health_sha256@) && digest_text(record.authenticated_admission_sha256@) && record.signature_algorithm@ == "ed25519"@ && record.signature@.len() == 64 && !record.private_state_exposed) {
                says(outcome, "authenticated provider health projection shape, lineage, reason, signature, or privacy is invalid"@)
            } else if !(release_fits(record.release_id, record.release_witness_sha256, record.source_commit)) {
                outcome is Err
            } else if !(named_if_there(record.deployment_id)) {
                says(outcome, "deployment id"@ + " is empty, oversized, or contains control characters"@)
            } else if !(record.deployment_id is Some <==> record.release_id is Some) {
                says(outcome, "authenticated provider health projection release lineage is partial"@)
            } else {
                outcome is Ok
            }
        }),
        outcome is Ok <==> projection_fits(*record),
        record.violation() is None <==> projection_fits(*record),
{
    broadcast use text_rules;

    reveal_strlit("active");
    assert("active"@.len() == 6);
    reveal_strlit("warming");
    assert("warming"@.len() == 7);
    reveal_strlit("degraded");
    assert("degraded"@.len() == 8);
    reveal_strlit("failed");
    assert("failed"@.len() == 6);
    assert("active"@[0] != "failed"@[0]);
    releases_are_plain(record.release_id, record.release_witness_sha256, record.source_commit);
}

}

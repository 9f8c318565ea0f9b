//! CultNet: typed MessagePack messages between peers, length-prefixed framing, security
//! helpers, service identities and signed runtime contracts, and the replication of
//! cached documents.
pub mod builtin_schemas;
pub mod contracts;
pub mod envelope;
pub mod error;
pub mod framing;
pub mod idunn_deployment_brake;
pub mod idunn_lifecycle_brake;
pub mod interop_peer;
pub mod json;
pub mod laws;
pub mod number;
pub mod ordered_map;
pub mod primitives;
pub mod provider_health_contracts;
pub mod record;
pub mod replication;
pub mod rules;
pub mod runtime_authority_contracts;
pub mod schema_discovery;
pub mod security;
pub mod service_identity;
pub mod snapshot_query;
pub mod sorted_list;
pub mod text;
pub mod transport;
pub mod wire;

pub use contracts::{
    CultNetDocumentMutationContract, CultNetDocumentRecord, CultNetMessage,
    CultNetRawDocumentRecord, CultNetRawPayloadEncoding, CultNetSchemaDescriptor, CultNetSchemaKind,
    CultNetWireContract,
};
pub use contracts::codec::{
    CultNetWireValue, decode_cultnet_message_from_slice, encode_cultnet_message_for_wire,
    encode_cultnet_message_to_vec, parse_cultnet_message,
};
pub use envelope::CultCacheEnvelope;
pub use error::CultNetError;
pub use framing::{
    FRAME_HEADER_BYTES, LengthPrefixedMessageFramer, decode_frame_header, encode_frame, read_frame,
};
pub use idunn_deployment_brake::{
    IDUNN_DEPLOYMENT_BRAKE_AUTHORITY, IDUNN_DEPLOYMENT_BRAKE_ID, IDUNN_DEPLOYMENT_BRAKE_SCHEMA,
    IDUNN_DEPLOYMENT_BRAKE_SCOPE, IDUNN_DEPLOYMENT_BRAKE_TYPE,
    IDUNN_DEPLOYMENT_RELEASE_MAX_LIFETIME_MILLIS, IDUNN_DEPLOYMENT_RELEASE_PURPOSE,
    IdunnDeploymentBrakeDenial, IdunnDeploymentBrakeObservation, IdunnDeploymentBrakeRecord,
    classify_idunn_deployment_brake, evaluate_idunn_deployment_brake,
    verify_idunn_deployment_brake_authorization,
};
pub use idunn_lifecycle_brake::{
    IDUNN_LIFECYCLE_BRAKE_AUTHORITY, IDUNN_LIFECYCLE_BRAKE_SCHEMA, IDUNN_LIFECYCLE_BRAKE_SCOPE,
    IDUNN_LIFECYCLE_BRAKE_TYPE, IdunnLifecycleBrakeDenial, IdunnLifecycleBrakeObservation,
    IdunnLifecycleBrakeRecord, evaluate_idunn_continuity_restart,
};
pub use json::JsonValue;
pub use provider_health_contracts::{
    GAMECULT_SERVICE_TRUST_ANCHOR_SCHEMA, GameCultServiceTrustAnchorRecord,
    IDUNN_AUTHENTICATED_PROVIDER_HEALTH_PROJECTION_SCHEMA,
    IDUNN_AUTHENTICATED_PROVIDER_HEALTH_PROJECTION_SIGNING_PURPOSE, IDUNN_PROVIDER_ACTIVE_REASON,
    IDUNN_PROVIDER_DEGRADED_REASON, IDUNN_PROVIDER_FAILED_REASON, IDUNN_PROVIDER_WARMING_REASON,
    IDUNN_SIGNED_DAEMON_HEALTH_SCHEMA, IdunnAuthenticatedProviderHealthProjectionRecord,
    IdunnSignedDaemonHealthRecord, authenticated_provider_health_reason_code,
};
pub use record::{Record, prefixed_sha256, record_bytes};
pub use replication::{
    CultNetDocumentBinding, CultNetDocumentPutOptions, CultNetDocumentRegistry,
    CultNetDocumentWrite,
};
pub use runtime_authority_contracts::{
    GAMECULT_RUNTIME_ACTIVATION_PROOF_SIGNING_PURPOSE, GAMECULT_RUNTIME_PRESENCE_HEALTH_SCHEMA,
    GAMECULT_RUNTIME_PRESENCE_HEALTH_SIGNING_PURPOSE, IDUNN_EXPECTED_INCARNATION_SCHEMA,
    IDUNN_PROCESS_WRITE_LEASE_SCHEMA, IDUNN_RUNTIME_ACTIVATION_CREDENTIAL_NAME,
    IDUNN_RUNTIME_ACTIVATION_SCHEMA, IDUNN_RUNTIME_ACTIVATION_SIGNING_PURPOSE,
    ODIN_RUNTIME_TOPOLOGY_CORRELATION_SCHEMA, ODIN_RUNTIME_TOPOLOGY_CORRELATION_SIGNING_PURPOSE,
};
pub use runtime_authority_contracts::activation::{
    IdunnRuntimeActivationLaunch, IdunnRuntimeActivationRecord, IdunnRuntimeActivationSigner,
    derive_idunn_runtime_activation_identity_id,
};
pub use runtime_authority_contracts::authority::{
    AuthenticatedOdinRuntimeTopologyCorrelation, AuthenticatedRuntimePresenceClaim,
    OdinTopologyAuthenticationContext, RuntimePresenceAuthenticationContext,
    VerifiedRuntimeAuthority, authenticate_odin_runtime_topology_correlation,
    authenticate_runtime_presence_claim, verify_runtime_authority,
};
pub use runtime_authority_contracts::capability::{
    GameCultRuntimeCapability, IdunnExpectedCapability,
};
pub use runtime_authority_contracts::correlation::{
    RuntimePresenceCorrelation, VerifiedRuntimePresence, correlate_runtime_presence_claim,
};
pub use runtime_authority_contracts::expected::{
    IdunnExpectedDependency, IdunnExpectedIncarnationRecord, IdunnExpectedRoute,
};
pub use runtime_authority_contracts::lease::IdunnProcessWriteLeaseRecord;
pub use runtime_authority_contracts::presence::GameCultRuntimePresenceHealthRecord;
pub use runtime_authority_contracts::topology::{
    OdinRuntimeDependencyEvidence, OdinRuntimeTopologyCorrelationRecord, OdinTopologyDisagreement,
};
pub use schema_discovery::{
    CultNetSchemaCatalogOptions, CultNetSchemaRegistration, CultNetSchemaRegistry,
    builtin_schema_registry,
};
pub use security::{
    CultNetClientSecurityOptions, CultNetEncryptionOptions, CultNetSecret,
    CultNetServerSecurityOptions, ValidatedCultNetSessionToken,
};
pub use service_identity::{
    GameCultProviderHealthIdentity, GameCultRuntimePresenceHealthPurpose,
    IdunnAuthenticatedProviderHealthProjectionPurpose, IdunnDeploymentBrakeOperatorIdentity,
    IdunnDeploymentBrakeReleasePurpose, IdunnRuntimeActivationPurpose, IdunnServiceIdentity,
    IdunnSignedDaemonHealthPurpose, LINUX_SERVICE_IDENTITY_ASSURANCE,
    OdinRuntimeTopologyCorrelationPurpose, OdinTopologyIdentity, ServiceIdentityPrivateEntry,
    ServiceIdentityProfile, ServiceIdentitySignature, ServiceIdentitySigner,
    ServiceIdentityTrustAnchor, ServiceSignaturePurpose, WINDOWS_SERVICE_IDENTITY_ASSURANCE,
    derive_service_identity_id, enroll_service_identity, enroll_service_identity_with,
    export_service_identity_trust_anchor, open_private_entry, open_service_identity,
    private_envelope, private_payload,
    verify_service_identity_signature, verify_service_identity_signature_with_public_key,
};
pub use snapshot_query::{
    CultNetRawSnapshotQuery, CultNetRawSnapshotSource, CultNetReadOnlySnapshotPolicy,
    CultNetSnapshotRecordExpectation, CultNetSnapshotSourceExpectation,
    query_read_only_raw_snapshot, select_raw_snapshot, serve_read_only_raw_snapshot,
};
pub use transport::{
    CultNetReconnectPolicy, CultNetReconnectPolicyOptions, CultNetTransportChannel,
    CultNetTransportDelivery, CultNetTransportDescriptor, CultNetTransportFrame,
    CultNetTransportOrdering, CultNetTransportProfile, CultNetTransportProtocol,
    CultNetTransportStats, TcpFramedTransportConnection, TcpFramedTransportProfileOptions,
    compute_reconnect_delay_ms, create_reconnect_policy, create_tcp_framed_transport_profile,
};
pub use wire::{WireValue, decode_messagepack, encode_messagepack, messagepack_array_len};

//! The contracts by which Idunn, providers and Odin state what should run, what does
//! run, and whether the two agree.
use vstd::prelude::*;

pub mod activation;
pub mod admission;
pub mod authority;
pub mod capability;
pub mod correlation;
pub mod expected;
pub mod lease;
pub mod presence;
pub mod topology;

verus! {

pub const GAMECULT_RUNTIME_PRESENCE_HEALTH_SCHEMA: &'static str = "gamecult.runtime_presence_health.v2";

pub const GAMECULT_RUNTIME_PRESENCE_HEALTH_SIGNING_PURPOSE: &'static str = "gamecult.runtime_presence_health.v2";

pub const GAMECULT_RUNTIME_ACTIVATION_PROOF_SIGNING_PURPOSE: &'static str =
    "gamecult.runtime_presence.activation-proof.v1";

pub const IDUNN_RUNTIME_ACTIVATION_SCHEMA: &'static str = "idunn.runtime_activation.v2";

pub const IDUNN_RUNTIME_ACTIVATION_SIGNING_PURPOSE: &'static str = "idunn.runtime_activation.v2";

pub const IDUNN_RUNTIME_ACTIVATION_CREDENTIAL_NAME: &'static str = "gamecult-idunn-runtime-activation-key";

pub const IDUNN_PROCESS_WRITE_LEASE_SCHEMA: &'static str = "idunn.process_write_lease.v1";

pub const IDUNN_EXPECTED_INCARNATION_SCHEMA: &'static str = "idunn.expected_incarnation.v2";

pub const ODIN_RUNTIME_TOPOLOGY_CORRELATION_SCHEMA: &'static str = "odin.runtime_topology_correlation.v2";

pub const ODIN_RUNTIME_TOPOLOGY_CORRELATION_SIGNING_PURPOSE: &'static str = "odin.runtime_topology_correlation.v2";

}

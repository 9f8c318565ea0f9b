//! Provider health: signed statements of daemons, the trust anchors that root binds
//! services by, and Idunn's public projection of authenticated statements.
use vstd::prelude::*;
use crate::error::{ensure, refuse, reports, unless, CultNetError};
use crate::text::byte_length_is_bounded;
use crate::record::{
    byte_list, byte_list_field, byte_list_is_faithful, byte_list_is_plain, flag_field, number_field,
    optional_number, optional_number_field, optional_text, optional_text_field, read_byte_list,
    read_flag, read_items, read_number, read_optional_number, read_optional_text, read_text,
    sequence_field, text_field, Record,
};
use crate::rules::{
    check_identifier, check_optional_identifier, identifier_violation,
    optional_identifier_violation,
};
use crate::runtime_authority_contracts::{
    GAMECULT_RUNTIME_PRESENCE_HEALTH_SCHEMA, GAMECULT_RUNTIME_PRESENCE_HEALTH_SIGNING_PURPOSE,
    ODIN_RUNTIME_TOPOLOGY_CORRELATION_SCHEMA, ODIN_RUNTIME_TOPOLOGY_CORRELATION_SIGNING_PURPOSE,
};
use crate::service_identity::{
    derive_service_identity_id, identity_of, GameCultProviderHealthIdentity, IdunnServiceIdentity,
    OdinTopologyIdentity, ServiceIdentityProfile,
};
use crate::text::{
    byte_length, hex_of_length, is_hex_of_length, is_sha256_reference, opt, same_text,
    sha256_reference,
};
use crate::wire::{carried, plain, trees, Wire, WireValue};

verus! {

pub const GAMECULT_SERVICE_TRUST_ANCHOR_SCHEMA: &'static str = "gamecult.service_trust_anchor.v1";

pub const IDUNN_AUTHENTICATED_PROVIDER_HEALTH_PROJECTION_SCHEMA: &'static str =
    "idunn.authenticated_provider_health_projection.v1";

pub const IDUNN_SIGNED_DAEMON_HEALTH_SCHEMA: &'static str = "idunn.signed_daemon_health.v1";

pub const IDUNN_AUTHENTICATED_PROVIDER_HEALTH_PROJECTION_SIGNING_PURPOSE: &'static str =
    "idunn.authenticated-provider-health-projection.v1";

pub const IDUNN_PROVIDER_ACTIVE_REASON: &'static str = "authenticated_provider_active";

pub const IDUNN_PROVIDER_WARMING_REASON: &'static str = "authenticated_provider_warming";

pub const IDUNN_PROVIDER_DEGRADED_REASON: &'static str = "authenticated_provider_degraded";

pub const IDUNN_PROVIDER_FAILED_REASON: &'static str = "authenticated_provider_failed";

/// The runtime-presence contract that no anchor may be bound to any more.
pub const SUPERSEDED_RUNTIME_PRESENCE_HEALTH_SCHEMA: &'static str = "gamecult.runtime_presence_health.v1";

// ---------------------------------------------------------------------------
// States and release bindings
// ---------------------------------------------------------------------------

/// The states that a provider may state of itself.
pub open spec fn provider_state(state: Seq<char>) -> bool {
    state == "active"@ || state == "warming"@ || state == "degraded"@ || state == "failed"@
}

/// The reason that goes with a provider's state.
pub open spec fn reason_of(state: Seq<char>) -> Option<Seq<char>> {
    if state == "active"@ {
        Some(IDUNN_PROVIDER_ACTIVE_REASON@)
    } else if state == "warming"@ {
        Some(IDUNN_PROVIDER_WARMING_REASON@)
    } else if state == "degraded"@ {
        Some(IDUNN_PROVIDER_DEGRADED_REASON@)
    } else if state == "failed"@ {
        Some(IDUNN_PROVIDER_FAILED_REASON@)
    } else {
        None
    }
}

/// Closed derivation for an authenticated provider state. `None` means no
/// provider-health projection may be published.
pub fn authenticated_provider_health_reason_code(state: &str) -> (reason: Option<&'static str>)
    ensures
        match reason {
            Some(found) => reason_of(state@) == Some(found@),
            None => reason_of(state@) is None,
        },
{
    if same_text(state, "active") {
        Some(IDUNN_PROVIDER_ACTIVE_REASON)
    } else if same_text(state, "warming") {
        Some(IDUNN_PROVIDER_WARMING_REASON)
    } else if same_text(state, "degraded") {
        Some(IDUNN_PROVIDER_DEGRADED_REASON)
    } else if same_text(state, "failed") {
        Some(IDUNN_PROVIDER_FAILED_REASON)
    } else {
        None
    }
}

pub fn is_provider_state(state: &str) -> (found: bool)
    ensures
        found == provider_state(state@),
{
    same_text(state, "active") || same_text(state, "warming") || same_text(state, "degraded") || same_text(
        state,
        "failed",
    )
}

/// Why the fields that bind a statement to a release do not fit together. All three
/// of them are missing, or all are there and well-formed.
pub open spec fn release_binding_violation(
    release_id: Option<Seq<char>>,
    witness: Option<Seq<char>>,
    source_commit: Option<Seq<char>>,
) -> Option<Seq<char>> {
    if release_id is None && witness is None && source_commit is None {
        None
    } else if optional_identifier_violation(release_id, "release id"@) is Some {
        optional_identifier_violation(release_id, "release id"@)
    } else if witness is None {
        Some("release witness is absent"@)
    } else if source_commit is None {
        Some("source commit is absent"@)
    } else {
        unless(
            release_id is Some && sha256_reference(witness->0) && hex_of_length(source_commit->0, 40),
            "release binding is incomplete or malformed"@,
        )
    }
}

fn check_release_binding(
    release_id: &Option<String>,
    witness: &Option<String>,
    source_commit: &Option<String>,
) -> (outcome: Result<(), CultNetError>)
    ensures
        reports(
            outcome,
            release_binding_violation(opt(*release_id), opt(*witness), opt(*source_commit)),
        ),
{
    if release_id.is_none() && witness.is_none() && source_commit.is_none() {
        return Ok(());
    }
    check_optional_identifier(release_id, "release id")?;
    match (witness, source_commit) {
        (None, _) => refuse("release witness is absent"),
        (_, None) => refuse("source commit is absent"),
        (Some(digest), Some(commit)) => ensure(
            release_id.is_some() && is_sha256_reference(digest) && is_hex_of_length(commit, 40),
            "release binding is incomplete or malformed",
        ),
    }
}

proof fn release_binding_is_short(
    release_id: Option<Seq<char>>,
    witness: Option<Seq<char>>,
    source_commit: Option<Seq<char>>,
)
    requires
        release_binding_violation(release_id, witness, source_commit) is None,
    ensures
        release_id matches Some(text) ==> byte_length(text) <= u32::MAX,
        witness matches Some(text) ==> byte_length(text) <= u32::MAX,
        source_commit matches Some(text) ==> byte_length(text) <= u32::MAX,
{
    reveal_strlit("sha256-");
    if let Some(text) = witness {
        byte_length_is_bounded(text);
    }
    if let Some(text) = source_commit {
        byte_length_is_bounded(text);
    }
}

// ---------------------------------------------------------------------------
// Signed daemon health
// ---------------------------------------------------------------------------

/// Provider-owned health statement. Ingress verifies `signature` over the
/// complete positional record with this field empty before admitting it.
#[derive(Clone, Debug, PartialEq, Eq)]
pub struct IdunnSignedDaemonHealthRecord {
    pub schema_version: String,
    pub daemon_id: String,
    pub health_contract: String,
    pub source_runtime_id: String,
    pub state: String,
    pub detail: String,
    pub signer_identity_id: String,
    pub publisher_incarnation_id: String,
    pub publisher_sequence: u64,
    pub observed_at_unix_millis: u64,
    pub release_id: Option<String>,
    pub release_witness_sha256: Option<String>,
    pub source_commit: Option<String>,
    pub deployment_id: Option<String>,
    pub signature_algorithm: String,
    pub signature: Vec<u8>,
    pub private_state_exposed: bool,
}

impl Record for IdunnSignedDaemonHealthRecord {
    open spec fn wire(self) -> Wire {
        Wire::Sequence(
            seq![
                Wire::Text(self.schema_version@),
                Wire::Text(self.daemon_id@),
                Wire::Text(self.health_contract@),
                Wire::Text(self.source_runtime_id@),
                Wire::Text(self.state@),
                Wire::Text(self.detail@),
                Wire::Text(self.signer_identity_id@),
                Wire::Text(self.publisher_incarnation_id@),
                Wire::Unsigned(self.publisher_sequence),
                Wire::Unsigned(self.observed_at_unix_millis),
                optional_text(opt(self.release_id)),
                optional_text(opt(self.release_witness_sha256)),
                optional_text(opt(self.source_commit)),
                optional_text(opt(self.deployment_id)),
                Wire::Text(self.signature_algorithm@),
                byte_list(self.signature@),
                Wire::Flag(self.private_state_exposed),
            ],
        )
    }

    open spec fn width() -> nat {
        17
    }

    open spec fn depth() -> nat {
        2
    }

    open spec fn violation(self) -> Option<Seq<char>> {
        if self.schema_version@ != IDUNN_SIGNED_DAEMON_HEALTH_SCHEMA@ {
            Some("signed daemon health schema is unsupported"@)
        } else if identifier_violation(self.daemon_id@, "daemon id"@) is Some {
            identifier_violation(self.daemon_id@, "daemon id"@)
        } else if identifier_violation(self.health_contract@, "health contract"@) is Some {
            identifier_violation(self.health_contract@, "health contract"@)
        } else if identifier_violation(self.source_runtime_id@, "source runtime id"@) is Some {
            identifier_violation(self.source_runtime_id@, "source runtime id"@)
        } else if identifier_violation(self.signer_identity_id@, "signer identity id"@) is Some {
            identifier_violation(self.signer_identity_id@, "signer identity id"@)
        } else if identifier_violation(self.publisher_incarnation_id@, "publisher incarnation id"@) is Some {
            identifier_violation(self.publisher_incarnation_id@, "publisher incarnation id"@)
        } else if !self.shape_is_valid() {
            Some("signed daemon health shape is invalid"@)
        } else if release_binding_violation(opt(self.release_id), opt(self.release_witness_sha256), opt(self.source_commit)) is Some {
            release_binding_violation(opt(self.release_id), opt(self.release_witness_sha256), opt(self.source_commit))
        } else if optional_identifier_violation(opt(self.deployment_id), "deployment id"@) is Some {
            optional_identifier_violation(opt(self.deployment_id), "deployment id"@)
        } else if self.private_state_exposed {
            Some("signed daemon health exposes private state"@)
        } else {
            None
        }
    }

    proof fn shape(self) {
        let fields = self.wire()->Sequence_0;
        byte_list_is_plain(self.signature@);
        assert forall|i: int| 0 <= i < fields.len() implies plain(#[trigger] fields[i]) by {}
    }

    #[verifier::rlimit(60)]
    proof fn valid_is_carried(self) {
        byte_length_is_bounded(self.schema_version@);
        reveal_strlit("idunn.signed_daemon_health.v1");
        byte_length_is_bounded(self.state@);
        reveal_strlit("active");
        reveal_strlit("warming");
        reveal_strlit("degraded");
        reveal_strlit("failed");
        byte_length_is_bounded(self.signature_algorithm@);
        reveal_strlit("ed25519");
        release_binding_is_short(opt(self.release_id), opt(self.release_witness_sha256), opt(self.source_commit));
        let fields = self.wire()->Sequence_0;
        byte_list_is_plain(self.signature@);
        assert forall|i: int| 0 <= i < fields.len() implies carried(#[trigger] fields[i], 1) by {}
    }

    proof fn wire_decides(self, other: Self) {
        let (a, b) = (self.wire()->Sequence_0, other.wire()->Sequence_0);
        assert(a[0] == b[0] && a[1] == b[1] && a[2] == b[2] && a[3] == b[3] && a[4] == b[4] && a[5] == b[5]);
        assert(a[6] == b[6] && a[7] == b[7] && a[8] == b[8] && a[9] == b[9] && a[10] == b[10] && a[11] == b[11]);
        assert(a[12] == b[12] && a[13] == b[13] && a[14] == b[14] && a[15] == b[15] && a[16] == b[16]);
        byte_list_is_faithful(self.signature@, other.signature@);
    }

    fn to_wire(&self) -> (field: WireValue) {
        let field = sequence_field(
            vec![
                text_field(&self.schema_version),
                text_field(&self.daemon_id),
                text_field(&self.health_contract),
                text_field(&self.source_runtime_id),
                text_field(&self.state),
                text_field(&self.detail),
                text_field(&self.signer_identity_id),
                text_field(&self.publisher_incarnation_id),
                number_field(self.publisher_sequence),
                number_field(self.observed_at_unix_millis),
                optional_text_field(&self.release_id),
                optional_text_field(&self.release_witness_sha256),
                optional_text_field(&self.source_commit),
                optional_text_field(&self.deployment_id),
                text_field(&self.signature_algorithm),
                byte_list_field(&self.signature),
                flag_field(self.private_state_exposed),
            ],
        );
        assert(field@->Sequence_0 =~= self.wire()->Sequence_0);
        field
    }

    fn from_wire(field: &WireValue) -> (record: Option<Self>) {
        let items = match read_items(field, 17) {
            Some(found) => found,
            None => {
                return None;
            },
        };
        let ghost all = trees(items@);
        assert forall|any: Self| #[trigger] any.wire() == field@ implies {
            &&& all[0] is Text
            &&& all[1] is Text
            &&& all[2] is Text
            &&& all[3] is Text
            &&& all[4] is Text
            &&& all[5] is Text
            &&& all[6] is Text
            &&& all[7] is Text
            &&& all[8] is Unsigned
            &&& all[9] is Unsigned
            &&& all[10] is Text || all[10] is Nil
            &&& all[11] is Text || all[11] is Nil
            &&& all[12] is Text || all[12] is Nil
            &&& all[13] is Text || all[13] is Nil
            &&& all[14] is Text
            &&& all[15] == byte_list(any.signature@)
            &&& all[16] is Flag
        } by {
            assert(any.wire()->Sequence_0 == all);
        }
        let record = IdunnSignedDaemonHealthRecord {
            schema_version: read_text(&items[0])?,
            daemon_id: read_text(&items[1])?,
            health_contract: read_text(&items[2])?,
            source_runtime_id: read_text(&items[3])?,
            state: read_text(&items[4])?,
            detail: read_text(&items[5])?,
            signer_identity_id: read_text(&items[6])?,
            publisher_incarnation_id: read_text(&items[7])?,
            publisher_sequence: read_number(&items[8])?,
            observed_at_unix_millis: read_number(&items[9])?,
            release_id: read_optional_text(&items[10])?,
            release_witness_sha256: read_optional_text(&items[11])?,
            source_commit: read_optional_text(&items[12])?,
            deployment_id: read_optional_text(&items[13])?,
            signature_algorithm: read_text(&items[14])?,
            signature: read_byte_list(&items[15])?,
            private_state_exposed: read_flag(&items[16])?,
        };
        assert(record.wire()->Sequence_0 =~= all);
        Some(record)
    }

    fn check(&self) -> (outcome: Result<(), CultNetError>) {
        self.validate()
    }
}

impl IdunnSignedDaemonHealthRecord {
    /// State, detail, signature, sequence and time are as a statement has them.
    pub open spec fn shape_is_valid(self) -> bool {
        &&& provider_state(self.state@)
        &&& byte_length(self.detail@) <= 512
        &&& self.signature_algorithm@ == "ed25519"@
        &&& self.signature@.len() == 64
        &&& self.publisher_sequence != 0
        &&& self.observed_at_unix_millis != 0
    }

    pub fn validate(&self) -> (outcome: Result<(), CultNetError>)
        ensures
            reports(outcome, self.violation()),
    {
        ensure(
            same_text(&self.schema_version, IDUNN_SIGNED_DAEMON_HEALTH_SCHEMA),
            "signed daemon health schema is unsupported",
        )?;
        check_identifier(&self.daemon_id, "daemon id")?;
        check_identifier(&self.health_contract, "health contract")?;
        check_identifier(&self.source_runtime_id, "source runtime id")?;
        check_identifier(&self.signer_identity_id, "signer identity id")?;
        check_identifier(&self.publisher_incarnation_id, "publisher incarnation id")?;
        ensure(
            is_provider_state(&self.state) && self.detail.as_str().as_bytes().len() <= 512 && same_text(
                &self.signature_algorithm,
                "ed25519",
            ) && self.signature.len() == 64 && self.publisher_sequence != 0 && self.observed_at_unix_millis
                != 0,
            "signed daemon health shape is invalid",
        )?;
        check_release_binding(&self.release_id, &self.release_witness_sha256, &self.source_commit)?;
        check_optional_identifier(&self.deployment_id, "deployment id")?;
        ensure(!self.private_state_exposed, "signed daemon health exposes private state")
    }
}

// ---------------------------------------------------------------------------
// Trust anchors
// ---------------------------------------------------------------------------

/// Root-distributed public key binding for one service-owned signed contract.
/// Consumers pin this document; a self-declared key inside a signed projection
/// is never authority.
#[derive(Clone, Debug, PartialEq, Eq)]
pub struct GameCultServiceTrustAnchorRecord {
    pub schema_version: String,
    pub trust_anchor_id: String,
    pub service_id: String,
    pub runtime_id: String,
    pub signer_identity_id: String,
    pub signer_public_key: Vec<u8>,
    pub signature_algorithm: String,
    pub signing_purpose: String,
    pub signed_schema: String,
    pub binding_authority: String,
    pub bound_at_unix_millis: u64,
    pub expires_at_unix_millis: Option<u64>,
    pub private_state_exposed: bool,
}

impl Record for GameCultServiceTrustAnchorRecord {
    open spec fn wire(self) -> Wire {
        Wire::Sequence(
            seq![
                Wire::Text(self.schema_version@),
                Wire::Text(self.trust_anchor_id@),
                Wire::Text(self.service_id@),
                Wire::Text(self.runtime_id@),
                Wire::Text(self.signer_identity_id@),
                byte_list(self.signer_public_key@),
                Wire::Text(self.signature_algorithm@),
                Wire::Text(self.signing_purpose@),
                Wire::Text(self.signed_schema@),
                Wire::Text(self.binding_authority@),
                Wire::Unsigned(self.bound_at_unix_millis),
                optional_number(self.expires_at_unix_millis),
                Wire::Flag(self.private_state_exposed),
            ],
        )
    }

    open spec fn width() -> nat {
        13
    }

    open spec fn depth() -> nat {
        2
    }

    open spec fn violation(self) -> Option<Seq<char>> {
        if self.schema_version@ != GAMECULT_SERVICE_TRUST_ANCHOR_SCHEMA@ {
            Some("service trust anchor schema is unsupported"@)
        } else if identifier_violation(self.trust_anchor_id@, "trust anchor id"@) is Some {
            identifier_violation(self.trust_anchor_id@, "trust anchor id"@)
        } else if identifier_violation(self.service_id@, "service id"@) is Some {
            identifier_violation(self.service_id@, "service id"@)
        } else if identifier_violation(self.runtime_id@, "runtime id"@) is Some {
            identifier_violation(self.runtime_id@, "runtime id"@)
        } else if identifier_violation(self.signer_identity_id@, "signer identity id"@) is Some {
            identifier_violation(self.signer_identity_id@, "signer identity id"@)
        } else if identifier_violation(self.signing_purpose@, "signing purpose"@) is Some {
            identifier_violation(self.signing_purpose@, "signing purpose"@)
        } else if identifier_violation(self.signed_schema@, "signed schema"@) is Some {
            identifier_violation(self.signed_schema@, "signed schema"@)
        } else if !self.binding_is_valid() {
            Some("service trust anchor authority, key, lifetime, or privacy is invalid"@)
        } else if self.signed_schema@ == IDUNN_AUTHENTICATED_PROVIDER_HEALTH_PROJECTION_SCHEMA@ && !self.is_projection_anchor() {
            Some("Idunn provider-health trust anchor profile is invalid"@)
        } else if self.claims_runtime_presence() && !self.is_runtime_presence_anchor() {
            Some("runtime presence trust anchor profile is invalid"@)
        } else if self.claims_topology() && !self.is_topology_anchor() {
            Some("Odin topology trust anchor profile is invalid"@)
        } else {
            None
        }
    }

    proof fn shape(self) {
        let fields = self.wire()->Sequence_0;
        byte_list_is_plain(self.signer_public_key@);
        assert forall|i: int| 0 <= i < fields.len() implies plain(#[trigger] fields[i]) by {}
    }

    #[verifier::rlimit(60)]
    proof fn valid_is_carried(self) {
        byte_length_is_bounded(self.schema_version@);
        reveal_strlit("gamecult.service_trust_anchor.v1");
        byte_length_is_bounded(self.signature_algorithm@);
        reveal_strlit("ed25519");
        byte_length_is_bounded(self.binding_authority@);
        reveal_strlit("root");
        let fields = self.wire()->Sequence_0;
        byte_list_is_plain(self.signer_public_key@);
        assert forall|i: int| 0 <= i < fields.len() implies carried(#[trigger] fields[i], 1) by {}
    }

    proof fn wire_decides(self, other: Self) {
        let (a, b) = (self.wire()->Sequence_0, other.wire()->Sequence_0);
        assert(a[0] == b[0] && a[1] == b[1] && a[2] == b[2] && a[3] == b[3] && a[4] == b[4] && a[5] == b[5]);
        assert(a[6] == b[6] && a[7] == b[7] && a[8] == b[8] && a[9] == b[9] && a[10] == b[10] && a[11] == b[11]);
        assert(a[12] == b[12]);
        byte_list_is_faithful(self.signer_public_key@, other.signer_public_key@);
    }

    fn to_wire(&self) -> (field: WireValue) {
        let field = sequence_field(
            vec![
                text_field(&self.schema_version),
                text_field(&self.trust_anchor_id),
                text_field(&self.service_id),
                text_field(&self.runtime_id),
                text_field(&self.signer_identity_id),
                byte_list_field(&self.signer_public_key),
                text_field(&self.signature_algorithm),
                text_field(&self.signing_purpose),
                text_field(&self.signed_schema),
                text_field(&self.binding_authority),
                number_field(self.bound_at_unix_millis),
                optional_number_field(self.expires_at_unix_millis),
                flag_field(self.private_state_exposed),
            ],
        );
        assert(field@->Sequence_0 =~= self.wire()->Sequence_0);
        field
    }

    fn from_wire(field: &WireValue) -> (record: Option<Self>) {
        let items = match read_items(field, 13) {
            Some(found) => found,
            None => {
                return None;
            },
        };
        let ghost all = trees(items@);
        assert forall|any: Self| #[trigger] any.wire() == field@ implies {
            &&& all[0] is Text
            &&& all[1] is Text
            &&& all[2] is Text
            &&& all[3] is Text
            &&& all[4] is Text
            &&& all[5] == byte_list(any.signer_public_key@)
            &&& all[6] is Text
            &&& all[7] is Text
            &&& all[8] is Text
            &&& all[9] is Text
            &&& all[10] is Unsigned
            &&& all[11] is Unsigned || all[11] is Nil
            &&& all[12] is Flag
        } by {
            assert(any.wire()->Sequence_0 == all);
        }
        let record = GameCultServiceTrustAnchorRecord {
            schema_version: read_text(&items[0])?,
            trust_anchor_id: read_text(&items[1])?,
            service_id: read_text(&items[2])?,
            runtime_id: read_text(&items[3])?,
            signer_identity_id: read_text(&items[4])?,
            signer_public_key: read_byte_list(&items[5])?,
            signature_algorithm: read_text(&items[6])?,
            signing_purpose: read_text(&items[7])?,
            signed_schema: read_text(&items[8])?,
            binding_authority: read_text(&items[9])?,
            bound_at_unix_millis: read_number(&items[10])?,
            expires_at_unix_millis: read_optional_number(&items[11])?,
            private_state_exposed: read_flag(&items[12])?,
        };
        assert(record.wire()->Sequence_0 =~= all);
        Some(record)
    }

    fn check(&self) -> (outcome: Result<(), CultNetError>) {
        self.validate()
    }
}

impl GameCultServiceTrustAnchorRecord {
    /// Root bound an Ed25519 key, for a lifetime that does not end before it starts,
    /// and nothing private is in the record.
    pub open spec fn binding_is_valid(self) -> bool {
        &&& self.signer_public_key@.len() == 32
        &&& self.signature_algorithm@ == "ed25519"@
        &&& self.binding_authority@ == "root"@
        &&& self.bound_at_unix_millis != 0
        &&& self.expires_at_unix_millis matches Some(expires) ==> expires > self.bound_at_unix_millis
        &&& !self.private_state_exposed
    }

    /// The signer is the identity that the profile derives from the key.
    pub open spec fn signer_is<P: ServiceIdentityProfile>(self) -> bool {
        self.signer_identity_id@ == identity_of::<P>(self.signer_public_key@)
    }

    /// Idunn's own anchor for its provider-health projection.
    pub open spec fn is_projection_anchor(self) -> bool {
        &&& self.service_id@ == "idunn"@
        &&& self.signing_purpose@ == IDUNN_AUTHENTICATED_PROVIDER_HEALTH_PROJECTION_SIGNING_PURPOSE@
        &&& self.signer_is::<IdunnServiceIdentity>()
    }

    /// Schema or purpose is one of runtime presence, current or superseded.
    pub open spec fn claims_runtime_presence(self) -> bool {
        ||| self.signed_schema@ == GAMECULT_RUNTIME_PRESENCE_HEALTH_SCHEMA@
        ||| self.signing_purpose@ == GAMECULT_RUNTIME_PRESENCE_HEALTH_SIGNING_PURPOSE@
        ||| self.signed_schema@ == SUPERSEDED_RUNTIME_PRESENCE_HEALTH_SCHEMA@
        ||| self.signing_purpose@ == SUPERSEDED_RUNTIME_PRESENCE_HEALTH_SCHEMA@
    }

    /// A provider's anchor for its runtime-presence statements.
    pub open spec fn is_runtime_presence_anchor(self) -> bool {
        &&& self.signed_schema@ == GAMECULT_RUNTIME_PRESENCE_HEALTH_SCHEMA@
        &&& self.signing_purpose@ == GAMECULT_RUNTIME_PRESENCE_HEALTH_SIGNING_PURPOSE@
        &&& self.signer_is::<GameCultProviderHealthIdentity>()
    }

    /// Schema or purpose is that of Odin's topology correlation.
    pub open spec fn claims_topology(self) -> bool {
        ||| self.signed_schema@ == ODIN_RUNTIME_TOPOLOGY_CORRELATION_SCHEMA@
        ||| self.signing_purpose@ == ODIN_RUNTIME_TOPOLOGY_CORRELATION_SIGNING_PURPOSE@
    }

    /// Odin's anchor for its topology correlation.
    pub open spec fn is_topology_anchor(self) -> bool {
        &&& self.service_id@ == "odin"@
        &&& self.signed_schema@ == ODIN_RUNTIME_TOPOLOGY_CORRELATION_SCHEMA@
        &&& self.signing_purpose@ == ODIN_RUNTIME_TOPOLOGY_CORRELATION_SIGNING_PURPOSE@
        &&& self.signer_is::<OdinTopologyIdentity>()
    }

    fn has_signer_of<P: ServiceIdentityProfile>(&self) -> (found: bool)
        requires
            self.signer_public_key@.len() == 32,
        ensures
            found == self.signer_is::<P>(),
    {
        match derive_service_identity_id::<P>(&self.signer_public_key) {
            Ok(identity) => same_text(&self.signer_identity_id, &identity),
            Err(_) => false,
        }
    }

    pub fn validate(&self) -> (outcome: Result<(), CultNetError>)
        ensures
            reports(outcome, self.violation()),
    {
        ensure(
            same_text(&self.schema_version, GAMECULT_SERVICE_TRUST_ANCHOR_SCHEMA),
            "service trust anchor schema is unsupported",
        )?;
        check_identifier(&self.trust_anchor_id, "trust anchor id")?;
        check_identifier(&self.service_id, "service id")?;
        check_identifier(&self.runtime_id, "runtime id")?;
        check_identifier(&self.signer_identity_id, "signer identity id")?;
        check_identifier(&self.signing_purpose, "signing purpose")?;
        check_identifier(&self.signed_schema, "signed schema")?;
        let lives = match self.expires_at_unix_millis {
            Some(expires) => expires > self.bound_at_unix_millis,
            None => true,
        };
        ensure(
            self.signer_public_key.len() == 32 && same_text(&self.signature_algorithm, "ed25519")
                && same_text(&self.binding_authority, "root") && self.bound_at_unix_millis != 0 && lives
                && !self.private_state_exposed,
            "service trust anchor authority, key, lifetime, or privacy is invalid",
        )?;
        if same_text(&self.signed_schema, IDUNN_AUTHENTICATED_PROVIDER_HEALTH_PROJECTION_SCHEMA) {
            ensure(
                same_text(&self.service_id, "idunn") && same_text(
                    &self.signing_purpose,
                    IDUNN_AUTHENTICATED_PROVIDER_HEALTH_PROJECTION_SIGNING_PURPOSE,
                ) && self.has_signer_of::<IdunnServiceIdentity>(),
                "Idunn provider-health trust anchor profile is invalid",
            )?;
        }
        let presence_schema = same_text(&self.signed_schema, GAMECULT_RUNTIME_PRESENCE_HEALTH_SCHEMA);
        let presence_purpose = same_text(
            &self.signing_purpose,
            GAMECULT_RUNTIME_PRESENCE_HEALTH_SIGNING_PURPOSE,
        );
        if presence_schema || presence_purpose || same_text(
            &self.signed_schema,
            SUPERSEDED_RUNTIME_PRESENCE_HEALTH_SCHEMA,
        ) || same_text(&self.signing_purpose, SUPERSEDED_RUNTIME_PRESENCE_HEALTH_SCHEMA) {
            ensure(
                presence_schema && presence_purpose && self.has_signer_of::<GameCultProviderHealthIdentity>(),
                "runtime presence trust anchor profile is invalid",
            )?;
        }
        let topology_schema = same_text(&self.signed_schema, ODIN_RUNTIME_TOPOLOGY_CORRELATION_SCHEMA);
        let topology_purpose = same_text(
            &self.signing_purpose,
            ODIN_RUNTIME_TOPOLOGY_CORRELATION_SIGNING_PURPOSE,
        );
        if topology_schema || topology_purpose {
            ensure(
                same_text(&self.service_id, "odin") && topology_schema && topology_purpose
                    && self.has_signer_of::<OdinTopologyIdentity>(),
                "Odin topology trust anchor profile is invalid",
            )?;
        }
        Ok(())
    }
}

/// A valid anchor for a signed contract names the service, the purpose and the
/// profile-derived identity of that contract, never those of another.
pub proof fn a_valid_anchor_is_profile_and_purpose_bound(anchor: GameCultServiceTrustAnchorRecord)
    requires
        anchor.violation() is None,
    ensures
        anchor.binding_is_valid(),
        anchor.signed_schema@ == IDUNN_AUTHENTICATED_PROVIDER_HEALTH_PROJECTION_SCHEMA@
            ==> anchor.is_projection_anchor(),
        anchor.claims_runtime_presence() ==> anchor.is_runtime_presence_anchor(),
        anchor.claims_topology() ==> anchor.is_topology_anchor(),
{
}

// ---------------------------------------------------------------------------
// Idunn's projection
// ---------------------------------------------------------------------------

/// Idunn-owned public projection of one current authenticated generic provider
/// admission. Absence and dependency failure produce no record; they are not
/// provider states Idunn may manufacture.
#[derive(Clone, Debug, PartialEq, Eq)]
pub struct IdunnAuthenticatedProviderHealthProjectionRecord {
    pub schema_version: String,
    pub projection_id: String,
    pub daemon_id: String,
    pub health_contract: String,
    pub provider_state: String,
    pub reason_code: String,
    pub provider_observed_at_unix_millis: u64,
    pub admitted_at_unix_millis: u64,
    pub evaluated_at_unix_millis: u64,
    pub trust_binding_id: String,
    pub trust_binding_sha256: String,
    pub signed_health_sha256: String,
    pub authenticated_admission_sha256: String,
    pub provider_signer_identity_id: String,
    pub provider_incarnation_id: String,
    pub provider_sequence: u64,
    pub release_id: Option<String>,
    pub release_witness_sha256: Option<String>,
    pub source_commit: Option<String>,
    pub deployment_id: Option<String>,
    pub idunn_runtime_id: String,
    pub idunn_signer_identity_id: String,
    pub projection_incarnation_id: String,
    pub projection_sequence: u64,
    pub signature_algorithm: String,
    pub signature: Vec<u8>,
    pub private_state_exposed: bool,
    pub expires_at_unix_millis: u64,
}

impl Record for IdunnAuthenticatedProviderHealthProjectionRecord {
    open spec fn wire(self) -> Wire {
        Wire::Sequence(
            seq![
                Wire::Text(self.schema_version@),
                Wire::Text(self.projection_id@),
                Wire::Text(self.daemon_id@),
                Wire::Text(self.health_contract@),
                Wire::Text(self.provider_state@),
                Wire::Text(self.reason_code@),
                Wire::Unsigned(self.provider_observed_at_unix_millis),
                Wire::Unsigned(self.admitted_at_unix_millis),
                Wire::Unsigned(self.evaluated_at_unix_millis),
                Wire::Text(self.trust_binding_id@),
                Wire::Text(self.trust_binding_sha256@),
                Wire::Text(self.signed_health_sha256@),
                Wire::Text(self.authenticated_admission_sha256@),
                Wire::Text(self.provider_signer_identity_id@),
                Wire::Text(self.provider_incarnation_id@),
                Wire::Unsigned(self.provider_sequence),
                optional_text(opt(self.release_id)),
                optional_text(opt(self.release_witness_sha256)),
                optional_text(opt(self.source_commit)),
                optional_text(opt(self.deployment_id)),
                Wire::Text(self.idunn_runtime_id@),
                Wire::Text(self.idunn_signer_identity_id@),
                Wire::Text(self.projection_incarnation_id@),
                Wire::Unsigned(self.projection_sequence),
                Wire::Text(self.signature_algorithm@),
                byte_list(self.signature@),
                Wire::Flag(self.private_state_exposed),
                Wire::Unsigned(self.expires_at_unix_millis),
            ],
        )
    }

    open spec fn width() -> nat {
        28
    }

    open spec fn depth() -> nat {
        2
    }

    open spec fn violation(self) -> Option<Seq<char>> {
        if self.schema_version@ != IDUNN_AUTHENTICATED_PROVIDER_HEALTH_PROJECTION_SCHEMA@ {
            Some("authenticated provider health projection schema is unsupported"@)
        } else if identifier_violation(self.projection_id@, "projection id"@) is Some {
            identifier_violation(self.projection_id@, "projection id"@)
        } else if identifier_violation(self.daemon_id@, "daemon id"@) is Some {
            identifier_violation(self.daemon_id@, "daemon id"@)
        } else if identifier_violation(self.health_contract@, "health contract"@) is Some {
            identifier_violation(self.health_contract@, "health contract"@)
        } else if identifier_violation(self.trust_binding_id@, "trust binding id"@) is Some {
            identifier_violation(self.trust_binding_id@, "trust binding id"@)
        } else if identifier_violation(self.provider_signer_identity_id@, "provider signer identity id"@) is Some {
            identifier_violation(self.provider_signer_identity_id@, "provider signer identity id"@)
        } else if identifier_violation(self.provider_incarnation_id@, "provider incarnation id"@) is Some {
            identifier_violation(self.provider_incarnation_id@, "provider incarnation id"@)
        } else if identifier_violation(self.idunn_runtime_id@, "Idunn runtime id"@) is Some {
            identifier_violation(self.idunn_runtime_id@, "Idunn runtime id"@)
        } else if identifier_violation(self.idunn_signer_identity_id@, "Idunn signer identity id"@) is Some {
            identifier_violation(self.idunn_signer_identity_id@, "Idunn signer identity id"@)
        } else if identifier_violation(self.projection_incarnation_id@, "projection incarnation id"@) is Some {
            identifier_violation(self.projection_incarnation_id@, "projection incarnation id"@)
        } else if !self.shape_is_valid() {
            Some("authenticated provider health projection shape, lineage, reason, signature, or privacy is invalid"@)
        } else if release_binding_violation(opt(self.release_id), opt(self.release_witness_sha256), opt(self.source_commit)) is Some {
            release_binding_violation(opt(self.release_id), opt(self.release_witness_sha256), opt(self.source_commit))
        } else if optional_identifier_violation(opt(self.deployment_id), "deployment id"@) is Some {
            optional_identifier_violation(opt(self.deployment_id), "deployment id"@)
        } else if (self.deployment_id is Some) != (self.release_id is Some) {
            Some("authenticated provider health projection release lineage is partial"@)
        } else {
            None
        }
    }

    proof fn shape(self) {
        let fields = self.wire()->Sequence_0;
        byte_list_is_plain(self.signature@);
        assert forall|i: int| 0 <= i < fields.len() implies plain(#[trigger] fields[i]) by {}
    }

    #[verifier::rlimit(60)]
    proof fn valid_is_carried(self) {
        byte_length_is_bounded(self.schema_version@);
        reveal_strlit("idunn.authenticated_provider_health_projection.v1");
        byte_length_is_bounded(self.provider_state@);
        reveal_strlit("active");
        reveal_strlit("warming");
        reveal_strlit("degraded");
        reveal_strlit("failed");
        byte_length_is_bounded(self.reason_code@);
        reveal_strlit("authenticated_provider_active");
        reveal_strlit("authenticated_provider_warming");
        reveal_strlit("authenticated_provider_degraded");
        reveal_strlit("authenticated_provider_failed");
        byte_length_is_bounded(self.trust_binding_sha256@);
        reveal_strlit("sha256-");
        byte_length_is_bounded(self.signed_health_sha256@);
        byte_length_is_bounded(self.authenticated_admission_sha256@);
        byte_length_is_bounded(self.signature_algorithm@);
        reveal_strlit("ed25519");
        release_binding_is_short(opt(self.release_id), opt(self.release_witness_sha256), opt(self.source_commit));
        let fields = self.wire()->Sequence_0;
        byte_list_is_plain(self.signature@);
        assert forall|i: int| 0 <= i < fields.len() implies carried(#[trigger] fields[i], 1) by {}
    }

    proof fn wire_decides(self, other: Self) {
        let (a, b) = (self.wire()->Sequence_0, other.wire()->Sequence_0);
        assert(a[0] == b[0] && a[1] == b[1] && a[2] == b[2] && a[3] == b[3] && a[4] == b[4] && a[5] == b[5]);
        assert(a[6] == b[6] && a[7] == b[7] && a[8] == b[8] && a[9] == b[9] && a[10] == b[10] && a[11] == b[11]);
        assert(a[12] == b[12] && a[13] == b[13] && a[14] == b[14] && a[15] == b[15] && a[16] == b[16] && a[17] == b[17]);
        assert(a[18] == b[18] && a[19] == b[19] && a[20] == b[20] && a[21] == b[21] && a[22] == b[22] && a[23] == b[23]);
        assert(a[24] == b[24] && a[25] == b[25] && a[26] == b[26] && a[27] == b[27]);
        byte_list_is_faithful(self.signature@, other.signature@);
    }

    fn to_wire(&self) -> (field: WireValue) {
        let field = sequence_field(
            vec![
                text_field(&self.schema_version),
                text_field(&self.projection_id),
                text_field(&self.daemon_id),
                text_field(&self.health_contract),
                text_field(&self.provider_state),
                text_field(&self.reason_code),
                number_field(self.provider_observed_at_unix_millis),
                number_field(self.admitted_at_unix_millis),
                number_field(self.evaluated_at_unix_millis),
                text_field(&self.trust_binding_id),
                text_field(&self.trust_binding_sha256),
                text_field(&self.signed_health_sha256),
                text_field(&self.authenticated_admission_sha256),
                text_field(&self.provider_signer_identity_id),
                text_field(&self.provider_incarnation_id),
                number_field(self.provider_sequence),
                optional_text_field(&self.release_id),
                optional_text_field(&self.release_witness_sha256),
                optional_text_field(&self.source_commit),
                optional_text_field(&self.deployment_id),
                text_field(&self.idunn_runtime_id),
                text_field(&self.idunn_signer_identity_id),
                text_field(&self.projection_incarnation_id),
                number_field(self.projection_sequence),
                text_field(&self.signature_algorithm),
                byte_list_field(&self.signature),
                flag_field(self.private_state_exposed),
                number_field(self.expires_at_unix_millis),
            ],
        );
        assert(field@->Sequence_0 =~= self.wire()->Sequence_0);
        field
    }

    fn from_wire(field: &WireValue) -> (record: Option<Self>) {
        let items = match read_items(field, 28) {
            Some(found) => found,
            None => {
                return None;
            },
        };
        let ghost all = trees(items@);
        assert forall|any: Self| #[trigger] any.wire() == field@ implies {
            &&& all[0] is Text
            &&& all[1] is Text
            &&& all[2] is Text
            &&& all[3] is Text
            &&& all[4] is Text
            &&& all[5] is Text
            &&& all[6] is Unsigned
            &&& all[7] is Unsigned
            &&& all[8] is Unsigned
            &&& all[9] is Text
            &&& all[10] is Text
            &&& all[11] is Text
            &&& all[12] is Text
            &&& all[13] is Text
            &&& all[14] is Text
            &&& all[15] is Unsigned
            &&& all[16] is Text || all[16] is Nil
            &&& all[17] is Text || all[17] is Nil
            &&& all[18] is Text || all[18] is Nil
            &&& all[19] is Text || all[19] is Nil
            &&& all[20] is Text
            &&& all[21] is Text
            &&& all[22] is Text
            &&& all[23] is Unsigned
            &&& all[24] is Text
            &&& all[25] == byte_list(any.signature@)
            &&& all[26] is Flag
            &&& all[27] is Unsigned
        } by {
            assert(any.wire()->Sequence_0 == all);
        }
        let record = IdunnAuthenticatedProviderHealthProjectionRecord {
            schema_version: read_text(&items[0])?,
            projection_id: read_text(&items[1])?,
            daemon_id: read_text(&items[2])?,
            health_contract: read_text(&items[3])?,
            provider_state: read_text(&items[4])?,
            reason_code: read_text(&items[5])?,
            provider_observed_at_unix_millis: read_number(&items[6])?,
            admitted_at_unix_millis: read_number(&items[7])?,
            evaluated_at_unix_millis: read_number(&items[8])?,
            trust_binding_id: read_text(&items[9])?,
            trust_binding_sha256: read_text(&items[10])?,
            signed_health_sha256: read_text(&items[11])?,
            authenticated_admission_sha256: read_text(&items[12])?,
            provider_signer_identity_id: read_text(&items[13])?,
            provider_incarnation_id: read_text(&items[14])?,
            provider_sequence: read_number(&items[15])?,
            release_id: read_optional_text(&items[16])?,
            release_witness_sha256: read_optional_text(&items[17])?,
            source_commit: read_optional_text(&items[18])?,
            deployment_id: read_optional_text(&items[19])?,
            idunn_runtime_id: read_text(&items[20])?,
            idunn_signer_identity_id: read_text(&items[21])?,
            projection_incarnation_id: read_text(&items[22])?,
            projection_sequence: read_number(&items[23])?,
            signature_algorithm: read_text(&items[24])?,
            signature: read_byte_list(&items[25])?,
            private_state_exposed: read_flag(&items[26])?,
            expires_at_unix_millis: read_number(&items[27])?,
        };
        assert(record.wire()->Sequence_0 =~= all);
        Some(record)
    }

    fn check(&self) -> (outcome: Result<(), CultNetError>) {
        self.validate()
    }
}

impl IdunnAuthenticatedProviderHealthProjectionRecord {
    /// The reason goes with the state, the times follow one another, and sequences,
    /// digests, signature and privacy are as a projection has them.
    pub open spec fn shape_is_valid(self) -> bool {
        &&& reason_of(self.provider_state@) == Some(self.reason_code@)
        &&& 0 < self.provider_observed_at_unix_millis <= self.admitted_at_unix_millis
            <= self.evaluated_at_unix_millis < self.expires_at_unix_millis
        &&& self.provider_sequence != 0
        &&& self.projection_sequence != 0
        &&& sha256_reference(self.trust_binding_sha256@)
        &&& sha256_reference(self.signed_health_sha256@)
        &&& sha256_reference(self.authenticated_admission_sha256@)
        &&& self.signature_algorithm@ == "ed25519"@
        &&& self.signature@.len() == 64
        &&& !self.private_state_exposed
    }

    pub fn validate(&self) -> (outcome: Result<(), CultNetError>)
        ensures
            reports(outcome, self.violation()),
    {
        ensure(
            same_text(&self.schema_version, IDUNN_AUTHENTICATED_PROVIDER_HEALTH_PROJECTION_SCHEMA),
            "authenticated provider health projection schema is unsupported",
        )?;
        check_identifier(&self.projection_id, "projection id")?;
        check_identifier(&self.daemon_id, "daemon id")?;
        check_identifier(&self.health_contract, "health contract")?;
        check_identifier(&self.trust_binding_id, "trust binding id")?;
        check_identifier(&self.provider_signer_identity_id, "provider signer identity id")?;
        check_identifier(&self.provider_incarnation_id, "provider incarnation id")?;
        check_identifier(&self.idunn_runtime_id, "Idunn runtime id")?;
        check_identifier(&self.idunn_signer_identity_id, "Idunn signer identity id")?;
        check_identifier(&self.projection_incarnation_id, "projection incarnation id")?;
        let reason_is_valid = match authenticated_provider_health_reason_code(&self.provider_state) {
            Some(reason) => same_text(reason, &self.reason_code),
            None => false,
        };
        ensure(
            reason_is_valid && self.provider_observed_at_unix_millis != 0 && self.admitted_at_unix_millis
                >= self.provider_observed_at_unix_millis && self.evaluated_at_unix_millis
                >= self.admitted_at_unix_millis && self.expires_at_unix_millis > self.evaluated_at_unix_millis
                && self.provider_sequence != 0 && self.projection_sequence != 0 && is_sha256_reference(
                &self.trust_binding_sha256,
            ) && is_sha256_reference(&self.signed_health_sha256) && is_sha256_reference(
                &self.authenticated_admission_sha256,
            ) && same_text(&self.signature_algorithm, "ed25519") && self.signature.len() == 64
                && !self.private_state_exposed,
            "authenticated provider health projection shape, lineage, reason, signature, or privacy is invalid",
        )?;
        check_release_binding(&self.release_id, &self.release_witness_sha256, &self.source_commit)?;
        check_optional_identifier(&self.deployment_id, "deployment id")?;
        ensure(
            self.deployment_id.is_some() == self.release_id.is_some(),
            "authenticated provider health projection release lineage is partial",
        )
    }
}

}

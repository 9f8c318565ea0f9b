//! The messages that CultNet peers exchange, and the two wire contracts that carry them.
use vstd::prelude::*;
use crate::json::JsonValue;
use crate::text::same_text;

pub mod codec;
pub mod json_form;
pub mod legacy_form;
pub mod validation;

verus! {

#[derive(Clone, Copy, Debug, PartialEq, Eq, Structural)]
pub enum CultNetWireContract {
    CultNetSchemaV0,
    GameCultNetworkingV0,
}

impl CultNetWireContract {
    /// The name under which the contract is advertised.
    pub open spec fn name_text(self) -> Seq<char> {
        match self {
            CultNetWireContract::CultNetSchemaV0 => "cultnet.schema.v0"@,
            CultNetWireContract::GameCultNetworkingV0 => "gamecult.networking.v0"@,
        }
    }

    pub fn name(self) -> (name: &'static str)
        ensures
            name@ == self.name_text(),
    {
        match self {
            CultNetWireContract::CultNetSchemaV0 => "cultnet.schema.v0",
            CultNetWireContract::GameCultNetworkingV0 => "gamecult.networking.v0",
        }
    }

    pub fn from_name(name: &str) -> (contract: Option<Self>)
        ensures
            match contract {
                Some(found) => found.name_text() == name@,
                None => forall|any: Self| #[trigger] any.name_text() != name@,
            },
    {
        if same_text(name, "cultnet.schema.v0") {
            Some(CultNetWireContract::CultNetSchemaV0)
        } else if same_text(name, "gamecult.networking.v0") {
            Some(CultNetWireContract::GameCultNetworkingV0)
        } else {
            None
        }
    }
}

/// What a schema describes.
#[derive(Clone, Copy, Debug, PartialEq, Eq, PartialOrd, Ord, Structural)]
pub enum CultNetSchemaKind {
    WireMessage,
    SharedContract,
    DocumentPayload,
}

impl CultNetSchemaKind {
    /// The name under which the kind is advertised.
    pub open spec fn name_text(self) -> Seq<char> {
        match self {
            CultNetSchemaKind::WireMessage => "wire_message"@,
            CultNetSchemaKind::SharedContract => "shared_contract"@,
            CultNetSchemaKind::DocumentPayload => "document_payload"@,
        }
    }

    pub fn name(self) -> (name: &'static str)
        ensures
            name@ == self.name_text(),
    {
        match self {
            CultNetSchemaKind::WireMessage => "wire_message",
            CultNetSchemaKind::SharedContract => "shared_contract",
            CultNetSchemaKind::DocumentPayload => "document_payload",
        }
    }

    pub fn from_name(name: &str) -> (kind: Option<Self>)
        ensures
            match kind {
                Some(found) => found.name_text() == name@,
                None => forall|any: Self| #[trigger] any.name_text() != name@,
            },
    {
        if same_text(name, "wire_message") {
            Some(CultNetSchemaKind::WireMessage)
        } else if same_text(name, "shared_contract") {
            Some(CultNetSchemaKind::SharedContract)
        } else if same_text(name, "document_payload") {
            Some(CultNetSchemaKind::DocumentPayload)
        } else {
            None
        }
    }
}

/// One schema as a peer advertises it.
#[derive(Clone, Debug, PartialEq, Eq)]
pub struct CultNetSchemaDescriptor {
    pub schema_id: String,
    pub kind: CultNetSchemaKind,
    pub schema_version: Option<String>,
    pub document_type: Option<String>,
    pub title: Option<String>,
    pub wire_contracts: Vec<CultNetWireContract>,
    pub content_hash: String,
    pub schema_json: Option<String>,
}

/// A document with its payload decoded.
#[derive(Clone, Debug, PartialEq, Eq)]
pub struct CultNetDocumentRecord<TPayload = JsonValue> {
    pub schema_id: String,
    pub record_key: String,
    pub stored_at: String,
    pub payload: TPayload,
    pub source_runtime_id: Option<String>,
    pub source_agent_id: Option<String>,
    pub source_role: Option<String>,
    pub tags: Option<Vec<String>>,
}

/// How the payload of a raw document is encoded.
#[derive(Clone, Copy, Debug, PartialEq, Eq, Structural)]
pub enum CultNetRawPayloadEncoding {
    Messagepack,
}

/// A document with its payload as it is stored.
#[derive(Clone, Debug, PartialEq, Eq)]
pub struct CultNetRawDocumentRecord {
    pub schema_id: String,
    pub record_key: String,
    pub stored_at: String,
    pub payload_encoding: CultNetRawPayloadEncoding,
    pub payload: Vec<u8>,
    pub source_runtime_id: Option<String>,
    pub source_agent_id: Option<String>,
    pub source_role: Option<String>,
    pub tags: Option<Vec<String>>,
}

/// Who may change documents of a schema, and how.
#[derive(Clone, Debug, PartialEq, Eq)]
pub struct CultNetDocumentMutationContract {
    pub schema_id: String,
    pub contract_id: String,
    pub allowed_operations: Vec<String>,
}

#[derive(Clone, Debug, PartialEq, Eq)]
pub enum CultNetMessage {
    Hello {
        runtime_id: String,
        runtime_kind: String,
        agent_id: Option<String>,
        role: Option<String>,
        display_name: Option<String>,
        supported_document_types: Option<Vec<String>>,
        supported_message_versions: Option<Vec<String>>,
        supports_schema_catalog: Option<bool>,
    },
    Login { nonce: String, auth: String, password: String },
    Register { nonce: String, email: String, password: String, name: String },
    Verify { nonce: String, session: String },
    LoginSuccess { nonce: String, session: String },
    Error { error: String },
    SampleChangeName { name: String },
    SampleChat { text: String },
    DocumentPut { message_id: String, document: CultNetDocumentRecord<JsonValue> },
    DocumentPutRaw { message_id: String, document: CultNetRawDocumentRecord },
    DocumentDelete { message_id: String, schema_id: String, record_key: String },
    SnapshotRequest {
        message_id: String,
        schema_ids: Option<Vec<String>>,
        record_keys: Option<Vec<String>>,
    },
    SnapshotResponse { message_id: String, documents: Vec<CultNetDocumentRecord<JsonValue>> },
    SnapshotResponseRaw { message_id: String, documents: Vec<CultNetRawDocumentRecord> },
    SchemaCatalogRequest {
        message_id: String,
        include_schema_json: Option<bool>,
        schema_ids: Option<Vec<String>>,
        kinds: Option<Vec<CultNetSchemaKind>>,
    },
    SchemaCatalogResponse { message_id: String, schemas: Vec<CultNetSchemaDescriptor> },
}

}

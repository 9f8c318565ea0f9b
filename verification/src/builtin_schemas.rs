//! The schemas that every peer of this library understands.
use vstd::prelude::*;
use crate::contracts::CultNetSchemaKind;
use crate::text::text_of_option;

verus! {

/// The number of built-in schemas.
pub const BUILTIN_SCHEMAS: usize = 19;

/// A built-in schema: what it describes, whether the legacy contract carries that too,
/// and the schema itself.
#[derive(Clone, Copy, Debug)]
pub struct BuiltinSchema {
    pub kind: CultNetSchemaKind,
    pub legacy: bool,
    pub schema_version: Option<&'static str>,
    pub document_type: Option<&'static str>,
    pub schema_json: &'static str,
}

pub const HELLO_SCHEMA: &'static str = r##"{"$schema":"https://json-schema.org/draft/2020-12/schema","$id":"https://gamecult.org/contracts/cultnet.hello.schema.json","title":"CultNet Hello","type":"object","properties":{"schemaVersion":{"const":"cultnet.hello.v0"},"runtimeId":{"type":"string","minLength":1},"runtimeKind":{"type":"string","minLength":1},"agentId":{"type":"string","minLength":1},"role":{"type":"string","minLength":1},"displayName":{"type":"string","minLength":1},"supportedDocumentTypes":{"type":"array","items":{"type":"string","minLength":1}},"supportedMessageVersions":{"type":"array","items":{"type":"string","minLength":1}},"supportsSchemaCatalog":{"type":"boolean"}},"required":["schemaVersion","runtimeId","runtimeKind"]}"##;

pub const DOCUMENT_MUTATION_CONTRACT_SCHEMA: &'static str = r##"{"$schema":"https://json-schema.org/draft/2020-12/schema","$id":"https://gamecult.org/contracts/cultnet.document-mutation-contract.schema.json","title":"CultNet Document Mutation Contract","type":"object","properties":{"schemaId":{"type":"string","minLength":1},"contractId":{"type":"string","minLength":1},"allowedOperations":{"type":"array","items":{"type":"string","minLength":1}}},"required":["schemaId","contractId","allowedOperations"]}"##;

pub const LOGIN_SCHEMA: &'static str = r##"{"$schema":"https://json-schema.org/draft/2020-12/schema","$id":"https://gamecult.org/contracts/cultnet.login.schema.json","title":"CultNet Login","type":"object","properties":{"schemaVersion":{"const":"cultnet.login.v0"},"nonce":{"type":"string","minLength":1},"auth":{"type":"string","minLength":1},"password":{"type":"string","minLength":1}},"required":["schemaVersion","nonce","auth","password"]}"##;

pub const REGISTER_SCHEMA: &'static str = r##"{"$schema":"https://json-schema.org/draft/2020-12/schema","$id":"https://gamecult.org/contracts/cultnet.register.schema.json","title":"CultNet Register","type":"object","properties":{"schemaVersion":{"const":"cultnet.register.v0"},"nonce":{"type":"string","minLength":1},"email":{"type":"string","minLength":1},"password":{"type":"string","minLength":1},"name":{"type":"string","minLength":1}},"required":["schemaVersion","nonce","email","password","name"]}"##;

pub const VERIFY_SCHEMA: &'static str = r##"{"$schema":"https://json-schema.org/draft/2020-12/schema","$id":"https://gamecult.org/contracts/cultnet.verify.schema.json","title":"CultNet Verify","type":"object","properties":{"schemaVersion":{"const":"cultnet.verify.v0"},"nonce":{"type":"string","minLength":1},"session":{"type":"string","minLength":1}},"required":["schemaVersion","nonce","session"]}"##;

pub const LOGIN_SUCCESS_SCHEMA: &'static str = r##"{"$schema":"https://json-schema.org/draft/2020-12/schema","$id":"https://gamecult.org/contracts/cultnet.login-success.schema.json","title":"CultNet Login Success","type":"object","properties":{"schemaVersion":{"const":"cultnet.login_success.v0"},"nonce":{"type":"string","minLength":1},"session":{"type":"string","minLength":1}},"required":["schemaVersion","nonce","session"]}"##;

pub const ERROR_SCHEMA: &'static str = r##"{"$schema":"https://json-schema.org/draft/2020-12/schema","$id":"https://gamecult.org/contracts/cultnet.error.schema.json","title":"CultNet Error","type":"object","properties":{"schemaVersion":{"const":"cultnet.error.v0"},"error":{"type":"string","minLength":1}},"required":["schemaVersion","error"]}"##;

pub const SAMPLE_CHANGE_NAME_SCHEMA: &'static str = r##"{"$schema":"https://json-schema.org/draft/2020-12/schema","$id":"https://gamecult.org/contracts/cultnet.sample-change-name.schema.json","title":"CultNet Sample Change Name","type":"object","properties":{"schemaVersion":{"const":"cultnet.sample.change_name.v0"},"name":{"type":"string","minLength":1}},"required":["schemaVersion","name"]}"##;

pub const SAMPLE_CHAT_SCHEMA: &'static str = r##"{"$schema":"https://json-schema.org/draft/2020-12/schema","$id":"https://gamecult.org/contracts/cultnet.sample-chat.schema.json","title":"CultNet Sample Chat","type":"object","properties":{"schemaVersion":{"const":"cultnet.sample.chat.v0"},"text":{"type":"string","minLength":1}},"required":["schemaVersion","text"]}"##;

pub const DOCUMENT_PUT_SCHEMA: &'static str = r##"{"$schema":"https://json-schema.org/draft/2020-12/schema","$id":"https://gamecult.org/contracts/cultnet.document-put.schema.json","title":"CultNet Document Put","type":"object","properties":{"schemaVersion":{"const":"cultnet.document_put.v0"},"messageId":{"type":"string","minLength":1},"document":{"type":"object","properties":{"schemaId":{"type":"string","minLength":1},"recordKey":{"type":"string","minLength":1},"storedAt":{"type":"string","minLength":1},"payload":{},"sourceRuntimeId":{"type":"string","minLength":1},"sourceAgentId":{"type":"string","minLength":1},"sourceRole":{"type":"string","minLength":1},"tags":{"type":"array","items":{"type":"string","minLength":1}}},"required":["schemaId","recordKey","storedAt","payload"]}},"required":["schemaVersion","messageId","document"]}"##;

pub const DOCUMENT_DELETE_SCHEMA: &'static str = r##"{"$schema":"https://json-schema.org/draft/2020-12/schema","$id":"https://gamecult.org/contracts/cultnet.document-delete.schema.json","title":"CultNet Document Delete","type":"object","properties":{"schemaVersion":{"const":"cultnet.document_delete.v0"},"messageId":{"type":"string","minLength":1},"schemaId":{"type":"string","minLength":1},"recordKey":{"type":"string","minLength":1}},"required":["schemaVersion","messageId","schemaId","recordKey"]}"##;

pub const RAW_DOCUMENT_RECORD_SCHEMA: &'static str = r##"{"$schema":"https://json-schema.org/draft/2020-12/schema","$id":"https://gamecult.org/contracts/cultnet.raw-document-record.schema.json","title":"CultNet Raw Document Record","type":"object","properties":{"schemaId":{"type":"string","minLength":1},"recordKey":{"type":"string","minLength":1},"storedAt":{"type":"string","minLength":1},"payload":{"type":"array","items":{"type":"integer","minimum":0,"maximum":255}},"sourceRuntimeId":{"type":"string","minLength":1},"sourceAgentId":{"type":"string","minLength":1},"sourceRole":{"type":"string","minLength":1},"tags":{"type":"array","items":{"type":"string","minLength":1}},"payloadEncoding":{"const":"messagepack"}},"required":["schemaId","recordKey","storedAt","payloadEncoding","payload"]}"##;

pub const DOCUMENT_PUT_RAW_SCHEMA: &'static str = r##"{"$schema":"https://json-schema.org/draft/2020-12/schema","$id":"https://gamecult.org/contracts/cultnet.document-put-raw.schema.json","title":"CultNet Document Put Raw","type":"object","properties":{"schemaVersion":{"const":"cultnet.document_put_raw.v0"},"messageId":{"type":"string","minLength":1},"document":{"$ref":"https://gamecult.org/contracts/cultnet.raw-document-record.schema.json"}},"required":["schemaVersion","messageId","document"]}"##;

pub const SNAPSHOT_REQUEST_SCHEMA: &'static str = r##"{"$schema":"https://json-schema.org/draft/2020-12/schema","$id":"https://gamecult.org/contracts/cultnet.snapshot-request.schema.json","title":"CultNet Snapshot Request","type":"object","properties":{"schemaVersion":{"const":"cultnet.snapshot_request.v0"},"messageId":{"type":"string","minLength":1},"schemaIds":{"type":"array","items":{"type":"string","minLength":1}},"recordKeys":{"type":"array","items":{"type":"string","minLength":1}}},"required":["schemaVersion","messageId"]}"##;

pub const SNAPSHOT_RESPONSE_SCHEMA: &'static str = r##"{"$schema":"https://json-schema.org/draft/2020-12/schema","$id":"https://gamecult.org/contracts/cultnet.snapshot-response.schema.json","title":"CultNet Snapshot Response","type":"object","properties":{"schemaVersion":{"const":"cultnet.snapshot_response.v0"},"messageId":{"type":"string","minLength":1},"documents":{"type":"array","items":{"type":"object","properties":{"schemaId":{"type":"string","minLength":1},"recordKey":{"type":"string","minLength":1},"storedAt":{"type":"string","minLength":1},"payload":{},"sourceRuntimeId":{"type":"string","minLength":1},"sourceAgentId":{"type":"string","minLength":1},"sourceRole":{"type":"string","minLength":1},"tags":{"type":"array","items":{"type":"string","minLength":1}}},"required":["schemaId","recordKey","storedAt","payload"]}}},"required":["schemaVersion","messageId","documents"]}"##;

pub const SNAPSHOT_RESPONSE_RAW_SCHEMA: &'static str = r##"{"$schema":"https://json-schema.org/draft/2020-12/schema","$id":"https://gamecult.org/contracts/cultnet.snapshot-response-raw.schema.json","title":"CultNet Snapshot Response Raw","type":"object","properties":{"schemaVersion":{"const":"cultnet.snapshot_response_raw.v0"},"messageId":{"type":"string","minLength":1},"documents":{"type":"array","items":{"$ref":"https://gamecult.org/contracts/cultnet.raw-document-record.schema.json"}}},"required":["schemaVersion","messageId","documents"]}"##;

pub const SCHEMA_CATALOG_REQUEST_SCHEMA: &'static str = r##"{"$schema":"https://json-schema.org/draft/2020-12/schema","$id":"https://gamecult.org/contracts/cultnet.schema-catalog-request.schema.json","title":"CultNet Schema Catalog Request","type":"object","properties":{"schemaVersion":{"const":"cultnet.schema_catalog_request.v0"},"messageId":{"type":"string","minLength":1},"includeSchemaJson":{"type":"boolean"},"schemaIds":{"type":"array","items":{"type":"string","minLength":1}},"kinds":{"type":"array","items":{"enum":["wire_message","shared_contract","document_payload"]}}},"required":["schemaVersion","messageId"]}"##;

pub const SCHEMA_CATALOG_RESPONSE_SCHEMA: &'static str = r##"{"$schema":"https://json-schema.org/draft/2020-12/schema","$id":"https://gamecult.org/contracts/cultnet.schema-catalog-response.schema.json","title":"CultNet Schema Catalog Response","type":"object","properties":{"schemaVersion":{"const":"cultnet.schema_catalog_response.v0"},"messageId":{"type":"string","minLength":1},"schemas":{"type":"array","items":{"type":"object","properties":{"schemaId":{"type":"string","minLength":1},"kind":{"enum":["wire_message","shared_contract","document_payload"]},"schemaVersion":{"type":"string","minLength":1},"documentType":{"type":"string","minLength":1},"title":{"type":"string","minLength":1},"wireContracts":{"type":"array","items":{"enum":["cultnet.schema.v0","gamecult.networking.v0"]}},"contentHash":{"type":"string","minLength":1},"schemaJson":{"type":"string","minLength":1}},"required":["schemaId","kind","wireContracts","contentHash"]}}},"required":["schemaVersion","messageId","schemas"]}"##;

pub const GHOSTLIGHT_AGENT_STATE_SCHEMA: &'static str = r##"{"$schema":"https://json-schema.org/draft/2020-12/schema","$id":"https://gamecult.org/contracts/ghostlight.agent-state.schema.json","title":"Ghostlight Agent State","type":"object","properties":{"schema_version":{"const":"ghostlight.agent_state.v0"},"agent_id":{"type":"string","minLength":1},"display_name":{"type":"string","minLength":1}},"required":["schema_version","agent_id","display_name"]}"##;

/// What is said of the built-in schema at a position: its kind, whether the legacy
/// contract carries it, its version and document type, and its text.
pub open spec fn is_builtin(schema: BuiltinSchema, position: int) -> bool {
    if position == 0 {
        is_schema(schema, CultNetSchemaKind::WireMessage, false, Some("cultnet.hello.v0"@), None, HELLO_SCHEMA@)
    } else if position == 1 {
        is_schema(schema, CultNetSchemaKind::SharedContract, false, None, None, DOCUMENT_MUTATION_CONTRACT_SCHEMA@)
    } else if position == 2 {
        is_schema(schema, CultNetSchemaKind::WireMessage, true, Some("cultnet.login.v0"@), None, LOGIN_SCHEMA@)
    } else if position == 3 {
        is_schema(schema, CultNetSchemaKind::WireMessage, true, Some("cultnet.register.v0"@), None, REGISTER_SCHEMA@)
    } else if position == 4 {
        is_schema(schema, CultNetSchemaKind::WireMessage, true, Some("cultnet.verify.v0"@), None, VERIFY_SCHEMA@)
    } else if position == 5 {
        is_schema(schema, CultNetSchemaKind::WireMessage, true, Some("cultnet.login_success.v0"@), None, LOGIN_SUCCESS_SCHEMA@)
    } else if position == 6 {
        is_schema(schema, CultNetSchemaKind::WireMessage, true, Some("cultnet.error.v0"@), None, ERROR_SCHEMA@)
    } else if position == 7 {
        is_schema(schema, CultNetSchemaKind::WireMessage, true, Some("cultnet.sample.change_name.v0"@), None, SAMPLE_CHANGE_NAME_SCHEMA@)
    } else if position == 8 {
        is_schema(schema, CultNetSchemaKind::WireMessage, true, Some("cultnet.sample.chat.v0"@), None, SAMPLE_CHAT_SCHEMA@)
    } else if position == 9 {
        is_schema(schema, CultNetSchemaKind::WireMessage, false, Some("cultnet.document_put.v0"@), None, DOCUMENT_PUT_SCHEMA@)
    } else if position == 10 {
        is_schema(schema, CultNetSchemaKind::WireMessage, false, Some("cultnet.document_delete.v0"@), None, DOCUMENT_DELETE_SCHEMA@)
    } else if position == 11 {
        is_schema(schema, CultNetSchemaKind::SharedContract, false, None, None, RAW_DOCUMENT_RECORD_SCHEMA@)
    } else if position == 12 {
        is_schema(schema, CultNetSchemaKind::WireMessage, false, Some("cultnet.document_put_raw.v0"@), None, DOCUMENT_PUT_RAW_SCHEMA@)
    } else if position == 13 {
        is_schema(schema, CultNetSchemaKind::WireMessage, false, Some("cultnet.snapshot_request.v0"@), None, SNAPSHOT_REQUEST_SCHEMA@)
    } else if position == 14 {
        is_schema(schema, CultNetSchemaKind::WireMessage, false, Some("cultnet.snapshot_response.v0"@), None, SNAPSHOT_RESPONSE_SCHEMA@)
    } else if position == 15 {
        is_schema(schema, CultNetSchemaKind::WireMessage, false, Some("cultnet.snapshot_response_raw.v0"@), None, SNAPSHOT_RESPONSE_RAW_SCHEMA@)
    } else if position == 16 {
        is_schema(schema, CultNetSchemaKind::WireMessage, true, Some("cultnet.schema_catalog_request.v0"@), None, SCHEMA_CATALOG_REQUEST_SCHEMA@)
    } else if position == 17 {
        is_schema(schema, CultNetSchemaKind::WireMessage, true, Some("cultnet.schema_catalog_response.v0"@), None, SCHEMA_CATALOG_RESPONSE_SCHEMA@)
    } else if position == 18 {
        is_schema(schema, CultNetSchemaKind::DocumentPayload, false, Some("ghostlight.agent_state.v0"@), Some("ghostlight.agent-state"@), GHOSTLIGHT_AGENT_STATE_SCHEMA@)
    } else {
        false
    }
}

pub open spec fn is_schema(
    schema: BuiltinSchema,
    kind: CultNetSchemaKind,
    legacy: bool,
    schema_version: Option<Seq<char>>,
    document_type: Option<Seq<char>>,
    schema_json: Seq<char>,
) -> bool {
    &&& schema.kind == kind
    &&& schema.legacy == legacy
    &&& text_of_option(schema.schema_version) == schema_version
    &&& text_of_option(schema.document_type) == document_type
    &&& schema.schema_json@ == schema_json
}

/// These are the built-in schemas, in their order.
pub open spec fn are_builtin(schemas: Seq<BuiltinSchema>) -> bool {
    &&& schemas.len() == BUILTIN_SCHEMAS
    &&& forall|i: int| 0 <= i < schemas.len() ==> is_builtin(#[trigger] schemas[i], i)
}

fn schema(
    kind: CultNetSchemaKind,
    legacy: bool,
    schema_version: Option<&'static str>,
    document_type: Option<&'static str>,
    schema_json: &'static str,
) -> (schema: BuiltinSchema)
    ensures
        is_schema(
            schema,
            kind,
            legacy,
            text_of_option(schema_version),
            text_of_option(document_type),
            schema_json@,
        ),
{
    BuiltinSchema { kind, legacy, schema_version, document_type, schema_json }
}

pub fn builtin_schemas() -> (schemas: Vec<BuiltinSchema>)
    ensures
        are_builtin(schemas@),
{
    let mut schemas: Vec<BuiltinSchema> = Vec::new();
    schemas.push(
        schema(CultNetSchemaKind::WireMessage, false, Some("cultnet.hello.v0"), None, HELLO_SCHEMA),
    );
    schemas.push(
        schema(CultNetSchemaKind::SharedContract, false, None, None, DOCUMENT_MUTATION_CONTRACT_SCHEMA),
    );
    schemas.push(
        schema(CultNetSchemaKind::WireMessage, true, Some("cultnet.login.v0"), None, LOGIN_SCHEMA),
    );
    schemas.push(
        schema(CultNetSchemaKind::WireMessage, true, Some("cultnet.register.v0"), None, REGISTER_SCHEMA),
    );
    schemas.push(
        schema(CultNetSchemaKind::WireMessage, true, Some("cultnet.verify.v0"), None, VERIFY_SCHEMA),
    );
    schemas.push(
        schema(CultNetSchemaKind::WireMessage, true, Some("cultnet.login_success.v0"), None, LOGIN_SUCCESS_SCHEMA),
    );
    schemas.push(
        schema(CultNetSchemaKind::WireMessage, true, Some("cultnet.error.v0"), None, ERROR_SCHEMA),
    );
    schemas.push(
        schema(CultNetSchemaKind::WireMessage, true, Some("cultnet.sample.change_name.v0"), None, SAMPLE_CHANGE_NAME_SCHEMA),
    );
    schemas.push(
        schema(CultNetSchemaKind::WireMessage, true, Some("cultnet.sample.chat.v0"), None, SAMPLE_CHAT_SCHEMA),
    );
    schemas.push(
        schema(CultNetSchemaKind::WireMessage, false, Some("cultnet.document_put.v0"), None, DOCUMENT_PUT_SCHEMA),
    );
    schemas.push(
        schema(CultNetSchemaKind::WireMessage, false, Some("cultnet.document_delete.v0"), None, DOCUMENT_DELETE_SCHEMA),
    );
    schemas.push(
        schema(CultNetSchemaKind::SharedContract, false, None, None, RAW_DOCUMENT_RECORD_SCHEMA),
    );
    schemas.push(
        schema(CultNetSchemaKind::WireMessage, false, Some("cultnet.document_put_raw.v0"), None, DOCUMENT_PUT_RAW_SCHEMA),
    );
    schemas.push(
        schema(CultNetSchemaKind::WireMessage, false, Some("cultnet.snapshot_request.v0"), None, SNAPSHOT_REQUEST_SCHEMA),
    );
    schemas.push(
        schema(CultNetSchemaKind::WireMessage, false, Some("cultnet.snapshot_response.v0"), None, SNAPSHOT_RESPONSE_SCHEMA),
    );
    schemas.push(
        schema(CultNetSchemaKind::WireMessage, false, Some("cultnet.snapshot_response_raw.v0"), None, SNAPSHOT_RESPONSE_RAW_SCHEMA),
    );
    schemas.push(
        schema(CultNetSchemaKind::WireMessage, true, Some("cultnet.schema_catalog_request.v0"), None, SCHEMA_CATALOG_REQUEST_SCHEMA),
    );
    schemas.push(
        schema(CultNetSchemaKind::WireMessage, true, Some("cultnet.schema_catalog_response.v0"), None, SCHEMA_CATALOG_RESPONSE_SCHEMA),
    );
    schemas.push(
        schema(CultNetSchemaKind::DocumentPayload, false, Some("ghostlight.agent_state.v0"), Some("ghostlight.agent-state"), GHOSTLIGHT_AGENT_STATE_SCHEMA),
    );
    schemas
}

}

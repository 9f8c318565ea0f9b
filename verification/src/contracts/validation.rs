//! What every message must meet before it is sent, and after it was read.
use vstd::prelude::*;
use super::{
    CultNetDocumentRecord, CultNetMessage, CultNetRawDocumentRecord, CultNetSchemaDescriptor,
};
use crate::error::{ensure, first_among, first_among_stays, first_of, reports, unless, CultNetError};
use crate::json::JsonValue;
use crate::text::{blank, is_blank, joined, opt, views};

verus! {

/// The views of an optional list of texts.
pub open spec fn opt_texts(texts: Option<Vec<String>>) -> Option<Seq<Seq<char>>> {
    match texts {
        Some(found) => Some(views(found@)),
        None => None,
    }
}

/// What a blank field is refused with.
pub open spec fn blank_refusal(field: Seq<char>) -> Seq<char> {
    "CultNet field "@ + field + " must be non-empty"@
}

/// Why the field is refused, if it is.
pub open spec fn field_violation(value: Seq<char>, field: Seq<char>) -> Option<Seq<char>> {
    unless(!blank(value), blank_refusal(field))
}

pub open spec fn optional_field_violation(value: Option<Seq<char>>, field: Seq<char>) -> Option<Seq<char>> {
    match value {
        Some(found) => field_violation(found, field),
        None => None,
    }
}

/// No text of the list is blank.
pub open spec fn none_blank(values: Seq<Seq<char>>) -> bool {
    forall|i: int| 0 <= i < values.len() ==> !blank(#[trigger] values[i])
}

pub open spec fn optional_list_violation(values: Option<Seq<Seq<char>>>, field: Seq<char>) -> Option<Seq<char>> {
    match values {
        Some(found) => unless(none_blank(found), blank_refusal(field)),
        None => None,
    }
}

pub(crate) fn require_non_empty(value: &str, field: &str) -> (outcome: Result<(), CultNetError>)
    ensures
        reports(outcome, field_violation(value@, field@)),
{
    ensure(!is_blank(value), &joined(&joined("CultNet field ", field), " must be non-empty"))
}

fn require_optional_non_empty(value: &Option<String>, field: &str) -> (outcome: Result<(), CultNetError>)
    ensures
        reports(outcome, optional_field_violation(opt(*value), field@)),
{
    match value {
        Some(found) => require_non_empty(found, field),
        None => Ok(()),
    }
}

fn require_optional_string_vec(value: &Option<Vec<String>>, field: &str) -> (outcome: Result<(), CultNetError>)
    ensures
        reports(outcome, optional_list_violation(opt_texts(*value), field@)),
{
    match value {
        None => Ok(()),
        Some(texts) => {
            let ghost all = views(texts@);
            let mut i: usize = 0;
            while i < texts.len()
                invariant
                    i <= texts@.len(),
                    value matches Some(found) && found == texts,
                    all == views(texts@),
                    forall|k: int| 0 <= k < i ==> !blank(#[trigger] all[k]),
                decreases texts@.len() - i,
            {
                assert(all[i as int] == texts@[i as int]@);
                require_non_empty(&texts[i], field)?;
                i += 1;
            }
            Ok(())
        },
    }
}

/// What the rules look at in any document.
pub open spec fn document_fields_violation(
    schema_id: Seq<char>,
    record_key: Seq<char>,
    stored_at: Seq<char>,
    source_runtime_id: Option<Seq<char>>,
    source_agent_id: Option<Seq<char>>,
    source_role: Option<Seq<char>>,
    tags: Option<Seq<Seq<char>>>,
) -> Option<Seq<char>> {
    if blank(schema_id) {
        Some(blank_refusal("schemaId"@))
    } else if blank(record_key) {
        Some(blank_refusal("recordKey"@))
    } else if blank(stored_at) {
        Some(blank_refusal("storedAt"@))
    } else if optional_field_violation(source_runtime_id, "sourceRuntimeId"@) is Some {
        optional_field_violation(source_runtime_id, "sourceRuntimeId"@)
    } else if optional_field_violation(source_agent_id, "sourceAgentId"@) is Some {
        optional_field_violation(source_agent_id, "sourceAgentId"@)
    } else if optional_field_violation(source_role, "sourceRole"@) is Some {
        optional_field_violation(source_role, "sourceRole"@)
    } else {
        optional_list_violation(tags, "tags"@)
    }
}

fn check_document_fields(
    schema_id: &str,
    record_key: &str,
    stored_at: &str,
    source_runtime_id: &Option<String>,
    source_agent_id: &Option<String>,
    source_role: &Option<String>,
    tags: &Option<Vec<String>>,
) -> (outcome: Result<(), CultNetError>)
    ensures
        reports(
            outcome,
            document_fields_violation(
                schema_id@,
                record_key@,
                stored_at@,
                opt(*source_runtime_id),
                opt(*source_agent_id),
                opt(*source_role),
                opt_texts(*tags),
            ),
        ),
{
    require_non_empty(schema_id, "schemaId")?;
    require_non_empty(record_key, "recordKey")?;
    require_non_empty(stored_at, "storedAt")?;
    require_optional_non_empty(source_runtime_id, "sourceRuntimeId")?;
    require_optional_non_empty(source_agent_id, "sourceAgentId")?;
    require_optional_non_empty(source_role, "sourceRole")?;
    require_optional_string_vec(tags, "tags")
}

impl<TPayload> CultNetDocumentRecord<TPayload> {
    /// Why the document is refused, if it is.
    pub open spec fn refusal(self) -> Option<Seq<char>> {
        document_fields_violation(
            self.schema_id@,
            self.record_key@,
            self.stored_at@,
            opt(self.source_runtime_id),
            opt(self.source_agent_id),
            opt(self.source_role),
            opt_texts(self.tags),
        )
    }

    fn validate_document_record(&self) -> (outcome: Result<(), CultNetError>)
        ensures
            reports(outcome, self.refusal()),
    {
        check_document_fields(
            &self.schema_id,
            &self.record_key,
            &self.stored_at,
            &self.source_runtime_id,
            &self.source_agent_id,
            &self.source_role,
            &self.tags,
        )
    }
}

impl CultNetRawDocumentRecord {
    /// Why the document is refused, if it is.
    pub open spec fn refusal(self) -> Option<Seq<char>> {
        document_fields_violation(
            self.schema_id@,
            self.record_key@,
            self.stored_at@,
            opt(self.source_runtime_id),
            opt(self.source_agent_id),
            opt(self.source_role),
            opt_texts(self.tags),
        )
    }

    fn validate_document_record(&self) -> (outcome: Result<(), CultNetError>)
        ensures
            reports(outcome, self.refusal()),
    {
        check_document_fields(
            &self.schema_id,
            &self.record_key,
            &self.stored_at,
            &self.source_runtime_id,
            &self.source_agent_id,
            &self.source_role,
            &self.tags,
        )
    }
}

impl CultNetSchemaDescriptor {
    /// Why the descriptor is refused, if it is.
    pub open spec fn refusal(self) -> Option<Seq<char>> {
        if blank(self.schema_id@) {
            Some(blank_refusal("schemaId"@))
        } else if optional_field_violation(opt(self.schema_version), "schemaVersion"@) is Some {
            optional_field_violation(opt(self.schema_version), "schemaVersion"@)
        } else if optional_field_violation(opt(self.document_type), "documentType"@) is Some {
            optional_field_violation(opt(self.document_type), "documentType"@)
        } else if optional_field_violation(opt(self.title), "title"@) is Some {
            optional_field_violation(opt(self.title), "title"@)
        } else if blank(self.content_hash@) {
            Some(blank_refusal("contentHash"@))
        } else {
            optional_field_violation(opt(self.schema_json), "schemaJson"@)
        }
    }

    fn validate_descriptor(&self) -> (outcome: Result<(), CultNetError>)
        ensures
            reports(outcome, self.refusal()),
    {
        require_non_empty(&self.schema_id, "schemaId")?;
        require_optional_non_empty(&self.schema_version, "schemaVersion")?;
        require_optional_non_empty(&self.document_type, "documentType")?;
        require_optional_non_empty(&self.title, "title")?;
        require_non_empty(&self.content_hash, "contentHash")?;
        require_optional_non_empty(&self.schema_json, "schemaJson")
    }
}

/// Why the first document that is refused is refused.
pub open spec fn documents_violation(documents: Seq<CultNetDocumentRecord<JsonValue>>) -> Option<Seq<char>> {
    first_among(|i: int| documents[i].refusal(), documents.len())
}

pub open spec fn raw_documents_violation(documents: Seq<CultNetRawDocumentRecord>) -> Option<Seq<char>> {
    first_among(|i: int| documents[i].refusal(), documents.len())
}

pub open spec fn schemas_violation(schemas: Seq<CultNetSchemaDescriptor>) -> Option<Seq<char>> {
    first_among(|i: int| schemas[i].refusal(), schemas.len())
}

fn check_documents(documents: &Vec<CultNetDocumentRecord<JsonValue>>) -> (outcome: Result<(), CultNetError>)
    ensures
        reports(outcome, documents_violation(documents@)),
{
    let ghost reasons = |i: int| documents@[i].refusal();
    let mut i: usize = 0;
    while i < documents.len()
        invariant
            i <= documents@.len(),
            reasons == (|i: int| documents@[i].refusal()),
            first_among(reasons, i as nat) is None,
        decreases documents@.len() - i,
    {
        proof {
            assert(first_among(reasons, (i + 1) as nat) == reasons(i as int));
            if reasons(i as int) is Some {
                first_among_stays(reasons, (i + 1) as nat, documents@.len());
            }
        }
        documents[i].validate_document_record()?;
        i += 1;
    }
    Ok(())
}

fn check_raw_documents(documents: &Vec<CultNetRawDocumentRecord>) -> (outcome: Result<(), CultNetError>)
    ensures
        reports(outcome, raw_documents_violation(documents@)),
{
    let ghost reasons = |i: int| documents@[i].refusal();
    let mut i: usize = 0;
    while i < documents.len()
        invariant
            i <= documents@.len(),
            reasons == (|i: int| documents@[i].refusal()),
            first_among(reasons, i as nat) is None,
        decreases documents@.len() - i,
    {
        proof {
            assert(first_among(reasons, (i + 1) as nat) == reasons(i as int));
            if reasons(i as int) is Some {
                first_among_stays(reasons, (i + 1) as nat, documents@.len());
            }
        }
        documents[i].validate_document_record()?;
        i += 1;
    }
    Ok(())
}

fn check_schemas(schemas: &Vec<CultNetSchemaDescriptor>) -> (outcome: Result<(), CultNetError>)
    ensures
        reports(outcome, schemas_violation(schemas@)),
{
    let ghost reasons = |i: int| schemas@[i].refusal();
    let mut i: usize = 0;
    while i < schemas.len()
        invariant
            i <= schemas@.len(),
            reasons == (|i: int| schemas@[i].refusal()),
            first_among(reasons, i as nat) is None,
        decreases schemas@.len() - i,
    {
        proof {
            assert(first_among(reasons, (i + 1) as nat) == reasons(i as int));
            if reasons(i as int) is Some {
                first_among_stays(reasons, (i + 1) as nat, schemas@.len());
            }
        }
        schemas[i].validate_descriptor()?;
        i += 1;
    }
    Ok(())
}

impl CultNetMessage {
    /// Why the message is refused, if it is: the first of its texts that must not be
    /// blank and is.
    #[verifier::opaque]
    pub open spec fn refusal(self) -> Option<Seq<char>> {
        match self {
            CultNetMessage::Hello {
                runtime_id,
                runtime_kind,
                agent_id,
                role,
                display_name,
                supported_document_types,
                supported_message_versions,
                supports_schema_catalog,
            } => first_of(
                first_of(
                    field_violation(runtime_id@, "runtimeId"@),
                    field_violation(runtime_kind@, "runtimeKind"@),
                ),
                first_of(
                    first_of(
                        optional_field_violation(opt(agent_id), "agentId"@),
                        first_of(
                            optional_field_violation(opt(role), "role"@),
                            optional_field_violation(opt(display_name), "displayName"@),
                        ),
                    ),
                    first_of(
                        optional_list_violation(
                            opt_texts(supported_document_types),
                            "supportedDocumentTypes"@,
                        ),
                        optional_list_violation(
                            opt_texts(supported_message_versions),
                            "supportedMessageVersions"@,
                        ),
                    ),
                ),
            ),
            CultNetMessage::Login { nonce, auth, password } => first_of(
                field_violation(nonce@, "nonce"@),
                first_of(field_violation(auth@, "auth"@), field_violation(password@, "password"@)),
            ),
            CultNetMessage::Register { nonce, email, password, name } => first_of(
                first_of(field_violation(nonce@, "nonce"@), field_violation(email@, "email"@)),
                first_of(field_violation(password@, "password"@), field_violation(name@, "name"@)),
            ),
            CultNetMessage::Verify { nonce, session } => first_of(
                field_violation(nonce@, "nonce"@),
                field_violation(session@, "session"@),
            ),
            CultNetMessage::LoginSuccess { nonce, session } => first_of(
                field_violation(nonce@, "nonce"@),
                field_violation(session@, "session"@),
            ),
            CultNetMessage::Error { error } => field_violation(error@, "error"@),
            CultNetMessage::SampleChangeName { name } => field_violation(name@, "name"@),
            CultNetMessage::SampleChat { text } => field_violation(text@, "text"@),
            CultNetMessage::DocumentPut { message_id, document } => first_of(
                field_violation(message_id@, "messageId"@),
                document.refusal(),
            ),
            CultNetMessage::DocumentPutRaw { message_id, document } => first_of(
                field_violation(message_id@, "messageId"@),
                document.refusal(),
            ),
            CultNetMessage::DocumentDelete { message_id, schema_id, record_key } => first_of(
                field_violation(message_id@, "messageId"@),
                first_of(
                    field_violation(schema_id@, "schemaId"@),
                    field_violation(record_key@, "recordKey"@),
                ),
            ),
            CultNetMessage::SnapshotRequest { message_id, schema_ids, record_keys } => first_of(
                field_violation(message_id@, "messageId"@),
                first_of(
                    optional_list_violation(opt_texts(schema_ids), "schemaIds"@),
                    optional_list_violation(opt_texts(record_keys), "recordKeys"@),
                ),
            ),
            CultNetMessage::SnapshotResponse { message_id, documents } => first_of(
                field_violation(message_id@, "messageId"@),
                documents_violation(documents@),
            ),
            CultNetMessage::SnapshotResponseRaw { message_id, documents } => first_of(
                field_violation(message_id@, "messageId"@),
                raw_documents_violation(documents@),
            ),
            CultNetMessage::SchemaCatalogRequest { message_id, include_schema_json, schema_ids, kinds } => first_of(
                field_violation(message_id@, "messageId"@),
                optional_list_violation(opt_texts(schema_ids), "schemaIds"@),
            ),
            CultNetMessage::SchemaCatalogResponse { message_id, schemas } => first_of(
                field_violation(message_id@, "messageId"@),
                schemas_violation(schemas@),
            ),
        }
    }

    pub fn validate_message(&self) -> (outcome: Result<(), CultNetError>)
        ensures
            reports(outcome, self.refusal()),
    {
        reveal(CultNetMessage::refusal);
        match self {
            CultNetMessage::Hello {
                runtime_id,
                runtime_kind,
                agent_id,
                role,
                display_name,
                supported_document_types,
                supported_message_versions,
                supports_schema_catalog: _,
            } => {
                require_non_empty(runtime_id, "runtimeId")?;
                require_non_empty(runtime_kind, "runtimeKind")?;
                require_optional_non_empty(agent_id, "agentId")?;
                require_optional_non_empty(role, "role")?;
                require_optional_non_empty(display_name, "displayName")?;
                require_optional_string_vec(supported_document_types, "supportedDocumentTypes")?;
                require_optional_string_vec(supported_message_versions, "supportedMessageVersions")
            },
            CultNetMessage::Login { nonce, auth, password } => {
                require_non_empty(nonce, "nonce")?;
                require_non_empty(auth, "auth")?;
                require_non_empty(password, "password")
            },
            CultNetMessage::Register { nonce, email, password, name } => {
                require_non_empty(nonce, "nonce")?;
                require_non_empty(email, "email")?;
                require_non_empty(password, "password")?;
                require_non_empty(name, "name")
            },
            CultNetMessage::Verify { nonce, session } => {
                require_non_empty(nonce, "nonce")?;
                require_non_empty(session, "session")
            },
            CultNetMessage::LoginSuccess { nonce, session } => {
                require_non_empty(nonce, "nonce")?;
                require_non_empty(session, "session")
            },
            CultNetMessage::Error { error } => require_non_empty(error, "error"),
            CultNetMessage::SampleChangeName { name } => require_non_empty(name, "name"),
            CultNetMessage::SampleChat { text } => require_non_empty(text, "text"),
            CultNetMessage::DocumentPut { message_id, document } => {
                require_non_empty(message_id, "messageId")?;
                document.validate_document_record()
            },
            CultNetMessage::DocumentPutRaw { message_id, document } => {
                require_non_empty(message_id, "messageId")?;
                document.validate_document_record()
            },
            CultNetMessage::DocumentDelete { message_id, schema_id, record_key } => {
                require_non_empty(message_id, "messageId")?;
                require_non_empty(schema_id, "schemaId")?;
                require_non_empty(record_key, "recordKey")
            },
            CultNetMessage::SnapshotRequest { message_id, schema_ids, record_keys } => {
                require_non_empty(message_id, "messageId")?;
                require_optional_string_vec(schema_ids, "schemaIds")?;
                require_optional_string_vec(record_keys, "recordKeys")
            },
            CultNetMessage::SnapshotResponse { message_id, documents } => {
                require_non_empty(message_id, "messageId")?;
                check_documents(documents)
            },
            CultNetMessage::SnapshotResponseRaw { message_id, documents } => {
                require_non_empty(message_id, "messageId")?;
                check_raw_documents(documents)
            },
            CultNetMessage::SchemaCatalogRequest {
                message_id,
                include_schema_json: _,
                schema_ids,
                kinds: _,
            } => {
                require_non_empty(message_id, "messageId")?;
                require_optional_string_vec(schema_ids, "schemaIds")
            },
            CultNetMessage::SchemaCatalogResponse { message_id, schemas } => {
                require_non_empty(message_id, "messageId")?;
                check_schemas(schemas)
            },
        }
    }
}

}

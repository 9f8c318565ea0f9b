use cultnet::json::encode_json;
use cultnet::{
    CultCacheEnvelope, CultNetDocumentBinding, CultNetDocumentMutationContract,
    CultNetDocumentPutOptions, CultNetDocumentRegistry, CultNetMessage, CultNetRawDocumentRecord,
    CultNetRawSnapshotSource, CultNetReadOnlySnapshotPolicy, CultNetSchemaCatalogOptions,
    CultNetSchemaKind, CultNetError, JsonValue, builtin_schema_registry,
    serve_read_only_raw_snapshot,
};

fn registry() -> CultNetDocumentRegistry {
    let mut registry = CultNetDocumentRegistry::default();
    registry
        .register(CultNetDocumentBinding::for_entry("note", Some("note.v1".into())))
        .register(
            CultNetDocumentBinding::for_entry_with_schema_id("task", "example/task", None)
                .with_mutation_contract(CultNetDocumentMutationContract {
                    schema_id: "example/task".into(),
                    contract_id: "task-owner".into(),
                    allowed_operations: vec!["put".into()],
                }),
        );
    registry
}

fn stored(key: &str, document_type: &str, payload: &JsonValue) -> CultCacheEnvelope {
    CultCacheEnvelope {
        key: key.into(),
        entry_type: document_type.into(),
        payload: encode_json(payload),
        stored_at: "2026-07-19T20:00:00Z".into(),
        schema_id: None,
    }
}

fn store() -> Vec<CultCacheEnvelope> {
    vec![
        stored("n1", "note", &JsonValue::Unsigned(1)),
        stored("t1", "task", &JsonValue::Text("do".into())),
        stored("n2", "note", &JsonValue::Unsigned(2)),
    ]
}

#[test]
fn bindings_are_found_by_type_and_by_schema() {
    let registry = registry();
    assert_eq!(registry.binding("note").unwrap().schema_id, "note");
    assert_eq!(registry.binding("task").unwrap().schema_id, "example/task");
    assert_eq!(
        registry.binding_by_schema_id("example/task"),
        registry.binding("task")
    );
    assert_eq!(registry.binding("example/task"), None);
    let contracts = registry.mutation_contracts();
    assert_eq!(contracts.len(), 1);
    assert_eq!(contracts[0].contract_id, "task-owner");
    assert_eq!(registry.clone().binding("task"), registry.binding("task"));
    // A later binding takes the place of an earlier one.
    let mut registry = registry.clone();
    registry.register(CultNetDocumentBinding::for_entry("note", None));
    assert_eq!(registry.binding("note").unwrap().payload_schema_version, None);
}

#[test]
fn snapshots_hold_what_is_asked_for() {
    let registry = registry();
    let keys = |schema_ids: Option<Vec<String>>, record_keys: Option<Vec<String>>| {
        let response = registry
            .create_raw_snapshot_response(&store(), "id", schema_ids.as_ref(), record_keys.as_ref())
            .unwrap();
        let CultNetMessage::SnapshotResponseRaw { documents, .. } = response else {
            panic!("expected a raw snapshot");
        };
        documents
            .into_iter()
            .map(|document| document.record_key)
            .collect::<Vec<String>>()
    };
    assert_eq!(keys(None, None), ["n1", "t1", "n2"]);
    assert_eq!(keys(Some(vec!["note".into()]), None), ["n1", "n2"]);
    assert_eq!(keys(Some(vec!["task".into()]), None), Vec::<String>::new());
    assert_eq!(keys(Some(vec!["example/task".into()]), None), ["t1"]);
    assert_eq!(keys(None, Some(vec!["n2".into(), "t1".into()])), ["t1", "n2"]);
    assert_eq!(
        keys(Some(vec!["note".into()]), Some(vec!["t1".into()])),
        Vec::<String>::new()
    );
}

#[test]
fn typed_snapshots_hold_decoded_payloads() {
    let registry = registry();
    let response = registry
        .create_snapshot_response(&store(), "id", None, Some(&vec!["t1".to_string()]))
        .unwrap();
    let CultNetMessage::SnapshotResponse { documents, message_id } = &response else {
        panic!("expected a snapshot");
    };
    assert_eq!(message_id, "id");
    assert_eq!(documents.len(), 1);
    assert_eq!(documents[0].schema_id, "example/task");
    assert_eq!(documents[0].payload, JsonValue::Text("do".into()));
    let writes = registry.apply_snapshot_response("task", &response).unwrap();
    assert_eq!(writes[0].payload, JsonValue::Text("do".into()));
    // Documents of other schemas are passed over.
    assert_eq!(registry.apply_snapshot_response("note", &response), Ok(vec![]));
}

#[test]
fn unknown_types_and_foreign_schemas_are_refused() {
    let registry = registry();
    assert_eq!(
        registry
            .create_document_put_message(
                "ghost",
                "id",
                "key",
                JsonValue::Null,
                CultNetDocumentPutOptions::default()
            )
            .err()
            .unwrap()
            .message(),
        "No CultNet document binding is registered for \"ghost\""
    );
    let put = registry
        .create_document_put_message(
            "task",
            "id",
            "key",
            JsonValue::Null,
            CultNetDocumentPutOptions::default(),
        )
        .unwrap();
    assert_eq!(
        registry.apply_document_put_message("note", &put).err().unwrap().message(),
        "schema id \"example/task\" does not match registered Rust type \"note\" schema \"note\""
    );
    let delete = registry.create_document_delete_message("id", "example/task", "key");
    assert_eq!(
        registry.apply_document_delete_message("task", &delete),
        Ok("key".to_string())
    );
    assert!(registry.apply_document_delete_message("note", &delete).is_err());
    assert_eq!(
        registry.apply_document_delete_message("task", &put).err().unwrap().message(),
        "expected cultnet.document_delete.v0"
    );
    assert_eq!(
        registry.apply_document_put_message("task", &delete).err().unwrap().message(),
        "expected cultnet.document_put.v0"
    );
}

#[test]
fn put_messages_carry_their_options() {
    let put = registry()
        .create_document_put_message(
            "note",
            "id",
            "key",
            JsonValue::Flag(true),
            CultNetDocumentPutOptions {
                stored_at: Some("2026-01-01T00:00:00Z".into()),
                source_runtime_id: Some("runtime".into()),
                source_agent_id: None,
                source_role: Some("role".into()),
                tags: Some(vec!["tag".into()]),
            },
        )
        .unwrap();
    let CultNetMessage::DocumentPut { message_id, document } = put else {
        panic!("expected a put message");
    };
    assert_eq!(message_id, "id");
    assert_eq!(document.schema_id, "note");
    assert_eq!(document.stored_at, "2026-01-01T00:00:00Z");
    assert_eq!(document.source_runtime_id.as_deref(), Some("runtime"));
    assert_eq!(document.source_agent_id, None);
    assert_eq!(document.tags, Some(vec!["tag".to_string()]));
}

#[test]
fn raw_documents_are_stored_as_they_were() {
    let registry = registry();
    let origin = stored("n1", "note", &JsonValue::Unsigned(1));
    let put = registry
        .create_raw_document_put_message_from_envelope("id", &origin)
        .unwrap();
    let copy = registry.apply_raw_document_put_message("note", &put).unwrap();
    assert_eq!(copy.key, origin.key);
    assert_eq!(copy.entry_type, origin.entry_type);
    assert_eq!(copy.payload, origin.payload);
    assert_eq!(copy.stored_at, origin.stored_at);
}

struct Failing;

impl CultNetRawSnapshotSource for Failing {
    fn raw_snapshot(&self) -> Result<Vec<CultNetRawDocumentRecord>, CultNetError> {
        Err(CultNetError::new("the disk is away"))
    }
}

#[test]
fn a_source_that_fails_is_reported() {
    let request = CultNetMessage::SnapshotRequest {
        message_id: "id".into(),
        schema_ids: None,
        record_keys: None,
    };
    let policy = CultNetReadOnlySnapshotPolicy::default();
    assert_eq!(
        serve_read_only_raw_snapshot(&registry(), &policy, &Failing, &request)
            .err()
            .unwrap()
            .message(),
        "the disk is away"
    );
    let empty = || -> Result<Vec<CultNetRawDocumentRecord>, CultNetError> { Ok(Vec::new()) };
    assert_eq!(
        serve_read_only_raw_snapshot(&registry(), &policy, &empty, &request),
        Ok(CultNetMessage::SnapshotResponseRaw {
            message_id: "id".into(),
            documents: vec![]
        })
    );
}

#[test]
fn the_builtin_catalog_is_sorted_and_filtered() {
    let registry = builtin_schema_registry().unwrap();
    let all = registry.list(&CultNetSchemaCatalogOptions::default());
    assert_eq!(all.len(), 19);
    assert!(all.iter().all(|schema| schema.schema_json.is_none()));
    let mut ids: Vec<&String> = all.iter().map(|schema| &schema.schema_id).collect();
    let given = ids.clone();
    ids.sort();
    assert_eq!(ids, given);
    let kinds = |kind: CultNetSchemaKind| {
        let mut options = CultNetSchemaCatalogOptions::default();
        options.kinds = Some(vec![kind]);
        registry.list(&options).len()
    };
    assert_eq!(
        kinds(CultNetSchemaKind::WireMessage)
            + kinds(CultNetSchemaKind::SharedContract)
            + kinds(CultNetSchemaKind::DocumentPayload),
        all.len()
    );
    assert_eq!(registry.clone().list(&CultNetSchemaCatalogOptions::default()), all);
    let one = registry.get(given[0], true).unwrap();
    assert!(one.schema_json.is_some());
    let mut bare = one.clone();
    bare.schema_json = None;
    assert_eq!(registry.get(given[0], false), Some(bare));
    assert_eq!(registry.get(&format!(" {}", given[0]), true), None);
    assert_eq!(one.content_hash.len(), 64);
    assert_eq!(registry.get("no such schema", true), None);
}

use cultnet::json::encode_json;
use cultnet::{
    CultNetDocumentRecord, CultNetMessage, CultNetRawDocumentRecord, CultNetRawPayloadEncoding,
    CultNetSchemaDescriptor, CultNetSchemaKind, CultNetWireContract, CultNetWireValue, JsonValue,
    WireValue, decode_cultnet_message_from_slice, encode_cultnet_message_for_wire,
    encode_cultnet_message_to_vec, encode_messagepack, parse_cultnet_message,
};

const SCHEMA: CultNetWireContract = CultNetWireContract::CultNetSchemaV0;
const LEGACY: CultNetWireContract = CultNetWireContract::GameCultNetworkingV0;

fn document() -> CultNetDocumentRecord {
    CultNetDocumentRecord {
        schema_id: "schema".into(),
        record_key: "key".into(),
        stored_at: "2026-07-19T20:00:00Z".into(),
        payload: JsonValue::Object(vec![
            ("a".into(), JsonValue::Unsigned(1)),
            ("b".into(), JsonValue::Array(vec![JsonValue::Null])),
        ]),
        source_runtime_id: None,
        source_agent_id: Some("agent".into()),
        source_role: None,
        tags: Some(vec!["tag".into()]),
    }
}

fn raw_document() -> CultNetRawDocumentRecord {
    CultNetRawDocumentRecord {
        schema_id: "schema".into(),
        record_key: "key".into(),
        stored_at: "2026-07-19T20:00:00Z".into(),
        payload_encoding: CultNetRawPayloadEncoding::Messagepack,
        payload: vec![0x93, 0, 255],
        source_runtime_id: Some("runtime".into()),
        source_agent_id: None,
        source_role: Some("role".into()),
        tags: None,
    }
}

fn descriptor() -> CultNetSchemaDescriptor {
    CultNetSchemaDescriptor {
        schema_id: "schema".into(),
        kind: CultNetSchemaKind::DocumentPayload,
        schema_version: Some("v1".into()),
        document_type: None,
        title: Some("Title".into()),
        wire_contracts: vec![SCHEMA, LEGACY],
        content_hash: "hash".into(),
        schema_json: None,
    }
}

/// The messages that both contracts define.
fn shared_messages() -> Vec<CultNetMessage> {
    vec![
        CultNetMessage::Login {
            nonce: "AA".into(),
            auth: "AAE".into(),
            password: "AAEC".into(),
        },
        CultNetMessage::Register {
            nonce: "AA".into(),
            email: "AQ".into(),
            password: "Ag".into(),
            name: "Aw".into(),
        },
        CultNetMessage::Verify {
            nonce: "AA".into(),
            session: "AQ".into(),
        },
        CultNetMessage::LoginSuccess {
            nonce: "AA".into(),
            session: "AQ".into(),
        },
        CultNetMessage::Error {
            error: "error".into(),
        },
        CultNetMessage::SampleChangeName {
            name: "name".into(),
        },
        CultNetMessage::SampleChat {
            text: "text".into(),
        },
        CultNetMessage::SchemaCatalogRequest {
            message_id: "id".into(),
            include_schema_json: Some(false),
            schema_ids: Some(vec!["schema".into()]),
            kinds: Some(vec![CultNetSchemaKind::WireMessage]),
        },
        CultNetMessage::SchemaCatalogRequest {
            message_id: "id".into(),
            include_schema_json: None,
            schema_ids: None,
            kinds: None,
        },
        CultNetMessage::SchemaCatalogResponse {
            message_id: "id".into(),
            schemas: vec![descriptor()],
        },
    ]
}

/// The messages that only the schema contract defines.
fn schema_messages() -> Vec<CultNetMessage> {
    vec![
        CultNetMessage::Hello {
            runtime_id: "runtime".into(),
            runtime_kind: "kind".into(),
            agent_id: None,
            role: Some("role".into()),
            display_name: None,
            supported_document_types: None,
            supported_message_versions: Some(vec!["v0".into()]),
            supports_schema_catalog: Some(false),
        },
        CultNetMessage::DocumentPut {
            message_id: "id".into(),
            document: document(),
        },
        CultNetMessage::DocumentPutRaw {
            message_id: "id".into(),
            document: raw_document(),
        },
        CultNetMessage::DocumentDelete {
            message_id: "id".into(),
            schema_id: "schema".into(),
            record_key: "key".into(),
        },
        CultNetMessage::SnapshotRequest {
            message_id: "id".into(),
            schema_ids: Some(vec![]),
            record_keys: None,
        },
        CultNetMessage::SnapshotResponse {
            message_id: "id".into(),
            documents: vec![document(), document()],
        },
        CultNetMessage::SnapshotResponseRaw {
            message_id: "id".into(),
            documents: vec![raw_document()],
        },
    ]
}

#[test]
fn every_message_is_read_back_under_every_contract_that_defines_it() {
    for message in shared_messages().into_iter().chain(schema_messages()) {
        let bytes = encode_cultnet_message_to_vec(&message, SCHEMA).unwrap();
        assert_eq!(
            decode_cultnet_message_from_slice(&bytes, SCHEMA),
            Ok(message.clone())
        );
        let value = encode_cultnet_message_for_wire(&message, SCHEMA).unwrap();
        assert_eq!(parse_cultnet_message(&value, SCHEMA), Ok(message));
    }
    for message in shared_messages() {
        let bytes = encode_cultnet_message_to_vec(&message, LEGACY).unwrap();
        assert_eq!(
            decode_cultnet_message_from_slice(&bytes, LEGACY),
            Ok(message.clone())
        );
        let value = encode_cultnet_message_for_wire(&message, LEGACY).unwrap();
        assert_eq!(parse_cultnet_message(&value, LEGACY), Ok(message));
    }
    for message in schema_messages() {
        assert_eq!(
            encode_cultnet_message_for_wire(&message, LEGACY).err().unwrap().message(),
            "Message is not defined in the gamecult.networking.v0 contract"
        );
    }
}

#[test]
fn the_schema_form_leaves_absent_fields_out() {
    let message = CultNetMessage::SnapshotRequest {
        message_id: "id".into(),
        schema_ids: None,
        record_keys: Some(vec!["key".into()]),
    };
    let value = encode_cultnet_message_for_wire(&message, SCHEMA).unwrap();
    assert_eq!(
        value,
        CultNetWireValue::Schema(JsonValue::Object(vec![
            ("messageId".into(), JsonValue::Text("id".into())),
            (
                "recordKeys".into(),
                JsonValue::Array(vec![JsonValue::Text("key".into())])
            ),
            (
                "schemaVersion".into(),
                JsonValue::Text("cultnet.snapshot_request.v0".into())
            ),
        ]))
    );
}

#[test]
fn the_legacy_form_is_a_tag_and_an_array_of_fields() {
    let message = CultNetMessage::Verify {
        nonce: "AAE".into(),
        session: "Ag".into(),
    };
    assert_eq!(
        encode_cultnet_message_to_vec(&message, LEGACY).unwrap(),
        [0x92, 2, 0x92, 0xc4, 2, 0, 1, 0xc4, 1, 2]
    );
}

#[test]
fn credentials_that_are_not_base64url_have_no_legacy_form() {
    let message = CultNetMessage::Verify {
        nonce: "AAE".into(),
        session: "not base64url".into(),
    };
    assert!(encode_cultnet_message_for_wire(&message, SCHEMA).is_ok());
    assert!(encode_cultnet_message_for_wire(&message, LEGACY).is_err());
}

fn legacy_reason(tree: WireValue) -> String {
    decode_cultnet_message_from_slice(&encode_messagepack(&tree), LEGACY)
        .err()
        .unwrap()
        .message()
        .to_string()
}

#[test]
fn malformed_legacy_values_are_refused() {
    let pair = |tag: WireValue, fields: WireValue| WireValue::Sequence(vec![tag, fields]);
    let fields = |items: Vec<WireValue>| WireValue::Sequence(items);
    assert_eq!(
        legacy_reason(WireValue::Nil),
        "gamecult.networking.v0 messages must be a 2-element union array"
    );
    assert_eq!(
        legacy_reason(WireValue::Sequence(vec![WireValue::Unsigned(0)])),
        "gamecult.networking.v0 messages must be a 2-element union array"
    );
    assert_eq!(
        legacy_reason(pair(WireValue::Text("0".into()), fields(vec![]))),
        "gamecult.networking.v0 message tag must be an integer"
    );
    assert_eq!(
        legacy_reason(pair(WireValue::Unsigned(0), WireValue::Nil)),
        "gamecult.networking.v0 message payload must be an array"
    );
    assert_eq!(
        legacy_reason(pair(WireValue::Unsigned(9), fields(vec![]))),
        "Unsupported gamecult.networking.v0 union tag 9"
    );
    assert_eq!(
        legacy_reason(pair(WireValue::Negative(-1), fields(vec![]))),
        "Unsupported gamecult.networking.v0 union tag -1"
    );
    assert_eq!(
        legacy_reason(pair(
            WireValue::Unsigned(0),
            fields(vec![WireValue::Binary(vec![1]), WireValue::Unsigned(2)])
        )),
        "LoginMessage.Auth must be binary data in gamecult.networking.v0"
    );
    // A text is taken for its bytes, and what follows the fields is not looked at.
    let chat = pair(
        WireValue::Unsigned(6),
        fields(vec![WireValue::Text("text".into()), WireValue::Nil]),
    );
    assert_eq!(
        decode_cultnet_message_from_slice(&encode_messagepack(&chat), LEGACY),
        Ok(CultNetMessage::SampleChat {
            text: "text".into()
        })
    );
}

#[test]
fn malformed_schema_values_are_refused() {
    let refused = |json: JsonValue| decode_cultnet_message_from_slice(&encode_json(&json), SCHEMA);
    let object = |members: Vec<(&str, JsonValue)>| {
        JsonValue::Object(
            members
                .into_iter()
                .map(|(name, value)| (name.to_string(), value))
                .collect(),
        )
    };
    let tag = |name: &str| JsonValue::Text(name.to_string());
    assert!(refused(JsonValue::Null).is_err());
    assert!(refused(object(vec![("error", tag("x"))])).is_err());
    assert!(refused(object(vec![("schemaVersion", tag("cultnet.unknown.v0"))])).is_err());
    assert!(refused(object(vec![("schemaVersion", tag("cultnet.error.v0"))])).is_err());
    assert!(
        refused(object(vec![
            ("error", JsonValue::Unsigned(1)),
            ("schemaVersion", tag("cultnet.error.v0")),
        ]))
        .is_err()
    );
    assert!(decode_cultnet_message_from_slice(&[0xc1], SCHEMA).is_err());
    // Members that no message has are passed over.
    assert_eq!(
        refused(object(vec![
            ("error", tag("x")),
            ("more", JsonValue::Unsigned(1)),
            ("schemaVersion", tag("cultnet.error.v0")),
        ])),
        Ok(CultNetMessage::Error { error: "x".into() })
    );
}

#[test]
fn blank_fields_are_refused_in_both_directions() {
    let reason = |message: &CultNetMessage| {
        encode_cultnet_message_to_vec(message, SCHEMA)
            .err()
            .unwrap()
            .message()
            .to_string()
    };
    assert_eq!(
        reason(&CultNetMessage::Error { error: " ".into() }),
        "CultNet field error must be non-empty"
    );
    let mut unkeyed = document();
    unkeyed.record_key = String::new();
    assert_eq!(
        reason(&CultNetMessage::DocumentPut {
            message_id: "id".into(),
            document: unkeyed
        }),
        "CultNet field recordKey must be non-empty"
    );
    let mut unsorted = document();
    unsorted.payload = JsonValue::Object(vec![
        ("b".into(), JsonValue::Null),
        ("a".into(), JsonValue::Null),
    ]);
    assert!(
        encode_cultnet_message_to_vec(
            &CultNetMessage::DocumentPut {
                message_id: "id".into(),
                document: unsorted
            },
            SCHEMA
        )
        .is_err()
    );
    let blank = JsonValue::Object(vec![
        ("error".into(), JsonValue::Text("".into())),
        (
            "schemaVersion".into(),
            JsonValue::Text("cultnet.error.v0".into()),
        ),
    ]);
    assert_eq!(
        decode_cultnet_message_from_slice(&encode_json(&blank), SCHEMA)
            .err()
            .unwrap()
            .message(),
        "CultNet field error must be non-empty"
    );
}

#[test]
fn bytes_of_one_contract_are_refused_under_the_other() {
    for message in shared_messages().into_iter().chain(schema_messages()) {
        let bytes = encode_cultnet_message_to_vec(&message, SCHEMA).unwrap();
        assert!((0x80..=0x8f).contains(&bytes[0]));
        assert!(decode_cultnet_message_from_slice(&bytes, LEGACY).is_err());
    }
    for message in shared_messages() {
        let bytes = encode_cultnet_message_to_vec(&message, LEGACY).unwrap();
        assert_eq!(bytes[0], 0x92);
        assert!(decode_cultnet_message_from_slice(&bytes, SCHEMA).is_err());
    }
}

#[test]
fn messages_and_records_are_read_by_position_too() {
    let text = |content: &str| JsonValue::Text(content.to_string());
    let read = |items: Vec<JsonValue>| {
        decode_cultnet_message_from_slice(&encode_json(&JsonValue::Array(items)), SCHEMA)
    };
    assert_eq!(
        read(vec![text("cultnet.verify.v0"), text("nonce"), text("session")]),
        Ok(CultNetMessage::Verify {
            nonce: "nonce".into(),
            session: "session".into()
        })
    );
    // Optional fields may be missing at the end, or null.
    assert_eq!(
        read(vec![
            text("cultnet.snapshot_request.v0"),
            text("id"),
            JsonValue::Null,
        ]),
        Ok(CultNetMessage::SnapshotRequest {
            message_id: "id".into(),
            schema_ids: None,
            record_keys: None
        })
    );
    assert!(read(vec![text("cultnet.verify.v0"), text("nonce")]).is_err());
    assert!(
        read(vec![
            text("cultnet.verify.v0"),
            text("nonce"),
            text("session"),
            JsonValue::Null,
        ])
        .is_err()
    );
    assert!(read(vec![JsonValue::Unsigned(3), text("nonce"), text("session")]).is_err());
    assert!(read(vec![]).is_err());

    let positional = JsonValue::Array(vec![
        text("schema"),
        text("key"),
        text("2026-07-19T20:00:00Z"),
        document().payload,
        JsonValue::Null,
        text("agent"),
        JsonValue::Null,
        JsonValue::Array(vec![text("tag")]),
    ]);
    let put = Ok(CultNetMessage::DocumentPut {
        message_id: "id".into(),
        document: document(),
    });
    assert_eq!(
        read(vec![
            text("cultnet.document_put.v0"),
            text("id"),
            positional.clone(),
        ]),
        put
    );
    let object = JsonValue::Object(vec![
        ("document".into(), positional),
        ("messageId".into(), text("id")),
        ("schemaVersion".into(), text("cultnet.document_put.v0")),
    ]);
    assert_eq!(
        decode_cultnet_message_from_slice(&encode_json(&object), SCHEMA),
        put
    );
}

use cultnet::json::{decode_json, encode_json};
use cultnet::{
    CultCacheEnvelope, CultNetClientSecurityOptions, CultNetDocumentBinding,
    CultNetDocumentPutOptions, CultNetDocumentRegistry, CultNetError, CultNetMessage,
    CultNetSchemaKind, CultNetSchemaRegistration, CultNetSchemaRegistry, CultNetSecret,
    CultNetServerSecurityOptions, CultNetWireContract, CultNetWireValue, JsonValue,
    LengthPrefixedMessageFramer, builtin_schema_registry, decode_cultnet_message_from_slice,
    encode_cultnet_message_for_wire, encode_cultnet_message_to_vec, encode_frame,
    encode_messagepack,
};

type Result<T> = std::result::Result<T, CultNetError>;

const AGENT_STATE_TYPE: &str = "ghostlight.agent-state";

#[derive(Clone, Debug, PartialEq)]
struct GhostlightAgentStateFixture {
    schema_version: String,
    agent_id: String,
    display_name: String,
}

impl GhostlightAgentStateFixture {
    fn to_json(&self) -> JsonValue {
        JsonValue::Array(vec![
            JsonValue::Text(self.schema_version.clone()),
            JsonValue::Text(self.agent_id.clone()),
            JsonValue::Text(self.display_name.clone()),
        ])
    }

    fn from_json(payload: &JsonValue) -> Self {
        let JsonValue::Array(fields) = payload else {
            panic!("an agent state is an array of fields");
        };
        let text = |position: usize| match &fields[position] {
            JsonValue::Text(text) => text.clone(),
            other => panic!("field {position} is {other:?}"),
        };
        Self {
            schema_version: text(0),
            agent_id: text(1),
            display_name: text(2),
        }
    }

    fn stored(&self, key: &str) -> CultCacheEnvelope {
        CultCacheEnvelope {
            key: key.to_string(),
            entry_type: AGENT_STATE_TYPE.to_string(),
            payload: encode_json(&self.to_json()),
            stored_at: "2026-07-19T20:00:00Z".to_string(),
            schema_id: None,
        }
    }
}

fn agent_state() -> GhostlightAgentStateFixture {
    GhostlightAgentStateFixture {
        schema_version: "ghostlight.agent_state.v0".to_string(),
        agent_id: "epiphany.face".to_string(),
        display_name: "Face".to_string(),
    }
}

fn agent_state_registry() -> CultNetDocumentRegistry {
    let mut registry = CultNetDocumentRegistry::new();
    registry.register(CultNetDocumentBinding::for_entry(
        AGENT_STATE_TYPE,
        Some("ghostlight.agent_state.v0".to_string()),
    ));
    registry
}

/// A short MessagePack string.
fn short_text(text: &str) -> Vec<u8> {
    let mut bytes = vec![0xa0 + text.len() as u8];
    bytes.extend_from_slice(text.as_bytes());
    bytes
}

/// A short MessagePack byte string.
fn short_binary(content: &[u8]) -> Vec<u8> {
    let mut bytes = vec![0xc4, content.len() as u8];
    bytes.extend_from_slice(content);
    bytes
}

fn framed(payload: &[u8]) -> Vec<u8> {
    let mut frame = (payload.len() as u32).to_be_bytes().to_vec();
    frame.extend_from_slice(payload);
    frame
}

#[test]
fn security_helpers_round_trip_encrypted_strings_and_validate_sessions() -> Result<()> {
    let server_security = CultNetServerSecurityOptions::development();
    let client_security = server_security.to_client_options();
    let nonce = CultNetSecret::new_nonce();
    let encrypted = CultNetSecret::encrypt_string(Some("hello"), &nonce, &client_security)?
        .expect("non-empty input encrypts");
    assert_eq!(
        CultNetSecret::decrypt_string(Some(&encrypted), Some(&nonce), &server_security)?,
        Some("hello".to_string())
    );

    let token = CultNetSecret::create_session_token(
        "runtime-face",
        chrono::Utc::now().timestamp() + 60,
        &server_security,
    )?;
    let validated = CultNetSecret::try_validate_session_token(Some(&token), &server_security)?
        .expect("token validates before expiry");
    assert_eq!(validated.user_id, "runtime-face");
    Ok(())
}

#[test]
fn cultnet_schema_messages_round_trip_through_messagepack_frames() -> Result<()> {
    let message = CultNetMessage::Hello {
        runtime_id: "voidbot-main".to_string(),
        runtime_kind: "rust-worker".to_string(),
        agent_id: Some("void".to_string()),
        role: None,
        display_name: Some("Void".to_string()),
        supported_document_types: Some(vec!["ghostlight.agent-state".to_string()]),
        supported_message_versions: None,
        supports_schema_catalog: Some(true),
    };
    let payload = encode_cultnet_message_to_vec(&message, CultNetWireContract::CultNetSchemaV0)?;
    let frame = encode_frame(&payload)?;
    assert_eq!(&frame[..4], &(payload.len() as u32).to_be_bytes());

    let mut framer = LengthPrefixedMessageFramer::new();
    assert!(framer.push(&frame[..2]).is_empty());
    let frames = framer.push(&frame[2..]);
    assert_eq!(frames.len(), 1);
    let decoded =
        decode_cultnet_message_from_slice(&frames[0], CultNetWireContract::CultNetSchemaV0)?;
    assert_eq!(decoded, message);
    Ok(())
}

#[test]
fn legacy_gamecult_networking_contract_round_trips_login_union() -> Result<()> {
    let message = CultNetMessage::Login {
        nonce: CultNetSecret::to_base64_url(b"nonce"),
        auth: CultNetSecret::to_base64_url(b"auth"),
        password: CultNetSecret::to_base64_url(b"password"),
    };
    let wire =
        encode_cultnet_message_for_wire(&message, CultNetWireContract::GameCultNetworkingV0)?;
    let items = wire.as_array().expect("legacy union is an array");
    assert_eq!(items[0].as_i64(), Some(0));
    assert_eq!(
        items[1].as_array().unwrap()[0].as_slice(),
        Some(&b"nonce"[..])
    );

    let CultNetWireValue::Legacy(tree) = &wire else {
        panic!("expected a legacy value");
    };
    let bytes = encode_messagepack(tree);
    let decoded =
        decode_cultnet_message_from_slice(&bytes, CultNetWireContract::GameCultNetworkingV0)?;
    assert_eq!(decoded, message);
    Ok(())
}

#[test]
fn rust_decodes_typescript_generated_cultnet_frames() -> Result<()> {
    let mut hello_payload = vec![0x86];
    for (name, value) in [
        ("schemaVersion", "cultnet.hello.v0"),
        ("runtimeId", "voidbot-main"),
        ("runtimeKind", "node-worker"),
        ("agentId", "void"),
        ("displayName", "Void"),
    ] {
        hello_payload.extend(short_text(name));
        hello_payload.extend(short_text(value));
    }
    hello_payload.extend(short_text("supportedDocumentTypes"));
    hello_payload.push(0x91);
    hello_payload.extend(short_text("ghostlight.agent-state"));

    let mut framer = LengthPrefixedMessageFramer::new();
    let hello_frames = framer.push(&framed(&hello_payload));
    assert_eq!(hello_frames.len(), 1);
    let hello =
        decode_cultnet_message_from_slice(&hello_frames[0], CultNetWireContract::CultNetSchemaV0)?;
    assert_eq!(
        hello,
        CultNetMessage::Hello {
            runtime_id: "voidbot-main".to_string(),
            runtime_kind: "node-worker".to_string(),
            agent_id: Some("void".to_string()),
            role: None,
            display_name: Some("Void".to_string()),
            supported_document_types: Some(vec!["ghostlight.agent-state".to_string()]),
            supported_message_versions: None,
            supports_schema_catalog: None,
        }
    );

    let mut login_payload = vec![0x92, 0x00, 0x93];
    login_payload.extend(short_binary(b"nonce"));
    login_payload.extend(short_binary(b"auth"));
    login_payload.extend(short_binary(b"password"));
    let mut framer = LengthPrefixedMessageFramer::new();
    let login_frames = framer.push(&framed(&login_payload));
    assert_eq!(login_frames.len(), 1);
    let login = decode_cultnet_message_from_slice(
        &login_frames[0],
        CultNetWireContract::GameCultNetworkingV0,
    )?;
    assert_eq!(
        login,
        CultNetMessage::Login {
            nonce: "bm9uY2U".to_string(),
            auth: "YXV0aA".to_string(),
            password: "cGFzc3dvcmQ".to_string(),
        }
    );
    Ok(())
}

#[test]
fn document_registry_replicates_typed_cultcache_state() -> Result<()> {
    let payload = agent_state();
    let registry = agent_state_registry();
    let origin = vec![payload.stored("epiphany.face")];

    let snapshot = registry.create_snapshot_response(&origin, "snapshot-1", None, None)?;

    let writes = registry.apply_snapshot_response(AGENT_STATE_TYPE, &snapshot)?;
    let applied: Vec<GhostlightAgentStateFixture> = writes
        .iter()
        .map(|write| GhostlightAgentStateFixture::from_json(&write.payload))
        .collect();
    assert_eq!(applied, vec![payload.clone()]);
    assert_eq!(writes[0].record_key, "epiphany.face");

    let direct_put = registry.create_document_put_message(
        AGENT_STATE_TYPE,
        "put-1",
        "epiphany.face",
        GhostlightAgentStateFixture {
            display_name: "Face Prime".to_string(),
            ..payload
        }
        .to_json(),
        CultNetDocumentPutOptions::default(),
    )?;
    let updated = registry.apply_document_put_message(AGENT_STATE_TYPE, &direct_put)?;
    assert_eq!(
        GhostlightAgentStateFixture::from_json(&updated.payload).display_name,
        "Face Prime"
    );
    Ok(())
}

#[test]
fn raw_snapshot_replication_preserves_messagepack_payload_bytes() -> Result<()> {
    let payload = agent_state();
    let registry = agent_state_registry();
    let origin = vec![payload.stored("epiphany.face")];

    let raw_snapshot =
        registry.create_raw_snapshot_response(&origin, "raw-snapshot-1", None, None)?;
    let target = registry.apply_raw_snapshot_response(AGENT_STATE_TYPE, &raw_snapshot)?;

    let applied: Vec<GhostlightAgentStateFixture> = target
        .iter()
        .map(|envelope| {
            GhostlightAgentStateFixture::from_json(&decode_json(&envelope.payload).unwrap())
        })
        .collect();
    assert_eq!(applied, vec![payload]);
    assert_eq!(target[0].key, "epiphany.face");
    assert_eq!(target[0].payload, origin[0].payload);
    Ok(())
}

#[test]
fn client_security_keeps_the_connection_key_visible_without_exposing_cipher_logic() -> Result<()> {
    let options = CultNetClientSecurityOptions::development();
    assert_eq!(options.connection_key, "gamecult-dev-connection-key");
    assert_ne!(options.encryption_key(), [0_u8; 32]);
    Ok(())
}

#[test]
fn builtin_schema_registry_advertises_canonical_ghostlight_schema_without_inline_body_by_default()
-> Result<()> {
    let registry = builtin_schema_registry()?;
    let response = registry.create_catalog_response(&CultNetMessage::SchemaCatalogRequest {
        message_id: "catalog-1".to_string(),
        include_schema_json: None,
        schema_ids: None,
        kinds: None,
    })?;

    let CultNetMessage::SchemaCatalogResponse { schemas, .. } = response else {
        panic!("expected catalog response");
    };

    let ghostlight = schemas
        .iter()
        .find(|schema| schema.document_type.as_deref() == Some("ghostlight.agent-state"))
        .expect("ghostlight agent-state schema is advertised");

    assert_eq!(ghostlight.kind, CultNetSchemaKind::DocumentPayload);
    assert_eq!(
        ghostlight.schema_version.as_deref(),
        Some("ghostlight.agent_state.v0")
    );
    assert_eq!(ghostlight.schema_json, None);
    assert!(!ghostlight.content_hash.is_empty());
    Ok(())
}

#[test]
fn schema_discovery_round_trips_over_legacy_gamecult_contract_when_inline_schemas_are_requested()
-> Result<()> {
    let registry = {
        let mut registry = CultNetSchemaRegistry::new();
        registry.register(CultNetSchemaRegistration {
            schema_id: "https://example.test/contracts/example.schema.json".to_string(),
            kind: CultNetSchemaKind::SharedContract,
            wire_contracts: vec![
                CultNetWireContract::CultNetSchemaV0,
                CultNetWireContract::GameCultNetworkingV0,
            ],
            schema_version: None,
            document_type: None,
            title: Some("Example Schema".to_string()),
            schema_json: Some(
                r#"{
                    "$schema":"https://json-schema.org/draft/2020-12/schema",
                    "$id":"https://example.test/contracts/example.schema.json",
                    "title":"Example Schema",
                    "type":"object",
                    "properties":{"value":{"type":"string"}},
                    "required":["value"],
                    "additionalProperties":false
                }"#
                .to_string(),
            ),
        })?;
        registry
    };

    let response = registry.create_catalog_response(&CultNetMessage::SchemaCatalogRequest {
        message_id: "catalog-legacy".to_string(),
        include_schema_json: Some(true),
        schema_ids: None,
        kinds: None,
    })?;
    let wire =
        encode_cultnet_message_for_wire(&response, CultNetWireContract::GameCultNetworkingV0)?;
    let CultNetWireValue::Legacy(tree) = &wire else {
        panic!("expected a legacy value");
    };
    let bytes = encode_messagepack(tree);
    let decoded =
        decode_cultnet_message_from_slice(&bytes, CultNetWireContract::GameCultNetworkingV0)?;

    let CultNetMessage::SchemaCatalogResponse {
        message_id,
        schemas,
    } = decoded
    else {
        panic!("expected legacy schema catalog response");
    };

    assert_eq!(message_id, "catalog-legacy");
    assert_eq!(
        schemas[0].schema_id,
        "https://example.test/contracts/example.schema.json"
    );
    assert!(
        schemas[0]
            .schema_json
            .as_deref()
            .is_some_and(|schema| schema.contains("\"value\""))
    );
    Ok(())
}

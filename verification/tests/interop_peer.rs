use cultnet::interop_peer::{
    CultNetDialProgress, CultNetDialStep, CultNetInteropNote, CultNetInteropPeer,
    CultNetInteropState, INTEROP_DOCUMENT_TYPE, INTEROP_SCHEMA_VERSION, build_note, find_note,
    parse_args, read_note, require_arg,
};
use cultnet::{
    CultCacheEnvelope, CultNetDocumentBinding, CultNetDocumentRegistry, CultNetMessage,
    builtin_schema_registry,
};

fn peer(runtime_id: &str) -> CultNetInteropPeer {
    CultNetInteropPeer {
        runtime_id: runtime_id.into(),
        runtime_kind: "rust".into(),
        display_name: "Peer".into(),
        agent_id: "agent".into(),
    }
}

fn documents() -> CultNetDocumentRegistry {
    let mut documents = CultNetDocumentRegistry::new();
    documents.register(CultNetDocumentBinding::for_entry(
        INTEROP_DOCUMENT_TYPE,
        Some(INTEROP_SCHEMA_VERSION.to_string()),
    ));
    documents
}

fn stored(note: &CultNetInteropNote) -> CultCacheEnvelope {
    CultCacheEnvelope {
        key: note.document_id.clone(),
        entry_type: INTEROP_DOCUMENT_TYPE.into(),
        payload: note.payload(),
        stored_at: "2026-07-19T20:00:00Z".into(),
        schema_id: None,
    }
}

fn state(runtime_id: &str) -> CultNetInteropState {
    CultNetInteropState {
        stored: vec![stored(&build_note(runtime_id, "Peer"))],
        documents: documents(),
        schemas: builtin_schema_registry().unwrap(),
    }
}

#[test]
fn a_note_names_its_author_and_is_read_back() {
    let note = build_note("odin", "Odin");
    assert_eq!(note.document_id, "note:odin");
    assert_eq!(note.title, "Odin keeps a little note");
    assert_eq!(
        note.body,
        "odin can move CultNet state without begging the gods for translation."
    );
    assert_eq!(note.tags, ["odin", "interop", "cultnet"]);
    assert_eq!(read_note(&note.payload()), Ok(note));
    assert_eq!(
        read_note(&[0x90]).err().unwrap().message(),
        "interop note is malformed MessagePack"
    );
}

#[test]
fn a_dial_between_two_peers_ends_with_the_note() {
    let (local, remote) = (peer("local"), peer("remote"));
    let state = state("remote");
    let mut request = local.hello();
    let mut step = CultNetDialStep::Hello;
    for _ in 0..2 {
        let reply = remote.answer(&state, &request).unwrap().unwrap();
        let progress = local.proceed(&documents(), "no such schema", step, &reply).unwrap();
        let CultNetDialProgress::Request { request: next, step: waiting } = progress else {
            panic!("expected a further request");
        };
        (request, step) = (next, waiting);
    }
    let reply = remote.answer(&state, &request).unwrap().unwrap();
    let CultNetMessage::SnapshotResponseRaw { documents: sent, .. } = &reply else {
        panic!("expected a raw snapshot");
    };
    assert_eq!(sent[0].source_runtime_id.as_deref(), Some("remote"));
    assert_eq!(sent[0].source_role.as_deref(), Some("peer"));
    assert_eq!(
        local.proceed(&documents(), "no such schema", step, &reply),
        Ok(CultNetDialProgress::Done {
            remote_runtime_id: "remote".into(),
            has_interop_schema: false,
            stored: state.stored,
            note: build_note("remote", "Peer"),
        })
    );
}

#[test]
fn replies_out_of_turn_are_refused() {
    let local = peer("local");
    let chat = CultNetMessage::SampleChat { text: "hello".into() };
    let refusal = |step: CultNetDialStep| {
        local
            .proceed(&documents(), "schema", step, &chat)
            .err()
            .unwrap()
            .message()
            .to_string()
    };
    assert_eq!(refusal(CultNetDialStep::Hello), "expected hello response");
    assert_eq!(
        refusal(CultNetDialStep::Catalog { remote_runtime_id: "remote".into() }),
        "expected catalog response"
    );
    assert_eq!(
        refusal(CultNetDialStep::Snapshot {
            remote_runtime_id: "remote".into(),
            has_interop_schema: true
        }),
        "expected cultnet.snapshot_response_raw.v0"
    );
    assert_eq!(local.answer(&state("local"), &chat), Ok(None));
}

#[test]
fn the_note_of_the_remote_peer_is_wanted() {
    let notes = vec![
        stored(&build_note("a", "first")),
        stored(&build_note("b", "first")),
        stored(&build_note("b", "second")),
    ];
    assert_eq!(find_note(&notes, "b"), Ok(build_note("b", "first")));
    assert_eq!(
        find_note(&notes, "c").err().unwrap().message(),
        "did not receive an interop note from c"
    );
    let mut spoiled = notes;
    spoiled[2].payload = vec![];
    assert!(find_note(&spoiled, "a").is_err());
}

#[test]
fn options_are_pairs_of_a_name_and_a_value() {
    let arguments = |texts: &[&str]| texts.iter().map(|text| text.to_string()).collect::<Vec<_>>();
    let options = parse_args(&arguments(&[
        "stray", "--port", "1", "-x", "----host", "--odd", "--port", "2", "",
    ]))
    .unwrap();
    assert_eq!(options.len(), 2);
    assert_eq!(require_arg(&options, "port").unwrap(), "2");
    assert_eq!(require_arg(&options, "host").unwrap(), "--odd");
    assert_eq!(
        require_arg(&options, "x").err().unwrap().message(),
        "missing required argument --x"
    );
    assert_eq!(
        parse_args(&arguments(&["--port", "1", "--last"])).err().unwrap().message(),
        "missing value for --last"
    );
}

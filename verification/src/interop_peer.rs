//! An interop peer: the note that it keeps, what it answers to a message, the steps in
//! which it dials another peer, and the options that it is started with.
use vstd::prelude::*;
use crate::contracts::validation::opt_texts;
use crate::contracts::{CultNetMessage, CultNetRawDocumentRecord, CultNetSchemaDescriptor};
use crate::envelope::{envelopes, CultCacheEnvelope, Envelope};
use crate::error::{first_among, first_among_stays, first_of, refuse, reports, unless, CultNetError};
use crate::json::{member_of, with_member};
use crate::ordered_map::{mapped, mapping_keeps_members, OrderedMap};
use crate::record::{
    read_items, read_text, read_text_list, sequence_field, text_field, text_list, text_list_field,
    text_list_is_plain,
};
use crate::replication::CultNetDocumentRegistry;
use crate::schema_discovery::{catalog, descriptors, opt_kinds, CultNetSchemaRegistry};
use crate::text::{holds_text, joined, letters, opt, same_text, text_of, views};
use crate::wire::{
    decode_messagepack, encode_messagepack, messagepack_decoding, messagepack_encoding, plain,
    trees, Wire, WireValue,
};

verus! {

pub const INTEROP_DOCUMENT_TYPE: &'static str = "cultnet.interop-note";

pub const INTEROP_SCHEMA_VERSION: &'static str = "cultnet.interop_note.v0";

// ---------------------------------------------------------------------------
// The note
// ---------------------------------------------------------------------------

/// The one document that an interop peer keeps.
#[derive(Clone, Debug, PartialEq, Eq)]
pub struct CultNetInteropNote {
    pub schema_version: String,
    pub document_id: String,
    pub author_runtime_id: String,
    pub title: String,
    pub body: String,
    pub tags: Vec<String>,
}

impl CultNetInteropNote {
    /// The positional form.
    pub open spec fn wire(self) -> Wire {
        Wire::Sequence(
            seq![
                Wire::Text(self.schema_version@),
                Wire::Text(self.document_id@),
                Wire::Text(self.author_runtime_id@),
                Wire::Text(self.title@),
                Wire::Text(self.body@),
                text_list(views(self.tags@)),
            ],
        )
    }

    pub fn to_wire(&self) -> (field: WireValue)
        ensures
            field@ == self.wire(),
    {
        let field = sequence_field(
            vec![
                text_field(&self.schema_version),
                text_field(&self.document_id),
                text_field(&self.author_runtime_id),
                text_field(&self.title),
                text_field(&self.body),
                text_list_field(&self.tags),
            ],
        );
        assert(field@->Sequence_0 =~= self.wire()->Sequence_0);
        field
    }

    pub fn from_wire(field: &WireValue) -> (note: Option<Self>)
        ensures
            match note {
                Some(found) => found.wire() == field@,
                None => forall|any: Self| #[trigger] any.wire() != field@,
            },
    {
        let items = match read_items(field, 6) {
            Some(found) => found,
            None => {
                return None;
            },
        };
        let ghost all = trees(items@);
        assert forall|any: Self| #[trigger] any.wire() == field@ implies {
            &&& all[0] is Text
            &&& all[1] is Text
            &&& all[2] is Text
            &&& all[3] is Text
            &&& all[4] is Text
            &&& all[5] == text_list(views(any.tags@))
        } by {
            assert(any.wire()->Sequence_0 == all);
        }
        let note = CultNetInteropNote {
            schema_version: read_text(&items[0])?,
            document_id: read_text(&items[1])?,
            author_runtime_id: read_text(&items[2])?,
            title: read_text(&items[3])?,
            body: read_text(&items[4])?,
            tags: read_text_list(&items[5])?,
        };
        assert(note.wire()->Sequence_0 =~= all);
        Some(note)
    }

    /// The payload under which a cache stores the note.
    pub fn payload(&self) -> (bytes: Vec<u8>)
        ensures
            bytes@ == messagepack_encoding(self.wire()),
    {
        proof {
            text_list_is_plain(views(self.tags@));
            let fields = self.wire()->Sequence_0;
            assert forall|i: int| 0 <= i < fields.len() implies plain(#[trigger] fields[i]) by {}
        }
        encode_messagepack(&self.to_wire())
    }
}

/// The note of the peer with the given runtime and name.
pub open spec fn is_note_of(note: CultNetInteropNote, runtime_id: Seq<char>, display_name: Seq<char>) -> bool {
    &&& note.schema_version@ == INTEROP_SCHEMA_VERSION@
    &&& note.document_id@ == "note:"@ + runtime_id
    &&& note.author_runtime_id@ == runtime_id
    &&& note.title@ == display_name + " keeps a little note"@
    &&& note.body@ == runtime_id + " can move CultNet state without begging the gods for translation."@
    &&& views(note.tags@) == seq![runtime_id, "interop"@, "cultnet"@]
}

pub fn build_note(runtime_id: &str, display_name: &str) -> (note: CultNetInteropNote)
    ensures
        is_note_of(note, runtime_id@, display_name@),
{
    let tags: Vec<String> = vec![runtime_id.to_owned(), "interop".to_owned(), "cultnet".to_owned()];
    assert(views(tags@) =~= seq![runtime_id@, "interop"@, "cultnet"@]);
    CultNetInteropNote {
        schema_version: INTEROP_SCHEMA_VERSION.to_owned(),
        document_id: joined("note:", runtime_id),
        author_runtime_id: runtime_id.to_owned(),
        title: joined(display_name, " keeps a little note"),
        body: joined(
            runtime_id,
            " can move CultNet state without begging the gods for translation.",
        ),
        tags,
    }
}

/// The payload holds some note.
pub open spec fn holds_note(payload: Seq<u8>) -> bool {
    exists|note: CultNetInteropNote| messagepack_decoding(payload) == Some(#[trigger] note.wire())
}

/// The author that the payload's note names.
pub open spec fn note_author(payload: Seq<u8>) -> Seq<char> {
    messagepack_decoding(payload)->0->Sequence_0[2]->Text_0
}

/// Reads the note in a payload.
pub fn read_note(payload: &[u8]) -> (outcome: Result<CultNetInteropNote, CultNetError>)
    ensures
        reports(outcome, unless(holds_note(payload@), "interop note is malformed MessagePack"@)),
        outcome matches Ok(note) ==> messagepack_decoding(payload@) == Some(note.wire()),
{
    match decode_messagepack(payload) {
        None => refuse("interop note is malformed MessagePack"),
        Some(tree) => match CultNetInteropNote::from_wire(&tree) {
            None => refuse("interop note is malformed MessagePack"),
            Some(note) => {
                assert(messagepack_decoding(payload@) == Some(note.wire()));
                Ok(note)
            },
        },
    }
}

/// Some of the first `end` envelopes holds a note of the author.
pub open spec fn has_note_of(stored: Seq<CultCacheEnvelope>, author: Seq<char>, end: int) -> bool {
    exists|i: int| 0 <= i < end && note_author((#[trigger] stored[i]).payload@) == author
}

/// Why there is no note of the author among the envelopes, if there is none.
pub open spec fn note_violation(stored: Seq<CultCacheEnvelope>, author: Seq<char>) -> Option<Seq<char>> {
    first_of(
        first_among(
            |i: int| unless(holds_note(stored[i].payload@), "interop note is malformed MessagePack"@),
            stored.len(),
        ),
        unless(
            has_note_of(stored, author, stored.len() as int),
            "did not receive an interop note from "@ + author,
        ),
    )
}

/// The note is the author's first among the envelopes.
pub open spec fn is_first_note_of(
    note: CultNetInteropNote,
    stored: Seq<CultCacheEnvelope>,
    author: Seq<char>,
) -> bool {
    exists|i: int|
        {
            &&& 0 <= i < stored.len()
            &&& messagepack_decoding((#[trigger] stored[i]).payload@) == Some(note.wire())
            &&& note.author_runtime_id@ == author
            &&& !has_note_of(stored, author, i)
        }
}

/// The first note of the author, when all envelopes hold notes.
pub fn find_note(stored: &Vec<CultCacheEnvelope>, author: &str) -> (outcome: Result<CultNetInteropNote, CultNetError>)
    ensures
        reports(outcome, note_violation(stored@, author@)),
        outcome matches Ok(note) ==> is_first_note_of(note, stored@, author@),
{
    let ghost reasons = |i: int|
        unless(holds_note(stored@[i].payload@), "interop note is malformed MessagePack"@);
    let mut found: Option<CultNetInteropNote> = None;
    let mut i: usize = 0;
    while i < stored.len()
        invariant
            i <= stored@.len(),
            reasons == (|i: int|
                unless(holds_note(stored@[i].payload@), "interop note is malformed MessagePack"@)),
            first_among(reasons, i as nat) is None,
            match found {
                Some(note) => has_note_of(stored@, author@, i as int) && is_first_note_of(note, stored@, author@),
                None => !has_note_of(stored@, author@, i as int),
            },
        decreases stored@.len() - i,
    {
        proof {
            assert(first_among(reasons, (i + 1) as nat) == reasons(i as int));
            if reasons(i as int) is Some {
                first_among_stays(reasons, (i + 1) as nat, stored@.len());
            }
        }
        let note = read_note(&stored[i].payload)?;
        assert(note_author(stored@[i as int].payload@) == note.author_runtime_id@);
        if found.is_none() && same_text(&note.author_runtime_id, author) {
            assert(is_first_note_of(note, stored@, author@));
            found = Some(note);
        }
        i += 1;
    }
    match found {
        Some(note) => Ok(note),
        None => refuse(&joined("did not receive an interop note from ", author)),
    }
}

// ---------------------------------------------------------------------------
// Answers
// ---------------------------------------------------------------------------

/// Who a peer is.
#[derive(Clone, Debug, PartialEq, Eq)]
pub struct CultNetInteropPeer {
    pub runtime_id: String,
    pub runtime_kind: String,
    pub display_name: String,
    pub agent_id: String,
}

/// What a peer that serves answers from.
#[derive(Clone, Debug)]
pub struct CultNetInteropState {
    pub stored: Vec<CultCacheEnvelope>,
    pub documents: CultNetDocumentRegistry,
    pub schemas: CultNetSchemaRegistry,
}

impl CultNetInteropPeer {
    /// The message by which the peer introduces itself.
    pub open spec fn is_hello(self, message: CultNetMessage) -> bool {
        message matches CultNetMessage::Hello {
            runtime_id,
            runtime_kind,
            agent_id,
            role,
            display_name,
            supported_document_types,
            supported_message_versions,
            supports_schema_catalog,
        } && {
            &&& runtime_id@ == self.runtime_id@
            &&& runtime_kind@ == self.runtime_kind@
            &&& opt(agent_id) == Some(self.agent_id@)
            &&& role is None
            &&& opt(display_name) == Some(self.display_name@)
            &&& opt_texts(supported_document_types) == Some(seq![INTEROP_DOCUMENT_TYPE@])
            &&& opt_texts(supported_message_versions) == Some(seq![INTEROP_SCHEMA_VERSION@])
            &&& supports_schema_catalog == Some(true)
        }
    }

    pub fn hello(&self) -> (message: CultNetMessage)
        ensures
            self.is_hello(message),
    {
        let document_types: Vec<String> = vec![INTEROP_DOCUMENT_TYPE.to_owned()];
        let message_versions: Vec<String> = vec![INTEROP_SCHEMA_VERSION.to_owned()];
        assert(views(document_types@) =~= seq![INTEROP_DOCUMENT_TYPE@]);
        assert(views(message_versions@) =~= seq![INTEROP_SCHEMA_VERSION@]);
        CultNetMessage::Hello {
            runtime_id: self.runtime_id.clone(),
            runtime_kind: self.runtime_kind.clone(),
            agent_id: Some(self.agent_id.clone()),
            role: None,
            display_name: Some(self.display_name.clone()),
            supported_document_types: Some(document_types),
            supported_message_versions: Some(message_versions),
            supports_schema_catalog: Some(true),
        }
    }

    /// The document holds what the given one does, and names the peer as its source.
    pub open spec fn vouches_for(self, sent: CultNetRawDocumentRecord, document: CultNetRawDocumentRecord) -> bool {
        &&& sent.schema_id@ == document.schema_id@
        &&& sent.record_key@ == document.record_key@
        &&& sent.stored_at@ == document.stored_at@
        &&& sent.payload_encoding == document.payload_encoding
        &&& sent.payload@ == document.payload@
        &&& opt(sent.source_runtime_id) == Some(self.runtime_id@)
        &&& opt(sent.source_agent_id) == Some(self.agent_id@)
        &&& opt(sent.source_role) == Some("peer"@)
        &&& opt_texts(sent.tags) == Some(seq!["interop"@, self.runtime_id@])
    }

    fn vouched(&self, document: CultNetRawDocumentRecord) -> (sent: CultNetRawDocumentRecord)
        ensures
            self.vouches_for(sent, document),
    {
        let tags: Vec<String> = vec!["interop".to_owned(), self.runtime_id.clone()];
        assert(views(tags@) =~= seq!["interop"@, self.runtime_id@]);
        CultNetRawDocumentRecord {
            source_runtime_id: Some(self.runtime_id.clone()),
            source_agent_id: Some(self.agent_id.clone()),
            source_role: Some("peer".to_owned()),
            tags: Some(tags),
            ..document
        }
    }
}

impl CultNetInteropPeer {
    /// What the peer answers to a message: an introduction to an introduction, the
    /// catalog and the snapshot that are asked for, and nothing to anything else.
    pub open spec fn answers(
        self,
        state: CultNetInteropState,
        message: CultNetMessage,
        outcome: Result<Option<CultNetMessage>, CultNetError>,
    ) -> bool {
        match message {
            CultNetMessage::Hello { .. } => outcome matches Ok(Some(reply)) && self.is_hello(reply),
            CultNetMessage::SchemaCatalogRequest { message_id, include_schema_json, schema_ids, kinds } => {
                outcome matches Ok(Some(CultNetMessage::SchemaCatalogResponse { message_id: id, schemas }))
                    && id@ == message_id@ && descriptors(schemas@) == catalog(
                    state.schemas.advertised(),
                    opt_texts(schema_ids),
                    opt_kinds(kinds),
                    include_schema_json == Some(true),
                    state.schemas.advertised().len(),
                )
            },
            CultNetMessage::SnapshotRequest { message_id, schema_ids, record_keys } => {
                let stored = envelopes(state.stored@);
                let chosen = state.documents.selection(
                    stored,
                    opt_texts(schema_ids),
                    opt_texts(record_keys),
                    stored.len(),
                );
                &&& reports(
                    outcome,
                    state.documents.snapshot_violation(
                        stored,
                        opt_texts(schema_ids),
                        opt_texts(record_keys),
                        false,
                    ),
                )
                &&& outcome matches Ok(answer) ==> (answer matches Some(
                    CultNetMessage::SnapshotResponseRaw { message_id: id, documents },
                ) && {
                    &&& id@ == message_id@
                    &&& documents@.len() == chosen.len()
                    &&& forall|i: int|
                        0 <= i < chosen.len() ==> self.sends(
                            state.documents,
                            #[trigger] documents@[i],
                            stored[chosen[i]],
                        )
                })
            },
            _ => outcome matches Ok(None),
        }
    }

    /// The document is the raw form of the envelope, with the peer as its source.
    pub open spec fn sends(
        self,
        registry: CultNetDocumentRegistry,
        sent: CultNetRawDocumentRecord,
        envelope: Envelope,
    ) -> bool {
        exists|document: CultNetRawDocumentRecord| #[trigger]
            registry.is_raw_document_of(document, envelope) && self.vouches_for(sent, document)
    }

    fn vouched_for_all(&self, documents: Vec<CultNetRawDocumentRecord>) -> (sent: Vec<CultNetRawDocumentRecord>)
        ensures
            sent@.len() == documents@.len(),
            forall|i: int| 0 <= i < documents@.len() ==> self.vouches_for(#[trigger] sent@[i], documents@[i]),
    {
        let mut sent: Vec<CultNetRawDocumentRecord> = Vec::new();
        for document in it: documents
            invariant
                it.seq() == documents@,
                sent@.len() == it.index(),
                forall|i: int| 0 <= i < it.index() ==> self.vouches_for(#[trigger] sent@[i], documents@[i]),
        {
            sent.push(self.vouched(document));
        }
        sent
    }

    pub fn answer(&self, state: &CultNetInteropState, message: &CultNetMessage) -> (outcome: Result<
        Option<CultNetMessage>,
        CultNetError,
    >)
        ensures
            self.answers(*state, *message, outcome),
    {
        match message {
            CultNetMessage::Hello { .. } => Ok(Some(self.hello())),
            CultNetMessage::SchemaCatalogRequest { .. } => {
                let response = state.schemas.create_catalog_response(message)?;
                Ok(Some(response))
            },
            CultNetMessage::SnapshotRequest { message_id, schema_ids, record_keys } => {
                let response = state.documents.create_raw_snapshot_response(
                    &state.stored,
                    message_id,
                    schema_ids.as_ref(),
                    record_keys.as_ref(),
                )?;
                match response {
                    CultNetMessage::SnapshotResponseRaw { message_id: id, documents } => {
                        let ghost all = documents@;
                        let sent = self.vouched_for_all(documents);
                        proof {
                            let stored = envelopes(state.stored@);
                            let chosen = state.documents.selection(
                                stored,
                                opt_texts(*schema_ids),
                                opt_texts(*record_keys),
                                stored.len(),
                            );
                            assert forall|i: int| 0 <= i < chosen.len() implies self.sends(
                                state.documents,
                                #[trigger] sent@[i],
                                stored[chosen[i]],
                            ) by {
                                assert(state.documents.is_raw_document_of(all[i], stored[chosen[i]]));
                            }
                        }
                        Ok(Some(CultNetMessage::SnapshotResponseRaw { message_id: id, documents: sent }))
                    },
                    other => Ok(Some(other)),
                }
            },
            _ => Ok(None),
        }
    }
}

// ---------------------------------------------------------------------------
// Dialling
// ---------------------------------------------------------------------------

/// What a dialling peer is waiting for.
#[derive(Clone, Debug, PartialEq, Eq)]
pub enum CultNetDialStep {
    Hello,
    Catalog { remote_runtime_id: String },
    Snapshot { remote_runtime_id: String, has_interop_schema: bool },
}

/// What a dialling peer does next: it sends a request and waits, or it is done.
#[derive(Clone, Debug, PartialEq, Eq)]
pub enum CultNetDialProgress {
    Request { request: CultNetMessage, step: CultNetDialStep },
    Done {
        remote_runtime_id: String,
        has_interop_schema: bool,
        stored: Vec<CultCacheEnvelope>,
        note: CultNetInteropNote,
    },
}

/// The catalog lists the schema for interop notes.
pub open spec fn lists_interop_schema(schemas: Seq<CultNetSchemaDescriptor>, schema_id: Seq<char>, end: int) -> bool {
    exists|i: int|
        0 <= i < end && (#[trigger] schemas[i]).schema_id@ == schema_id && opt(schemas[i].document_type) == Some(
            INTEROP_DOCUMENT_TYPE@,
        )
}

fn has_interop_schema(schemas: &Vec<CultNetSchemaDescriptor>, schema_id: &str) -> (found: bool)
    ensures
        found == lists_interop_schema(schemas@, schema_id@, schemas@.len() as int),
{
    let mut i: usize = 0;
    while i < schemas.len()
        invariant
            i <= schemas@.len(),
            !lists_interop_schema(schemas@, schema_id@, i as int),
        decreases schemas@.len() - i,
    {
        if same_text(&schemas[i].schema_id, schema_id) && holds_text(
            &schemas[i].document_type,
            INTEROP_DOCUMENT_TYPE,
        ) {
            assert(schemas@[i as int].schema_id@ == schema_id@);
            return true;
        }
        i += 1;
    }
    false
}

impl CultNetInteropPeer {
    /// What the peer does with a reply: it takes the introduction, the catalog and the
    /// snapshot, each in its turn, and is done with the remote peer's note.
    pub open spec fn proceeds(
        self,
        documents: CultNetDocumentRegistry,
        schema_id: Seq<char>,
        step: CultNetDialStep,
        reply: CultNetMessage,
        outcome: Result<CultNetDialProgress, CultNetError>,
    ) -> bool {
        match (step, reply) {
            (CultNetDialStep::Hello, CultNetMessage::Hello { runtime_id, .. }) => {
                outcome matches Ok(CultNetDialProgress::Request { request, step: next }) && {
                    &&& request matches CultNetMessage::SchemaCatalogRequest {
                        message_id,
                        include_schema_json,
                        schema_ids,
                        kinds,
                    } && message_id@ == self.runtime_id@ + "-catalog"@ && include_schema_json == Some(true)
                        && schema_ids is None && kinds is None
                    &&& next matches CultNetDialStep::Catalog { remote_runtime_id } && remote_runtime_id@
                        == runtime_id@
                }
            },
            (
                CultNetDialStep::Catalog { remote_runtime_id: remote },
                CultNetMessage::SchemaCatalogResponse { schemas, .. },
            ) => {
                outcome matches Ok(CultNetDialProgress::Request { request, step: next }) && {
                    &&& request matches CultNetMessage::SnapshotRequest { message_id, schema_ids, record_keys }
                        && message_id@ == self.runtime_id@ + "-snapshot"@ && opt_texts(schema_ids) == Some(
                        seq![INTEROP_DOCUMENT_TYPE@],
                    ) && record_keys is None
                    &&& next matches CultNetDialStep::Snapshot { remote_runtime_id, has_interop_schema }
                        && remote_runtime_id@ == remote@ && has_interop_schema == lists_interop_schema(
                        schemas@,
                        schema_id,
                        schemas@.len() as int,
                    )
                }
            },
            (CultNetDialStep::Snapshot { remote_runtime_id: remote, has_interop_schema: listed }, _) => {
                exists|applied: Result<Vec<CultCacheEnvelope>, CultNetError>|
                    {
                        &&& #[trigger] documents.applies_raw_snapshot(INTEROP_DOCUMENT_TYPE@, reply, applied)
                        &&& match applied {
                            Err(error) => outcome is Err && outcome->Err_0@ == error@,
                            Ok(received) => {
                                &&& reports(outcome, note_violation(received@, remote@))
                                &&& outcome matches Ok(progress) ==> (progress matches CultNetDialProgress::Done {
                                    remote_runtime_id,
                                    has_interop_schema,
                                    stored,
                                    note,
                                } && {
                                    &&& remote_runtime_id@ == remote@
                                    &&& has_interop_schema == listed
                                    &&& stored == received
                                    &&& is_first_note_of(note, received@, remote@)
                                })
                            },
                        }
                    }
            },
            (CultNetDialStep::Hello, _) => outcome is Err && outcome->Err_0@ == "expected hello response"@,
            (CultNetDialStep::Catalog { .. }, _) => outcome is Err && outcome->Err_0@
                == "expected catalog response"@,
        }
    }

    /// Takes the next reply of a dial that began with the peer's hello.
    pub fn proceed(
        &self,
        documents: &CultNetDocumentRegistry,
        schema_id: &str,
        step: CultNetDialStep,
        reply: &CultNetMessage,
    ) -> (outcome: Result<CultNetDialProgress, CultNetError>)
        ensures
            self.proceeds(*documents, schema_id@, step, *reply, outcome),
    {
        match (step, reply) {
            (CultNetDialStep::Hello, CultNetMessage::Hello { runtime_id, .. }) => Ok(
                CultNetDialProgress::Request {
                    request: CultNetMessage::SchemaCatalogRequest {
                        message_id: joined(&self.runtime_id, "-catalog"),
                        include_schema_json: Some(true),
                        schema_ids: None,
                        kinds: None,
                    },
                    step: CultNetDialStep::Catalog { remote_runtime_id: runtime_id.clone() },
                },
            ),
            (
                CultNetDialStep::Catalog { remote_runtime_id },
                CultNetMessage::SchemaCatalogResponse { schemas, .. },
            ) => {
                let schema_ids: Vec<String> = vec![INTEROP_DOCUMENT_TYPE.to_owned()];
                assert(views(schema_ids@) =~= seq![INTEROP_DOCUMENT_TYPE@]);
                Ok(
                    CultNetDialProgress::Request {
                        request: CultNetMessage::SnapshotRequest {
                            message_id: joined(&self.runtime_id, "-snapshot"),
                            schema_ids: Some(schema_ids),
                            record_keys: None,
                        },
                        step: CultNetDialStep::Snapshot {
                            remote_runtime_id,
                            has_interop_schema: has_interop_schema(schemas, schema_id),
                        },
                    },
                )
            },
            (CultNetDialStep::Snapshot { remote_runtime_id, has_interop_schema }, _) => {
                let stored = documents.apply_raw_snapshot_response(INTEROP_DOCUMENT_TYPE, reply)?;
                let note = find_note(&stored, &remote_runtime_id)?;
                Ok(CultNetDialProgress::Done { remote_runtime_id, has_interop_schema, stored, note })
            },
            (CultNetDialStep::Hello, _) => refuse("expected hello response"),
            (CultNetDialStep::Catalog { .. }, _) => refuse("expected catalog response"),
        }
    }
}

/// A peer that stores its own note lets another peer that asks for interop notes finish
/// its dial: what it answers is applied, and its note is found there.
pub proof fn a_served_note_completes_a_dial(
    remote: CultNetInteropPeer,
    state: CultNetInteropState,
    note: CultNetInteropNote,
    request: CultNetMessage,
    answer: Result<Option<CultNetMessage>, CultNetError>,
    documents: CultNetDocumentRegistry,
    applied: Result<Vec<CultCacheEnvelope>, CultNetError>,
)
    requires
        state.stored@.len() == 1,
        state.stored@[0].entry_type@ == INTEROP_DOCUMENT_TYPE@,
        messagepack_decoding(state.stored@[0].payload@) == Some(note.wire()),
        note.author_runtime_id@ == remote.runtime_id@,
        binds_interop_notes(state.documents),
        binds_interop_notes(documents),
        request matches CultNetMessage::SnapshotRequest { message_id, schema_ids, record_keys } && opt_texts(schema_ids)
            == Some(seq![INTEROP_DOCUMENT_TYPE@]) && record_keys is None,
        remote.answers(state, request, answer),
        documents.applies_raw_snapshot(INTEROP_DOCUMENT_TYPE@, answer->Ok_0->0, applied),
    ensures
        answer matches Ok(Some(CultNetMessage::SnapshotResponseRaw { .. })),
        applied matches Ok(stored) && note_violation(stored@, remote.runtime_id@) is None,
{
    let stored = envelopes(state.stored@);
    let ids = request->SnapshotRequest_schema_ids;
    let keys = request->SnapshotRequest_record_keys;
    let wanted = seq![INTEROP_DOCUMENT_TYPE@];
    assert(wanted[0] == INTEROP_DOCUMENT_TYPE@);
    assert(state.documents.selects(stored[0], opt_texts(ids), opt_texts(keys)));
    let reasons = |i: int|
        state.documents.snapshot_violation_at(stored, opt_texts(ids), opt_texts(keys), false, i);
    assert(reasons(0) is None);
    reveal_with_fuel(first_among, 2);
    reveal_with_fuel(CultNetDocumentRegistry::selection, 2);
    let sent = answer->Ok_0->0->SnapshotResponseRaw_documents@;
    assert(remote.sends(state.documents, sent[0], stored[0]));
    reveal_with_fuel(crate::replication::raw_with_schema, 2);
    let received = applied->Ok_0@;
    assert(received[0]@ == CultNetDocumentRegistry::stored_form(sent[0], INTEROP_DOCUMENT_TYPE@));
    assert(received[0].payload@ == state.stored@[0].payload@);
    assert(holds_note(received[0].payload@));
    assert(note_author(received[0].payload@) == remote.runtime_id@);
}

/// The registry binds interop notes under their own name.
pub open spec fn binds_interop_notes(registry: CultNetDocumentRegistry) -> bool {
    member_of(registry.by_type(), INTEROP_DOCUMENT_TYPE@) matches Some(binding) && binding.schema_id
        == INTEROP_DOCUMENT_TYPE@ && binding.document_type == INTEROP_DOCUMENT_TYPE@
}

// ---------------------------------------------------------------------------
// Options
// ---------------------------------------------------------------------------

/// The text without the pairs of hyphens that it starts with.
pub open spec fn without_hyphens(text: Seq<char>) -> Seq<char>
    decreases text.len(),
{
    if starts_with_hyphens(text) {
        without_hyphens(text.skip(2))
    } else {
        text
    }
}

pub open spec fn starts_with_hyphens(text: Seq<char>) -> bool {
    text.len() >= 2 && text[0] == '-' && text[1] == '-'
}

/// The options among the arguments from `start` on, on top of those read before: a name
/// that starts with two hyphens takes the argument behind it as its value, anything else
/// is passed over, and the last value of a name counts. In the place of the options
/// stands the name that lacks a value, where one does.
pub open spec fn options_from(
    arguments: Seq<Seq<char>>,
    start: nat,
    sofar: Seq<(Seq<char>, Seq<char>)>,
) -> Result<Seq<(Seq<char>, Seq<char>)>, Seq<char>>
    decreases arguments.len() - start,
{
    if start >= arguments.len() {
        Ok(sofar)
    } else if !starts_with_hyphens(arguments[start as int]) {
        options_from(arguments, start + 1, sofar)
    } else if start + 1 >= arguments.len() {
        Err(without_hyphens(arguments[start as int]))
    } else {
        options_from(
            arguments,
            start + 2,
            with_member(sofar, without_hyphens(arguments[start as int]), arguments[start as int + 1]),
        )
    }
}

/// The options that the map holds.
pub open spec fn options_of(map: OrderedMap<String>) -> Seq<(Seq<char>, Seq<char>)> {
    mapped(map@, |value: String| value@)
}

/// The name of the option, if the argument is one.
fn option_name(argument: &str) -> (name: Option<String>)
    ensures
        match name {
            Some(found) => starts_with_hyphens(argument@) && found@ == without_hyphens(argument@),
            None => !starts_with_hyphens(argument@),
        },
{
    let all = letters(argument);
    let mut start: usize = 0;
    assert(all@.skip(0) =~= argument@);
    while all.len() - start >= 2 && all[start] == '-' && all[start + 1] == '-'
        invariant
            start <= all@.len(),
            all@ == argument@,
            without_hyphens(all@.skip(start as int)) == without_hyphens(argument@),
            start > 0 ==> starts_with_hyphens(argument@),
            start == 0 ==> all@.skip(start as int) == argument@,
        decreases all@.len() - start,
    {
        assert(all@.skip(start as int).skip(2) =~= all@.skip(start + 2));
        start += 2;
    }
    if start == 0 {
        return None;
    }
    assert(!starts_with_hyphens(all@.skip(start as int)));
    Some(text_of(vstd::slice::slice_subrange(all.as_slice(), start, all.len())))
}

/// Reads the options among the arguments of a program.
pub fn parse_args(arguments: &Vec<String>) -> (outcome: Result<OrderedMap<String>, CultNetError>)
    ensures
        match options_from(views(arguments@), 0, Seq::empty()) {
            Ok(options) => outcome matches Ok(map) && options_of(map) == options && map.well_formed(),
            Err(name) => outcome is Err && outcome->Err_0@ == "missing value for --"@ + name,
        },
{
    let ghost all = views(arguments@);
    let ghost image = |value: String| value@;
    let mut map: OrderedMap<String> = OrderedMap::new();
    let mut i: usize = 0;
    assert(options_of(map) =~= Seq::empty());
    while i < arguments.len()
        invariant
            i <= arguments@.len(),
            all == views(arguments@),
            image == (|value: String| value@),
            map.well_formed(),
            options_from(all, 0, Seq::empty()) == options_from(all, i as nat, options_of(map)),
        decreases arguments@.len() - i,
    {
        assert(all[i as int] == arguments@[i as int]@);
        match option_name(&arguments[i]) {
            None => {
                i += 1;
            },
            Some(name) => {
                if arguments.len() - i < 2 {
                    return refuse(&joined("missing value for --", &name));
                }
                let value = arguments[i + 1].clone();
                assert(all[i + 1] == value@);
                proof {
                    mapping_keeps_members(map@, name@, value, image);
                }
                map.insert(name, value);
                i += 2;
            },
        }
    }
    Ok(map)
}

/// The value of an option that must be there.
pub fn require_arg<'a>(options: &'a OrderedMap<String>, name: &str) -> (outcome: Result<&'a String, CultNetError>)
    ensures
        reports(
            outcome,
            unless(member_of(options@, name@) is Some, "missing required argument --"@ + name@),
        ),
        outcome matches Ok(value) ==> member_of(options@, name@) == Some(*value),
{
    match options.get(name) {
        Some(value) => Ok(value),
        None => refuse(&joined("missing required argument --", name)),
    }
}

}

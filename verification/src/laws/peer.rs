//! The interop peer: its note, its answers, the steps of a dial, and its options.
use vstd::prelude::*;
use super::discovery::is_catalog;
use super::replication::{
    a_bound_type_travels, a_lookup_finds_the_first_under_the_key, envelope_wanted, first_under,
    none_under, the_selection_is_the_wanted, travels_under,
};
use super::snapshots::no_reason_among_none;
use super::words::says;
use crate::contracts::validation::opt_texts;
use crate::contracts::{CultNetMessage, CultNetRawDocumentRecord};
use crate::envelope::{envelopes, CultCacheEnvelope};
use crate::error::{first_among, CultNetError};
use crate::interop_peer::{
    build_note, find_note, has_note_of, holds_note, note_author, options_from, read_note,
    require_arg, starts_with_hyphens, without_hyphens, CultNetDialProgress, CultNetDialStep,
    CultNetInteropNote, CultNetInteropPeer, CultNetInteropState,
};
use crate::json::with_member;
use crate::ordered_map::OrderedMap;
use crate::record::text_list;
use crate::replication::{borrowed_texts, CultNetDocumentRegistry};
use crate::text::views;
use crate::wire::{messagepack_decoding, Wire};

verus! {

// ---------------------------------------------------------------------------
// The note
// ---------------------------------------------------------------------------

/// The fields of a note stand in this order.
pub proof fn a_note_is_laid_out_so(note: CultNetInteropNote)
    ensures
        note.wire() matches Wire::Sequence(fields) && {
            &&& fields.len() == 6
            &&& fields[0] == Wire::Text(note.schema_version@)
            &&& fields[1] == Wire::Text(note.document_id@)
            &&& fields[2] == Wire::Text(note.author_runtime_id@)
            &&& fields[3] == Wire::Text(note.title@)
            &&& fields[4] == Wire::Text(note.body@)
            &&& fields[5] == text_list(views(note.tags@))
        },
{
}

/// A peer's note names its runtime in its id, as its author, in its body and among its tags,
/// and its name in the title.
pub proof fn a_peer_keeps_this_note(runtime_id: &str, display_name: &str, note: CultNetInteropNote)
    requires
        call_ensures(build_note, (runtime_id, display_name), note),
    ensures
        note.schema_version@ == "cultnet.interop_note.v0"@,
        note.document_id@ == "note:"@ + runtime_id@,
        note.author_runtime_id@ == runtime_id@,
        note.title@ == display_name@ + " keeps a little note"@,
        note.body@ == runtime_id@ + " can move CultNet state without begging the gods for translation."@,
        note.tags@.len() == 3,
        note.tags@[0]@ == runtime_id@,
        note.tags@[1]@ == "interop"@,
        note.tags@[2]@ == "cultnet"@,
{
    let tags = views(note.tags@);
    assert(tags.len() == note.tags@.len());
    assert(tags[0] == note.tags@[0]@ && tags[1] == note.tags@[1]@ && tags[2] == note.tags@[2]@);
}

/// The payload is the MessagePack form of the note.
pub open spec fn is_form_of(payload: Seq<u8>, note: CultNetInteropNote) -> bool {
    messagepack_decoding(payload) == Some(note.wire())
}

/// A note is read exactly from the form of one.
pub proof fn a_note_is_read_from_its_form(
    payload: &[u8],
    note: CultNetInteropNote,
    outcome: Result<CultNetInteropNote, CultNetError>,
)
    requires
        call_ensures(read_note, (payload,), outcome),
    ensures
        outcome is Err ==> says(outcome, "interop note is malformed MessagePack"@) && !is_form_of(payload@, note),
        outcome matches Ok(found) ==> is_form_of(payload@, found),
{
}

proof fn the_author_is_the_notes(payload: Seq<u8>, note: CultNetInteropNote)
    requires
        is_form_of(payload, note),
    ensures
        note_author(payload) == note.author_runtime_id@,
{
    a_note_is_laid_out_so(note);
}

/// The note that is found is the first one of the author, and one is found exactly if all
/// envelopes hold notes and some of them is the author's.
pub proof fn the_first_note_of_the_author_is_found(
    stored: &Vec<CultCacheEnvelope>,
    author: &str,
    outcome: Result<CultNetInteropNote, CultNetError>,
)
    requires
        call_ensures(find_note, (stored, author), outcome),
    ensures
        outcome matches Ok(note) ==> note.author_runtime_id@ == author@ && exists|i: int|
            {
                &&& 0 <= i < stored@.len()
                &&& is_form_of((#[trigger] stored@[i]).payload@, note)
                &&& forall|k: int, other: CultNetInteropNote|
                    0 <= k < i && #[trigger] is_form_of(stored@[k].payload@, other) ==> other.author_runtime_id@
                        != author@
            },
        outcome is Ok ==> forall|i: int| 0 <= i < stored@.len() ==> holds_note((#[trigger] stored@[i]).payload@),
        (forall|i: int| 0 <= i < stored@.len() ==> holds_note((#[trigger] stored@[i]).payload@)) && outcome is Err ==> {
            &&& says(outcome, "did not receive an interop note from "@ + author@)
            &&& forall|k: int, other: CultNetInteropNote|
                0 <= k < stored@.len() && #[trigger] is_form_of(stored@[k].payload@, other)
                    ==> other.author_runtime_id@ != author@
        },
{
    let reasons = |i: int|
        crate::error::unless(holds_note(stored@[i].payload@), "interop note is malformed MessagePack"@);
    no_reason_among_none(reasons, stored@.len());
    if outcome is Ok {
        assert forall|i: int| 0 <= i < stored@.len() implies holds_note((#[trigger] stored@[i]).payload@) by {
            assert(reasons(i) is None);
        }
    }
    if let Ok(note) = outcome {
        let i = choose|i: int|
            {
                &&& 0 <= i < stored@.len()
                &&& messagepack_decoding((#[trigger] stored@[i]).payload@) == Some(note.wire())
                &&& note.author_runtime_id@ == author@
                &&& !has_note_of(stored@, author@, i)
            };
        assert(is_form_of(stored@[i].payload@, note));
        assert forall|k: int, other: CultNetInteropNote|
            0 <= k < i && #[trigger] is_form_of(stored@[k].payload@, other) implies other.author_runtime_id@ != author@ by {
            the_author_is_the_notes(stored@[k].payload@, other);
        }
    }
    if (forall|i: int| 0 <= i < stored@.len() ==> holds_note((#[trigger] stored@[i]).payload@)) && outcome is Err {
        assert forall|i: int| 0 <= i < stored@.len() implies (#[trigger] reasons(i)) is None by {
            assert(holds_note(stored@[i].payload@));
        }
        assert(first_among(reasons, stored@.len()) is None);
        assert forall|k: int, other: CultNetInteropNote|
            0 <= k < stored@.len() && #[trigger] is_form_of(stored@[k].payload@, other) implies other.author_runtime_id@
            != author@ by {
            the_author_is_the_notes(stored@[k].payload@, other);
        }
    }
}

// ---------------------------------------------------------------------------
// Answers
// ---------------------------------------------------------------------------

/// The peer greets with its own names, for the one document type in the one version, and
/// with its catalog.
pub open spec fn greets(peer: CultNetInteropPeer, message: CultNetMessage) -> bool {
    message matches CultNetMessage::Hello {
        runtime_id,
        runtime_kind,
        agent_id,
        role,
        display_name,
        supported_document_types,
        supported_message_versions,
        supports_schema_catalog,
    } && {
        &&& runtime_id@ == peer.runtime_id@
        &&& runtime_kind@ == peer.runtime_kind@
        &&& agent_id matches Some(agent) && agent@ == peer.agent_id@
        &&& role is None
        &&& display_name matches Some(name) && name@ == peer.display_name@
        &&& supported_document_types matches Some(types) && types@.len() == 1 && types@[0]@ == "cultnet.interop-note"@
        &&& supported_message_versions matches Some(versions) && versions@.len() == 1 && versions@[0]@
            == "cultnet.interop_note.v0"@
        &&& supports_schema_catalog == Some(true)
    }
}

proof fn a_hello_greets(peer: CultNetInteropPeer, message: CultNetMessage)
    requires
        peer.is_hello(message),
    ensures
        greets(peer, message),
{
    let types = message->Hello_supported_document_types->0;
    let versions = message->Hello_supported_message_versions->0;
    assert(views(types@).len() == types@.len() && views(versions@).len() == versions@.len());
    assert(views(types@)[0] == types@[0]@);
    assert(views(versions@)[0] == versions@[0]@);
}

/// The document names the peer as its source, in the role of a peer.
pub open spec fn comes_from(peer: CultNetInteropPeer, document: CultNetRawDocumentRecord) -> bool {
    &&& document.source_runtime_id matches Some(runtime) && runtime@ == peer.runtime_id@
    &&& document.source_agent_id matches Some(agent) && agent@ == peer.agent_id@
    &&& document.source_role matches Some(role) && role@ == "peer"@
    &&& document.tags matches Some(tags) && tags@.len() == 2 && tags@[0]@ == "interop"@ && tags@[1]@ == peer.runtime_id@
}

/// A hello is answered by one, a catalog request by the catalog, a snapshot request by a raw
/// snapshot in its name whose documents name the peer as their source, and nothing else is
/// answered.
pub proof fn a_peer_answers_these_messages(
    peer: &CultNetInteropPeer,
    state: &CultNetInteropState,
    message: &CultNetMessage,
    outcome: Result<Option<CultNetMessage>, CultNetError>,
    hello: CultNetMessage,
)
    requires
        call_ensures(CultNetInteropPeer::answer, (peer, state, message), outcome),
        call_ensures(CultNetInteropPeer::hello, (peer,), hello),
    ensures
        greets(*peer, hello),
        *message is Hello ==> (outcome matches Ok(Some(reply)) && greets(*peer, reply)),
        *message matches CultNetMessage::SchemaCatalogRequest { message_id, include_schema_json, schema_ids, kinds } ==> (
        outcome matches Ok(Some(CultNetMessage::SchemaCatalogResponse { message_id: id, schemas })) && id@ == message_id@
            && is_catalog(
            schemas@,
            state.schemas.advertised(),
            schema_ids,
            kinds,
            include_schema_json == Some(true),
        )),
        *message matches CultNetMessage::SnapshotRequest { message_id, schema_ids, record_keys } ==> (outcome matches Ok(
            answer,
        ) ==> (answer matches Some(CultNetMessage::SnapshotResponseRaw { message_id: id, documents }) && id@
            == message_id@ && forall|i: int| 0 <= i < documents@.len() ==> comes_from(*peer, #[trigger] documents@[i]))),
        !(*message is Hello) && !(*message is SchemaCatalogRequest) && !(*message is SnapshotRequest) ==> outcome == Ok::<
            Option<CultNetMessage>,
            CultNetError,
        >(None),
{
    a_hello_greets(*peer, hello);
    match *message {
        CultNetMessage::Hello { .. } => {
            a_hello_greets(*peer, outcome->Ok_0->0);
        },
        CultNetMessage::SchemaCatalogRequest { message_id, include_schema_json, schema_ids, kinds } => {
            super::discovery::a_list_is_a_catalog(
                outcome->Ok_0->0->SchemaCatalogResponse_schemas@,
                state.schemas.advertised(),
                schema_ids,
                kinds,
                include_schema_json == Some(true),
            );
        },
        CultNetMessage::SnapshotRequest { message_id, schema_ids, record_keys } => {
            if let Ok(Some(CultNetMessage::SnapshotResponseRaw { message_id: id, documents })) = outcome {
                assert forall|i: int| 0 <= i < documents@.len() implies comes_from(*peer, #[trigger] documents@[i]) by {
                    let tags = documents@[i].tags->0;
                    assert(views(tags@).len() == tags@.len());
                    assert(views(tags@)[0] == tags@[0]@ && views(tags@)[1] == tags@[1]@);
                }
            }
        },
        _ => {},
    }
}

/// The list, borrowed.
pub open spec fn borrowed(list: &Option<Vec<String>>) -> Option<&Vec<String>> {
    match list {
        Some(texts) => Some(texts),
        None => None,
    }
}

/// What is served to a snapshot request is exactly the stored envelopes that are asked for, in
/// their order, each under the schema that its type travels under and otherwise as it is.
pub proof fn a_peer_serves_exactly_what_is_asked_for(
    peer: &CultNetInteropPeer,
    state: &CultNetInteropState,
    message: &CultNetMessage,
    outcome: Result<Option<CultNetMessage>, CultNetError>,
)
    requires
        call_ensures(CultNetInteropPeer::answer, (peer, state, message), outcome),
        *message is SnapshotRequest,
        outcome is Ok,
    ensures
        outcome->Ok_0 matches Some(CultNetMessage::SnapshotResponseRaw { message_id, documents }) && {
            let chosen = state.stored@.filter(
                |envelope: CultCacheEnvelope|
                    envelope_wanted(
                        state.documents,
                        borrowed(&message->SnapshotRequest_schema_ids),
                        borrowed(&message->SnapshotRequest_record_keys),
                        envelope,
                    ),
            );
            &&& documents@.len() == chosen.len()
            &&& forall|i: int|
                0 <= i < documents@.len() ==> {
                    &&& travels_under(
                        state.documents.by_type(),
                        chosen[i].entry_type@,
                        (#[trigger] documents@[i]).schema_id@,
                    )
                    &&& documents@[i].record_key@ == chosen[i].key@
                    &&& documents@[i].stored_at@ == chosen[i].stored_at@
                    &&& documents@[i].payload@ == chosen[i].payload@
                }
        },
{
    let registry = state.documents;
    let ids = borrowed(&message->SnapshotRequest_schema_ids);
    let keys = borrowed(&message->SnapshotRequest_record_keys);
    let at = |i: int| state.stored@[i];
    let chosen = state.stored@.filter(|envelope: CultCacheEnvelope| envelope_wanted(registry, ids, keys, envelope));
    let positions = registry.selection(
        envelopes(state.stored@),
        borrowed_texts(ids),
        borrowed_texts(keys),
        state.stored@.len(),
    );
    the_selection_is_the_wanted(registry, state.stored@, ids, keys, state.stored@.len());
    assert(state.stored@.take(state.stored@.len() as int) =~= state.stored@);
    assert(positions.map_values(at).len() == positions.len());
    assert(borrowed_texts(ids) == opt_texts(message->SnapshotRequest_schema_ids));
    assert(borrowed_texts(keys) == opt_texts(message->SnapshotRequest_record_keys));
    let documents = outcome->Ok_0->0->SnapshotResponseRaw_documents;
    assert forall|i: int| 0 <= i < documents@.len() implies {
        &&& travels_under(registry.by_type(), chosen[i].entry_type@, (#[trigger] documents@[i]).schema_id@)
        &&& documents@[i].record_key@ == chosen[i].key@
        &&& documents@[i].stored_at@ == chosen[i].stored_at@
        &&& documents@[i].payload@ == chosen[i].payload@
    } by {
        assert(positions.map_values(at)[i] == state.stored@[positions[i]]);
        assert(envelopes(state.stored@)[positions[i]] == state.stored@[positions[i]]@);
        assert(peer.sends(registry, documents@[i], chosen[i]@));
        a_bound_type_travels(registry.by_type(), chosen[i].entry_type@);
    }
}

// ---------------------------------------------------------------------------
// Dialling
// ---------------------------------------------------------------------------

/// After the hello the whole catalog is asked for, after the catalog the notes, and the runtime
/// that was greeted is remembered; a reply of another sort ends the dial.
pub proof fn a_dial_takes_these_steps(
    peer: &CultNetInteropPeer,
    documents: &CultNetDocumentRegistry,
    schema_id: &str,
    step: CultNetDialStep,
    reply: &CultNetMessage,
    outcome: Result<CultNetDialProgress, CultNetError>,
)
    requires
        call_ensures(CultNetInteropPeer::proceed, (peer, documents, schema_id, step, reply), outcome),
    ensures
        step is Hello && !(*reply is Hello) ==> says(outcome, "expected hello response"@),
        step is Catalog && !(*reply is SchemaCatalogResponse) ==> says(outcome, "expected catalog response"@),
        step is Snapshot && !(*reply is SnapshotResponseRaw) ==> says(
            outcome,
            "expected cultnet.snapshot_response_raw.v0"@,
        ),
        step is Hello && *reply is Hello ==> (outcome matches Ok(CultNetDialProgress::Request { request, step: next }) && (
        request matches CultNetMessage::SchemaCatalogRequest { message_id, include_schema_json, schema_ids, kinds }
            && message_id@ == peer.runtime_id@ + "-catalog"@ && include_schema_json == Some(true) && schema_ids is None
            && kinds is None) && (next matches CultNetDialStep::Catalog { remote_runtime_id } && remote_runtime_id@
            == reply->Hello_runtime_id@)),
        step is Catalog && *reply is SchemaCatalogResponse ==> (outcome matches Ok(
            CultNetDialProgress::Request { request, step: next },
        ) && (request matches CultNetMessage::SnapshotRequest { message_id, schema_ids, record_keys } && message_id@
            == peer.runtime_id@ + "-snapshot"@ && (schema_ids matches Some(ids) && ids@.len() == 1 && ids@[0]@
            == "cultnet.interop-note"@) && record_keys is None) && (next matches CultNetDialStep::Snapshot {
            remote_runtime_id,
            has_interop_schema,
        } && remote_runtime_id@ == step->Catalog_remote_runtime_id@ && (has_interop_schema <==> exists|i: int|
            {
                &&& 0 <= i < reply->SchemaCatalogResponse_schemas@.len()
                &&& (#[trigger] reply->SchemaCatalogResponse_schemas@[i]).schema_id@ == schema_id@
                &&& reply->SchemaCatalogResponse_schemas@[i].document_type matches Some(found) && found@
                    == "cultnet.interop-note"@
            }))),
        step is Snapshot && outcome is Ok ==> (outcome->Ok_0 matches CultNetDialProgress::Done {
            remote_runtime_id,
            has_interop_schema,
            stored,
            note,
        } && remote_runtime_id@ == step->Snapshot_remote_runtime_id@ && has_interop_schema
            == step->Snapshot_has_interop_schema && note.author_runtime_id@ == step->Snapshot_remote_runtime_id@),
{
    if step is Catalog && *reply is SchemaCatalogResponse {
        if let Ok(CultNetDialProgress::Request { request, step: next }) = outcome {
            let ids = request->SnapshotRequest_schema_ids->0;
            assert(views(ids@).len() == ids@.len());
            assert(views(ids@)[0] == ids@[0]@);
            let schemas = reply->SchemaCatalogResponse_schemas@;
            if exists|i: int|
                {
                    &&& 0 <= i < schemas.len()
                    &&& (#[trigger] schemas[i]).schema_id@ == schema_id@
                    &&& schemas[i].document_type matches Some(found) && found@ == "cultnet.interop-note"@
                } {
                let i = choose|i: int|
                    {
                        &&& 0 <= i < schemas.len()
                        &&& (#[trigger] schemas[i]).schema_id@ == schema_id@
                        &&& schemas[i].document_type matches Some(found) && found@ == "cultnet.interop-note"@
                    };
                assert(schemas[i].schema_id@ == schema_id@);
            }
        }
    }
}

// ---------------------------------------------------------------------------
// Options
// ---------------------------------------------------------------------------

/// The name is what is left of the text without pairs of hyphens in front.
pub open spec fn is_name_in(text: Seq<char>, name: Seq<char>, pairs: nat) -> bool {
    &&& text.len() == 2 * pairs + name.len()
    &&& text.skip(2 * pairs as int) == name
    &&& forall|i: int| 0 <= i < 2 * pairs ==> #[trigger] text[i] == '-'
    &&& !(name.len() >= 2 && name[0] == '-' && name[1] == '-')
}

/// The name of an option is what is behind its hyphens, which are taken away in pairs.
pub proof fn hyphens_are_taken_away_in_pairs(text: Seq<char>)
    ensures
        exists|pairs: nat| #[trigger] is_name_in(text, without_hyphens(text), pairs),
        starts_with_hyphens(text) <==> text.len() >= 2 && text[0] == '-' && text[1] == '-',
    decreases text.len(),
{
    if starts_with_hyphens(text) {
        let rest = text.skip(2);
        hyphens_are_taken_away_in_pairs(rest);
        let name = without_hyphens(rest);
        let pairs = choose|pairs: nat| #[trigger] is_name_in(rest, name, pairs);
        assert(text.skip(2 * (pairs + 1) as int) =~= rest.skip(2 * pairs as int));
        assert forall|i: int| 0 <= i < 2 * (pairs + 1) implies #[trigger] text[i] == '-' by {
            if i >= 2 {
                assert(rest[i - 2] == '-');
            }
        }
        let more: nat = pairs + 1;
        assert(without_hyphens(text) == name);
        assert(is_name_in(text, without_hyphens(text), more));
    } else {
        assert(text.skip(0) =~= text);
        assert(without_hyphens(text) == text);
        assert(is_name_in(text, without_hyphens(text), 0));
    }
}

/// An argument that is no option is passed over, one that is takes the next argument as its
/// value over what was there, and the last argument cannot be one.
pub proof fn options_are_taken_one_by_one(
    arguments: Seq<Seq<char>>,
    start: nat,
    sofar: Seq<(Seq<char>, Seq<char>)>,
)
    ensures
        start >= arguments.len() ==> options_from(arguments, start, sofar) == Ok::<
            Seq<(Seq<char>, Seq<char>)>,
            Seq<char>,
        >(sofar),
        start < arguments.len() ==> ({
            let argument = arguments[start as int];
            let option = argument.len() >= 2 && argument[0] == '-' && argument[1] == '-';
            &&& !option ==> options_from(arguments, start, sofar) == options_from(arguments, start + 1, sofar)
            &&& option && start + 1 == arguments.len() ==> options_from(arguments, start, sofar) == Err::<
                Seq<(Seq<char>, Seq<char>)>,
                Seq<char>,
            >(without_hyphens(argument))
            &&& option && start + 1 < arguments.len() ==> options_from(arguments, start, sofar) == options_from(
                arguments,
                start + 2,
                with_member(sofar, without_hyphens(argument), arguments[start as int + 1]),
            )
        }),
{
}

/// A required option is its value, or is named as missing.
pub proof fn a_required_option_is_there_or_named(
    options: &OrderedMap<String>,
    name: &str,
    outcome: Result<&String, CultNetError>,
)
    requires
        call_ensures(require_arg, (options, name), outcome),
    ensures
        outcome is Err <==> none_under(options@, name@),
        outcome is Err ==> says(outcome, "missing required argument --"@ + name@),
        outcome matches Ok(value) ==> first_under(options@, name@, *value),
{
    a_lookup_finds_the_first_under_the_key(options@, name@);
}

}

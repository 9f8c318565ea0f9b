//! Messages: which texts they need, and where each of their fields stands in the forms
//! that carry them.
use vstd::prelude::*;
use super::replication::{a_lookup_finds_the_first_under_the_key, first_under, none_under};
use super::snapshots::{filled, filled_is_not_blank, no_reason_among_none};
use super::words::{says, the_earliest_reason_counts};
use crate::contracts::json_form::{
    bytes_in, bytes_part, optional_flag_part, optional_text_part, optional_texts_part, part,
    text_part, texts_in, texts_part, JsonForm,
};
use crate::contracts::legacy_form::{contract_names, kind_names, opt_kind_names};
use crate::contracts::validation::{
    field_violation, none_blank, opt_texts, optional_field_violation, optional_list_violation,
};
use crate::contracts::{
    CultNetDocumentRecord, CultNetMessage, CultNetRawDocumentRecord, CultNetSchemaDescriptor,
    CultNetSchemaKind, CultNetWireContract,
};
use crate::error::{first_among, CultNetError};
use crate::json::{member_of, Json, JsonValue};
use crate::text::{opt, views};

verus! {

// ---------------------------------------------------------------------------
// Places
// ---------------------------------------------------------------------------

/// What is said of a field: in an array at its position, in an object under its key.
pub open spec fn place(json: Json, key: Seq<char>, position: nat, found: Json) -> bool {
    match json {
        Json::Array(items) => position < items.len() && items[position as int] == found,
        Json::Object(members) => first_under(members, key, found),
        _ => false,
    }
}

/// Nothing is said of the field.
pub open spec fn nowhere(json: Json, key: Seq<char>, position: nat) -> bool {
    match json {
        Json::Array(items) => position >= items.len(),
        Json::Object(members) => none_under(members, key),
        _ => true,
    }
}

/// An array has no more items than there are fields.
pub open spec fn at_most(json: Json, fields: nat) -> bool {
    json matches Json::Array(items) ==> items.len() <= fields
}

pub open spec fn text_at(json: Json, key: Seq<char>, position: nat, text: Seq<char>) -> bool {
    place(json, key, position, Json::Text(text))
}

/// The text stands there; where there is none, nothing or null does.
pub open spec fn maybe_text_at(json: Json, key: Seq<char>, position: nat, text: Option<String>) -> bool {
    match text {
        Some(found) => place(json, key, position, Json::Text(found@)),
        None => nowhere(json, key, position) || place(json, key, position, Json::Null),
    }
}

/// The flag stands there; where there is none, nothing or null does.
pub open spec fn maybe_flag_at(json: Json, key: Seq<char>, position: nat, flag: Option<bool>) -> bool {
    match flag {
        Some(found) => place(json, key, position, Json::Flag(found)),
        None => nowhere(json, key, position) || place(json, key, position, Json::Null),
    }
}

/// The array holds the texts and nothing else.
pub open spec fn array_of(json: Json, texts: Seq<Seq<char>>) -> bool {
    json matches Json::Array(items) && items.len() == texts.len() && forall|i: int|
        0 <= i < items.len() ==> #[trigger] items[i] == Json::Text(texts[i])
}

pub open spec fn texts_at(json: Json, key: Seq<char>, position: nat, texts: Seq<Seq<char>>) -> bool {
    exists|found: Json| #[trigger] place(json, key, position, found) && array_of(found, texts)
}

/// The texts stand there; where there are none, nothing or null does.
pub open spec fn maybe_texts_at(json: Json, key: Seq<char>, position: nat, texts: Option<Vec<String>>) -> bool {
    match texts {
        Some(list) => texts_at(json, key, position, Seq::new(list@.len(), |i: int| list@[i]@)),
        None => nowhere(json, key, position) || place(json, key, position, Json::Null),
    }
}

/// The name of a kind.
pub open spec fn kind_word(kind: CultNetSchemaKind) -> Seq<char> {
    match kind {
        CultNetSchemaKind::WireMessage => "wire_message"@,
        CultNetSchemaKind::SharedContract => "shared_contract"@,
        CultNetSchemaKind::DocumentPayload => "document_payload"@,
    }
}

/// The name of a contract.
pub open spec fn contract_word(contract: CultNetWireContract) -> Seq<char> {
    match contract {
        CultNetWireContract::CultNetSchemaV0 => "cultnet.schema.v0"@,
        CultNetWireContract::GameCultNetworkingV0 => "gamecult.networking.v0"@,
    }
}

/// The names of the kinds stand there; where there are none, nothing or null does.
pub open spec fn maybe_kinds_at(json: Json, key: Seq<char>, position: nat, kinds: Option<Vec<CultNetSchemaKind>>) -> bool {
    match kinds {
        Some(list) => texts_at(json, key, position, Seq::new(list@.len(), |i: int| kind_word(list@[i]))),
        None => nowhere(json, key, position) || place(json, key, position, Json::Null),
    }
}

/// The names of the contracts stand there.
pub open spec fn contracts_at(json: Json, key: Seq<char>, position: nat, contracts: Seq<CultNetWireContract>) -> bool {
    texts_at(json, key, position, Seq::new(contracts.len(), |i: int| contract_word(contracts[i])))
}

/// The array holds the numbers of the bytes and nothing else.
pub open spec fn byte_array(json: Json, bytes: Seq<u8>) -> bool {
    json matches Json::Array(items) && items.len() == bytes.len() && forall|i: int|
        0 <= i < items.len() ==> #[trigger] items[i] == Json::Unsigned(bytes[i] as u64)
}

pub open spec fn bytes_at(json: Json, key: Seq<char>, position: nat, bytes: Seq<u8>) -> bool {
    exists|found: Json| #[trigger] place(json, key, position, found) && byte_array(found, bytes)
}

/// A form of the value stands there.
pub open spec fn form_at<R: JsonForm>(json: Json, key: Seq<char>, position: nat, value: R) -> bool {
    exists|found: Json| #[trigger] place(json, key, position, found) && R::reads(found, value)
}

/// An array of the forms of the values stands there.
pub open spec fn forms_at<R: JsonForm>(json: Json, key: Seq<char>, position: nat, values: Seq<R>) -> bool {
    exists|found: Json| #[trigger] place(json, key, position, found) && forms_of(found, values)
}

/// The array holds forms of the values, item by item, and nothing else.
pub open spec fn forms_of<R: JsonForm>(json: Json, values: Seq<R>) -> bool {
    json matches Json::Array(items) && items.len() == values.len() && forall|i: int|
        0 <= i < items.len() ==> R::reads(#[trigger] items[i], values[i])
}

proof fn a_part_is_at_its_place(json: Json, key: Seq<char>, position: nat)
    ensures
        part(json, key, position) is None <==> nowhere(json, key, position),
        forall|found: Json| part(json, key, position) == Some(found) <==> #[trigger] place(json, key, position, found),
{
    if let Json::Object(members) = json {
        a_lookup_finds_the_first_under_the_key(members, key);
        assert forall|found: Json| part(json, key, position) == Some(found) <==> #[trigger] place(
            json,
            key,
            position,
            found,
        ) by {
            assert(member_of(members, key) == Some(found) <==> first_under(members, key, found));
        }
    }
}

proof fn an_array_of_texts(json: Json, texts: Seq<Seq<char>>)
    ensures
        texts_in(json) == Some(texts) <==> array_of(json, texts),
{
    if let Json::Array(items) = json {
        if array_of(json, texts) {
            assert forall|i: int| 0 <= i < items.len() implies #[trigger] items[i] is Text by {}
            assert(items.map_values(|item: Json| item->Text_0) =~= texts);
        }
        if texts_in(json) == Some(texts) {
            assert forall|i: int| 0 <= i < items.len() implies #[trigger] items[i] == Json::Text(texts[i]) by {
                assert(items[i] is Text);
                assert(items.map_values(|item: Json| item->Text_0)[i] == items[i]->Text_0);
            }
        }
    }
}

proof fn an_array_of_bytes(json: Json, bytes: Seq<u8>)
    ensures
        bytes_in(json) == Some(bytes) <==> byte_array(json, bytes),
{
    if let Json::Array(items) = json {
        if byte_array(json, bytes) {
            assert forall|i: int| 0 <= i < items.len() implies (#[trigger] items[i] matches Json::Unsigned(number)
                && number < 256) by {}
            assert(items.map_values(|item: Json| item->Unsigned_0 as u8) =~= bytes);
        }
        if bytes_in(json) == Some(bytes) {
            assert forall|i: int| 0 <= i < items.len() implies #[trigger] items[i] == Json::Unsigned(bytes[i] as u64) by {
                assert(items[i] is Unsigned);
                assert(items.map_values(|item: Json| item->Unsigned_0 as u8)[i] == items[i]->Unsigned_0 as u8);
            }
        }
    }
}

broadcast proof fn a_text_part_is_there(json: Json, key: Seq<char>, position: nat, text: Seq<char>)
    ensures
        #[trigger] text_at(json, key, position, text) <==> text_part(json, key, position) == Some(text),
{
    a_part_is_at_its_place(json, key, position);
    assert(part(json, key, position) == Some(Json::Text(text)) <==> place(json, key, position, Json::Text(text)));
}

broadcast proof fn a_maybe_text_part_is_there(json: Json, key: Seq<char>, position: nat, text: Option<String>)
    ensures
        #[trigger] maybe_text_at(json, key, position, text) <==> optional_text_part(json, key, position) == Some(opt(text)),
{
    a_part_is_at_its_place(json, key, position);
    if let Some(found) = text {
        assert(part(json, key, position) == Some(Json::Text(found@)) <==> place(
            json,
            key,
            position,
            Json::Text(found@),
        ));
    }
    assert(part(json, key, position) == Some(Json::Null) <==> place(json, key, position, Json::Null));
}

broadcast proof fn a_maybe_flag_part_is_there(json: Json, key: Seq<char>, position: nat, flag: Option<bool>)
    ensures
        #[trigger] maybe_flag_at(json, key, position, flag) <==> optional_flag_part(json, key, position) == Some(flag),
{
    a_part_is_at_its_place(json, key, position);
    if let Some(found) = flag {
        assert(part(json, key, position) == Some(Json::Flag(found)) <==> place(json, key, position, Json::Flag(found)));
    }
    assert(part(json, key, position) == Some(Json::Null) <==> place(json, key, position, Json::Null));
}

proof fn the_texts_are_there(json: Json, key: Seq<char>, position: nat, texts: Seq<Seq<char>>)
    ensures
        texts_at(json, key, position, texts) <==> texts_part(json, key, position) == Some(texts),
        texts_at(json, key, position, texts) <==> optional_texts_part(json, key, position) == Some(Some(texts)),
{
    a_part_is_at_its_place(json, key, position);
    if let Some(found) = part(json, key, position) {
        assert(place(json, key, position, found));
        an_array_of_texts(found, texts);
        if texts_at(json, key, position, texts) {
            let other = choose|other: Json| #[trigger] place(json, key, position, other) && array_of(other, texts);
            assert(part(json, key, position) == Some(other));
        }
    } else if texts_at(json, key, position, texts) {
        let other = choose|other: Json| #[trigger] place(json, key, position, other) && array_of(other, texts);
        assert(part(json, key, position) == Some(other));
    }
}

proof fn no_texts_are_there(json: Json, key: Seq<char>, position: nat)
    ensures
        optional_texts_part(json, key, position) == Some(None::<Seq<Seq<char>>>) <==> nowhere(json, key, position) || place(
            json,
            key,
            position,
            Json::Null,
        ),
{
    a_part_is_at_its_place(json, key, position);
    assert(part(json, key, position) == Some(Json::Null) <==> place(json, key, position, Json::Null));
}

broadcast proof fn a_maybe_texts_part_is_there(json: Json, key: Seq<char>, position: nat, texts: Option<Vec<String>>)
    ensures
        #[trigger] maybe_texts_at(json, key, position, texts) <==> optional_texts_part(json, key, position) == Some(
            opt_texts(texts),
        ),
{
    if let Some(list) = texts {
        let all = Seq::new(list@.len(), |i: int| list@[i]@);
        assert(all =~= views(list@));
        the_texts_are_there(json, key, position, all);
    } else {
        no_texts_are_there(json, key, position);
    }
}

broadcast proof fn a_maybe_kinds_part_is_there(
    json: Json,
    key: Seq<char>,
    position: nat,
    kinds: Option<Vec<CultNetSchemaKind>>,
)
    ensures
        #[trigger] maybe_kinds_at(json, key, position, kinds) <==> optional_texts_part(json, key, position) == Some(
            opt_kind_names(kinds),
        ),
{
    if let Some(list) = kinds {
        let all = Seq::new(list@.len(), |i: int| kind_word(list@[i]));
        assert(all =~= kind_names(list@));
        the_texts_are_there(json, key, position, all);
    } else {
        no_texts_are_there(json, key, position);
    }
}

broadcast proof fn a_contracts_part_is_there(
    json: Json,
    key: Seq<char>,
    position: nat,
    contracts: Seq<CultNetWireContract>,
)
    ensures
        #[trigger] contracts_at(json, key, position, contracts) <==> texts_part(json, key, position) == Some(
            contract_names(contracts),
        ),
{
    let all = Seq::new(contracts.len(), |i: int| contract_word(contracts[i]));
    assert(all =~= contract_names(contracts));
    the_texts_are_there(json, key, position, all);
}

broadcast proof fn a_bytes_part_is_there(json: Json, key: Seq<char>, position: nat, bytes: Seq<u8>)
    ensures
        #[trigger] bytes_at(json, key, position, bytes) <==> bytes_part(json, key, position) == Some(bytes),
{
    a_part_is_at_its_place(json, key, position);
    if let Some(found) = part(json, key, position) {
        assert(place(json, key, position, found));
        an_array_of_bytes(found, bytes);
    }
    if bytes_at(json, key, position, bytes) {
        let other = choose|other: Json| #[trigger] place(json, key, position, other) && byte_array(other, bytes);
        assert(part(json, key, position) == Some(other));
        an_array_of_bytes(other, bytes);
    }
}

broadcast proof fn a_value_part_is_there(json: Json, key: Seq<char>, position: nat, value: Json)
    ensures
        #[trigger] place(json, key, position, value) <==> part(json, key, position) == Some(value),
{
    a_part_is_at_its_place(json, key, position);
}

broadcast proof fn a_form_part_is_there<R: JsonForm>(json: Json, key: Seq<char>, position: nat, value: R)
    ensures
        #[trigger] form_at(json, key, position, value) <==> crate::contracts::json_form::reads_part(
            json,
            key,
            position,
            value,
        ),
{
    a_part_is_at_its_place(json, key, position);
    if let Some(found) = part(json, key, position) {
        assert(place(json, key, position, found));
    }
    if form_at(json, key, position, value) {
        let other = choose|other: Json| #[trigger] place(json, key, position, other) && R::reads(other, value);
        assert(part(json, key, position) == Some(other));
    }
}

broadcast proof fn a_forms_part_is_there<R: JsonForm>(json: Json, key: Seq<char>, position: nat, values: Seq<R>)
    ensures
        #[trigger] forms_at(json, key, position, values) <==> crate::contracts::json_form::reads_list_part(
            json,
            key,
            position,
            values,
        ),
{
    a_part_is_at_its_place(json, key, position);
    if let Some(found) = part(json, key, position) {
        assert(place(json, key, position, found));
        assert(forms_of(found, values) <==> crate::contracts::json_form::reads_list(found, values)) by {
            if forms_of(found, values) {
                assert forall|i: int| 0 <= i < values.len() implies R::reads(found->Array_0[i], #[trigger] values[i]) by {
                    assert(R::reads(found->Array_0[i], values[i]));
                }
            }
            if crate::contracts::json_form::reads_list(found, values) {
                let items = found->Array_0;
                assert forall|i: int| 0 <= i < items.len() implies R::reads(#[trigger] items[i], values[i]) by {
                    assert(R::reads(found->Array_0[i], values[i]));
                }
            }
        }
    }
    if forms_at(json, key, position, values) {
        let other = choose|other: Json| #[trigger] place(json, key, position, other) && forms_of(other, values);
        assert(part(json, key, position) == Some(other));
    }
}

broadcast group places {
    a_text_part_is_there,
    a_maybe_text_part_is_there,
    a_maybe_flag_part_is_there,
    a_maybe_texts_part_is_there,
    a_maybe_kinds_part_is_there,
    a_contracts_part_is_there,
    a_bytes_part_is_there,
    a_value_part_is_there,
    a_form_part_is_there,
    a_forms_part_is_there,
}

// ---------------------------------------------------------------------------
// Forms
// ---------------------------------------------------------------------------

/// A kind and a contract go by one name each, which only they have.
pub proof fn names_are_exact(kind: CultNetSchemaKind, contract: CultNetWireContract)
    ensures
        kind.name_text() == kind_word(kind),
        contract.name_text() == contract_word(contract),
{
}

/// A document is read from a JSON value exactly if each of its fields stands at its place, and it is
/// written as an object that it is read from.
pub proof fn document_is_read_from_its_places(json: Json, value: CultNetDocumentRecord<JsonValue>)
    ensures
        <CultNetDocumentRecord<JsonValue> as JsonForm>::reads(json, value) <==> {
            &&& at_most(json, 8)
            &&& text_at(json, "schemaId"@, 0, value.schema_id@)
            &&& text_at(json, "recordKey"@, 1, value.record_key@)
            &&& text_at(json, "storedAt"@, 2, value.stored_at@)
            &&& place(json, "payload"@, 3, value.payload@)
            &&& maybe_text_at(json, "sourceRuntimeId"@, 4, value.source_runtime_id)
            &&& maybe_text_at(json, "sourceAgentId"@, 5, value.source_agent_id)
            &&& maybe_text_at(json, "sourceRole"@, 6, value.source_role)
            &&& maybe_texts_at(json, "tags"@, 7, value.tags)
        },
        value.json() is Object,
        <CultNetDocumentRecord<JsonValue> as JsonForm>::reads(value.json(), value),
{
    broadcast use places;

    value.reads_back();
}

/// A raw document is read from a JSON value exactly if each of its fields stands at its place, and it is
/// written as an object that it is read from.
pub proof fn raw_document_is_read_from_its_places(json: Json, value: CultNetRawDocumentRecord)
    ensures
        <CultNetRawDocumentRecord as JsonForm>::reads(json, value) <==> {
            &&& at_most(json, 9)
            &&& text_at(json, "schemaId"@, 0, value.schema_id@)
            &&& text_at(json, "recordKey"@, 1, value.record_key@)
            &&& text_at(json, "storedAt"@, 2, value.stored_at@)
            &&& text_at(json, "payloadEncoding"@, 3, "messagepack"@)
            &&& bytes_at(json, "payload"@, 4, value.payload@)
            &&& maybe_text_at(json, "sourceRuntimeId"@, 5, value.source_runtime_id)
            &&& maybe_text_at(json, "sourceAgentId"@, 6, value.source_agent_id)
            &&& maybe_text_at(json, "sourceRole"@, 7, value.source_role)
            &&& maybe_texts_at(json, "tags"@, 8, value.tags)
        },
        value.json() is Object,
        <CultNetRawDocumentRecord as JsonForm>::reads(value.json(), value),
{
    broadcast use places;

    value.reads_back();
}

/// A descriptor is read from a JSON value exactly if each of its fields stands at its place, and it is
/// written as an object that it is read from.
pub proof fn descriptor_is_read_from_its_places(json: Json, value: CultNetSchemaDescriptor)
    ensures
        <CultNetSchemaDescriptor as JsonForm>::reads(json, value) <==> {
            &&& at_most(json, 8)
            &&& text_at(json, "schemaId"@, 0, value.schema_id@)
            &&& text_at(json, "kind"@, 1, kind_word(value.kind))
            &&& maybe_text_at(json, "schemaVersion"@, 2, value.schema_version)
            &&& maybe_text_at(json, "documentType"@, 3, value.document_type)
            &&& maybe_text_at(json, "title"@, 4, value.title)
            &&& contracts_at(json, "wireContracts"@, 5, value.wire_contracts@)
            &&& text_at(json, "contentHash"@, 6, value.content_hash@)
            &&& maybe_text_at(json, "schemaJson"@, 7, value.schema_json)
        },
        value.json() is Object,
        <CultNetSchemaDescriptor as JsonForm>::reads(value.json(), value),
{
    broadcast use places;

    value.reads_back();
}

/// The message is read from a JSON value exactly if each of its fields stands at its place
/// behind its name, and it is written as an object that it is read from.
pub proof fn hello_is_read_from_its_places(json: Json, message: CultNetMessage)
    requires
        message is Hello,
    ensures
        CultNetMessage::reads(json, message) <==> (message matches CultNetMessage::Hello { runtime_id, runtime_kind, agent_id, role, display_name, supported_document_types, supported_message_versions, supports_schema_catalog } && {
            &&& text_at(json, "schemaVersion"@, 0, "cultnet.hello.v0"@)
            &&& at_most(json, 9)
            &&& text_at(json, "runtimeId"@, 1, runtime_id@)
            &&& text_at(json, "runtimeKind"@, 2, runtime_kind@)
            &&& maybe_text_at(json, "agentId"@, 3, agent_id)
            &&& maybe_text_at(json, "role"@, 4, role)
            &&& maybe_text_at(json, "displayName"@, 5, display_name)
            &&& maybe_texts_at(json, "supportedDocumentTypes"@, 6, supported_document_types)
            &&& maybe_texts_at(json, "supportedMessageVersions"@, 7, supported_message_versions)
            &&& maybe_flag_at(json, "supportsSchemaCatalog"@, 8, supports_schema_catalog)
        }),
        message.json() is Object,
        CultNetMessage::reads(message.json(), message),
{
    broadcast use places;

    message.reads_back();
}

/// The message is read from a JSON value exactly if each of its fields stands at its place
/// behind its name, and it is written as an object that it is read from.
pub proof fn login_is_read_from_its_places(json: Json, message: CultNetMessage)
    requires
        message is Login,
    ensures
        CultNetMessage::reads(json, message) <==> (message matches CultNetMessage::Login { nonce, auth, password } && {
            &&& text_at(json, "schemaVersion"@, 0, "cultnet.login.v0"@)
            &&& at_most(json, 4)
            &&& text_at(json, "nonce"@, 1, nonce@)
            &&& text_at(json, "auth"@, 2, auth@)
            &&& text_at(json, "password"@, 3, password@)
        }),
        message.json() is Object,
        CultNetMessage::reads(message.json(), message),
{
    broadcast use places;

    message.reads_back();
    crate::contracts::json_form::login_is_no_earlier_tag();
}

/// The message is read from a JSON value exactly if each of its fields stands at its place
/// behind its name, and it is written as an object that it is read from.
pub proof fn register_is_read_from_its_places(json: Json, message: CultNetMessage)
    requires
        message is Register,
    ensures
        CultNetMessage::reads(json, message) <==> (message matches CultNetMessage::Register { nonce, email, password, name } && {
            &&& text_at(json, "schemaVersion"@, 0, "cultnet.register.v0"@)
            &&& at_most(json, 5)
            &&& text_at(json, "nonce"@, 1, nonce@)
            &&& text_at(json, "email"@, 2, email@)
            &&& text_at(json, "password"@, 3, password@)
            &&& text_at(json, "name"@, 4, name@)
        }),
        message.json() is Object,
        CultNetMessage::reads(message.json(), message),
{
    broadcast use places;

    message.reads_back();
    crate::contracts::json_form::register_is_no_earlier_tag();
}

/// The message is read from a JSON value exactly if each of its fields stands at its place
/// behind its name, and it is written as an object that it is read from.
pub proof fn verify_is_read_from_its_places(json: Json, message: CultNetMessage)
    requires
        message is Verify,
    ensures
        CultNetMessage::reads(json, message) <==> (message matches CultNetMessage::Verify { nonce, session } && {
            &&& text_at(json, "schemaVersion"@, 0, "cultnet.verify.v0"@)
            &&& at_most(json, 3)
            &&& text_at(json, "nonce"@, 1, nonce@)
            &&& text_at(json, "session"@, 2, session@)
        }),
        message.json() is Object,
        CultNetMessage::reads(message.json(), message),
{
    broadcast use places;

    message.reads_back();
    crate::contracts::json_form::verify_is_no_earlier_tag();
}

/// The message is read from a JSON value exactly if each of its fields stands at its place
/// behind its name, and it is written as an object that it is read from.
pub proof fn login_success_is_read_from_its_places(json: Json, message: CultNetMessage)
    requires
        message is LoginSuccess,
    ensures
        CultNetMessage::reads(json, message) <==> (message matches CultNetMessage::LoginSuccess { nonce, session } && {
            &&& text_at(json, "schemaVersion"@, 0, "cultnet.login_success.v0"@)
            &&& at_most(json, 3)
            &&& text_at(json, "nonce"@, 1, nonce@)
            &&& text_at(json, "session"@, 2, session@)
        }),
        message.json() is Object,
        CultNetMessage::reads(message.json(), message),
{
    broadcast use places;

    message.reads_back();
    crate::contracts::json_form::login_success_is_no_earlier_tag();
}

/// The message is read from a JSON value exactly if each of its fields stands at its place
/// behind its name, and it is written as an object that it is read from.
pub proof fn error_is_read_from_its_places(json: Json, message: CultNetMessage)
    requires
        message is Error,
    ensures
        CultNetMessage::reads(json, message) <==> (message matches CultNetMessage::Error { error } && {
            &&& text_at(json, "schemaVersion"@, 0, "cultnet.error.v0"@)
            &&& at_most(json, 2)
            &&& text_at(json, "error"@, 1, error@)
        }),
        message.json() is Object,
        CultNetMessage::reads(message.json(), message),
{
    broadcast use places;

    message.reads_back();
    crate::contracts::json_form::error_is_no_earlier_tag();
}

/// The message is read from a JSON value exactly if each of its fields stands at its place
/// behind its name, and it is written as an object that it is read from.
pub proof fn sample_change_name_is_read_from_its_places(json: Json, message: CultNetMessage)
    requires
        message is SampleChangeName,
    ensures
        CultNetMessage::reads(json, message) <==> (message matches CultNetMessage::SampleChangeName { name } && {
            &&& text_at(json, "schemaVersion"@, 0, "cultnet.sample.change_name.v0"@)
            &&& at_most(json, 2)
            &&& text_at(json, "name"@, 1, name@)
        }),
        message.json() is Object,
        CultNetMessage::reads(message.json(), message),
{
    broadcast use places;

    message.reads_back();
    crate::contracts::json_form::sample_change_name_is_no_earlier_tag();
}

/// The message is read from a JSON value exactly if each of its fields stands at its place
/// behind its name, and it is written as an object that it is read from.
pub proof fn sample_chat_is_read_from_its_places(json: Json, message: CultNetMessage)
    requires
        message is SampleChat,
    ensures
        CultNetMessage::reads(json, message) <==> (message matches CultNetMessage::SampleChat { text } && {
            &&& text_at(json, "schemaVersion"@, 0, "cultnet.sample.chat.v0"@)
            &&& at_most(json, 2)
            &&& text_at(json, "text"@, 1, text@)
        }),
        message.json() is Object,
        CultNetMessage::reads(message.json(), message),
{
    broadcast use places;

    message.reads_back();
    crate::contracts::json_form::sample_chat_is_no_earlier_tag();
}

/// The message is read from a JSON value exactly if each of its fields stands at its place
/// behind its name, and it is written as an object that it is read from.
pub proof fn document_put_is_read_from_its_places(json: Json, message: CultNetMessage)
    requires
        message is DocumentPut,
    ensures
        CultNetMessage::reads(json, message) <==> (message matches CultNetMessage::DocumentPut { message_id, document } && {
            &&& text_at(json, "schemaVersion"@, 0, "cultnet.document_put.v0"@)
            &&& at_most(json, 3)
            &&& text_at(json, "messageId"@, 1, message_id@)
            &&& form_at(json, "document"@, 2, document)
        }),
        message.json() is Object,
        CultNetMessage::reads(message.json(), message),
{
    broadcast use places;

    message.reads_back();
    crate::contracts::json_form::document_put_is_no_earlier_tag();
}

/// The message is read from a JSON value exactly if each of its fields stands at its place
/// behind its name, and it is written as an object that it is read from.
pub proof fn document_put_raw_is_read_from_its_places(json: Json, message: CultNetMessage)
    requires
        message is DocumentPutRaw,
    ensures
        CultNetMessage::reads(json, message) <==> (message matches CultNetMessage::DocumentPutRaw { message_id, document } && {
            &&& text_at(json, "schemaVersion"@, 0, "cultnet.document_put_raw.v0"@)
            &&& at_most(json, 3)
            &&& text_at(json, "messageId"@, 1, message_id@)
            &&& form_at(json, "document"@, 2, document)
        }),
        message.json() is Object,
        CultNetMessage::reads(message.json(), message),
{
    broadcast use places;

    message.reads_back();
    crate::contracts::json_form::document_put_raw_is_no_earlier_tag();
}

/// The message is read from a JSON value exactly if each of its fields stands at its place
/// behind its name, and it is written as an object that it is read from.
pub proof fn document_delete_is_read_from_its_places(json: Json, message: CultNetMessage)
    requires
        message is DocumentDelete,
    ensures
        CultNetMessage::reads(json, message) <==> (message matches CultNetMessage::DocumentDelete { message_id, schema_id, record_key } && {
            &&& text_at(json, "schemaVersion"@, 0, "cultnet.document_delete.v0"@)
            &&& at_most(json, 4)
            &&& text_at(json, "messageId"@, 1, message_id@)
            &&& text_at(json, "schemaId"@, 2, schema_id@)
            &&& text_at(json, "recordKey"@, 3, record_key@)
        }),
        message.json() is Object,
        CultNetMessage::reads(message.json(), message),
{
    broadcast use places;

    message.reads_back();
    crate::contracts::json_form::document_delete_is_no_earlier_tag();
}

/// The message is read from a JSON value exactly if each of its fields stands at its place
/// behind its name, and it is written as an object that it is read from.
pub proof fn snapshot_request_is_read_from_its_places(json: Json, message: CultNetMessage)
    requires
        message is SnapshotRequest,
    ensures
        CultNetMessage::reads(json, message) <==> (message matches CultNetMessage::SnapshotRequest { message_id, schema_ids, record_keys } && {
            &&& text_at(json, "schemaVersion"@, 0, "cultnet.snapshot_request.v0"@)
            &&& at_most(json, 4)
            &&& text_at(json, "messageId"@, 1, message_id@)
            &&& maybe_texts_at(json, "schemaIds"@, 2, schema_ids)
            &&& maybe_texts_at(json, "recordKeys"@, 3, record_keys)
        }),
        message.json() is Object,
        CultNetMessage::reads(message.json(), message),
{
    broadcast use places;

    message.reads_back();
    crate::contracts::json_form::snapshot_request_is_no_earlier_tag();
}

/// The message is read from a JSON value exactly if each of its fields stands at its place
/// behind its name, and it is written as an object that it is read from.
pub proof fn snapshot_response_is_read_from_its_places(json: Json, message: CultNetMessage)
    requires
        message is SnapshotResponse,
    ensures
        CultNetMessage::reads(json, message) <==> (message matches CultNetMessage::SnapshotResponse { message_id, documents } && {
            &&& text_at(json, "schemaVersion"@, 0, "cultnet.snapshot_response.v0"@)
            &&& at_most(json, 3)
            &&& text_at(json, "messageId"@, 1, message_id@)
            &&& forms_at(json, "documents"@, 2, documents@)
        }),
        message.json() is Object,
        CultNetMessage::reads(message.json(), message),
{
    broadcast use places;

    message.reads_back();
    crate::contracts::json_form::snapshot_response_is_no_earlier_tag();
}

/// The message is read from a JSON value exactly if each of its fields stands at its place
/// behind its name, and it is written as an object that it is read from.
pub proof fn snapshot_response_raw_is_read_from_its_places(json: Json, message: CultNetMessage)
    requires
        message is SnapshotResponseRaw,
    ensures
        CultNetMessage::reads(json, message) <==> (message matches CultNetMessage::SnapshotResponseRaw { message_id, documents } && {
            &&& text_at(json, "schemaVersion"@, 0, "cultnet.snapshot_response_raw.v0"@)
            &&& at_most(json, 3)
            &&& text_at(json, "messageId"@, 1, message_id@)
            &&& forms_at(json, "documents"@, 2, documents@)
        }),
        message.json() is Object,
        CultNetMessage::reads(message.json(), message),
{
    broadcast use places;

    message.reads_back();
    crate::contracts::json_form::snapshot_response_raw_is_no_earlier_tag();
}

/// The message is read from a JSON value exactly if each of its fields stands at its place
/// behind its name, and it is written as an object that it is read from.
pub proof fn schema_catalog_request_is_read_from_its_places(json: Json, message: CultNetMessage)
    requires
        message is SchemaCatalogRequest,
    ensures
        CultNetMessage::reads(json, message) <==> (message matches CultNetMessage::SchemaCatalogRequest { message_id, include_schema_json, schema_ids, kinds } && {
            &&& text_at(json, "schemaVersion"@, 0, "cultnet.schema_catalog_request.v0"@)
            &&& at_most(json, 5)
            &&& text_at(json, "messageId"@, 1, message_id@)
            &&& maybe_flag_at(json, "includeSchemaJson"@, 2, include_schema_json)
            &&& maybe_texts_at(json, "schemaIds"@, 3, schema_ids)
            &&& maybe_kinds_at(json, "kinds"@, 4, kinds)
        }),
        message.json() is Object,
        CultNetMessage::reads(message.json(), message),
{
    broadcast use places;

    message.reads_back();
    crate::contracts::json_form::schema_catalog_request_is_no_earlier_tag();
}

/// The message is read from a JSON value exactly if each of its fields stands at its place
/// behind its name, and it is written as an object that it is read from.
pub proof fn schema_catalog_response_is_read_from_its_places(json: Json, message: CultNetMessage)
    requires
        message is SchemaCatalogResponse,
    ensures
        CultNetMessage::reads(json, message) <==> (message matches CultNetMessage::SchemaCatalogResponse { message_id, schemas } && {
            &&& text_at(json, "schemaVersion"@, 0, "cultnet.schema_catalog_response.v0"@)
            &&& at_most(json, 3)
            &&& text_at(json, "messageId"@, 1, message_id@)
            &&& forms_at(json, "schemas"@, 2, schemas@)
        }),
        message.json() is Object,
        CultNetMessage::reads(message.json(), message),
{
    broadcast use places;

    message.reads_back();
    crate::contracts::json_form::schema_catalog_response_is_no_earlier_tag();
}

// ---------------------------------------------------------------------------
// Rules
// ---------------------------------------------------------------------------

/// The text is not there, or is filled.
pub open spec fn filled_if_there(text: Option<String>) -> bool {
    text matches Some(found) ==> filled(found@)
}

/// The list is not there, or each of its texts is filled.
pub open spec fn all_filled(texts: Option<Vec<String>>) -> bool {
    texts matches Some(list) ==> forall|i: int| 0 <= i < list@.len() ==> filled((#[trigger] list@[i])@)
}

/// What is said of a field that is not filled.
pub open spec fn unfilled(field: Seq<char>) -> Seq<char> {
    "CultNet field "@ + field + " must be non-empty"@
}

broadcast proof fn a_filled_field_is_taken(text: Seq<char>, field: Seq<char>)
    ensures
        #[trigger] field_violation(text, field) == (if filled(text) {
            None
        } else {
            Some(unfilled(field))
        }),
{
    filled_is_not_blank(text);
}

broadcast proof fn a_filled_text_is_not_blank(text: Seq<char>)
    ensures
        #[trigger] crate::text::blank(text) == !filled(text),
{
    filled_is_not_blank(text);
}

broadcast proof fn a_filled_optional_field_is_taken(text: Option<String>, field: Seq<char>)
    ensures
        #[trigger] optional_field_violation(opt(text), field) == (if filled_if_there(text) {
            None
        } else {
            Some(unfilled(field))
        }),
{
    if let Some(found) = text {
        filled_is_not_blank(found@);
    }
}

broadcast proof fn a_filled_list_is_taken(texts: Option<Vec<String>>, field: Seq<char>)
    ensures
        #[trigger] optional_list_violation(opt_texts(texts), field) == (if all_filled(texts) {
            None
        } else {
            Some(unfilled(field))
        }),
{
    if let Some(list) = texts {
        let all = views(list@);
        if all_filled(texts) {
            assert forall|i: int| 0 <= i < all.len() implies !crate::text::blank(#[trigger] all[i]) by {
                assert(filled(list@[i]@));
                filled_is_not_blank(list@[i]@);
            }
        }
        if none_blank(all) {
            assert forall|i: int| 0 <= i < list@.len() implies filled((#[trigger] list@[i])@) by {
                assert(!crate::text::blank(all[i]));
                filled_is_not_blank(list@[i]@);
            }
        }
    }
}

broadcast group fillings {
    a_filled_field_is_taken,
    a_filled_text_is_not_blank,
    a_filled_optional_field_is_taken,
    a_filled_list_is_taken,
}

/// Every text that a document needs is filled.
pub open spec fn document_is_filled(record: CultNetDocumentRecord<JsonValue>) -> bool {
    &&& filled(record.schema_id@)
    &&& filled(record.record_key@)
    &&& filled(record.stored_at@)
    &&& filled_if_there(record.source_runtime_id)
    &&& filled_if_there(record.source_agent_id)
    &&& filled_if_there(record.source_role)
    &&& all_filled(record.tags)
}

/// A document is refused for the first of its texts that is not filled.
pub proof fn document_needs_these_texts(record: CultNetDocumentRecord<JsonValue>)
    ensures
        record.refusal() is None <==> document_is_filled(record),
        !filled(record.schema_id@) ==> record.refusal() == Some(unfilled("schemaId"@)),
        filled(record.schema_id@) && !filled(record.record_key@) ==> record.refusal() == Some(unfilled("recordKey"@)),
        filled(record.schema_id@) && filled(record.record_key@) && !filled(record.stored_at@) ==> record.refusal() == Some(unfilled("storedAt"@)),
        filled(record.schema_id@) && filled(record.record_key@) && filled(record.stored_at@) && !filled_if_there(record.source_runtime_id) ==> record.refusal() == Some(unfilled("sourceRuntimeId"@)),
        filled(record.schema_id@) && filled(record.record_key@) && filled(record.stored_at@) && filled_if_there(record.source_runtime_id) && !filled_if_there(record.source_agent_id) ==> record.refusal() == Some(unfilled("sourceAgentId"@)),
        filled(record.schema_id@) && filled(record.record_key@) && filled(record.stored_at@) && filled_if_there(record.source_runtime_id) && filled_if_there(record.source_agent_id) && !filled_if_there(record.source_role) ==> record.refusal() == Some(unfilled("sourceRole"@)),
        filled(record.schema_id@) && filled(record.record_key@) && filled(record.stored_at@) && filled_if_there(record.source_runtime_id) && filled_if_there(record.source_agent_id) && filled_if_there(record.source_role) && !all_filled(record.tags) ==> record.refusal() == Some(unfilled("tags"@)),
{
    broadcast use fillings;

}

/// Every text that a raw document needs is filled.
pub open spec fn raw_document_is_filled(record: CultNetRawDocumentRecord) -> bool {
    &&& filled(record.schema_id@)
    &&& filled(record.record_key@)
    &&& filled(record.stored_at@)
    &&& filled_if_there(record.source_runtime_id)
    &&& filled_if_there(record.source_agent_id)
    &&& filled_if_there(record.source_role)
    &&& all_filled(record.tags)
}

/// A raw document is refused for the first of its texts that is not filled.
pub proof fn raw_document_needs_these_texts(record: CultNetRawDocumentRecord)
    ensures
        record.refusal() is None <==> raw_document_is_filled(record),
        !filled(record.schema_id@) ==> record.refusal() == Some(unfilled("schemaId"@)),
        filled(record.schema_id@) && !filled(record.record_key@) ==> record.refusal() == Some(unfilled("recordKey"@)),
        filled(record.schema_id@) && filled(record.record_key@) && !filled(record.stored_at@) ==> record.refusal() == Some(unfilled("storedAt"@)),
        filled(record.schema_id@) && filled(record.record_key@) && filled(record.stored_at@) && !filled_if_there(record.source_runtime_id) ==> record.refusal() == Some(unfilled("sourceRuntimeId"@)),
        filled(record.schema_id@) && filled(record.record_key@) && filled(record.stored_at@) && filled_if_there(record.source_runtime_id) && !filled_if_there(record.source_agent_id) ==> record.refusal() == Some(unfilled("sourceAgentId"@)),
        filled(record.schema_id@) && filled(record.record_key@) && filled(record.stored_at@) && filled_if_there(record.source_runtime_id) && filled_if_there(record.source_agent_id) && !filled_if_there(record.source_role) ==> record.refusal() == Some(unfilled("sourceRole"@)),
        filled(record.schema_id@) && filled(record.record_key@) && filled(record.stored_at@) && filled_if_there(record.source_runtime_id) && filled_if_there(record.source_agent_id) && filled_if_there(record.source_role) && !all_filled(record.tags) ==> record.refusal() == Some(unfilled("tags"@)),
{
    broadcast use fillings;

}

/// Every text that a descriptor needs is filled.
pub open spec fn descriptor_is_filled(record: CultNetSchemaDescriptor) -> bool {
    &&& filled(record.schema_id@)
    &&& filled_if_there(record.schema_version)
    &&& filled_if_there(record.document_type)
    &&& filled_if_there(record.title)
    &&& filled(record.content_hash@)
    &&& filled_if_there(record.schema_json)
}

/// A descriptor is refused for the first of its texts that is not filled.
pub proof fn descriptor_needs_these_texts(record: CultNetSchemaDescriptor)
    ensures
        record.refusal() is None <==> descriptor_is_filled(record),
        !filled(record.schema_id@) ==> record.refusal() == Some(unfilled("schemaId"@)),
        filled(record.schema_id@) && !filled_if_there(record.schema_version) ==> record.refusal() == Some(unfilled("schemaVersion"@)),
        filled(record.schema_id@) && filled_if_there(record.schema_version) && !filled_if_there(record.document_type) ==> record.refusal() == Some(unfilled("documentType"@)),
        filled(record.schema_id@) && filled_if_there(record.schema_version) && filled_if_there(record.document_type) && !filled_if_there(record.title) ==> record.refusal() == Some(unfilled("title"@)),
        filled(record.schema_id@) && filled_if_there(record.schema_version) && filled_if_there(record.document_type) && filled_if_there(record.title) && !filled(record.content_hash@) ==> record.refusal() == Some(unfilled("contentHash"@)),
        filled(record.schema_id@) && filled_if_there(record.schema_version) && filled_if_there(record.document_type) && filled_if_there(record.title) && filled(record.content_hash@) && !filled_if_there(record.schema_json) ==> record.refusal() == Some(unfilled("schemaJson"@)),
{
    broadcast use fillings;

}

/// The message is taken exactly if the texts that it needs are filled, and else is refused
/// for the first that is not.
pub proof fn hello_needs_these_texts(message: &CultNetMessage, outcome: Result<(), CultNetError>)
    requires
        call_ensures(CultNetMessage::validate_message, (message,), outcome),
        *message is Hello,
    ensures
        *message matches CultNetMessage::Hello { runtime_id, runtime_kind, agent_id, role, display_name, supported_document_types, supported_message_versions, supports_schema_catalog } && {
            &&& outcome is Ok <==> filled(runtime_id@) && filled(runtime_kind@) && filled_if_there(agent_id) && filled_if_there(role) && filled_if_there(display_name) && all_filled(supported_document_types) && all_filled(supported_message_versions)
            &&& !filled(runtime_id@) ==> says(outcome, unfilled("runtimeId"@))
            &&& filled(runtime_id@) && !filled(runtime_kind@) ==> says(outcome, unfilled("runtimeKind"@))
            &&& filled(runtime_id@) && filled(runtime_kind@) && !filled_if_there(agent_id) ==> says(outcome, unfilled("agentId"@))
            &&& filled(runtime_id@) && filled(runtime_kind@) && filled_if_there(agent_id) && !filled_if_there(role) ==> says(outcome, unfilled("role"@))
            &&& filled(runtime_id@) && filled(runtime_kind@) && filled_if_there(agent_id) && filled_if_there(role) && !filled_if_there(display_name) ==> says(outcome, unfilled("displayName"@))
            &&& filled(runtime_id@) && filled(runtime_kind@) && filled_if_there(agent_id) && filled_if_there(role) && filled_if_there(display_name) && !all_filled(supported_document_types) ==> says(outcome, unfilled("supportedDocumentTypes"@))
            &&& filled(runtime_id@) && filled(runtime_kind@) && filled_if_there(agent_id) && filled_if_there(role) && filled_if_there(display_name) && all_filled(supported_document_types) && !all_filled(supported_message_versions) ==> says(outcome, unfilled("supportedMessageVersions"@))
        },
{
    broadcast use fillings;

    reveal(CultNetMessage::refusal);
}

/// The message is taken exactly if the texts that it needs are filled, and else is refused
/// for the first that is not.
pub proof fn login_needs_these_texts(message: &CultNetMessage, outcome: Result<(), CultNetError>)
    requires
        call_ensures(CultNetMessage::validate_message, (message,), outcome),
        *message is Login,
    ensures
        *message matches CultNetMessage::Login { nonce, auth, password } && {
            &&& outcome is Ok <==> filled(nonce@) && filled(auth@) && filled(password@)
            &&& !filled(nonce@) ==> says(outcome, unfilled("nonce"@))
            &&& filled(nonce@) && !filled(auth@) ==> says(outcome, unfilled("auth"@))
            &&& filled(nonce@) && filled(auth@) && !filled(password@) ==> says(outcome, unfilled("password"@))
        },
{
    broadcast use fillings;

    reveal(CultNetMessage::refusal);
}

/// The message is taken exactly if the texts that it needs are filled, and else is refused
/// for the first that is not.
pub proof fn register_needs_these_texts(message: &CultNetMessage, outcome: Result<(), CultNetError>)
    requires
        call_ensures(CultNetMessage::validate_message, (message,), outcome),
        *message is Register,
    ensures
        *message matches CultNetMessage::Register { nonce, email, password, name } && {
            &&& outcome is Ok <==> filled(nonce@) && filled(email@) && filled(password@) && filled(name@)
            &&& !filled(nonce@) ==> says(outcome, unfilled("nonce"@))
            &&& filled(nonce@) && !filled(email@) ==> says(outcome, unfilled("email"@))
            &&& filled(nonce@) && filled(email@) && !filled(password@) ==> says(outcome, unfilled("password"@))
            &&& filled(nonce@) && filled(email@) && filled(password@) && !filled(name@) ==> says(outcome, unfilled("name"@))
        },
{
    broadcast use fillings;

    reveal(CultNetMessage::refusal);
}

/// The message is taken exactly if the texts that it needs are filled, and else is refused
/// for the first that is not.
pub proof fn verify_needs_these_texts(message: &CultNetMessage, outcome: Result<(), CultNetError>)
    requires
        call_ensures(CultNetMessage::validate_message, (message,), outcome),
        *message is Verify,
    ensures
        *message matches CultNetMessage::Verify { nonce, session } && {
            &&& outcome is Ok <==> filled(nonce@) && filled(session@)
            &&& !filled(nonce@) ==> says(outcome, unfilled("nonce"@))
            &&& filled(nonce@) && !filled(session@) ==> says(outcome, unfilled("session"@))
        },
{
    broadcast use fillings;

    reveal(CultNetMessage::refusal);
}

/// The message is taken exactly if the texts that it needs are filled, and else is refused
/// for the first that is not.
pub proof fn login_success_needs_these_texts(message: &CultNetMessage, outcome: Result<(), CultNetError>)
    requires
        call_ensures(CultNetMessage::validate_message, (message,), outcome),
        *message is LoginSuccess,
    ensures
        *message matches CultNetMessage::LoginSuccess { nonce, session } && {
            &&& outcome is Ok <==> filled(nonce@) && filled(session@)
            &&& !filled(nonce@) ==> says(outcome, unfilled("nonce"@))
            &&& filled(nonce@) && !filled(session@) ==> says(outcome, unfilled("session"@))
        },
{
    broadcast use fillings;

    reveal(CultNetMessage::refusal);
}

/// The message is taken exactly if the texts that it needs are filled, and else is refused
/// for the first that is not.
pub proof fn error_needs_these_texts(message: &CultNetMessage, outcome: Result<(), CultNetError>)
    requires
        call_ensures(CultNetMessage::validate_message, (message,), outcome),
        *message is Error,
    ensures
        *message matches CultNetMessage::Error { error } && {
            &&& outcome is Ok <==> filled(error@)
            &&& !filled(error@) ==> says(outcome, unfilled("error"@))
        },
{
    broadcast use fillings;

    reveal(CultNetMessage::refusal);
}

/// The message is taken exactly if the texts that it needs are filled, and else is refused
/// for the first that is not.
pub proof fn sample_change_name_needs_these_texts(message: &CultNetMessage, outcome: Result<(), CultNetError>)
    requires
        call_ensures(CultNetMessage::validate_message, (message,), outcome),
        *message is SampleChangeName,
    ensures
        *message matches CultNetMessage::SampleChangeName { name } && {
            &&& outcome is Ok <==> filled(name@)
            &&& !filled(name@) ==> says(outcome, unfilled("name"@))
        },
{
    broadcast use fillings;

    reveal(CultNetMessage::refusal);
}

/// The message is taken exactly if the texts that it needs are filled, and else is refused
/// for the first that is not.
pub proof fn sample_chat_needs_these_texts(message: &CultNetMessage, outcome: Result<(), CultNetError>)
    requires
        call_ensures(CultNetMessage::validate_message, (message,), outcome),
        *message is SampleChat,
    ensures
        *message matches CultNetMessage::SampleChat { text } && {
            &&& outcome is Ok <==> filled(text@)
            &&& !filled(text@) ==> says(outcome, unfilled("text"@))
        },
{
    broadcast use fillings;

    reveal(CultNetMessage::refusal);
}

/// The message is taken exactly if the texts that it needs are filled, and else is refused
/// for the first that is not.
pub proof fn document_delete_needs_these_texts(message: &CultNetMessage, outcome: Result<(), CultNetError>)
    requires
        call_ensures(CultNetMessage::validate_message, (message,), outcome),
        *message is DocumentDelete,
    ensures
        *message matches CultNetMessage::DocumentDelete { message_id, schema_id, record_key } && {
            &&& outcome is Ok <==> filled(message_id@) && filled(schema_id@) && filled(record_key@)
            &&& !filled(message_id@) ==> says(outcome, unfilled("messageId"@))
            &&& filled(message_id@) && !filled(schema_id@) ==> says(outcome, unfilled("schemaId"@))
            &&& filled(message_id@) && filled(schema_id@) && !filled(record_key@) ==> says(outcome, unfilled("recordKey"@))
        },
{
    broadcast use fillings;

    reveal(CultNetMessage::refusal);
}

/// The message is taken exactly if the texts that it needs are filled, and else is refused
/// for the first that is not.
pub proof fn snapshot_request_needs_these_texts(message: &CultNetMessage, outcome: Result<(), CultNetError>)
    requires
        call_ensures(CultNetMessage::validate_message, (message,), outcome),
        *message is SnapshotRequest,
    ensures
        *message matches CultNetMessage::SnapshotRequest { message_id, schema_ids, record_keys } && {
            &&& outcome is Ok <==> filled(message_id@) && all_filled(schema_ids) && all_filled(record_keys)
            &&& !filled(message_id@) ==> says(outcome, unfilled("messageId"@))
            &&& filled(message_id@) && !all_filled(schema_ids) ==> says(outcome, unfilled("schemaIds"@))
            &&& filled(message_id@) && all_filled(schema_ids) && !all_filled(record_keys) ==> says(outcome, unfilled("recordKeys"@))
        },
{
    broadcast use fillings;

    reveal(CultNetMessage::refusal);
}

/// The message is taken exactly if the texts that it needs are filled, and else is refused
/// for the first that is not.
pub proof fn schema_catalog_request_needs_these_texts(message: &CultNetMessage, outcome: Result<(), CultNetError>)
    requires
        call_ensures(CultNetMessage::validate_message, (message,), outcome),
        *message is SchemaCatalogRequest,
    ensures
        *message matches CultNetMessage::SchemaCatalogRequest { message_id, include_schema_json, schema_ids, kinds } && {
            &&& outcome is Ok <==> filled(message_id@) && all_filled(schema_ids)
            &&& !filled(message_id@) ==> says(outcome, unfilled("messageId"@))
            &&& filled(message_id@) && !all_filled(schema_ids) ==> says(outcome, unfilled("schemaIds"@))
        },
{
    broadcast use fillings;

    reveal(CultNetMessage::refusal);
}

/// The message is taken exactly if the texts that it needs are filled, and else is refused
/// for the first that is not.
pub proof fn document_put_needs_these_texts(message: &CultNetMessage, outcome: Result<(), CultNetError>)
    requires
        call_ensures(CultNetMessage::validate_message, (message,), outcome),
        *message is DocumentPut,
    ensures
        *message matches CultNetMessage::DocumentPut { message_id, document } && {
            &&& outcome is Ok <==> filled(message_id@) && filled(document.schema_id@) && filled(document.record_key@) && filled(document.stored_at@) && filled_if_there(document.source_runtime_id) && filled_if_there(document.source_agent_id) && filled_if_there(document.source_role) && all_filled(document.tags)
            &&& !filled(message_id@) ==> says(outcome, unfilled("messageId"@))
            &&& filled(message_id@) && !filled(document.schema_id@) ==> says(outcome, unfilled("schemaId"@))
            &&& filled(message_id@) && filled(document.schema_id@) && !filled(document.record_key@) ==> says(outcome, unfilled("recordKey"@))
            &&& filled(message_id@) && filled(document.schema_id@) && filled(document.record_key@) && !filled(document.stored_at@) ==> says(outcome, unfilled("storedAt"@))
            &&& filled(message_id@) && filled(document.schema_id@) && filled(document.record_key@) && filled(document.stored_at@) && !filled_if_there(document.source_runtime_id) ==> says(outcome, unfilled("sourceRuntimeId"@))
            &&& filled(message_id@) && filled(document.schema_id@) && filled(document.record_key@) && filled(document.stored_at@) && filled_if_there(document.source_runtime_id) && !filled_if_there(document.source_agent_id) ==> says(outcome, unfilled("sourceAgentId"@))
            &&& filled(message_id@) && filled(document.schema_id@) && filled(document.record_key@) && filled(document.stored_at@) && filled_if_there(document.source_runtime_id) && filled_if_there(document.source_agent_id) && !filled_if_there(document.source_role) ==> says(outcome, unfilled("sourceRole"@))
            &&& filled(message_id@) && filled(document.schema_id@) && filled(document.record_key@) && filled(document.stored_at@) && filled_if_there(document.source_runtime_id) && filled_if_there(document.source_agent_id) && filled_if_there(document.source_role) && !all_filled(document.tags) ==> says(outcome, unfilled("tags"@))
        },
{
    broadcast use fillings;

    reveal(CultNetMessage::refusal);
}

/// The message is taken exactly if the texts that it needs are filled, and else is refused
/// for the first that is not.
pub proof fn document_put_raw_needs_these_texts(message: &CultNetMessage, outcome: Result<(), CultNetError>)
    requires
        call_ensures(CultNetMessage::validate_message, (message,), outcome),
        *message is DocumentPutRaw,
    ensures
        *message matches CultNetMessage::DocumentPutRaw { message_id, document } && {
            &&& outcome is Ok <==> filled(message_id@) && filled(document.schema_id@) && filled(document.record_key@) && filled(document.stored_at@) && filled_if_there(document.source_runtime_id) && filled_if_there(document.source_agent_id) && filled_if_there(document.source_role) && all_filled(document.tags)
            &&& !filled(message_id@) ==> says(outcome, unfilled("messageId"@))
            &&& filled(message_id@) && !filled(document.schema_id@) ==> says(outcome, unfilled("schemaId"@))
            &&& filled(message_id@) && filled(document.schema_id@) && !filled(document.record_key@) ==> says(outcome, unfilled("recordKey"@))
            &&& filled(message_id@) && filled(document.schema_id@) && filled(document.record_key@) && !filled(document.stored_at@) ==> says(outcome, unfilled("storedAt"@))
            &&& filled(message_id@) && filled(document.schema_id@) && filled(document.record_key@) && filled(document.stored_at@) && !filled_if_there(document.source_runtime_id) ==> says(outcome, unfilled("sourceRuntimeId"@))
            &&& filled(message_id@) && filled(document.schema_id@) && filled(document.record_key@) && filled(document.stored_at@) && filled_if_there(document.source_runtime_id) && !filled_if_there(document.source_agent_id) ==> says(outcome, unfilled("sourceAgentId"@))
            &&& filled(message_id@) && filled(document.schema_id@) && filled(document.record_key@) && filled(document.stored_at@) && filled_if_there(document.source_runtime_id) && filled_if_there(document.source_agent_id) && !filled_if_there(document.source_role) ==> says(outcome, unfilled("sourceRole"@))
            &&& filled(message_id@) && filled(document.schema_id@) && filled(document.record_key@) && filled(document.stored_at@) && filled_if_there(document.source_runtime_id) && filled_if_there(document.source_agent_id) && filled_if_there(document.source_role) && !all_filled(document.tags) ==> says(outcome, unfilled("tags"@))
        },
{
    broadcast use fillings;

    reveal(CultNetMessage::refusal);
}

/// The message is taken exactly if its id and the texts of everything in it are filled.
pub proof fn snapshot_response_needs_these_texts(message: &CultNetMessage, outcome: Result<(), CultNetError>)
    requires
        call_ensures(CultNetMessage::validate_message, (message,), outcome),
        *message is SnapshotResponse,
    ensures
        *message matches CultNetMessage::SnapshotResponse { message_id, documents } && {
            &&& outcome is Ok <==> filled(message_id@) && forall|i: int|
                0 <= i < documents@.len() ==> document_is_filled(#[trigger] documents@[i])
            &&& !filled(message_id@) ==> says(outcome, unfilled("messageId"@))
            &&& filled(message_id@) ==> forall|i: int|
                0 <= i < documents@.len() && (forall|k: int| 0 <= k < i ==> document_is_filled(#[trigger] documents@[k]))
                    && !document_is_filled(#[trigger] documents@[i]) ==> says(outcome, documents@[i].refusal()->0)
        },
{
    reveal(CultNetMessage::refusal);
    if let CultNetMessage::SnapshotResponse { message_id, documents } = *message {
        filled_is_not_blank(message_id@);
        let reasons = |i: int| documents@[i].refusal();
        no_reason_among_none(reasons, documents@.len());
        assert forall|i: int| 0 <= i < documents@.len() implies (reasons(i) is None <==> document_is_filled(#[trigger] documents@[i])) by {
            document_needs_these_texts(documents@[i]);
        }
        if forall|i: int| 0 <= i < documents@.len() ==> document_is_filled(#[trigger] documents@[i]) {
            assert forall|i: int| 0 <= i < documents@.len() implies (#[trigger] reasons(i)) is None by {
                assert(document_is_filled(documents@[i]));
            }
        }
        if first_among(reasons, documents@.len()) is None {
            assert forall|i: int| 0 <= i < documents@.len() implies document_is_filled(#[trigger] documents@[i]) by {
                assert(reasons(i) is None);
            }
        }
        assert forall|i: int|
            0 <= i < documents@.len() && (forall|k: int| 0 <= k < i ==> document_is_filled(#[trigger] documents@[k])) && !document_is_filled(
                #[trigger] documents@[i],
            ) && filled(message_id@) implies says(outcome, documents@[i].refusal()->0) by {
            assert forall|k: int| 0 <= k < i implies (#[trigger] reasons(k)) is None by {
                assert(document_is_filled(documents@[k]));
            }
            the_earliest_reason_counts(reasons, documents@.len(), i);
        }
    }
}

/// The message is taken exactly if its id and the texts of everything in it are filled.
pub proof fn snapshot_response_raw_needs_these_texts(message: &CultNetMessage, outcome: Result<(), CultNetError>)
    requires
        call_ensures(CultNetMessage::validate_message, (message,), outcome),
        *message is SnapshotResponseRaw,
    ensures
        *message matches CultNetMessage::SnapshotResponseRaw { message_id, documents } && {
            &&& outcome is Ok <==> filled(message_id@) && forall|i: int|
                0 <= i < documents@.len() ==> raw_document_is_filled(#[trigger] documents@[i])
            &&& !filled(message_id@) ==> says(outcome, unfilled("messageId"@))
            &&& filled(message_id@) ==> forall|i: int|
                0 <= i < documents@.len() && (forall|k: int| 0 <= k < i ==> raw_document_is_filled(#[trigger] documents@[k]))
                    && !raw_document_is_filled(#[trigger] documents@[i]) ==> says(outcome, documents@[i].refusal()->0)
        },
{
    reveal(CultNetMessage::refusal);
    if let CultNetMessage::SnapshotResponseRaw { message_id, documents } = *message {
        filled_is_not_blank(message_id@);
        let reasons = |i: int| documents@[i].refusal();
        no_reason_among_none(reasons, documents@.len());
        assert forall|i: int| 0 <= i < documents@.len() implies (reasons(i) is None <==> raw_document_is_filled(#[trigger] documents@[i])) by {
            raw_document_needs_these_texts(documents@[i]);
        }
        if forall|i: int| 0 <= i < documents@.len() ==> raw_document_is_filled(#[trigger] documents@[i]) {
            assert forall|i: int| 0 <= i < documents@.len() implies (#[trigger] reasons(i)) is None by {
                assert(raw_document_is_filled(documents@[i]));
            }
        }
        if first_among(reasons, documents@.len()) is None {
            assert forall|i: int| 0 <= i < documents@.len() implies raw_document_is_filled(#[trigger] documents@[i]) by {
                assert(reasons(i) is None);
            }
        }
        assert forall|i: int|
            0 <= i < documents@.len() && (forall|k: int| 0 <= k < i ==> raw_document_is_filled(#[trigger] documents@[k])) && !raw_document_is_filled(
                #[trigger] documents@[i],
            ) && filled(message_id@) implies says(outcome, documents@[i].refusal()->0) by {
            assert forall|k: int| 0 <= k < i implies (#[trigger] reasons(k)) is None by {
                assert(raw_document_is_filled(documents@[k]));
            }
            the_earliest_reason_counts(reasons, documents@.len(), i);
        }
    }
}

/// The message is taken exactly if its id and the texts of everything in it are filled.
pub proof fn schema_catalog_response_needs_these_texts(message: &CultNetMessage, outcome: Result<(), CultNetError>)
    requires
        call_ensures(CultNetMessage::validate_message, (message,), outcome),
        *message is SchemaCatalogResponse,
    ensures
        *message matches CultNetMessage::SchemaCatalogResponse { message_id, schemas } && {
            &&& outcome is Ok <==> filled(message_id@) && forall|i: int|
                0 <= i < schemas@.len() ==> descriptor_is_filled(#[trigger] schemas@[i])
            &&& !filled(message_id@) ==> says(outcome, unfilled("messageId"@))
            &&& filled(message_id@) ==> forall|i: int|
                0 <= i < schemas@.len() && (forall|k: int| 0 <= k < i ==> descriptor_is_filled(#[trigger] schemas@[k]))
                    && !descriptor_is_filled(#[trigger] schemas@[i]) ==> says(outcome, schemas@[i].refusal()->0)
        },
{
    reveal(CultNetMessage::refusal);
    if let CultNetMessage::SchemaCatalogResponse { message_id, schemas } = *message {
        filled_is_not_blank(message_id@);
        let reasons = |i: int| schemas@[i].refusal();
        no_reason_among_none(reasons, schemas@.len());
        assert forall|i: int| 0 <= i < schemas@.len() implies (reasons(i) is None <==> descriptor_is_filled(#[trigger] schemas@[i])) by {
            descriptor_needs_these_texts(schemas@[i]);
        }
        if forall|i: int| 0 <= i < schemas@.len() ==> descriptor_is_filled(#[trigger] schemas@[i]) {
            assert forall|i: int| 0 <= i < schemas@.len() implies (#[trigger] reasons(i)) is None by {
                assert(descriptor_is_filled(schemas@[i]));
            }
        }
        if first_among(reasons, schemas@.len()) is None {
            assert forall|i: int| 0 <= i < schemas@.len() implies descriptor_is_filled(#[trigger] schemas@[i]) by {
                assert(reasons(i) is None);
            }
        }
        assert forall|i: int|
            0 <= i < schemas@.len() && (forall|k: int| 0 <= k < i ==> descriptor_is_filled(#[trigger] schemas@[k])) && !descriptor_is_filled(
                #[trigger] schemas@[i],
            ) && filled(message_id@) implies says(outcome, schemas@[i].refusal()->0) by {
            assert forall|k: int| 0 <= k < i implies (#[trigger] reasons(k)) is None by {
                assert(descriptor_is_filled(schemas@[k]));
            }
            the_earliest_reason_counts(reasons, schemas@.len(), i);
        }
    }
}

}

//! The two contracts that carry messages: what each of them writes, takes and refuses.
use vstd::prelude::*;
use vstd::utf8::encode_utf8;
use super::messages::{contract_word, kind_word};
use super::snapshots::{filled, filled_is_not_blank};
use super::words::says;
use crate::contracts::codec::{
    decode_cultnet_message_from_slice, encode_cultnet_message_for_wire,
    encode_cultnet_message_to_vec, parse_cultnet_message, CultNetWireValue,
};
use crate::contracts::json_form::JsonForm;
use crate::contracts::legacy_form::{
    bytes_field, contract_names, descriptor_wire, descriptors_wire, kind_names,
    legacy_bytes_violation, string_field,
};
use crate::contracts::{
    CultNetMessage, CultNetSchemaDescriptor, CultNetSchemaKind, CultNetWireContract,
};
use crate::error::CultNetError;
use crate::json::{json_from_messagepack, json_messagepack};
use crate::number::integer;
use crate::primitives::base64_text;
use crate::record::text_list;
use crate::security::{base64_bytes, base64_bytes_encode, base64_is_read_back};
use crate::text::views;
use crate::wire::{messagepack_decoding, messagepack_encoding, Wire};

verus! {

// ---------------------------------------------------------------------------
// The older contract: fields
// ---------------------------------------------------------------------------

/// The text is base64url of some bytes.
pub open spec fn stands_for_bytes(text: Seq<char>) -> bool {
    exists|bytes: Seq<u8>| #[trigger] base64_text(bytes) == text
}

/// The field holds the bytes that the text stands for.
pub open spec fn carries(field: Wire, text: Seq<char>) -> bool {
    field matches Wire::Binary(bytes) && base64_text(bytes) == text
}

proof fn a_text_stands_for_bytes_if_it_is_decoded(text: Seq<char>)
    ensures
        base64_bytes(text) is Some <==> stands_for_bytes(text),
        base64_bytes(text) is Some ==> carries(Wire::Binary(base64_bytes(text)->0), text),
{
    base64_bytes_encode(text);
    if stands_for_bytes(text) {
        let bytes = choose|bytes: Seq<u8>| #[trigger] base64_text(bytes) == text;
        base64_is_read_back(bytes);
    }
}

/// A text is sent as bytes exactly if it is filled and stands for bytes; otherwise the first
/// that fails is said of the field.
pub proof fn a_text_is_sent_as_the_bytes_that_it_stands_for(text: Seq<char>, name: Seq<char>)
    ensures
        legacy_bytes_violation(text, name) is None <==> filled(text) && stands_for_bytes(text),
        !filled(text) ==> legacy_bytes_violation(text, name) == Some(name + " must be a non-empty base64url string"@),
        filled(text) && !stands_for_bytes(text) ==> legacy_bytes_violation(text, name) == Some(
            name + " is not base64url"@,
        ),
{
    filled_is_not_blank(text);
    a_text_stands_for_bytes_if_it_is_decoded(text);
}

/// The text is filled and stands for bytes.
pub open spec fn sendable(text: Seq<char>) -> bool {
    filled(text) && stands_for_bytes(text)
}

/// The older contract carries these nine messages and no other, and of those with
/// credentials only the ones whose texts all stand for bytes.
pub proof fn these_messages_are_carried(message: CultNetMessage)
    ensures
        message.legacy_violation() is None <==> match message {
            CultNetMessage::Login { nonce, auth, password } => sendable(nonce@) && sendable(auth@) && sendable(password@),
            CultNetMessage::Register { nonce, email, password, name } => sendable(nonce@) && sendable(email@)
                && sendable(password@) && sendable(name@),
            CultNetMessage::Verify { nonce, session } => sendable(nonce@) && sendable(session@),
            CultNetMessage::LoginSuccess { nonce, session } => sendable(nonce@) && sendable(session@),
            CultNetMessage::Error { .. } => true,
            CultNetMessage::SampleChangeName { .. } => true,
            CultNetMessage::SampleChat { .. } => true,
            CultNetMessage::SchemaCatalogRequest { .. } => true,
            CultNetMessage::SchemaCatalogResponse { .. } => true,
            _ => false,
        },
        message is Hello || message is DocumentPut || message is DocumentPutRaw || message is DocumentDelete
            || message is SnapshotRequest || message is SnapshotResponse || message is SnapshotResponseRaw
            ==> message.legacy_violation() == Some("Message is not defined in the gamecult.networking.v0 contract"@),
{
    match message {
        CultNetMessage::Login { nonce, auth, password } => {
            a_text_is_sent_as_the_bytes_that_it_stands_for(nonce@, "LoginMessage.Nonce"@);
            a_text_is_sent_as_the_bytes_that_it_stands_for(auth@, "LoginMessage.Auth"@);
            a_text_is_sent_as_the_bytes_that_it_stands_for(password@, "LoginMessage.Password"@);
        },
        CultNetMessage::Register { nonce, email, password, name } => {
            a_text_is_sent_as_the_bytes_that_it_stands_for(nonce@, "RegisterMessage.Nonce"@);
            a_text_is_sent_as_the_bytes_that_it_stands_for(email@, "RegisterMessage.Email"@);
            a_text_is_sent_as_the_bytes_that_it_stands_for(password@, "RegisterMessage.Password"@);
            a_text_is_sent_as_the_bytes_that_it_stands_for(name@, "RegisterMessage.Name"@);
        },
        CultNetMessage::Verify { nonce, session } => {
            a_text_is_sent_as_the_bytes_that_it_stands_for(nonce@, "VerifyMessage.Nonce"@);
            a_text_is_sent_as_the_bytes_that_it_stands_for(session@, "VerifyMessage.Session"@);
        },
        CultNetMessage::LoginSuccess { nonce, session } => {
            a_text_is_sent_as_the_bytes_that_it_stands_for(nonce@, "LoginSuccessMessage.Nonce"@);
            a_text_is_sent_as_the_bytes_that_it_stands_for(session@, "LoginSuccessMessage.Session"@);
        },
        _ => {},
    }
}

/// The texts are a sequence of texts, in their order.
pub open spec fn is_text_sequence(field: Wire, texts: Seq<Seq<char>>) -> bool {
    field matches Wire::Sequence(items) && items.len() == texts.len() && forall|i: int|
        0 <= i < items.len() ==> #[trigger] items[i] == Wire::Text(texts[i])
}

/// The list as a field: nil where there is none.
pub open spec fn is_optional_list(field: Wire, texts: Option<Vec<String>>) -> bool {
    match texts {
        Some(list) => is_text_sequence(field, Seq::new(list@.len(), |i: int| list@[i]@)),
        None => field == Wire::Nil,
    }
}

/// The kinds as a field: nil where there are none.
pub open spec fn is_optional_kinds(field: Wire, kinds: Option<Vec<CultNetSchemaKind>>) -> bool {
    match kinds {
        Some(list) => is_text_sequence(field, Seq::new(list@.len(), |i: int| kind_word(list@[i]))),
        None => field == Wire::Nil,
    }
}

/// The text as a field: nil where there is none.
pub open spec fn is_optional_text(field: Wire, text: Option<String>) -> bool {
    match text {
        Some(found) => field == Wire::Text(found@),
        None => field == Wire::Nil,
    }
}

/// The parts of a descriptor in their order.
pub open spec fn is_descriptor(field: Wire, schema: CultNetSchemaDescriptor) -> bool {
    field matches Wire::Sequence(items) && {
        &&& items.len() == 8
        &&& items[0] == Wire::Text(schema.schema_id@)
        &&& items[1] == Wire::Text(kind_word(schema.kind))
        &&& is_optional_text(items[2], schema.schema_version)
        &&& is_optional_text(items[3], schema.document_type)
        &&& is_optional_text(items[4], schema.title)
        &&& is_text_sequence(
            items[5],
            Seq::new(schema.wire_contracts@.len(), |i: int| contract_word(schema.wire_contracts@[i])),
        )
        &&& items[6] == Wire::Text(schema.content_hash@)
        &&& is_optional_text(items[7], schema.schema_json)
    }
}

proof fn a_list_of_texts_is_a_sequence(texts: Seq<Seq<char>>)
    ensures
        is_text_sequence(text_list(texts), texts),
{
}

proof fn a_descriptor_has_its_parts(schema: CultNetSchemaDescriptor)
    ensures
        is_descriptor(descriptor_wire(schema), schema),
{
    let names = Seq::new(schema.wire_contracts@.len(), |i: int| contract_word(schema.wire_contracts@[i]));
    assert(names =~= contract_names(schema.wire_contracts@));
    a_list_of_texts_is_a_sequence(names);
}

/// Each message goes under its number, with its fields in this order; texts of credentials
/// go as the bytes that they stand for.
pub proof fn messages_are_laid_out_so(message: CultNetMessage)
    requires
        message.legacy_violation() is None,
    ensures
        message.legacy_wire() matches Wire::Sequence(pair) && pair.len() == 2 && pair[0] is Unsigned
            && pair[1] is Sequence && {
            let tag = pair[0]->Unsigned_0;
            let fields = pair[1]->Sequence_0;
            match message {
                CultNetMessage::Login { nonce, auth, password } => {
                    &&& tag == 0
                    &&& fields.len() == 3
                    &&& carries(fields[0], nonce@)
                    &&& carries(fields[1], auth@)
                    &&& carries(fields[2], password@)
                },
                CultNetMessage::Register { nonce, email, password, name } => {
                    &&& tag == 1
                    &&& fields.len() == 4
                    &&& carries(fields[0], nonce@)
                    &&& carries(fields[1], email@)
                    &&& carries(fields[2], password@)
                    &&& carries(fields[3], name@)
                },
                CultNetMessage::Verify { nonce, session } => {
                    &&& tag == 2
                    &&& fields.len() == 2
                    &&& carries(fields[0], nonce@)
                    &&& carries(fields[1], session@)
                },
                CultNetMessage::LoginSuccess { nonce, session } => {
                    &&& tag == 3
                    &&& fields.len() == 2
                    &&& carries(fields[0], nonce@)
                    &&& carries(fields[1], session@)
                },
                CultNetMessage::Error { error } => tag == 4 && fields.len() == 1 && fields[0] == Wire::Text(error@),
                CultNetMessage::SampleChangeName { name } => tag == 5 && fields.len() == 1 && fields[0] == Wire::Text(name@),
                CultNetMessage::SampleChat { text } => tag == 6 && fields.len() == 1 && fields[0] == Wire::Text(text@),
                CultNetMessage::SchemaCatalogRequest { message_id, include_schema_json, schema_ids, kinds } => {
                    &&& tag == 7
                    &&& fields.len() == 4
                    &&& fields[0] == Wire::Text(message_id@)
                    &&& include_schema_json is None ==> fields[1] == Wire::Nil
                    &&& include_schema_json matches Some(flag) ==> fields[1] == Wire::Flag(flag)
                    &&& is_optional_list(fields[2], schema_ids)
                    &&& is_optional_kinds(fields[3], kinds)
                },
                CultNetMessage::SchemaCatalogResponse { message_id, schemas } => {
                    &&& tag == 8
                    &&& fields.len() == 2
                    &&& fields[0] == Wire::Text(message_id@)
                    &&& fields[1] matches Wire::Sequence(items) && items.len() == schemas@.len() && forall|i: int|
                        0 <= i < items.len() ==> is_descriptor(#[trigger] items[i], schemas@[i])
                },
                _ => false,
            }
        },
{
    these_messages_are_carried(message);
    match message {
        CultNetMessage::Login { nonce, auth, password } => {
            a_text_stands_for_bytes_if_it_is_decoded(nonce@);
            a_text_stands_for_bytes_if_it_is_decoded(auth@);
            a_text_stands_for_bytes_if_it_is_decoded(password@);
        },
        CultNetMessage::Register { nonce, email, password, name } => {
            a_text_stands_for_bytes_if_it_is_decoded(nonce@);
            a_text_stands_for_bytes_if_it_is_decoded(email@);
            a_text_stands_for_bytes_if_it_is_decoded(password@);
            a_text_stands_for_bytes_if_it_is_decoded(name@);
        },
        CultNetMessage::Verify { nonce, session } => {
            a_text_stands_for_bytes_if_it_is_decoded(nonce@);
            a_text_stands_for_bytes_if_it_is_decoded(session@);
        },
        CultNetMessage::LoginSuccess { nonce, session } => {
            a_text_stands_for_bytes_if_it_is_decoded(nonce@);
            a_text_stands_for_bytes_if_it_is_decoded(session@);
        },
        CultNetMessage::SchemaCatalogRequest { message_id, include_schema_json, schema_ids, kinds } => {
            if let Some(list) = schema_ids {
                let texts = Seq::new(list@.len(), |i: int| list@[i]@);
                assert(texts =~= views(list@));
                a_list_of_texts_is_a_sequence(texts);
            }
            if let Some(list) = kinds {
                let texts = Seq::new(list@.len(), |i: int| kind_word(list@[i]));
                assert(texts =~= kind_names(list@));
                a_list_of_texts_is_a_sequence(texts);
            }
        },
        CultNetMessage::SchemaCatalogResponse { message_id, schemas } => {
            let items = descriptors_wire(schemas@)->Sequence_0;
            assert forall|i: int| 0 <= i < items.len() implies is_descriptor(#[trigger] items[i], schemas@[i]) by {
                a_descriptor_has_its_parts(schemas@[i]);
            }
        },
        _ => {},
    }
}

// ---------------------------------------------------------------------------
// The older contract: reading
// ---------------------------------------------------------------------------

/// The field is there, and its bytes, or those of its text, are what the text stands for.
pub open spec fn bytes_stand_at(fields: Seq<Wire>, position: int, text: Seq<char>) -> bool {
    0 <= position < fields.len() && match fields[position] {
        Wire::Binary(bytes) => text == base64_text(bytes),
        Wire::Text(found) => text == base64_text(encode_utf8(found)),
        _ => false,
    }
}

/// The field is there and is this text.
pub open spec fn text_stands_at(fields: Seq<Wire>, position: int, text: Seq<char>) -> bool {
    0 <= position < fields.len() && fields[position] == Wire::Text(text)
}

/// The field is there and holds bytes or a text.
pub open spec fn holds_bytes(fields: Seq<Wire>, position: int) -> bool {
    0 <= position < fields.len() && (fields[position] is Binary || fields[position] is Text)
}

/// The field is there and is a text.
pub open spec fn holds_text(fields: Seq<Wire>, position: int) -> bool {
    0 <= position < fields.len() && fields[position] is Text
}

broadcast proof fn bytes_are_read_where_they_stand(fields: Seq<Wire>, position: int, text: Seq<char>)
    ensures
        #[trigger] bytes_stand_at(fields, position, text) <==> bytes_field(fields, position) == Some(text),
{
}

broadcast proof fn texts_are_read_where_they_stand(fields: Seq<Wire>, position: int, text: Seq<char>)
    ensures
        #[trigger] text_stands_at(fields, position, text) <==> string_field(fields, position) == Some(text),
{
}

/// The first element, an integer of 64 bits with a sign.
pub open spec fn number_in(field: Wire, number: int) -> bool {
    match field {
        Wire::Unsigned(found) => found == number && number <= 9223372036854775807,
        Wire::Negative(found) => found == number,
        _ => false,
    }
}

/// A tree is a pair of a number and fields, or is refused for the first of these that it
/// is not; what is read of the fields of each number is this.
pub proof fn a_tree_is_read_so(wire_value: &CultNetWireValue, outcome: Result<CultNetMessage, CultNetError>)
    requires
        call_ensures(parse_cultnet_message, (wire_value, CultNetWireContract::GameCultNetworkingV0), outcome),
        *wire_value is Legacy,
    ensures
        ({
            let tree = wire_value->Legacy_0@;
            let pair = tree->Sequence_0;
            let is_pair = tree is Sequence && pair.len() == 2;
            let numbered = pair[0] is Negative || (pair[0] matches Wire::Unsigned(number) && number
                <= 9223372036854775807);
            let listed = pair[1] is Sequence;
            let fields = pair[1]->Sequence_0;
            &&& !is_pair ==> says(outcome, "gamecult.networking.v0 messages must be a 2-element union array"@)
            &&& is_pair && !numbered ==> says(outcome, "gamecult.networking.v0 message tag must be an integer"@)
            &&& is_pair && numbered && !listed ==> says(
                outcome,
                "gamecult.networking.v0 message payload must be an array"@,
            )
            &&& forall|tag: int|
                is_pair && listed && #[trigger] number_in(pair[0], tag) && (tag < 0 || tag > 8) ==> says(
                    outcome,
                    "Unsupported gamecult.networking.v0 union tag "@ + integer(tag),
                )
            &&& outcome matches Ok(message) ==> is_pair && numbered && listed && match message {
                CultNetMessage::Login { nonce, auth, password } => number_in(pair[0], 0) && bytes_stand_at(
                    fields,
                    0,
                    nonce@,
                ) && bytes_stand_at(fields, 1, auth@) && bytes_stand_at(fields, 2, password@),
                CultNetMessage::Register { nonce, email, password, name } => number_in(pair[0], 1) && bytes_stand_at(
                    fields,
                    0,
                    nonce@,
                ) && bytes_stand_at(fields, 1, email@) && bytes_stand_at(fields, 2, password@) && bytes_stand_at(
                    fields,
                    3,
                    name@,
                ),
                CultNetMessage::Verify { nonce, session } => number_in(pair[0], 2) && bytes_stand_at(fields, 0, nonce@)
                    && bytes_stand_at(fields, 1, session@),
                CultNetMessage::LoginSuccess { nonce, session } => number_in(pair[0], 3) && bytes_stand_at(
                    fields,
                    0,
                    nonce@,
                ) && bytes_stand_at(fields, 1, session@),
                CultNetMessage::Error { error } => number_in(pair[0], 4) && text_stands_at(fields, 0, error@),
                CultNetMessage::SampleChangeName { name } => number_in(pair[0], 5) && text_stands_at(fields, 0, name@),
                CultNetMessage::SampleChat { text } => number_in(pair[0], 6) && text_stands_at(fields, 0, text@),
                CultNetMessage::SchemaCatalogRequest { .. } => number_in(pair[0], 7) && message.legacy_wire()->Sequence_0[1]
                    == pair[1],
                CultNetMessage::SchemaCatalogResponse { .. } => number_in(pair[0], 8)
                    && message.legacy_wire()->Sequence_0[1] == pair[1],
                _ => false,
            }
        }),
{
    broadcast use {bytes_are_read_where_they_stand, texts_are_read_where_they_stand};

}

/// A pair with one of the first seven numbers is read exactly if its fields are there, and is
/// refused in words on the first that is not.
pub proof fn the_first_missing_field_is_named(wire_value: &CultNetWireValue, outcome: Result<CultNetMessage, CultNetError>)
    requires
        call_ensures(parse_cultnet_message, (wire_value, CultNetWireContract::GameCultNetworkingV0), outcome),
        wire_value matches CultNetWireValue::Legacy(tree) && (tree@ matches Wire::Sequence(pair) && pair.len() == 2
            && pair[1] is Sequence),
    ensures
        ({
            let pair = wire_value->Legacy_0@->Sequence_0;
            let fields = pair[1]->Sequence_0;
            let bytes = " must be binary data in gamecult.networking.v0"@;
            let words = " must be a string in gamecult.networking.v0"@;
            &&& number_in(pair[0], 0) ==> {
                &&& outcome is Ok <==> holds_bytes(fields, 0) && holds_bytes(fields, 1) && holds_bytes(fields, 2)
                &&& !holds_bytes(fields, 0) ==> says(outcome, "LoginMessage.Nonce"@ + bytes)
                &&& holds_bytes(fields, 0) && !holds_bytes(fields, 1) ==> says(outcome, "LoginMessage.Auth"@ + bytes)
                &&& holds_bytes(fields, 0) && holds_bytes(fields, 1) && !holds_bytes(fields, 2) ==> says(
                    outcome,
                    "LoginMessage.Password"@ + bytes,
                )
            }
            &&& number_in(pair[0], 1) ==> {
                &&& outcome is Ok <==> holds_bytes(fields, 0) && holds_bytes(fields, 1) && holds_bytes(fields, 2)
                    && holds_bytes(fields, 3)
                &&& !holds_bytes(fields, 0) ==> says(outcome, "RegisterMessage.Nonce"@ + bytes)
                &&& holds_bytes(fields, 0) && !holds_bytes(fields, 1) ==> says(outcome, "RegisterMessage.Email"@ + bytes)
                &&& holds_bytes(fields, 0) && holds_bytes(fields, 1) && !holds_bytes(fields, 2) ==> says(
                    outcome,
                    "RegisterMessage.Password"@ + bytes,
                )
                &&& holds_bytes(fields, 0) && holds_bytes(fields, 1) && holds_bytes(fields, 2) && !holds_bytes(fields, 3)
                    ==> says(outcome, "RegisterMessage.Name"@ + bytes)
            }
            &&& number_in(pair[0], 2) ==> {
                &&& outcome is Ok <==> holds_bytes(fields, 0) && holds_bytes(fields, 1)
                &&& !holds_bytes(fields, 0) ==> says(outcome, "VerifyMessage.Nonce"@ + bytes)
                &&& holds_bytes(fields, 0) && !holds_bytes(fields, 1) ==> says(outcome, "VerifyMessage.Session"@ + bytes)
            }
            &&& number_in(pair[0], 3) ==> {
                &&& outcome is Ok <==> holds_bytes(fields, 0) && holds_bytes(fields, 1)
                &&& !holds_bytes(fields, 0) ==> says(outcome, "LoginSuccessMessage.Nonce"@ + bytes)
                &&& holds_bytes(fields, 0) && !holds_bytes(fields, 1) ==> says(
                    outcome,
                    "LoginSuccessMessage.Session"@ + bytes,
                )
            }
            &&& number_in(pair[0], 4) ==> {
                &&& outcome is Ok <==> holds_text(fields, 0)
                &&& outcome is Err ==> says(outcome, "ErrorMessage.Error"@ + words)
            }
            &&& number_in(pair[0], 5) ==> {
                &&& outcome is Ok <==> holds_text(fields, 0)
                &&& outcome is Err ==> says(outcome, "ChangeNameMessage.Name"@ + words)
            }
            &&& number_in(pair[0], 6) ==> {
                &&& outcome is Ok <==> holds_text(fields, 0)
                &&& outcome is Err ==> says(outcome, "ChatMessage.Text"@ + words)
            }
            &&& number_in(pair[0], 7) && outcome is Err ==> says(
                outcome,
                "SchemaCatalogRequestMessage is malformed in gamecult.networking.v0"@,
            )
            &&& number_in(pair[0], 8) && outcome is Err ==> says(
                outcome,
                "SchemaCatalogResponseMessage is malformed in gamecult.networking.v0"@,
            )
        }),
{
}

// ---------------------------------------------------------------------------
// Both contracts
// ---------------------------------------------------------------------------

/// A value is read under its own contract alone; under the schema contract exactly if some
/// message is in it that meets its rules.
pub proof fn a_value_is_read_under_its_own_contract(
    wire_value: &CultNetWireValue,
    contract: CultNetWireContract,
    message: CultNetMessage,
    outcome: Result<CultNetMessage, CultNetError>,
)
    requires
        call_ensures(parse_cultnet_message, (wire_value, contract), outcome),
    ensures
        contract is CultNetSchemaV0 && wire_value is Legacy ==> says(
            outcome,
            "CultNet value is not a cultnet.schema.v0 message"@,
        ),
        contract is GameCultNetworkingV0 && wire_value is Schema ==> says(
            outcome,
            "CultNet value is not a gamecult.networking.v0 message"@,
        ),
        contract is CultNetSchemaV0 ==> (wire_value matches CultNetWireValue::Schema(json) ==> {
            &&& CultNetMessage::reads(json@, message) ==> (outcome is Ok <==> message.refusal() is None)
            &&& CultNetMessage::reads(json@, message) ==> (message.refusal() matches Some(words) ==> says(
                outcome,
                words,
            ))
            &&& outcome matches Ok(found) ==> CultNetMessage::reads(json@, found)
            &&& (forall|any: CultNetMessage| !#[trigger] CultNetMessage::reads(json@, any)) ==> says(
                outcome,
                "CultNet value is not a cultnet.schema.v0 message"@,
            )
        }),
{
}

/// A message is written exactly if it meets its rules and the contract carries it: as its JSON
/// form under the schema contract, as its pair under the older one; and the bytes are those
/// of that form.
pub proof fn a_message_is_written_in_the_form_of_the_contract(
    message: &CultNetMessage,
    contract: CultNetWireContract,
    value: Result<CultNetWireValue, CultNetError>,
    bytes: Result<Vec<u8>, CultNetError>,
)
    requires
        call_ensures(encode_cultnet_message_for_wire, (message, contract), value),
        call_ensures(encode_cultnet_message_to_vec, (message, contract), bytes),
    ensures
        ({
            let carried = match contract {
                CultNetWireContract::CultNetSchemaV0 => message.settled(),
                CultNetWireContract::GameCultNetworkingV0 => message.legacy_violation() is None,
            };
            &&& value is Ok <==> message.refusal() is None && carried
            &&& bytes is Ok <==> message.refusal() is None && carried
            &&& message.refusal() matches Some(words) ==> says(value, words) && says(bytes, words)
            &&& message.refusal() is None && contract is GameCultNetworkingV0 ==> (message.legacy_violation() matches Some(
                words,
            ) ==> says(value, words) && says(bytes, words))
            &&& contract is CultNetSchemaV0 && value is Ok ==> (value->Ok_0 matches CultNetWireValue::Schema(json)
                && json@ == message.json())
            &&& contract is GameCultNetworkingV0 && value is Ok ==> (value->Ok_0 matches CultNetWireValue::Legacy(tree)
                && tree@ == message.legacy_wire())
            &&& contract is CultNetSchemaV0 && bytes is Ok ==> bytes->Ok_0@ == json_messagepack(message.json())
            &&& contract is GameCultNetworkingV0 && bytes is Ok ==> bytes->Ok_0@ == messagepack_encoding(
                message.legacy_wire(),
            )
        }),
{
}

/// Bytes that are no MessagePack of the contract's form are refused; others are read as the
/// value in them.
pub proof fn bytes_are_read_as_the_value_in_them(
    bytes: &[u8],
    contract: CultNetWireContract,
    message: CultNetMessage,
    outcome: Result<CultNetMessage, CultNetError>,
)
    requires
        call_ensures(decode_cultnet_message_from_slice, (bytes, contract), outcome),
    ensures
        contract is CultNetSchemaV0 && json_from_messagepack(bytes@) is None ==> says(
            outcome,
            "CultNet message is malformed MessagePack"@,
        ),
        contract is GameCultNetworkingV0 && messagepack_decoding(bytes@) is None ==> says(
            outcome,
            "CultNet message is malformed MessagePack"@,
        ),
        contract is CultNetSchemaV0 ==> (json_from_messagepack(bytes@) matches Some(json) ==> {
            &&& CultNetMessage::reads(json, message) ==> (outcome is Ok <==> message.refusal() is None)
            &&& outcome matches Ok(found) ==> CultNetMessage::reads(json, found)
        }),
{
}

}

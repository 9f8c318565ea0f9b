//! Messages to bytes and back, under either wire contract.
use vstd::prelude::*;
use super::json_form::{all_settled, the_form_names_its_message, JsonForm};
use super::legacy_form::{
    a_carried_message_is_read_back, descriptor_wire, descriptors_wire,
    encode_gamecult_networking_message, integer_of, legacy_reads, legacy_refusal,
    parse_gamecult_networking_message, union,
};
use super::{CultNetDocumentRecord, CultNetMessage, CultNetSchemaDescriptor, CultNetWireContract};
use crate::error::{ensure, first_of, refuse, reports, unless, CultNetError};
use crate::json::{
    decode_json, encode_json, json_carried, json_from_messagepack, json_messagepack, Json,
    JsonValue,
};
use crate::record::text_list_is_plain;
use crate::wire::{
    array_length, carried, decode_messagepack, encode_messagepack, map_length,
    messagepack_decoding, messagepack_encoding, plain, starts_with_integer, starts_with_text, trees,
    Wire, WireValue,
};

verus! {

/// What a contract puts on the wire: a JSON value, or a tree of plain values.
#[derive(Debug, PartialEq, Eq)]
pub enum CultNetWireValue {
    Schema(JsonValue),
    Legacy(WireValue),
}

impl CultNetWireValue {
    /// The items, if the value is a sequence of the legacy contract.
    pub fn as_array(&self) -> (items: Option<&Vec<WireValue>>)
        ensures
            match items {
                Some(found) => self matches CultNetWireValue::Legacy(value) && value@ == Wire::Sequence(
                    trees(found@),
                ),
                None => !(self matches CultNetWireValue::Legacy(value) && value@ is Sequence),
            },
    {
        match self {
            CultNetWireValue::Legacy(value) => value.as_array(),
            CultNetWireValue::Schema(_) => None,
        }
    }
}

pub const NO_SCHEMA_MESSAGE: &'static str = "CultNet value is not a cultnet.schema.v0 message";

pub const NO_LEGACY_MESSAGE: &'static str = "CultNet value is not a gamecult.networking.v0 message";

pub const MALFORMED_MESSAGE: &'static str = "CultNet message is malformed MessagePack";

pub const UNSETTLED_PAYLOAD: &'static str = "CultNet document payload is not a JSON value with sorted members";

/// What comes of reading a JSON value: the message that it holds, if it holds one that
/// meets the rules.
pub open spec fn schema_outcome(json: Json, outcome: Result<CultNetMessage, CultNetError>) -> bool {
    &&& (forall|message: CultNetMessage| !#[trigger] CultNetMessage::reads(json, message)) ==> outcome is Err
        && outcome->Err_0@ == NO_SCHEMA_MESSAGE@
    &&& forall|message: CultNetMessage| #[trigger]
        CultNetMessage::reads(json, message) ==> reports(outcome, message.refusal())
    &&& outcome matches Ok(message) ==> CultNetMessage::reads(json, message)
}

/// What comes of reading a tree of the legacy contract.
pub open spec fn legacy_outcome(tree: Wire, outcome: Result<CultNetMessage, CultNetError>) -> bool {
    &&& reports(outcome, legacy_refusal(tree))
    &&& outcome matches Ok(message) ==> legacy_reads(
        integer_of(tree->Sequence_0[0])->0,
        tree->Sequence_0[1]->Sequence_0,
        message,
    )
}

fn parse_schema_message(json: &JsonValue) -> (outcome: Result<CultNetMessage, CultNetError>)
    ensures
        schema_outcome(json@, outcome),
{
    match CultNetMessage::from_json(json) {
        None => refuse(NO_SCHEMA_MESSAGE),
        Some(message) => {
            proof {
                assert forall|other: CultNetMessage| #[trigger]
                    CultNetMessage::reads(json@, other) implies other.refusal() == message.refusal() by {
                    CultNetMessage::read_alike(json@, other, message);
                }
            }
            message.validate_message()?;
            Ok(message)
        },
    }
}

pub fn parse_cultnet_message(wire_value: &CultNetWireValue, contract: CultNetWireContract) -> (outcome: Result<
    CultNetMessage,
    CultNetError,
>)
    ensures
        match (contract, wire_value) {
            (CultNetWireContract::CultNetSchemaV0, CultNetWireValue::Schema(json)) => schema_outcome(
                json@,
                outcome,
            ),
            (CultNetWireContract::GameCultNetworkingV0, CultNetWireValue::Legacy(tree)) => legacy_outcome(
                tree@,
                outcome,
            ),
            (CultNetWireContract::CultNetSchemaV0, CultNetWireValue::Legacy(_)) => outcome is Err
                && outcome->Err_0@ == NO_SCHEMA_MESSAGE@,
            (CultNetWireContract::GameCultNetworkingV0, CultNetWireValue::Schema(_)) => outcome is Err
                && outcome->Err_0@ == NO_LEGACY_MESSAGE@,
        },
{
    match (contract, wire_value) {
        (CultNetWireContract::CultNetSchemaV0, CultNetWireValue::Schema(json)) => parse_schema_message(json),
        (CultNetWireContract::GameCultNetworkingV0, CultNetWireValue::Legacy(tree)) => {
            parse_gamecult_networking_message(tree)
        },
        (CultNetWireContract::CultNetSchemaV0, CultNetWireValue::Legacy(_)) => refuse(NO_SCHEMA_MESSAGE),
        (CultNetWireContract::GameCultNetworkingV0, CultNetWireValue::Schema(_)) => refuse(NO_LEGACY_MESSAGE),
    }
}

fn are_payloads_settled(documents: &Vec<CultNetDocumentRecord<JsonValue>>) -> (found: bool)
    ensures
        found == all_settled(documents@),
{
    let mut i: usize = 0;
    while i < documents.len()
        invariant
            i <= documents@.len(),
            forall|k: int| 0 <= k < i ==> (#[trigger] documents@[k]).settled(),
        decreases documents@.len() - i,
    {
        if !documents[i].payload.is_proper() {
            assert(!documents@[i as int].settled());
            return false;
        }
        i += 1;
    }
    true
}

fn is_settled(message: &CultNetMessage) -> (found: bool)
    ensures
        found == message.settled(),
{
    match message {
        CultNetMessage::DocumentPut { message_id: _, document } => document.payload.is_proper(),
        CultNetMessage::SnapshotResponse { message_id: _, documents } => are_payloads_settled(documents),
        _ => true,
    }
}

/// Why the message cannot be sent under the contract, if it cannot.
pub open spec fn encoding_violation(message: CultNetMessage, contract: CultNetWireContract) -> Option<Seq<char>> {
    first_of(
        message.refusal(),
        match contract {
            CultNetWireContract::CultNetSchemaV0 => unless(message.settled(), UNSETTLED_PAYLOAD@),
            CultNetWireContract::GameCultNetworkingV0 => message.legacy_violation(),
        },
    )
}

pub fn encode_cultnet_message_for_wire(message: &CultNetMessage, contract: CultNetWireContract) -> (outcome: Result<
    CultNetWireValue,
    CultNetError,
>)
    ensures
        reports(outcome, encoding_violation(*message, contract)),
        outcome matches Ok(value) ==> match contract {
            CultNetWireContract::CultNetSchemaV0 => value matches CultNetWireValue::Schema(json) && json@
                == message.json(),
            CultNetWireContract::GameCultNetworkingV0 => value matches CultNetWireValue::Legacy(tree) && tree@
                == message.legacy_wire(),
        },
{
    message.validate_message()?;
    match contract {
        CultNetWireContract::CultNetSchemaV0 => {
            ensure(is_settled(message), UNSETTLED_PAYLOAD)?;
            Ok(CultNetWireValue::Schema(message.to_json()))
        },
        CultNetWireContract::GameCultNetworkingV0 => {
            let tree = encode_gamecult_networking_message(message)?;
            Ok(CultNetWireValue::Legacy(tree))
        },
    }
}

/// The bytes that carry the message under the contract.
pub open spec fn message_bytes(message: CultNetMessage, contract: CultNetWireContract) -> Seq<u8> {
    match contract {
        CultNetWireContract::CultNetSchemaV0 => json_messagepack(message.json()),
        CultNetWireContract::GameCultNetworkingV0 => messagepack_encoding(message.legacy_wire()),
    }
}

proof fn legacy_form_is_plain(message: CultNetMessage)
    requires
        message.legacy_violation() is None,
    ensures
        plain(message.legacy_wire()),
{
    let fields = message.legacy_fields();
    match message {
        CultNetMessage::SchemaCatalogRequest { message_id, include_schema_json, schema_ids, kinds } => {
            if schema_ids is Some {
                text_list_is_plain(super::validation::opt_texts(schema_ids)->0);
            }
            if kinds is Some {
                text_list_is_plain(super::legacy_form::opt_kind_names(kinds)->0);
            }
        },
        CultNetMessage::SchemaCatalogResponse { message_id, schemas } => {
            descriptors_are_plain(schemas@);
        },
        _ => {},
    }
    assert forall|i: int| 0 <= i < fields.len() implies plain(#[trigger] fields[i]) by {}
    let pair = union(message.legacy_tag(), fields)->Sequence_0;
    assert(plain(pair[0]));
    assert(plain(pair[1]));
}

proof fn descriptors_are_plain(schemas: Seq<CultNetSchemaDescriptor>)
    ensures
        plain(descriptors_wire(schemas)),
{
    let items = descriptors_wire(schemas)->Sequence_0;
    assert forall|i: int| 0 <= i < items.len() implies plain(#[trigger] items[i]) by {
        let parts = descriptor_wire(schemas[i])->Sequence_0;
        text_list_is_plain(super::legacy_form::contract_names(schemas[i].wire_contracts@));
        assert forall|k: int| 0 <= k < parts.len() implies plain(#[trigger] parts[k]) by {}
    }
}

/// The bytes have the shape of the contract: a MessagePack map or an array with a string as
/// its first item, or an array of two items with an integer as its first.
pub open spec fn shaped(bytes: Seq<u8>, contract: CultNetWireContract) -> bool {
    match contract {
        CultNetWireContract::CultNetSchemaV0 => map_length(bytes) is Some || starts_with_text(bytes),
        CultNetWireContract::GameCultNetworkingV0 => array_length(bytes) == Some(2nat) && starts_with_integer(bytes),
    }
}

/// No bytes have the shapes of both contracts. What is written under one of them has its
/// shape, and what is read under one of them has its shape, so bytes that were written
/// under one are refused under the other.
pub proof fn the_contracts_do_not_overlap(bytes: Seq<u8>, one: CultNetWireContract, other: CultNetWireContract)
    requires
        shaped(bytes, one),
        one != other,
    ensures
        !shaped(bytes, other),
{
}

pub fn encode_cultnet_message_to_vec(message: &CultNetMessage, contract: CultNetWireContract) -> (outcome: Result<
    Vec<u8>,
    CultNetError,
>)
    ensures
        reports(outcome, encoding_violation(*message, contract)),
        outcome matches Ok(bytes) ==> {
            &&& bytes@ == message_bytes(*message, contract)
            &&& shaped(bytes@, contract)
            &&& contract is CultNetSchemaV0 ==> map_length(bytes@) is Some
        },
{
    let value = encode_cultnet_message_for_wire(message, contract)?;
    match &value {
        CultNetWireValue::Schema(json) => {
            proof {
                message.settled_is_proper();
                the_form_names_its_message(*message);
            }
            Ok(encode_json(json))
        },
        CultNetWireValue::Legacy(tree) => {
            proof {
                legacy_form_is_plain(*message);
            }
            Ok(encode_messagepack(tree))
        },
    }
}

/// The message fits the bounds of its carrier.
pub open spec fn fits_carrier(message: CultNetMessage, contract: CultNetWireContract) -> bool {
    match contract {
        CultNetWireContract::CultNetSchemaV0 => json_carried(message.json(), 1023),
        CultNetWireContract::GameCultNetworkingV0 => carried(message.legacy_wire(), 1023),
    }
}

/// The two messages hold the same: one can be sent for the other.
pub open spec fn same_message(a: CultNetMessage, b: CultNetMessage, contract: CultNetWireContract) -> bool {
    match contract {
        CultNetWireContract::CultNetSchemaV0 => CultNetMessage::reads(a.json(), b) && a.json() == b.json(),
        CultNetWireContract::GameCultNetworkingV0 => legacy_reads(
            a.legacy_tag() as int,
            a.legacy_fields(),
            b,
        ),
    }
}

/// Reads a message, and gives back what was sent: bytes that carry a message under the
/// contract are taken, and the message that comes out holds the same. Bytes with the shape
/// of the other contract are refused.
pub fn decode_cultnet_message_from_slice(bytes: &[u8], contract: CultNetWireContract) -> (outcome: Result<
    CultNetMessage,
    CultNetError,
>)
    ensures
        match contract {
            CultNetWireContract::CultNetSchemaV0 => match json_from_messagepack(bytes@) {
                Some(json) => schema_outcome(json, outcome),
                None => outcome is Err && outcome->Err_0@ == MALFORMED_MESSAGE@,
            },
            CultNetWireContract::GameCultNetworkingV0 => match messagepack_decoding(bytes@) {
                Some(tree) => legacy_outcome(tree, outcome),
                None => outcome is Err && outcome->Err_0@ == MALFORMED_MESSAGE@,
            },
        },
        outcome is Ok ==> shaped(bytes@, contract),
        forall|other: CultNetWireContract| other != contract && #[trigger] shaped(bytes@, other) ==> outcome is Err,
        forall|sent: CultNetMessage|
            encoding_violation(sent, contract) is None && fits_carrier(sent, contract) && bytes@
                == #[trigger] message_bytes(sent, contract) ==> outcome is Ok && same_message(
                sent,
                outcome->Ok_0,
                contract,
            ),
{
    match contract {
        CultNetWireContract::CultNetSchemaV0 => {
            let decoded = decode_json(bytes);
            proof {
                assert forall|sent: CultNetMessage|
                    encoding_violation(sent, contract) is None && fits_carrier(sent, contract) && bytes@
                        == #[trigger] message_bytes(sent, contract) implies decoded is Some && decoded->0@
                    == sent.json() && CultNetMessage::reads(sent.json(), sent) by {
                    sent.settled_is_proper();
                    sent.reads_back();
                }
            }
            match decoded {
                None => refuse(MALFORMED_MESSAGE),
                Some(json) => {
                    let outcome = parse_schema_message(&json);
                    proof {
                        assert forall|sent: CultNetMessage|
                            encoding_violation(sent, contract) is None && fits_carrier(sent, contract) && bytes@
                                == #[trigger] message_bytes(sent, contract) implies outcome is Ok && same_message(
                            sent,
                            outcome->Ok_0,
                            contract,
                        ) by {
                            CultNetMessage::read_alike(sent.json(), sent, outcome->Ok_0);
                        }
                    }
                    outcome
                },
            }
        },
        CultNetWireContract::GameCultNetworkingV0 => {
            let decoded = decode_messagepack(bytes);
            proof {
                assert forall|sent: CultNetMessage|
                    encoding_violation(sent, contract) is None && fits_carrier(sent, contract) && bytes@
                        == #[trigger] message_bytes(sent, contract) implies decoded is Some && decoded->0@
                    == sent.legacy_wire() && legacy_refusal(sent.legacy_wire()) is None by {
                    a_carried_message_is_read_back(sent);
                }
            }
            match decoded {
                None => refuse(MALFORMED_MESSAGE),
                Some(tree) => {
                    let outcome = parse_gamecult_networking_message(&tree);
                    proof {
                        assert forall|sent: CultNetMessage|
                            encoding_violation(sent, contract) is None && fits_carrier(sent, contract) && bytes@
                                == #[trigger] message_bytes(sent, contract) implies outcome is Ok && same_message(
                            sent,
                            outcome->Ok_0,
                            contract,
                        ) by {
                            let pair = sent.legacy_wire()->Sequence_0;
                            assert(pair[0] == Wire::Unsigned(sent.legacy_tag()));
                            assert(pair[1] == Wire::Sequence(sent.legacy_fields()));
                        }
                    }
                    outcome
                },
            }
        },
    }
}

}

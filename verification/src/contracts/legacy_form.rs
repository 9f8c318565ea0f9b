//! The `gamecult.networking.v0` contract: a message is a pair of a union tag and an
//! array of fields.
use vstd::prelude::*;
use vstd::utf8::encode_utf8;
use super::validation::opt_texts;
use super::{CultNetMessage, CultNetSchemaDescriptor, CultNetSchemaKind, CultNetWireContract};
use crate::error::{ensure, first_of, refuse, reports, unless, CultNetError};
use crate::number::{integer, integer_text};
use crate::primitives::{base64_encode, base64_text};
use crate::record::{
    number_field, optional_text, optional_text_field, read_optional_text, read_sequence, read_text,
    read_text_list, sequence_field, text_field, text_list, text_list_field,
};
use crate::security::{base64_bytes, base64_bytes_encode, CultNetSecret};
use crate::text::{blank, is_blank, joined, opt, views};
use crate::wire::{trees, Wire, WireValue};

verus! {

impl WireValue {
    /// The items of a sequence.
    pub fn as_array(&self) -> (items: Option<&Vec<WireValue>>)
        ensures
            match items {
                Some(found) => self@ == Wire::Sequence(trees(found@)),
                None => !(self@ is Sequence),
            },
    {
        read_sequence(self)
    }

    /// The integer, if it fits 64 bits with a sign.
    pub fn as_i64(&self) -> (number: Option<i64>)
        ensures
            match number {
                Some(found) => integer_of(self@) == Some(found as int),
                None => integer_of(self@) is None,
            },
    {
        match self {
            WireValue::Unsigned(number) => if *number <= 0x7fff_ffff_ffff_ffff {
                Some(*number as i64)
            } else {
                None
            },
            WireValue::Negative(number) => Some(*number),
            _ => None,
        }
    }

    /// The bytes of binary data or of a text.
    pub fn as_slice(&self) -> (bytes: Option<&[u8]>)
        ensures
            match bytes {
                Some(found) => bytes_of(self@) == Some(found@),
                None => bytes_of(self@) is None,
            },
    {
        match self {
            WireValue::Binary(bytes) => Some(bytes.as_slice()),
            WireValue::Text(text) => Some(text.as_str().as_bytes()),
            _ => None,
        }
    }
}

/// The integer in a field, if it fits 64 bits with a sign.
pub open spec fn integer_of(field: Wire) -> Option<int> {
    match field {
        Wire::Unsigned(number) => if number <= i64::MAX {
            Some(number as int)
        } else {
            None
        },
        Wire::Negative(number) => Some(number as int),
        _ => None,
    }
}

/// The bytes in a field: binary data, or the bytes of a text.
pub open spec fn bytes_of(field: Wire) -> Option<Seq<u8>> {
    match field {
        Wire::Binary(bytes) => Some(bytes),
        Wire::Text(text) => Some(encode_utf8(text)),
        _ => None,
    }
}

/// The field at the position, if there is one.
pub open spec fn field_at(fields: Seq<Wire>, position: int) -> Option<Wire> {
    if 0 <= position < fields.len() {
        Some(fields[position])
    } else {
        None
    }
}

/// The text that stands for the bytes of a field.
pub open spec fn bytes_field(fields: Seq<Wire>, position: int) -> Option<Seq<char>> {
    match field_at(fields, position) {
        Some(field) => match bytes_of(field) {
            Some(bytes) => Some(base64_text(bytes)),
            None => None,
        },
        None => None,
    }
}

/// The text of a field.
pub open spec fn string_field(fields: Seq<Wire>, position: int) -> Option<Seq<char>> {
    match field_at(fields, position) {
        Some(Wire::Text(text)) => Some(text),
        _ => None,
    }
}

pub open spec fn bytes_refusal(name: Seq<char>) -> Seq<char> {
    name + " must be binary data in gamecult.networking.v0"@
}

pub open spec fn string_refusal(name: Seq<char>) -> Seq<char> {
    name + " must be a string in gamecult.networking.v0"@
}

fn require_legacy_bytes(fields: &Vec<WireValue>, position: usize, name: &str) -> (outcome: Result<String, CultNetError>)
    ensures
        reports(
            outcome,
            unless(bytes_field(trees(fields@), position as int) is Some, bytes_refusal(name@)),
        ),
        outcome matches Ok(text) ==> bytes_field(trees(fields@), position as int) == Some(text@),
{
    if position < fields.len() {
        assert(trees(fields@)[position as int] == fields@[position as int]@);
        if let Some(bytes) = fields[position].as_slice() {
            return Ok(base64_encode(bytes));
        }
    }
    refuse(&joined(name, " must be binary data in gamecult.networking.v0"))
}

fn require_legacy_string(fields: &Vec<WireValue>, position: usize, name: &str) -> (outcome: Result<
    String,
    CultNetError,
>)
    ensures
        reports(
            outcome,
            unless(string_field(trees(fields@), position as int) is Some, string_refusal(name@)),
        ),
        outcome matches Ok(text) ==> string_field(trees(fields@), position as int) == Some(text@),
{
    if position < fields.len() {
        assert(trees(fields@)[position as int] == fields@[position as int]@);
        if let Some(text) = read_text(&fields[position]) {
            return Ok(text);
        }
    }
    refuse(&joined(name, " must be a string in gamecult.networking.v0"))
}

/// Why the text cannot be sent as bytes, if it cannot.
pub open spec fn legacy_bytes_violation(text: Seq<char>, name: Seq<char>) -> Option<Seq<char>> {
    first_of(
        unless(!blank(text), name + " must be a non-empty base64url string"@),
        unless(base64_bytes(text) is Some, name + " is not base64url"@),
    )
}

fn legacy_bytes(text: &str, name: &str) -> (outcome: Result<WireValue, CultNetError>)
    ensures
        reports(outcome, legacy_bytes_violation(text@, name@)),
        outcome matches Ok(field) ==> field@ == Wire::Binary(base64_bytes(text@)->0),
{
    ensure(!is_blank(text), &joined(name, " must be a non-empty base64url string"))?;
    match CultNetSecret::from_base64_url(text) {
        Ok(bytes) => Ok(WireValue::Binary(bytes)),
        Err(_) => refuse(&joined(name, " is not base64url")),
    }
}

// ---------------------------------------------------------------------------
// Schema catalogs
// ---------------------------------------------------------------------------

/// The names of the kinds.
pub open spec fn kind_names(kinds: Seq<CultNetSchemaKind>) -> Seq<Seq<char>> {
    kinds.map_values(|kind: CultNetSchemaKind| kind.name_text())
}

/// The names of the contracts.
pub open spec fn contract_names(contracts: Seq<CultNetWireContract>) -> Seq<Seq<char>> {
    contracts.map_values(|contract: CultNetWireContract| contract.name_text())
}

pub fn names_of_kinds(kinds: &Vec<CultNetSchemaKind>) -> (names: Vec<String>)
    ensures
        views(names@) == kind_names(kinds@),
{
    let mut names: Vec<String> = Vec::new();
    let mut i: usize = 0;
    while i < kinds.len()
        invariant
            i <= kinds@.len(),
            names@.len() == i,
            forall|k: int| 0 <= k < i ==> (#[trigger] names@[k])@ == kinds@[k].name_text(),
        decreases kinds@.len() - i,
    {
        names.push(kinds[i].name().to_owned());
        i += 1;
    }
    assert(views(names@) =~= kind_names(kinds@));
    names
}

pub fn names_of_contracts(contracts: &Vec<CultNetWireContract>) -> (names: Vec<String>)
    ensures
        views(names@) == contract_names(contracts@),
{
    let mut names: Vec<String> = Vec::new();
    let mut i: usize = 0;
    while i < contracts.len()
        invariant
            i <= contracts@.len(),
            names@.len() == i,
            forall|k: int| 0 <= k < i ==> (#[trigger] names@[k])@ == contracts@[k].name_text(),
        decreases contracts@.len() - i,
    {
        names.push(contracts[i].name().to_owned());
        i += 1;
    }
    assert(views(names@) =~= contract_names(contracts@));
    names
}

pub fn kinds_of_names(names: &Vec<String>) -> (kinds: Option<Vec<CultNetSchemaKind>>)
    ensures
        match kinds {
            Some(found) => kind_names(found@) == views(names@),
            None => forall|any: Seq<CultNetSchemaKind>| #[trigger] kind_names(any) != views(names@),
        },
{
    let mut kinds: Vec<CultNetSchemaKind> = Vec::new();
    let mut i: usize = 0;
    while i < names.len()
        invariant
            i <= names@.len(),
            kinds@.len() == i,
            forall|k: int| 0 <= k < i ==> (#[trigger] kinds@[k]).name_text() == names@[k]@,
        decreases names@.len() - i,
    {
        match CultNetSchemaKind::from_name(&names[i]) {
            Some(kind) => {
                kinds.push(kind);
            },
            None => {
                assert forall|any: Seq<CultNetSchemaKind>| #[trigger] kind_names(any) != views(names@) by {
                    if kind_names(any) == views(names@) {
                        assert(kind_names(any).len() == views(names@).len());
                        assert(kind_names(any)[i as int] == any[i as int].name_text());
                        assert(views(names@)[i as int] == names@[i as int]@);
                    }
                }
                return None;
            },
        }
        i += 1;
    }
    assert(kind_names(kinds@) =~= views(names@));
    Some(kinds)
}

pub fn contracts_of_names(names: &Vec<String>) -> (contracts: Option<Vec<CultNetWireContract>>)
    ensures
        match contracts {
            Some(found) => contract_names(found@) == views(names@),
            None => forall|any: Seq<CultNetWireContract>| #[trigger] contract_names(any) != views(names@),
        },
{
    let mut contracts: Vec<CultNetWireContract> = Vec::new();
    let mut i: usize = 0;
    while i < names.len()
        invariant
            i <= names@.len(),
            contracts@.len() == i,
            forall|k: int| 0 <= k < i ==> (#[trigger] contracts@[k]).name_text() == names@[k]@,
        decreases names@.len() - i,
    {
        match CultNetWireContract::from_name(&names[i]) {
            Some(contract) => {
                contracts.push(contract);
            },
            None => {
                assert forall|any: Seq<CultNetWireContract>| #[trigger] contract_names(any) != views(
                    names@,
                ) by {
                    if contract_names(any) == views(names@) {
                        assert(contract_names(any).len() == views(names@).len());
                        assert(contract_names(any)[i as int] == any[i as int].name_text());
                        assert(views(names@)[i as int] == names@[i as int]@);
                    }
                }
                return None;
            },
        }
        i += 1;
    }
    assert(contract_names(contracts@) =~= views(names@));
    Some(contracts)
}

/// An optional list of texts as a field.
pub open spec fn optional_text_list(texts: Option<Seq<Seq<char>>>) -> Wire {
    match texts {
        Some(found) => text_list(found),
        None => Wire::Nil,
    }
}

/// An optional flag as a field.
pub open spec fn optional_flag(flag: Option<bool>) -> Wire {
    match flag {
        Some(found) => Wire::Flag(found),
        None => Wire::Nil,
    }
}

/// The names of the kinds of an optional list.
pub open spec fn opt_kind_names(kinds: Option<Vec<CultNetSchemaKind>>) -> Option<Seq<Seq<char>>> {
    match kinds {
        Some(found) => Some(kind_names(found@)),
        None => None,
    }
}

fn optional_text_list_field(texts: &Option<Vec<String>>) -> (field: WireValue)
    ensures
        field@ == optional_text_list(opt_texts(*texts)),
{
    match texts {
        Some(found) => text_list_field(found),
        None => WireValue::Nil,
    }
}

fn optional_flag_field(flag: &Option<bool>) -> (field: WireValue)
    ensures
        field@ == optional_flag(*flag),
{
    match flag {
        Some(found) => WireValue::Flag(*found),
        None => WireValue::Nil,
    }
}

/// A descriptor as a field: its parts in their order.
pub open spec fn descriptor_wire(schema: CultNetSchemaDescriptor) -> Wire {
    Wire::Sequence(
        seq![
            Wire::Text(schema.schema_id@),
            Wire::Text(schema.kind.name_text()),
            optional_text(opt(schema.schema_version)),
            optional_text(opt(schema.document_type)),
            optional_text(opt(schema.title)),
            text_list(contract_names(schema.wire_contracts@)),
            Wire::Text(schema.content_hash@),
            optional_text(opt(schema.schema_json)),
        ],
    )
}

/// Descriptors as a field.
pub open spec fn descriptors_wire(schemas: Seq<CultNetSchemaDescriptor>) -> Wire {
    Wire::Sequence(schemas.map_values(|schema: CultNetSchemaDescriptor| descriptor_wire(schema)))
}

fn descriptor_field(schema: &CultNetSchemaDescriptor) -> (field: WireValue)
    ensures
        field@ == descriptor_wire(*schema),
{
    let field = sequence_field(
        vec![
            text_field(&schema.schema_id),
            text_field(schema.kind.name()),
            optional_text_field(&schema.schema_version),
            optional_text_field(&schema.document_type),
            optional_text_field(&schema.title),
            text_list_field(&names_of_contracts(&schema.wire_contracts)),
            text_field(&schema.content_hash),
            optional_text_field(&schema.schema_json),
        ],
    );
    assert(field@->Sequence_0 =~= descriptor_wire(*schema)->Sequence_0);
    field
}

fn descriptors_field(schemas: &Vec<CultNetSchemaDescriptor>) -> (field: WireValue)
    ensures
        field@ == descriptors_wire(schemas@),
{
    let mut items: Vec<WireValue> = Vec::new();
    let mut i: usize = 0;
    while i < schemas.len()
        invariant
            i <= schemas@.len(),
            items@.len() == i,
            forall|k: int| 0 <= k < i ==> (#[trigger] items@[k])@ == descriptor_wire(schemas@[k]),
        decreases schemas@.len() - i,
    {
        items.push(descriptor_field(&schemas[i]));
        i += 1;
    }
    let field = sequence_field(items);
    assert(field@->Sequence_0 =~= descriptors_wire(schemas@)->Sequence_0);
    field
}

fn read_descriptor(field: &WireValue) -> (schema: Option<CultNetSchemaDescriptor>)
    ensures
        match schema {
            Some(found) => descriptor_wire(found) == field@,
            None => forall|any: CultNetSchemaDescriptor| #[trigger] descriptor_wire(any) != field@,
        },
{
    let items = match crate::record::read_items(field, 8) {
        Some(found) => found,
        None => {
            return None;
        },
    };
    let ghost all = trees(items@);
    assert forall|any: CultNetSchemaDescriptor| #[trigger] descriptor_wire(any) == field@ implies {
        &&& all[0] is Text
        &&& all[1] == Wire::Text(any.kind.name_text())
        &&& all[2] is Text || all[2] is Nil
        &&& all[3] is Text || all[3] is Nil
        &&& all[4] is Text || all[4] is Nil
        &&& all[5] == text_list(contract_names(any.wire_contracts@))
        &&& all[6] is Text
        &&& all[7] is Text || all[7] is Nil
    } by {
        assert(descriptor_wire(any)->Sequence_0 == all);
    }
    let schema_id = read_text(&items[0])?;
    let kind_name = read_text(&items[1])?;
    let kind = CultNetSchemaKind::from_name(&kind_name)?;
    let schema_version = read_optional_text(&items[2])?;
    let document_type = read_optional_text(&items[3])?;
    let title = read_optional_text(&items[4])?;
    let names = read_text_list(&items[5])?;
    proof {
        assert forall|any: CultNetSchemaDescriptor| #[trigger] descriptor_wire(any) == field@ implies contract_names(
            any.wire_contracts@,
        ) == views(names@) by {
            crate::record::text_list_is_faithful(contract_names(any.wire_contracts@), views(names@));
        }
    }
    let wire_contracts = contracts_of_names(&names)?;
    let content_hash = read_text(&items[6])?;
    let schema_json = read_optional_text(&items[7])?;
    let schema = CultNetSchemaDescriptor {
        schema_id,
        kind,
        schema_version,
        document_type,
        title,
        wire_contracts,
        content_hash,
        schema_json,
    };
    assert(descriptor_wire(schema)->Sequence_0 =~= all);
    Some(schema)
}

fn read_descriptors(field: &WireValue) -> (schemas: Option<Vec<CultNetSchemaDescriptor>>)
    ensures
        match schemas {
            Some(found) => descriptors_wire(found@) == field@,
            None => forall|any: Seq<CultNetSchemaDescriptor>| #[trigger] descriptors_wire(any) != field@,
        },
{
    match read_sequence(field) {
        None => None,
        Some(items) => {
            let mut out: Vec<CultNetSchemaDescriptor> = Vec::new();
            let mut i: usize = 0;
            while i < items.len()
                invariant
                    i <= items@.len(),
                    field@ == Wire::Sequence(trees(items@)),
                    out@.len() == i,
                    forall|k: int| 0 <= k < i ==> trees(items@)[k] == descriptor_wire(#[trigger] out@[k]),
                decreases items@.len() - i,
            {
                let schema = read_descriptor(&items[i]);
                assert(trees(items@)[i as int] == items@[i as int]@);
                match schema {
                    Some(found) => {
                        out.push(found);
                    },
                    None => {
                        assert forall|any: Seq<CultNetSchemaDescriptor>|
                            #[trigger] descriptors_wire(any) != field@ by {
                            if descriptors_wire(any) == field@ {
                                assert(descriptors_wire(any)->Sequence_0 == trees(items@));
                                assert(any.len() == items@.len());
                                assert(descriptors_wire(any)->Sequence_0[i as int] == descriptor_wire(
                                    any[i as int],
                                ));
                            }
                        }
                        return None;
                    },
                }
                i += 1;
            }
            assert(trees(items@) =~= descriptors_wire(out@)->Sequence_0);
            Some(out)
        },
    }
}

/// An optional flag, with its absence told apart from something else.
fn read_optional_flag(field: &WireValue) -> (flag: Option<Option<bool>>)
    ensures
        match flag {
            Some(found) => field@ == optional_flag(found),
            None => forall|any: Option<bool>| field@ != #[trigger] optional_flag(any),
        },
{
    match field {
        WireValue::Nil => Some(None),
        WireValue::Flag(found) => Some(Some(*found)),
        _ => None,
    }
}

fn read_optional_text_list(field: &WireValue) -> (texts: Option<Option<Vec<String>>>)
    ensures
        match texts {
            Some(found) => field@ == optional_text_list(opt_texts(found)),
            None => forall|any: Option<Seq<Seq<char>>>| field@ != #[trigger] optional_text_list(any),
        },
{
    match field {
        WireValue::Nil => Some(None),
        _ => match read_text_list(field) {
            Some(found) => Some(Some(found)),
            None => None,
        },
    }
}

// ---------------------------------------------------------------------------
// Writing
// ---------------------------------------------------------------------------

/// The pair of a tag and fields.
pub open spec fn union(tag: u64, fields: Seq<Wire>) -> Wire {
    Wire::Sequence(seq![Wire::Unsigned(tag), Wire::Sequence(fields)])
}

fn union_value(tag: u64, fields: Vec<WireValue>) -> (value: WireValue)
    ensures
        value@ == union(tag, trees(fields@)),
{
    let value = sequence_field(vec![number_field(tag), sequence_field(fields)]);
    assert(value@->Sequence_0 =~= union(tag, trees(fields@))->Sequence_0);
    value
}

impl CultNetMessage {
    /// Why the contract cannot carry the message, if it cannot.
    pub open spec fn legacy_violation(self) -> Option<Seq<char>> {
        match self {
            CultNetMessage::Login { nonce, auth, password } => first_of(
                legacy_bytes_violation(nonce@, "LoginMessage.Nonce"@),
                first_of(
                    legacy_bytes_violation(auth@, "LoginMessage.Auth"@),
                    legacy_bytes_violation(password@, "LoginMessage.Password"@),
                ),
            ),
            CultNetMessage::Register { nonce, email, password, name } => first_of(
                first_of(
                    legacy_bytes_violation(nonce@, "RegisterMessage.Nonce"@),
                    legacy_bytes_violation(email@, "RegisterMessage.Email"@),
                ),
                first_of(
                    legacy_bytes_violation(password@, "RegisterMessage.Password"@),
                    legacy_bytes_violation(name@, "RegisterMessage.Name"@),
                ),
            ),
            CultNetMessage::Verify { nonce, session } => first_of(
                legacy_bytes_violation(nonce@, "VerifyMessage.Nonce"@),
                legacy_bytes_violation(session@, "VerifyMessage.Session"@),
            ),
            CultNetMessage::LoginSuccess { nonce, session } => first_of(
                legacy_bytes_violation(nonce@, "LoginSuccessMessage.Nonce"@),
                legacy_bytes_violation(session@, "LoginSuccessMessage.Session"@),
            ),
            CultNetMessage::Error { .. } => None,
            CultNetMessage::SampleChangeName { .. } => None,
            CultNetMessage::SampleChat { .. } => None,
            CultNetMessage::SchemaCatalogRequest { .. } => None,
            CultNetMessage::SchemaCatalogResponse { .. } => None,
            _ => Some("Message is not defined in the gamecult.networking.v0 contract"@),
        }
    }

    /// The tag under which the contract carries the message.
    pub open spec fn legacy_tag(self) -> u64 {
        match self {
            CultNetMessage::Login { .. } => 0,
            CultNetMessage::Register { .. } => 1,
            CultNetMessage::Verify { .. } => 2,
            CultNetMessage::LoginSuccess { .. } => 3,
            CultNetMessage::Error { .. } => 4,
            CultNetMessage::SampleChangeName { .. } => 5,
            CultNetMessage::SampleChat { .. } => 6,
            CultNetMessage::SchemaCatalogRequest { .. } => 7,
            _ => 8,
        }
    }

    /// The fields that the contract gives the message.
    pub open spec fn legacy_fields(self) -> Seq<Wire> {
        match self {
            CultNetMessage::Login { nonce, auth, password } => seq![
                Wire::Binary(base64_bytes(nonce@)->0),
                Wire::Binary(base64_bytes(auth@)->0),
                Wire::Binary(base64_bytes(password@)->0),
            ],
            CultNetMessage::Register { nonce, email, password, name } => seq![
                Wire::Binary(base64_bytes(nonce@)->0),
                Wire::Binary(base64_bytes(email@)->0),
                Wire::Binary(base64_bytes(password@)->0),
                Wire::Binary(base64_bytes(name@)->0),
            ],
            CultNetMessage::Verify { nonce, session } => seq![
                Wire::Binary(base64_bytes(nonce@)->0),
                Wire::Binary(base64_bytes(session@)->0),
            ],
            CultNetMessage::LoginSuccess { nonce, session } => seq![
                Wire::Binary(base64_bytes(nonce@)->0),
                Wire::Binary(base64_bytes(session@)->0),
            ],
            CultNetMessage::Error { error } => seq![Wire::Text(error@)],
            CultNetMessage::SampleChangeName { name } => seq![Wire::Text(name@)],
            CultNetMessage::SampleChat { text } => seq![Wire::Text(text@)],
            CultNetMessage::SchemaCatalogRequest { message_id, include_schema_json, schema_ids, kinds } => seq![
                Wire::Text(message_id@),
                optional_flag(include_schema_json),
                optional_text_list(opt_texts(schema_ids)),
                optional_text_list(opt_kind_names(kinds)),
            ],
            CultNetMessage::SchemaCatalogResponse { message_id, schemas } => seq![
                Wire::Text(message_id@),
                descriptors_wire(schemas@),
            ],
            _ => Seq::empty(),
        }
    }

    /// The form that the contract gives the message.
    pub open spec fn legacy_wire(self) -> Wire {
        union(self.legacy_tag(), self.legacy_fields())
    }
}

fn legacy_credentials(
    first: &str,
    first_name: &str,
    second: &str,
    second_name: &str,
) -> (outcome: Result<Vec<WireValue>, CultNetError>)
    ensures
        reports(
            outcome,
            first_of(
                legacy_bytes_violation(first@, first_name@),
                legacy_bytes_violation(second@, second_name@),
            ),
        ),
        outcome matches Ok(fields) ==> trees(fields@) == seq![
            Wire::Binary(base64_bytes(first@)->0),
            Wire::Binary(base64_bytes(second@)->0),
        ],
{
    let fields = vec![legacy_bytes(first, first_name)?, legacy_bytes(second, second_name)?];
    assert(trees(fields@) =~= seq![
        Wire::Binary(base64_bytes(first@)->0),
        Wire::Binary(base64_bytes(second@)->0),
    ]);
    Ok(fields)
}

fn append_field(fields: Vec<WireValue>, field: WireValue) -> (longer: Vec<WireValue>)
    ensures
        trees(longer@) == trees(fields@).push(field@),
{
    let mut longer = fields;
    longer.push(field);
    assert(trees(longer@) =~= trees(fields@).push(field@));
    longer
}

fn single_text(text: &str) -> (fields: Vec<WireValue>)
    ensures
        trees(fields@) == seq![Wire::Text(text@)],
{
    let fields = vec![text_field(text)];
    assert(trees(fields@) =~= seq![Wire::Text(text@)]);
    fields
}

fn catalog_request_values(
    message_id: &str,
    include_schema_json: &Option<bool>,
    schema_ids: &Option<Vec<String>>,
    kinds: &Option<Vec<CultNetSchemaKind>>,
) -> (fields: Vec<WireValue>)
    ensures
        trees(fields@) == seq![
            Wire::Text(message_id@),
            optional_flag(*include_schema_json),
            optional_text_list(opt_texts(*schema_ids)),
            optional_text_list(opt_kind_names(*kinds)),
        ],
{
    let kind_field = match kinds {
        Some(found) => text_list_field(&names_of_kinds(found)),
        None => WireValue::Nil,
    };
    let fields = vec![
        text_field(message_id),
        optional_flag_field(include_schema_json),
        optional_text_list_field(schema_ids),
        kind_field,
    ];
    assert(trees(fields@) =~= seq![
        Wire::Text(message_id@),
        optional_flag(*include_schema_json),
        optional_text_list(opt_texts(*schema_ids)),
        optional_text_list(opt_kind_names(*kinds)),
    ]);
    fields
}

fn catalog_response_values(message_id: &str, schemas: &Vec<CultNetSchemaDescriptor>) -> (fields: Vec<WireValue>)
    ensures
        trees(fields@) == seq![Wire::Text(message_id@), descriptors_wire(schemas@)],
{
    let fields = vec![text_field(message_id), descriptors_field(schemas)];
    assert(trees(fields@) =~= seq![Wire::Text(message_id@), descriptors_wire(schemas@)]);
    fields
}

pub fn encode_gamecult_networking_message(message: &CultNetMessage) -> (outcome: Result<WireValue, CultNetError>)
    ensures
        reports(outcome, message.legacy_violation()),
        outcome matches Ok(value) ==> value@ == message.legacy_wire(),
{
    match message {
        CultNetMessage::Login { nonce, auth, password } => {
            let pair = legacy_credentials(nonce, "LoginMessage.Nonce", auth, "LoginMessage.Auth")?;
            let fields = append_field(pair, legacy_bytes(password, "LoginMessage.Password")?);
            assert(trees(fields@) =~= message.legacy_fields());
            Ok(union_value(0, fields))
        },
        CultNetMessage::Register { nonce, email, password, name } => {
            let pair = legacy_credentials(nonce, "RegisterMessage.Nonce", email, "RegisterMessage.Email")?;
            let three = append_field(pair, legacy_bytes(password, "RegisterMessage.Password")?);
            let fields = append_field(three, legacy_bytes(name, "RegisterMessage.Name")?);
            assert(trees(fields@) =~= message.legacy_fields());
            Ok(union_value(1, fields))
        },
        CultNetMessage::Verify { nonce, session } => Ok(
            union_value(
                2,
                legacy_credentials(nonce, "VerifyMessage.Nonce", session, "VerifyMessage.Session")?,
            ),
        ),
        CultNetMessage::LoginSuccess { nonce, session } => Ok(
            union_value(
                3,
                legacy_credentials(
                    nonce,
                    "LoginSuccessMessage.Nonce",
                    session,
                    "LoginSuccessMessage.Session",
                )?,
            ),
        ),
        CultNetMessage::Error { error } => Ok(union_value(4, single_text(error))),
        CultNetMessage::SampleChangeName { name } => Ok(union_value(5, single_text(name))),
        CultNetMessage::SampleChat { text } => Ok(union_value(6, single_text(text))),
        CultNetMessage::SchemaCatalogRequest { message_id, include_schema_json, schema_ids, kinds } => Ok(
            union_value(7, catalog_request_values(message_id, include_schema_json, schema_ids, kinds)),
        ),
        CultNetMessage::SchemaCatalogResponse { message_id, schemas } => Ok(
            union_value(8, catalog_response_values(message_id, schemas)),
        ),
        _ => refuse("Message is not defined in the gamecult.networking.v0 contract"),
    }
}

// ---------------------------------------------------------------------------
// Reading
// ---------------------------------------------------------------------------

/// Why the fields are not those of a message with the tag, if they are not.
pub open spec fn legacy_fields_refusal(tag: int, fields: Seq<Wire>) -> Option<Seq<char>> {
    if tag == 0 {
        first_of(
            unless(bytes_field(fields, 0) is Some, bytes_refusal("LoginMessage.Nonce"@)),
            first_of(
                unless(bytes_field(fields, 1) is Some, bytes_refusal("LoginMessage.Auth"@)),
                unless(bytes_field(fields, 2) is Some, bytes_refusal("LoginMessage.Password"@)),
            ),
        )
    } else if tag == 1 {
        first_of(
            first_of(
                unless(bytes_field(fields, 0) is Some, bytes_refusal("RegisterMessage.Nonce"@)),
                unless(bytes_field(fields, 1) is Some, bytes_refusal("RegisterMessage.Email"@)),
            ),
            first_of(
                unless(bytes_field(fields, 2) is Some, bytes_refusal("RegisterMessage.Password"@)),
                unless(bytes_field(fields, 3) is Some, bytes_refusal("RegisterMessage.Name"@)),
            ),
        )
    } else if tag == 2 {
        first_of(
            unless(bytes_field(fields, 0) is Some, bytes_refusal("VerifyMessage.Nonce"@)),
            unless(bytes_field(fields, 1) is Some, bytes_refusal("VerifyMessage.Session"@)),
        )
    } else if tag == 3 {
        first_of(
            unless(bytes_field(fields, 0) is Some, bytes_refusal("LoginSuccessMessage.Nonce"@)),
            unless(bytes_field(fields, 1) is Some, bytes_refusal("LoginSuccessMessage.Session"@)),
        )
    } else if tag == 4 {
        unless(string_field(fields, 0) is Some, string_refusal("ErrorMessage.Error"@))
    } else if tag == 5 {
        unless(string_field(fields, 0) is Some, string_refusal("ChangeNameMessage.Name"@))
    } else if tag == 6 {
        unless(string_field(fields, 0) is Some, string_refusal("ChatMessage.Text"@))
    } else if tag == 7 {
        unless(
            catalog_request_fields(fields),
            "SchemaCatalogRequestMessage is malformed in gamecult.networking.v0"@,
        )
    } else if tag == 8 {
        unless(
            catalog_response_fields(fields),
            "SchemaCatalogResponseMessage is malformed in gamecult.networking.v0"@,
        )
    } else {
        Some("Unsupported gamecult.networking.v0 union tag "@ + integer(tag))
    }
}

/// Some schema catalog request has these fields.
pub open spec fn catalog_request_fields(fields: Seq<Wire>) -> bool {
    &&& fields.len() == 4
    &&& fields[0] is Text
    &&& exists|flag: Option<bool>| fields[1] == #[trigger] optional_flag(flag)
    &&& exists|texts: Option<Seq<Seq<char>>>| fields[2] == #[trigger] optional_text_list(texts)
    &&& exists|kinds: Option<Vec<CultNetSchemaKind>>|
        fields[3] == optional_text_list(#[trigger] opt_kind_names(kinds))
}

/// Some schema catalog response has these fields.
pub open spec fn catalog_response_fields(fields: Seq<Wire>) -> bool {
    &&& fields.len() == 2
    &&& fields[0] is Text
    &&& exists|schemas: Seq<CultNetSchemaDescriptor>| fields[1] == #[trigger] descriptors_wire(schemas)
}

/// Why the tree is no message of the contract, if it is none.
pub open spec fn legacy_refusal(tree: Wire) -> Option<Seq<char>> {
    if !(tree matches Wire::Sequence(pair) && pair.len() == 2) {
        Some("gamecult.networking.v0 messages must be a 2-element union array"@)
    } else if integer_of(tree->Sequence_0[0]) is None {
        Some("gamecult.networking.v0 message tag must be an integer"@)
    } else if !(tree->Sequence_0[1] is Sequence) {
        Some("gamecult.networking.v0 message payload must be an array"@)
    } else {
        legacy_fields_refusal(integer_of(tree->Sequence_0[0])->0, tree->Sequence_0[1]->Sequence_0)
    }
}

/// The message holds what the fields with the tag say. Bytes are held as base64url
/// text; what follows the fields of a message is not looked at.
pub open spec fn legacy_reads(tag: int, fields: Seq<Wire>, message: CultNetMessage) -> bool {
    match message {
        CultNetMessage::Login { nonce, auth, password } => {
            &&& tag == 0
            &&& bytes_field(fields, 0) == Some(nonce@)
            &&& bytes_field(fields, 1) == Some(auth@)
            &&& bytes_field(fields, 2) == Some(password@)
        },
        CultNetMessage::Register { nonce, email, password, name } => {
            &&& tag == 1
            &&& bytes_field(fields, 0) == Some(nonce@)
            &&& bytes_field(fields, 1) == Some(email@)
            &&& bytes_field(fields, 2) == Some(password@)
            &&& bytes_field(fields, 3) == Some(name@)
        },
        CultNetMessage::Verify { nonce, session } => {
            &&& tag == 2
            &&& bytes_field(fields, 0) == Some(nonce@)
            &&& bytes_field(fields, 1) == Some(session@)
        },
        CultNetMessage::LoginSuccess { nonce, session } => {
            &&& tag == 3
            &&& bytes_field(fields, 0) == Some(nonce@)
            &&& bytes_field(fields, 1) == Some(session@)
        },
        CultNetMessage::Error { error } => tag == 4 && string_field(fields, 0) == Some(error@),
        CultNetMessage::SampleChangeName { name } => tag == 5 && string_field(fields, 0) == Some(name@),
        CultNetMessage::SampleChat { text } => tag == 6 && string_field(fields, 0) == Some(text@),
        CultNetMessage::SchemaCatalogRequest { .. } => tag == 7 && message.legacy_fields() == fields,
        CultNetMessage::SchemaCatalogResponse { .. } => tag == 8 && message.legacy_fields() == fields,
        _ => false,
    }
}

fn parse_catalog_request(fields: &Vec<WireValue>) -> (message: Option<CultNetMessage>)
    ensures
        message is Some <==> catalog_request_fields(trees(fields@)),
        message matches Some(found) ==> found is SchemaCatalogRequest && legacy_reads(
            7,
            trees(fields@),
            found,
        ),
{
    let ghost all = trees(fields@);
    if fields.len() != 4 {
        return None;
    }
    assert(all[0] == fields@[0]@ && all[1] == fields@[1]@ && all[2] == fields@[2]@ && all[3] == fields@[3]@);
    let message_id = read_text(&fields[0])?;
    let include_schema_json = read_optional_flag(&fields[1])?;
    let schema_ids = read_optional_text_list(&fields[2])?;
    let names = read_optional_text_list(&fields[3])?;
    let kinds: Option<Vec<CultNetSchemaKind>> = match &names {
        None => None,
        Some(texts) => {
            let found = kinds_of_names(texts);
            proof {
                if found is None {
                    assert forall|any: Option<Vec<CultNetSchemaKind>>| all[3] != optional_text_list(
                        #[trigger] opt_kind_names(any),
                    ) by {
                        if let Some(listed) = any {
                            crate::record::text_list_is_faithful(kind_names(listed@), views(texts@));
                        }
                    }
                }
            }
            Some(found?)
        },
    };
    assert(opt_kind_names(kinds) == opt_texts(names));
    let message = CultNetMessage::SchemaCatalogRequest { message_id, include_schema_json, schema_ids, kinds };
    assert(message.legacy_fields() =~= all);
    Some(message)
}

fn parse_catalog_response(fields: &Vec<WireValue>) -> (message: Option<CultNetMessage>)
    ensures
        message is Some <==> catalog_response_fields(trees(fields@)),
        message matches Some(found) ==> found is SchemaCatalogResponse && legacy_reads(
            8,
            trees(fields@),
            found,
        ),
{
    let ghost all = trees(fields@);
    if fields.len() != 2 {
        return None;
    }
    assert(all[0] == fields@[0]@ && all[1] == fields@[1]@);
    let message_id = read_text(&fields[0])?;
    let schemas = read_descriptors(&fields[1])?;
    let message = CultNetMessage::SchemaCatalogResponse { message_id, schemas };
    assert(message.legacy_fields() =~= all);
    Some(message)
}

fn parse_legacy_fields(tag: i64, fields: &Vec<WireValue>) -> (outcome: Result<CultNetMessage, CultNetError>)
    ensures
        reports(outcome, legacy_fields_refusal(tag as int, trees(fields@))),
        outcome matches Ok(message) ==> legacy_reads(tag as int, trees(fields@), message),
{
    if tag == 0 {
        Ok(
            CultNetMessage::Login {
                nonce: require_legacy_bytes(fields, 0, "LoginMessage.Nonce")?,
                auth: require_legacy_bytes(fields, 1, "LoginMessage.Auth")?,
                password: require_legacy_bytes(fields, 2, "LoginMessage.Password")?,
            },
        )
    } else if tag == 1 {
        Ok(
            CultNetMessage::Register {
                nonce: require_legacy_bytes(fields, 0, "RegisterMessage.Nonce")?,
                email: require_legacy_bytes(fields, 1, "RegisterMessage.Email")?,
                password: require_legacy_bytes(fields, 2, "RegisterMessage.Password")?,
                name: require_legacy_bytes(fields, 3, "RegisterMessage.Name")?,
            },
        )
    } else if tag == 2 {
        Ok(
            CultNetMessage::Verify {
                nonce: require_legacy_bytes(fields, 0, "VerifyMessage.Nonce")?,
                session: require_legacy_bytes(fields, 1, "VerifyMessage.Session")?,
            },
        )
    } else if tag == 3 {
        Ok(
            CultNetMessage::LoginSuccess {
                nonce: require_legacy_bytes(fields, 0, "LoginSuccessMessage.Nonce")?,
                session: require_legacy_bytes(fields, 1, "LoginSuccessMessage.Session")?,
            },
        )
    } else if tag == 4 {
        Ok(CultNetMessage::Error { error: require_legacy_string(fields, 0, "ErrorMessage.Error")? })
    } else if tag == 5 {
        Ok(
            CultNetMessage::SampleChangeName {
                name: require_legacy_string(fields, 0, "ChangeNameMessage.Name")?,
            },
        )
    } else if tag == 6 {
        Ok(CultNetMessage::SampleChat { text: require_legacy_string(fields, 0, "ChatMessage.Text")? })
    } else if tag == 7 {
        match parse_catalog_request(fields) {
            Some(message) => Ok(message),
            None => refuse("SchemaCatalogRequestMessage is malformed in gamecult.networking.v0"),
        }
    } else if tag == 8 {
        match parse_catalog_response(fields) {
            Some(message) => Ok(message),
            None => refuse("SchemaCatalogResponseMessage is malformed in gamecult.networking.v0"),
        }
    } else {
        refuse(&joined("Unsupported gamecult.networking.v0 union tag ", &integer_text(tag)))
    }
}

pub fn parse_gamecult_networking_message(input: &WireValue) -> (outcome: Result<CultNetMessage, CultNetError>)
    ensures
        reports(outcome, legacy_refusal(input@)),
        outcome matches Ok(message) ==> legacy_reads(
            integer_of(input@->Sequence_0[0])->0,
            input@->Sequence_0[1]->Sequence_0,
            message,
        ),
{
    let pair = match crate::record::read_items(input, 2) {
        Some(found) => found,
        None => {
            return refuse("gamecult.networking.v0 messages must be a 2-element union array");
        },
    };
    assert(input@->Sequence_0[0] == pair@[0]@ && input@->Sequence_0[1] == pair@[1]@);
    let tag: i64 = match pair[0].as_i64() {
        Some(found) => found,
        None => {
            return refuse("gamecult.networking.v0 message tag must be an integer");
        },
    };
    match read_sequence(&pair[1]) {
        Some(fields) => parse_legacy_fields(tag, fields),
        None => refuse("gamecult.networking.v0 message payload must be an array"),
    }
}

proof fn union_parts(tag: u64, fields: Seq<Wire>)
    ensures
        union(tag, fields) matches Wire::Sequence(pair) && pair.len() == 2 && pair[0] == Wire::Unsigned(tag)
            && pair[1] == Wire::Sequence(fields),
{
}

proof fn bytes_are_read_back(text: Seq<char>, fields: Seq<Wire>, position: int)
    requires
        base64_bytes(text) is Some,
        0 <= position < fields.len(),
        fields[position] == Wire::Binary(base64_bytes(text)->0),
    ensures
        bytes_field(fields, position) == Some(text),
{
    base64_bytes_encode(text);
}

/// What the contract carries is read back: the form that it gives a message is taken,
/// and holds the message.
pub proof fn a_carried_message_is_read_back(message: CultNetMessage)
    requires
        message.legacy_violation() is None,
    ensures
        legacy_refusal(message.legacy_wire()) is None,
        legacy_reads(
            integer_of(message.legacy_wire()->Sequence_0[0])->0,
            message.legacy_wire()->Sequence_0[1]->Sequence_0,
            message,
        ),
{
    let fields = message.legacy_fields();
    union_parts(message.legacy_tag(), fields);
    match message {
        CultNetMessage::Login { nonce, auth, password } => {
            bytes_are_read_back(nonce@, fields, 0);
            bytes_are_read_back(auth@, fields, 1);
            bytes_are_read_back(password@, fields, 2);
        },
        CultNetMessage::Register { nonce, email, password, name } => {
            bytes_are_read_back(nonce@, fields, 0);
            bytes_are_read_back(email@, fields, 1);
            bytes_are_read_back(password@, fields, 2);
            bytes_are_read_back(name@, fields, 3);
        },
        CultNetMessage::Verify { nonce, session } => {
            bytes_are_read_back(nonce@, fields, 0);
            bytes_are_read_back(session@, fields, 1);
        },
        CultNetMessage::LoginSuccess { nonce, session } => {
            bytes_are_read_back(nonce@, fields, 0);
            bytes_are_read_back(session@, fields, 1);
        },
        CultNetMessage::SchemaCatalogRequest { message_id, include_schema_json, schema_ids, kinds } => {
            assert(fields[1] == optional_flag(include_schema_json));
            assert(fields[2] == optional_text_list(opt_texts(schema_ids)));
            assert(fields[3] == optional_text_list(opt_kind_names(kinds)));
        },
        CultNetMessage::SchemaCatalogResponse { message_id, schemas } => {
            assert(fields[1] == descriptors_wire(schemas@));
        },
        _ => {},
    }
}

}

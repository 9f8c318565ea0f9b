//! The `cultnet.schema.v0` contract: a message is a JSON object that names its schema
//! version.
use vstd::prelude::*;
use super::legacy_form::{
    contract_names, contracts_of_names, kinds_of_names, names_of_contracts, names_of_kinds,
    opt_kind_names,
};
use super::validation::opt_texts;
use super::{
    CultNetDocumentRecord, CultNetMessage, CultNetRawDocumentRecord, CultNetRawPayloadEncoding,
    CultNetSchemaDescriptor, CultNetSchemaKind, CultNetWireContract,
};
use crate::error::same_reasons;
use crate::json::{
    a_put_member_is_found, array_view, json_trees, member, member_of, member_trees,
    members_stay_sorted, object_view, proper, with_member, Json, JsonValue,
};
use crate::ordered_map::{place_of, with_member_at};
use crate::text::{before, opt, same_text, views};

verus! {

// ---------------------------------------------------------------------------
// Members
// ---------------------------------------------------------------------------

/// The members with one more, if there is a value for it.
pub open spec fn with_optional(members: Seq<(Seq<char>, Json)>, key: Seq<char>, value: Option<Json>) -> Seq<
    (Seq<char>, Json),
> {
    match value {
        Some(found) => with_member(members, key, found),
        None => members,
    }
}

/// The member that names the schema version, alone.
pub open spec fn tagged(tag: Seq<char>) -> Seq<(Seq<char>, Json)> {
    with_optional(Seq::<(Seq<char>, Json)>::empty(), "schemaVersion"@, Some(Json::Text(tag)))
}

pub open spec fn optional_text_json(text: Option<Seq<char>>) -> Option<Json> {
    match text {
        Some(found) => Some(Json::Text(found)),
        None => None,
    }
}

pub open spec fn optional_flag_json(flag: Option<bool>) -> Option<Json> {
    match flag {
        Some(found) => Some(Json::Flag(found)),
        None => None,
    }
}

pub open spec fn texts_json(texts: Seq<Seq<char>>) -> Json {
    Json::Array(texts.map_values(|text: Seq<char>| Json::Text(text)))
}

pub open spec fn optional_texts_json(texts: Option<Seq<Seq<char>>>) -> Option<Json> {
    match texts {
        Some(found) => Some(texts_json(found)),
        None => None,
    }
}

pub open spec fn bytes_json(bytes: Seq<u8>) -> Json {
    Json::Array(bytes.map_values(|byte: u8| Json::Unsigned(byte as u64)))
}

/// The texts in an array that holds nothing else.
pub open spec fn texts_in(json: Json) -> Option<Seq<Seq<char>>> {
    match json {
        Json::Array(items) => if forall|i: int| 0 <= i < items.len() ==> #[trigger] items[i] is Text {
            Some(items.map_values(|item: Json| item->Text_0))
        } else {
            None
        },
        _ => None,
    }
}

/// The bytes in an array of numbers that are bytes.
pub open spec fn bytes_in(json: Json) -> Option<Seq<u8>> {
    match json {
        Json::Array(items) => if forall|i: int|
            0 <= i < items.len() ==> (#[trigger] items[i] matches Json::Unsigned(number) && number < 256) {
            Some(items.map_values(|item: Json| item->Unsigned_0 as u8))
        } else {
            None
        },
        _ => None,
    }
}

/// What a JSON value says of a field: an object under the field's key, an array at the
/// field's position.
pub open spec fn part(json: Json, key: Seq<char>, position: nat) -> Option<Json> {
    match json {
        Json::Array(items) => if position < items.len() {
            Some(items[position as int])
        } else {
            None
        },
        _ => member(json, key),
    }
}

/// An array has no items beyond those of the fields.
pub open spec fn fits(json: Json, fields: nat) -> bool {
    json matches Json::Array(items) ==> items.len() <= fields
}

/// The text of the field, which must be there.
pub open spec fn text_part(json: Json, key: Seq<char>, position: nat) -> Option<Seq<char>> {
    match part(json, key, position) {
        Some(Json::Text(text)) => Some(text),
        _ => None,
    }
}

/// The text of the field, which may be missing or null.
pub open spec fn optional_text_part(json: Json, key: Seq<char>, position: nat) -> Option<Option<Seq<char>>> {
    match part(json, key, position) {
        None => Some(None),
        Some(Json::Null) => Some(None),
        Some(Json::Text(text)) => Some(Some(text)),
        _ => None,
    }
}

/// The flag of the field, which may be missing or null.
pub open spec fn optional_flag_part(json: Json, key: Seq<char>, position: nat) -> Option<Option<bool>> {
    match part(json, key, position) {
        None => Some(None),
        Some(Json::Null) => Some(None),
        Some(Json::Flag(flag)) => Some(Some(flag)),
        _ => None,
    }
}

/// The texts of the field, which must be there.
pub open spec fn texts_part(json: Json, key: Seq<char>, position: nat) -> Option<Seq<Seq<char>>> {
    match part(json, key, position) {
        Some(found) => texts_in(found),
        None => None,
    }
}

/// The texts of the field, which may be missing or null.
pub open spec fn optional_texts_part(json: Json, key: Seq<char>, position: nat) -> Option<Option<Seq<Seq<char>>>> {
    match part(json, key, position) {
        None => Some(None),
        Some(Json::Null) => Some(None),
        Some(found) => match texts_in(found) {
            Some(texts) => Some(Some(texts)),
            None => None,
        },
    }
}

/// The bytes of the field, which must be there.
pub open spec fn bytes_part(json: Json, key: Seq<char>, position: nat) -> Option<Seq<u8>> {
    match part(json, key, position) {
        Some(found) => bytes_in(found),
        None => None,
    }
}

broadcast proof fn optional_is_found(
    members: Seq<(Seq<char>, Json)>,
    key: Seq<char>,
    value: Option<Json>,
    other: Seq<char>,
)
    ensures
        #[trigger] member_of(with_optional(members, key, value), other) == (if other == key && value is Some {
            value
        } else {
            member_of(members, other)
        }),
{
    if let Some(found) = value {
        a_put_member_is_found(members, key, found, other);
    }
}

broadcast proof fn nothing_is_found(key: Seq<char>)
    ensures
        #[trigger] member_of(Seq::<(Seq<char>, Json)>::empty(), key) is None,
{
}

broadcast proof fn texts_are_found(texts: Seq<Seq<char>>)
    ensures
        texts_in(#[trigger] texts_json(texts)) == Some(texts),
{
    let items = texts_json(texts)->Array_0;
    assert(items.map_values(|item: Json| item->Text_0) =~= texts);
}

broadcast proof fn bytes_are_found(bytes: Seq<u8>)
    ensures
        bytes_in(#[trigger] bytes_json(bytes)) == Some(bytes),
{
    let items = bytes_json(bytes)->Array_0;
    assert(items.map_values(|item: Json| item->Unsigned_0 as u8) =~= bytes);
}

broadcast group group_json_members {
    optional_is_found,
    nothing_is_found,
    texts_are_found,
    bytes_are_found,
}

/// The members are sorted, and their values are proper.
pub open spec fn proper_members(members: Seq<(Seq<char>, Json)>) -> bool {
    proper(Json::Object(members))
}

proof fn values_stay_proper(members: Seq<(Seq<char>, Json)>, key: Seq<char>, value: Json)
    requires
        forall|i: int| 0 <= i < members.len() ==> proper((#[trigger] members[i]).1),
        proper(value),
    ensures
        forall|i: int|
            0 <= i < with_member(members, key, value).len() ==> proper(
                (#[trigger] with_member(members, key, value)[i]).1,
            ),
    decreases members.len(),
{
    let put = with_member(members, key, value);
    if members.len() > 0 && members[0].0 != key && !before(key, members[0].0) {
        let rest = members.drop_first();
        assert forall|i: int| 0 <= i < rest.len() implies proper((#[trigger] rest[i]).1) by {
            assert(proper(members[i + 1].1));
        }
        values_stay_proper(rest, key, value);
        let tail = with_member(rest, key, value);
        assert forall|i: int| 0 <= i < put.len() implies proper((#[trigger] put[i]).1) by {
            if i > 0 {
                assert(put[i] == tail[i - 1]);
            } else {
                assert(proper(members[0].1));
            }
        }
    } else {
        assert forall|i: int| 0 <= i < put.len() implies proper((#[trigger] put[i]).1) by {
            if put[i] != (key, value) {
                if put.len() == members.len() {
                    assert(put[i] == members[i]);
                } else {
                    assert(put[i] == members[i - 1]);
                }
            }
        }
    }
}

broadcast proof fn optional_stays_proper(members: Seq<(Seq<char>, Json)>, key: Seq<char>, value: Option<Json>)
    requires
        proper_members(members),
        value matches Some(found) ==> proper(found),
    ensures
        #[trigger] proper_members(with_optional(members, key, value)),
{
    if let Some(found) = value {
        members_stay_sorted(members, key, found);
        values_stay_proper(members, key, found);
    }
}

broadcast proof fn no_members_are_proper()
    ensures
        #[trigger] proper_members(Seq::<(Seq<char>, Json)>::empty()),
{
}

broadcast proof fn texts_are_proper(texts: Seq<Seq<char>>)
    ensures
        proper(#[trigger] texts_json(texts)),
{
    let items = texts_json(texts)->Array_0;
    assert forall|i: int| 0 <= i < items.len() implies proper(#[trigger] items[i]) by {}
}

broadcast proof fn bytes_are_proper(bytes: Seq<u8>)
    ensures
        proper(#[trigger] bytes_json(bytes)),
{
    let items = bytes_json(bytes)->Array_0;
    assert forall|i: int| 0 <= i < items.len() implies proper(#[trigger] items[i]) by {}
}

broadcast group group_proper_members {
    optional_stays_proper,
    no_members_are_proper,
    texts_are_proper,
    bytes_are_proper,
}

// ---------------------------------------------------------------------------
// Writing members
// ---------------------------------------------------------------------------

fn put(members: &mut Vec<(String, JsonValue)>, key: &str, value: JsonValue)
    ensures
        member_trees(final(members)@) == with_optional(member_trees(old(members)@), key@, Some(value@)),
{
    let (place, there) = place_of(members, key);
    let ghost before_members = members@;
    proof {
        let all = member_trees(members@);
        assert forall|k: int| 0 <= k < place implies (#[trigger] all[k]).0 != key@ && !before(
            key@,
            all[k].0,
        ) by {
            assert(before_members[k].0@ != key@);
        }
        with_member_at(all, key@, value@, place as int, there);
    }
    if there {
        members.set(place, (key.to_owned(), value));
        assert(member_trees(members@) =~= member_trees(before_members).update(place as int, (key@, value@)));
    } else {
        members.insert(place, (key.to_owned(), value));
        assert(member_trees(members@) =~= member_trees(before_members).insert(place as int, (key@, value@)));
    }
}

/// The tree of an optional value.
pub open spec fn opt_json(value: Option<JsonValue>) -> Option<Json> {
    match value {
        Some(found) => Some(found@),
        None => None,
    }
}

fn put_optional(members: &mut Vec<(String, JsonValue)>, key: &str, value: Option<JsonValue>)
    ensures
        member_trees(final(members)@) == with_optional(member_trees(old(members)@), key@, opt_json(value)),
{
    if let Some(found) = value {
        put(members, key, found);
    }
}

fn object_value(members: Vec<(String, JsonValue)>) -> (value: JsonValue)
    ensures
        value@ == Json::Object(member_trees(members@)),
{
    proof {
        object_view(members);
    }
    JsonValue::Object(members)
}

fn tagged_members(tag: &str) -> (members: Vec<(String, JsonValue)>)
    ensures
        member_trees(members@) == tagged(tag@),
{
    let mut members: Vec<(String, JsonValue)> = Vec::new();
    assert(member_trees(members@) =~= Seq::empty());
    put(&mut members, "schemaVersion", text_json(tag));
    members
}

fn text_json(text: &str) -> (value: JsonValue)
    ensures
        value@ == Json::Text(text@),
{
    JsonValue::Text(text.to_owned())
}

fn optional_text_value(text: &Option<String>) -> (value: Option<JsonValue>)
    ensures
        opt_json(value) == optional_text_json(opt(*text)),
{
    match text {
        Some(found) => Some(text_json(found)),
        None => None,
    }
}

fn optional_flag_value(flag: &Option<bool>) -> (value: Option<JsonValue>)
    ensures
        opt_json(value) == optional_flag_json(*flag),
{
    match flag {
        Some(found) => Some(JsonValue::Flag(*found)),
        None => None,
    }
}

fn texts_value(texts: &Vec<String>) -> (value: JsonValue)
    ensures
        value@ == texts_json(views(texts@)),
{
    let mut items: Vec<JsonValue> = Vec::new();
    let mut i: usize = 0;
    while i < texts.len()
        invariant
            i <= texts@.len(),
            items@.len() == i,
            forall|k: int| 0 <= k < i ==> (#[trigger] items@[k])@ == Json::Text(texts@[k]@),
        decreases texts@.len() - i,
    {
        items.push(text_json(&texts[i]));
        i += 1;
    }
    proof {
        array_view(items);
        assert(json_trees(items@) =~= texts_json(views(texts@))->Array_0);
    }
    JsonValue::Array(items)
}

fn optional_texts_value(texts: &Option<Vec<String>>) -> (value: Option<JsonValue>)
    ensures
        opt_json(value) == optional_texts_json(opt_texts(*texts)),
{
    match texts {
        Some(found) => Some(texts_value(found)),
        None => None,
    }
}

fn optional_kinds_value(kinds: &Option<Vec<CultNetSchemaKind>>) -> (value: Option<JsonValue>)
    ensures
        opt_json(value) == optional_texts_json(opt_kind_names(*kinds)),
{
    match kinds {
        Some(found) => Some(texts_value(&names_of_kinds(found))),
        None => None,
    }
}

fn bytes_value(bytes: &Vec<u8>) -> (value: JsonValue)
    ensures
        value@ == bytes_json(bytes@),
{
    let mut items: Vec<JsonValue> = Vec::new();
    let mut i: usize = 0;
    while i < bytes.len()
        invariant
            i <= bytes@.len(),
            items@.len() == i,
            forall|k: int| 0 <= k < i ==> (#[trigger] items@[k])@ == Json::Unsigned(bytes@[k] as u64),
        decreases bytes@.len() - i,
    {
        items.push(JsonValue::Unsigned(bytes[i] as u64));
        i += 1;
    }
    proof {
        array_view(items);
        assert(json_trees(items@) =~= bytes_json(bytes@)->Array_0);
    }
    JsonValue::Array(items)
}

// ---------------------------------------------------------------------------
// Reading members
// ---------------------------------------------------------------------------

fn read_texts(json: &JsonValue) -> (texts: Option<Vec<String>>)
    ensures
        match texts {
            Some(found) => texts_in(json@) == Some(views(found@)),
            None => texts_in(json@) is None,
        },
{
    match json {
        JsonValue::Array(items) => {
            proof {
                array_view(*items);
            }
            let ghost all = json_trees(items@);
            let mut texts: Vec<String> = Vec::new();
            let mut i: usize = 0;
            while i < items.len()
                invariant
                    i <= items@.len(),
                    all == json_trees(items@),
                    json@ == Json::Array(all),
                    texts@.len() == i,
                    forall|k: int| 0 <= k < i ==> #[trigger] all[k] == Json::Text(texts@[k]@),
                decreases items@.len() - i,
            {
                assert(all[i as int] == items@[i as int]@);
                match &items[i] {
                    JsonValue::Text(text) => {
                        texts.push(text.clone());
                    },
                    _ => {
                        assert(!(all[i as int] is Text));
                        return None;
                    },
                }
                i += 1;
            }
            assert(all.map_values(|item: Json| item->Text_0) =~= views(texts@));
            Some(texts)
        },
        _ => None,
    }
}

fn part_of<'a>(json: &'a JsonValue, key: &str, position: usize) -> (found: Option<&'a JsonValue>)
    ensures
        match found {
            Some(value) => part(json@, key@, position as nat) == Some(value@),
            None => part(json@, key@, position as nat) is None,
        },
{
    match json {
        JsonValue::Array(items) => {
            proof {
                array_view(*items);
            }
            if position < items.len() {
                Some(&items[position])
            } else {
                None
            }
        },
        _ => json.get(key),
    }
}

fn fits_fields(json: &JsonValue, fields: usize) -> (found: bool)
    ensures
        found == fits(json@, fields as nat),
{
    match json {
        JsonValue::Array(items) => {
            proof {
                array_view(*items);
            }
            items.len() <= fields
        },
        _ => true,
    }
}

fn read_text_part(json: &JsonValue, key: &str, position: usize) -> (text: Option<String>)
    ensures
        match text {
            Some(found) => text_part(json@, key@, position as nat) == Some(found@),
            None => text_part(json@, key@, position as nat) is None,
        },
{
    match part_of(json, key, position) {
        Some(JsonValue::Text(text)) => Some(text.clone()),
        _ => None,
    }
}

fn read_json_part(json: &JsonValue, key: &str, position: usize) -> (value: Option<JsonValue>)
    ensures
        match value {
            Some(found) => part(json@, key@, position as nat) == Some(found@),
            None => part(json@, key@, position as nat) is None,
        },
{
    match part_of(json, key, position) {
        Some(value) => Some(value.copy()),
        None => None,
    }
}

fn read_optional_text_part(json: &JsonValue, key: &str, position: usize) -> (text: Option<Option<String>>)
    ensures
        match text {
            Some(found) => optional_text_part(json@, key@, position as nat) == Some(opt(found)),
            None => optional_text_part(json@, key@, position as nat) is None,
        },
{
    match part_of(json, key, position) {
        None => Some(None),
        Some(JsonValue::Null) => Some(None),
        Some(JsonValue::Text(text)) => Some(Some(text.clone())),
        _ => None,
    }
}

fn read_optional_flag_part(json: &JsonValue, key: &str, position: usize) -> (flag: Option<Option<bool>>)
    ensures
        match flag {
            Some(found) => optional_flag_part(json@, key@, position as nat) == Some(found),
            None => optional_flag_part(json@, key@, position as nat) is None,
        },
{
    match part_of(json, key, position) {
        None => Some(None),
        Some(JsonValue::Null) => Some(None),
        Some(JsonValue::Flag(flag)) => Some(Some(*flag)),
        _ => None,
    }
}

fn read_optional_texts_part(json: &JsonValue, key: &str, position: usize) -> (texts: Option<Option<Vec<String>>>)
    ensures
        match texts {
            Some(found) => optional_texts_part(json@, key@, position as nat) == Some(opt_texts(found)),
            None => optional_texts_part(json@, key@, position as nat) is None,
        },
{
    match part_of(json, key, position) {
        None => Some(None),
        Some(JsonValue::Null) => Some(None),
        Some(value) => match read_texts(value) {
            Some(texts) => Some(Some(texts)),
            None => None,
        },
    }
}

fn read_bytes_part(json: &JsonValue, key: &str, position: usize) -> (bytes: Option<Vec<u8>>)
    ensures
        match bytes {
            Some(found) => bytes_part(json@, key@, position as nat) == Some(found@),
            None => bytes_part(json@, key@, position as nat) is None,
        },
{
    match part_of(json, key, position) {
        Some(value) => match value {
            JsonValue::Array(items) => {
                proof {
                    array_view(*items);
                }
                let ghost all = json_trees(items@);
                let mut bytes: Vec<u8> = Vec::new();
                let mut i: usize = 0;
                while i < items.len()
                    invariant
                        i <= items@.len(),
                        all == json_trees(items@),
                        part(json@, key@, position as nat) == Some(Json::Array(all)),
                        bytes@.len() == i,
                        forall|k: int| 0 <= k < i ==> #[trigger] all[k] == Json::Unsigned(bytes@[k] as u64),
                    decreases items@.len() - i,
                {
                    assert(all[i as int] == items@[i as int]@);
                    let number: u64 = match &items[i] {
                        JsonValue::Unsigned(number) => *number,
                        JsonValue::Negative(number) => if *number >= 0 {
                            *number as u64
                        } else {
                            256
                        },
                        _ => 256,
                    };
                    if number >= 256 {
                        assert(!(all[i as int] matches Json::Unsigned(found) && found < 256));
                        return None;
                    }
                    bytes.push(number as u8);
                    i += 1;
                }
                assert(all.map_values(|item: Json| item->Unsigned_0 as u8) =~= bytes@);
                Some(bytes)
            },
            _ => None,
        },
        None => None,
    }
}

fn read_encoding_part(json: &JsonValue, key: &str, position: usize) -> (encoding: Option<CultNetRawPayloadEncoding>)
    ensures
        encoding is Some <==> text_part(json@, key@, position as nat) == Some("messagepack"@),
{
    let text = read_text_part(json, key, position)?;
    if same_text(&text, "messagepack") {
        Some(CultNetRawPayloadEncoding::Messagepack)
    } else {
        None
    }
}

fn read_kind_part(json: &JsonValue, key: &str, position: usize) -> (kind: Option<CultNetSchemaKind>)
    ensures
        match kind {
            Some(found) => text_part(json@, key@, position as nat) == Some(found.name_text()),
            None => forall|any: CultNetSchemaKind| text_part(json@, key@, position as nat) != Some(#[trigger] any.name_text()),
        },
{
    let text = read_text_part(json, key, position)?;
    CultNetSchemaKind::from_name(&text)
}

fn read_contracts_part(json: &JsonValue, key: &str, position: usize) -> (contracts: Option<Vec<CultNetWireContract>>)
    ensures
        match contracts {
            Some(found) => texts_part(json@, key@, position as nat) == Some(contract_names(found@)),
            None => forall|any: Seq<CultNetWireContract>|
                texts_part(json@, key@, position as nat) != Some(#[trigger] contract_names(any)),
        },
{
    match part_of(json, key, position) {
        Some(value) => {
            let texts = read_texts(value)?;
            contracts_of_names(&texts)
        },
        None => None,
    }
}

fn read_optional_kinds_part(json: &JsonValue, key: &str, position: usize) -> (kinds: Option<Option<Vec<CultNetSchemaKind>>>)
    ensures
        match kinds {
            Some(found) => optional_texts_part(json@, key@, position as nat) == Some(opt_kind_names(found)),
            None => forall|any: Option<Vec<CultNetSchemaKind>>|
                optional_texts_part(json@, key@, position as nat) != Some(#[trigger] opt_kind_names(any)),
        },
{
    match read_optional_texts_part(json, key, position)? {
        None => Some(None),
        Some(names) => match kinds_of_names(&names) {
            Some(kinds) => Some(Some(kinds)),
            None => None,
        },
    }
}

// ---------------------------------------------------------------------------
// Forms
// ---------------------------------------------------------------------------

/// A value with a JSON form and rules that it must meet.
pub trait JsonForm: Sized {
    /// The JSON form that is written.
    spec fn json(self) -> Json;

    /// The value holds what the JSON value says: an object by the keys of its members, of
    /// which those that are not known are not looked at, or an array by position.
    spec fn reads(json: Json, value: Self) -> bool;

    /// The JSON values inside are in their one form.
    spec fn settled(self) -> bool;

    /// The first rule that the value breaks, in words.
    spec fn rule(self) -> Option<Seq<char>>;

    /// What is written is read back.
    proof fn reads_back(self)
        ensures
            Self::reads(self.json(), self),
    ;

    /// What is read from the same JSON value is the same.
    proof fn read_alike(json: Json, a: Self, b: Self)
        requires
            Self::reads(json, a),
            Self::reads(json, b),
        ensures
            a.json() == b.json(),
            a.rule() == b.rule(),
    ;

    /// The form of a settled value is in its one form.
    proof fn settled_is_proper(self)
        requires
            self.settled(),
        ensures
            proper(self.json()),
    ;

    fn to_json(&self) -> (value: JsonValue)
        ensures
            value@ == self.json(),
    ;

    fn from_json(json: &JsonValue) -> (value: Option<Self>)
        ensures
            match value {
                Some(found) => Self::reads(json@, found),
                None => forall|any: Self| !#[trigger] Self::reads(json@, any),
            },
    ;
}

/// The forms of a list.
pub open spec fn list_json<R: JsonForm>(values: Seq<R>) -> Json {
    Json::Array(values.map_values(|value: R| value.json()))
}

/// The list holds what the array says, item by item.
pub open spec fn reads_list<R: JsonForm>(json: Json, values: Seq<R>) -> bool {
    &&& json is Array
    &&& json->Array_0.len() == values.len()
    &&& forall|i: int| 0 <= i < values.len() ==> R::reads(json->Array_0[i], #[trigger] values[i])
}

/// The value holds what is said of the field.
pub open spec fn reads_part<R: JsonForm>(json: Json, key: Seq<char>, position: nat, value: R) -> bool {
    part(json, key, position) matches Some(found) && R::reads(found, value)
}

/// The list holds what is said of the field.
pub open spec fn reads_list_part<R: JsonForm>(json: Json, key: Seq<char>, position: nat, values: Seq<R>) -> bool {
    part(json, key, position) matches Some(found) && reads_list(found, values)
}

/// Every value of the list is settled.
pub open spec fn all_settled<R: JsonForm>(values: Seq<R>) -> bool {
    forall|i: int| 0 <= i < values.len() ==> (#[trigger] values[i]).settled()
}

proof fn list_reads_back<R: JsonForm>(values: Seq<R>)
    ensures
        reads_list(list_json(values), values),
{
    assert forall|i: int| 0 <= i < values.len() implies R::reads(
        list_json(values)->Array_0[i],
        #[trigger] values[i],
    ) by {
        values[i].reads_back();
    }
}

proof fn list_read_alike<R: JsonForm>(json: Json, key: Seq<char>, position: nat, a: Seq<R>, b: Seq<R>)
    requires
        reads_list_part(json, key, position, a),
        reads_list_part(json, key, position, b),
    ensures
        list_json(a) == list_json(b),
        a.len() == b.len(),
        forall|i: int| 0 <= i < a.len() ==> (#[trigger] a[i]).rule() == b[i].rule(),
{
    let found = part(json, key, position)->0;
    assert forall|i: int| 0 <= i < a.len() implies (#[trigger] a[i]).rule() == b[i].rule() && a[i].json()
        == b[i].json() by {
        assert(R::reads(found->Array_0[i], b[i]));
        R::read_alike(found->Array_0[i], a[i], b[i]);
    }
    assert(list_json(a)->Array_0 =~= list_json(b)->Array_0);
}

proof fn list_is_proper<R: JsonForm>(values: Seq<R>)
    requires
        all_settled(values),
    ensures
        proper(list_json(values)),
{
    let items = list_json(values)->Array_0;
    assert forall|i: int| 0 <= i < items.len() implies proper(#[trigger] items[i]) by {
        values[i].settled_is_proper();
    }
}

fn list_value<R: JsonForm>(values: &Vec<R>) -> (value: JsonValue)
    ensures
        value@ == list_json(values@),
{
    let mut items: Vec<JsonValue> = Vec::new();
    let mut i: usize = 0;
    while i < values.len()
        invariant
            i <= values@.len(),
            items@.len() == i,
            forall|k: int| 0 <= k < i ==> (#[trigger] items@[k])@ == values@[k].json(),
        decreases values@.len() - i,
    {
        items.push(values[i].to_json());
        i += 1;
    }
    proof {
        array_view(items);
        assert(json_trees(items@) =~= list_json(values@)->Array_0);
    }
    JsonValue::Array(items)
}

fn read_form_part<R: JsonForm>(json: &JsonValue, key: &str, position: usize) -> (value: Option<R>)
    ensures
        match value {
            Some(found) => reads_part(json@, key@, position as nat, found),
            None => forall|any: R| !#[trigger] reads_part(json@, key@, position as nat, any),
        },
{
    match part_of(json, key, position) {
        Some(value) => R::from_json(value),
        None => None,
    }
}

fn read_form_list_part<R: JsonForm>(json: &JsonValue, key: &str, position: usize) -> (values: Option<Vec<R>>)
    ensures
        match values {
            Some(found) => reads_list_part(json@, key@, position as nat, found@),
            None => forall|any: Seq<R>| !#[trigger] reads_list_part(json@, key@, position as nat, any),
        },
{
    match part_of(json, key, position) {
        Some(value) => match value {
            JsonValue::Array(items) => {
                proof {
                    array_view(*items);
                }
                let ghost all = json_trees(items@);
                let mut values: Vec<R> = Vec::new();
                let mut i: usize = 0;
                while i < items.len()
                    invariant
                        i <= items@.len(),
                        all == json_trees(items@),
                        part(json@, key@, position as nat) == Some(Json::Array(all)),
                        values@.len() == i,
                        forall|k: int| 0 <= k < i ==> R::reads(all[k], #[trigger] values@[k]),
                    decreases items@.len() - i,
                {
                    assert(all[i as int] == items@[i as int]@);
                    match R::from_json(&items[i]) {
                        Some(found) => {
                            values.push(found);
                        },
                        None => {
                            assert forall|any: Seq<R>| !#[trigger] reads_list_part(json@, key@, position as nat, any) by {
                                if reads_list_part(json@, key@, position as nat, any) {
                                    assert(R::reads(all[i as int], any[i as int]));
                                }
                            }
                            return None;
                        },
                    }
                    i += 1;
                }
                Some(values)
            },
            _ => None,
        },
        None => None,
    }
}

impl JsonForm for CultNetDocumentRecord<JsonValue> {
    open spec fn json(self) -> Json {
        let members = Seq::<(Seq<char>, Json)>::empty();
        let members = with_optional(members, "schemaId"@, Some(Json::Text(self.schema_id@)));
        let members = with_optional(members, "recordKey"@, Some(Json::Text(self.record_key@)));
        let members = with_optional(members, "storedAt"@, Some(Json::Text(self.stored_at@)));
        let members = with_optional(members, "payload"@, Some(self.payload@));
        let members = with_optional(members, "sourceRuntimeId"@, optional_text_json(opt(self.source_runtime_id)));
        let members = with_optional(members, "sourceAgentId"@, optional_text_json(opt(self.source_agent_id)));
        let members = with_optional(members, "sourceRole"@, optional_text_json(opt(self.source_role)));
        let members = with_optional(members, "tags"@, optional_texts_json(opt_texts(self.tags)));
        Json::Object(members)
    }

    open spec fn reads(json: Json, value: Self) -> bool {
        &&& fits(json, 8)
        &&& text_part(json, "schemaId"@, 0) == Some(value.schema_id@)
        &&& text_part(json, "recordKey"@, 1) == Some(value.record_key@)
        &&& text_part(json, "storedAt"@, 2) == Some(value.stored_at@)
        &&& part(json, "payload"@, 3) == Some(value.payload@)
        &&& optional_text_part(json, "sourceRuntimeId"@, 4) == Some(opt(value.source_runtime_id))
        &&& optional_text_part(json, "sourceAgentId"@, 5) == Some(opt(value.source_agent_id))
        &&& optional_text_part(json, "sourceRole"@, 6) == Some(opt(value.source_role))
        &&& optional_texts_part(json, "tags"@, 7) == Some(opt_texts(value.tags))
    }

    open spec fn settled(self) -> bool {
        proper(self.payload@)
    }

    open spec fn rule(self) -> Option<Seq<char>> {
        self.refusal()
    }

    proof fn reads_back(self) {
        broadcast use group_json_members;

        document_keys_differ();
    }

    proof fn read_alike(json: Json, a: Self, b: Self) {
    }

    proof fn settled_is_proper(self) {
        broadcast use group_proper_members;

        assert(proper_members(self.json()->Object_0));
    }

    fn to_json(&self) -> (value: JsonValue) {
        let mut members: Vec<(String, JsonValue)> = Vec::new();
        assert(member_trees(members@) =~= Seq::empty());
        put(&mut members, "schemaId", text_json(&self.schema_id));
        put(&mut members, "recordKey", text_json(&self.record_key));
        put(&mut members, "storedAt", text_json(&self.stored_at));
        put(&mut members, "payload", self.payload.copy());
        put_optional(&mut members, "sourceRuntimeId", optional_text_value(&self.source_runtime_id));
        put_optional(&mut members, "sourceAgentId", optional_text_value(&self.source_agent_id));
        put_optional(&mut members, "sourceRole", optional_text_value(&self.source_role));
        put_optional(&mut members, "tags", optional_texts_value(&self.tags));
        object_value(members)
    }

    fn from_json(json: &JsonValue) -> (value: Option<Self>) {
        if !fits_fields(json, 8) {
            return None;
        }
        Some(
            CultNetDocumentRecord {
                schema_id: read_text_part(json, "schemaId", 0)?,
                record_key: read_text_part(json, "recordKey", 1)?,
                stored_at: read_text_part(json, "storedAt", 2)?,
                payload: read_json_part(json, "payload", 3)?,
                source_runtime_id: read_optional_text_part(json, "sourceRuntimeId", 4)?,
                source_agent_id: read_optional_text_part(json, "sourceAgentId", 5)?,
                source_role: read_optional_text_part(json, "sourceRole", 6)?,
                tags: read_optional_texts_part(json, "tags", 7)?,
            },
        )
    }
}

proof fn document_keys_differ()
    ensures
        "schemaId"@ != "recordKey"@,
        "schemaId"@ != "storedAt"@,
        "schemaId"@ != "payload"@,
        "schemaId"@ != "sourceRuntimeId"@,
        "schemaId"@ != "sourceAgentId"@,
        "schemaId"@ != "sourceRole"@,
        "schemaId"@ != "tags"@,
        "recordKey"@ != "storedAt"@,
        "recordKey"@ != "payload"@,
        "recordKey"@ != "sourceRuntimeId"@,
        "recordKey"@ != "sourceAgentId"@,
        "recordKey"@ != "sourceRole"@,
        "recordKey"@ != "tags"@,
        "storedAt"@ != "payload"@,
        "storedAt"@ != "sourceRuntimeId"@,
        "storedAt"@ != "sourceAgentId"@,
        "storedAt"@ != "sourceRole"@,
        "storedAt"@ != "tags"@,
        "payload"@ != "sourceRuntimeId"@,
        "payload"@ != "sourceAgentId"@,
        "payload"@ != "sourceRole"@,
        "payload"@ != "tags"@,
        "sourceRuntimeId"@ != "sourceAgentId"@,
        "sourceRuntimeId"@ != "sourceRole"@,
        "sourceRuntimeId"@ != "tags"@,
        "sourceAgentId"@ != "sourceRole"@,
        "sourceAgentId"@ != "tags"@,
        "sourceRole"@ != "tags"@,
{
    reveal_strlit("schemaId");
    assert("schemaId"@.len() == 8);
    reveal_strlit("recordKey");
    assert("recordKey"@.len() == 9);
    reveal_strlit("storedAt");
    assert("storedAt"@.len() == 8);
    reveal_strlit("payload");
    assert("payload"@.len() == 7);
    reveal_strlit("sourceRuntimeId");
    assert("sourceRuntimeId"@.len() == 15);
    reveal_strlit("sourceAgentId");
    assert("sourceAgentId"@.len() == 13);
    reveal_strlit("sourceRole");
    assert("sourceRole"@.len() == 10);
    reveal_strlit("tags");
    assert("tags"@.len() == 4);
    assert("schemaId"@[1] != "storedAt"@[1]);
}

impl JsonForm for CultNetRawDocumentRecord {
    open spec fn json(self) -> Json {
        let members = Seq::<(Seq<char>, Json)>::empty();
        let members = with_optional(members, "schemaId"@, Some(Json::Text(self.schema_id@)));
        let members = with_optional(members, "recordKey"@, Some(Json::Text(self.record_key@)));
        let members = with_optional(members, "storedAt"@, Some(Json::Text(self.stored_at@)));
        let members = with_optional(members, "payloadEncoding"@, Some(Json::Text("messagepack"@)));
        let members = with_optional(members, "payload"@, Some(bytes_json(self.payload@)));
        let members = with_optional(members, "sourceRuntimeId"@, optional_text_json(opt(self.source_runtime_id)));
        let members = with_optional(members, "sourceAgentId"@, optional_text_json(opt(self.source_agent_id)));
        let members = with_optional(members, "sourceRole"@, optional_text_json(opt(self.source_role)));
        let members = with_optional(members, "tags"@, optional_texts_json(opt_texts(self.tags)));
        Json::Object(members)
    }

    open spec fn reads(json: Json, value: Self) -> bool {
        &&& fits(json, 9)
        &&& text_part(json, "schemaId"@, 0) == Some(value.schema_id@)
        &&& text_part(json, "recordKey"@, 1) == Some(value.record_key@)
        &&& text_part(json, "storedAt"@, 2) == Some(value.stored_at@)
        &&& text_part(json, "payloadEncoding"@, 3) == Some("messagepack"@)
        &&& bytes_part(json, "payload"@, 4) == Some(value.payload@)
        &&& optional_text_part(json, "sourceRuntimeId"@, 5) == Some(opt(value.source_runtime_id))
        &&& optional_text_part(json, "sourceAgentId"@, 6) == Some(opt(value.source_agent_id))
        &&& optional_text_part(json, "sourceRole"@, 7) == Some(opt(value.source_role))
        &&& optional_texts_part(json, "tags"@, 8) == Some(opt_texts(value.tags))
    }

    open spec fn settled(self) -> bool {
        true
    }

    open spec fn rule(self) -> Option<Seq<char>> {
        self.refusal()
    }

    proof fn reads_back(self) {
        broadcast use group_json_members;

        raw_document_keys_differ();
    }

    proof fn read_alike(json: Json, a: Self, b: Self) {
    }

    proof fn settled_is_proper(self) {
        broadcast use group_proper_members;

        assert(proper_members(self.json()->Object_0));
    }

    fn to_json(&self) -> (value: JsonValue) {
        let mut members: Vec<(String, JsonValue)> = Vec::new();
        assert(member_trees(members@) =~= Seq::empty());
        put(&mut members, "schemaId", text_json(&self.schema_id));
        put(&mut members, "recordKey", text_json(&self.record_key));
        put(&mut members, "storedAt", text_json(&self.stored_at));
        put(&mut members, "payloadEncoding", text_json("messagepack"));
        put(&mut members, "payload", bytes_value(&self.payload));
        put_optional(&mut members, "sourceRuntimeId", optional_text_value(&self.source_runtime_id));
        put_optional(&mut members, "sourceAgentId", optional_text_value(&self.source_agent_id));
        put_optional(&mut members, "sourceRole", optional_text_value(&self.source_role));
        put_optional(&mut members, "tags", optional_texts_value(&self.tags));
        object_value(members)
    }

    fn from_json(json: &JsonValue) -> (value: Option<Self>) {
        if !fits_fields(json, 9) {
            return None;
        }
        Some(
            CultNetRawDocumentRecord {
                schema_id: read_text_part(json, "schemaId", 0)?,
                record_key: read_text_part(json, "recordKey", 1)?,
                stored_at: read_text_part(json, "storedAt", 2)?,
                payload_encoding: read_encoding_part(json, "payloadEncoding", 3)?,
                payload: read_bytes_part(json, "payload", 4)?,
                source_runtime_id: read_optional_text_part(json, "sourceRuntimeId", 5)?,
                source_agent_id: read_optional_text_part(json, "sourceAgentId", 6)?,
                source_role: read_optional_text_part(json, "sourceRole", 7)?,
                tags: read_optional_texts_part(json, "tags", 8)?,
            },
        )
    }
}

proof fn raw_document_keys_differ()
    ensures
        "schemaId"@ != "recordKey"@,
        "schemaId"@ != "storedAt"@,
        "schemaId"@ != "payloadEncoding"@,
        "schemaId"@ != "payload"@,
        "schemaId"@ != "sourceRuntimeId"@,
        "schemaId"@ != "sourceAgentId"@,
        "schemaId"@ != "sourceRole"@,
        "schemaId"@ != "tags"@,
        "recordKey"@ != "storedAt"@,
        "recordKey"@ != "payloadEncoding"@,
        "recordKey"@ != "payload"@,
        "recordKey"@ != "sourceRuntimeId"@,
        "recordKey"@ != "sourceAgentId"@,
        "recordKey"@ != "sourceRole"@,
        "recordKey"@ != "tags"@,
        "storedAt"@ != "payloadEncoding"@,
        "storedAt"@ != "payload"@,
        "storedAt"@ != "sourceRuntimeId"@,
        "storedAt"@ != "sourceAgentId"@,
        "storedAt"@ != "sourceRole"@,
        "storedAt"@ != "tags"@,
        "payloadEncoding"@ != "payload"@,
        "payloadEncoding"@ != "sourceRuntimeId"@,
        "payloadEncoding"@ != "sourceAgentId"@,
        "payloadEncoding"@ != "sourceRole"@,
        "payloadEncoding"@ != "tags"@,
        "payload"@ != "sourceRuntimeId"@,
        "payload"@ != "sourceAgentId"@,
        "payload"@ != "sourceRole"@,
        "payload"@ != "tags"@,
        "sourceRuntimeId"@ != "sourceAgentId"@,
        "sourceRuntimeId"@ != "sourceRole"@,
        "sourceRuntimeId"@ != "tags"@,
        "sourceAgentId"@ != "sourceRole"@,
        "sourceAgentId"@ != "tags"@,
        "sourceRole"@ != "tags"@,
{
    reveal_strlit("schemaId");
    assert("schemaId"@.len() == 8);
    reveal_strlit("recordKey");
    assert("recordKey"@.len() == 9);
    reveal_strlit("storedAt");
    assert("storedAt"@.len() == 8);
    reveal_strlit("payloadEncoding");
    assert("payloadEncoding"@.len() == 15);
    reveal_strlit("payload");
    assert("payload"@.len() == 7);
    reveal_strlit("sourceRuntimeId");
    assert("sourceRuntimeId"@.len() == 15);
    reveal_strlit("sourceAgentId");
    assert("sourceAgentId"@.len() == 13);
    reveal_strlit("sourceRole");
    assert("sourceRole"@.len() == 10);
    reveal_strlit("tags");
    assert("tags"@.len() == 4);
    assert("schemaId"@[1] != "storedAt"@[1]);
    assert("payloadEncoding"@[0] != "sourceRuntimeId"@[0]);
}

impl JsonForm for CultNetSchemaDescriptor {
    open spec fn json(self) -> Json {
        let members = Seq::<(Seq<char>, Json)>::empty();
        let members = with_optional(members, "schemaId"@, Some(Json::Text(self.schema_id@)));
        let members = with_optional(members, "kind"@, Some(Json::Text(self.kind.name_text())));
        let members = with_optional(members, "schemaVersion"@, optional_text_json(opt(self.schema_version)));
        let members = with_optional(members, "documentType"@, optional_text_json(opt(self.document_type)));
        let members = with_optional(members, "title"@, optional_text_json(opt(self.title)));
        let members = with_optional(members, "wireContracts"@, Some(texts_json(contract_names(self.wire_contracts@))));
        let members = with_optional(members, "contentHash"@, Some(Json::Text(self.content_hash@)));
        let members = with_optional(members, "schemaJson"@, optional_text_json(opt(self.schema_json)));
        Json::Object(members)
    }

    open spec fn reads(json: Json, value: Self) -> bool {
        &&& fits(json, 8)
        &&& text_part(json, "schemaId"@, 0) == Some(value.schema_id@)
        &&& text_part(json, "kind"@, 1) == Some(value.kind.name_text())
        &&& optional_text_part(json, "schemaVersion"@, 2) == Some(opt(value.schema_version))
        &&& optional_text_part(json, "documentType"@, 3) == Some(opt(value.document_type))
        &&& optional_text_part(json, "title"@, 4) == Some(opt(value.title))
        &&& texts_part(json, "wireContracts"@, 5) == Some(contract_names(value.wire_contracts@))
        &&& text_part(json, "contentHash"@, 6) == Some(value.content_hash@)
        &&& optional_text_part(json, "schemaJson"@, 7) == Some(opt(value.schema_json))
    }

    open spec fn settled(self) -> bool {
        true
    }

    open spec fn rule(self) -> Option<Seq<char>> {
        self.refusal()
    }

    proof fn reads_back(self) {
        broadcast use group_json_members;

        descriptor_keys_differ();
    }

    proof fn read_alike(json: Json, a: Self, b: Self) {
    }

    proof fn settled_is_proper(self) {
        broadcast use group_proper_members;

        assert(proper_members(self.json()->Object_0));
    }

    fn to_json(&self) -> (value: JsonValue) {
        let mut members: Vec<(String, JsonValue)> = Vec::new();
        assert(member_trees(members@) =~= Seq::empty());
        put(&mut members, "schemaId", text_json(&self.schema_id));
        put(&mut members, "kind", text_json(self.kind.name()));
        put_optional(&mut members, "schemaVersion", optional_text_value(&self.schema_version));
        put_optional(&mut members, "documentType", optional_text_value(&self.document_type));
        put_optional(&mut members, "title", optional_text_value(&self.title));
        put(&mut members, "wireContracts", texts_value(&names_of_contracts(&self.wire_contracts)));
        put(&mut members, "contentHash", text_json(&self.content_hash));
        put_optional(&mut members, "schemaJson", optional_text_value(&self.schema_json));
        object_value(members)
    }

    fn from_json(json: &JsonValue) -> (value: Option<Self>) {
        if !fits_fields(json, 8) {
            return None;
        }
        Some(
            CultNetSchemaDescriptor {
                schema_id: read_text_part(json, "schemaId", 0)?,
                kind: read_kind_part(json, "kind", 1)?,
                schema_version: read_optional_text_part(json, "schemaVersion", 2)?,
                document_type: read_optional_text_part(json, "documentType", 3)?,
                title: read_optional_text_part(json, "title", 4)?,
                wire_contracts: read_contracts_part(json, "wireContracts", 5)?,
                content_hash: read_text_part(json, "contentHash", 6)?,
                schema_json: read_optional_text_part(json, "schemaJson", 7)?,
            },
        )
    }
}

proof fn descriptor_keys_differ()
    ensures
        "schemaId"@ != "kind"@,
        "schemaId"@ != "schemaVersion"@,
        "schemaId"@ != "documentType"@,
        "schemaId"@ != "title"@,
        "schemaId"@ != "wireContracts"@,
        "schemaId"@ != "contentHash"@,
        "schemaId"@ != "schemaJson"@,
        "kind"@ != "schemaVersion"@,
        "kind"@ != "documentType"@,
        "kind"@ != "title"@,
        "kind"@ != "wireContracts"@,
        "kind"@ != "contentHash"@,
        "kind"@ != "schemaJson"@,
        "schemaVersion"@ != "documentType"@,
        "schemaVersion"@ != "title"@,
        "schemaVersion"@ != "wireContracts"@,
        "schemaVersion"@ != "contentHash"@,
        "schemaVersion"@ != "schemaJson"@,
        "documentType"@ != "title"@,
        "documentType"@ != "wireContracts"@,
        "documentType"@ != "contentHash"@,
        "documentType"@ != "schemaJson"@,
        "title"@ != "wireContracts"@,
        "title"@ != "contentHash"@,
        "title"@ != "schemaJson"@,
        "wireContracts"@ != "contentHash"@,
        "wireContracts"@ != "schemaJson"@,
        "contentHash"@ != "schemaJson"@,
{
    reveal_strlit("schemaId");
    assert("schemaId"@.len() == 8);
    reveal_strlit("kind");
    assert("kind"@.len() == 4);
    reveal_strlit("schemaVersion");
    assert("schemaVersion"@.len() == 13);
    reveal_strlit("documentType");
    assert("documentType"@.len() == 12);
    reveal_strlit("title");
    assert("title"@.len() == 5);
    reveal_strlit("wireContracts");
    assert("wireContracts"@.len() == 13);
    reveal_strlit("contentHash");
    assert("contentHash"@.len() == 11);
    reveal_strlit("schemaJson");
    assert("schemaJson"@.len() == 10);
    assert("schemaVersion"@[0] != "wireContracts"@[0]);
}

impl CultNetMessage {
    /// The name of the message and its version.
    pub open spec fn schema_version(self) -> Seq<char> {
        match self {
            CultNetMessage::Hello { .. } => "cultnet.hello.v0"@,
            CultNetMessage::Login { .. } => "cultnet.login.v0"@,
            CultNetMessage::Register { .. } => "cultnet.register.v0"@,
            CultNetMessage::Verify { .. } => "cultnet.verify.v0"@,
            CultNetMessage::LoginSuccess { .. } => "cultnet.login_success.v0"@,
            CultNetMessage::Error { .. } => "cultnet.error.v0"@,
            CultNetMessage::SampleChangeName { .. } => "cultnet.sample.change_name.v0"@,
            CultNetMessage::SampleChat { .. } => "cultnet.sample.chat.v0"@,
            CultNetMessage::DocumentPut { .. } => "cultnet.document_put.v0"@,
            CultNetMessage::DocumentPutRaw { .. } => "cultnet.document_put_raw.v0"@,
            CultNetMessage::DocumentDelete { .. } => "cultnet.document_delete.v0"@,
            CultNetMessage::SnapshotRequest { .. } => "cultnet.snapshot_request.v0"@,
            CultNetMessage::SnapshotResponse { .. } => "cultnet.snapshot_response.v0"@,
            CultNetMessage::SnapshotResponseRaw { .. } => "cultnet.snapshot_response_raw.v0"@,
            CultNetMessage::SchemaCatalogRequest { .. } => "cultnet.schema_catalog_request.v0"@,
            CultNetMessage::SchemaCatalogResponse { .. } => "cultnet.schema_catalog_response.v0"@,
        }
    }
}

/// The JSON form of `cultnet.hello.v0`.
pub open spec fn hello_json(message: CultNetMessage) -> Json {
    match message {
        CultNetMessage::Hello { runtime_id, runtime_kind, agent_id, role, display_name, supported_document_types, supported_message_versions, supports_schema_catalog } => {
            let members = tagged("cultnet.hello.v0"@);
            let members = with_optional(members, "runtimeId"@, Some(Json::Text(runtime_id@)));
            let members = with_optional(members, "runtimeKind"@, Some(Json::Text(runtime_kind@)));
            let members = with_optional(members, "agentId"@, optional_text_json(opt(agent_id)));
            let members = with_optional(members, "role"@, optional_text_json(opt(role)));
            let members = with_optional(members, "displayName"@, optional_text_json(opt(display_name)));
            let members = with_optional(members, "supportedDocumentTypes"@, optional_texts_json(opt_texts(supported_document_types)));
            let members = with_optional(members, "supportedMessageVersions"@, optional_texts_json(opt_texts(supported_message_versions)));
            let members = with_optional(members, "supportsSchemaCatalog"@, optional_flag_json(supports_schema_catalog));
            Json::Object(members)
        },
        _ => Json::Null,
    }
}

/// The message is a `cultnet.hello.v0` that holds what the JSON value says.
pub open spec fn hello_reads(json: Json, message: CultNetMessage) -> bool {
    match message {
        CultNetMessage::Hello { runtime_id, runtime_kind, agent_id, role, display_name, supported_document_types, supported_message_versions, supports_schema_catalog } => {
            &&& fits(json, 9)
            &&& text_part(json, "runtimeId"@, 1) == Some(runtime_id@)
            &&& text_part(json, "runtimeKind"@, 2) == Some(runtime_kind@)
            &&& optional_text_part(json, "agentId"@, 3) == Some(opt(agent_id))
            &&& optional_text_part(json, "role"@, 4) == Some(opt(role))
            &&& optional_text_part(json, "displayName"@, 5) == Some(opt(display_name))
            &&& optional_texts_part(json, "supportedDocumentTypes"@, 6) == Some(opt_texts(supported_document_types))
            &&& optional_texts_part(json, "supportedMessageVersions"@, 7) == Some(opt_texts(supported_message_versions))
            &&& optional_flag_part(json, "supportsSchemaCatalog"@, 8) == Some(supports_schema_catalog)
        },
        _ => false,
    }
}

fn hello_to_json(message: &CultNetMessage) -> (value: JsonValue)
    requires
        message is Hello,
    ensures
        value@ == hello_json(*message),
{
    let mut members = tagged_members("cultnet.hello.v0");
    if let CultNetMessage::Hello { runtime_id, runtime_kind, agent_id, role, display_name, supported_document_types, supported_message_versions, supports_schema_catalog } = message {
        put(&mut members, "runtimeId", text_json(runtime_id));
        put(&mut members, "runtimeKind", text_json(runtime_kind));
        put_optional(&mut members, "agentId", optional_text_value(agent_id));
        put_optional(&mut members, "role", optional_text_value(role));
        put_optional(&mut members, "displayName", optional_text_value(display_name));
        put_optional(&mut members, "supportedDocumentTypes", optional_texts_value(supported_document_types));
        put_optional(&mut members, "supportedMessageVersions", optional_texts_value(supported_message_versions));
        put_optional(&mut members, "supportsSchemaCatalog", optional_flag_value(supports_schema_catalog));
    }
    object_value(members)
}

fn hello_from_json(json: &JsonValue) -> (message: Option<CultNetMessage>)
    ensures
        match message {
            Some(found) => hello_reads(json@, found),
            None => forall|any: CultNetMessage| !#[trigger] hello_reads(json@, any),
        },
{
    if !fits_fields(json, 9) {
        return None;
    }
    Some(
        CultNetMessage::Hello {
            runtime_id: read_text_part(json, "runtimeId", 1)?,
            runtime_kind: read_text_part(json, "runtimeKind", 2)?,
            agent_id: read_optional_text_part(json, "agentId", 3)?,
            role: read_optional_text_part(json, "role", 4)?,
            display_name: read_optional_text_part(json, "displayName", 5)?,
            supported_document_types: read_optional_texts_part(json, "supportedDocumentTypes", 6)?,
            supported_message_versions: read_optional_texts_part(json, "supportedMessageVersions", 7)?,
            supports_schema_catalog: read_optional_flag_part(json, "supportsSchemaCatalog", 8)?,
        },
    )
}

proof fn hello_reads_back(message: CultNetMessage)
    requires
        message is Hello,
    ensures
        hello_reads(hello_json(message), message),
        text_part(hello_json(message), "schemaVersion"@, 0) == Some("cultnet.hello.v0"@),
{
    broadcast use group_json_members;

    reveal_strlit("schemaVersion");
    assert("schemaVersion"@.len() == 13);
    reveal_strlit("runtimeId");
    assert("runtimeId"@.len() == 9);
    reveal_strlit("runtimeKind");
    assert("runtimeKind"@.len() == 11);
    reveal_strlit("agentId");
    assert("agentId"@.len() == 7);
    reveal_strlit("role");
    assert("role"@.len() == 4);
    reveal_strlit("displayName");
    assert("displayName"@.len() == 11);
    reveal_strlit("supportedDocumentTypes");
    assert("supportedDocumentTypes"@.len() == 22);
    reveal_strlit("supportedMessageVersions");
    assert("supportedMessageVersions"@.len() == 24);
    reveal_strlit("supportsSchemaCatalog");
    assert("supportsSchemaCatalog"@.len() == 21);
    assert("runtimeKind"@[0] != "displayName"@[0]);
}

proof fn hello_read_alike(json: Json, a: CultNetMessage, b: CultNetMessage)
    requires
        hello_reads(json, a),
        hello_reads(json, b),
    ensures
        hello_json(a) == hello_json(b),
        a.refusal() == b.refusal(),
{
    reveal(CultNetMessage::refusal);
}

proof fn hello_is_proper(message: CultNetMessage)
    requires
        message is Hello,
        message.settled(),
    ensures
        proper(hello_json(message)),
{
    broadcast use group_proper_members;

    assert(proper_members(hello_json(message)->Object_0));
}

/// The JSON form of `cultnet.login.v0`.
pub open spec fn login_json(message: CultNetMessage) -> Json {
    match message {
        CultNetMessage::Login { nonce, auth, password } => {
            let members = tagged("cultnet.login.v0"@);
            let members = with_optional(members, "nonce"@, Some(Json::Text(nonce@)));
            let members = with_optional(members, "auth"@, Some(Json::Text(auth@)));
            let members = with_optional(members, "password"@, Some(Json::Text(password@)));
            Json::Object(members)
        },
        _ => Json::Null,
    }
}

/// The message is a `cultnet.login.v0` that holds what the JSON value says.
pub open spec fn login_reads(json: Json, message: CultNetMessage) -> bool {
    match message {
        CultNetMessage::Login { nonce, auth, password } => {
            &&& fits(json, 4)
            &&& text_part(json, "nonce"@, 1) == Some(nonce@)
            &&& text_part(json, "auth"@, 2) == Some(auth@)
            &&& text_part(json, "password"@, 3) == Some(password@)
        },
        _ => false,
    }
}

fn login_to_json(message: &CultNetMessage) -> (value: JsonValue)
    requires
        message is Login,
    ensures
        value@ == login_json(*message),
{
    let mut members = tagged_members("cultnet.login.v0");
    if let CultNetMessage::Login { nonce, auth, password } = message {
        put(&mut members, "nonce", text_json(nonce));
        put(&mut members, "auth", text_json(auth));
        put(&mut members, "password", text_json(password));
    }
    object_value(members)
}

fn login_from_json(json: &JsonValue) -> (message: Option<CultNetMessage>)
    ensures
        match message {
            Some(found) => login_reads(json@, found),
            None => forall|any: CultNetMessage| !#[trigger] login_reads(json@, any),
        },
{
    if !fits_fields(json, 4) {
        return None;
    }
    Some(
        CultNetMessage::Login {
            nonce: read_text_part(json, "nonce", 1)?,
            auth: read_text_part(json, "auth", 2)?,
            password: read_text_part(json, "password", 3)?,
        },
    )
}

proof fn login_reads_back(message: CultNetMessage)
    requires
        message is Login,
    ensures
        login_reads(login_json(message), message),
        text_part(login_json(message), "schemaVersion"@, 0) == Some("cultnet.login.v0"@),
{
    broadcast use group_json_members;

    reveal_strlit("schemaVersion");
    assert("schemaVersion"@.len() == 13);
    reveal_strlit("nonce");
    assert("nonce"@.len() == 5);
    reveal_strlit("auth");
    assert("auth"@.len() == 4);
    reveal_strlit("password");
    assert("password"@.len() == 8);
}

pub(crate) proof fn login_is_no_earlier_tag()
    ensures
        "cultnet.login.v0"@ != "cultnet.hello.v0"@,
{
    reveal_strlit("cultnet.login.v0");
    assert("cultnet.login.v0"@.len() == 16);
    reveal_strlit("cultnet.hello.v0");
    assert("cultnet.hello.v0"@.len() == 16);
    assert("cultnet.login.v0"@[8] != "cultnet.hello.v0"@[8]);
}

proof fn login_read_alike(json: Json, a: CultNetMessage, b: CultNetMessage)
    requires
        login_reads(json, a),
        login_reads(json, b),
    ensures
        login_json(a) == login_json(b),
        a.refusal() == b.refusal(),
{
    reveal(CultNetMessage::refusal);
}

proof fn login_is_proper(message: CultNetMessage)
    requires
        message is Login,
        message.settled(),
    ensures
        proper(login_json(message)),
{
    broadcast use group_proper_members;

    assert(proper_members(login_json(message)->Object_0));
}

/// The JSON form of `cultnet.register.v0`.
pub open spec fn register_json(message: CultNetMessage) -> Json {
    match message {
        CultNetMessage::Register { nonce, email, password, name } => {
            let members = tagged("cultnet.register.v0"@);
            let members = with_optional(members, "nonce"@, Some(Json::Text(nonce@)));
            let members = with_optional(members, "email"@, Some(Json::Text(email@)));
            let members = with_optional(members, "password"@, Some(Json::Text(password@)));
            let members = with_optional(members, "name"@, Some(Json::Text(name@)));
            Json::Object(members)
        },
        _ => Json::Null,
    }
}

/// The message is a `cultnet.register.v0` that holds what the JSON value says.
pub open spec fn register_reads(json: Json, message: CultNetMessage) -> bool {
    match message {
        CultNetMessage::Register { nonce, email, password, name } => {
            &&& fits(json, 5)
            &&& text_part(json, "nonce"@, 1) == Some(nonce@)
            &&& text_part(json, "email"@, 2) == Some(email@)
            &&& text_part(json, "password"@, 3) == Some(password@)
            &&& text_part(json, "name"@, 4) == Some(name@)
        },
        _ => false,
    }
}

fn register_to_json(message: &CultNetMessage) -> (value: JsonValue)
    requires
        message is Register,
    ensures
        value@ == register_json(*message),
{
    let mut members = tagged_members("cultnet.register.v0");
    if let CultNetMessage::Register { nonce, email, password, name } = message {
        put(&mut members, "nonce", text_json(nonce));
        put(&mut members, "email", text_json(email));
        put(&mut members, "password", text_json(password));
        put(&mut members, "name", text_json(name));
    }
    object_value(members)
}

fn register_from_json(json: &JsonValue) -> (message: Option<CultNetMessage>)
    ensures
        match message {
            Some(found) => register_reads(json@, found),
            None => forall|any: CultNetMessage| !#[trigger] register_reads(json@, any),
        },
{
    if !fits_fields(json, 5) {
        return None;
    }
    Some(
        CultNetMessage::Register {
            nonce: read_text_part(json, "nonce", 1)?,
            email: read_text_part(json, "email", 2)?,
            password: read_text_part(json, "password", 3)?,
            name: read_text_part(json, "name", 4)?,
        },
    )
}

proof fn register_reads_back(message: CultNetMessage)
    requires
        message is Register,
    ensures
        register_reads(register_json(message), message),
        text_part(register_json(message), "schemaVersion"@, 0) == Some("cultnet.register.v0"@),
{
    broadcast use group_json_members;

    reveal_strlit("schemaVersion");
    assert("schemaVersion"@.len() == 13);
    reveal_strlit("nonce");
    assert("nonce"@.len() == 5);
    reveal_strlit("email");
    assert("email"@.len() == 5);
    reveal_strlit("password");
    assert("password"@.len() == 8);
    reveal_strlit("name");
    assert("name"@.len() == 4);
    assert("nonce"@[0] != "email"@[0]);
}

pub(crate) proof fn register_is_no_earlier_tag()
    ensures
        "cultnet.register.v0"@ != "cultnet.hello.v0"@,
        "cultnet.register.v0"@ != "cultnet.login.v0"@,
{
    reveal_strlit("cultnet.register.v0");
    assert("cultnet.register.v0"@.len() == 19);
    reveal_strlit("cultnet.hello.v0");
    assert("cultnet.hello.v0"@.len() == 16);
    reveal_strlit("cultnet.login.v0");
    assert("cultnet.login.v0"@.len() == 16);
}

proof fn register_read_alike(json: Json, a: CultNetMessage, b: CultNetMessage)
    requires
        register_reads(json, a),
        register_reads(json, b),
    ensures
        register_json(a) == register_json(b),
        a.refusal() == b.refusal(),
{
    reveal(CultNetMessage::refusal);
}

proof fn register_is_proper(message: CultNetMessage)
    requires
        message is Register,
        message.settled(),
    ensures
        proper(register_json(message)),
{
    broadcast use group_proper_members;

    assert(proper_members(register_json(message)->Object_0));
}

/// The JSON form of `cultnet.verify.v0`.
pub open spec fn verify_json(message: CultNetMessage) -> Json {
    match message {
        CultNetMessage::Verify { nonce, session } => {
            let members = tagged("cultnet.verify.v0"@);
            let members = with_optional(members, "nonce"@, Some(Json::Text(nonce@)));
            let members = with_optional(members, "session"@, Some(Json::Text(session@)));
            Json::Object(members)
        },
        _ => Json::Null,
    }
}

/// The message is a `cultnet.verify.v0` that holds what the JSON value says.
pub open spec fn verify_reads(json: Json, message: CultNetMessage) -> bool {
    match message {
        CultNetMessage::Verify { nonce, session } => {
            &&& fits(json, 3)
            &&& text_part(json, "nonce"@, 1) == Some(nonce@)
            &&& text_part(json, "session"@, 2) == Some(session@)
        },
        _ => false,
    }
}

fn verify_to_json(message: &CultNetMessage) -> (value: JsonValue)
    requires
        message is Verify,
    ensures
        value@ == verify_json(*message),
{
    let mut members = tagged_members("cultnet.verify.v0");
    if let CultNetMessage::Verify { nonce, session } = message {
        put(&mut members, "nonce", text_json(nonce));
        put(&mut members, "session", text_json(session));
    }
    object_value(members)
}

fn verify_from_json(json: &JsonValue) -> (message: Option<CultNetMessage>)
    ensures
        match message {
            Some(found) => verify_reads(json@, found),
            None => forall|any: CultNetMessage| !#[trigger] verify_reads(json@, any),
        },
{
    if !fits_fields(json, 3) {
        return None;
    }
    Some(
        CultNetMessage::Verify {
            nonce: read_text_part(json, "nonce", 1)?,
            session: read_text_part(json, "session", 2)?,
        },
    )
}

proof fn verify_reads_back(message: CultNetMessage)
    requires
        message is Verify,
    ensures
        verify_reads(verify_json(message), message),
        text_part(verify_json(message), "schemaVersion"@, 0) == Some("cultnet.verify.v0"@),
{
    broadcast use group_json_members;

    reveal_strlit("schemaVersion");
    assert("schemaVersion"@.len() == 13);
    reveal_strlit("nonce");
    assert("nonce"@.len() == 5);
    reveal_strlit("session");
    assert("session"@.len() == 7);
}

pub(crate) proof fn verify_is_no_earlier_tag()
    ensures
        "cultnet.verify.v0"@ != "cultnet.hello.v0"@,
        "cultnet.verify.v0"@ != "cultnet.login.v0"@,
        "cultnet.verify.v0"@ != "cultnet.register.v0"@,
{
    reveal_strlit("cultnet.verify.v0");
    assert("cultnet.verify.v0"@.len() == 17);
    reveal_strlit("cultnet.hello.v0");
    assert("cultnet.hello.v0"@.len() == 16);
    reveal_strlit("cultnet.login.v0");
    assert("cultnet.login.v0"@.len() == 16);
    reveal_strlit("cultnet.register.v0");
    assert("cultnet.register.v0"@.len() == 19);
}

proof fn verify_read_alike(json: Json, a: CultNetMessage, b: CultNetMessage)
    requires
        verify_reads(json, a),
        verify_reads(json, b),
    ensures
        verify_json(a) == verify_json(b),
        a.refusal() == b.refusal(),
{
    reveal(CultNetMessage::refusal);
}

proof fn verify_is_proper(message: CultNetMessage)
    requires
        message is Verify,
        message.settled(),
    ensures
        proper(verify_json(message)),
{
    broadcast use group_proper_members;

    assert(proper_members(verify_json(message)->Object_0));
}

/// The JSON form of `cultnet.login_success.v0`.
pub open spec fn login_success_json(message: CultNetMessage) -> Json {
    match message {
        CultNetMessage::LoginSuccess { nonce, session } => {
            let members = tagged("cultnet.login_success.v0"@);
            let members = with_optional(members, "nonce"@, Some(Json::Text(nonce@)));
            let members = with_optional(members, "session"@, Some(Json::Text(session@)));
            Json::Object(members)
        },
        _ => Json::Null,
    }
}

/// The message is a `cultnet.login_success.v0` that holds what the JSON value says.
pub open spec fn login_success_reads(json: Json, message: CultNetMessage) -> bool {
    match message {
        CultNetMessage::LoginSuccess { nonce, session } => {
            &&& fits(json, 3)
            &&& text_part(json, "nonce"@, 1) == Some(nonce@)
            &&& text_part(json, "session"@, 2) == Some(session@)
        },
        _ => false,
    }
}

fn login_success_to_json(message: &CultNetMessage) -> (value: JsonValue)
    requires
        message is LoginSuccess,
    ensures
        value@ == login_success_json(*message),
{
    let mut members = tagged_members("cultnet.login_success.v0");
    if let CultNetMessage::LoginSuccess { nonce, session } = message {
        put(&mut members, "nonce", text_json(nonce));
        put(&mut members, "session", text_json(session));
    }
    object_value(members)
}

fn login_success_from_json(json: &JsonValue) -> (message: Option<CultNetMessage>)
    ensures
        match message {
            Some(found) => login_success_reads(json@, found),
            None => forall|any: CultNetMessage| !#[trigger] login_success_reads(json@, any),
        },
{
    if !fits_fields(json, 3) {
        return None;
    }
    Some(
        CultNetMessage::LoginSuccess {
            nonce: read_text_part(json, "nonce", 1)?,
            session: read_text_part(json, "session", 2)?,
        },
    )
}

proof fn login_success_reads_back(message: CultNetMessage)
    requires
        message is LoginSuccess,
    ensures
        login_success_reads(login_success_json(message), message),
        text_part(login_success_json(message), "schemaVersion"@, 0) == Some("cultnet.login_success.v0"@),
{
    broadcast use group_json_members;

    reveal_strlit("schemaVersion");
    assert("schemaVersion"@.len() == 13);
    reveal_strlit("nonce");
    assert("nonce"@.len() == 5);
    reveal_strlit("session");
    assert("session"@.len() == 7);
}

pub(crate) proof fn login_success_is_no_earlier_tag()
    ensures
        "cultnet.login_success.v0"@ != "cultnet.hello.v0"@,
        "cultnet.login_success.v0"@ != "cultnet.login.v0"@,
        "cultnet.login_success.v0"@ != "cultnet.register.v0"@,
        "cultnet.login_success.v0"@ != "cultnet.verify.v0"@,
{
    reveal_strlit("cultnet.login_success.v0");
    assert("cultnet.login_success.v0"@.len() == 24);
    reveal_strlit("cultnet.hello.v0");
    assert("cultnet.hello.v0"@.len() == 16);
    reveal_strlit("cultnet.login.v0");
    assert("cultnet.login.v0"@.len() == 16);
    reveal_strlit("cultnet.register.v0");
    assert("cultnet.register.v0"@.len() == 19);
    reveal_strlit("cultnet.verify.v0");
    assert("cultnet.verify.v0"@.len() == 17);
}

proof fn login_success_read_alike(json: Json, a: CultNetMessage, b: CultNetMessage)
    requires
        login_success_reads(json, a),
        login_success_reads(json, b),
    ensures
        login_success_json(a) == login_success_json(b),
        a.refusal() == b.refusal(),
{
    reveal(CultNetMessage::refusal);
}

proof fn login_success_is_proper(message: CultNetMessage)
    requires
        message is LoginSuccess,
        message.settled(),
    ensures
        proper(login_success_json(message)),
{
    broadcast use group_proper_members;

    assert(proper_members(login_success_json(message)->Object_0));
}

/// The JSON form of `cultnet.error.v0`.
pub open spec fn error_json(message: CultNetMessage) -> Json {
    match message {
        CultNetMessage::Error { error } => {
            let members = tagged("cultnet.error.v0"@);
            let members = with_optional(members, "error"@, Some(Json::Text(error@)));
            Json::Object(members)
        },
        _ => Json::Null,
    }
}

/// The message is a `cultnet.error.v0` that holds what the JSON value says.
pub open spec fn error_reads(json: Json, message: CultNetMessage) -> bool {
    match message {
        CultNetMessage::Error { error } => {
            &&& fits(json, 2)
            &&& text_part(json, "error"@, 1) == Some(error@)
        },
        _ => false,
    }
}

fn error_to_json(message: &CultNetMessage) -> (value: JsonValue)
    requires
        message is Error,
    ensures
        value@ == error_json(*message),
{
    let mut members = tagged_members("cultnet.error.v0");
    if let CultNetMessage::Error { error } = message {
        put(&mut members, "error", text_json(error));
    }
    object_value(members)
}

fn error_from_json(json: &JsonValue) -> (message: Option<CultNetMessage>)
    ensures
        match message {
            Some(found) => error_reads(json@, found),
            None => forall|any: CultNetMessage| !#[trigger] error_reads(json@, any),
        },
{
    if !fits_fields(json, 2) {
        return None;
    }
    Some(
        CultNetMessage::Error {
            error: read_text_part(json, "error", 1)?,
        },
    )
}

proof fn error_reads_back(message: CultNetMessage)
    requires
        message is Error,
    ensures
        error_reads(error_json(message), message),
        text_part(error_json(message), "schemaVersion"@, 0) == Some("cultnet.error.v0"@),
{
    broadcast use group_json_members;

    reveal_strlit("schemaVersion");
    assert("schemaVersion"@.len() == 13);
    reveal_strlit("error");
    assert("error"@.len() == 5);
}

pub(crate) proof fn error_is_no_earlier_tag()
    ensures
        "cultnet.error.v0"@ != "cultnet.hello.v0"@,
        "cultnet.error.v0"@ != "cultnet.login.v0"@,
        "cultnet.error.v0"@ != "cultnet.register.v0"@,
        "cultnet.error.v0"@ != "cultnet.verify.v0"@,
        "cultnet.error.v0"@ != "cultnet.login_success.v0"@,
{
    reveal_strlit("cultnet.error.v0");
    assert("cultnet.error.v0"@.len() == 16);
    reveal_strlit("cultnet.hello.v0");
    assert("cultnet.hello.v0"@.len() == 16);
    assert("cultnet.error.v0"@[8] != "cultnet.hello.v0"@[8]);
    reveal_strlit("cultnet.login.v0");
    assert("cultnet.login.v0"@.len() == 16);
    assert("cultnet.error.v0"@[8] != "cultnet.login.v0"@[8]);
    reveal_strlit("cultnet.register.v0");
    assert("cultnet.register.v0"@.len() == 19);
    reveal_strlit("cultnet.verify.v0");
    assert("cultnet.verify.v0"@.len() == 17);
    reveal_strlit("cultnet.login_success.v0");
    assert("cultnet.login_success.v0"@.len() == 24);
}

proof fn error_read_alike(json: Json, a: CultNetMessage, b: CultNetMessage)
    requires
        error_reads(json, a),
        error_reads(json, b),
    ensures
        error_json(a) == error_json(b),
        a.refusal() == b.refusal(),
{
    reveal(CultNetMessage::refusal);
}

proof fn error_is_proper(message: CultNetMessage)
    requires
        message is Error,
        message.settled(),
    ensures
        proper(error_json(message)),
{
    broadcast use group_proper_members;

    assert(proper_members(error_json(message)->Object_0));
}

/// The JSON form of `cultnet.sample.change_name.v0`.
pub open spec fn sample_change_name_json(message: CultNetMessage) -> Json {
    match message {
        CultNetMessage::SampleChangeName { name } => {
            let members = tagged("cultnet.sample.change_name.v0"@);
            let members = with_optional(members, "name"@, Some(Json::Text(name@)));
            Json::Object(members)
        },
        _ => Json::Null,
    }
}

/// The message is a `cultnet.sample.change_name.v0` that holds what the JSON value says.
pub open spec fn sample_change_name_reads(json: Json, message: CultNetMessage) -> bool {
    match message {
        CultNetMessage::SampleChangeName { name } => {
            &&& fits(json, 2)
            &&& text_part(json, "name"@, 1) == Some(name@)
        },
        _ => false,
    }
}

fn sample_change_name_to_json(message: &CultNetMessage) -> (value: JsonValue)
    requires
        message is SampleChangeName,
    ensures
        value@ == sample_change_name_json(*message),
{
    let mut members = tagged_members("cultnet.sample.change_name.v0");
    if let CultNetMessage::SampleChangeName { name } = message {
        put(&mut members, "name", text_json(name));
    }
    object_value(members)
}

fn sample_change_name_from_json(json: &JsonValue) -> (message: Option<CultNetMessage>)
    ensures
        match message {
            Some(found) => sample_change_name_reads(json@, found),
            None => forall|any: CultNetMessage| !#[trigger] sample_change_name_reads(json@, any),
        },
{
    if !fits_fields(json, 2) {
        return None;
    }
    Some(
        CultNetMessage::SampleChangeName {
            name: read_text_part(json, "name", 1)?,
        },
    )
}

proof fn sample_change_name_reads_back(message: CultNetMessage)
    requires
        message is SampleChangeName,
    ensures
        sample_change_name_reads(sample_change_name_json(message), message),
        text_part(sample_change_name_json(message), "schemaVersion"@, 0) == Some("cultnet.sample.change_name.v0"@),
{
    broadcast use group_json_members;

    reveal_strlit("schemaVersion");
    assert("schemaVersion"@.len() == 13);
    reveal_strlit("name");
    assert("name"@.len() == 4);
}

pub(crate) proof fn sample_change_name_is_no_earlier_tag()
    ensures
        "cultnet.sample.change_name.v0"@ != "cultnet.hello.v0"@,
        "cultnet.sample.change_name.v0"@ != "cultnet.login.v0"@,
        "cultnet.sample.change_name.v0"@ != "cultnet.register.v0"@,
        "cultnet.sample.change_name.v0"@ != "cultnet.verify.v0"@,
        "cultnet.sample.change_name.v0"@ != "cultnet.login_success.v0"@,
        "cultnet.sample.change_name.v0"@ != "cultnet.error.v0"@,
{
    reveal_strlit("cultnet.sample.change_name.v0");
    assert("cultnet.sample.change_name.v0"@.len() == 29);
    reveal_strlit("cultnet.hello.v0");
    assert("cultnet.hello.v0"@.len() == 16);
    reveal_strlit("cultnet.login.v0");
    assert("cultnet.login.v0"@.len() == 16);
    reveal_strlit("cultnet.register.v0");
    assert("cultnet.register.v0"@.len() == 19);
    reveal_strlit("cultnet.verify.v0");
    assert("cultnet.verify.v0"@.len() == 17);
    reveal_strlit("cultnet.login_success.v0");
    assert("cultnet.login_success.v0"@.len() == 24);
    reveal_strlit("cultnet.error.v0");
    assert("cultnet.error.v0"@.len() == 16);
}

proof fn sample_change_name_read_alike(json: Json, a: CultNetMessage, b: CultNetMessage)
    requires
        sample_change_name_reads(json, a),
        sample_change_name_reads(json, b),
    ensures
        sample_change_name_json(a) == sample_change_name_json(b),
        a.refusal() == b.refusal(),
{
    reveal(CultNetMessage::refusal);
}

proof fn sample_change_name_is_proper(message: CultNetMessage)
    requires
        message is SampleChangeName,
        message.settled(),
    ensures
        proper(sample_change_name_json(message)),
{
    broadcast use group_proper_members;

    assert(proper_members(sample_change_name_json(message)->Object_0));
}

/// The JSON form of `cultnet.sample.chat.v0`.
pub open spec fn sample_chat_json(message: CultNetMessage) -> Json {
    match message {
        CultNetMessage::SampleChat { text } => {
            let members = tagged("cultnet.sample.chat.v0"@);
            let members = with_optional(members, "text"@, Some(Json::Text(text@)));
            Json::Object(members)
        },
        _ => Json::Null,
    }
}

/// The message is a `cultnet.sample.chat.v0` that holds what the JSON value says.
pub open spec fn sample_chat_reads(json: Json, message: CultNetMessage) -> bool {
    match message {
        CultNetMessage::SampleChat { text } => {
            &&& fits(json, 2)
            &&& text_part(json, "text"@, 1) == Some(text@)
        },
        _ => false,
    }
}

fn sample_chat_to_json(message: &CultNetMessage) -> (value: JsonValue)
    requires
        message is SampleChat,
    ensures
        value@ == sample_chat_json(*message),
{
    let mut members = tagged_members("cultnet.sample.chat.v0");
    if let CultNetMessage::SampleChat { text } = message {
        put(&mut members, "text", text_json(text));
    }
    object_value(members)
}

fn sample_chat_from_json(json: &JsonValue) -> (message: Option<CultNetMessage>)
    ensures
        match message {
            Some(found) => sample_chat_reads(json@, found),
            None => forall|any: CultNetMessage| !#[trigger] sample_chat_reads(json@, any),
        },
{
    if !fits_fields(json, 2) {
        return None;
    }
    Some(
        CultNetMessage::SampleChat {
            text: read_text_part(json, "text", 1)?,
        },
    )
}

proof fn sample_chat_reads_back(message: CultNetMessage)
    requires
        message is SampleChat,
    ensures
        sample_chat_reads(sample_chat_json(message), message),
        text_part(sample_chat_json(message), "schemaVersion"@, 0) == Some("cultnet.sample.chat.v0"@),
{
    broadcast use group_json_members;

    reveal_strlit("schemaVersion");
    assert("schemaVersion"@.len() == 13);
    reveal_strlit("text");
    assert("text"@.len() == 4);
}

pub(crate) proof fn sample_chat_is_no_earlier_tag()
    ensures
        "cultnet.sample.chat.v0"@ != "cultnet.hello.v0"@,
        "cultnet.sample.chat.v0"@ != "cultnet.login.v0"@,
        "cultnet.sample.chat.v0"@ != "cultnet.register.v0"@,
        "cultnet.sample.chat.v0"@ != "cultnet.verify.v0"@,
        "cultnet.sample.chat.v0"@ != "cultnet.login_success.v0"@,
        "cultnet.sample.chat.v0"@ != "cultnet.error.v0"@,
        "cultnet.sample.chat.v0"@ != "cultnet.sample.change_name.v0"@,
{
    reveal_strlit("cultnet.sample.chat.v0");
    assert("cultnet.sample.chat.v0"@.len() == 22);
    reveal_strlit("cultnet.hello.v0");
    assert("cultnet.hello.v0"@.len() == 16);
    reveal_strlit("cultnet.login.v0");
    assert("cultnet.login.v0"@.len() == 16);
    reveal_strlit("cultnet.register.v0");
    assert("cultnet.register.v0"@.len() == 19);
    reveal_strlit("cultnet.verify.v0");
    assert("cultnet.verify.v0"@.len() == 17);
    reveal_strlit("cultnet.login_success.v0");
    assert("cultnet.login_success.v0"@.len() == 24);
    reveal_strlit("cultnet.error.v0");
    assert("cultnet.error.v0"@.len() == 16);
    reveal_strlit("cultnet.sample.change_name.v0");
    assert("cultnet.sample.change_name.v0"@.len() == 29);
}

proof fn sample_chat_read_alike(json: Json, a: CultNetMessage, b: CultNetMessage)
    requires
        sample_chat_reads(json, a),
        sample_chat_reads(json, b),
    ensures
        sample_chat_json(a) == sample_chat_json(b),
        a.refusal() == b.refusal(),
{
    reveal(CultNetMessage::refusal);
}

proof fn sample_chat_is_proper(message: CultNetMessage)
    requires
        message is SampleChat,
        message.settled(),
    ensures
        proper(sample_chat_json(message)),
{
    broadcast use group_proper_members;

    assert(proper_members(sample_chat_json(message)->Object_0));
}

/// The JSON form of `cultnet.document_put.v0`.
pub open spec fn document_put_json(message: CultNetMessage) -> Json {
    match message {
        CultNetMessage::DocumentPut { message_id, document } => {
            let members = tagged("cultnet.document_put.v0"@);
            let members = with_optional(members, "messageId"@, Some(Json::Text(message_id@)));
            let members = with_optional(members, "document"@, Some(document.json()));
            Json::Object(members)
        },
        _ => Json::Null,
    }
}

/// The message is a `cultnet.document_put.v0` that holds what the JSON value says.
pub open spec fn document_put_reads(json: Json, message: CultNetMessage) -> bool {
    match message {
        CultNetMessage::DocumentPut { message_id, document } => {
            &&& fits(json, 3)
            &&& text_part(json, "messageId"@, 1) == Some(message_id@)
            &&& reads_part(json, "document"@, 2, document)
        },
        _ => false,
    }
}

fn document_put_to_json(message: &CultNetMessage) -> (value: JsonValue)
    requires
        message is DocumentPut,
    ensures
        value@ == document_put_json(*message),
{
    let mut members = tagged_members("cultnet.document_put.v0");
    if let CultNetMessage::DocumentPut { message_id, document } = message {
        put(&mut members, "messageId", text_json(message_id));
        put(&mut members, "document", document.to_json());
    }
    object_value(members)
}

fn document_put_from_json(json: &JsonValue) -> (message: Option<CultNetMessage>)
    ensures
        match message {
            Some(found) => document_put_reads(json@, found),
            None => forall|any: CultNetMessage| !#[trigger] document_put_reads(json@, any),
        },
{
    if !fits_fields(json, 3) {
        return None;
    }
    Some(
        CultNetMessage::DocumentPut {
            message_id: read_text_part(json, "messageId", 1)?,
            document: read_form_part(json, "document", 2)?,
        },
    )
}

proof fn document_put_reads_back(message: CultNetMessage)
    requires
        message is DocumentPut,
    ensures
        document_put_reads(document_put_json(message), message),
        text_part(document_put_json(message), "schemaVersion"@, 0) == Some("cultnet.document_put.v0"@),
{
    broadcast use group_json_members;

    reveal_strlit("schemaVersion");
    assert("schemaVersion"@.len() == 13);
    reveal_strlit("messageId");
    assert("messageId"@.len() == 9);
    reveal_strlit("document");
    assert("document"@.len() == 8);
    message->DocumentPut_document.reads_back();
}

pub(crate) proof fn document_put_is_no_earlier_tag()
    ensures
        "cultnet.document_put.v0"@ != "cultnet.hello.v0"@,
        "cultnet.document_put.v0"@ != "cultnet.login.v0"@,
        "cultnet.document_put.v0"@ != "cultnet.register.v0"@,
        "cultnet.document_put.v0"@ != "cultnet.verify.v0"@,
        "cultnet.document_put.v0"@ != "cultnet.login_success.v0"@,
        "cultnet.document_put.v0"@ != "cultnet.error.v0"@,
        "cultnet.document_put.v0"@ != "cultnet.sample.change_name.v0"@,
        "cultnet.document_put.v0"@ != "cultnet.sample.chat.v0"@,
{
    reveal_strlit("cultnet.document_put.v0");
    assert("cultnet.document_put.v0"@.len() == 23);
    reveal_strlit("cultnet.hello.v0");
    assert("cultnet.hello.v0"@.len() == 16);
    reveal_strlit("cultnet.login.v0");
    assert("cultnet.login.v0"@.len() == 16);
    reveal_strlit("cultnet.register.v0");
    assert("cultnet.register.v0"@.len() == 19);
    reveal_strlit("cultnet.verify.v0");
    assert("cultnet.verify.v0"@.len() == 17);
    reveal_strlit("cultnet.login_success.v0");
    assert("cultnet.login_success.v0"@.len() == 24);
    reveal_strlit("cultnet.error.v0");
    assert("cultnet.error.v0"@.len() == 16);
    reveal_strlit("cultnet.sample.change_name.v0");
    assert("cultnet.sample.change_name.v0"@.len() == 29);
    reveal_strlit("cultnet.sample.chat.v0");
    assert("cultnet.sample.chat.v0"@.len() == 22);
}

proof fn document_put_read_alike(json: Json, a: CultNetMessage, b: CultNetMessage)
    requires
        document_put_reads(json, a),
        document_put_reads(json, b),
    ensures
        document_put_json(a) == document_put_json(b),
        a.refusal() == b.refusal(),
{
    reveal(CultNetMessage::refusal);
    CultNetDocumentRecord::<JsonValue>::read_alike(part(json, "document"@, 2)->0, a->DocumentPut_document, b->DocumentPut_document);
}

proof fn document_put_is_proper(message: CultNetMessage)
    requires
        message is DocumentPut,
        message.settled(),
    ensures
        proper(document_put_json(message)),
{
    broadcast use group_proper_members;

    message->DocumentPut_document.settled_is_proper();
    assert(proper_members(document_put_json(message)->Object_0));
}

/// The JSON form of `cultnet.document_put_raw.v0`.
pub open spec fn document_put_raw_json(message: CultNetMessage) -> Json {
    match message {
        CultNetMessage::DocumentPutRaw { message_id, document } => {
            let members = tagged("cultnet.document_put_raw.v0"@);
            let members = with_optional(members, "messageId"@, Some(Json::Text(message_id@)));
            let members = with_optional(members, "document"@, Some(document.json()));
            Json::Object(members)
        },
        _ => Json::Null,
    }
}

/// The message is a `cultnet.document_put_raw.v0` that holds what the JSON value says.
pub open spec fn document_put_raw_reads(json: Json, message: CultNetMessage) -> bool {
    match message {
        CultNetMessage::DocumentPutRaw { message_id, document } => {
            &&& fits(json, 3)
            &&& text_part(json, "messageId"@, 1) == Some(message_id@)
            &&& reads_part(json, "document"@, 2, document)
        },
        _ => false,
    }
}

fn document_put_raw_to_json(message: &CultNetMessage) -> (value: JsonValue)
    requires
        message is DocumentPutRaw,
    ensures
        value@ == document_put_raw_json(*message),
{
    let mut members = tagged_members("cultnet.document_put_raw.v0");
    if let CultNetMessage::DocumentPutRaw { message_id, document } = message {
        put(&mut members, "messageId", text_json(message_id));
        put(&mut members, "document", document.to_json());
    }
    object_value(members)
}

fn document_put_raw_from_json(json: &JsonValue) -> (message: Option<CultNetMessage>)
    ensures
        match message {
            Some(found) => document_put_raw_reads(json@, found),
            None => forall|any: CultNetMessage| !#[trigger] document_put_raw_reads(json@, any),
        },
{
    if !fits_fields(json, 3) {
        return None;
    }
    Some(
        CultNetMessage::DocumentPutRaw {
            message_id: read_text_part(json, "messageId", 1)?,
            document: read_form_part(json, "document", 2)?,
        },
    )
}

proof fn document_put_raw_reads_back(message: CultNetMessage)
    requires
        message is DocumentPutRaw,
    ensures
        document_put_raw_reads(document_put_raw_json(message), message),
        text_part(document_put_raw_json(message), "schemaVersion"@, 0) == Some("cultnet.document_put_raw.v0"@),
{
    broadcast use group_json_members;

    reveal_strlit("schemaVersion");
    assert("schemaVersion"@.len() == 13);
    reveal_strlit("messageId");
    assert("messageId"@.len() == 9);
    reveal_strlit("document");
    assert("document"@.len() == 8);
    message->DocumentPutRaw_document.reads_back();
}

pub(crate) proof fn document_put_raw_is_no_earlier_tag()
    ensures
        "cultnet.document_put_raw.v0"@ != "cultnet.hello.v0"@,
        "cultnet.document_put_raw.v0"@ != "cultnet.login.v0"@,
        "cultnet.document_put_raw.v0"@ != "cultnet.register.v0"@,
        "cultnet.document_put_raw.v0"@ != "cultnet.verify.v0"@,
        "cultnet.document_put_raw.v0"@ != "cultnet.login_success.v0"@,
        "cultnet.document_put_raw.v0"@ != "cultnet.error.v0"@,
        "cultnet.document_put_raw.v0"@ != "cultnet.sample.change_name.v0"@,
        "cultnet.document_put_raw.v0"@ != "cultnet.sample.chat.v0"@,
        "cultnet.document_put_raw.v0"@ != "cultnet.document_put.v0"@,
{
    reveal_strlit("cultnet.document_put_raw.v0");
    assert("cultnet.document_put_raw.v0"@.len() == 27);
    reveal_strlit("cultnet.hello.v0");
    assert("cultnet.hello.v0"@.len() == 16);
    reveal_strlit("cultnet.login.v0");
    assert("cultnet.login.v0"@.len() == 16);
    reveal_strlit("cultnet.register.v0");
    assert("cultnet.register.v0"@.len() == 19);
    reveal_strlit("cultnet.verify.v0");
    assert("cultnet.verify.v0"@.len() == 17);
    reveal_strlit("cultnet.login_success.v0");
    assert("cultnet.login_success.v0"@.len() == 24);
    reveal_strlit("cultnet.error.v0");
    assert("cultnet.error.v0"@.len() == 16);
    reveal_strlit("cultnet.sample.change_name.v0");
    assert("cultnet.sample.change_name.v0"@.len() == 29);
    reveal_strlit("cultnet.sample.chat.v0");
    assert("cultnet.sample.chat.v0"@.len() == 22);
    reveal_strlit("cultnet.document_put.v0");
    assert("cultnet.document_put.v0"@.len() == 23);
}

proof fn document_put_raw_read_alike(json: Json, a: CultNetMessage, b: CultNetMessage)
    requires
        document_put_raw_reads(json, a),
        document_put_raw_reads(json, b),
    ensures
        document_put_raw_json(a) == document_put_raw_json(b),
        a.refusal() == b.refusal(),
{
    reveal(CultNetMessage::refusal);
    CultNetRawDocumentRecord::read_alike(part(json, "document"@, 2)->0, a->DocumentPutRaw_document, b->DocumentPutRaw_document);
}

proof fn document_put_raw_is_proper(message: CultNetMessage)
    requires
        message is DocumentPutRaw,
        message.settled(),
    ensures
        proper(document_put_raw_json(message)),
{
    broadcast use group_proper_members;

    message->DocumentPutRaw_document.settled_is_proper();
    assert(proper_members(document_put_raw_json(message)->Object_0));
}

/// The JSON form of `cultnet.document_delete.v0`.
pub open spec fn document_delete_json(message: CultNetMessage) -> Json {
    match message {
        CultNetMessage::DocumentDelete { message_id, schema_id, record_key } => {
            let members = tagged("cultnet.document_delete.v0"@);
            let members = with_optional(members, "messageId"@, Some(Json::Text(message_id@)));
            let members = with_optional(members, "schemaId"@, Some(Json::Text(schema_id@)));
            let members = with_optional(members, "recordKey"@, Some(Json::Text(record_key@)));
            Json::Object(members)
        },
        _ => Json::Null,
    }
}

/// The message is a `cultnet.document_delete.v0` that holds what the JSON value says.
pub open spec fn document_delete_reads(json: Json, message: CultNetMessage) -> bool {
    match message {
        CultNetMessage::DocumentDelete { message_id, schema_id, record_key } => {
            &&& fits(json, 4)
            &&& text_part(json, "messageId"@, 1) == Some(message_id@)
            &&& text_part(json, "schemaId"@, 2) == Some(schema_id@)
            &&& text_part(json, "recordKey"@, 3) == Some(record_key@)
        },
        _ => false,
    }
}

fn document_delete_to_json(message: &CultNetMessage) -> (value: JsonValue)
    requires
        message is DocumentDelete,
    ensures
        value@ == document_delete_json(*message),
{
    let mut members = tagged_members("cultnet.document_delete.v0");
    if let CultNetMessage::DocumentDelete { message_id, schema_id, record_key } = message {
        put(&mut members, "messageId", text_json(message_id));
        put(&mut members, "schemaId", text_json(schema_id));
        put(&mut members, "recordKey", text_json(record_key));
    }
    object_value(members)
}

fn document_delete_from_json(json: &JsonValue) -> (message: Option<CultNetMessage>)
    ensures
        match message {
            Some(found) => document_delete_reads(json@, found),
            None => forall|any: CultNetMessage| !#[trigger] document_delete_reads(json@, any),
        },
{
    if !fits_fields(json, 4) {
        return None;
    }
    Some(
        CultNetMessage::DocumentDelete {
            message_id: read_text_part(json, "messageId", 1)?,
            schema_id: read_text_part(json, "schemaId", 2)?,
            record_key: read_text_part(json, "recordKey", 3)?,
        },
    )
}

proof fn document_delete_reads_back(message: CultNetMessage)
    requires
        message is DocumentDelete,
    ensures
        document_delete_reads(document_delete_json(message), message),
        text_part(document_delete_json(message), "schemaVersion"@, 0) == Some("cultnet.document_delete.v0"@),
{
    broadcast use group_json_members;

    reveal_strlit("schemaVersion");
    assert("schemaVersion"@.len() == 13);
    reveal_strlit("messageId");
    assert("messageId"@.len() == 9);
    reveal_strlit("schemaId");
    assert("schemaId"@.len() == 8);
    reveal_strlit("recordKey");
    assert("recordKey"@.len() == 9);
    assert("messageId"@[0] != "recordKey"@[0]);
}

pub(crate) proof fn document_delete_is_no_earlier_tag()
    ensures
        "cultnet.document_delete.v0"@ != "cultnet.hello.v0"@,
        "cultnet.document_delete.v0"@ != "cultnet.login.v0"@,
        "cultnet.document_delete.v0"@ != "cultnet.register.v0"@,
        "cultnet.document_delete.v0"@ != "cultnet.verify.v0"@,
        "cultnet.document_delete.v0"@ != "cultnet.login_success.v0"@,
        "cultnet.document_delete.v0"@ != "cultnet.error.v0"@,
        "cultnet.document_delete.v0"@ != "cultnet.sample.change_name.v0"@,
        "cultnet.document_delete.v0"@ != "cultnet.sample.chat.v0"@,
        "cultnet.document_delete.v0"@ != "cultnet.document_put.v0"@,
        "cultnet.document_delete.v0"@ != "cultnet.document_put_raw.v0"@,
{
    reveal_strlit("cultnet.document_delete.v0");
    assert("cultnet.document_delete.v0"@.len() == 26);
    reveal_strlit("cultnet.hello.v0");
    assert("cultnet.hello.v0"@.len() == 16);
    reveal_strlit("cultnet.login.v0");
    assert("cultnet.login.v0"@.len() == 16);
    reveal_strlit("cultnet.register.v0");
    assert("cultnet.register.v0"@.len() == 19);
    reveal_strlit("cultnet.verify.v0");
    assert("cultnet.verify.v0"@.len() == 17);
    reveal_strlit("cultnet.login_success.v0");
    assert("cultnet.login_success.v0"@.len() == 24);
    reveal_strlit("cultnet.error.v0");
    assert("cultnet.error.v0"@.len() == 16);
    reveal_strlit("cultnet.sample.change_name.v0");
    assert("cultnet.sample.change_name.v0"@.len() == 29);
    reveal_strlit("cultnet.sample.chat.v0");
    assert("cultnet.sample.chat.v0"@.len() == 22);
    reveal_strlit("cultnet.document_put.v0");
    assert("cultnet.document_put.v0"@.len() == 23);
    reveal_strlit("cultnet.document_put_raw.v0");
    assert("cultnet.document_put_raw.v0"@.len() == 27);
}

proof fn document_delete_read_alike(json: Json, a: CultNetMessage, b: CultNetMessage)
    requires
        document_delete_reads(json, a),
        document_delete_reads(json, b),
    ensures
        document_delete_json(a) == document_delete_json(b),
        a.refusal() == b.refusal(),
{
    reveal(CultNetMessage::refusal);
}

proof fn document_delete_is_proper(message: CultNetMessage)
    requires
        message is DocumentDelete,
        message.settled(),
    ensures
        proper(document_delete_json(message)),
{
    broadcast use group_proper_members;

    assert(proper_members(document_delete_json(message)->Object_0));
}

/// The JSON form of `cultnet.snapshot_request.v0`.
pub open spec fn snapshot_request_json(message: CultNetMessage) -> Json {
    match message {
        CultNetMessage::SnapshotRequest { message_id, schema_ids, record_keys } => {
            let members = tagged("cultnet.snapshot_request.v0"@);
            let members = with_optional(members, "messageId"@, Some(Json::Text(message_id@)));
            let members = with_optional(members, "schemaIds"@, optional_texts_json(opt_texts(schema_ids)));
            let members = with_optional(members, "recordKeys"@, optional_texts_json(opt_texts(record_keys)));
            Json::Object(members)
        },
        _ => Json::Null,
    }
}

/// The message is a `cultnet.snapshot_request.v0` that holds what the JSON value says.
pub open spec fn snapshot_request_reads(json: Json, message: CultNetMessage) -> bool {
    match message {
        CultNetMessage::SnapshotRequest { message_id, schema_ids, record_keys } => {
            &&& fits(json, 4)
            &&& text_part(json, "messageId"@, 1) == Some(message_id@)
            &&& optional_texts_part(json, "schemaIds"@, 2) == Some(opt_texts(schema_ids))
            &&& optional_texts_part(json, "recordKeys"@, 3) == Some(opt_texts(record_keys))
        },
        _ => false,
    }
}

fn snapshot_request_to_json(message: &CultNetMessage) -> (value: JsonValue)
    requires
        message is SnapshotRequest,
    ensures
        value@ == snapshot_request_json(*message),
{
    let mut members = tagged_members("cultnet.snapshot_request.v0");
    if let CultNetMessage::SnapshotRequest { message_id, schema_ids, record_keys } = message {
        put(&mut members, "messageId", text_json(message_id));
        put_optional(&mut members, "schemaIds", optional_texts_value(schema_ids));
        put_optional(&mut members, "recordKeys", optional_texts_value(record_keys));
    }
    object_value(members)
}

fn snapshot_request_from_json(json: &JsonValue) -> (message: Option<CultNetMessage>)
    ensures
        match message {
            Some(found) => snapshot_request_reads(json@, found),
            None => forall|any: CultNetMessage| !#[trigger] snapshot_request_reads(json@, any),
        },
{
    if !fits_fields(json, 4) {
        return None;
    }
    Some(
        CultNetMessage::SnapshotRequest {
            message_id: read_text_part(json, "messageId", 1)?,
            schema_ids: read_optional_texts_part(json, "schemaIds", 2)?,
            record_keys: read_optional_texts_part(json, "recordKeys", 3)?,
        },
    )
}

proof fn snapshot_request_reads_back(message: CultNetMessage)
    requires
        message is SnapshotRequest,
    ensures
        snapshot_request_reads(snapshot_request_json(message), message),
        text_part(snapshot_request_json(message), "schemaVersion"@, 0) == Some("cultnet.snapshot_request.v0"@),
{
    broadcast use group_json_members;

    reveal_strlit("schemaVersion");
    assert("schemaVersion"@.len() == 13);
    reveal_strlit("messageId");
    assert("messageId"@.len() == 9);
    reveal_strlit("schemaIds");
    assert("schemaIds"@.len() == 9);
    reveal_strlit("recordKeys");
    assert("recordKeys"@.len() == 10);
    assert("messageId"@[0] != "schemaIds"@[0]);
}

pub(crate) proof fn snapshot_request_is_no_earlier_tag()
    ensures
        "cultnet.snapshot_request.v0"@ != "cultnet.hello.v0"@,
        "cultnet.snapshot_request.v0"@ != "cultnet.login.v0"@,
        "cultnet.snapshot_request.v0"@ != "cultnet.register.v0"@,
        "cultnet.snapshot_request.v0"@ != "cultnet.verify.v0"@,
        "cultnet.snapshot_request.v0"@ != "cultnet.login_success.v0"@,
        "cultnet.snapshot_request.v0"@ != "cultnet.error.v0"@,
        "cultnet.snapshot_request.v0"@ != "cultnet.sample.change_name.v0"@,
        "cultnet.snapshot_request.v0"@ != "cultnet.sample.chat.v0"@,
        "cultnet.snapshot_request.v0"@ != "cultnet.document_put.v0"@,
        "cultnet.snapshot_request.v0"@ != "cultnet.document_put_raw.v0"@,
        "cultnet.snapshot_request.v0"@ != "cultnet.document_delete.v0"@,
{
    reveal_strlit("cultnet.snapshot_request.v0");
    assert("cultnet.snapshot_request.v0"@.len() == 27);
    reveal_strlit("cultnet.hello.v0");
    assert("cultnet.hello.v0"@.len() == 16);
    reveal_strlit("cultnet.login.v0");
    assert("cultnet.login.v0"@.len() == 16);
    reveal_strlit("cultnet.register.v0");
    assert("cultnet.register.v0"@.len() == 19);
    reveal_strlit("cultnet.verify.v0");
    assert("cultnet.verify.v0"@.len() == 17);
    reveal_strlit("cultnet.login_success.v0");
    assert("cultnet.login_success.v0"@.len() == 24);
    reveal_strlit("cultnet.error.v0");
    assert("cultnet.error.v0"@.len() == 16);
    reveal_strlit("cultnet.sample.change_name.v0");
    assert("cultnet.sample.change_name.v0"@.len() == 29);
    reveal_strlit("cultnet.sample.chat.v0");
    assert("cultnet.sample.chat.v0"@.len() == 22);
    reveal_strlit("cultnet.document_put.v0");
    assert("cultnet.document_put.v0"@.len() == 23);
    reveal_strlit("cultnet.document_put_raw.v0");
    assert("cultnet.document_put_raw.v0"@.len() == 27);
    assert("cultnet.snapshot_request.v0"@[8] != "cultnet.document_put_raw.v0"@[8]);
    reveal_strlit("cultnet.document_delete.v0");
    assert("cultnet.document_delete.v0"@.len() == 26);
}

proof fn snapshot_request_read_alike(json: Json, a: CultNetMessage, b: CultNetMessage)
    requires
        snapshot_request_reads(json, a),
        snapshot_request_reads(json, b),
    ensures
        snapshot_request_json(a) == snapshot_request_json(b),
        a.refusal() == b.refusal(),
{
    reveal(CultNetMessage::refusal);
}

proof fn snapshot_request_is_proper(message: CultNetMessage)
    requires
        message is SnapshotRequest,
        message.settled(),
    ensures
        proper(snapshot_request_json(message)),
{
    broadcast use group_proper_members;

    assert(proper_members(snapshot_request_json(message)->Object_0));
}

/// The JSON form of `cultnet.snapshot_response.v0`.
pub open spec fn snapshot_response_json(message: CultNetMessage) -> Json {
    match message {
        CultNetMessage::SnapshotResponse { message_id, documents } => {
            let members = tagged("cultnet.snapshot_response.v0"@);
            let members = with_optional(members, "messageId"@, Some(Json::Text(message_id@)));
            let members = with_optional(members, "documents"@, Some(list_json(documents@)));
            Json::Object(members)
        },
        _ => Json::Null,
    }
}

/// The message is a `cultnet.snapshot_response.v0` that holds what the JSON value says.
pub open spec fn snapshot_response_reads(json: Json, message: CultNetMessage) -> bool {
    match message {
        CultNetMessage::SnapshotResponse { message_id, documents } => {
            &&& fits(json, 3)
            &&& text_part(json, "messageId"@, 1) == Some(message_id@)
            &&& reads_list_part(json, "documents"@, 2, documents@)
        },
        _ => false,
    }
}

fn snapshot_response_to_json(message: &CultNetMessage) -> (value: JsonValue)
    requires
        message is SnapshotResponse,
    ensures
        value@ == snapshot_response_json(*message),
{
    let mut members = tagged_members("cultnet.snapshot_response.v0");
    if let CultNetMessage::SnapshotResponse { message_id, documents } = message {
        put(&mut members, "messageId", text_json(message_id));
        put(&mut members, "documents", list_value(documents));
    }
    object_value(members)
}

fn snapshot_response_from_json(json: &JsonValue) -> (message: Option<CultNetMessage>)
    ensures
        match message {
            Some(found) => snapshot_response_reads(json@, found),
            None => forall|any: CultNetMessage| !#[trigger] snapshot_response_reads(json@, any),
        },
{
    if !fits_fields(json, 3) {
        return None;
    }
    Some(
        CultNetMessage::SnapshotResponse {
            message_id: read_text_part(json, "messageId", 1)?,
            documents: read_form_list_part(json, "documents", 2)?,
        },
    )
}

proof fn snapshot_response_reads_back(message: CultNetMessage)
    requires
        message is SnapshotResponse,
    ensures
        snapshot_response_reads(snapshot_response_json(message), message),
        text_part(snapshot_response_json(message), "schemaVersion"@, 0) == Some("cultnet.snapshot_response.v0"@),
{
    broadcast use group_json_members;

    reveal_strlit("schemaVersion");
    assert("schemaVersion"@.len() == 13);
    reveal_strlit("messageId");
    assert("messageId"@.len() == 9);
    reveal_strlit("documents");
    assert("documents"@.len() == 9);
    assert("messageId"@[0] != "documents"@[0]);
    list_reads_back(message->SnapshotResponse_documents@);
}

pub(crate) proof fn snapshot_response_is_no_earlier_tag()
    ensures
        "cultnet.snapshot_response.v0"@ != "cultnet.hello.v0"@,
        "cultnet.snapshot_response.v0"@ != "cultnet.login.v0"@,
        "cultnet.snapshot_response.v0"@ != "cultnet.register.v0"@,
        "cultnet.snapshot_response.v0"@ != "cultnet.verify.v0"@,
        "cultnet.snapshot_response.v0"@ != "cultnet.login_success.v0"@,
        "cultnet.snapshot_response.v0"@ != "cultnet.error.v0"@,
        "cultnet.snapshot_response.v0"@ != "cultnet.sample.change_name.v0"@,
        "cultnet.snapshot_response.v0"@ != "cultnet.sample.chat.v0"@,
        "cultnet.snapshot_response.v0"@ != "cultnet.document_put.v0"@,
        "cultnet.snapshot_response.v0"@ != "cultnet.document_put_raw.v0"@,
        "cultnet.snapshot_response.v0"@ != "cultnet.document_delete.v0"@,
        "cultnet.snapshot_response.v0"@ != "cultnet.snapshot_request.v0"@,
{
    reveal_strlit("cultnet.snapshot_response.v0");
    assert("cultnet.snapshot_response.v0"@.len() == 28);
    reveal_strlit("cultnet.hello.v0");
    assert("cultnet.hello.v0"@.len() == 16);
    reveal_strlit("cultnet.login.v0");
    assert("cultnet.login.v0"@.len() == 16);
    reveal_strlit("cultnet.register.v0");
    assert("cultnet.register.v0"@.len() == 19);
    reveal_strlit("cultnet.verify.v0");
    assert("cultnet.verify.v0"@.len() == 17);
    reveal_strlit("cultnet.login_success.v0");
    assert("cultnet.login_success.v0"@.len() == 24);
    reveal_strlit("cultnet.error.v0");
    assert("cultnet.error.v0"@.len() == 16);
    reveal_strlit("cultnet.sample.change_name.v0");
    assert("cultnet.sample.change_name.v0"@.len() == 29);
    reveal_strlit("cultnet.sample.chat.v0");
    assert("cultnet.sample.chat.v0"@.len() == 22);
    reveal_strlit("cultnet.document_put.v0");
    assert("cultnet.document_put.v0"@.len() == 23);
    reveal_strlit("cultnet.document_put_raw.v0");
    assert("cultnet.document_put_raw.v0"@.len() == 27);
    reveal_strlit("cultnet.document_delete.v0");
    assert("cultnet.document_delete.v0"@.len() == 26);
    reveal_strlit("cultnet.snapshot_request.v0");
    assert("cultnet.snapshot_request.v0"@.len() == 27);
}

proof fn snapshot_response_read_alike(json: Json, a: CultNetMessage, b: CultNetMessage)
    requires
        snapshot_response_reads(json, a),
        snapshot_response_reads(json, b),
    ensures
        snapshot_response_json(a) == snapshot_response_json(b),
        a.refusal() == b.refusal(),
{
    reveal(CultNetMessage::refusal);
    let (left, right) = (a->SnapshotResponse_documents@, b->SnapshotResponse_documents@);
    list_read_alike(json, "documents"@, 2, left, right);
    assert forall|i: int| 0 <= i < left.len() implies (#[trigger] left[i]).refusal() == right[i].refusal() by {
        assert(left[i].rule() == right[i].rule());
    }
    same_reasons(|i: int| left[i].refusal(), |i: int| right[i].refusal(), left.len());
}

proof fn snapshot_response_is_proper(message: CultNetMessage)
    requires
        message is SnapshotResponse,
        message.settled(),
    ensures
        proper(snapshot_response_json(message)),
{
    broadcast use group_proper_members;

    list_is_proper(message->SnapshotResponse_documents@);
    assert(proper_members(snapshot_response_json(message)->Object_0));
}

/// The JSON form of `cultnet.snapshot_response_raw.v0`.
pub open spec fn snapshot_response_raw_json(message: CultNetMessage) -> Json {
    match message {
        CultNetMessage::SnapshotResponseRaw { message_id, documents } => {
            let members = tagged("cultnet.snapshot_response_raw.v0"@);
            let members = with_optional(members, "messageId"@, Some(Json::Text(message_id@)));
            let members = with_optional(members, "documents"@, Some(list_json(documents@)));
            Json::Object(members)
        },
        _ => Json::Null,
    }
}

/// The message is a `cultnet.snapshot_response_raw.v0` that holds what the JSON value says.
pub open spec fn snapshot_response_raw_reads(json: Json, message: CultNetMessage) -> bool {
    match message {
        CultNetMessage::SnapshotResponseRaw { message_id, documents } => {
            &&& fits(json, 3)
            &&& text_part(json, "messageId"@, 1) == Some(message_id@)
            &&& reads_list_part(json, "documents"@, 2, documents@)
        },
        _ => false,
    }
}

fn snapshot_response_raw_to_json(message: &CultNetMessage) -> (value: JsonValue)
    requires
        message is SnapshotResponseRaw,
    ensures
        value@ == snapshot_response_raw_json(*message),
{
    let mut members = tagged_members("cultnet.snapshot_response_raw.v0");
    if let CultNetMessage::SnapshotResponseRaw { message_id, documents } = message {
        put(&mut members, "messageId", text_json(message_id));
        put(&mut members, "documents", list_value(documents));
    }
    object_value(members)
}

fn snapshot_response_raw_from_json(json: &JsonValue) -> (message: Option<CultNetMessage>)
    ensures
        match message {
            Some(found) => snapshot_response_raw_reads(json@, found),
            None => forall|any: CultNetMessage| !#[trigger] snapshot_response_raw_reads(json@, any),
        },
{
    if !fits_fields(json, 3) {
        return None;
    }
    Some(
        CultNetMessage::SnapshotResponseRaw {
            message_id: read_text_part(json, "messageId", 1)?,
            documents: read_form_list_part(json, "documents", 2)?,
        },
    )
}

proof fn snapshot_response_raw_reads_back(message: CultNetMessage)
    requires
        message is SnapshotResponseRaw,
    ensures
        snapshot_response_raw_reads(snapshot_response_raw_json(message), message),
        text_part(snapshot_response_raw_json(message), "schemaVersion"@, 0) == Some("cultnet.snapshot_response_raw.v0"@),
{
    broadcast use group_json_members;

    reveal_strlit("schemaVersion");
    assert("schemaVersion"@.len() == 13);
    reveal_strlit("messageId");
    assert("messageId"@.len() == 9);
    reveal_strlit("documents");
    assert("documents"@.len() == 9);
    assert("messageId"@[0] != "documents"@[0]);
    list_reads_back(message->SnapshotResponseRaw_documents@);
}

pub(crate) proof fn snapshot_response_raw_is_no_earlier_tag()
    ensures
        "cultnet.snapshot_response_raw.v0"@ != "cultnet.hello.v0"@,
        "cultnet.snapshot_response_raw.v0"@ != "cultnet.login.v0"@,
        "cultnet.snapshot_response_raw.v0"@ != "cultnet.register.v0"@,
        "cultnet.snapshot_response_raw.v0"@ != "cultnet.verify.v0"@,
        "cultnet.snapshot_response_raw.v0"@ != "cultnet.login_success.v0"@,
        "cultnet.snapshot_response_raw.v0"@ != "cultnet.error.v0"@,
        "cultnet.snapshot_response_raw.v0"@ != "cultnet.sample.change_name.v0"@,
        "cultnet.snapshot_response_raw.v0"@ != "cultnet.sample.chat.v0"@,
        "cultnet.snapshot_response_raw.v0"@ != "cultnet.document_put.v0"@,
        "cultnet.snapshot_response_raw.v0"@ != "cultnet.document_put_raw.v0"@,
        "cultnet.snapshot_response_raw.v0"@ != "cultnet.document_delete.v0"@,
        "cultnet.snapshot_response_raw.v0"@ != "cultnet.snapshot_request.v0"@,
        "cultnet.snapshot_response_raw.v0"@ != "cultnet.snapshot_response.v0"@,
{
    reveal_strlit("cultnet.snapshot_response_raw.v0");
    assert("cultnet.snapshot_response_raw.v0"@.len() == 32);
    reveal_strlit("cultnet.hello.v0");
    assert("cultnet.hello.v0"@.len() == 16);
    reveal_strlit("cultnet.login.v0");
    assert("cultnet.login.v0"@.len() == 16);
    reveal_strlit("cultnet.register.v0");
    assert("cultnet.register.v0"@.len() == 19);
    reveal_strlit("cultnet.verify.v0");
    assert("cultnet.verify.v0"@.len() == 17);
    reveal_strlit("cultnet.login_success.v0");
    assert("cultnet.login_success.v0"@.len() == 24);
    reveal_strlit("cultnet.error.v0");
    assert("cultnet.error.v0"@.len() == 16);
    reveal_strlit("cultnet.sample.change_name.v0");
    assert("cultnet.sample.change_name.v0"@.len() == 29);
    reveal_strlit("cultnet.sample.chat.v0");
    assert("cultnet.sample.chat.v0"@.len() == 22);
    reveal_strlit("cultnet.document_put.v0");
    assert("cultnet.document_put.v0"@.len() == 23);
    reveal_strlit("cultnet.document_put_raw.v0");
    assert("cultnet.document_put_raw.v0"@.len() == 27);
    reveal_strlit("cultnet.document_delete.v0");
    assert("cultnet.document_delete.v0"@.len() == 26);
    reveal_strlit("cultnet.snapshot_request.v0");
    assert("cultnet.snapshot_request.v0"@.len() == 27);
    reveal_strlit("cultnet.snapshot_response.v0");
    assert("cultnet.snapshot_response.v0"@.len() == 28);
}

proof fn snapshot_response_raw_read_alike(json: Json, a: CultNetMessage, b: CultNetMessage)
    requires
        snapshot_response_raw_reads(json, a),
        snapshot_response_raw_reads(json, b),
    ensures
        snapshot_response_raw_json(a) == snapshot_response_raw_json(b),
        a.refusal() == b.refusal(),
{
    reveal(CultNetMessage::refusal);
    let (left, right) = (a->SnapshotResponseRaw_documents@, b->SnapshotResponseRaw_documents@);
    list_read_alike(json, "documents"@, 2, left, right);
    assert forall|i: int| 0 <= i < left.len() implies (#[trigger] left[i]).refusal() == right[i].refusal() by {
        assert(left[i].rule() == right[i].rule());
    }
    same_reasons(|i: int| left[i].refusal(), |i: int| right[i].refusal(), left.len());
}

proof fn snapshot_response_raw_is_proper(message: CultNetMessage)
    requires
        message is SnapshotResponseRaw,
        message.settled(),
    ensures
        proper(snapshot_response_raw_json(message)),
{
    broadcast use group_proper_members;

    list_is_proper(message->SnapshotResponseRaw_documents@);
    assert(proper_members(snapshot_response_raw_json(message)->Object_0));
}

/// The JSON form of `cultnet.schema_catalog_request.v0`.
pub open spec fn schema_catalog_request_json(message: CultNetMessage) -> Json {
    match message {
        CultNetMessage::SchemaCatalogRequest { message_id, include_schema_json, schema_ids, kinds } => {
            let members = tagged("cultnet.schema_catalog_request.v0"@);
            let members = with_optional(members, "messageId"@, Some(Json::Text(message_id@)));
            let members = with_optional(members, "includeSchemaJson"@, optional_flag_json(include_schema_json));
            let members = with_optional(members, "schemaIds"@, optional_texts_json(opt_texts(schema_ids)));
            let members = with_optional(members, "kinds"@, optional_texts_json(opt_kind_names(kinds)));
            Json::Object(members)
        },
        _ => Json::Null,
    }
}

/// The message is a `cultnet.schema_catalog_request.v0` that holds what the JSON value says.
pub open spec fn schema_catalog_request_reads(json: Json, message: CultNetMessage) -> bool {
    match message {
        CultNetMessage::SchemaCatalogRequest { message_id, include_schema_json, schema_ids, kinds } => {
            &&& fits(json, 5)
            &&& text_part(json, "messageId"@, 1) == Some(message_id@)
            &&& optional_flag_part(json, "includeSchemaJson"@, 2) == Some(include_schema_json)
            &&& optional_texts_part(json, "schemaIds"@, 3) == Some(opt_texts(schema_ids))
            &&& optional_texts_part(json, "kinds"@, 4) == Some(opt_kind_names(kinds))
        },
        _ => false,
    }
}

fn schema_catalog_request_to_json(message: &CultNetMessage) -> (value: JsonValue)
    requires
        message is SchemaCatalogRequest,
    ensures
        value@ == schema_catalog_request_json(*message),
{
    let mut members = tagged_members("cultnet.schema_catalog_request.v0");
    if let CultNetMessage::SchemaCatalogRequest { message_id, include_schema_json, schema_ids, kinds } = message {
        put(&mut members, "messageId", text_json(message_id));
        put_optional(&mut members, "includeSchemaJson", optional_flag_value(include_schema_json));
        put_optional(&mut members, "schemaIds", optional_texts_value(schema_ids));
        put_optional(&mut members, "kinds", optional_kinds_value(kinds));
    }
    object_value(members)
}

fn schema_catalog_request_from_json(json: &JsonValue) -> (message: Option<CultNetMessage>)
    ensures
        match message {
            Some(found) => schema_catalog_request_reads(json@, found),
            None => forall|any: CultNetMessage| !#[trigger] schema_catalog_request_reads(json@, any),
        },
{
    if !fits_fields(json, 5) {
        return None;
    }
    Some(
        CultNetMessage::SchemaCatalogRequest {
            message_id: read_text_part(json, "messageId", 1)?,
            include_schema_json: read_optional_flag_part(json, "includeSchemaJson", 2)?,
            schema_ids: read_optional_texts_part(json, "schemaIds", 3)?,
            kinds: read_optional_kinds_part(json, "kinds", 4)?,
        },
    )
}

proof fn schema_catalog_request_reads_back(message: CultNetMessage)
    requires
        message is SchemaCatalogRequest,
    ensures
        schema_catalog_request_reads(schema_catalog_request_json(message), message),
        text_part(schema_catalog_request_json(message), "schemaVersion"@, 0) == Some("cultnet.schema_catalog_request.v0"@),
{
    broadcast use group_json_members;

    reveal_strlit("schemaVersion");
    assert("schemaVersion"@.len() == 13);
    reveal_strlit("messageId");
    assert("messageId"@.len() == 9);
    reveal_strlit("includeSchemaJson");
    assert("includeSchemaJson"@.len() == 17);
    reveal_strlit("schemaIds");
    assert("schemaIds"@.len() == 9);
    reveal_strlit("kinds");
    assert("kinds"@.len() == 5);
    assert("messageId"@[0] != "schemaIds"@[0]);
}

pub(crate) proof fn schema_catalog_request_is_no_earlier_tag()
    ensures
        "cultnet.schema_catalog_request.v0"@ != "cultnet.hello.v0"@,
        "cultnet.schema_catalog_request.v0"@ != "cultnet.login.v0"@,
        "cultnet.schema_catalog_request.v0"@ != "cultnet.register.v0"@,
        "cultnet.schema_catalog_request.v0"@ != "cultnet.verify.v0"@,
        "cultnet.schema_catalog_request.v0"@ != "cultnet.login_success.v0"@,
        "cultnet.schema_catalog_request.v0"@ != "cultnet.error.v0"@,
        "cultnet.schema_catalog_request.v0"@ != "cultnet.sample.change_name.v0"@,
        "cultnet.schema_catalog_request.v0"@ != "cultnet.sample.chat.v0"@,
        "cultnet.schema_catalog_request.v0"@ != "cultnet.document_put.v0"@,
        "cultnet.schema_catalog_request.v0"@ != "cultnet.document_put_raw.v0"@,
        "cultnet.schema_catalog_request.v0"@ != "cultnet.document_delete.v0"@,
        "cultnet.schema_catalog_request.v0"@ != "cultnet.snapshot_request.v0"@,
        "cultnet.schema_catalog_request.v0"@ != "cultnet.snapshot_response.v0"@,
        "cultnet.schema_catalog_request.v0"@ != "cultnet.snapshot_response_raw.v0"@,
{
    reveal_strlit("cultnet.schema_catalog_request.v0");
    assert("cultnet.schema_catalog_request.v0"@.len() == 33);
    reveal_strlit("cultnet.hello.v0");
    assert("cultnet.hello.v0"@.len() == 16);
    reveal_strlit("cultnet.login.v0");
    assert("cultnet.login.v0"@.len() == 16);
    reveal_strlit("cultnet.register.v0");
    assert("cultnet.register.v0"@.len() == 19);
    reveal_strlit("cultnet.verify.v0");
    assert("cultnet.verify.v0"@.len() == 17);
    reveal_strlit("cultnet.login_success.v0");
    assert("cultnet.login_success.v0"@.len() == 24);
    reveal_strlit("cultnet.error.v0");
    assert("cultnet.error.v0"@.len() == 16);
    reveal_strlit("cultnet.sample.change_name.v0");
    assert("cultnet.sample.change_name.v0"@.len() == 29);
    reveal_strlit("cultnet.sample.chat.v0");
    assert("cultnet.sample.chat.v0"@.len() == 22);
    reveal_strlit("cultnet.document_put.v0");
    assert("cultnet.document_put.v0"@.len() == 23);
    reveal_strlit("cultnet.document_put_raw.v0");
    assert("cultnet.document_put_raw.v0"@.len() == 27);
    reveal_strlit("cultnet.document_delete.v0");
    assert("cultnet.document_delete.v0"@.len() == 26);
    reveal_strlit("cultnet.snapshot_request.v0");
    assert("cultnet.snapshot_request.v0"@.len() == 27);
    reveal_strlit("cultnet.snapshot_response.v0");
    assert("cultnet.snapshot_response.v0"@.len() == 28);
    reveal_strlit("cultnet.snapshot_response_raw.v0");
    assert("cultnet.snapshot_response_raw.v0"@.len() == 32);
}

proof fn schema_catalog_request_read_alike(json: Json, a: CultNetMessage, b: CultNetMessage)
    requires
        schema_catalog_request_reads(json, a),
        schema_catalog_request_reads(json, b),
    ensures
        schema_catalog_request_json(a) == schema_catalog_request_json(b),
        a.refusal() == b.refusal(),
{
    reveal(CultNetMessage::refusal);
}

proof fn schema_catalog_request_is_proper(message: CultNetMessage)
    requires
        message is SchemaCatalogRequest,
        message.settled(),
    ensures
        proper(schema_catalog_request_json(message)),
{
    broadcast use group_proper_members;

    assert(proper_members(schema_catalog_request_json(message)->Object_0));
}

/// The JSON form of `cultnet.schema_catalog_response.v0`.
pub open spec fn schema_catalog_response_json(message: CultNetMessage) -> Json {
    match message {
        CultNetMessage::SchemaCatalogResponse { message_id, schemas } => {
            let members = tagged("cultnet.schema_catalog_response.v0"@);
            let members = with_optional(members, "messageId"@, Some(Json::Text(message_id@)));
            let members = with_optional(members, "schemas"@, Some(list_json(schemas@)));
            Json::Object(members)
        },
        _ => Json::Null,
    }
}

/// The message is a `cultnet.schema_catalog_response.v0` that holds what the JSON value says.
pub open spec fn schema_catalog_response_reads(json: Json, message: CultNetMessage) -> bool {
    match message {
        CultNetMessage::SchemaCatalogResponse { message_id, schemas } => {
            &&& fits(json, 3)
            &&& text_part(json, "messageId"@, 1) == Some(message_id@)
            &&& reads_list_part(json, "schemas"@, 2, schemas@)
        },
        _ => false,
    }
}

fn schema_catalog_response_to_json(message: &CultNetMessage) -> (value: JsonValue)
    requires
        message is SchemaCatalogResponse,
    ensures
        value@ == schema_catalog_response_json(*message),
{
    let mut members = tagged_members("cultnet.schema_catalog_response.v0");
    if let CultNetMessage::SchemaCatalogResponse { message_id, schemas } = message {
        put(&mut members, "messageId", text_json(message_id));
        put(&mut members, "schemas", list_value(schemas));
    }
    object_value(members)
}

fn schema_catalog_response_from_json(json: &JsonValue) -> (message: Option<CultNetMessage>)
    ensures
        match message {
            Some(found) => schema_catalog_response_reads(json@, found),
            None => forall|any: CultNetMessage| !#[trigger] schema_catalog_response_reads(json@, any),
        },
{
    if !fits_fields(json, 3) {
        return None;
    }
    Some(
        CultNetMessage::SchemaCatalogResponse {
            message_id: read_text_part(json, "messageId", 1)?,
            schemas: read_form_list_part(json, "schemas", 2)?,
        },
    )
}

proof fn schema_catalog_response_reads_back(message: CultNetMessage)
    requires
        message is SchemaCatalogResponse,
    ensures
        schema_catalog_response_reads(schema_catalog_response_json(message), message),
        text_part(schema_catalog_response_json(message), "schemaVersion"@, 0) == Some("cultnet.schema_catalog_response.v0"@),
{
    broadcast use group_json_members;

    reveal_strlit("schemaVersion");
    assert("schemaVersion"@.len() == 13);
    reveal_strlit("messageId");
    assert("messageId"@.len() == 9);
    reveal_strlit("schemas");
    assert("schemas"@.len() == 7);
    list_reads_back(message->SchemaCatalogResponse_schemas@);
}

pub(crate) proof fn schema_catalog_response_is_no_earlier_tag()
    ensures
        "cultnet.schema_catalog_response.v0"@ != "cultnet.hello.v0"@,
        "cultnet.schema_catalog_response.v0"@ != "cultnet.login.v0"@,
        "cultnet.schema_catalog_response.v0"@ != "cultnet.register.v0"@,
        "cultnet.schema_catalog_response.v0"@ != "cultnet.verify.v0"@,
        "cultnet.schema_catalog_response.v0"@ != "cultnet.login_success.v0"@,
        "cultnet.schema_catalog_response.v0"@ != "cultnet.error.v0"@,
        "cultnet.schema_catalog_response.v0"@ != "cultnet.sample.change_name.v0"@,
        "cultnet.schema_catalog_response.v0"@ != "cultnet.sample.chat.v0"@,
        "cultnet.schema_catalog_response.v0"@ != "cultnet.document_put.v0"@,
        "cultnet.schema_catalog_response.v0"@ != "cultnet.document_put_raw.v0"@,
        "cultnet.schema_catalog_response.v0"@ != "cultnet.document_delete.v0"@,
        "cultnet.schema_catalog_response.v0"@ != "cultnet.snapshot_request.v0"@,
        "cultnet.schema_catalog_response.v0"@ != "cultnet.snapshot_response.v0"@,
        "cultnet.schema_catalog_response.v0"@ != "cultnet.snapshot_response_raw.v0"@,
        "cultnet.schema_catalog_response.v0"@ != "cultnet.schema_catalog_request.v0"@,
{
    reveal_strlit("cultnet.schema_catalog_response.v0");
    assert("cultnet.schema_catalog_response.v0"@.len() == 34);
    reveal_strlit("cultnet.hello.v0");
    assert("cultnet.hello.v0"@.len() == 16);
    reveal_strlit("cultnet.login.v0");
    assert("cultnet.login.v0"@.len() == 16);
    reveal_strlit("cultnet.register.v0");
    assert("cultnet.register.v0"@.len() == 19);
    reveal_strlit("cultnet.verify.v0");
    assert("cultnet.verify.v0"@.len() == 17);
    reveal_strlit("cultnet.login_success.v0");
    assert("cultnet.login_success.v0"@.len() == 24);
    reveal_strlit("cultnet.error.v0");
    assert("cultnet.error.v0"@.len() == 16);
    reveal_strlit("cultnet.sample.change_name.v0");
    assert("cultnet.sample.change_name.v0"@.len() == 29);
    reveal_strlit("cultnet.sample.chat.v0");
    assert("cultnet.sample.chat.v0"@.len() == 22);
    reveal_strlit("cultnet.document_put.v0");
    assert("cultnet.document_put.v0"@.len() == 23);
    reveal_strlit("cultnet.document_put_raw.v0");
    assert("cultnet.document_put_raw.v0"@.len() == 27);
    reveal_strlit("cultnet.document_delete.v0");
    assert("cultnet.document_delete.v0"@.len() == 26);
    reveal_strlit("cultnet.snapshot_request.v0");
    assert("cultnet.snapshot_request.v0"@.len() == 27);
    reveal_strlit("cultnet.snapshot_response.v0");
    assert("cultnet.snapshot_response.v0"@.len() == 28);
    reveal_strlit("cultnet.snapshot_response_raw.v0");
    assert("cultnet.snapshot_response_raw.v0"@.len() == 32);
    reveal_strlit("cultnet.schema_catalog_request.v0");
    assert("cultnet.schema_catalog_request.v0"@.len() == 33);
}

proof fn schema_catalog_response_read_alike(json: Json, a: CultNetMessage, b: CultNetMessage)
    requires
        schema_catalog_response_reads(json, a),
        schema_catalog_response_reads(json, b),
    ensures
        schema_catalog_response_json(a) == schema_catalog_response_json(b),
        a.refusal() == b.refusal(),
{
    reveal(CultNetMessage::refusal);
    let (left, right) = (a->SchemaCatalogResponse_schemas@, b->SchemaCatalogResponse_schemas@);
    list_read_alike(json, "schemas"@, 2, left, right);
    assert forall|i: int| 0 <= i < left.len() implies (#[trigger] left[i]).refusal() == right[i].refusal() by {
        assert(left[i].rule() == right[i].rule());
    }
    same_reasons(|i: int| left[i].refusal(), |i: int| right[i].refusal(), left.len());
}

proof fn schema_catalog_response_is_proper(message: CultNetMessage)
    requires
        message is SchemaCatalogResponse,
        message.settled(),
    ensures
        proper(schema_catalog_response_json(message)),
{
    broadcast use group_proper_members;

    list_is_proper(message->SchemaCatalogResponse_schemas@);
    assert(proper_members(schema_catalog_response_json(message)->Object_0));
}

impl JsonForm for CultNetMessage {
    open spec fn json(self) -> Json {
        match self {
            CultNetMessage::Hello { .. } => hello_json(self),
            CultNetMessage::Login { .. } => login_json(self),
            CultNetMessage::Register { .. } => register_json(self),
            CultNetMessage::Verify { .. } => verify_json(self),
            CultNetMessage::LoginSuccess { .. } => login_success_json(self),
            CultNetMessage::Error { .. } => error_json(self),
            CultNetMessage::SampleChangeName { .. } => sample_change_name_json(self),
            CultNetMessage::SampleChat { .. } => sample_chat_json(self),
            CultNetMessage::DocumentPut { .. } => document_put_json(self),
            CultNetMessage::DocumentPutRaw { .. } => document_put_raw_json(self),
            CultNetMessage::DocumentDelete { .. } => document_delete_json(self),
            CultNetMessage::SnapshotRequest { .. } => snapshot_request_json(self),
            CultNetMessage::SnapshotResponse { .. } => snapshot_response_json(self),
            CultNetMessage::SnapshotResponseRaw { .. } => snapshot_response_raw_json(self),
            CultNetMessage::SchemaCatalogRequest { .. } => schema_catalog_request_json(self),
            CultNetMessage::SchemaCatalogResponse { .. } => schema_catalog_response_json(self),
        }
    }

    open spec fn reads(json: Json, value: Self) -> bool {
        match text_part(json, "schemaVersion"@, 0) {
            None => false,
            Some(tag) => {
                if tag == "cultnet.hello.v0"@ {
                    hello_reads(json, value)
                } else if tag == "cultnet.login.v0"@ {
                    login_reads(json, value)
                } else if tag == "cultnet.register.v0"@ {
                    register_reads(json, value)
                } else if tag == "cultnet.verify.v0"@ {
                    verify_reads(json, value)
                } else if tag == "cultnet.login_success.v0"@ {
                    login_success_reads(json, value)
                } else if tag == "cultnet.error.v0"@ {
                    error_reads(json, value)
                } else if tag == "cultnet.sample.change_name.v0"@ {
                    sample_change_name_reads(json, value)
                } else if tag == "cultnet.sample.chat.v0"@ {
                    sample_chat_reads(json, value)
                } else if tag == "cultnet.document_put.v0"@ {
                    document_put_reads(json, value)
                } else if tag == "cultnet.document_put_raw.v0"@ {
                    document_put_raw_reads(json, value)
                } else if tag == "cultnet.document_delete.v0"@ {
                    document_delete_reads(json, value)
                } else if tag == "cultnet.snapshot_request.v0"@ {
                    snapshot_request_reads(json, value)
                } else if tag == "cultnet.snapshot_response.v0"@ {
                    snapshot_response_reads(json, value)
                } else if tag == "cultnet.snapshot_response_raw.v0"@ {
                    snapshot_response_raw_reads(json, value)
                } else if tag == "cultnet.schema_catalog_request.v0"@ {
                    schema_catalog_request_reads(json, value)
                } else if tag == "cultnet.schema_catalog_response.v0"@ {
                    schema_catalog_response_reads(json, value)
                } else {
                    false
                }
            },
        }
    }

    open spec fn settled(self) -> bool {
        match self {
            CultNetMessage::DocumentPut { message_id, document } => document.settled(),
            CultNetMessage::SnapshotResponse { message_id, documents } => all_settled(documents@),
            _ => true,
        }
    }

    open spec fn rule(self) -> Option<Seq<char>> {
        self.refusal()
    }

    proof fn reads_back(self) {
        match self {
            CultNetMessage::Hello { .. } => {
                hello_reads_back(self);
            },
            CultNetMessage::Login { .. } => {
                login_is_no_earlier_tag();
                login_reads_back(self);
            },
            CultNetMessage::Register { .. } => {
                register_is_no_earlier_tag();
                register_reads_back(self);
            },
            CultNetMessage::Verify { .. } => {
                verify_is_no_earlier_tag();
                verify_reads_back(self);
            },
            CultNetMessage::LoginSuccess { .. } => {
                login_success_is_no_earlier_tag();
                login_success_reads_back(self);
            },
            CultNetMessage::Error { .. } => {
                error_is_no_earlier_tag();
                error_reads_back(self);
            },
            CultNetMessage::SampleChangeName { .. } => {
                sample_change_name_is_no_earlier_tag();
                sample_change_name_reads_back(self);
            },
            CultNetMessage::SampleChat { .. } => {
                sample_chat_is_no_earlier_tag();
                sample_chat_reads_back(self);
            },
            CultNetMessage::DocumentPut { .. } => {
                document_put_is_no_earlier_tag();
                document_put_reads_back(self);
            },
            CultNetMessage::DocumentPutRaw { .. } => {
                document_put_raw_is_no_earlier_tag();
                document_put_raw_reads_back(self);
            },
            CultNetMessage::DocumentDelete { .. } => {
                document_delete_is_no_earlier_tag();
                document_delete_reads_back(self);
            },
            CultNetMessage::SnapshotRequest { .. } => {
                snapshot_request_is_no_earlier_tag();
                snapshot_request_reads_back(self);
            },
            CultNetMessage::SnapshotResponse { .. } => {
                snapshot_response_is_no_earlier_tag();
                snapshot_response_reads_back(self);
            },
            CultNetMessage::SnapshotResponseRaw { .. } => {
                snapshot_response_raw_is_no_earlier_tag();
                snapshot_response_raw_reads_back(self);
            },
            CultNetMessage::SchemaCatalogRequest { .. } => {
                schema_catalog_request_is_no_earlier_tag();
                schema_catalog_request_reads_back(self);
            },
            CultNetMessage::SchemaCatalogResponse { .. } => {
                schema_catalog_response_is_no_earlier_tag();
                schema_catalog_response_reads_back(self);
            },
        }
    }

    proof fn read_alike(json: Json, a: Self, b: Self) {
        match a {
            CultNetMessage::Hello { .. } => {
                hello_read_alike(json, a, b);
            },
            CultNetMessage::Login { .. } => {
                login_read_alike(json, a, b);
            },
            CultNetMessage::Register { .. } => {
                register_read_alike(json, a, b);
            },
            CultNetMessage::Verify { .. } => {
                verify_read_alike(json, a, b);
            },
            CultNetMessage::LoginSuccess { .. } => {
                login_success_read_alike(json, a, b);
            },
            CultNetMessage::Error { .. } => {
                error_read_alike(json, a, b);
            },
            CultNetMessage::SampleChangeName { .. } => {
                sample_change_name_read_alike(json, a, b);
            },
            CultNetMessage::SampleChat { .. } => {
                sample_chat_read_alike(json, a, b);
            },
            CultNetMessage::DocumentPut { .. } => {
                document_put_read_alike(json, a, b);
            },
            CultNetMessage::DocumentPutRaw { .. } => {
                document_put_raw_read_alike(json, a, b);
            },
            CultNetMessage::DocumentDelete { .. } => {
                document_delete_read_alike(json, a, b);
            },
            CultNetMessage::SnapshotRequest { .. } => {
                snapshot_request_read_alike(json, a, b);
            },
            CultNetMessage::SnapshotResponse { .. } => {
                snapshot_response_read_alike(json, a, b);
            },
            CultNetMessage::SnapshotResponseRaw { .. } => {
                snapshot_response_raw_read_alike(json, a, b);
            },
            CultNetMessage::SchemaCatalogRequest { .. } => {
                schema_catalog_request_read_alike(json, a, b);
            },
            CultNetMessage::SchemaCatalogResponse { .. } => {
                schema_catalog_response_read_alike(json, a, b);
            },
        }
    }

    proof fn settled_is_proper(self) {
        match self {
            CultNetMessage::Hello { .. } => {
                hello_is_proper(self);
            },
            CultNetMessage::Login { .. } => {
                login_is_proper(self);
            },
            CultNetMessage::Register { .. } => {
                register_is_proper(self);
            },
            CultNetMessage::Verify { .. } => {
                verify_is_proper(self);
            },
            CultNetMessage::LoginSuccess { .. } => {
                login_success_is_proper(self);
            },
            CultNetMessage::Error { .. } => {
                error_is_proper(self);
            },
            CultNetMessage::SampleChangeName { .. } => {
                sample_change_name_is_proper(self);
            },
            CultNetMessage::SampleChat { .. } => {
                sample_chat_is_proper(self);
            },
            CultNetMessage::DocumentPut { .. } => {
                document_put_is_proper(self);
            },
            CultNetMessage::DocumentPutRaw { .. } => {
                document_put_raw_is_proper(self);
            },
            CultNetMessage::DocumentDelete { .. } => {
                document_delete_is_proper(self);
            },
            CultNetMessage::SnapshotRequest { .. } => {
                snapshot_request_is_proper(self);
            },
            CultNetMessage::SnapshotResponse { .. } => {
                snapshot_response_is_proper(self);
            },
            CultNetMessage::SnapshotResponseRaw { .. } => {
                snapshot_response_raw_is_proper(self);
            },
            CultNetMessage::SchemaCatalogRequest { .. } => {
                schema_catalog_request_is_proper(self);
            },
            CultNetMessage::SchemaCatalogResponse { .. } => {
                schema_catalog_response_is_proper(self);
            },
        }
    }

    fn to_json(&self) -> (value: JsonValue) {
        match self {
            CultNetMessage::Hello { .. } => hello_to_json(self),
            CultNetMessage::Login { .. } => login_to_json(self),
            CultNetMessage::Register { .. } => register_to_json(self),
            CultNetMessage::Verify { .. } => verify_to_json(self),
            CultNetMessage::LoginSuccess { .. } => login_success_to_json(self),
            CultNetMessage::Error { .. } => error_to_json(self),
            CultNetMessage::SampleChangeName { .. } => sample_change_name_to_json(self),
            CultNetMessage::SampleChat { .. } => sample_chat_to_json(self),
            CultNetMessage::DocumentPut { .. } => document_put_to_json(self),
            CultNetMessage::DocumentPutRaw { .. } => document_put_raw_to_json(self),
            CultNetMessage::DocumentDelete { .. } => document_delete_to_json(self),
            CultNetMessage::SnapshotRequest { .. } => snapshot_request_to_json(self),
            CultNetMessage::SnapshotResponse { .. } => snapshot_response_to_json(self),
            CultNetMessage::SnapshotResponseRaw { .. } => snapshot_response_raw_to_json(self),
            CultNetMessage::SchemaCatalogRequest { .. } => schema_catalog_request_to_json(self),
            CultNetMessage::SchemaCatalogResponse { .. } => schema_catalog_response_to_json(self),
        }
    }

    fn from_json(json: &JsonValue) -> (value: Option<Self>) {
        let tag = read_text_part(json, "schemaVersion", 0)?;
        if same_text(&tag, "cultnet.hello.v0") {
            hello_from_json(json)
        } else if same_text(&tag, "cultnet.login.v0") {
            login_from_json(json)
        } else if same_text(&tag, "cultnet.register.v0") {
            register_from_json(json)
        } else if same_text(&tag, "cultnet.verify.v0") {
            verify_from_json(json)
        } else if same_text(&tag, "cultnet.login_success.v0") {
            login_success_from_json(json)
        } else if same_text(&tag, "cultnet.error.v0") {
            error_from_json(json)
        } else if same_text(&tag, "cultnet.sample.change_name.v0") {
            sample_change_name_from_json(json)
        } else if same_text(&tag, "cultnet.sample.chat.v0") {
            sample_chat_from_json(json)
        } else if same_text(&tag, "cultnet.document_put.v0") {
            document_put_from_json(json)
        } else if same_text(&tag, "cultnet.document_put_raw.v0") {
            document_put_raw_from_json(json)
        } else if same_text(&tag, "cultnet.document_delete.v0") {
            document_delete_from_json(json)
        } else if same_text(&tag, "cultnet.snapshot_request.v0") {
            snapshot_request_from_json(json)
        } else if same_text(&tag, "cultnet.snapshot_response.v0") {
            snapshot_response_from_json(json)
        } else if same_text(&tag, "cultnet.snapshot_response_raw.v0") {
            snapshot_response_raw_from_json(json)
        } else if same_text(&tag, "cultnet.schema_catalog_request.v0") {
            schema_catalog_request_from_json(json)
        } else if same_text(&tag, "cultnet.schema_catalog_response.v0") {
            schema_catalog_response_from_json(json)
        } else {
            None
        }
    }
}

/// The JSON form of a message is an object whose `schemaVersion` names the message.
pub proof fn the_form_names_its_message(message: CultNetMessage)
    ensures
        message.json() is Object,
        text_part(message.json(), "schemaVersion"@, 0) == Some(message.schema_version()),
{
    match message {
        CultNetMessage::Hello { .. } => {
            hello_reads_back(message);
        },
        CultNetMessage::Login { .. } => {
            login_reads_back(message);
        },
        CultNetMessage::Register { .. } => {
            register_reads_back(message);
        },
        CultNetMessage::Verify { .. } => {
            verify_reads_back(message);
        },
        CultNetMessage::LoginSuccess { .. } => {
            login_success_reads_back(message);
        },
        CultNetMessage::Error { .. } => {
            error_reads_back(message);
        },
        CultNetMessage::SampleChangeName { .. } => {
            sample_change_name_reads_back(message);
        },
        CultNetMessage::SampleChat { .. } => {
            sample_chat_reads_back(message);
        },
        CultNetMessage::DocumentPut { .. } => {
            document_put_reads_back(message);
        },
        CultNetMessage::DocumentPutRaw { .. } => {
            document_put_raw_reads_back(message);
        },
        CultNetMessage::DocumentDelete { .. } => {
            document_delete_reads_back(message);
        },
        CultNetMessage::SnapshotRequest { .. } => {
            snapshot_request_reads_back(message);
        },
        CultNetMessage::SnapshotResponse { .. } => {
            snapshot_response_reads_back(message);
        },
        CultNetMessage::SnapshotResponseRaw { .. } => {
            snapshot_response_raw_reads_back(message);
        },
        CultNetMessage::SchemaCatalogRequest { .. } => {
            schema_catalog_request_reads_back(message);
        },
        CultNetMessage::SchemaCatalogResponse { .. } => {
            schema_catalog_response_reads_back(message);
        },
    }
}

}

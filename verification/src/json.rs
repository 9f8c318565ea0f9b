//! JSON values: their trees, their MessagePack form, and the one canonical text that a
//! value has.
use vstd::prelude::*;
use crate::number::{decimal, decimal_text, integer, integer_text};
use crate::text::{before, byte_length, is_before, joined, same_text};
use crate::wire::{map_length, starts_with_text};

verus! {

#[verifier::external_type_specification]
#[verifier::external_body]
pub struct ExJsonValue(serde_json::Value);

#[verifier::external_type_specification]
#[verifier::external_body]
pub struct ExJsonNumber(serde_json::Number);

/// A JSON value. The members of an object are in the order of their keys.
#[verifier::ext_equal]
pub enum Json {
    Null,
    Flag(bool),
    Unsigned(u64),
    Negative(i64),
    Fraction(serde_json::Number),
    Text(Seq<char>),
    Array(Seq<Json>),
    Object(Seq<(Seq<char>, Json)>),
}

/// The keys come strictly one after the other.
pub open spec fn sorted_members<V>(members: Seq<(Seq<char>, V)>) -> bool {
    forall|i: int| 0 < i < members.len() ==> before(members[i - 1].0, (#[trigger] members[i]).0)
}

/// The value is in its one form: integers are not fractions, and the members of
/// objects are strictly sorted by key.
pub open spec fn proper(json: Json) -> bool
    decreases json,
{
    match json {
        Json::Negative(number) => number < 0,
        Json::Fraction(number) => is_fraction(number),
        Json::Array(items) => forall|i: int| 0 <= i < items.len() ==> proper(#[trigger] items[i]),
        Json::Object(members) => {
            &&& sorted_members(members)
            &&& forall|i: int| 0 <= i < members.len() ==> proper((#[trigger] members[i]).1)
        },
        _ => true,
    }
}

/// The value nests at most `depth` arrays and objects, and its lengths fit the 32
/// bits that MessagePack has for them.
pub open spec fn json_carried(json: Json, depth: nat) -> bool
    decreases json,
{
    match json {
        Json::Text(text) => byte_length(text) <= u32::MAX,
        Json::Array(items) => {
            &&& depth > 0
            &&& items.len() <= u32::MAX
            &&& forall|i: int|
                0 <= i < items.len() ==> json_carried(#[trigger] items[i], (depth - 1) as nat)
        },
        Json::Object(members) => {
            &&& depth > 0
            &&& members.len() <= u32::MAX
            &&& forall|i: int|
                0 <= i < members.len() ==> byte_length((#[trigger] members[i]).0) <= u32::MAX && json_carried(
                    members[i].1,
                    (depth - 1) as nat,
                )
        },
        _ => true,
    }
}

/// The value is an array whose first item is a text.
pub open spec fn text_first(json: Json) -> bool {
    json matches Json::Array(items) && items.len() > 0 && items[0] is Text
}

// ---------------------------------------------------------------------------
// Outside values
// ---------------------------------------------------------------------------

/// The tree that a `serde_json::Value` holds.
pub uninterp spec fn json_tree(value: serde_json::Value) -> Json;

/// Whether the number is held as a floating-point number.
pub uninterp spec fn is_fraction(number: serde_json::Number) -> bool;

/// The number as `serde_json::Number` displays it.
pub uninterp spec fn fraction_text(number: serde_json::Number) -> Seq<char>;

/// The MessagePack form of a JSON value, as `rmp_serde::to_vec` writes it.
pub uninterp spec fn json_messagepack(json: Json) -> Seq<u8>;

/// The JSON value that `rmp_serde::from_slice` reads from the start of the bytes.
pub uninterp spec fn json_from_messagepack(bytes: Seq<u8>) -> Option<Json>;

/// The JSON value that `serde_json::from_str` reads from the text.
pub uninterp spec fn json_from_text(text: Seq<char>) -> Option<Json>;

/// One `serde_json::Value` taken apart, one level deep.
pub enum JsonParts {
    Null,
    Flag(bool),
    Unsigned(u64),
    Negative(i64),
    Fraction(serde_json::Number),
    Text(String),
    Array(Vec<serde_json::Value>),
    Object(Vec<(String, serde_json::Value)>),
}

impl JsonParts {
    /// The tree of the value that these are the parts of.
    pub open spec fn tree(self) -> Json {
        match self {
            JsonParts::Null => Json::Null,
            JsonParts::Flag(flag) => Json::Flag(flag),
            JsonParts::Unsigned(number) => Json::Unsigned(number),
            JsonParts::Negative(number) => if number < 0 {
                Json::Negative(number)
            } else {
                Json::Unsigned(number as u64)
            },
            JsonParts::Fraction(number) => Json::Fraction(number),
            JsonParts::Text(text) => Json::Text(text@),
            JsonParts::Array(items) => Json::Array(
                items@.map_values(|item: serde_json::Value| json_tree(item)),
            ),
            JsonParts::Object(members) => Json::Object(
                members@.map_values(|member: (String, serde_json::Value)| (member.0@, json_tree(member.1))),
            ),
        }
    }

    /// A fraction is one, and members are strictly sorted.
    pub open spec fn are_proper(self) -> bool {
        match self {
            JsonParts::Fraction(number) => is_fraction(number),
            JsonParts::Object(_) => sorted_members(self.tree()->Object_0),
            _ => true,
        }
    }
}

/// Takes a `serde_json::Value` apart by its variant. A number comes out as unsigned
/// where `Number::as_u64` takes it, else as `Number::as_i64` gives it, and else as it
/// is, which is then a floating-point number; the members of an object come out in
/// the order in which `serde_json::Map` keeps them, that of their keys.
#[verifier::external_body]
fn open_json(value: serde_json::Value) -> (parts: JsonParts)
    ensures
        json_tree(value) == parts.tree(),
        parts.are_proper(),
        parts matches JsonParts::Negative(number) ==> number < 0,
{
    match value {
        serde_json::Value::Null => JsonParts::Null,
        serde_json::Value::Bool(flag) => JsonParts::Flag(flag),
        serde_json::Value::Number(number) => match (number.as_u64(), number.as_i64()) {
            (Some(unsigned), _) => JsonParts::Unsigned(unsigned),
            (None, Some(negative)) => JsonParts::Negative(negative),
            (None, None) => JsonParts::Fraction(number),
        },
        serde_json::Value::String(text) => JsonParts::Text(text),
        serde_json::Value::Array(items) => JsonParts::Array(items),
        serde_json::Value::Object(members) => JsonParts::Object(members.into_iter().collect()),
    }
}

/// Makes a `serde_json::Value` of its parts, by the variant or the `From` impl of
/// `serde_json::Value` that holds them.
#[verifier::external_body]
fn close_json(parts: JsonParts) -> (value: serde_json::Value)
    ensures
        parts.are_proper() ==> json_tree(value) == parts.tree(),
{
    match parts {
        JsonParts::Null => serde_json::Value::Null,
        JsonParts::Flag(flag) => serde_json::Value::Bool(flag),
        JsonParts::Unsigned(number) => serde_json::Value::from(number),
        JsonParts::Negative(number) => serde_json::Value::from(number),
        JsonParts::Fraction(number) => serde_json::Value::Number(number),
        JsonParts::Text(text) => serde_json::Value::String(text),
        JsonParts::Array(items) => serde_json::Value::Array(items),
        JsonParts::Object(members) => serde_json::Value::Object(members.into_iter().collect()),
    }
}

/// `Number::is_f64`.
#[verifier::external_body]
fn number_is_fraction(number: &serde_json::Number) -> (found: bool)
    ensures
        found == is_fraction(*number),
{
    number.is_f64()
}

/// `Clone` of `serde_json::Number`: the same number.
pub assume_specification [<serde_json::Number as Clone>::clone] (number: &serde_json::Number) -> (copy:
    serde_json::Number)
    ensures
        copy == *number,
;

/// `Display` of `serde_json::Number`: the text depends on the number alone.
#[verifier::external_body]
fn number_text(number: &serde_json::Number) -> (text: String)
    ensures
        text@ == fraction_text(*number),
{
    number.to_string()
}

/// `rmp_serde::to_vec` on a `serde_json::Value`: the bytes are a function of the
/// value's tree, and an object starts with the header of a map, which gives the number of
/// its members where 32 bits hold it. The call returns an error only where memory for the bytes cannot be
/// had; there this function panics, as a growing vector does.
#[verifier::external_body]
fn json_to_vec(value: &serde_json::Value) -> (bytes: Vec<u8>)
    ensures
        bytes@ == json_messagepack(json_tree(*value)),
        json_tree(*value) matches Json::Object(members) ==> map_length(bytes@) is Some && (members.len()
            <= u32::MAX ==> map_length(bytes@) == Some(members.len())),
{
    rmp_serde::to_vec(value).expect("memory for a MessagePack value")
}

/// `rmp_serde::from_slice` into a `serde_json::Value`: the outcome is a function of the
/// bytes; an object comes only of bytes that start with the header of a map, and a text as
/// the first item of an array only from behind the marker of a string; and a value that
/// `rmp_serde::to_vec` wrote is read back. The reader gives up
/// at 1024 nested arrays and objects, and lengths have 32 bits: the last claim is
/// made only of values within those bounds.
#[verifier::external_body]
fn json_from_slice(bytes: &[u8]) -> (value: Option<serde_json::Value>)
    ensures
        match value {
            Some(found) => json_from_messagepack(bytes@) == Some(json_tree(found)),
            None => json_from_messagepack(bytes@) is None,
        },
        value matches Some(found) ==> {
            &&& json_tree(found) is Object ==> map_length(bytes@) is Some
            &&& text_first(json_tree(found)) ==> starts_with_text(bytes@)
        },
        forall|json: Json|
            proper(json) && json_carried(json, 1023) && bytes@ == #[trigger] json_messagepack(json) ==> value
                is Some && json_tree(value->0) == json,
{
    rmp_serde::from_slice(bytes).ok()
}

/// `serde_json::from_str` into a `serde_json::Value`: the outcome is a function of the
/// text.
#[verifier::external_body]
fn json_from_str(text: &str) -> (value: Option<serde_json::Value>)
    ensures
        match value {
            Some(found) => json_from_text(text@) == Some(json_tree(found)),
            None => json_from_text(text@) is None,
        },
{
    serde_json::from_str(text).ok()
}

/// What a character of a JSON string is written as.
pub open spec fn escaped(letter: char) -> Seq<char> {
    let code = letter as u32;
    if letter == '"' {
        seq!['\\', '"']
    } else if letter == '\\' {
        seq!['\\', '\\']
    } else if code == 0x08 {
        seq!['\\', 'b']
    } else if code == 0x09 {
        seq!['\\', 't']
    } else if code == 0x0a {
        seq!['\\', 'n']
    } else if code == 0x0c {
        seq!['\\', 'f']
    } else if code == 0x0d {
        seq!['\\', 'r']
    } else if code < 0x20 {
        seq!['\\', 'u', '0', '0'] + crate::text::hex_text(seq![code as u8])
    } else {
        seq![letter]
    }
}

/// The characters of a JSON string, escaped.
pub open spec fn escaped_text(text: Seq<char>) -> Seq<char>
    decreases text.len(),
{
    if text.len() == 0 {
        Seq::empty()
    } else {
        escaped_text(text.drop_last()) + escaped(text.last())
    }
}

/// The text as a JSON string, quotation marks and all.
pub open spec fn json_string(text: Seq<char>) -> Seq<char> {
    seq!['"'] + escaped_text(text) + seq!['"']
}

/// `serde_json::to_string` on a string: between quotation marks, with the short escapes
/// where JSON has them, `\u00` and two hexadecimal digits for the other characters below
/// the space, and everything else as it is.
#[verifier::external_body]
fn quoted_json(text: &str) -> (form: String)
    ensures
        form@ == json_string(text@),
{
    serde_json::to_string(text).expect("a string is always written")
}

// ---------------------------------------------------------------------------
// Values in memory
// ---------------------------------------------------------------------------

/// A JSON value in memory.
#[derive(Debug, PartialEq, Eq)]
pub enum JsonValue {
    Null,
    Flag(bool),
    Unsigned(u64),
    Negative(i64),
    Fraction(serde_json::Number),
    Text(String),
    Array(Vec<JsonValue>),
    Object(Vec<(String, JsonValue)>),
}

impl JsonValue {
    /// The tree that the value holds.
    pub open spec fn tree(self) -> Json
        decreases self,
    {
        match self {
            JsonValue::Null => Json::Null,
            JsonValue::Flag(flag) => Json::Flag(flag),
            JsonValue::Unsigned(number) => Json::Unsigned(number),
            JsonValue::Negative(number) => if number < 0 {
                Json::Negative(number)
            } else {
                Json::Unsigned(number as u64)
            },
            JsonValue::Fraction(number) => Json::Fraction(number),
            JsonValue::Text(text) => Json::Text(text@),
            JsonValue::Array(items) => Json::Array(
                Seq::new(
                    items@.len(),
                    |i: int|
                        if 0 <= i < items@.len() {
                            items@[i].tree()
                        } else {
                            Json::Null
                        },
                ),
            ),
            JsonValue::Object(members) => Json::Object(
                Seq::new(
                    members@.len(),
                    |i: int|
                        if 0 <= i < members@.len() {
                            (members@[i].0@, members@[i].1.tree())
                        } else {
                            (Seq::empty(), Json::Null)
                        },
                ),
            ),
        }
    }
}

impl View for JsonValue {
    type V = Json;

    open spec fn view(&self) -> Json {
        self.tree()
    }
}

/// The trees of a sequence of values.
pub open spec fn json_trees(items: Seq<JsonValue>) -> Seq<Json> {
    items.map_values(|item: JsonValue| item@)
}

/// The trees of a sequence of members.
pub open spec fn member_trees(members: Seq<(String, JsonValue)>) -> Seq<(Seq<char>, Json)> {
    members.map_values(|member: (String, JsonValue)| (member.0@, member.1@))
}

/// The view of an array is the array of the views.
pub proof fn array_view(items: Vec<JsonValue>)
    ensures
        JsonValue::Array(items)@ == Json::Array(json_trees(items@)),
{
    assert(JsonValue::Array(items)@->Array_0 =~= json_trees(items@));
}

/// The view of an object is the object of the views.
pub proof fn object_view(members: Vec<(String, JsonValue)>)
    ensures
        JsonValue::Object(members)@ == Json::Object(member_trees(members@)),
{
    assert(JsonValue::Object(members)@->Object_0 =~= member_trees(members@));
}

/// An item of an array is smaller than the array.
proof fn item_is_below(json: Json, index: int)
    requires
        json is Array,
        0 <= index < json->Array_0.len(),
    ensures
        decreases_to!(json => json->Array_0[index]),
        proper(json) ==> proper(json->Array_0[index]),
{
    if let Json::Array(items) = json {
        assert(decreases_to!(json => items));
        assert(decreases_to!(items => items[index]));
    }
}

/// A member of an object is smaller than the object.
proof fn member_is_below(json: Json, index: int)
    requires
        json is Object,
        0 <= index < json->Object_0.len(),
    ensures
        decreases_to!(json => json->Object_0[index].1),
{
    if let Json::Object(members) = json {
        assert(decreases_to!(json => members));
        assert(decreases_to!(members => members[index]));
        let pair = members[index];
        assert(decreases_to!(pair => pair.1));
    }
}

fn to_value(json: &JsonValue) -> (value: serde_json::Value)
    requires
        proper(json@),
    ensures
        json_tree(value) == json@,
    decreases json,
{
    match json {
        JsonValue::Null => close_json(JsonParts::Null),
        JsonValue::Flag(flag) => close_json(JsonParts::Flag(*flag)),
        JsonValue::Unsigned(number) => close_json(JsonParts::Unsigned(*number)),
        JsonValue::Negative(number) => close_json(JsonParts::Negative(*number)),
        JsonValue::Fraction(number) => close_json(JsonParts::Fraction(number.clone())),
        JsonValue::Text(text) => close_json(JsonParts::Text(text.clone())),
        JsonValue::Array(items) => {
            let mut values: Vec<serde_json::Value> = Vec::new();
            let mut i: usize = 0;
            proof {
                array_view(*items);
            }
            while i < items.len()
                invariant
                    json matches JsonValue::Array(all) && all == items,
                    json@ == Json::Array(json_trees(items@)),
                    proper(json@),
                    i <= items@.len(),
                    values@.len() == i,
                    forall|k: int| 0 <= k < i ==> json_tree(#[trigger] values@[k]) == items@[k]@,
                decreases items@.len() - i,
            {
                proof {
                    item_is_below(json@, i as int);
                }
                values.push(to_value(&items[i]));
                i += 1;
            }
            assert(values@.map_values(|item: serde_json::Value| json_tree(item)) =~= json_trees(items@));
            close_json(JsonParts::Array(values))
        },
        JsonValue::Object(members) => {
            let mut values: Vec<(String, serde_json::Value)> = Vec::new();
            let mut i: usize = 0;
            proof {
                object_view(*members);
            }
            while i < members.len()
                invariant
                    json matches JsonValue::Object(all) && all == members,
                    json@ == Json::Object(member_trees(members@)),
                    proper(json@),
                    i <= members@.len(),
                    values@.len() == i,
                    forall|k: int|
                        0 <= k < i ==> (#[trigger] values@[k]).0@ == members@[k].0@ && json_tree(values@[k].1)
                            == members@[k].1@,
                decreases members@.len() - i,
            {
                assert(proper(member_trees(members@)[i as int].1));
                let value = to_value(&members[i].1);
                values.push((members[i].0.clone(), value));
                i += 1;
            }
            assert(values@.map_values(
                |member: (String, serde_json::Value)| (member.0@, json_tree(member.1)),
            ) =~= member_trees(members@));
            close_json(JsonParts::Object(values))
        },
    }
}

fn from_value(value: serde_json::Value) -> (json: JsonValue)
    ensures
        json@ == json_tree(value),
        proper(json@),
    decreases json_tree(value),
{
    let ghost whole = json_tree(value);
    match open_json(value) {
        JsonParts::Null => JsonValue::Null,
        JsonParts::Flag(flag) => JsonValue::Flag(flag),
        JsonParts::Unsigned(number) => JsonValue::Unsigned(number),
        JsonParts::Negative(number) => JsonValue::Negative(number),
        JsonParts::Fraction(number) => JsonValue::Fraction(number),
        JsonParts::Text(text) => JsonValue::Text(text),
        JsonParts::Array(values) => {
            let ghost all = values@;
            let ghost mapped = all.map_values(|item: serde_json::Value| json_tree(item));
            let mut rest = values;
            let mut reversed: Vec<JsonValue> = Vec::new();
            while rest.len() > 0
                invariant
                    whole == json_tree(value),
                    whole == Json::Array(mapped),
                    mapped == all.map_values(|item: serde_json::Value| json_tree(item)),
                    rest@.len() + reversed@.len() == all.len(),
                    rest@ == all.take(rest@.len() as int),
                    forall|k: int|
                        0 <= k < reversed@.len() ==> (#[trigger] reversed@[k])@ == mapped[all.len() - 1 - k]
                            && proper(reversed@[k]@),
                decreases rest@.len(),
            {
                let ghost index = rest@.len() - 1;
                if let Some(item) = rest.pop() {
                    assert(item == all[index]);
                    assert(mapped[index] == json_tree(all[index]));
                    proof {
                        item_is_below(whole, index);
                    }
                    reversed.push(from_value(item));
                }
                assert(rest@ =~= all.take(rest@.len() as int));
            }
            let mut items: Vec<JsonValue> = Vec::new();
            while reversed.len() > 0
                invariant
                    reversed@.len() + items@.len() == all.len(),
                    mapped.len() == all.len(),
                    forall|k: int|
                        0 <= k < reversed@.len() ==> (#[trigger] reversed@[k])@ == mapped[all.len() - 1 - k]
                            && proper(reversed@[k]@),
                    forall|k: int|
                        0 <= k < items@.len() ==> (#[trigger] items@[k])@ == mapped[k] && proper(items@[k]@),
                decreases reversed@.len(),
            {
                if let Some(item) = reversed.pop() {
                    items.push(item);
                }
            }
            proof {
                array_view(items);
                assert(json_trees(items@) =~= mapped);
                assert forall|i: int| 0 <= i < mapped.len() implies proper(#[trigger] mapped[i]) by {
                    assert(items@[i]@ == mapped[i]);
                }
            }
            JsonValue::Array(items)
        },
        JsonParts::Object(values) => {
            let ghost all = values@;
            let ghost mapped = all.map_values(
                |member: (String, serde_json::Value)| (member.0@, json_tree(member.1)),
            );
            let mut rest = values;
            let mut reversed: Vec<(String, JsonValue)> = Vec::new();
            while rest.len() > 0
                invariant
                    whole == json_tree(value),
                    whole == Json::Object(mapped),
                    mapped == all.map_values(
                        |member: (String, serde_json::Value)| (member.0@, json_tree(member.1)),
                    ),
                    rest@.len() + reversed@.len() == all.len(),
                    rest@ == all.take(rest@.len() as int),
                    forall|k: int|
                        0 <= k < reversed@.len() ==> (#[trigger] reversed@[k]).0@ == mapped[all.len() - 1 - k].0
                            && reversed@[k].1@ == mapped[all.len() - 1 - k].1 && proper(reversed@[k].1@),
                decreases rest@.len(),
            {
                let ghost index = rest@.len() - 1;
                if let Some((key, item)) = rest.pop() {
                    assert((key, item) == all[index]);
                    assert(mapped[index] == (all[index].0@, json_tree(all[index].1)));
                    proof {
                        member_is_below(whole, index);
                    }
                    reversed.push((key, from_value(item)));
                }
                assert(rest@ =~= all.take(rest@.len() as int));
            }
            let mut members: Vec<(String, JsonValue)> = Vec::new();
            while reversed.len() > 0
                invariant
                    reversed@.len() + members@.len() == all.len(),
                    mapped.len() == all.len(),
                    forall|k: int|
                        0 <= k < reversed@.len() ==> (#[trigger] reversed@[k]).0@ == mapped[all.len() - 1 - k].0
                            && reversed@[k].1@ == mapped[all.len() - 1 - k].1 && proper(reversed@[k].1@),
                    forall|k: int|
                        0 <= k < members@.len() ==> (#[trigger] members@[k]).0@ == mapped[k].0 && members@[k].1@
                            == mapped[k].1 && proper(members@[k].1@),
                decreases reversed@.len(),
            {
                if let Some(member) = reversed.pop() {
                    members.push(member);
                }
            }
            proof {
                object_view(members);
                assert(member_trees(members@) =~= mapped);
                assert forall|i: int| 0 <= i < mapped.len() implies proper((#[trigger] mapped[i]).1) by {
                    assert(members@[i].1@ == mapped[i].1);
                }
            }
            JsonValue::Object(members)
        },
    }
}

/// The MessagePack form of the value.
pub fn encode_json(json: &JsonValue) -> (bytes: Vec<u8>)
    requires
        proper(json@),
    ensures
        bytes@ == json_messagepack(json@),
        json@ matches Json::Object(members) ==> map_length(bytes@) is Some && (members.len() <= u32::MAX
            ==> map_length(bytes@) == Some(members.len())),
{
    let value = to_value(json);
    json_to_vec(&value)
}

/// The value at the start of the bytes, if they hold one that JSON can hold.
pub fn decode_json(bytes: &[u8]) -> (json: Option<JsonValue>)
    ensures
        match json {
            Some(found) => json_from_messagepack(bytes@) == Some(found@) && proper(found@),
            None => json_from_messagepack(bytes@) is None,
        },
        json matches Some(found) ==> {
            &&& found@ is Object ==> map_length(bytes@) is Some
            &&& text_first(found@) ==> starts_with_text(bytes@)
        },
        forall|wanted: Json|
            proper(wanted) && json_carried(wanted, 1023) && bytes@ == #[trigger] json_messagepack(wanted)
                ==> json is Some && json->0@ == wanted,
{
    match json_from_slice(bytes) {
        None => None,
        Some(value) => Some(from_value(value)),
    }
}

/// The value that the text stands for.
pub fn parse_json(text: &str) -> (json: Option<JsonValue>)
    ensures
        match json {
            Some(found) => json_from_text(text@) == Some(found@) && proper(found@),
            None => json_from_text(text@) is None,
        },
{
    match json_from_str(text) {
        None => None,
        Some(value) => Some(from_value(value)),
    }
}

impl JsonValue {
    /// Whether the value is in its one form.
    pub fn is_proper(&self) -> (found: bool)
        ensures
            found == proper(self@),
        decreases self,
    {
        match self {
            JsonValue::Fraction(number) => number_is_fraction(number),
            JsonValue::Array(items) => {
                proof {
                    array_view(*items);
                }
                let mut i: usize = 0;
                while i < items.len()
                    invariant
                        self matches JsonValue::Array(all) && all == items,
                        self@ == Json::Array(json_trees(items@)),
                        i <= items@.len(),
                        forall|k: int| 0 <= k < i ==> proper(#[trigger] json_trees(items@)[k]),
                    decreases items@.len() - i,
                {
                    assert(json_trees(items@)[i as int] == items@[i as int]@);
                    proof {
                        item_is_below(self@, i as int);
                    }
                    if !items[i].is_proper() {
                        return false;
                    }
                    i += 1;
                }
                true
            },
            JsonValue::Object(members) => {
                proof {
                    object_view(*members);
                }
                let ghost all = member_trees(members@);
                let mut i: usize = 0;
                while i < members.len()
                    invariant
                        self matches JsonValue::Object(listed) && listed == members,
                        all == member_trees(members@),
                        self@ == Json::Object(all),
                        i <= members@.len(),
                        forall|k: int| 0 <= k < i ==> proper((#[trigger] all[k]).1),
                        forall|k: int| 0 < k < i ==> before(all[k - 1].0, (#[trigger] all[k]).0),
                    decreases members@.len() - i,
                {
                    assert(all[i as int] == (members@[i as int].0@, members@[i as int].1@));
                    if !members[i].1.is_proper() {
                        return false;
                    }
                    if i > 0 {
                        assert(all[i - 1] == (members@[i - 1].0@, members@[i - 1].1@));
                        if !is_before(&members[i - 1].0, &members[i].0) {
                            return false;
                        }
                    }
                    i += 1;
                }
                true
            },
            _ => true,
        }
    }

    pub fn copy(&self) -> (copy: JsonValue)
        ensures
            copy@ == self@,
        decreases self,
    {
        match self {
            JsonValue::Null => JsonValue::Null,
            JsonValue::Flag(flag) => JsonValue::Flag(*flag),
            JsonValue::Unsigned(number) => JsonValue::Unsigned(*number),
            JsonValue::Negative(number) => JsonValue::Negative(*number),
            JsonValue::Fraction(number) => JsonValue::Fraction(number.clone()),
            JsonValue::Text(text) => JsonValue::Text(text.clone()),
            JsonValue::Array(items) => {
                let mut copies: Vec<JsonValue> = Vec::new();
                let mut i: usize = 0;
                while i < items.len()
                    invariant
                        self matches JsonValue::Array(all) && all == items,
                        i <= items@.len(),
                        copies@.len() == i,
                        forall|k: int| 0 <= k < i ==> (#[trigger] copies@[k])@ == items@[k]@,
                    decreases items@.len() - i,
                {
                    copies.push(items[i].copy());
                    i += 1;
                }
                proof {
                    array_view(*items);
                    array_view(copies);
                    assert(json_trees(copies@) =~= json_trees(items@));
                }
                JsonValue::Array(copies)
            },
            JsonValue::Object(members) => {
                let mut copies: Vec<(String, JsonValue)> = Vec::new();
                let mut i: usize = 0;
                while i < members.len()
                    invariant
                        self matches JsonValue::Object(all) && all == members,
                        i <= members@.len(),
                        copies@.len() == i,
                        forall|k: int|
                            0 <= k < i ==> (#[trigger] copies@[k]).0@ == members@[k].0@ && copies@[k].1@
                                == members@[k].1@,
                    decreases members@.len() - i,
                {
                    let value = members[i].1.copy();
                    copies.push((members[i].0.clone(), value));
                    i += 1;
                }
                proof {
                    object_view(*members);
                    object_view(copies);
                    assert(member_trees(copies@) =~= member_trees(members@));
                }
                JsonValue::Object(copies)
            },
        }
    }
}

impl Clone for JsonValue {
    fn clone(&self) -> (copy: Self)
        ensures
            copy@ == self@,
    {
        self.copy()
    }
}

// ---------------------------------------------------------------------------
// Members
// ---------------------------------------------------------------------------

/// The value of the first member with the key.
pub open spec fn member_of<V>(members: Seq<(Seq<char>, V)>, key: Seq<char>) -> Option<V>
    decreases members.len(),
{
    if members.len() == 0 {
        None
    } else if members[0].0 == key {
        Some(members[0].1)
    } else {
        member_of(members.drop_first(), key)
    }
}

/// The value of the object's member with the key.
pub open spec fn member(json: Json, key: Seq<char>) -> Option<Json> {
    match json {
        Json::Object(members) => member_of(members, key),
        _ => None,
    }
}

/// The members with one more, in the place of one that has its key, or else before the
/// first one whose key comes after its own.
pub open spec fn with_member<V>(members: Seq<(Seq<char>, V)>, key: Seq<char>, value: V) -> Seq<(Seq<char>, V)>
    decreases members.len(),
{
    if members.len() == 0 {
        seq![(key, value)]
    } else if members[0].0 == key {
        members.update(0, (key, value))
    } else if before(key, members[0].0) {
        seq![(key, value)] + members
    } else {
        seq![members[0]] + with_member(members.drop_first(), key, value)
    }
}

impl JsonValue {
    pub fn get(&self, key: &str) -> (found: Option<&JsonValue>)
        ensures
            match found {
                Some(value) => member(self@, key@) == Some(value@),
                None => member(self@, key@) is None,
            },
    {
        match self {
            JsonValue::Object(members) => {
                proof {
                    object_view(*members);
                }
                let ghost all = member_trees(members@);
                let mut i: usize = 0;
                assert(all.skip(0) =~= all);
                while i < members.len()
                    invariant
                        all == member_trees(members@),
                        i <= members@.len(),
                        self@ == Json::Object(all),
                        member_of(all.skip(i as int), key@) == member_of(all, key@),
                    decreases members@.len() - i,
                {
                    assert(all.skip(i as int)[0] == (members@[i as int].0@, members@[i as int].1@));
                    assert(all.skip(i as int).drop_first() =~= all.skip(i + 1));
                    if same_text(&members[i].0, key) {
                        return Some(&members[i].1);
                    }
                    i += 1;
                }
                None
            },
            _ => None,
        }
    }
}

/// After a member is put in, it is found under its key, and every other key finds what
/// it found before.
pub proof fn a_put_member_is_found<V>(
    members: Seq<(Seq<char>, V)>,
    key: Seq<char>,
    value: V,
    other: Seq<char>,
)
    ensures
        member_of(with_member(members, key, value), other) == (if other == key {
            Some(value)
        } else {
            member_of(members, other)
        }),
    decreases members.len(),
{
    let put = with_member(members, key, value);
    if members.len() == 0 {
        assert(put.drop_first() =~= Seq::empty());
        assert(member_of(Seq::<(Seq<char>, V)>::empty(), other) is None);
    } else if members[0].0 == key {
        assert(put.drop_first() =~= members.drop_first());
    } else if before(key, members[0].0) {
        assert(put.drop_first() =~= members);
    } else {
        a_put_member_is_found(members.drop_first(), key, value, other);
        assert(put.drop_first() =~= with_member(members.drop_first(), key, value));
    }
}

/// Putting a member into sorted members keeps them sorted.
pub proof fn members_stay_sorted<V>(members: Seq<(Seq<char>, V)>, key: Seq<char>, value: V)
    requires
        sorted_members(members),
    ensures
        sorted_members(with_member(members, key, value)),
        with_member(members, key, value).len() > 0,
        members.len() > 0 && !before(key, members[0].0) ==> with_member(members, key, value)[0].0
            == members[0].0,
        members.len() == 0 || before(key, members[0].0) ==> with_member(members, key, value)[0].0 == key,
    decreases members.len(),
{
    let put = with_member(members, key, value);
    if members.len() == 0 {
    } else if members[0].0 == key {
        crate::text::before_is_total(key, key);
        assert forall|i: int| 0 < i < put.len() implies before(put[i - 1].0, (#[trigger] put[i]).0) by {
            assert(before(members[i - 1].0, members[i].0));
        }
    } else if before(key, members[0].0) {
        assert forall|i: int| 0 < i < put.len() implies before(put[i - 1].0, (#[trigger] put[i]).0) by {
            if i > 1 {
                assert(before(members[i - 2].0, members[i - 1].0));
            }
        }
    } else {
        let rest = members.drop_first();
        assert forall|i: int| 0 < i < rest.len() implies before(rest[i - 1].0, (#[trigger] rest[i]).0) by {
            assert(before(members[i].0, members[i + 1].0));
        }
        members_stay_sorted(rest, key, value);
        crate::text::before_is_total(key, members[0].0);
        let tail = with_member(rest, key, value);
        if rest.len() > 0 {
            assert(before(members[0].0, members[1].0));
        }
        assert forall|i: int| 0 < i < put.len() implies before(put[i - 1].0, (#[trigger] put[i]).0) by {
            if i > 1 {
                assert(before(tail[i - 2].0, tail[i - 1].0));
            }
        }
    }
}

// ---------------------------------------------------------------------------
// Canonical text
// ---------------------------------------------------------------------------

/// The one text of a value: no space, and the members of objects in the order of their
/// keys.
pub open spec fn canonical_text(json: Json) -> Seq<char>
    decreases json, 0nat,
{
    match json {
        Json::Null => "null"@,
        Json::Flag(flag) => if flag {
            "true"@
        } else {
            "false"@
        },
        Json::Unsigned(number) => decimal(number as nat),
        Json::Negative(number) => integer(number as int),
        Json::Fraction(number) => fraction_text(number),
        Json::Text(text) => json_string(text),
        Json::Array(items) => "["@ + canonical_items(items, items.len()) + "]"@,
        Json::Object(members) => "{"@ + canonical_members(members, members.len()) + "}"@,
    }
}

/// The canonical texts of the first `end` items, with commas between them.
pub open spec fn canonical_items(items: Seq<Json>, end: nat) -> Seq<char>
    decreases items, end,
{
    if end == 0 || end > items.len() {
        Seq::empty()
    } else if end == 1 {
        canonical_text(items[0])
    } else {
        canonical_items(items, (end - 1) as nat) + ","@ + canonical_text(items[end - 1])
    }
}

/// The canonical texts of the first `end` members, with commas between them.
pub open spec fn canonical_members(members: Seq<(Seq<char>, Json)>, end: nat) -> Seq<char>
    decreases members, end,
{
    if end == 0 || end > members.len() {
        Seq::empty()
    } else {
        let (key, value) = members[end - 1];
        let text = json_string(key) + ":"@ + canonical_text(value);
        if end == 1 {
            text
        } else {
            canonical_members(members, (end - 1) as nat) + ","@ + text
        }
    }
}

fn append_separated(sofar: &str, count: usize, next: &str) -> (text: String)
    ensures
        text@ == (if count == 0 {
            next@
        } else {
            sofar@ + ","@ + next@
        }),
{
    if count == 0 {
        next.to_owned()
    } else {
        joined(&joined(sofar, ","), next)
    }
}

/// The canonical text of the value.
pub fn stable_stringify(json: &JsonValue) -> (text: String)
    ensures
        text@ == canonical_text(json@),
    decreases json,
{
    match json {
        JsonValue::Null => "null".to_owned(),
        JsonValue::Flag(flag) => if *flag {
            "true".to_owned()
        } else {
            "false".to_owned()
        },
        JsonValue::Unsigned(number) => decimal_text(*number),
        JsonValue::Negative(number) => integer_text(*number),
        JsonValue::Fraction(number) => number_text(number),
        JsonValue::Text(text) => quoted_json(text),
        JsonValue::Array(items) => {
            let mut inner = String::new();
            let mut i: usize = 0;
            proof {
                array_view(*items);
            }
            while i < items.len()
                invariant
                    json matches JsonValue::Array(all) && all == items,
                    i <= items@.len(),
                    inner@ == canonical_items(json_trees(items@), i as nat),
                decreases items@.len() - i,
            {
                let next = stable_stringify(&items[i]);
                assert(json_trees(items@)[i as int] == items@[i as int]@);
                inner = append_separated(&inner, i, &next);
                i += 1;
            }
            joined(&joined("[", &inner), "]")
        },
        JsonValue::Object(members) => {
            let mut inner = String::new();
            let mut i: usize = 0;
            proof {
                object_view(*members);
            }
            while i < members.len()
                invariant
                    json matches JsonValue::Object(all) && all == members,
                    i <= members@.len(),
                    inner@ == canonical_members(member_trees(members@), i as nat),
                decreases members@.len() - i,
            {
                let value = stable_stringify(&members[i].1);
                assert(member_trees(members@)[i as int] == (members@[i as int].0@, members@[i as int].1@));
                let next = joined(&joined(&quoted_json(&members[i].0), ":"), &value);
                inner = append_separated(&inner, i, &next);
                i += 1;
            }
            joined(&joined("{", &inner), "}")
        },
    }
}

}

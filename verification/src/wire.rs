//! Trees of plain values and their MessagePack form.
use vstd::prelude::*;
use crate::text::byte_length;

verus! {

/// A tree of plain values, as MessagePack carries them. `Other` stands for what
/// no record of this library holds: maps, floating-point numbers, extensions and
/// strings that are not UTF-8.
#[verifier::ext_equal]
pub enum Wire {
    Nil,
    Flag(bool),
    Unsigned(u64),
    Negative(i64),
    Text(Seq<char>),
    Binary(Seq<u8>),
    Sequence(Seq<Wire>),
    Other,
}

/// The tree nests at most `depth` arrays, its lengths fit the 32 bits that
/// MessagePack has for them, and it holds nothing but plain values.
pub open spec fn carried(tree: Wire, depth: nat) -> bool
    decreases tree,
{
    match tree {
        Wire::Nil => true,
        Wire::Flag(_) => true,
        Wire::Unsigned(_) => true,
        Wire::Negative(number) => number < 0,
        Wire::Text(text) => byte_length(text) <= u32::MAX,
        Wire::Binary(bytes) => bytes.len() <= u32::MAX,
        Wire::Sequence(items) => {
            &&& depth > 0
            &&& items.len() <= u32::MAX
            &&& forall|i: int| 0 <= i < items.len() ==> carried(#[trigger] items[i], (depth - 1) as nat)
        },
        Wire::Other => false,
    }
}

/// No part of the tree is `Other`.
pub open spec fn plain(tree: Wire) -> bool
    decreases tree,
{
    match tree {
        Wire::Sequence(items) => forall|i: int| 0 <= i < items.len() ==> plain(#[trigger] items[i]),
        Wire::Other => false,
        _ => true,
    }
}

/// The number of items that the header of a MessagePack array gives, if the bytes
/// start with such a header.
pub open spec fn array_length(bytes: Seq<u8>) -> Option<nat> {
    if bytes.len() >= 1 && 0x90 <= bytes[0] <= 0x9f {
        Some((bytes[0] - 0x90) as nat)
    } else if bytes.len() >= 3 && bytes[0] == 0xdc {
        Some((bytes[1] * 0x100 + bytes[2]) as nat)
    } else if bytes.len() >= 5 && bytes[0] == 0xdd {
        Some((bytes[1] * 0x100_0000 + bytes[2] * 0x1_0000 + bytes[3] * 0x100 + bytes[4]) as nat)
    } else {
        None
    }
}

/// The number of members that the header of a MessagePack map gives, if the bytes start
/// with such a header.
pub open spec fn map_length(bytes: Seq<u8>) -> Option<nat> {
    if bytes.len() >= 1 && 0x80 <= bytes[0] <= 0x8f {
        Some((bytes[0] - 0x80) as nat)
    } else if bytes.len() >= 3 && bytes[0] == 0xde {
        Some((bytes[1] * 0x100 + bytes[2]) as nat)
    } else if bytes.len() >= 5 && bytes[0] == 0xdf {
        Some((bytes[1] * 0x100_0000 + bytes[2] * 0x1_0000 + bytes[3] * 0x100 + bytes[4]) as nat)
    } else {
        None
    }
}

/// The byte that the first item of a MessagePack array starts with, if the bytes start
/// with an array that has items.
pub open spec fn item_marker(bytes: Seq<u8>) -> Option<u8> {
    let header: int = if bytes.len() > 0 && bytes[0] == 0xdd {
        5
    } else if bytes.len() > 0 && bytes[0] == 0xdc {
        3
    } else {
        1
    };
    if array_length(bytes) is Some && array_length(bytes)->0 > 0 && header < bytes.len() {
        Some(bytes[header])
    } else {
        None
    }
}

/// The first item of the array is a string.
pub open spec fn starts_with_text(bytes: Seq<u8>) -> bool {
    item_marker(bytes) matches Some(marker) && (0xa0 <= marker <= 0xbf || 0xd9 <= marker <= 0xdb)
}

/// The first item of the array is an integer.
pub open spec fn starts_with_integer(bytes: Seq<u8>) -> bool {
    item_marker(bytes) matches Some(marker) && (marker <= 0x7f || 0xcc <= marker <= 0xd3 || 0xe0 <= marker)
}

/// The items start with an integer.
pub open spec fn integer_first(items: Seq<Wire>) -> bool {
    items.len() > 0 && (items[0] is Unsigned || items[0] is Negative)
}

/// Reads the header of a MessagePack array.
pub fn messagepack_array_len(payload: &[u8]) -> (length: Option<u64>)
    ensures
        match length {
            Some(found) => array_length(payload@) == Some(found as nat),
            None => array_length(payload@) is None,
        },
{
    if payload.len() >= 1 && 0x90 <= payload[0] && payload[0] <= 0x9f {
        Some((payload[0] - 0x90) as u64)
    } else if payload.len() >= 3 && payload[0] == 0xdc {
        Some(payload[1] as u64 * 0x100 + payload[2] as u64)
    } else if payload.len() >= 5 && payload[0] == 0xdd {
        Some(
            payload[1] as u64 * 0x100_0000 + payload[2] as u64 * 0x1_0000 + payload[3] as u64 * 0x100
                + payload[4] as u64,
        )
    } else {
        None
    }
}

// ---------------------------------------------------------------------------
// Outside values
// ---------------------------------------------------------------------------

#[verifier::external_type_specification]
#[verifier::external_body]
pub struct ExValue(rmpv::Value);

/// The tree that an `rmpv::Value` holds.
pub uninterp spec fn value_tree(value: rmpv::Value) -> Wire;

/// The MessagePack form of a tree, as `rmp_serde::to_vec` writes it.
pub uninterp spec fn messagepack_encoding(tree: Wire) -> Seq<u8>;

/// The tree that `rmp_serde::from_slice` reads from the start of the bytes.
pub uninterp spec fn messagepack_decoding(bytes: Seq<u8>) -> Option<Wire>;

/// One `rmpv::Value` taken apart, one level deep.
pub enum ValueParts {
    Nil,
    Flag(bool),
    Unsigned(u64),
    Negative(i64),
    Text(String),
    Binary(Vec<u8>),
    Sequence(Vec<rmpv::Value>),
}

impl ValueParts {
    /// The tree of the value that these are the parts of.
    pub open spec fn tree(self) -> Wire {
        match self {
            ValueParts::Nil => Wire::Nil,
            ValueParts::Flag(flag) => Wire::Flag(flag),
            ValueParts::Unsigned(number) => Wire::Unsigned(number),
            ValueParts::Negative(number) => if number < 0 {
                Wire::Negative(number)
            } else {
                Wire::Unsigned(number as u64)
            },
            ValueParts::Text(text) => Wire::Text(text@),
            ValueParts::Binary(bytes) => Wire::Binary(bytes@),
            ValueParts::Sequence(items) => Wire::Sequence(
                items@.map_values(|item: rmpv::Value| value_tree(item)),
            ),
        }
    }
}

/// Takes an `rmpv::Value` apart by its variant. An integer comes out as unsigned
/// where `Integer::as_u64` takes it and otherwise as `Integer::as_i64` gives it; a
/// string comes out where `Utf8String::into_str` finds UTF-8. Nothing comes out of
/// any other value, whose tree is `Other`.
#[verifier::external_body]
fn open_value(value: rmpv::Value) -> (parts: Option<ValueParts>)
    ensures
        parts matches Some(found) ==> value_tree(value) == found.tree(),
        parts is None ==> value_tree(value) is Other,
{
    match value {
        rmpv::Value::Nil => Some(ValueParts::Nil),
        rmpv::Value::Boolean(flag) => Some(ValueParts::Flag(flag)),
        rmpv::Value::Integer(number) => match number.as_u64() {
            Some(unsigned) => Some(ValueParts::Unsigned(unsigned)),
            None => number.as_i64().map(ValueParts::Negative),
        },
        rmpv::Value::String(text) => text.into_str().map(ValueParts::Text),
        rmpv::Value::Binary(bytes) => Some(ValueParts::Binary(bytes)),
        rmpv::Value::Array(items) => Some(ValueParts::Sequence(items)),
        _ => None,
    }
}

/// Makes an `rmpv::Value` of its parts, by the variant or the `From` impl of
/// `rmpv::Value` that holds them.
#[verifier::external_body]
fn close_value(parts: ValueParts) -> (value: rmpv::Value)
    ensures
        value_tree(value) == parts.tree(),
{
    match parts {
        ValueParts::Nil => rmpv::Value::Nil,
        ValueParts::Flag(flag) => rmpv::Value::Boolean(flag),
        ValueParts::Unsigned(number) => rmpv::Value::from(number),
        ValueParts::Negative(number) => rmpv::Value::from(number),
        ValueParts::Text(text) => rmpv::Value::from(text),
        ValueParts::Binary(bytes) => rmpv::Value::Binary(bytes),
        ValueParts::Sequence(items) => rmpv::Value::Array(items),
    }
}

/// `rmp_serde::to_vec` on an `rmpv::Value`: the bytes are a function of the
/// value's tree, where nothing in it is `Other`; and an array starts with a header that
/// gives the number of its items, where 32 bits hold it, and behind it with the marker of
/// an integer, if that is its first item. The call returns an error only
/// where memory for the bytes cannot be had; there this function panics, as a
/// growing vector does.
#[verifier::external_body]
fn value_to_vec(value: &rmpv::Value) -> (bytes: Vec<u8>)
    ensures
        plain(value_tree(*value)) ==> bytes@ == messagepack_encoding(value_tree(*value)),
        value_tree(*value) matches Wire::Sequence(items) ==> (items.len() <= u32::MAX ==> array_length(bytes@)
            == Some(items.len()) && (integer_first(items) ==> starts_with_integer(bytes@))),
{
    rmp_serde::to_vec(value).expect("memory for a MessagePack value")
}

/// `rmp_serde::from_slice` into an `rmpv::Value`: the outcome is a function of the
/// bytes; an array has as many items as its header says, and an integer as its first item
/// only behind the marker of one; and a value that `rmp_serde::to_vec` wrote is read back. The reader gives up at 1024 nested
/// arrays, and lengths have 32 bits: the last claim is made only of trees within
/// those bounds.
#[verifier::external_body]
fn value_from_slice(bytes: &[u8]) -> (value: Option<rmpv::Value>)
    ensures
        match value {
            Some(found) => messagepack_decoding(bytes@) == Some(value_tree(found)),
            None => messagepack_decoding(bytes@) is None,
        },
        value matches Some(found) ==> (value_tree(found) matches Wire::Sequence(items) ==> array_length(
            bytes@,
        ) == Some(items.len()) && (integer_first(items) ==> starts_with_integer(bytes@))),
        forall|tree: Wire|
            carried(tree, 1023) && bytes@ == #[trigger] messagepack_encoding(tree) ==> value is Some
                && value_tree(value->0) == tree,
{
    rmp_serde::from_slice(bytes).ok()
}

// ---------------------------------------------------------------------------
// Trees in memory
// ---------------------------------------------------------------------------

/// A tree of plain values in memory.
#[derive(Debug, PartialEq, Eq)]
pub enum WireValue {
    Nil,
    Flag(bool),
    Unsigned(u64),
    Negative(i64),
    Text(String),
    Binary(Vec<u8>),
    Sequence(Vec<WireValue>),
    Other,
}

impl WireValue {
    /// The tree that the value holds.
    pub open spec fn tree(self) -> Wire
        decreases self,
    {
        match self {
            WireValue::Nil => Wire::Nil,
            WireValue::Flag(flag) => Wire::Flag(flag),
            WireValue::Unsigned(number) => Wire::Unsigned(number),
            WireValue::Negative(number) => if number < 0 {
                Wire::Negative(number)
            } else {
                Wire::Unsigned(number as u64)
            },
            WireValue::Text(text) => Wire::Text(text@),
            WireValue::Binary(bytes) => Wire::Binary(bytes@),
            WireValue::Sequence(items) => Wire::Sequence(
                Seq::new(
                    items@.len(),
                    |i: int|
                        if 0 <= i < items@.len() {
                            items@[i].tree()
                        } else {
                            Wire::Nil
                        },
                ),
            ),
            WireValue::Other => Wire::Other,
        }
    }
}

impl View for WireValue {
    type V = Wire;

    open spec fn view(&self) -> Wire {
        self.tree()
    }
}

/// The trees of a sequence of values in memory.
pub open spec fn trees(items: Seq<WireValue>) -> Seq<Wire> {
    items.map_values(|item: WireValue| item@)
}

/// The view of a sequence is the sequence of the views.
pub proof fn sequence_view(items: Vec<WireValue>)
    ensures
        WireValue::Sequence(items)@ == Wire::Sequence(trees(items@)),
{
    assert(WireValue::Sequence(items)@->Sequence_0 =~= trees(items@));
}

fn to_value(tree: &WireValue) -> (value: rmpv::Value)
    ensures
        plain(tree@) ==> value_tree(value) == tree@,
    decreases tree,
{
    match tree {
        WireValue::Other => close_value(ValueParts::Nil),
        WireValue::Nil => close_value(ValueParts::Nil),
        WireValue::Flag(flag) => close_value(ValueParts::Flag(*flag)),
        WireValue::Unsigned(number) => close_value(ValueParts::Unsigned(*number)),
        WireValue::Negative(number) => close_value(ValueParts::Negative(*number)),
        WireValue::Text(text) => close_value(ValueParts::Text(text.clone())),
        WireValue::Binary(bytes) => close_value(ValueParts::Binary(crate::text::copy_bytes(bytes))),
        WireValue::Sequence(items) => {
            let mut values: Vec<rmpv::Value> = Vec::new();
            let mut i: usize = 0;
            proof {
                sequence_view(*items);
            }
            while i < items.len()
                invariant
                    tree matches WireValue::Sequence(all) && all == items,
                    tree@ == Wire::Sequence(trees(items@)),
                    i <= items@.len(),
                    values@.len() == i,
                    plain(tree@) ==> forall|k: int|
                        0 <= k < i ==> value_tree(#[trigger] values@[k]) == items@[k]@,
                decreases items@.len() - i,
            {
                proof {
                    below(tree@, i as int);
                }
                values.push(to_value(&items[i]));
                i += 1;
            }
            proof {
                if plain(tree@) {
                    assert(values@.map_values(|item: rmpv::Value| value_tree(item)) =~= trees(items@));
                }
            }
            close_value(ValueParts::Sequence(values))
        },
    }
}

/// An item of a sequence is smaller than the sequence, and plain if the sequence is.
proof fn below(tree: Wire, index: int)
    requires
        tree is Sequence,
        0 <= index < tree->Sequence_0.len(),
    ensures
        decreases_to!(tree => tree->Sequence_0[index]),
        plain(tree) ==> plain(tree->Sequence_0[index]),
{
    if let Wire::Sequence(items) = tree {
        assert(decreases_to!(tree => items));
        assert(decreases_to!(items => items[index]));
    }
}

fn from_value(value: rmpv::Value) -> (tree: WireValue)
    ensures
        tree@ == value_tree(value),
    decreases value_tree(value),
{
    match open_value(value) {
        None => WireValue::Other,
        Some(ValueParts::Nil) => WireValue::Nil,
        Some(ValueParts::Flag(flag)) => WireValue::Flag(flag),
        Some(ValueParts::Unsigned(number)) => WireValue::Unsigned(number),
        Some(ValueParts::Negative(number)) => WireValue::Negative(number),
        Some(ValueParts::Text(text)) => WireValue::Text(text),
        Some(ValueParts::Binary(bytes)) => WireValue::Binary(bytes),
        Some(ValueParts::Sequence(values)) => {
            let ghost all = values@;
            let ghost mapped = all.map_values(|item: rmpv::Value| value_tree(item));
            let mut rest = values;
            let mut reversed: Vec<WireValue> = Vec::new();
            while rest.len() > 0
                invariant
                    value_tree(value) == Wire::Sequence(mapped),
                    mapped == all.map_values(|item: rmpv::Value| value_tree(item)),
                    rest@.len() + reversed@.len() == all.len(),
                    rest@ == all.take(rest@.len() as int),
                    forall|k: int|
                        0 <= k < reversed@.len() ==> (#[trigger] reversed@[k])@ == mapped[all.len() - 1 - k],
                decreases rest@.len(),
            {
                let ghost index = rest@.len() - 1;
                if let Some(item) = rest.pop() {
                    assert(item == all[index]);
                    assert(mapped[index] == value_tree(all[index]));
                    proof {
                        below(value_tree(value), index);
                    }
                    reversed.push(from_value(item));
                }
                assert(rest@ =~= all.take(rest@.len() as int));
            }
            let mut items: Vec<WireValue> = Vec::new();
            while reversed.len() > 0
                invariant
                    reversed@.len() + items@.len() == all.len(),
                    mapped.len() == all.len(),
                    forall|k: int|
                        0 <= k < reversed@.len() ==> (#[trigger] reversed@[k])@ == mapped[all.len() - 1 - k],
                    forall|k: int| 0 <= k < items@.len() ==> (#[trigger] items@[k])@ == mapped[k],
                decreases reversed@.len(),
            {
                if let Some(item) = reversed.pop() {
                    items.push(item);
                }
            }
            proof {
                sequence_view(items);
                assert(trees(items@) =~= mapped);
            }
            WireValue::Sequence(items)
        },
    }
}

/// The MessagePack form of the tree, if it holds nothing but plain values.
pub fn encode_messagepack(tree: &WireValue) -> (bytes: Vec<u8>)
    ensures
        plain(tree@) ==> bytes@ == messagepack_encoding(tree@),
        tree@ matches Wire::Sequence(items) ==> (plain(tree@) && items.len() <= u32::MAX ==> array_length(bytes@)
            == Some(items.len()) && (integer_first(items) ==> starts_with_integer(bytes@))),
{
    let value = to_value(tree);
    value_to_vec(&value)
}

/// The tree at the start of the bytes, if there is one. What follows it is not looked
/// at.
pub fn decode_messagepack(bytes: &[u8]) -> (tree: Option<WireValue>)
    ensures
        match tree {
            Some(found) => messagepack_decoding(bytes@) == Some(found@),
            None => messagepack_decoding(bytes@) is None,
        },
        tree matches Some(found) ==> (found@ matches Wire::Sequence(items) ==> array_length(bytes@)
            == Some(items.len()) && (integer_first(items) ==> starts_with_integer(bytes@))),
        forall|wanted: Wire|
            carried(wanted, 1023) && bytes@ == #[trigger] messagepack_encoding(wanted) ==> tree is Some
                && tree->0@ == wanted,
{
    match value_from_slice(bytes) {
        None => None,
        Some(value) => Some(from_value(value)),
    }
}

/// A plain sequence stays plain when a plain field takes the place of another.
pub proof fn plain_with_field(tree: Wire, position: int, field: Wire)
    requires
        plain(tree),
        plain(field),
        tree matches Wire::Sequence(items) && 0 <= position < items.len(),
    ensures
        plain(Wire::Sequence(tree->Sequence_0.update(position, field))),
{
    let items = tree->Sequence_0;
    let changed = items.update(position, field);
    assert forall|i: int| 0 <= i < changed.len() implies plain(#[trigger] changed[i]) by {
        if i != position {
            below(tree, i);
        }
    }
}

/// A larger depth carries what a smaller one does.
pub proof fn carried_grows(tree: Wire, depth: nat, larger: nat)
    requires
        carried(tree, depth),
        depth <= larger,
    ensures
        carried(tree, larger),
    decreases tree,
{
    if let Wire::Sequence(items) = tree {
        assert forall|i: int| 0 <= i < items.len() implies carried(
            #[trigger] items[i],
            (larger - 1) as nat,
        ) by {
            carried_grows(items[i], (depth - 1) as nat, (larger - 1) as nat);
        }
    }
}

}

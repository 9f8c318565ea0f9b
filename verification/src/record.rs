//! Records with a positional MessagePack form: the shapes of their fields, and the
//! canonical encoding that every record shares.
use vstd::prelude::*;
use crate::error::{
    ensure, first_among, first_among_stays, first_of, none_among, refuse, reports, same_reasons,
    unless, CultNetError,
};
use crate::primitives::{sha256, sha256_digest};
use crate::text::{
    byte_length, byte_length_is_bounded, copy_bytes, hex, hex_text, hex_text_is_faithful,
    is_triple_before, joined, opt, same_bytes, sha256_reference, triple_before, views,
};
use crate::wire::{
    array_length, carried, carried_grows, decode_messagepack, encode_messagepack,
    messagepack_array_len, messagepack_decoding, messagepack_encoding, plain, sequence_view, trees,
    Wire, WireValue,
};

verus! {

// ---------------------------------------------------------------------------
// Shapes of fields
// ---------------------------------------------------------------------------

pub open spec fn text_list(texts: Seq<Seq<char>>) -> Wire {
    Wire::Sequence(texts.map_values(|text: Seq<char>| Wire::Text(text)))
}

/// Bytes as an array of numbers.
pub open spec fn byte_list(bytes: Seq<u8>) -> Wire {
    Wire::Sequence(bytes.map_values(|byte: u8| Wire::Unsigned(byte as u64)))
}

pub open spec fn optional_text(text: Option<Seq<char>>) -> Wire {
    match text {
        Some(found) => Wire::Text(found),
        None => Wire::Nil,
    }
}

pub open spec fn optional_number(number: Option<u64>) -> Wire {
    match number {
        Some(found) => Wire::Unsigned(found),
        None => Wire::Nil,
    }
}

/// A number of 32 bits or its absence.
pub open spec fn optional_small(number: Option<u32>) -> Wire {
    match number {
        Some(found) => Wire::Unsigned(found as u64),
        None => Wire::Nil,
    }
}

pub open spec fn optional_byte_list(bytes: Option<Vec<u8>>) -> Wire {
    match bytes {
        Some(found) => byte_list(found@),
        None => Wire::Nil,
    }
}

pub fn text_field(text: &str) -> (field: WireValue)
    ensures
        field@ == Wire::Text(text@),
{
    WireValue::Text(text.to_owned())
}

pub fn number_field(number: u64) -> (field: WireValue)
    ensures
        field@ == Wire::Unsigned(number),
{
    WireValue::Unsigned(number)
}

pub fn flag_field(flag: bool) -> (field: WireValue)
    ensures
        field@ == Wire::Flag(flag),
{
    WireValue::Flag(flag)
}

pub fn binary_field(bytes: &[u8]) -> (field: WireValue)
    ensures
        field@ == Wire::Binary(bytes@),
{
    WireValue::Binary(copy_bytes(bytes))
}

pub fn sequence_field(items: Vec<WireValue>) -> (field: WireValue)
    ensures
        field@ == Wire::Sequence(trees(items@)),
{
    proof {
        sequence_view(items);
    }
    WireValue::Sequence(items)
}

pub fn optional_text_field(text: &Option<String>) -> (field: WireValue)
    ensures
        field@ == optional_text(opt(*text)),
{
    match text {
        Some(found) => text_field(found),
        None => WireValue::Nil,
    }
}

pub fn optional_number_field(number: Option<u64>) -> (field: WireValue)
    ensures
        field@ == optional_number(number),
{
    match number {
        Some(found) => WireValue::Unsigned(found),
        None => WireValue::Nil,
    }
}

pub fn optional_small_field(number: Option<u32>) -> (field: WireValue)
    ensures
        field@ == optional_small(number),
{
    match number {
        Some(found) => WireValue::Unsigned(found as u64),
        None => WireValue::Nil,
    }
}

pub fn byte_list_field(bytes: &[u8]) -> (field: WireValue)
    ensures
        field@ == byte_list(bytes@),
{
    let mut items: Vec<WireValue> = Vec::new();
    let mut i: usize = 0;
    while i < bytes.len()
        invariant
            i <= bytes@.len(),
            items@.len() == i,
            forall|k: int| 0 <= k < i ==> (#[trigger] items@[k])@ == Wire::Unsigned(bytes@[k] as u64),
        decreases bytes@.len() - i,
    {
        items.push(WireValue::Unsigned(bytes[i] as u64));
        i += 1;
    }
    let field = sequence_field(items);
    assert(field@->Sequence_0 =~= byte_list(bytes@)->Sequence_0);
    field
}

pub fn optional_byte_list_field(bytes: &Option<Vec<u8>>) -> (field: WireValue)
    ensures
        field@ == optional_byte_list(*bytes),
{
    match bytes {
        Some(found) => byte_list_field(found),
        None => WireValue::Nil,
    }
}

pub fn text_list_field(texts: &Vec<String>) -> (field: WireValue)
    ensures
        field@ == text_list(views(texts@)),
{
    let mut items: Vec<WireValue> = Vec::new();
    let mut i: usize = 0;
    while i < texts.len()
        invariant
            i <= texts@.len(),
            items@.len() == i,
            forall|k: int| 0 <= k < i ==> (#[trigger] items@[k])@ == Wire::Text(texts@[k]@),
        decreases texts@.len() - i,
    {
        items.push(text_field(&texts[i]));
        i += 1;
    }
    let field = sequence_field(items);
    assert(field@->Sequence_0 =~= text_list(views(texts@))->Sequence_0);
    field
}

/// The sequence with another field at one position.
pub fn with_field(field: WireValue, position: usize, replacement: WireValue) -> (replaced: WireValue)
    ensures
        field@ matches Wire::Sequence(items) ==> position < items.len() ==> replaced@ == Wire::Sequence(
            items.update(position as int, replacement@),
        ),
{
    match field {
        WireValue::Sequence(items) => {
            let mut changed = items;
            proof {
                sequence_view(items);
            }
            if position < changed.len() {
                changed.set(position, replacement);
                assert(trees(changed@) =~= trees(items@).update(position as int, replacement@));
            }
            sequence_field(changed)
        },
        _ => field,
    }
}

/// The text in the field, if it is one.
pub fn read_text(field: &WireValue) -> (text: Option<String>)
    ensures
        match text {
            Some(found) => field@ == Wire::Text(found@),
            None => !(field@ is Text),
        },
{
    match field {
        WireValue::Text(found) => Some(found.clone()),
        _ => None,
    }
}

pub fn read_number(field: &WireValue) -> (number: Option<u64>)
    ensures
        match number {
            Some(found) => field@ == Wire::Unsigned(found),
            None => !(field@ is Unsigned),
        },
{
    match field {
        WireValue::Unsigned(found) => Some(*found),
        WireValue::Negative(found) => if *found >= 0 {
            Some(*found as u64)
        } else {
            None
        },
        _ => None,
    }
}

pub fn read_flag(field: &WireValue) -> (flag: Option<bool>)
    ensures
        match flag {
            Some(found) => field@ == Wire::Flag(found),
            None => !(field@ is Flag),
        },
{
    match field {
        WireValue::Flag(found) => Some(*found),
        _ => None,
    }
}

pub fn read_binary(field: &WireValue) -> (bytes: Option<Vec<u8>>)
    ensures
        match bytes {
            Some(found) => field@ == Wire::Binary(found@),
            None => !(field@ is Binary),
        },
{
    match field {
        WireValue::Binary(found) => Some(copy_bytes(found)),
        _ => None,
    }
}

/// The text in the field or its absence; nothing if the field is neither.
pub fn read_optional_text(field: &WireValue) -> (text: Option<Option<String>>)
    ensures
        match text {
            Some(found) => field@ == optional_text(opt(found)),
            None => !(field@ is Text) && !(field@ is Nil),
        },
{
    match field {
        WireValue::Nil => Some(None),
        WireValue::Text(found) => Some(Some(found.clone())),
        _ => None,
    }
}

pub fn read_optional_number(field: &WireValue) -> (number: Option<Option<u64>>)
    ensures
        match number {
            Some(found) => field@ == optional_number(found),
            None => !(field@ is Unsigned) && !(field@ is Nil),
        },
{
    match field {
        WireValue::Nil => Some(None),
        _ => match read_number(field) {
            Some(found) => Some(Some(found)),
            None => None,
        },
    }
}

/// The number of 32 bits in the field, if it is one.
pub fn read_small(field: &WireValue) -> (number: Option<u32>)
    ensures
        match number {
            Some(found) => field@ == Wire::Unsigned(found as u64),
            None => !(field@ matches Wire::Unsigned(number) && number <= u32::MAX),
        },
{
    match read_number(field) {
        Some(found) if found <= 0xffff_ffff => Some(found as u32),
        _ => None,
    }
}

pub fn read_optional_small(field: &WireValue) -> (number: Option<Option<u32>>)
    ensures
        match number {
            Some(found) => field@ == optional_small(found),
            None => forall|any: Option<u32>| field@ != #[trigger] optional_small(any),
        },
{
    match field {
        WireValue::Nil => Some(None),
        _ => match read_small(field) {
            Some(found) => Some(Some(found)),
            None => None,
        },
    }
}

/// The items of the field, if it is a sequence of the given length.
pub fn read_items<'a>(field: &'a WireValue, length: usize) -> (items: Option<&'a Vec<WireValue>>)
    ensures
        match items {
            Some(found) => field@ == Wire::Sequence(trees(found@)) && found@.len() == length,
            None => !(field@ matches Wire::Sequence(all) && all.len() == length),
        },
{
    match field {
        WireValue::Sequence(found) => {
            proof {
                sequence_view(*found);
            }
            if found.len() == length {
                Some(found)
            } else {
                None
            }
        },
        _ => None,
    }
}

/// The items of the field, if it is a sequence.
pub fn read_sequence<'a>(field: &'a WireValue) -> (items: Option<&'a Vec<WireValue>>)
    ensures
        match items {
            Some(found) => field@ == Wire::Sequence(trees(found@)),
            None => !(field@ is Sequence),
        },
{
    match field {
        WireValue::Sequence(found) => {
            proof {
                sequence_view(*found);
            }
            Some(found)
        },
        _ => None,
    }
}

pub fn read_byte_list(field: &WireValue) -> (bytes: Option<Vec<u8>>)
    ensures
        match bytes {
            Some(found) => field@ == byte_list(found@),
            None => forall|any: Seq<u8>| field@ != #[trigger] byte_list(any),
        },
{
    match read_sequence(field) {
        None => None,
        Some(items) => {
            let mut out: Vec<u8> = Vec::new();
            let mut i: usize = 0;
            while i < items.len()
                invariant
                    i <= items@.len(),
                    field@ == Wire::Sequence(trees(items@)),
                    out@.len() == i,
                    forall|k: int| 0 <= k < i ==> trees(items@)[k] == Wire::Unsigned(#[trigger] out@[k] as u64),
                decreases items@.len() - i,
            {
                let number = read_number(&items[i]);
                assert(trees(items@)[i as int] == items@[i as int]@);
                match number {
                    Some(found) if found < 256 => {
                        out.push(found as u8);
                    },
                    _ => {
                        assert forall|any: Seq<u8>| field@ != #[trigger] byte_list(any) by {
                            if field@ == byte_list(any) {
                                assert(byte_list(any)->Sequence_0 == trees(items@));
                                assert(any.len() == items@.len());
                                assert(byte_list(any)->Sequence_0[i as int] == Wire::Unsigned(
                                    any[i as int] as u64,
                                ));
                            }
                        }
                        return None;
                    },
                }
                i += 1;
            }
            assert(trees(items@) =~= byte_list(out@)->Sequence_0);
            Some(out)
        },
    }
}

pub fn read_optional_byte_list(field: &WireValue) -> (bytes: Option<Option<Vec<u8>>>)
    ensures
        match bytes {
            Some(found) => field@ == optional_byte_list(found),
            None => forall|any: Option<Vec<u8>>| field@ != #[trigger] optional_byte_list(any),
        },
{
    match field {
        WireValue::Nil => Some(None),
        _ => match read_byte_list(field) {
            Some(found) => Some(Some(found)),
            None => None,
        },
    }
}

pub fn read_text_list(field: &WireValue) -> (texts: Option<Vec<String>>)
    ensures
        match texts {
            Some(found) => field@ == text_list(views(found@)),
            None => forall|any: Seq<Seq<char>>| field@ != #[trigger] text_list(any),
        },
{
    match read_sequence(field) {
        None => None,
        Some(items) => {
            let mut out: Vec<String> = Vec::new();
            let mut i: usize = 0;
            while i < items.len()
                invariant
                    i <= items@.len(),
                    field@ == Wire::Sequence(trees(items@)),
                    out@.len() == i,
                    forall|k: int| 0 <= k < i ==> trees(items@)[k] == Wire::Text((#[trigger] out@[k])@),
                decreases items@.len() - i,
            {
                let text = read_text(&items[i]);
                assert(trees(items@)[i as int] == items@[i as int]@);
                match text {
                    Some(found) => {
                        out.push(found);
                    },
                    None => {
                        assert forall|any: Seq<Seq<char>>| field@ != #[trigger] text_list(any) by {
                            if field@ == text_list(any) {
                                assert(text_list(any)->Sequence_0 == trees(items@));
                                assert(any.len() == items@.len());
                                assert(text_list(any)->Sequence_0[i as int] is Text);
                            }
                        }
                        return None;
                    },
                }
                i += 1;
            }
            assert(trees(items@) =~= text_list(views(out@))->Sequence_0);
            Some(out)
        },
    }
}

pub proof fn byte_list_is_plain(bytes: Seq<u8>)
    ensures
        plain(byte_list(bytes)),
        bytes.len() <= u32::MAX ==> carried(byte_list(bytes), 1),
{
    let items = byte_list(bytes)->Sequence_0;
    assert forall|i: int| 0 <= i < items.len() implies plain(#[trigger] items[i]) && carried(items[i], 0) by {}
}

/// Optional byte lists are equal exactly if the bytes are.
pub proof fn optional_byte_list_is_faithful(a: Option<Vec<u8>>, b: Option<Vec<u8>>)
    requires
        optional_byte_list(a) == optional_byte_list(b),
    ensures
        a is Some <==> b is Some,
        a is Some ==> a->0@ == b->0@,
{
    if a is Some && b is Some {
        byte_list_is_faithful(a->0@, b->0@);
    }
}

pub proof fn text_list_is_plain(texts: Seq<Seq<char>>)
    ensures
        plain(text_list(texts)),
{
    let items = text_list(texts)->Sequence_0;
    assert forall|i: int| 0 <= i < items.len() implies plain(#[trigger] items[i]) by {}
}

/// Byte lists are equal exactly if the bytes are.
pub proof fn byte_list_is_faithful(a: Seq<u8>, b: Seq<u8>)
    ensures
        byte_list(a) == byte_list(b) <==> a == b,
{
    if byte_list(a) == byte_list(b) {
        let (left, right) = (byte_list(a)->Sequence_0, byte_list(b)->Sequence_0);
        assert(left.len() == right.len());
        assert forall|i: int| 0 <= i < a.len() implies a[i] == b[i] by {
            assert(left[i] == right[i]);
        }
        assert(a =~= b);
    }
}

/// Text lists are equal exactly if the texts are.
pub proof fn text_list_is_faithful(a: Seq<Seq<char>>, b: Seq<Seq<char>>)
    ensures
        text_list(a) == text_list(b) <==> a == b,
{
    if text_list(a) == text_list(b) {
        let (left, right) = (text_list(a)->Sequence_0, text_list(b)->Sequence_0);
        assert(left.len() == right.len());
        assert forall|i: int| 0 <= i < a.len() implies a[i] == b[i] by {
            assert(left[i] == right[i]);
        }
        assert(a =~= b);
    }
}

/// `sha256-` and the digest of the bytes in hexadecimal digits.
pub open spec fn sha256_text(bytes: Seq<u8>) -> Seq<char> {
    "sha256-"@ + hex_text(sha256_digest(bytes))
}

/// The digest of the bytes, prefixed by the name of the algorithm.
pub fn prefixed_sha256(bytes: &[u8]) -> (text: String)
    ensures
        text@ == sha256_text(bytes@),
        sha256_reference(text@),
{
    let digest = sha256(bytes);
    proof {
        digests_are_references(bytes@);
    }
    joined("sha256-", &hex(&digest))
}

/// A reference to a digest fits MessagePack's bounds.
pub broadcast proof fn sha256_reference_is_short(text: Seq<char>)
    ensures
        #[trigger] sha256_reference(text) ==> byte_length(text) <= u32::MAX,
{
    reveal_strlit("sha256-");
    byte_length_is_bounded(text);
}

/// The digest of any bytes is a reference to a digest.
pub proof fn digests_are_references(bytes: Seq<u8>)
    requires
        sha256_digest(bytes).len() == 32,
    ensures
        sha256_reference(sha256_text(bytes)),
{
    let text = sha256_text(bytes);
    let digits = hex_text(sha256_digest(bytes));
    hex_text_is_faithful(sha256_digest(bytes), sha256_digest(bytes));
    assert(text.take("sha256-"@.len() as int) =~= "sha256-"@);
    assert(text.skip("sha256-"@.len() as int) =~= digits);
}

// ---------------------------------------------------------------------------
// Canonical encoding
// ---------------------------------------------------------------------------

/// A record with a fixed number of positional fields and rules that it must meet.
pub trait Record: Sized {
    /// The positional form.
    spec fn wire(self) -> Wire;

    /// The number of positional fields.
    spec fn width() -> nat;

    /// How deep sequences nest in the positional form.
    spec fn depth() -> nat;

    /// The first rule that the record breaks, in words.
    spec fn violation(self) -> Option<Seq<char>>;

    /// The positional form is a sequence of as many plain fields as the width says.
    proof fn shape(self)
        ensures
            plain(self.wire()),
            self.wire() matches Wire::Sequence(fields) && fields.len() == Self::width(),
    ;

    /// A record that meets its rules fits MessagePack's bounds.
    proof fn valid_is_carried(self)
        requires
            self.violation() is None,
        ensures
            carried(self.wire(), Self::depth()),
            Self::depth() <= 1023,
    ;

    /// The rules look at nothing but the positional form.
    proof fn wire_decides(self, other: Self)
        requires
            self.wire() == other.wire(),
        ensures
            self.violation() == other.violation(),
    ;

    fn to_wire(&self) -> (field: WireValue)
        ensures
            field@ == self.wire(),
    ;

    fn from_wire(field: &WireValue) -> (record: Option<Self>)
        ensures
            match record {
                Some(found) => found.wire() == field@,
                None => forall|any: Self| #[trigger] any.wire() != field@,
            },
    ;

    fn check(&self) -> (outcome: Result<(), CultNetError>)
        ensures
            reports(outcome, self.violation()),
    ;
}

/// A record that is exchanged in its canonical form, with the words in which a payload
/// is refused before the record's own rules.
pub trait CanonicalRecord: Record {
    /// The payload is no array of the record's width.
    const WIDTH_REFUSAL: &'static str;

    /// The payload holds no record.
    const MALFORMED_REFUSAL: &'static str;

    /// The payload is not the form that the record in it has.
    const NONCANONICAL_REFUSAL: &'static str;

    /// Whether the record's rules come before the test that the payload is canonical.
    const RULES_FIRST: bool;
}

/// Why the payload is not the canonical form of the record that was read from it.
pub open spec fn canonical_violation<R: CanonicalRecord>(payload: Seq<u8>, record: R) -> Option<
    Seq<char>,
> {
    let canonical = unless(
        payload == messagepack_encoding(record.wire()),
        R::NONCANONICAL_REFUSAL@,
    );
    if R::RULES_FIRST {
        first_of(record.violation(), canonical)
    } else {
        first_of(canonical, record.violation())
    }
}

/// What comes of decoding a payload: exactly the canonical forms of valid records are
/// taken; anything else is refused for its width, as malformed, or for the first
/// rule that the record in it breaks.
pub open spec fn decoded_canonically<R: CanonicalRecord>(
    payload: Seq<u8>,
    outcome: Result<R, CultNetError>,
) -> bool {
    &&& array_length(payload) != Some(R::width()) ==> outcome is Err && outcome->Err_0@ == R::WIDTH_REFUSAL@
    &&& array_length(payload) == Some(R::width()) ==> {
        &&& (forall|record: R| messagepack_decoding(payload) != Some(#[trigger] record.wire()))
            ==> outcome is Err && outcome->Err_0@ == R::MALFORMED_REFUSAL@
        &&& forall|record: R|
            messagepack_decoding(payload) == Some(#[trigger] record.wire()) ==> reports(
                outcome,
                canonical_violation(payload, record),
            )
    }
    &&& match outcome {
        Ok(record) => record.violation() is None && payload == messagepack_encoding(record.wire()),
        Err(_) => forall|record: R|
            record.violation() is None ==> payload != messagepack_encoding(#[trigger] record.wire()),
    }
    &&& forall|record: R|
        record.violation() is None && payload == messagepack_encoding(#[trigger] record.wire())
            ==> outcome is Ok && outcome->Ok_0.wire() == record.wire()
}

/// The MessagePack form of a record, whether or not it meets its rules.
pub fn record_bytes<R: Record>(record: &R) -> (bytes: Vec<u8>)
    ensures
        bytes@ == messagepack_encoding(record.wire()),
{
    proof {
        record.shape();
    }
    encode_messagepack(&record.to_wire())
}

/// The MessagePack form of a record that meets its rules.
pub fn canonical_record_bytes<R: Record>(record: &R) -> (outcome: Result<Vec<u8>, CultNetError>)
    ensures
        reports(outcome, record.violation()),
        outcome matches Ok(bytes) ==> bytes@ == messagepack_encoding(record.wire()),
{
    record.check()?;
    Ok(record_bytes(record))
}

/// The digest of the record's canonical form.
pub open spec fn canonical_digest<R: Record>(record: R) -> Seq<char> {
    sha256_text(messagepack_encoding(record.wire()))
}

/// The digest of the canonical form of a record that meets its rules.
pub fn canonical_record_sha256<R: Record>(record: &R) -> (outcome: Result<String, CultNetError>)
    ensures
        reports(outcome, record.violation()),
        outcome matches Ok(digest) ==> digest@ == canonical_digest(*record) && sha256_reference(digest@),
{
    record.check()?;
    Ok(prefixed_sha256(&record_bytes(record)))
}

/// The record whose canonical form the payload is.
pub fn decode_canonical_record<R: CanonicalRecord>(payload: &[u8], width: usize) -> (outcome: Result<
    R,
    CultNetError,
>)
    requires
        width == R::width(),
    ensures
        decoded_canonically(payload@, outcome),
{
    let length = messagepack_array_len(payload);
    let decoded = decode_messagepack(payload);
    proof {
        assert forall|record: R|
            record.violation() is None && payload@ == messagepack_encoding(
                #[trigger] record.wire(),
            ) implies decoded is Some && decoded->0@ == record.wire() && array_length(payload@) == Some(
            R::width(),
        ) by {
            record.shape();
            record.valid_is_carried();
            carried_grows(record.wire(), R::depth(), 1023);
        }
        assert forall|record: R|
            messagepack_decoding(payload@) == Some(
                #[trigger] record.wire(),
            ) implies decoded is Some && decoded->0@ == record.wire() by {
            record.shape();
        }
    }
    if length != Some(width as u64) {
        return refuse(R::WIDTH_REFUSAL);
    }
    match decoded {
        None => refuse(R::MALFORMED_REFUSAL),
        Some(tree) => match R::from_wire(&tree) {
            None => refuse(R::MALFORMED_REFUSAL),
            Some(record) => {
                proof {
                    assert forall|other: R|
                        #[trigger] other.wire() == record.wire() implies other.violation()
                        == record.violation() by {
                        other.wire_decides(record);
                    }
                }
                let canonical = same_bytes(&record_bytes(&record), payload);
                if R::RULES_FIRST {
                    record.check()?;
                    ensure(canonical, R::NONCANONICAL_REFUSAL)?;
                } else {
                    ensure(canonical, R::NONCANONICAL_REFUSAL)?;
                    record.check()?;
                }
                Ok(record)
            },
        },
    }
}

/// A copy of the record.
pub fn copy_record<R: Record>(record: &R) -> (copy: R)
    ensures
        copy.wire() == record.wire(),
        copy.violation() == record.violation(),
{
    let field = record.to_wire();
    let copied = R::from_wire(&field);
    match copied {
        Some(copy) => {
            proof {
                copy.wire_decides(*record);
            }
            copy
        },
        None => {
            assert(record.wire() == field@);
            vstd::pervasive::unreached()
        },
    }
}

// ---------------------------------------------------------------------------
// Records inside records
// ---------------------------------------------------------------------------

pub open spec fn record_list<R: Record>(records: Seq<R>) -> Wire {
    Wire::Sequence(records.map_values(|record: R| record.wire()))
}

pub open spec fn optional_record<R: Record>(record: Option<R>) -> Wire {
    match record {
        Some(found) => found.wire(),
        None => Wire::Nil,
    }
}

pub fn record_list_field<R: Record>(records: &Vec<R>) -> (field: WireValue)
    ensures
        field@ == record_list(records@),
{
    let mut items: Vec<WireValue> = Vec::new();
    let mut i: usize = 0;
    while i < records.len()
        invariant
            i <= records@.len(),
            items@.len() == i,
            forall|k: int| 0 <= k < i ==> (#[trigger] items@[k])@ == records@[k].wire(),
        decreases records@.len() - i,
    {
        items.push(records[i].to_wire());
        i += 1;
    }
    let field = sequence_field(items);
    assert(field@->Sequence_0 =~= record_list(records@)->Sequence_0);
    field
}

pub fn optional_record_field<R: Record>(record: &Option<R>) -> (field: WireValue)
    ensures
        field@ == optional_record(*record),
{
    match record {
        Some(found) => found.to_wire(),
        None => WireValue::Nil,
    }
}

pub fn read_record_list<R: Record>(field: &WireValue) -> (records: Option<Vec<R>>)
    ensures
        match records {
            Some(found) => field@ == record_list(found@),
            None => forall|any: Seq<R>| field@ != #[trigger] record_list(any),
        },
{
    match read_sequence(field) {
        None => None,
        Some(items) => {
            let mut out: Vec<R> = Vec::new();
            let mut i: usize = 0;
            while i < items.len()
                invariant
                    i <= items@.len(),
                    field@ == Wire::Sequence(trees(items@)),
                    out@.len() == i,
                    forall|k: int| 0 <= k < i ==> trees(items@)[k] == (#[trigger] out@[k]).wire(),
                decreases items@.len() - i,
            {
                let record = R::from_wire(&items[i]);
                assert(trees(items@)[i as int] == items@[i as int]@);
                match record {
                    Some(found) => {
                        out.push(found);
                    },
                    None => {
                        assert forall|any: Seq<R>| field@ != #[trigger] record_list(any) by {
                            if field@ == record_list(any) {
                                assert(record_list(any)->Sequence_0 == trees(items@));
                                assert(any.len() == items@.len());
                                assert(record_list(any)->Sequence_0[i as int] == any[i as int].wire());
                            }
                        }
                        return None;
                    },
                }
                i += 1;
            }
            assert(trees(items@) =~= record_list(out@)->Sequence_0);
            Some(out)
        },
    }
}

pub fn read_optional_record<R: Record>(field: &WireValue) -> (record: Option<Option<R>>)
    ensures
        match record {
            Some(found) => field@ == optional_record(found),
            None => forall|any: Option<R>| field@ != #[trigger] optional_record(any),
        },
{
    match field {
        WireValue::Nil => Some(None),
        _ => match R::from_wire(field) {
            Some(found) => Some(Some(found)),
            None => None,
        },
    }
}

/// Lists with the same form hold, one by one, records with the same form.
pub proof fn same_record_lists<R: Record>(a: Seq<R>, b: Seq<R>)
    requires
        record_list(a) == record_list(b),
    ensures
        a.len() == b.len(),
        forall|i: int| 0 <= i < a.len() ==> (#[trigger] a[i]).wire() == b[i].wire(),
{
    let (left, right) = (record_list(a)->Sequence_0, record_list(b)->Sequence_0);
    assert(left.len() == right.len());
    assert forall|i: int| 0 <= i < a.len() implies (#[trigger] a[i]).wire() == b[i].wire() by {
        assert(left[i] == right[i]);
    }
}

/// Optional records with the same form are both there or both missing.
pub proof fn same_optional_records<R: Record>(a: Option<R>, b: Option<R>)
    requires
        optional_record(a) == optional_record(b),
    ensures
        a is Some <==> b is Some,
        a is Some ==> a->0.wire() == b->0.wire(),
{
    if let Some(found) = a {
        found.shape();
    }
    if let Some(found) = b {
        found.shape();
    }
}

pub proof fn record_list_is_plain<R: Record>(records: Seq<R>)
    ensures
        plain(record_list(records)),
{
    let items = record_list(records)->Sequence_0;
    assert forall|i: int| 0 <= i < items.len() implies plain(#[trigger] items[i]) by {
        records[i].shape();
    }
}

pub proof fn record_list_is_carried<R: Record>(records: Seq<R>)
    requires
        records.len() <= u32::MAX,
        forall|i: int| 0 <= i < records.len() ==> (#[trigger] records[i]).violation() is None,
    ensures
        carried(record_list(records), R::depth() + 1),
{
    let items = record_list(records)->Sequence_0;
    assert forall|i: int| 0 <= i < items.len() implies carried(#[trigger] items[i], R::depth()) by {
        records[i].valid_is_carried();
    }
}

// ---------------------------------------------------------------------------
// Lists in strict order
// ---------------------------------------------------------------------------

/// A record that is known by three texts within its list.
pub trait Identified: Record {
    spec fn identity(self) -> (Seq<char>, Seq<char>, Seq<char>);

    /// The positional form fixes the identity.
    proof fn wire_identifies(self, other: Self)
        requires
            self.wire() == other.wire(),
        ensures
            self.identity() == other.identity(),
    ;

    fn identity_texts(&self) -> (texts: (&str, &str, &str))
        ensures
            (texts.0@, texts.1@, texts.2@) == self.identity(),
    ;
}

/// The record comes after the one before it in the list.
pub open spec fn in_order<R: Identified>(records: Seq<R>, position: int) -> bool {
    position == 0 || triple_before(records[position - 1].identity(), records[position].identity())
}

/// Why the record at the position is refused, if it is: for a rule of its own, or for
/// its place.
pub open spec fn member_violation<R: Identified>(records: Seq<R>, position: int, disorder: Seq<char>) -> Option<
    Seq<char>,
> {
    first_of(records[position].violation(), unless(in_order(records, position), disorder))
}

/// Why the list is refused, if it is: for its length, or for the first record that is
/// refused.
pub open spec fn sorted_list_violation<R: Identified>(
    records: Seq<R>,
    limit: int,
    excess: Seq<char>,
    disorder: Seq<char>,
) -> Option<Seq<char>> {
    if records.len() > limit {
        Some(excess)
    } else {
        first_among(|i: int| member_violation(records, i, disorder), records.len())
    }
}

pub fn check_sorted_list<R: Identified>(records: &Vec<R>, limit: usize, excess: &str, disorder: &str) -> (outcome:
    Result<(), CultNetError>)
    ensures
        reports(outcome, sorted_list_violation(records@, limit as int, excess@, disorder@)),
{
    ensure(records.len() <= limit, excess)?;
    let ghost reasons = |i: int| member_violation(records@, i, disorder@);
    let mut i: usize = 0;
    while i < records.len()
        invariant
            i <= records@.len() <= limit,
            reasons == (|i: int| member_violation(records@, i, disorder@)),
            first_among(reasons, i as nat) is None,
        decreases records@.len() - i,
    {
        let checked = records[i].check();
        proof {
            assert(reasons(i as int) == member_violation(records@, i as int, disorder@));
            assert(first_among(reasons, (i + 1) as nat) == reasons(i as int));
            if reasons(i as int) is Some {
                first_among_stays(reasons, (i + 1) as nat, records@.len());
            }
        }
        if checked.is_err() {
            return checked;
        }
        if i > 0 && !is_triple_before(records[i - 1].identity_texts(), records[i].identity_texts()) {
            return refuse(disorder);
        }
        i += 1;
    }
    Ok(())
}

/// Lists with the same form are refused for the same reason.
pub proof fn same_lists_same_violation<R: Identified>(
    a: Seq<R>,
    b: Seq<R>,
    limit: int,
    excess: Seq<char>,
    disorder: Seq<char>,
)
    requires
        record_list(a) == record_list(b),
    ensures
        sorted_list_violation(a, limit, excess, disorder) == sorted_list_violation(b, limit, excess, disorder),
{
    same_record_lists(a, b);
    let left = |i: int| member_violation(a, i, disorder);
    let right = |i: int| member_violation(b, i, disorder);
    assert forall|i: int| 0 <= i < a.len() implies #[trigger] left(i) == right(i) by {
        a[i].wire_decides(b[i]);
        a[i].wire_identifies(b[i]);
        if i > 0 {
            a[i - 1].wire_identifies(b[i - 1]);
        }
    }
    same_reasons(left, right, a.len());
}

/// A list that is not refused is within its limit, holds records that meet their
/// rules, and is strictly sorted by their identities.
pub proof fn accepted_list_is_sorted<R: Identified>(
    records: Seq<R>,
    limit: int,
    excess: Seq<char>,
    disorder: Seq<char>,
)
    requires
        sorted_list_violation(records, limit, excess, disorder) is None,
    ensures
        records.len() <= limit,
        forall|i: int| 0 <= i < records.len() ==> (#[trigger] records[i]).violation() is None,
        forall|i: int| 0 <= i < records.len() ==> #[trigger] in_order(records, i),
{
    let reasons = |i: int| member_violation(records, i, disorder);
    none_among(reasons, records.len());
    assert forall|i: int| 0 <= i < records.len() implies (#[trigger] records[i]).violation() is None by {
        assert(reasons(i) is None);
    }
    assert forall|i: int| 0 <= i < records.len() implies #[trigger] in_order(records, i) by {
        assert(reasons(i) is None);
    }
}

}

//! Rules on text and bytes that the records share: blankness, padding, order,
//! hexadecimal digits, decimal numbers, and the byte forms of text and integers.
use vstd::prelude::*;
use vstd::utf8::{decode_utf8, encode_utf8, valid_utf8};

verus! {

broadcast use vstd::utf8::encode_utf8_decode_utf8;

/// `String::push`: appends the character to the end of the string.
pub assume_specification [String::push] (text: &mut String, letter: char)
    ensures
        final(text)@ == old(text)@.push(letter),
;

/// `String::from_utf8`, with the rejected bytes dropped: it succeeds exactly on
/// well-formed UTF-8 and then holds the characters that the bytes encode.
#[verifier::external_body]
pub(crate) fn text_from_utf8(bytes: Vec<u8>) -> (text: Option<String>)
    ensures
        text is Some <==> valid_utf8(bytes@),
        text matches Some(found) ==> found@ == decode_utf8(bytes@),
{
    String::from_utf8(bytes).ok()
}

/// The text between quotation marks, with the escapes of Rust's debug form.
pub uninterp spec fn debug_text(text: Seq<char>) -> Seq<char>;

/// `format!("{:?}")` on a string: the outcome depends on the string alone.
#[verifier::external_body]
pub(crate) fn quoted(text: &str) -> (form: String)
    ensures
        form@ == debug_text(text@),
{
    format!("{text:?}")
}

// ---------------------------------------------------------------------------
// Characters
// ---------------------------------------------------------------------------

/// Characters with the Unicode property `White_Space`.
pub open spec fn white_space(letter: char) -> bool {
    let code = letter as u32;
    ||| 0x09 <= code <= 0x0d
    ||| code == 0x20
    ||| code == 0x85
    ||| code == 0xa0
    ||| code == 0x1680
    ||| 0x2000 <= code <= 0x200a
    ||| code == 0x2028
    ||| code == 0x2029
    ||| code == 0x202f
    ||| code == 0x205f
    ||| code == 0x3000
}

pub fn is_white_space(letter: char) -> (found: bool)
    ensures
        found == white_space(letter),
{
    let code: u32 = letter as u32;
    (0x09 <= code && code <= 0x0d) || code == 0x20 || code == 0x85 || code == 0xa0 || code == 0x1680
        || (0x2000 <= code && code <= 0x200a) || code == 0x2028 || code == 0x2029 || code == 0x202f
        || code == 0x205f || code == 0x3000
}

/// Characters of the Unicode general category `Cc`.
pub open spec fn control(letter: char) -> bool {
    let code = letter as u32;
    code <= 0x1f || 0x7f <= code <= 0x9f
}

pub fn is_control(letter: char) -> (found: bool)
    ensures
        found == control(letter),
{
    let code: u32 = letter as u32;
    code <= 0x1f || (0x7f <= code && code <= 0x9f)
}

/// The digits `0` to `9` and the letters `a` to `f`.
pub open spec fn lower_hex_letter(letter: char) -> bool {
    ('0' <= letter && letter <= '9') || ('a' <= letter && letter <= 'f')
}

// ---------------------------------------------------------------------------
// Text
// ---------------------------------------------------------------------------

/// Nothing but white space, or nothing at all.
pub open spec fn blank(text: Seq<char>) -> bool {
    forall|i: int| 0 <= i < text.len() ==> white_space(#[trigger] text[i])
}

/// White space neither at the start nor at the end.
pub open spec fn unpadded(text: Seq<char>) -> bool {
    text.len() == 0 || (!white_space(text[0]) && !white_space(text.last()))
}

/// Some character is a control character.
pub open spec fn has_control(text: Seq<char>) -> bool {
    exists|i: int| 0 <= i < text.len() && control(#[trigger] text[i])
}

/// Text without its leading and its trailing white space.
pub open spec fn trimmed(text: Seq<char>) -> Seq<char>
    decreases text.len(),
{
    if text.len() == 0 {
        text
    } else if white_space(text[0]) {
        trimmed(text.drop_first())
    } else if white_space(text.last()) {
        trimmed(text.drop_last())
    } else {
        text
    }
}

/// The number of bytes of the text's UTF-8 form.
pub open spec fn byte_length(text: Seq<char>) -> nat {
    encode_utf8(text).len()
}

/// Every character is a lower-case hexadecimal digit.
pub open spec fn lower_hex(text: Seq<char>) -> bool {
    forall|i: int| 0 <= i < text.len() ==> lower_hex_letter(#[trigger] text[i])
}

pub open spec fn starts_with(text: Seq<char>, prefix: Seq<char>) -> bool {
    prefix.len() <= text.len() && text.take(prefix.len() as int) == prefix
}

/// `before(a, b)`: `a` comes strictly before `b` in the order of code points,
/// first difference first, a prefix before what it is a prefix of.
pub open spec fn before(a: Seq<char>, b: Seq<char>) -> bool
    decreases a.len(),
{
    if b.len() == 0 {
        false
    } else if a.len() == 0 {
        true
    } else if a[0] == b[0] {
        before(a.drop_first(), b.drop_first())
    } else {
        a[0] < b[0]
    }
}

/// The order of text triples, first text first.
pub open spec fn triple_before(
    a: (Seq<char>, Seq<char>, Seq<char>),
    b: (Seq<char>, Seq<char>, Seq<char>),
) -> bool {
    if a.0 != b.0 {
        before(a.0, b.0)
    } else if a.1 != b.1 {
        before(a.1, b.1)
    } else {
        before(a.2, b.2)
    }
}

/// The pieces between the separators, one more than there are separators.
pub open spec fn split(text: Seq<char>, separator: char) -> Seq<Seq<char>>
    decreases text.len(),
{
    if text.len() == 0 {
        seq![Seq::empty()]
    } else {
        let rest = split(text.drop_first(), separator);
        if text[0] == separator {
            seq![Seq::empty()] + rest
        } else {
            rest.update(0, seq![text[0]] + rest[0])
        }
    }
}

/// A name: not blank, at most 256 bytes long, and free of control characters.
pub open spec fn identifier(text: Seq<char>) -> bool {
    !blank(text) && byte_length(text) <= 256 && !has_control(text)
}

/// Not empty, within the limit of bytes, without padding and control characters.
pub open spec fn bounded(text: Seq<char>, limit: int) -> bool {
    text.len() > 0 && byte_length(text) <= limit && unpadded(text) && !has_control(text)
}

/// Each text comes strictly before the next one.
pub open spec fn strictly_sorted(texts: Seq<Seq<char>>) -> bool {
    forall|i: int| 0 <= i < texts.len() - 1 ==> before(#[trigger] texts[i], texts[i + 1])
}

/// The views of a sequence of strings.
pub open spec fn views(texts: Seq<String>) -> Seq<Seq<char>> {
    texts.map_values(|text: String| text@)
}

/// The view of an optional string.
pub open spec fn opt(text: Option<String>) -> Option<Seq<char>> {
    match text {
        Some(found) => Some(found@),
        None => None,
    }
}

/// The view of an optional borrowed text.
pub open spec fn text_of_option(text: Option<&str>) -> Option<Seq<char>> {
    match text {
        Some(found) => Some(found@),
        None => None,
    }
}

/// The characters of the text, one by one.
pub fn letters(text: &str) -> (found: Vec<char>)
    ensures
        found@ == text@,
{
    let mut out: Vec<char> = Vec::new();
    for letter in it: text.chars()
        invariant
            out@ == it.seq().take(it.index() as int),
            it.seq() == text@,
    {
        out.push(letter);
    }
    out
}

/// Text made of the given characters.
pub fn text_of(letters: &[char]) -> (text: String)
    ensures
        text@ == letters@,
{
    let mut out = String::new();
    let mut i: usize = 0;
    while i < letters.len()
        invariant
            i <= letters@.len(),
            out@ == letters@.take(i as int),
        decreases letters@.len() - i,
    {
        out.push(letters[i]);
        i += 1;
        assert(letters@.take(i as int) =~= letters@.take(i - 1).push(letters@[i - 1]));
    }
    assert(letters@.take(i as int) =~= letters@);
    out
}

pub fn same_bytes(a: &[u8], b: &[u8]) -> (same: bool)
    ensures
        same == (a@ == b@),
{
    if a.len() != b.len() {
        return false;
    }
    let mut i: usize = 0;
    while i < a.len()
        invariant
            i <= a@.len(),
            a@.len() == b@.len(),
            forall|k: int| 0 <= k < i ==> a@[k] == b@[k],
        decreases a@.len() - i,
    {
        if a[i] != b[i] {
            return false;
        }
        i += 1;
    }
    assert(a@ =~= b@);
    true
}

pub fn same_text(a: &str, b: &str) -> (same: bool)
    ensures
        same == (a@ == b@),
{
    let same = same_bytes(a.as_bytes(), b.as_bytes());
    proof {
        if same {
            assert(decode_utf8(encode_utf8(a@)) == decode_utf8(encode_utf8(b@)));
        }
    }
    same
}

/// Whether the optional text is there and equals the given one.
pub fn holds_text(text: &Option<String>, wanted: &str) -> (same: bool)
    ensures
        same == (opt(*text) == Some(wanted@)),
{
    match text {
        Some(found) => same_text(found, wanted),
        None => false,
    }
}

pub fn same_optional_text(a: &Option<String>, b: &Option<String>) -> (same: bool)
    ensures
        same == (opt(*a) == opt(*b)),
{
    match a {
        Some(found) => holds_text(b, found),
        None => b.is_none(),
    }
}

/// The optional text, borrowed.
pub fn as_text(text: &Option<String>) -> (borrowed: Option<&str>)
    ensures
        match borrowed {
            Some(found) => opt(*text) == Some(found@),
            None => text is None,
        },
{
    match text {
        Some(found) => Some(found.as_str()),
        None => None,
    }
}

pub fn is_blank(text: &str) -> (found: bool)
    ensures
        found == blank(text@),
{
    let all = letters(text);
    let mut i: usize = 0;
    while i < all.len()
        invariant
            i <= all@.len(),
            all@ == text@,
            forall|k: int| 0 <= k < i ==> white_space(#[trigger] all@[k]),
        decreases all@.len() - i,
    {
        if !is_white_space(all[i]) {
            return false;
        }
        i += 1;
    }
    true
}

pub fn is_unpadded(text: &str) -> (found: bool)
    ensures
        found == unpadded(text@),
{
    let all = letters(text);
    all.len() == 0 || (!is_white_space(all[0]) && !is_white_space(all[all.len() - 1]))
}

pub fn contains_control(text: &str) -> (found: bool)
    ensures
        found == has_control(text@),
{
    let all = letters(text);
    let mut i: usize = 0;
    while i < all.len()
        invariant
            i <= all@.len(),
            all@ == text@,
            forall|k: int| 0 <= k < i ==> !control(#[trigger] all@[k]),
        decreases all@.len() - i,
    {
        if is_control(all[i]) {
            assert(control(text@[i as int]));
            return true;
        }
        i += 1;
    }
    false
}

/// The text without its leading and its trailing white space.
pub fn trim(text: &str) -> (found: String)
    ensures
        found@ == trimmed(text@),
{
    let all = letters(text);
    let mut start: usize = 0;
    let mut end: usize = all.len();
    assert(all@.subrange(0, end as int) =~= text@);
    while start < end && is_white_space(all[start])
        invariant
            start <= end <= all@.len(),
            all@ == text@,
            trimmed(all@.subrange(start as int, end as int)) == trimmed(text@),
        decreases end - start,
    {
        assert(all@.subrange(start as int, end as int).drop_first() =~= all@.subrange(
            start + 1,
            end as int,
        ));
        start += 1;
    }
    while start < end && is_white_space(all[end - 1])
        invariant
            start <= end <= all@.len(),
            all@ == text@,
            start == end || !white_space(all@[start as int]),
            trimmed(all@.subrange(start as int, end as int)) == trimmed(text@),
        decreases end - start,
    {
        assert(all@.subrange(start as int, end as int).drop_last() =~= all@.subrange(
            start as int,
            end - 1,
        ));
        end -= 1;
    }
    text_of(vstd::slice::slice_subrange(all.as_slice(), start, end))
}

pub fn has_prefix(text: &str, prefix: &str) -> (found: bool)
    ensures
        found == starts_with(text@, prefix@),
{
    let all = letters(text);
    let wanted = letters(prefix);
    if all.len() < wanted.len() {
        return false;
    }
    let mut i: usize = 0;
    while i < wanted.len()
        invariant
            i <= wanted@.len() <= all@.len(),
            all@ == text@,
            wanted@ == prefix@,
            forall|k: int| 0 <= k < i ==> all@[k] == wanted@[k],
        decreases wanted@.len() - i,
    {
        if all[i] != wanted[i] {
            assert(text@.take(prefix@.len() as int)[i as int] != prefix@[i as int]);
            return false;
        }
        i += 1;
    }
    assert(text@.take(prefix@.len() as int) =~= prefix@);
    true
}

/// Whether `a` comes strictly before `b`.
pub fn is_before(a: &str, b: &str) -> (found: bool)
    ensures
        found == before(a@, b@),
{
    let left = letters(a);
    let right = letters(b);
    let mut i: usize = 0;
    assert(a@.skip(0) =~= a@);
    assert(b@.skip(0) =~= b@);
    while i < left.len() && i < right.len() && left[i] == right[i]
        invariant
            i <= left@.len(),
            i <= right@.len(),
            left@ == a@,
            right@ == b@,
            before(a@, b@) == before(a@.skip(i as int), b@.skip(i as int)),
        decreases left@.len() - i,
    {
        assert(a@.skip(i as int).drop_first() =~= a@.skip(i + 1));
        assert(b@.skip(i as int).drop_first() =~= b@.skip(i + 1));
        i += 1;
    }
    if i == right.len() {
        false
    } else if i == left.len() {
        true
    } else {
        left[i] < right[i]
    }
}

/// Whether the triple `a` comes strictly before the triple `b`.
pub fn is_triple_before(a: (&str, &str, &str), b: (&str, &str, &str)) -> (found: bool)
    ensures
        found == triple_before((a.0@, a.1@, a.2@), (b.0@, b.1@, b.2@)),
{
    if !same_text(a.0, b.0) {
        is_before(a.0, b.0)
    } else if !same_text(a.1, b.1) {
        is_before(a.1, b.1)
    } else {
        is_before(a.2, b.2)
    }
}

pub fn is_identifier(text: &str) -> (found: bool)
    ensures
        found == identifier(text@),
{
    !is_blank(text) && text.as_bytes().len() <= 256 && !contains_control(text)
}

pub fn is_bounded(text: &str, limit: usize) -> (found: bool)
    ensures
        found == bounded(text@, limit as int),
{
    letters(text).len() > 0 && text.as_bytes().len() <= limit && is_unpadded(text) && !contains_control(text)
}

/// The pieces of the text between the separators.
pub fn split_text(text: &str, separator: char) -> (pieces: Vec<String>)
    ensures
        views(pieces@) == split(text@, separator),
{
    let all = letters(text);
    let mut groups: Vec<Vec<char>> = Vec::new();
    let first: Vec<char> = Vec::new();
    groups.push(first);
    let mut i: usize = all.len();
    let ghost mut model: Seq<Seq<char>> = seq![Seq::empty()];
    assert(text@.skip(i as int) =~= Seq::empty());
    while i > 0
        invariant
            i <= all@.len(),
            all@ == text@,
            model == split(text@.skip(i as int), separator),
            groups@.len() == model.len(),
            groups@.len() > 0,
            forall|k: int| 0 <= k < model.len() ==> (#[trigger] groups@[k])@ == model[k],
        decreases i,
    {
        i -= 1;
        let letter = all[i];
        assert(text@.skip(i as int).drop_first() =~= text@.skip(i + 1));
        if letter == separator {
            let empty: Vec<char> = Vec::new();
            groups.insert(0, empty);
            proof {
                model = seq![Seq::empty()] + model;
            }
        } else {
            let mut head = groups.remove(0);
            head.insert(0, letter);
            proof {
                model = model.update(0, seq![letter] + model[0]);
                assert(head@ =~= model[0]);
            }
            groups.insert(0, head);
        }
    }
    assert(text@.skip(0) =~= text@);
    let mut pieces: Vec<String> = Vec::new();
    let mut k: usize = 0;
    while k < groups.len()
        invariant
            k <= groups@.len(),
            groups@.len() == model.len(),
            forall|j: int| 0 <= j < model.len() ==> (#[trigger] groups@[j])@ == model[j],
            pieces@.len() == k,
            forall|j: int| 0 <= j < k ==> (#[trigger] pieces@[j])@ == model[j],
        decreases groups@.len() - k,
    {
        pieces.push(text_of(&groups[k]));
        k += 1;
    }
    assert(views(pieces@) =~= model);
    pieces
}

/// Whether one of the texts equals the wanted one.
pub fn lists(texts: &Vec<String>, wanted: &str) -> (found: bool)
    ensures
        found == views(texts@).contains(wanted@),
{
    let ghost all = views(texts@);
    let mut i: usize = 0;
    while i < texts.len()
        invariant
            i <= texts@.len(),
            all == views(texts@),
            forall|k: int| 0 <= k < i ==> all[k] != wanted@,
        decreases texts@.len() - i,
    {
        if same_text(&texts[i], wanted) {
            assert(all[i as int] == wanted@);
            return true;
        }
        i += 1;
    }
    false
}

pub fn same_texts(a: &Vec<String>, b: &Vec<String>) -> (same: bool)
    ensures
        same == (views(a@) == views(b@)),
{
    if a.len() != b.len() {
        assert(views(a@).len() != views(b@).len());
        return false;
    }
    let ghost left = views(a@);
    let ghost right = views(b@);
    let mut i: usize = 0;
    while i < a.len()
        invariant
            i <= a@.len(),
            a@.len() == b@.len(),
            left == views(a@),
            right == views(b@),
            forall|k: int| 0 <= k < i ==> left[k] == right[k],
        decreases a@.len() - i,
    {
        if !same_text(&a[i], &b[i]) {
            assert(left[i as int] != right[i as int]);
            return false;
        }
        i += 1;
    }
    assert(left =~= right);
    true
}

pub fn copy_texts(texts: &Vec<String>) -> (copy: Vec<String>)
    ensures
        copy@ == texts@,
{
    let mut out: Vec<String> = Vec::new();
    let mut i: usize = 0;
    while i < texts.len()
        invariant
            i <= texts@.len(),
            out@ == texts@.take(i as int),
        decreases texts@.len() - i,
    {
        out.push(texts[i].clone());
        i += 1;
        assert(texts@.take(i as int) =~= texts@.take(i - 1).push(texts@[i - 1]));
    }
    assert(texts@.take(i as int) =~= texts@);
    out
}

pub fn copy_optional_text(text: &Option<String>) -> (copy: Option<String>)
    ensures
        copy == *text,
{
    match text {
        Some(found) => Some(found.clone()),
        None => None,
    }
}

pub fn copy_bytes(bytes: &[u8]) -> (copy: Vec<u8>)
    ensures
        copy@ == bytes@,
{
    let mut out: Vec<u8> = Vec::new();
    let mut i: usize = 0;
    while i < bytes.len()
        invariant
            i <= bytes@.len(),
            out@ == bytes@.take(i as int),
        decreases bytes@.len() - i,
    {
        out.push(bytes[i]);
        i += 1;
        assert(bytes@.take(i as int) =~= bytes@.take(i - 1).push(bytes@[i - 1]));
    }
    assert(bytes@.take(i as int) =~= bytes@);
    out
}

/// Appends the bytes to the vector.
pub fn append_bytes(target: &mut Vec<u8>, bytes: &[u8])
    ensures
        final(target)@ == old(target)@ + bytes@,
{
    let mut i: usize = 0;
    while i < bytes.len()
        invariant
            i <= bytes@.len(),
            target@ == old(target)@ + bytes@.take(i as int),
        decreases bytes@.len() - i,
    {
        target.push(bytes[i]);
        i += 1;
        assert(bytes@.take(i as int) =~= bytes@.take(i - 1).push(bytes@[i - 1]));
        assert(target@ =~= old(target)@ + bytes@.take(i as int));
    }
    assert(bytes@.take(i as int) =~= bytes@);
}

/// The two texts, one after the other.
pub fn joined(first: &str, second: &str) -> (text: String)
    ensures
        text@ == first@ + second@,
{
    let mut out: String = first.to_owned();
    out.append(second);
    out
}

// ---------------------------------------------------------------------------
// Hexadecimal digits and digests
// ---------------------------------------------------------------------------

/// The hexadecimal digits in the order of their values.
pub open spec fn hex_digits() -> Seq<char> {
    seq!['0', '1', '2', '3', '4', '5', '6', '7', '8', '9', 'a', 'b', 'c', 'd', 'e', 'f']
}

/// Two lower-case hexadecimal digits for each byte, the high one first.
pub open spec fn hex_text(bytes: Seq<u8>) -> Seq<char> {
    Seq::new(
        2 * bytes.len(),
        |i: int|
            if i % 2 == 0 {
                hex_digits()[bytes[i / 2] as int / 16]
            } else {
                hex_digits()[bytes[i / 2] as int % 16]
            },
    )
}

/// `sha256-` followed by 64 lower-case hexadecimal digits.
pub open spec fn sha256_reference(text: Seq<char>) -> bool {
    &&& starts_with(text, "sha256-"@)
    &&& hex_of_length(text.skip("sha256-"@.len() as int), 64)
}

/// As many lower-case hexadecimal digits as given, and nothing else.
pub open spec fn hex_of_length(text: Seq<char>, length: int) -> bool {
    text.len() == length && lower_hex(text)
}

fn hex_letter(value: u8) -> (letter: char)
    requires
        value < 16,
    ensures
        letter == hex_digits()[value as int],
{
    let digits = ['0', '1', '2', '3', '4', '5', '6', '7', '8', '9', 'a', 'b', 'c', 'd', 'e', 'f'];
    digits[value as usize]
}

pub fn hex(bytes: &[u8]) -> (text: String)
    ensures
        text@ == hex_text(bytes@),
{
    let mut out = String::new();
    let mut i: usize = 0;
    while i < bytes.len()
        invariant
            i <= bytes@.len(),
            out@ == hex_text(bytes@).take(2 * i),
        decreases bytes@.len() - i,
    {
        out.push(hex_letter(bytes[i] / 16));
        out.push(hex_letter(bytes[i] % 16));
        i += 1;
        assert(hex_text(bytes@).take(2 * i) =~= hex_text(bytes@).take(2 * (i - 1)).push(
            hex_text(bytes@)[2 * (i - 1)],
        ).push(hex_text(bytes@)[2 * (i - 1) + 1]));
    }
    assert(hex_text(bytes@).take(2 * i) =~= hex_text(bytes@));
    out
}

fn letters_are_lower_hex(letters: &[char]) -> (found: bool)
    ensures
        found == lower_hex(letters@),
{
    let mut i: usize = 0;
    while i < letters.len()
        invariant
            i <= letters@.len(),
            forall|k: int| 0 <= k < i ==> lower_hex_letter(#[trigger] letters@[k]),
        decreases letters@.len() - i,
    {
        let letter = letters[i];
        let digit = '0' <= letter && letter <= '9';
        let hex = 'a' <= letter && letter <= 'f';
        if !digit && !hex {
            return false;
        }
        i += 1;
    }
    true
}

pub fn is_hex_of_length(text: &str, length: usize) -> (found: bool)
    ensures
        found == hex_of_length(text@, length as int),
{
    let all = letters(text);
    all.len() == length && letters_are_lower_hex(&all)
}

pub fn is_sha256_reference(text: &str) -> (found: bool)
    ensures
        found == sha256_reference(text@),
{
    if !has_prefix(text, "sha256-") {
        return false;
    }
    let all = letters(text);
    let skipped: usize = letters("sha256-").len();
    let digits = vstd::slice::slice_subrange(all.as_slice(), skipped, all.len());
    assert(digits@ =~= text@.skip("sha256-"@.len() as int));
    digits.len() == 64 && letters_are_lower_hex(digits)
}

/// Hexadecimal text is made of lower-case digits, two for each byte, and tells
/// different bytes apart.
pub proof fn hex_text_is_faithful(a: Seq<u8>, b: Seq<u8>)
    ensures
        lower_hex(hex_text(a)),
        hex_text(a).len() == 2 * a.len(),
        hex_text(a) == hex_text(b) <==> a == b,
{
    if hex_text(a) == hex_text(b) {
        assert(hex_text(a).len() == hex_text(b).len());
        assert forall|i: int| 0 <= i < a.len() implies a[i] == b[i] by {
            assert(hex_text(a)[2 * i] == hex_text(b)[2 * i]);
            assert(hex_text(a)[2 * i + 1] == hex_text(b)[2 * i + 1]);
            hex_digits_differ(a[i] as int / 16, b[i] as int / 16);
            hex_digits_differ(a[i] as int % 16, b[i] as int % 16);
        }
        assert(a =~= b);
    }
}

/// Of two different texts exactly one comes before the other, and none before itself.
pub proof fn before_is_total(a: Seq<char>, b: Seq<char>)
    ensures
        !(before(a, b) && before(b, a)),
        a == b ==> !before(a, b),
        a != b ==> before(a, b) || before(b, a),
    decreases a.len(),
{
    if a.len() > 0 && b.len() > 0 {
        if a[0] == b[0] {
            before_is_total(a.drop_first(), b.drop_first());
            assert(a == b <==> a.drop_first() == b.drop_first()) by {
                if a.drop_first() == b.drop_first() {
                    assert(a =~= seq![a[0]] + a.drop_first());
                    assert(b =~= seq![b[0]] + b.drop_first());
                }
            }
        }
    } else if a != b {
        assert(a.len() == 0 && b.len() == 0 ==> a =~= b);
    }
}

/// What comes before a text comes before what that text comes before.
pub proof fn before_is_transitive(a: Seq<char>, b: Seq<char>, c: Seq<char>)
    requires
        before(a, b),
        before(b, c),
    ensures
        before(a, c),
    decreases a.len(),
{
    if a.len() > 0 && b.len() > 0 && c.len() > 0 && a[0] == b[0] && b[0] == c[0] {
        before_is_transitive(a.drop_first(), b.drop_first(), c.drop_first());
    }
}

/// The hexadecimal text of a digest is short, unpadded and free of control characters.
pub proof fn hex_text_is_bounded(bytes: Seq<u8>)
    requires
        0 < bytes.len() <= 32,
    ensures
        bounded(hex_text(bytes), 256),
{
    let text = hex_text(bytes);
    hex_text_is_faithful(bytes, bytes);
    byte_length_is_bounded(text);
    assert(lower_hex_letter(text[0]));
    assert(lower_hex_letter(text.last()));
    assert(forall|i: int| 0 <= i < text.len() ==> lower_hex_letter(#[trigger] text[i]));
}

/// A text takes at most four bytes for each of its characters.
pub proof fn byte_length_is_bounded(text: Seq<char>)
    ensures
        byte_length(text) <= 4 * text.len(),
    decreases text.len(),
{
    if text.len() > 0 {
        byte_length_is_bounded(text.drop_first());
    }
}

proof fn hex_digits_differ(i: int, j: int)
    requires
        0 <= i < 16,
        0 <= j < 16,
    ensures
        hex_digits()[i] == hex_digits()[j] ==> i == j,
{
}

// ---------------------------------------------------------------------------
// Integers as bytes
// ---------------------------------------------------------------------------

/// The eight bytes of the number, the most significant first.
pub open spec fn big_endian(number: u64) -> Seq<u8> {
    seq![
        (number / 0x1_00_00_00_00_00_00_00 % 256) as u8,
        (number / 0x1_00_00_00_00_00_00 % 256) as u8,
        (number / 0x1_00_00_00_00_00 % 256) as u8,
        (number / 0x1_00_00_00_00 % 256) as u8,
        (number / 0x1_00_00_00 % 256) as u8,
        (number / 0x1_00_00 % 256) as u8,
        (number / 0x1_00 % 256) as u8,
        (number % 256) as u8,
    ]
}

pub fn append_big_endian(target: &mut Vec<u8>, number: u64)
    ensures
        final(target)@ == old(target)@ + big_endian(number),
{
    target.push((number / 0x1_00_00_00_00_00_00_00 % 256) as u8);
    target.push((number / 0x1_00_00_00_00_00_00 % 256) as u8);
    target.push((number / 0x1_00_00_00_00_00 % 256) as u8);
    target.push((number / 0x1_00_00_00_00 % 256) as u8);
    target.push((number / 0x1_00_00_00 % 256) as u8);
    target.push((number / 0x1_00_00 % 256) as u8);
    target.push((number / 0x1_00 % 256) as u8);
    target.push((number % 256) as u8);
    assert(target@ =~= old(target)@ + big_endian(number));
}

/// The big-endian form tells numbers apart.
pub proof fn big_endian_is_faithful(a: u64, b: u64)
    ensures
        big_endian(a) == big_endian(b) <==> a == b,
        big_endian(a).len() == 8,
{
    if big_endian(a) == big_endian(b) {
        let (x, y) = (big_endian(a), big_endian(b));
        assert(x[0] == y[0] && x[1] == y[1] && x[2] == y[2] && x[3] == y[3]);
        assert(x[4] == y[4] && x[5] == y[5] && x[6] == y[6] && x[7] == y[7]);
        assert(a == b) by (bit_vector)
            requires
                a / 0x1_00_00_00_00_00_00_00u64 % 256u64 == b / 0x1_00_00_00_00_00_00_00u64 % 256u64,
                a / 0x1_00_00_00_00_00_00u64 % 256u64 == b / 0x1_00_00_00_00_00_00u64 % 256u64,
                a / 0x1_00_00_00_00_00u64 % 256u64 == b / 0x1_00_00_00_00_00u64 % 256u64,
                a / 0x1_00_00_00_00u64 % 256u64 == b / 0x1_00_00_00_00u64 % 256u64,
                a / 0x1_00_00_00u64 % 256u64 == b / 0x1_00_00_00u64 % 256u64,
                a / 0x1_00_00u64 % 256u64 == b / 0x1_00_00u64 % 256u64,
                a / 0x1_00u64 % 256u64 == b / 0x1_00u64 % 256u64,
                a % 256u64 == b % 256u64,
        ;
    }
}

}

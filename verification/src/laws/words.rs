//! The words in which the laws are stated, and what the shared rules on texts mean in
//! them.
use vstd::prelude::*;
use vstd::utf8::encode_utf8;
use crate::error::{first_among, first_of, none_among, reports, unless, CultNetError};
use crate::rules::{
    check_authority, check_bounded, check_identifier, check_optional_authority,
    check_optional_bounded, check_optional_identifier, check_optional_sha256, check_sha256,
};
use crate::text::{
    before, blank, bounded, control, has_control, hex_digits, hex_of_length, hex_text, identifier,
    opt, sha256_reference, split, starts_with, text_of_option, triple_before, views, white_space,
};

verus! {

// ---------------------------------------------------------------------------
// Outcomes
// ---------------------------------------------------------------------------

/// The operation was refused in these words.
pub open spec fn says<T>(outcome: Result<T, CultNetError>, words: Seq<char>) -> bool {
    outcome matches Err(error) && error.message@ == words
}

/// A reported outcome is a success where there is no reason, and otherwise a refusal in
/// the words of the reason.
pub broadcast proof fn a_report_is_success_or_the_reason<T>(
    outcome: Result<T, CultNetError>,
    reason: Option<Seq<char>>,
)
    ensures
        #[trigger] reports(outcome, reason) <==> match reason {
            None => outcome is Ok,
            Some(words) => says(outcome, words),
        },
{
}

/// Of two reasons the first one counts, and a rule that holds is no reason.
pub proof fn the_first_reason_counts(a: Option<Seq<char>>, b: Option<Seq<char>>, words: Seq<char>)
    ensures
        a is Some ==> first_of(a, b) == a,
        a is None ==> first_of(a, b) == b,
        unless(true, words) is None,
        unless(false, words) == Some(words),
{
}

/// Among several reasons the one at the first position that has one counts.
pub proof fn the_earliest_reason_counts(reasons: spec_fn(int) -> Option<Seq<char>>, end: nat, position: int)
    requires
        0 <= position < end,
        reasons(position) is Some,
        forall|i: int| 0 <= i < position ==> (#[trigger] reasons(i)) is None,
    ensures
        first_among(reasons, end) == reasons(position),
    decreases end,
{
    if position == end - 1 {
        none_among(reasons, (end - 1) as nat);
    } else {
        the_earliest_reason_counts(reasons, (end - 1) as nat, position);
    }
}

// ---------------------------------------------------------------------------
// Texts
// ---------------------------------------------------------------------------

/// Some text within the limit of bytes, with no white space at its ends and no control
/// character in it.
pub open spec fn tidy(text: Seq<char>, limit: int) -> bool {
    &&& text.len() > 0
    &&& encode_utf8(text).len() <= limit
    &&& !white_space(text[0])
    &&& !white_space(text[text.len() - 1])
    &&& forall|i: int| 0 <= i < text.len() ==> !control(#[trigger] text[i])
}

/// Some text of at most 256 bytes that is not all white space and holds no control
/// character.
pub open spec fn named(text: Seq<char>) -> bool {
    &&& exists|i: int| 0 <= i < text.len() && !white_space(#[trigger] text[i])
    &&& encode_utf8(text).len() <= 256
    &&& forall|i: int| 0 <= i < text.len() ==> !control(#[trigger] text[i])
}

/// A decimal digit or one of the letters from `a` to `f`.
pub open spec fn lower_hex_digit(letter: char) -> bool {
    ('0' <= letter && letter <= '9') || ('a' <= letter && letter <= 'f')
}

/// So many lower-case hexadecimal digits.
pub open spec fn lower_hex_digits(text: Seq<char>, count: int) -> bool {
    text.len() == count && forall|i: int| 0 <= i < text.len() ==> lower_hex_digit(#[trigger] text[i])
}

/// `sha256-` and 64 lower-case hexadecimal digits.
pub open spec fn digest_text(text: Seq<char>) -> bool {
    &&& text.len() == 71
    &&& text.subrange(0, 7) == "sha256-"@
    &&& lower_hex_digits(text.subrange(7, 71), 64)
}

/// The text is not there, or it is tidy.
pub open spec fn tidy_if_there(text: Option<String>, limit: int) -> bool {
    text matches Some(found) ==> tidy(found@, limit)
}

/// The text is not there, or it is named.
pub open spec fn named_if_there(text: Option<String>) -> bool {
    text matches Some(found) ==> named(found@)
}

/// The text is not there, or it is a digest.
pub open spec fn digest_if_there(text: Option<String>) -> bool {
    text matches Some(found) ==> digest_text(found@)
}

/// The text is there and reads so.
pub open spec fn reads(text: Option<String>, words: Seq<char>) -> bool {
    text matches Some(found) && found@ == words
}

/// The two optional texts hold the same.
pub open spec fn same_if_there(a: Option<String>, b: Option<String>) -> bool {
    match (a, b) {
        (Some(x), Some(y)) => x@ == y@,
        (None, None) => true,
        _ => false,
    }
}

/// A text is bounded exactly if it is tidy within the limit.
pub broadcast proof fn bounded_is_tidy(text: Seq<char>, limit: int)
    ensures
        #[trigger] bounded(text, limit) == tidy(text, limit),
{
    if text.len() > 0 && !has_control(text) {
        assert forall|i: int| 0 <= i < text.len() implies !control(#[trigger] text[i]) by {}
    }
}

/// A text is an identifier exactly if it is named.
pub broadcast proof fn identifiers_are_named(text: Seq<char>)
    ensures
        #[trigger] identifier(text) == named(text),
{
    if !blank(text) {
        let i = choose|i: int| 0 <= i < text.len() && !white_space(#[trigger] text[i]);
        assert(!white_space(text[i]));
    }
}

/// Hexadecimal texts of a length are so many digits.
pub broadcast proof fn hex_texts_are_digits(text: Seq<char>, length: int)
    ensures
        #[trigger] hex_of_length(text, length) == lower_hex_digits(text, length),
{
    if hex_of_length(text, length) {
        assert forall|i: int| 0 <= i < text.len() implies lower_hex_digit(#[trigger] text[i]) by {}
    }
    if lower_hex_digits(text, length) {
        assert forall|i: int| 0 <= i < text.len() implies crate::text::lower_hex_letter(#[trigger] text[i]) by {
            assert(lower_hex_digit(text[i]));
        }
    }
}

/// References to digests are `sha256-` and 64 digits.
pub broadcast proof fn references_are_digests(text: Seq<char>)
    ensures
        #[trigger] sha256_reference(text) == digest_text(text),
{
    reveal_strlit("sha256-");
    hex_texts_are_digits(text.skip(7), 64);
    assert(text.take(7) =~= text.subrange(0, 7));
    if text.len() == 71 {
        assert(text.skip(7) =~= text.subrange(7, 71));
    }
}

/// An optional text holds what is in it.
pub broadcast proof fn optional_texts_hold_their_text(text: Option<String>)
    ensures
        #[trigger] opt(text) == (match text {
            Some(found) => Some(found@),
            None => None,
        }),
{
}

/// A borrowed optional text holds what is in it.
pub broadcast proof fn borrowed_texts_hold_their_text(text: Option<&str>)
    ensures
        #[trigger] text_of_option(text) == (match text {
            Some(found) => Some(found@),
            None => None,
        }),
{
}

pub broadcast group text_rules {
    a_report_is_success_or_the_reason,
    bounded_is_tidy,
    identifiers_are_named,
    hex_texts_are_digits,
    references_are_digests,
}

/// The texts of a list are those of its strings, in their order.
pub proof fn lists_hold_their_texts(texts: Seq<String>)
    ensures
        views(texts).len() == texts.len(),
        forall|i: int| 0 <= i < texts.len() ==> views(texts)[i] == (#[trigger] texts[i])@,
{
}

/// The checks on single texts take exactly what their rules say, and refuse the rest in
/// words that start with the label.
pub proof fn text_checks_are_exact(
    text: &str,
    limit: usize,
    label: &str,
    authority: Result<(), CultNetError>,
    bound: Result<(), CultNetError>,
    name: Result<(), CultNetError>,
    digest: Result<(), CultNetError>,
)
    requires
        call_ensures(check_authority, (text, label), authority),
        call_ensures(check_bounded, (text, limit, label), bound),
        call_ensures(check_identifier, (text, label), name),
        call_ensures(check_sha256, (text, label), digest),
    ensures
        tidy(text@, 256) ==> authority is Ok,
        !tidy(text@, 256) ==> says(
            authority,
            label@ + " is empty, oversized, padded, or contains control characters"@,
        ),
        tidy(text@, limit as int) ==> bound is Ok,
        !tidy(text@, limit as int) ==> says(
            bound,
            label@ + " is empty, oversized, padded, or contains control characters"@,
        ),
        named(text@) ==> name is Ok,
        !named(text@) ==> says(name, label@ + " is empty, oversized, or contains control characters"@),
        digest_text(text@) ==> digest is Ok,
        !digest_text(text@) ==> says(digest, label@ + " is malformed"@),
{
    broadcast use text_rules;

}

/// The checks on optional texts take a text that is not there, and one that the check on
/// single texts takes.
pub proof fn optional_text_checks_are_exact(
    text: &Option<String>,
    limit: usize,
    label: &str,
    authority: Result<(), CultNetError>,
    bound: Result<(), CultNetError>,
    name: Result<(), CultNetError>,
    digest: Result<(), CultNetError>,
)
    requires
        call_ensures(check_optional_authority, (text, label), authority),
        call_ensures(check_optional_bounded, (text, limit, label), bound),
        call_ensures(check_optional_identifier, (text, label), name),
        call_ensures(check_optional_sha256, (text, label), digest),
    ensures
        tidy_if_there(*text, 256) <==> authority is Ok,
        tidy_if_there(*text, limit as int) <==> bound is Ok,
        named_if_there(*text) <==> name is Ok,
        digest_if_there(*text) <==> digest is Ok,
{
    broadcast use text_rules;

}

// ---------------------------------------------------------------------------
// Order
// ---------------------------------------------------------------------------

/// Where the texts first differ, the first one has the smaller character, or has ended.
pub open spec fn comes_first(a: Seq<char>, b: Seq<char>) -> bool {
    exists|k: int|
        {
            &&& 0 <= k <= a.len()
            &&& k < b.len()
            &&& #[trigger] a.take(k) == b.take(k)
            &&& k == a.len() || a[k] < b[k]
        }
}

/// One text comes before another exactly if it comes first at the first difference.
pub proof fn the_order_is_that_of_the_first_difference(a: Seq<char>, b: Seq<char>)
    ensures
        before(a, b) <==> comes_first(a, b),
    decreases a.len(),
{
    if b.len() > 0 && a.len() > 0 {
        if a[0] == b[0] {
            let (x, y) = (a.drop_first(), b.drop_first());
            the_order_is_that_of_the_first_difference(x, y);
            if comes_first(x, y) {
                let k = choose|k: int|
                    {
                        &&& 0 <= k <= x.len()
                        &&& k < y.len()
                        &&& #[trigger] x.take(k) == y.take(k)
                        &&& k == x.len() || x[k] < y[k]
                    };
                assert(a.take(k + 1) =~= seq![a[0]] + x.take(k));
                assert(b.take(k + 1) =~= seq![b[0]] + y.take(k));
                assert(comes_first(a, b));
            }
            if comes_first(a, b) {
                let k = choose|k: int|
                    {
                        &&& 0 <= k <= a.len()
                        &&& k < b.len()
                        &&& #[trigger] a.take(k) == b.take(k)
                        &&& k == a.len() || a[k] < b[k]
                    };
                assert(k > 0);
                assert(x.take(k - 1) =~= a.take(k).skip(1));
                assert(y.take(k - 1) =~= b.take(k).skip(1));
                assert(comes_first(x, y));
            }
        } else {
            if a[0] < b[0] {
                assert(a.take(0) =~= b.take(0));
            }
            if comes_first(a, b) {
                let k = choose|k: int|
                    {
                        &&& 0 <= k <= a.len()
                        &&& k < b.len()
                        &&& #[trigger] a.take(k) == b.take(k)
                        &&& k == a.len() || a[k] < b[k]
                    };
                if k > 0 {
                    assert(a.take(k)[0] == b.take(k)[0]);
                }
            }
        }
    } else if b.len() > 0 {
        assert(a.take(0) =~= b.take(0));
    }
}

/// Triples are ordered by their first texts, then by their second, then by their third.
pub proof fn triples_are_ordered_text_by_text(
    a: (Seq<char>, Seq<char>, Seq<char>),
    b: (Seq<char>, Seq<char>, Seq<char>),
)
    ensures
        triple_before(a, b) <==> {
            ||| before(a.0, b.0)
            ||| a.0 == b.0 && before(a.1, b.1)
            ||| a.0 == b.0 && a.1 == b.1 && before(a.2, b.2)
        },
{
    crate::text::before_is_total(a.0, b.0);
    crate::text::before_is_total(a.1, b.1);
    crate::text::before_is_total(a.2, b.2);
}

/// One triple of texts comes strictly before the other, first text first.
pub open spec fn in_turn(
    a: Seq<char>,
    b: Seq<char>,
    c: Seq<char>,
    x: Seq<char>,
    y: Seq<char>,
    z: Seq<char>,
) -> bool {
    ||| before(a, x)
    ||| a == x && before(b, y)
    ||| a == x && b == y && before(c, z)
}

/// Where all reasons are the same, that one counts.
pub proof fn the_only_reason_counts(reasons: spec_fn(int) -> Option<Seq<char>>, end: nat, words: Seq<char>)
    requires
        first_among(reasons, end) is Some,
        forall|i: int| 0 <= i < end ==> (#[trigger] reasons(i)) is None || reasons(i) == Some(words),
    ensures
        first_among(reasons, end) == Some(words),
    decreases end,
{
    if end > 0 {
        if first_among(reasons, (end - 1) as nat) is Some {
            the_only_reason_counts(reasons, (end - 1) as nat, words);
        } else {
            assert(reasons(end - 1) is Some);
        }
    }
}

/// The text begins with the prefix, character by character.
pub open spec fn leads(text: Seq<char>, prefix: Seq<char>) -> bool {
    prefix.len() <= text.len() && forall|i: int| 0 <= i < prefix.len() ==> #[trigger] text[i] == prefix[i]
}

pub proof fn prefixes_lead(text: Seq<char>, prefix: Seq<char>)
    ensures
        starts_with(text, prefix) == leads(text, prefix),
{
    if starts_with(text, prefix) {
        assert forall|i: int| 0 <= i < prefix.len() implies #[trigger] text[i] == prefix[i] by {
            assert(text.take(prefix.len() as int)[i] == prefix[i]);
        }
    }
    if leads(text, prefix) {
        assert(text.take(prefix.len() as int) =~= prefix);
    }
}

/// No control character is in the text exactly if none of its characters is one.
pub proof fn no_control_is_plain(text: Seq<char>)
    ensures
        !has_control(text) <==> forall|i: int| 0 <= i < text.len() ==> !control(#[trigger] text[i]),
{
}

/// The digit that stands for a value below sixteen.
pub open spec fn hex_digit_of(value: int) -> char {
    if value < 10 {
        (48 + value) as u8 as char
    } else {
        (97 + value - 10) as u8 as char
    }
}

/// Two digits for each byte, the one for its upper half first.
pub open spec fn hex_digits_of(bytes: Seq<u8>) -> Seq<char> {
    Seq::new(
        bytes.len() * 2,
        |i: int| hex_digit_of(if i % 2 == 0 { bytes[i / 2] as int / 16 } else { bytes[i / 2] as int % 16 }),
    )
}

proof fn digits_are_in_order(value: int)
    requires
        0 <= value < 16,
    ensures
        hex_digits()[value] == hex_digit_of(value),
{
}

/// The hexadecimal text of bytes has two digits for each.
pub proof fn hex_texts_are_plain(bytes: Seq<u8>)
    ensures
        hex_text(bytes) == hex_digits_of(bytes),
{
    let (a, b) = (hex_text(bytes), hex_digits_of(bytes));
    assert forall|i: int| 0 <= i < a.len() implies a[i] == b[i] by {
        digits_are_in_order(bytes[i / 2] as int / 16);
        digits_are_in_order(bytes[i / 2] as int % 16);
    }
    assert(a =~= b);
}

// ---------------------------------------------------------------------------
// Pieces
// ---------------------------------------------------------------------------

/// The pieces with the separator between them.
pub open spec fn rejoined(pieces: Seq<Seq<char>>, separator: char) -> Seq<char>
    decreases pieces.len(),
{
    if pieces.len() == 0 {
        Seq::empty()
    } else if pieces.len() == 1 {
        pieces[0]
    } else {
        pieces[0] + seq![separator] + rejoined(pieces.drop_first(), separator)
    }
}

proof fn a_piece_is_split_off(piece: Seq<char>, rest: Seq<char>, separator: char)
    requires
        !piece.contains(separator),
    ensures
        split(piece + seq![separator] + rest, separator) == seq![piece] + split(rest, separator),
        split(piece, separator) == seq![piece],
    decreases piece.len(),
{
    let text = piece + seq![separator] + rest;
    if piece.len() == 0 {
        assert(text[0] == separator);
        assert(text.drop_first() =~= rest);
        assert(piece =~= Seq::empty());
    } else {
        let shorter = piece.drop_first();
        assert(!shorter.contains(separator)) by {
            if shorter.contains(separator) {
                let k = choose|k: int| 0 <= k < shorter.len() && shorter[k] == separator;
                assert(piece[k + 1] == separator);
            }
        }
        a_piece_is_split_off(shorter, rest, separator);
        assert(text[0] == piece[0]);
        assert(piece.contains(piece[0]));
        assert(text.drop_first() =~= shorter + seq![separator] + rest);
        assert(seq![piece[0]] + shorter =~= piece);
        let whole = seq![shorter] + split(rest, separator);
        assert(whole.update(0, piece) =~= seq![piece] + split(rest, separator));
        assert(seq![shorter].update(0, piece) =~= seq![piece]);
    }
}

/// A text is split into the one list of pieces without the separator that, with the
/// separator between them, give the text.
pub proof fn splitting_is_undone_by_joining(text: Seq<char>, pieces: Seq<Seq<char>>, separator: char)
    ensures
        split(text, separator) == pieces <==> {
            &&& pieces.len() > 0
            &&& forall|i: int| 0 <= i < pieces.len() ==> !(#[trigger] pieces[i]).contains(separator)
            &&& rejoined(pieces, separator) == text
        },
{
    split_pieces_join(text, separator);
    if pieces.len() > 0 && (forall|i: int| 0 <= i < pieces.len() ==> !(#[trigger] pieces[i]).contains(separator))
        && rejoined(pieces, separator) == text {
        joined_pieces_split(pieces, separator);
    }
}

proof fn joined_pieces_split(pieces: Seq<Seq<char>>, separator: char)
    requires
        pieces.len() > 0,
        forall|i: int| 0 <= i < pieces.len() ==> !(#[trigger] pieces[i]).contains(separator),
    ensures
        split(rejoined(pieces, separator), separator) == pieces,
    decreases pieces.len(),
{
    if pieces.len() == 1 {
        a_piece_is_split_off(pieces[0], Seq::empty(), separator);
        assert(pieces =~= seq![pieces[0]]);
    } else {
        let rest = pieces.drop_first();
        assert forall|i: int| 0 <= i < rest.len() implies !(#[trigger] rest[i]).contains(separator) by {
            assert(!pieces[i + 1].contains(separator));
        }
        joined_pieces_split(rest, separator);
        a_piece_is_split_off(pieces[0], rejoined(rest, separator), separator);
        assert(pieces =~= seq![pieces[0]] + rest);
    }
}

proof fn split_pieces_join(text: Seq<char>, separator: char)
    ensures
        split(text, separator).len() > 0,
        forall|i: int| 0 <= i < split(text, separator).len() ==> !(#[trigger] split(text, separator)[i]).contains(separator),
        rejoined(split(text, separator), separator) == text,
    decreases text.len(),
{
    let pieces = split(text, separator);
    if text.len() == 0 {
        assert(pieces[0] =~= text);
    } else {
        let rest = split(text.drop_first(), separator);
        split_pieces_join(text.drop_first(), separator);
        if text[0] == separator {
            assert(pieces.drop_first() =~= rest);
            assert(pieces[0] + seq![separator] + rejoined(rest, separator) =~= text);
            assert forall|i: int| 0 <= i < pieces.len() implies !(#[trigger] pieces[i]).contains(separator) by {
                if i > 0 {
                    assert(!rest[i - 1].contains(separator));
                }
            }
        } else {
            let first = seq![text[0]] + rest[0];
            assert(pieces.drop_first() =~= rest.drop_first());
            assert forall|i: int| 0 <= i < pieces.len() implies !(#[trigger] pieces[i]).contains(separator) by {
                assert(!rest[i].contains(separator));
                if i == 0 && first.contains(separator) {
                    let k = choose|k: int| 0 <= k < first.len() && first[k] == separator;
                    assert(rest[0][k - 1] == separator);
                }
            }
            if rest.len() == 1 {
                assert(first =~= text);
            } else {
                assert(first + seq![separator] + rejoined(rest.drop_first(), separator) =~= seq![text[0]] + (rest[0]
                    + seq![separator] + rejoined(rest.drop_first(), separator)));
                assert(seq![text[0]] + text.drop_first() =~= text);
            }
        }
    }
}

}

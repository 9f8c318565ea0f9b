//! Keys, encryption and session tokens, and the numbers in them.
use vstd::prelude::*;
use vstd::utf8::{decode_utf8, encode_utf8, valid_utf8};
use super::snapshots::{filled, filled_is_not_blank};
use super::words::says;
use crate::error::CultNetError;
use crate::number::{decimal, decimal_digits, digits_value, integer, parsed, zero_padded};
use crate::primitives::{aes_gcm_opened, aes_gcm_sealed, base64_text, hmac_code, sha256_digest};
use crate::security::{
    a_created_token_validates_until_it_expires, base64_bytes, base64_bytes_encode,
    base64_is_read_back, first_position, split_once, CultNetClientSecurityOptions,
    CultNetEncryptionOptions, CultNetSecret, CultNetServerSecurityOptions,
    ValidatedCultNetSessionToken,
};

verus! {

// ---------------------------------------------------------------------------
// Numbers
// ---------------------------------------------------------------------------

/// What a text of digits stands for, the last digit counting one.
pub open spec fn value_in_digits(text: Seq<char>) -> int
    decreases text.len(),
{
    if text.len() == 0 {
        0
    } else {
        value_in_digits(text.drop_last()) * 10 + (text.last() as int - 48)
    }
}

/// The text is digits alone.
pub open spec fn digits_only(text: Seq<char>) -> bool {
    forall|i: int| 0 <= i < text.len() ==> '0' <= #[trigger] text[i] && text[i] <= '9'
}

proof fn a_digit_stands_for_its_value(value: int)
    requires
        0 <= value < 10,
    ensures
        decimal_digits()[value] as int == 48 + value,
        '0' <= decimal_digits()[value] && decimal_digits()[value] <= '9',
{
    let digits = decimal_digits();
    assert(digits[0] == '0' && digits[1] == '1' && digits[2] == '2' && digits[3] == '3' && digits[4] == '4');
    assert(digits[5] == '5' && digits[6] == '6' && digits[7] == '7' && digits[8] == '8' && digits[9] == '9');
}

/// A number is written in digits that stand for it, without leading zeros.
pub proof fn a_number_is_written_in_its_digits(number: nat)
    ensures
        decimal(number).len() > 0,
        digits_only(decimal(number)),
        value_in_digits(decimal(number)) == number,
        decimal(number)[0] == '0' <==> number == 0,
        number == 0 ==> decimal(number).len() == 1,
    decreases number,
{
    let text = decimal(number);
    a_digit_stands_for_its_value((number % 10) as int);
    if number < 10 {
        a_digit_stands_for_its_value(number as int);
        assert(text.drop_last() =~= Seq::empty());
        assert(value_in_digits(text.drop_last()) == 0);
    } else {
        a_number_is_written_in_its_digits(number / 10);
        assert(text.drop_last() =~= decimal(number / 10));
        assert forall|i: int| 0 <= i < text.len() implies '0' <= #[trigger] text[i] && text[i] <= '9' by {
            if i < text.len() - 1 {
                assert(text[i] == decimal(number / 10)[i]);
            }
        }
    }
}

/// An integer is written as its size in digits, behind a minus sign if it is below zero; a
/// padded number has zeros before it up to the width.
pub proof fn signs_and_padding_stand_in_front(number: int, padded: nat, width: nat)
    ensures
        number >= 0 ==> integer(number) == decimal(number as nat),
        number < 0 ==> integer(number) == "-"@ + decimal((-number) as nat),
        decimal(padded).len() >= width ==> zero_padded(padded, width) == decimal(padded),
        decimal(padded).len() < width ==> {
            &&& zero_padded(padded, width).len() == width
            &&& zero_padded(padded, width).skip(width - decimal(padded).len()) == decimal(padded)
            &&& forall|i: int|
                0 <= i < width - decimal(padded).len() ==> #[trigger] zero_padded(padded, width)[i] == '0'
        },
{
    reveal_strlit("-");
    assert("-"@ =~= seq!['-']);
    if decimal(padded).len() < width {
        assert(zero_padded(padded, width).skip(width - decimal(padded).len()) =~= decimal(padded));
    }
}

/// The text is digits, with a sign before them or not, that stand for the number.
pub open spec fn reads_as(text: Seq<char>, number: int) -> bool {
    ||| text.len() > 0 && digits_only(text) && number == value_in_digits(text)
    ||| text.len() > 1 && text[0] == '+' && digits_only(text.drop_first()) && number == value_in_digits(
        text.drop_first(),
    )
    ||| text.len() > 1 && text[0] == '-' && digits_only(text.drop_first()) && number == -value_in_digits(
        text.drop_first(),
    )
}

proof fn the_values_are_the_same(text: Seq<char>)
    requires
        digits_only(text),
    ensures
        digits_value(text) == value_in_digits(text),
    decreases text.len(),
{
    if text.len() > 0 {
        assert forall|i: int| 0 <= i < text.drop_last().len() implies '0' <= #[trigger] text.drop_last()[i]
            && text.drop_last()[i] <= '9' by {
            assert(text.drop_last()[i] == text[i]);
        }
        the_values_are_the_same(text.drop_last());
        assert('0' <= text[text.len() - 1] && text[text.len() - 1] <= '9');
    }
}

/// A text is read exactly if it reads as an integer of 64 bits, which is what is read.
pub proof fn an_integer_is_read_exactly(text: Seq<char>, number: int)
    ensures
        parsed(text) == Some(number) <==> reads_as(text, number) && -9223372036854775808 <= number
            <= 9223372036854775807,
{
    let signed = text.len() > 0 && (text[0] == '+' || text[0] == '-');
    let digits = if signed {
        text.drop_first()
    } else {
        text
    };
    assert(crate::number::all_digits(digits) == digits_only(digits)) by {
        if digits_only(digits) {
            assert forall|i: int| 0 <= i < digits.len() implies crate::number::is_digit(#[trigger] digits[i]) by {}
        }
        if crate::number::all_digits(digits) {
            assert forall|i: int| 0 <= i < digits.len() implies '0' <= #[trigger] digits[i] && digits[i] <= '9' by {
                assert(crate::number::is_digit(digits[i]));
            }
        }
    }
    if digits_only(digits) {
        the_values_are_the_same(digits);
    }
    if signed {
        assert(!digits_only(text)) by {
            if digits_only(text) {
                assert('0' <= text[0] && text[0] <= '9');
            }
        }
    }
}

// ---------------------------------------------------------------------------
// Keys
// ---------------------------------------------------------------------------

/// A client's key is the digest of its text, which must be more than white space.
pub proof fn a_client_key_is_the_digest_of_its_text(
    connection_key: &str,
    outcome: Result<CultNetClientSecurityOptions, CultNetError>,
    development: CultNetClientSecurityOptions,
)
    requires
        call_ensures(CultNetClientSecurityOptions::new, (connection_key,), outcome),
        call_ensures(CultNetClientSecurityOptions::development, (), development),
    ensures
        outcome is Ok <==> filled(connection_key@),
        outcome is Err ==> says(outcome, "Connection key must be provided"@),
        outcome matches Ok(options) ==> options.shared_text() == connection_key@ && options.derived_key()
            == sha256_digest(encode_utf8(connection_key@)),
        development.shared_text() == "gamecult-dev-connection-key"@,
        development.derived_key() == sha256_digest(encode_utf8("gamecult-dev-connection-key"@)),
{
    filled_is_not_blank(connection_key@);
}

/// A server's two keys are the digests of their texts, both of which must be more than white
/// space; its clients get the one of the connection.
pub proof fn a_server_has_the_digests_of_both_texts(
    connection_key: &str,
    secret: &str,
    for_development: bool,
    outcome: Result<CultNetServerSecurityOptions, CultNetError>,
    development: CultNetServerSecurityOptions,
    client: CultNetClientSecurityOptions,
)
    requires
        call_ensures(CultNetServerSecurityOptions::new, (connection_key, secret, for_development), outcome),
        call_ensures(CultNetServerSecurityOptions::development, (), development),
        outcome matches Ok(options) ==> call_ensures(
            CultNetServerSecurityOptions::to_client_options,
            (&options,),
            client,
        ),
    ensures
        outcome is Ok <==> filled(secret@) && filled(connection_key@),
        !filled(secret@) ==> says(outcome, "Session signing secret must be provided"@),
        filled(secret@) && !filled(connection_key@) ==> says(outcome, "Connection key must be provided"@),
        outcome matches Ok(options) ==> {
            &&& options.cipher_key() == sha256_digest(encode_utf8(connection_key@))
            &&& options.signing_key() == sha256_digest(encode_utf8(secret@))
            &&& options.signing_text() == secret@
            &&& options.for_development() == for_development
            &&& client.shared_text() == connection_key@
            &&& client.cipher_key() == sha256_digest(encode_utf8(connection_key@))
        },
        development.cipher_key() == sha256_digest(encode_utf8("gamecult-dev-connection-key"@)),
        development.signing_key() == sha256_digest(encode_utf8("gamecult-dev-session-signing-secret"@)),
        development.for_development(),
{
    filled_is_not_blank(connection_key@);
    filled_is_not_blank(secret@);
}

// ---------------------------------------------------------------------------
// Encryption
// ---------------------------------------------------------------------------

/// What is encrypted with a nonce of twelve bytes is decrypted with the same key and nonce,
/// and with no nonce of another length.
pub proof fn decryption_undoes_encryption<O: CultNetEncryptionOptions>(
    input: &[u8],
    nonce: &[u8],
    options: &O,
    other: &O,
    encrypted: Result<Vec<u8>, CultNetError>,
    sealed: &[u8],
    decrypted: Result<Vec<u8>, CultNetError>,
)
    requires
        call_ensures(CultNetSecret::encrypt_bytes::<O>, (input, nonce, options), encrypted),
        call_ensures(CultNetSecret::decrypt_bytes::<O>, (sealed, nonce, other), decrypted),
        options.cipher_key() == other.cipher_key(),
    ensures
        encrypted is Ok <==> nonce@.len() == 12 && input@.len() <= 68719476736,
        nonce@.len() != 12 ==> says(encrypted, "Invalid nonce"@) && says(decrypted, "Invalid nonce"@),
        nonce@.len() == 12 && input@.len() > 68719476736 ==> says(encrypted, "AES-GCM encryption failed"@),
        encrypted matches Ok(bytes) ==> {
            &&& bytes@ == aes_gcm_sealed(options.cipher_key(), nonce@, input@)
            &&& bytes@.len() == input@.len() + 16
            &&& sealed@ == bytes@ ==> (decrypted matches Ok(found) && found@ == input@)
        },
        nonce@.len() == 12 && aes_gcm_opened(other.cipher_key(), nonce@, sealed@) is None ==> says(
            decrypted,
            "AES-GCM decryption failed"@,
        ),
        decrypted matches Ok(found) ==> aes_gcm_opened(other.cipher_key(), nonce@, sealed@) == Some(found@),
{
}

/// A text is encrypted as its UTF-8 bytes and decrypted to the same text; no text and an
/// empty text give nothing.
pub proof fn decrypting_a_text_undoes_encrypting_it<O: CultNetEncryptionOptions>(
    input: Option<&str>,
    nonce: &[u8],
    options: &O,
    encrypted: Result<Option<Vec<u8>>, CultNetError>,
    sealed: Option<&[u8]>,
    decrypted: Result<Option<String>, CultNetError>,
)
    requires
        call_ensures(CultNetSecret::encrypt_string::<O>, (input, nonce, options), encrypted),
        call_ensures(CultNetSecret::decrypt_string::<O>, (sealed, Some(nonce), options), decrypted),
    ensures
        input is None ==> encrypted == Ok::<Option<Vec<u8>>, CultNetError>(None),
        input matches Some(text) ==> {
            &&& text@.len() == 0 ==> encrypted == Ok::<Option<Vec<u8>>, CultNetError>(None)
            &&& text@.len() > 0 ==> (encrypted is Ok <==> nonce@.len() == 12 && encode_utf8(text@).len() <= 68719476736)
            &&& text@.len() > 0 && encrypted is Ok ==> encrypted->Ok_0 is Some && encrypted->Ok_0->0@
                == aes_gcm_sealed(options.cipher_key(), nonce@, encode_utf8(text@))
            &&& text@.len() > 0 && encrypted is Ok && sealed is Some && sealed->0@ == encrypted->Ok_0->0@ ==> (
            decrypted matches Ok(Some(found)) && found@ == text@)
        },
        sealed is None ==> decrypted == Ok::<Option<String>, CultNetError>(None),
        sealed is Some && nonce@.len() != 12 ==> says(decrypted, "Invalid nonce"@),
{
    if let Some(text) = input {
        if text@.len() > 0 && encrypted is Ok && sealed is Some && sealed->0@ == encrypted->Ok_0->0@ {
            assert(sealed->0@ == aes_gcm_sealed(options.cipher_key(), nonce@, encode_utf8(text@)));
        }
    }
}

/// What is written in base64url is read back, and only what was so written is read.
pub proof fn base64url_is_read_back(
    input: &[u8],
    text: String,
    read: &str,
    outcome: Result<Vec<u8>, CultNetError>,
)
    requires
        call_ensures(CultNetSecret::to_base64_url, (input,), text),
        call_ensures(CultNetSecret::from_base64_url, (read,), outcome),
    ensures
        text@ == base64_text(input@),
        read@ == text@ ==> (outcome matches Ok(bytes) && bytes@ == input@),
        outcome matches Ok(bytes) ==> base64_text(bytes@) == read@,
        outcome is Err ==> says(outcome, "text is not base64url"@) && forall|bytes: Seq<u8>|
            #[trigger] base64_text(bytes) != read@,
{
    base64_is_read_back(input@);
    if outcome is Err {
        assert forall|bytes: Seq<u8>| #[trigger] base64_text(bytes) != read@ by {
            base64_is_read_back(bytes);
        }
    }
}

// ---------------------------------------------------------------------------
// Sessions
// ---------------------------------------------------------------------------

/// The letter is nowhere in the text.
pub open spec fn is_free_of(text: Seq<char>, letter: char) -> bool {
    forall|i: int| 0 <= i < text.len() ==> #[trigger] text[i] != letter
}

proof fn the_first_position_is_the_first(text: Seq<char>, letter: char)
    ensures
        first_position(text, letter) is None <==> is_free_of(text, letter),
        first_position(text, letter) matches Some(position) ==> position < text.len() && text[position as int] == letter
            && is_free_of(text.take(position as int), letter),
    decreases text.len(),
{
    if text.len() > 0 && text[0] != letter {
        let rest = text.drop_first();
        the_first_position_is_the_first(rest, letter);
        if is_free_of(rest, letter) {
            assert forall|i: int| 0 <= i < text.len() implies #[trigger] text[i] != letter by {
                if i > 0 {
                    assert(rest[i - 1] != letter);
                }
            }
        }
        if is_free_of(text, letter) {
            assert forall|i: int| 0 <= i < rest.len() implies #[trigger] rest[i] != letter by {
                assert(text[i + 1] != letter);
            }
        }
        if let Some(position) = first_position(rest, letter) {
            let head = text.take((position + 1) as int);
            assert(text[(position + 1) as int] == rest[position as int]);
            assert forall|i: int| 0 <= i < head.len() implies #[trigger] head[i] != letter by {
                if i > 0 {
                    assert(head[i] == rest.take(position as int)[i - 1]);
                }
            }
        }
    }
}

/// A text comes apart at the first occurrence of the letter, which is in neither the part
/// before it nor missing from the whole.
pub proof fn a_text_comes_apart_at_the_first_letter(text: Seq<char>, letter: char)
    ensures
        split_once(text, letter) is None <==> is_free_of(text, letter),
        split_once(text, letter) matches Some((head, tail)) ==> is_free_of(head, letter) && text == head + seq![letter]
            + tail,
{
    the_first_position_is_the_first(text, letter);
    if let Some((head, tail)) = split_once(text, letter) {
        assert(text =~= head + seq![letter] + tail);
    }
}

/// The token is for the user until the second: it is the payload and its code under the key,
/// and the payload is the user and the second.
pub open spec fn vouches_for(token: Seq<char>, key: Seq<u8>, user_id: Seq<char>, expires_at: int) -> bool {
    exists|payload: Seq<u8>, expiry: Seq<char>|
        {
            &&& token == base64_text(payload) + "."@ + #[trigger] base64_text(hmac_code(key, payload))
            &&& valid_utf8(payload)
            &&& decode_utf8(payload) == user_id + "|"@ + expiry
            &&& is_free_of(user_id, '|')
            &&& #[trigger] reads_as(expiry, expires_at)
        }
}

/// A session comes only of a token that vouches for it and has not expired; no token and one
/// of white space give none.
pub proof fn a_session_comes_of_a_token_that_vouches_for_it(
    token: Option<&str>,
    options: &CultNetServerSecurityOptions,
    now: i64,
    outcome: Result<Option<ValidatedCultNetSessionToken>, CultNetError>,
)
    requires
        call_ensures(CultNetSecret::validate_session_token_at, (token, options, now), outcome),
    ensures
        token is None ==> outcome == Ok::<Option<ValidatedCultNetSessionToken>, CultNetError>(None),
        token matches Some(text) ==> !filled(text@) ==> outcome == Ok::<
            Option<ValidatedCultNetSessionToken>,
            CultNetError,
        >(None),
        outcome matches Ok(Some(session)) ==> {
            &&& token matches Some(text) && vouches_for(
                text@,
                options.signing_key(),
                session.user_id@,
                session.expires_at_utc as int,
            )
            &&& now < session.expires_at_utc
            &&& -8334601228800 <= session.expires_at_utc <= 8210266876799
        },
{
    if let Some(text) = token {
        filled_is_not_blank(text@);
        if let Ok(Some(session)) = outcome {
            a_text_comes_apart_at_the_first_letter(text@, '.');
            let (payload_part, signature_part) = split_once(text@, '.')->0;
            base64_bytes_encode(payload_part);
            base64_bytes_encode(signature_part);
            let payload = base64_bytes(payload_part)->0;
            let words = decode_utf8(payload);
            a_text_comes_apart_at_the_first_letter(words, '|');
            let (user_id, expiry) = split_once(words, '|')->0;
            an_integer_is_read_exactly(expiry, session.expires_at_utc as int);
            reveal_strlit(".");
            reveal_strlit("|");
            assert("."@ =~= seq!['.']);
            assert("|"@ =~= seq!['|']);
            assert(text@ == base64_text(payload) + "."@ + base64_text(hmac_code(options.signing_key(), payload)));
            assert(reads_as(expiry, session.expires_at_utc as int));
        }
    }
}

/// A token that was made for a user without the separator is that user's session until it
/// expires, and none afterwards.
pub proof fn a_made_token_is_the_session_until_it_expires(
    user_id: &str,
    expires_at: i64,
    options: &CultNetServerSecurityOptions,
    made: Result<String, CultNetError>,
    token: &str,
    now: i64,
    outcome: Result<Option<ValidatedCultNetSessionToken>, CultNetError>,
)
    requires
        call_ensures(CultNetSecret::create_session_token, (user_id, expires_at, options), made),
        made matches Ok(text) && text@ == token@,
        call_ensures(CultNetSecret::validate_session_token_at, (Some(token), options, now), outcome),
        is_free_of(user_id@, '|'),
        -8334601228800 <= expires_at <= 8210266876799,
    ensures
        token@ == base64_text(encode_utf8(user_id@ + "|"@ + integer(expires_at as int))) + "."@ + base64_text(
            hmac_code(options.signing_key(), encode_utf8(user_id@ + "|"@ + integer(expires_at as int))),
        ),
        now < expires_at ==> (outcome matches Ok(Some(session)) && session.user_id@ == user_id@
            && session.expires_at_utc == expires_at),
        now >= expires_at ==> outcome == Ok::<Option<ValidatedCultNetSessionToken>, CultNetError>(None),
{
    a_created_token_validates_until_it_expires(user_id@, expires_at, options.signing_key(), now);
}

/// A token is two parts of base64url around the first dot, of which the second is the code of
/// the first. One without a dot, or with another code, is no session; one with a part that is
/// no base64url is refused.
pub proof fn a_token_is_a_payload_and_its_code(
    text: &str,
    options: &CultNetServerSecurityOptions,
    now: i64,
    head: Seq<char>,
    tail: Seq<char>,
    payload: Seq<u8>,
    code: Seq<u8>,
    outcome: Result<Option<ValidatedCultNetSessionToken>, CultNetError>,
)
    requires
        call_ensures(CultNetSecret::validate_session_token_at, (Some(text), options, now), outcome),
        filled(text@),
    ensures
        is_free_of(text@, '.') ==> outcome == Ok::<Option<ValidatedCultNetSessionToken>, CultNetError>(None),
        is_free_of(head, '.') && text@ == head + seq!['.'] + tail ==> {
            &&& (forall|bytes: Seq<u8>| #[trigger] base64_text(bytes) != head) ==> says(
                outcome,
                "session token payload is not base64url"@,
            )
            &&& base64_text(payload) == head && (forall|bytes: Seq<u8>| #[trigger] base64_text(bytes) != tail) ==> says(
                outcome,
                "session token signature is not base64url"@,
            )
            &&& base64_text(payload) == head && base64_text(code) == tail && code != hmac_code(
                options.signing_key(),
                payload,
            ) ==> outcome == Ok::<Option<ValidatedCultNetSessionToken>, CultNetError>(None)
        },
{
    filled_is_not_blank(text@);
    a_text_comes_apart_at_the_first_letter(text@, '.');
    if is_free_of(head, '.') && text@ == head + seq!['.'] + tail {
        the_parts_are_these(text@, '.', head, tail);
        base64_bytes_encode(head);
        base64_bytes_encode(tail);
        base64_is_read_back(payload);
        base64_is_read_back(code);
    }
}

proof fn the_parts_are_these(text: Seq<char>, letter: char, head: Seq<char>, tail: Seq<char>)
    requires
        is_free_of(head, letter),
        text == head + seq![letter] + tail,
    ensures
        split_once(text, letter) == Some((head, tail)),
{
    the_first_position_is_the_first(text, letter);
    assert(text[head.len() as int] == letter);
    let position = first_position(text, letter)->0;
    if position < head.len() {
        assert(text[position as int] == head[position as int]);
    } else if position > head.len() {
        assert(text.take(position as int)[head.len() as int] == letter);
    }
    assert(text.take(head.len() as int) =~= head);
    assert(text.skip(head.len() as int + 1) =~= tail);
}

/// What a genuine payload says is a user and a second around the first bar. One that is no
/// text, or whose second is no integer, is refused; one without a bar is no session; and one
/// is a session exactly if its second is an instant that has not come.
pub proof fn a_genuine_payload_is_a_user_and_a_second(
    text: &str,
    options: &CultNetServerSecurityOptions,
    now: i64,
    payload: Seq<u8>,
    user_id: Seq<char>,
    expiry: Seq<char>,
    seconds: int,
    outcome: Result<Option<ValidatedCultNetSessionToken>, CultNetError>,
)
    requires
        call_ensures(CultNetSecret::validate_session_token_at, (Some(text), options, now), outcome),
        filled(text@),
        is_free_of(base64_text(payload), '.'),
        text@ == base64_text(payload) + seq!['.'] + base64_text(hmac_code(options.signing_key(), payload)),
    ensures
        !valid_utf8(payload) ==> says(outcome, "session token payload is not UTF-8"@),
        valid_utf8(payload) && is_free_of(decode_utf8(payload), '|') ==> outcome == Ok::<
            Option<ValidatedCultNetSessionToken>,
            CultNetError,
        >(None),
        valid_utf8(payload) && is_free_of(user_id, '|') && decode_utf8(payload) == user_id + seq!['|'] + expiry ==> {
            let integer_of_64_bits = reads_as(expiry, seconds) && -9223372036854775808 <= seconds <= 9223372036854775807;
            &&& parsed(expiry) is None ==> says(outcome, "session token expiry is not an integer"@)
            &&& integer_of_64_bits && now < seconds && -8334601228800 <= seconds <= 8210266876799 ==> (outcome matches Ok(
                Some(session),
            ) && session.user_id@ == user_id && session.expires_at_utc == seconds)
            &&& integer_of_64_bits && !(now < seconds && -8334601228800 <= seconds <= 8210266876799) ==> outcome == Ok::<
                Option<ValidatedCultNetSessionToken>,
                CultNetError,
            >(None)
        },
{
    let code = hmac_code(options.signing_key(), payload);
    filled_is_not_blank(text@);
    the_parts_are_these(text@, '.', base64_text(payload), base64_text(code));
    base64_is_read_back(payload);
    base64_is_read_back(code);
    a_text_comes_apart_at_the_first_letter(decode_utf8(payload), '|');
    if is_free_of(user_id, '|') && decode_utf8(payload) == user_id + seq!['|'] + expiry {
        the_parts_are_these(decode_utf8(payload), '|', user_id, expiry);
        an_integer_is_read_exactly(expiry, seconds);
    }
}

}

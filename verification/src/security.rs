//! Secrets: keys derived from shared texts, encrypted strings, session tokens and
//! base64url.
use vstd::prelude::*;
use vstd::utf8::{
    decode_utf8, encode_utf8, encode_utf8_decode_utf8, encode_utf8_valid_utf8, valid_utf8,
};
use crate::error::{ensure, first_of, refuse, reports, unless, CultNetError};
use crate::number::{integer, integer_text, integers_are_read_back, parse_integer, parsed};
use crate::primitives::{
    aes_gcm_open, aes_gcm_opened, aes_gcm_seal, aes_gcm_sealed, base64_decode, base64_encode,
    base64_letter, base64_text, byte_or_zero, hmac_code, hmac_sha256, is_instant, now_seconds,
    random_nonce, sha256, sha256_digest, six_bits, CIPHER_MESSAGE_LIMIT, FIRST_INSTANT,
    LAST_INSTANT,
};
use crate::text::{
    blank, is_blank, joined, letters, text_from_utf8, text_of, text_of_option, white_space,
};

verus! {

/// The number of bytes of a nonce.
pub const NONCE_LENGTH: usize = 12;

// ---------------------------------------------------------------------------
// Options
// ---------------------------------------------------------------------------

#[derive(Clone, Debug, PartialEq, Eq)]
pub struct CultNetClientSecurityOptions {
    pub connection_key: String,
    encryption_key: [u8; 32],
}

impl CultNetClientSecurityOptions {
    /// The shared text.
    pub closed spec fn shared_text(self) -> Seq<char> {
        self.connection_key@
    }

    /// The key that is derived from it.
    pub closed spec fn derived_key(self) -> Seq<u8> {
        self.encryption_key@
    }

    /// The key is the digest of the shared text.
    pub open spec fn well_formed(self) -> bool {
        self.derived_key() == sha256_digest(encode_utf8(self.shared_text()))
    }

    pub fn new(connection_key: &str) -> (outcome: Result<Self, CultNetError>)
        ensures
            reports(outcome, unless(!blank(connection_key@), "Connection key must be provided"@)),
            outcome matches Ok(options) ==> options.shared_text() == connection_key@ && options.well_formed(),
    {
        ensure(!is_blank(connection_key), "Connection key must be provided")?;
        Ok(Self::derived(connection_key))
    }

    fn derived(connection_key: &str) -> (options: Self)
        ensures
            options.shared_text() == connection_key@,
            options.well_formed(),
    {
        CultNetClientSecurityOptions {
            connection_key: connection_key.to_owned(),
            encryption_key: sha256(connection_key.as_bytes()),
        }
    }

    pub fn development() -> (options: Self)
        ensures
            options.shared_text() == "gamecult-dev-connection-key"@,
            options.well_formed(),
    {
        Self::derived("gamecult-dev-connection-key")
    }

    pub fn encryption_key(&self) -> (key: [u8; 32])
        ensures
            key@ == self.derived_key(),
    {
        self.encryption_key
    }
}

#[derive(Clone, Debug, PartialEq, Eq)]
pub struct CultNetServerSecurityOptions {
    client: CultNetClientSecurityOptions,
    pub session_signing_secret: String,
    session_signing_key: [u8; 32],
    pub is_development: bool,
}

impl CultNetServerSecurityOptions {
    /// What the server's clients know.
    pub closed spec fn client_options(self) -> CultNetClientSecurityOptions {
        self.client
    }

    /// The text that sessions are signed with.
    pub closed spec fn signing_text(self) -> Seq<char> {
        self.session_signing_secret@
    }

    /// The key that is derived from it.
    pub closed spec fn signing_key(self) -> Seq<u8> {
        self.session_signing_key@
    }

    pub closed spec fn for_development(self) -> bool {
        self.is_development
    }

    /// Both keys are the digests of their texts.
    pub open spec fn well_formed(self) -> bool {
        &&& self.client_options().well_formed()
        &&& self.signing_key() == sha256_digest(encode_utf8(self.signing_text()))
    }

    pub fn new(connection_key: &str, session_signing_secret: &str, is_development: bool) -> (outcome: Result<
        Self,
        CultNetError,
    >)
        ensures
            reports(
                outcome,
                first_of(
                    unless(!blank(session_signing_secret@), "Session signing secret must be provided"@),
                    unless(!blank(connection_key@), "Connection key must be provided"@),
                ),
            ),
            outcome matches Ok(options) ==> {
                &&& options.well_formed()
                &&& options.client_options().shared_text() == connection_key@
                &&& options.signing_text() == session_signing_secret@
                &&& options.for_development() == is_development
            },
    {
        ensure(!is_blank(session_signing_secret), "Session signing secret must be provided")?;
        let client = CultNetClientSecurityOptions::new(connection_key)?;
        Ok(Self::derived(client, session_signing_secret, is_development))
    }

    fn derived(client: CultNetClientSecurityOptions, session_signing_secret: &str, is_development: bool) -> (options:
        Self)
        requires
            client.well_formed(),
        ensures
            options.well_formed(),
            options.client_options() == client,
            options.signing_text() == session_signing_secret@,
            options.for_development() == is_development,
    {
        CultNetServerSecurityOptions {
            client,
            session_signing_key: sha256(session_signing_secret.as_bytes()),
            session_signing_secret: session_signing_secret.to_owned(),
            is_development,
        }
    }

    pub fn development() -> (options: Self)
        ensures
            options.well_formed(),
            options.client_options().shared_text() == "gamecult-dev-connection-key"@,
            options.signing_text() == "gamecult-dev-session-signing-secret"@,
            options.for_development(),
    {
        Self::derived(
            CultNetClientSecurityOptions::development(),
            "gamecult-dev-session-signing-secret",
            true,
        )
    }

    pub fn to_client_options(&self) -> (options: CultNetClientSecurityOptions)
        ensures
            options.shared_text() == self.client_options().shared_text(),
            options.derived_key() == self.client_options().derived_key(),
    {
        CultNetClientSecurityOptions {
            connection_key: self.client.connection_key.clone(),
            encryption_key: self.client.encryption_key,
        }
    }

    pub fn encryption_key(&self) -> (key: [u8; 32])
        ensures
            key@ == self.client_options().derived_key(),
    {
        self.client.encryption_key()
    }

    pub fn session_signing_key(&self) -> (key: [u8; 32])
        ensures
            key@ == self.signing_key(),
    {
        self.session_signing_key
    }
}

/// Options that hold an encryption key.
pub trait CultNetEncryptionOptions {
    /// The key.
    spec fn cipher_key(&self) -> Seq<u8>;

    fn encryption_key(&self) -> (key: [u8; 32])
        ensures
            key@ == self.cipher_key(),
    ;
}

impl CultNetEncryptionOptions for CultNetClientSecurityOptions {
    open spec fn cipher_key(&self) -> Seq<u8> {
        self.derived_key()
    }

    fn encryption_key(&self) -> (key: [u8; 32]) {
        CultNetClientSecurityOptions::encryption_key(self)
    }
}

impl CultNetEncryptionOptions for CultNetServerSecurityOptions {
    open spec fn cipher_key(&self) -> Seq<u8> {
        self.client_options().derived_key()
    }

    fn encryption_key(&self) -> (key: [u8; 32]) {
        CultNetServerSecurityOptions::encryption_key(self)
    }
}

/// A session that a token vouches for, until the given second since the Unix epoch.
#[derive(Clone, Debug, PartialEq, Eq)]
pub struct ValidatedCultNetSessionToken {
    pub user_id: String,
    pub expires_at_utc: i64,
}

// ---------------------------------------------------------------------------
// base64url
// ---------------------------------------------------------------------------

proof fn six_bits_are_six_bits(bytes: Seq<u8>, index: int)
    requires
        index >= 0,
    ensures
        0 <= six_bits(bytes, index) < 64,
{
}

proof fn base64_letters_differ(a: int, b: int)
    requires
        0 <= a < 64,
        0 <= b < 64,
    ensures
        base64_letter(a) == base64_letter(b) ==> a == b,
        base64_letter(a) != '.',
        !white_space(base64_letter(a)),
{
}

/// How the bits of two bytes, one behind the other, are cut into six.
#[verifier::spinoff_prover]
proof fn pair_of_bytes(first: int, second: int)
    requires
        0 <= first < 256,
        0 <= second < 256,
    ensures
        (first * 256 + second) / 1024 == first / 4,
        (first * 256 + second) / 16 % 64 == first % 4 * 16 + second / 16,
        (first * 256 + second) / 64 % 64 == first % 16 * 4 + second / 64,
        (first * 256 + second) / 256 % 64 == first % 64,
{
    let both = first * 256 + second;
    let (high, low, left, right) = (first / 4, first % 4, second / 16, second % 16);
    assert(both == 1024 * high + 256 * low + 16 * left + right);
    assert(both / 1024 == high);
    assert(both / 16 == 64 * high + (16 * low + left));
    let (upper, lower, front, back) = (first / 16, first % 16, second / 64, second % 64);
    assert(both == 4096 * upper + 256 * lower + 64 * front + back);
    assert(both / 64 == 64 * upper + (4 * lower + front));
    assert(both / 256 == first);
}

/// The bytes of a group of three, put together from its four times six bits.
proof fn group_of_three(bytes: Seq<u8>, group: int)
    requires
        group >= 0,
    ensures
        byte_or_zero(bytes, 3 * group) == 4 * six_bits(bytes, 4 * group) + six_bits(bytes, 4 * group + 1) / 16,
        byte_or_zero(bytes, 3 * group + 1) == six_bits(bytes, 4 * group + 1) % 16 * 16 + six_bits(
            bytes,
            4 * group + 2,
        ) / 4,
        byte_or_zero(bytes, 3 * group + 2) == six_bits(bytes, 4 * group + 2) % 4 * 64 + six_bits(
            bytes,
            4 * group + 3,
        ),
{
    let first = byte_or_zero(bytes, 3 * group);
    let second = byte_or_zero(bytes, 3 * group + 1);
    let third = byte_or_zero(bytes, 3 * group + 2);
    let fourth = byte_or_zero(bytes, 3 * group + 3);
    pair_of_bytes(first, second);
    pair_of_bytes(second, third);
    pair_of_bytes(third, fourth);
    assert(6 * (4 * group) / 8 == 3 * group && (4 * group) % 4 == 0);
    assert(6 * (4 * group + 1) / 8 == 3 * group && (4 * group + 1) % 4 == 1);
    assert(6 * (4 * group + 2) / 8 == 3 * group + 1 && (4 * group + 2) % 4 == 2);
    assert(6 * (4 * group + 3) / 8 == 3 * group + 2 && (4 * group + 3) % 4 == 3);
    assert(six_bits(bytes, 4 * group) == first / 4);
    assert(six_bits(bytes, 4 * group + 1) == first % 4 * 16 + second / 16);
    assert(six_bits(bytes, 4 * group + 2) == second % 16 * 4 + third / 64);
    assert(six_bits(bytes, 4 * group + 3) == third % 64);
}

/// base64url tells bytes apart.
pub proof fn base64_text_is_faithful(a: Seq<u8>, b: Seq<u8>)
    ensures
        base64_text(a) == base64_text(b) <==> a == b,
{
    reveal(base64_text);
    if base64_text(a) == base64_text(b) {
        let (x, y) = (base64_text(a), base64_text(b));
        assert(x.len() == y.len());
        assert(a.len() == b.len());
        assert forall|i: int| 0 <= i < x.len() implies #[trigger] six_bits(a, i) == six_bits(b, i) by {
            assert(x[i] == y[i]);
            six_bits_are_six_bits(a, i);
            six_bits_are_six_bits(b, i);
            base64_letters_differ(six_bits(a, i), six_bits(b, i));
        }
        assert forall|i: int| 0 <= i < a.len() implies a[i] == b[i] by {
            let group = i / 3;
            group_of_three(a, group);
            group_of_three(b, group);
            assert(4 * group + i % 3 + 1 < x.len());
            assert(six_bits(a, 4 * group) == six_bits(b, 4 * group));
            assert(six_bits(a, 4 * group + 1) == six_bits(b, 4 * group + 1));
            if i % 3 >= 1 {
                assert(six_bits(a, 4 * group + 2) == six_bits(b, 4 * group + 2));
            }
            if i % 3 == 2 {
                assert(six_bits(a, 4 * group + 3) == six_bits(b, 4 * group + 3));
            }
        }
        assert(a =~= b);
    }
}

/// The bytes that a base64url text stands for, if it stands for any.
#[verifier::opaque]
pub open spec fn base64_bytes(text: Seq<char>) -> Option<Seq<u8>> {
    if exists|bytes: Seq<u8>| base64_text(bytes) == text {
        Some(choose|bytes: Seq<u8>| base64_text(bytes) == text)
    } else {
        None
    }
}

/// What was encoded in base64url is decoded to the same bytes.
pub proof fn base64_is_read_back(bytes: Seq<u8>)
    ensures
        base64_bytes(base64_text(bytes)) == Some(bytes),
{
    reveal(base64_bytes);
    let found = choose|any: Seq<u8>| base64_text(any) == base64_text(bytes);
    base64_text_is_faithful(found, bytes);
}

/// The bytes that a text stands for are encoded in it.
pub proof fn base64_bytes_encode(text: Seq<char>)
    ensures
        base64_bytes(text) matches Some(bytes) ==> base64_text(bytes) == text,
{
    reveal(base64_bytes);
}

fn base64_read(text: &str) -> (bytes: Option<Vec<u8>>)
    ensures
        match bytes {
            Some(found) => base64_bytes(text@) == Some(found@),
            None => base64_bytes(text@) is None,
        },
{
    let bytes = base64_decode(text);
    proof {
        reveal(base64_bytes);
        if bytes is Some {
            base64_is_read_back(bytes->0@);
        }
    }
    bytes
}

// ---------------------------------------------------------------------------
// Session tokens
// ---------------------------------------------------------------------------

/// Where the letter first occurs, if it does.
pub open spec fn first_position(text: Seq<char>, letter: char) -> Option<nat>
    decreases text.len(),
{
    if text.len() == 0 {
        None
    } else if text[0] == letter {
        Some(0)
    } else {
        match first_position(text.drop_first(), letter) {
            Some(position) => Some(position + 1),
            None => None,
        }
    }
}

/// What stands before the first occurrence of the letter, and what behind it.
pub open spec fn split_once(text: Seq<char>, letter: char) -> Option<(Seq<char>, Seq<char>)> {
    match first_position(text, letter) {
        Some(position) => Some((text.take(position as int), text.skip((position + 1) as int))),
        None => None,
    }
}

/// A text without the letter, the letter, and anything behind it come apart there.
proof fn split_once_at(head: Seq<char>, letter: char, tail: Seq<char>)
    requires
        forall|i: int| 0 <= i < head.len() ==> head[i] != letter,
    ensures
        first_position(head + seq![letter] + tail, letter) == Some(head.len()),
        split_once(head + seq![letter] + tail, letter) == Some((head, tail)),
    decreases head.len(),
{
    let text = head + seq![letter] + tail;
    if head.len() > 0 {
        split_once_at(head.drop_first(), letter, tail);
        assert(text.drop_first() =~= head.drop_first() + seq![letter] + tail);
    }
    assert(text.take(head.len() as int) =~= head);
    assert(text.skip((head.len() + 1) as int) =~= tail);
}

fn split_text_once(text: &str, letter: char) -> (parts: Option<(String, String)>)
    ensures
        match parts {
            Some((head, tail)) => split_once(text@, letter) == Some((head@, tail@)),
            None => split_once(text@, letter) is None,
        },
{
    let all = letters(text);
    let mut i: usize = 0;
    assert(text@.skip(0) =~= text@);
    while i < all.len() && all[i] != letter
        invariant
            i <= all@.len(),
            all@ == text@,
            first_position(text@, letter) == (match first_position(text@.skip(i as int), letter) {
                Some(position) => Some((position + i) as nat),
                None => None,
            }),
        decreases all@.len() - i,
    {
        assert(text@.skip(i as int).drop_first() =~= text@.skip(i + 1));
        i += 1;
    }
    if i == all.len() {
        return None;
    }
    let head = vstd::slice::slice_subrange(all.as_slice(), 0, i);
    let tail = vstd::slice::slice_subrange(all.as_slice(), i + 1, all.len());
    assert(head@ =~= text@.take(i as int));
    assert(tail@ =~= text@.skip(i + 1));
    Some((text_of(head), text_of(tail)))
}

/// What a session token says before it is signed.
pub open spec fn session_payload(user_id: Seq<char>, expires_at: int) -> Seq<char> {
    user_id + "|"@ + integer(expires_at)
}

/// The token for a payload under the key: payload and code in base64url, with a dot
/// between them.
pub open spec fn session_token(key: Seq<u8>, payload: Seq<u8>) -> Seq<char> {
    base64_text(payload) + "."@ + base64_text(hmac_code(key, payload))
}

/// What comes of a token: a session, none, or an error.
pub enum SessionOutcome {
    Session(Seq<char>, int),
    Nothing,
    Malformed(Seq<char>),
}

/// What comes of a payload that is genuine.
pub open spec fn payload_outcome(payload: Seq<u8>, now: i64) -> SessionOutcome {
    if !valid_utf8(payload) {
        SessionOutcome::Malformed("session token payload is not UTF-8"@)
    } else {
        match split_once(decode_utf8(payload), '|') {
            None => SessionOutcome::Nothing,
            Some((user_id, expires_at)) => match parsed(expires_at) {
                None => SessionOutcome::Malformed("session token expiry is not an integer"@),
                Some(seconds) => if FIRST_INSTANT <= seconds <= LAST_INSTANT && seconds > now {
                    SessionOutcome::Session(user_id, seconds)
                } else {
                    SessionOutcome::Nothing
                },
            },
        }
    }
}

/// What comes of a token under the key at the given second: a session if the token is
/// genuine and not expired; an error if a part that should be readable is not; and
/// nothing otherwise.
pub open spec fn token_outcome(token: Option<Seq<char>>, key: Seq<u8>, now: i64) -> SessionOutcome {
    match token {
        None => SessionOutcome::Nothing,
        Some(text) => if blank(text) {
            SessionOutcome::Nothing
        } else {
            match split_once(text, '.') {
                None => SessionOutcome::Nothing,
                Some((payload_part, signature_part)) => match base64_bytes(payload_part) {
                    None => SessionOutcome::Malformed("session token payload is not base64url"@),
                    Some(payload) => match base64_bytes(signature_part) {
                        None => SessionOutcome::Malformed("session token signature is not base64url"@),
                        Some(signature) => if signature == hmac_code(key, payload) {
                            payload_outcome(payload, now)
                        } else {
                            SessionOutcome::Nothing
                        },
                    },
                },
            }
        },
    }
}

/// The outcome in memory is the one that the rules give.
pub open spec fn is_session_outcome(
    outcome: Result<Option<ValidatedCultNetSessionToken>, CultNetError>,
    wanted: SessionOutcome,
) -> bool {
    match wanted {
        SessionOutcome::Session(user_id, expires_at) => outcome matches Ok(Some(session)) && session.user_id@
            == user_id && session.expires_at_utc == expires_at,
        SessionOutcome::Nothing => outcome matches Ok(None),
        SessionOutcome::Malformed(message) => outcome is Err && outcome->Err_0@ == message,
    }
}

/// Compares without stopping at the first difference.
fn constant_time_eq(left: &[u8], right: &[u8]) -> (same: bool)
    ensures
        same == (left@ == right@),
{
    if left.len() != right.len() {
        return false;
    }
    let mut difference: u8 = 0;
    let mut i: usize = 0;
    while i < left.len()
        invariant
            i <= left@.len(),
            left@.len() == right@.len(),
            difference == 0 <==> forall|k: int| 0 <= k < i ==> left@[k] == right@[k],
        decreases left@.len() - i,
    {
        let (a, b, sofar): (u8, u8, u8) = (left[i], right[i], difference);
        assert((sofar | (a ^ b)) == 0u8 <==> sofar == 0u8 && a == b) by (bit_vector);
        difference = sofar | (a ^ b);
        i += 1;
    }
    proof {
        if difference == 0 {
            assert(left@ =~= right@);
        }
    }
    difference == 0
}

/// A freshly made token is a session until it expires: what is created for a user
/// whose id has no `|` in it, and for an instant that can be represented, validates
/// under the same key at any earlier second, to the same user and the same instant.
pub proof fn a_created_token_validates_until_it_expires(
    user_id: Seq<char>,
    expires_at: i64,
    key: Seq<u8>,
    now: i64,
)
    requires
        forall|i: int| 0 <= i < user_id.len() ==> user_id[i] != '|',
        FIRST_INSTANT <= expires_at <= LAST_INSTANT,
    ensures
        token_outcome(
            Some(session_token(key, encode_utf8(session_payload(user_id, expires_at as int)))),
            key,
            now,
        ) == (if now < expires_at {
            SessionOutcome::Session(user_id, expires_at as int)
        } else {
            SessionOutcome::Nothing
        }),
{
    let payload = session_payload(user_id, expires_at as int);
    let bytes = encode_utf8(payload);
    let head = base64_text(bytes);
    let tail = base64_text(hmac_code(key, bytes));
    let token = session_token(key, bytes);
    reveal(base64_text);
    reveal_strlit("|");
    reveal_strlit(".");
    assert("|"@ =~= seq!['|']);
    assert("."@ =~= seq!['.']);
    assert forall|i: int| 0 <= i < head.len() implies head[i] != '.' by {
        six_bits_are_six_bits(bytes, i);
        base64_letters_differ(six_bits(bytes, i), 0);
    }
    split_once_at(head, '.', tail);
    assert(token == head + seq!['.'] + tail);
    assert(token[head.len() as int] == '.');
    assert(!blank(token));
    base64_is_read_back(bytes);
    base64_is_read_back(hmac_code(key, bytes));
    encode_utf8_valid_utf8(payload);
    encode_utf8_decode_utf8(payload);
    split_once_at(user_id, '|', integer(expires_at as int));
    assert(payload == user_id + seq!['|'] + integer(expires_at as int));
    integers_are_read_back(expires_at);
}

// ---------------------------------------------------------------------------
// Secrets
// ---------------------------------------------------------------------------

/// Why the bytes cannot be encrypted, if they cannot.
pub open spec fn encryption_violation(input: Seq<u8>, nonce: Seq<u8>) -> Option<Seq<char>> {
    first_of(
        unless(nonce.len() == NONCE_LENGTH, "Invalid nonce"@),
        unless(input.len() <= CIPHER_MESSAGE_LIMIT, "AES-GCM encryption failed"@),
    )
}

/// Why the bytes cannot be decrypted, if they cannot.
pub open spec fn decryption_violation(key: Seq<u8>, encrypted: Seq<u8>, nonce: Seq<u8>) -> Option<Seq<char>> {
    first_of(
        unless(nonce.len() == NONCE_LENGTH, "Invalid nonce"@),
        unless(aes_gcm_opened(key, nonce, encrypted) is Some, "AES-GCM decryption failed"@),
    )
}

pub struct CultNetSecret;

impl CultNetSecret {
    /// A nonce drawn at random.
    pub fn new_nonce() -> [u8; 12] {
        random_nonce()
    }

    /// The encrypted form of the text; nothing for an absent or an empty text.
    pub fn encrypt_string<O: CultNetEncryptionOptions>(input: Option<&str>, nonce: &[u8], options: &O) -> (outcome:
        Result<Option<Vec<u8>>, CultNetError>)
        ensures
            match input {
                Some(text) if text@.len() > 0 => {
                    &&& reports(outcome, encryption_violation(encode_utf8(text@), nonce@))
                    &&& outcome matches Ok(found) ==> found matches Some(bytes) && bytes@ == aes_gcm_sealed(
                        options.cipher_key(),
                        nonce@,
                        encode_utf8(text@),
                    ) && bytes@.len() == encode_utf8(text@).len() + 16
                },
                _ => outcome matches Ok(None),
            },
    {
        match input {
            None => Ok(None),
            Some(text) => {
                if letters(text).len() == 0 {
                    Ok(None)
                } else {
                    Ok(Some(Self::encrypt_bytes(text.as_bytes(), nonce, options)?))
                }
            },
        }
    }

    /// The text that was encrypted; nothing where the bytes or the nonce are absent.
    pub fn decrypt_string<O: CultNetEncryptionOptions>(
        encrypted: Option<&[u8]>,
        nonce: Option<&[u8]>,
        options: &O,
    ) -> (outcome: Result<Option<String>, CultNetError>)
        ensures
            encrypted is None || nonce is None ==> outcome matches Ok(None),
            encrypted is Some && nonce is Some ==> {
                let opened = aes_gcm_opened(options.cipher_key(), nonce->0@, encrypted->0@);
                &&& reports(
                    outcome,
                    first_of(
                        decryption_violation(options.cipher_key(), encrypted->0@, nonce->0@),
                        unless(valid_utf8(opened->0), "decrypted text is not UTF-8"@),
                    ),
                )
                &&& outcome matches Ok(found) ==> found matches Some(text) && text@ == decode_utf8(opened->0)
                &&& forall|text: Seq<char>|
                    #![trigger encode_utf8(text)]
                    encode_utf8(text).len() <= CIPHER_MESSAGE_LIMIT && nonce->0@.len() == NONCE_LENGTH
                        && encrypted->0@ == aes_gcm_sealed(
                        options.cipher_key(),
                        nonce->0@,
                        encode_utf8(text),
                    ) ==> (outcome matches Ok(Some(found)) && found@ == text)
            },
    {
        match (encrypted, nonce) {
            (Some(sealed), Some(nonce)) => {
                let bytes = Self::decrypt_bytes(sealed, nonce, options)?;
                proof {
                    assert forall|text: Seq<char>| valid_utf8(#[trigger] encode_utf8(text)) && decode_utf8(
                        encode_utf8(text),
                    ) == text by {
                        encode_utf8_valid_utf8(text);
                        encode_utf8_decode_utf8(text);
                    }
                }
                match text_from_utf8(bytes) {
                    Some(text) => Ok(Some(text)),
                    None => refuse("decrypted text is not UTF-8"),
                }
            },
            _ => Ok(None),
        }
    }

    pub fn encrypt_bytes<O: CultNetEncryptionOptions>(input: &[u8], nonce: &[u8], options: &O) -> (outcome: Result<
        Vec<u8>,
        CultNetError,
    >)
        ensures
            reports(outcome, encryption_violation(input@, nonce@)),
            outcome matches Ok(bytes) ==> bytes@ == aes_gcm_sealed(options.cipher_key(), nonce@, input@)
                && bytes@.len() == input@.len() + 16,
    {
        validate_nonce(nonce)?;
        match aes_gcm_seal(&options.encryption_key(), nonce, input) {
            Some(bytes) => Ok(bytes),
            None => refuse("AES-GCM encryption failed"),
        }
    }

    /// Opens what the same key and nonce encrypted.
    pub fn decrypt_bytes<O: CultNetEncryptionOptions>(encrypted: &[u8], nonce: &[u8], options: &O) -> (outcome: Result<
        Vec<u8>,
        CultNetError,
    >)
        ensures
            reports(outcome, decryption_violation(options.cipher_key(), encrypted@, nonce@)),
            outcome matches Ok(bytes) ==> aes_gcm_opened(options.cipher_key(), nonce@, encrypted@) == Some(
                bytes@,
            ),
            forall|message: Seq<u8>|
                message.len() <= CIPHER_MESSAGE_LIMIT && nonce@.len() == NONCE_LENGTH && encrypted@
                    == #[trigger] aes_gcm_sealed(options.cipher_key(), nonce@, message) ==> (outcome matches Ok(bytes)
                    && bytes@ == message),
    {
        validate_nonce(nonce)?;
        match aes_gcm_open(&options.encryption_key(), nonce, encrypted) {
            Some(bytes) => Ok(bytes),
            None => refuse("AES-GCM decryption failed"),
        }
    }

    /// A token for the user's session, until the given second since the Unix epoch.
    pub fn create_session_token(
        user_id: &str,
        expires_at_utc: i64,
        options: &CultNetServerSecurityOptions,
    ) -> (outcome: Result<String, CultNetError>)
        ensures
            outcome matches Ok(token) && token@ == session_token(
                options.signing_key(),
                encode_utf8(session_payload(user_id@, expires_at_utc as int)),
            ),
    {
        let payload = joined(&joined(user_id, "|"), &integer_text(expires_at_utc));
        let code = hmac_sha256(&options.session_signing_key, payload.as_str().as_bytes());
        let head = joined(&base64_encode(payload.as_str().as_bytes()), ".");
        Ok(joined(&head, &base64_encode(&code)))
    }

    /// The session that the token vouches for now.
    pub fn try_validate_session_token(token: Option<&str>, options: &CultNetServerSecurityOptions) -> (outcome: Result<
        Option<ValidatedCultNetSessionToken>,
        CultNetError,
    >)
        ensures
            exists|now: i64|
                is_session_outcome(
                    outcome,
                    #[trigger] token_outcome(
                        text_of_option(token),
                        options.signing_key(),
                        now,
                    ),
                ),
    {
        Self::validate_session_token_at(token, options, now_seconds())
    }

    /// The session that the token vouches for at the given second since the Unix epoch.
    pub fn validate_session_token_at(
        token: Option<&str>,
        options: &CultNetServerSecurityOptions,
        now: i64,
    ) -> (outcome: Result<Option<ValidatedCultNetSessionToken>, CultNetError>)
        ensures
            is_session_outcome(
                outcome,
                token_outcome(
                    text_of_option(token),
                    options.signing_key(),
                    now,
                ),
            ),
    {
        let text = match token {
            None => {
                return Ok(None);
            },
            Some(text) => text,
        };
        if is_blank(text) {
            return Ok(None);
        }
        let (payload_part, signature_part) = match split_text_once(text, '.') {
            None => {
                return Ok(None);
            },
            Some(parts) => parts,
        };
        let payload = match base64_read(&payload_part) {
            None => {
                return refuse("session token payload is not base64url");
            },
            Some(bytes) => bytes,
        };
        let signature = match base64_read(&signature_part) {
            None => {
                return refuse("session token signature is not base64url");
            },
            Some(bytes) => bytes,
        };
        if !constant_time_eq(&signature, &hmac_sha256(&options.session_signing_key, &payload)) {
            return Ok(None);
        }
        let payload = match text_from_utf8(payload) {
            None => {
                return refuse("session token payload is not UTF-8");
            },
            Some(text) => text,
        };
        let (user_id, expires_at) = match split_text_once(&payload, '|') {
            None => {
                return Ok(None);
            },
            Some(parts) => parts,
        };
        let seconds: i64 = match parse_integer(&expires_at) {
            None => {
                return refuse("session token expiry is not an integer");
            },
            Some(seconds) => seconds,
        };
        if !is_instant(seconds) || seconds <= now {
            return Ok(None);
        }
        Ok(Some(ValidatedCultNetSessionToken { user_id, expires_at_utc: seconds }))
    }

    pub fn to_base64_url(input: &[u8]) -> (text: String)
        ensures
            text@ == base64_text(input@),
    {
        base64_encode(input)
    }

    pub fn from_base64_url(input: &str) -> (outcome: Result<Vec<u8>, CultNetError>)
        ensures
            reports(outcome, unless(base64_bytes(input@) is Some, "text is not base64url"@)),
            outcome matches Ok(bytes) ==> base64_bytes(input@) == Some(bytes@) && base64_text(bytes@) == input@,
    {
        match base64_read(input) {
            Some(bytes) => {
                proof {
                    base64_bytes_encode(input@);
                }
                Ok(bytes)
            },
            None => refuse("text is not base64url"),
        }
    }
}

fn validate_nonce(nonce: &[u8]) -> (outcome: Result<(), CultNetError>)
    ensures
        reports(outcome, unless(nonce@.len() == NONCE_LENGTH, "Invalid nonce"@)),
{
    ensure(nonce.len() == NONCE_LENGTH, "Invalid nonce")
}

}

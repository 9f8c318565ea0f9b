//! Digests, ciphers, signatures, base64url, randomness and time, each taken from
//! the crate that provides it.
use aes_gcm::aead::Aead;
use aes_gcm::KeyInit;
use base64::Engine;
use chrono::TimeZone;
use ed25519_dalek::Signer;
use ed25519_dalek::Verifier;
use hmac::Mac;
use rand::RngCore;
use sha2::Digest;
use vstd::prelude::*;
use zeroize::Zeroize;

verus! {

// ---------------------------------------------------------------------------
// Digests
// ---------------------------------------------------------------------------

/// The SHA-256 digest of the bytes.
pub uninterp spec fn sha256_digest(bytes: Seq<u8>) -> Seq<u8>;

/// The HMAC-SHA256 code of the message under the key.
pub uninterp spec fn hmac_code(key: Seq<u8>, message: Seq<u8>) -> Seq<u8>;

/// `Sha256::digest`: 32 bytes that depend on the input alone.
#[verifier::external_body]
pub(crate) fn sha256(bytes: &[u8]) -> (digest: [u8; 32])
    ensures
        digest@ == sha256_digest(bytes@),
{
    sha2::Sha256::digest(bytes).into()
}

/// `Hmac::<Sha256>`: the code, 32 bytes long, depends on key and message alone. A
/// key of any length is taken.
#[verifier::external_body]
pub(crate) fn hmac_sha256(key: &[u8], message: &[u8]) -> (code: [u8; 32])
    ensures
        code@ == hmac_code(key@, message@),
{
    let mut mac = <hmac::Hmac<sha2::Sha256> as Mac>::new_from_slice(key).expect("any key length");
    mac.update(message);
    mac.finalize().into_bytes().into()
}

// ---------------------------------------------------------------------------
// AES-256-GCM
// ---------------------------------------------------------------------------

/// The number of bytes that AES-GCM takes at most in one message.
pub const CIPHER_MESSAGE_LIMIT: u64 = 0x10_0000_0000;

/// What AES-256-GCM makes of a message, with its 16-byte tag at the end.
pub uninterp spec fn aes_gcm_sealed(key: Seq<u8>, nonce: Seq<u8>, message: Seq<u8>) -> Seq<u8>;

/// What AES-256-GCM opens sealed bytes to, if they are genuine.
pub uninterp spec fn aes_gcm_opened(key: Seq<u8>, nonce: Seq<u8>, sealed: Seq<u8>) -> Option<Seq<u8>>;

/// `Aes256Gcm::encrypt` without associated data: it fails exactly on a message
/// over the limit, and adds 16 bytes to any other.
#[verifier::external_body]
pub(crate) fn aes_gcm_seal(key: &[u8; 32], nonce: &[u8], message: &[u8]) -> (sealed: Option<Vec<u8>>)
    requires
        nonce@.len() == 12,
    ensures
        sealed is Some <==> message@.len() <= CIPHER_MESSAGE_LIMIT,
        sealed matches Some(bytes) ==> bytes@ == aes_gcm_sealed(key@, nonce@, message@) && bytes@.len()
            == message@.len() + 16,
{
    let cipher = aes_gcm::Aes256Gcm::new_from_slice(key).expect("a key of 32 bytes");
    cipher.encrypt(aes_gcm::Nonce::from_slice(nonce), message).ok()
}

/// `Aes256Gcm::decrypt` without associated data: the outcome depends on key, nonce
/// and bytes alone, and what `Aes256Gcm::encrypt` made of a message opens to it.
#[verifier::external_body]
pub(crate) fn aes_gcm_open(key: &[u8; 32], nonce: &[u8], sealed: &[u8]) -> (message: Option<Vec<u8>>)
    requires
        nonce@.len() == 12,
    ensures
        match message {
            Some(bytes) => aes_gcm_opened(key@, nonce@, sealed@) == Some(bytes@),
            None => aes_gcm_opened(key@, nonce@, sealed@) is None,
        },
        forall|original: Seq<u8>|
            original.len() <= CIPHER_MESSAGE_LIMIT && sealed@ == #[trigger] aes_gcm_sealed(
                key@,
                nonce@,
                original,
            ) ==> message is Some && message->0@ == original,
{
    let cipher = aes_gcm::Aes256Gcm::new_from_slice(key).expect("a key of 32 bytes");
    cipher.decrypt(aes_gcm::Nonce::from_slice(nonce), sealed).ok()
}

// ---------------------------------------------------------------------------
// Ed25519
// ---------------------------------------------------------------------------

#[verifier::external_type_specification]
#[verifier::external_body]
pub struct ExSigningKey(ed25519_dalek::SigningKey);

/// The 32-byte seed that a signing key holds.
pub uninterp spec fn signing_seed(key: ed25519_dalek::SigningKey) -> Seq<u8>;

/// The public key that belongs to a 32-byte seed.
pub uninterp spec fn ed25519_public_key(seed: Seq<u8>) -> Seq<u8>;

/// The signature of the message under the seed.
pub uninterp spec fn ed25519_signature(seed: Seq<u8>, message: Seq<u8>) -> Seq<u8>;

/// Whether the 32 bytes are the compressed form of a point of the curve.
pub uninterp spec fn ed25519_point(key: Seq<u8>) -> bool;

/// Whether the signature of the message verifies under the public key.
pub uninterp spec fn ed25519_verifies(key: Seq<u8>, message: Seq<u8>, signature: Seq<u8>) -> bool;

/// `SigningKey::from_bytes`: the key with the seed. It wipes its seed when it is dropped.
#[verifier::external_body]
pub(crate) fn signing_key(seed: &[u8; 32]) -> (key: ed25519_dalek::SigningKey)
    ensures
        signing_seed(key) == seed@,
{
    ed25519_dalek::SigningKey::from_bytes(seed)
}

/// `SigningKey::to_bytes`: the seed of the key.
#[verifier::external_body]
pub(crate) fn seed_of(key: &ed25519_dalek::SigningKey) -> (seed: [u8; 32])
    ensures
        seed@ == signing_seed(*key),
{
    key.to_bytes()
}

/// `SigningKey::verifying_key`: a public key that depends on the seed alone and is a
/// point of the curve.
#[verifier::external_body]
pub(crate) fn public_key_of(key: &ed25519_dalek::SigningKey) -> (public_key: [u8; 32])
    ensures
        public_key@ == ed25519_public_key(signing_seed(*key)),
        ed25519_point(public_key@),
{
    key.verifying_key().to_bytes()
}

/// `SigningKey::sign`: 64 bytes that depend on seed and message alone and verify
/// under the seed's public key.
#[verifier::external_body]
pub(crate) fn sign_with(key: &ed25519_dalek::SigningKey, message: &[u8]) -> (signature: Vec<u8>)
    ensures
        signature@ == ed25519_signature(signing_seed(*key), message@),
        signature@.len() == 64,
        ed25519_verifies(ed25519_public_key(signing_seed(*key)), message@, signature@),
{
    key.sign(message).to_bytes().to_vec()
}

/// `Zeroize::zeroize` on 32 bytes: all of them are zero afterwards.
#[verifier::external_body]
pub(crate) fn wipe(bytes: &mut [u8; 32])
    ensures
        final(bytes)@ == Seq::new(32, |i: int| 0u8),
{
    bytes.zeroize();
}

/// `VerifyingKey::from_bytes`: whether it takes the key depends on the key alone.
#[verifier::external_body]
pub(crate) fn is_point(key: &[u8]) -> (found: bool)
    requires
        key@.len() == 32,
    ensures
        found == ed25519_point(key@),
{
    let bytes: [u8; 32] = key.try_into().expect("32 bytes");
    ed25519_dalek::VerifyingKey::from_bytes(&bytes).is_ok()
}

/// `VerifyingKey::verify` with the signature read by `Signature::from_slice`: the
/// outcome depends on key, message and signature alone.
#[verifier::external_body]
pub(crate) fn verifies(key: &[u8], message: &[u8], signature: &[u8]) -> (genuine: bool)
    requires
        key@.len() == 32,
        signature@.len() == 64,
        ed25519_point(key@),
    ensures
        genuine == ed25519_verifies(key@, message@, signature@),
{
    let bytes: [u8; 32] = key.try_into().expect("32 bytes");
    let proof = ed25519_dalek::Signature::from_slice(signature).expect("64 bytes");
    let point = ed25519_dalek::VerifyingKey::from_bytes(&bytes).expect("a point of the curve");
    point.verify(message, &proof).is_ok()
}

// ---------------------------------------------------------------------------
// base64url without padding
// ---------------------------------------------------------------------------

/// The letter that stands for a value of six bits.
pub open spec fn base64_letter(value: int) -> char {
    if value < 26 {
        (65 + value) as u8 as char
    } else if value < 52 {
        (97 + value - 26) as u8 as char
    } else if value < 62 {
        (48 + value - 52) as u8 as char
    } else if value == 62 {
        '-'
    } else {
        '_'
    }
}

/// The byte at the position, zero behind the end.
pub open spec fn byte_or_zero(bytes: Seq<u8>, position: int) -> int {
    if 0 <= position < bytes.len() {
        bytes[position] as int
    } else {
        0
    }
}

/// The six bits that start at bit `6 * index`, the most significant bit of each
/// byte first.
pub open spec fn six_bits(bytes: Seq<u8>, index: int) -> int {
    let pair = byte_or_zero(bytes, 6 * index / 8) * 256 + byte_or_zero(bytes, 6 * index / 8 + 1);
    if index % 4 == 0 {
        pair / 1024
    } else if index % 4 == 1 {
        pair / 16 % 64
    } else if index % 4 == 2 {
        pair / 64 % 64
    } else {
        pair / 256 % 64
    }
}

/// The base64url text of the bytes, without padding: one letter for each six bits.
#[verifier::opaque]
pub open spec fn base64_text(bytes: Seq<u8>) -> Seq<char> {
    Seq::new(((8 * bytes.len() + 5) / 6) as nat, |i: int| base64_letter(six_bits(bytes, i)))
}

/// `URL_SAFE_NO_PAD.encode`: base64url without padding.
#[verifier::external_body]
pub(crate) fn base64_encode(bytes: &[u8]) -> (text: String)
    ensures
        text@ == base64_text(bytes@),
{
    base64::engine::general_purpose::URL_SAFE_NO_PAD.encode(bytes)
}

/// `URL_SAFE_NO_PAD.decode`: it takes exactly the texts that encode some bytes, with
/// no padding and no bits left over, and gives those bytes.
#[verifier::external_body]
pub(crate) fn base64_decode(text: &str) -> (bytes: Option<Vec<u8>>)
    ensures
        match bytes {
            Some(found) => base64_text(found@) == text@,
            None => forall|any: Seq<u8>| base64_text(any) != text@,
        },
{
    base64::engine::general_purpose::URL_SAFE_NO_PAD.decode(text).ok()
}

// ---------------------------------------------------------------------------
// Randomness and time
// ---------------------------------------------------------------------------

/// `rand::rng().fill_bytes` on 12 bytes: any bytes may come.
#[verifier::external_body]
pub(crate) fn random_nonce() -> [u8; 12] {
    let mut nonce = [0u8; 12];
    rand::rng().fill_bytes(&mut nonce);
    nonce
}

/// `rand::rng().fill_bytes` on 32 bytes: any bytes may come.
#[verifier::external_body]
pub(crate) fn random_seed() -> [u8; 32] {
    let mut seed = [0u8; 32];
    rand::rng().fill_bytes(&mut seed);
    seed
}

/// `Utc::now` as `DateTime::to_rfc3339` writes it: any time may come.
#[verifier::external_body]
pub(crate) fn now_rfc3339() -> String {
    chrono::Utc::now().to_rfc3339()
}

/// `Utc::now` as `DateTime::to_rfc3339_opts` writes it to the second: any time may come.
#[verifier::external_body]
pub(crate) fn now_utc_second() -> String {
    chrono::Utc::now().to_rfc3339_opts(chrono::SecondsFormat::Secs, true)
}

/// `Utc::now` in whole seconds since the Unix epoch: any time may come.
#[verifier::external_body]
pub(crate) fn now_seconds() -> i64 {
    chrono::Utc::now().timestamp()
}

/// Whether the text is a date and time as RFC 3339 writes them.
pub uninterp spec fn rfc3339(text: Seq<char>) -> bool;

/// `DateTime::parse_from_rfc3339`: whether it takes the text depends on the text
/// alone.
#[verifier::external_body]
pub(crate) fn is_rfc3339(text: &str) -> (found: bool)
    ensures
        found == rfc3339(text@),
{
    chrono::DateTime::parse_from_rfc3339(text).is_ok()
}

/// The first and the last second that a `DateTime<Utc>` can hold.
pub const FIRST_INSTANT: i64 = -8334601228800;

pub const LAST_INSTANT: i64 = 8210266876799;

/// `Utc.timestamp_opt` on whole seconds: it gives a single instant exactly between
/// `DateTime::<Utc>::MIN_UTC` and `DateTime::<Utc>::MAX_UTC`.
#[verifier::external_body]
pub(crate) fn is_instant(seconds: i64) -> (found: bool)
    ensures
        found == (FIRST_INSTANT <= seconds <= LAST_INSTANT),
{
    chrono::Utc.timestamp_opt(seconds, 0).single().is_some()
}

}

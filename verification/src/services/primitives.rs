//! Hashing, authenticated encryption, base64, randomness and the machine's
//! identifier, done by outside crates.
//!
//! Nothing here is proved: each function states what the outside crate is
//! trusted to return, and the spec functions without a body stand for its
//! results.

use aes_gcm::aead::Aead;
use aes_gcm::KeyInit;
use base64::Engine;
use rand::Rng;
use sha2::Digest;
use vstd::prelude::*;
use vstd::utf8::{decode_utf8, valid_utf8};

verus! {

#[verifier::external_type_specification]
#[verifier::external_body]
pub struct ExAeadError(aes_gcm::Error);

#[verifier::external_type_specification]
#[verifier::external_body]
pub struct ExDecodeError(base64::DecodeError);

/// The number of bytes of a key.
pub const KEY_SIZE: usize = 32;

/// The number of bytes of a nonce.
pub const NONCE_SIZE: usize = 12;

/// The number of bytes of an authentication tag.
pub const TAG_SIZE: usize = 16;

/// The most plaintext bytes the cipher seals under one nonce.
pub const MAX_PLAINTEXT: u64 = 0x10_0000_0000;

/// The SHA-256 digest of `data`.
pub uninterp spec fn sha256_of(data: Seq<u8>) -> Seq<u8>;

/// The ciphertext and tag that AES-256-GCM gives for `plaintext` under
/// `key` and `nonce`, without associated data.
pub uninterp spec fn aes_gcm_sealed(key: Seq<u8>, nonce: Seq<u8>, plaintext: Seq<u8>) -> Seq<u8>;

/// The plaintext that AES-256-GCM recovers from `sealed` under `key` and
/// `nonce`; `None` where it rejects `sealed`.
pub uninterp spec fn aes_gcm_opened(key: Seq<u8>, nonce: Seq<u8>, sealed: Seq<u8>) -> Option<
    Seq<u8>,
>;

/// The standard base64 text of `bytes`, with padding.
pub uninterp spec fn base64_text(bytes: Seq<u8>) -> Seq<char>;

/// The bytes that `text` stands for in standard base64 with padding; `None`
/// where `text` is not such a text.
pub uninterp spec fn base64_bytes(text: Seq<char>) -> Option<Seq<u8>>;

/// Whether base64 can encode `len` bytes into a text whose length fits the
/// machine.
pub open spec fn encodable(len: nat) -> bool {
    len / 3 * 4 + 4 <= usize::MAX
}

/// Calls `sha2::Sha256::digest`. Trusted: the digest is a function of the
/// data alone and is 32 bytes long.
#[verifier::external_body]
pub(crate) fn sha256(data: &[u8]) -> (digest: Vec<u8>)
    ensures
        digest@ == sha256_of(data@),
        digest@.len() == KEY_SIZE,
{
    sha2::Sha256::digest(data).to_vec()
}

/// Calls `encrypt` of `aes_gcm::Aes256Gcm` with a cipher made from `key`.
/// Trusted: it fails exactly where the plaintext is longer than the cipher
/// allows; otherwise the result is a function of key, nonce and plaintext
/// alone and is a tag longer than the plaintext.
#[verifier::external_body]
pub(crate) fn seal(key: &[u8], nonce: &[u8], plaintext: &[u8]) -> (outcome: Result<
    Vec<u8>,
    aes_gcm::Error,
>)
    requires
        key@.len() == KEY_SIZE,
        nonce@.len() == NONCE_SIZE,
    ensures
        outcome is Ok <==> plaintext@.len() <= MAX_PLAINTEXT,
        outcome matches Ok(sealed) ==> sealed@ == aes_gcm_sealed(key@, nonce@, plaintext@)
            && sealed@.len() == plaintext@.len() + TAG_SIZE,
{
    let cipher = aes_gcm::Aes256Gcm::new(aes_gcm::Key::<aes_gcm::Aes256Gcm>::from_slice(key));
    cipher.encrypt(aes_gcm::Nonce::from_slice(nonce), plaintext)
}

/// Calls `decrypt` of `aes_gcm::Aes256Gcm` with a cipher made from `key`.
/// Trusted: whether it succeeds, and the plaintext it then returns, are a
/// function of key, nonce and input alone; and what was sealed under the
/// same key and nonce is opened to the plaintext it was sealed from.
#[verifier::external_body]
pub(crate) fn open(key: &[u8], nonce: &[u8], sealed: &[u8]) -> (outcome: Result<
    Vec<u8>,
    aes_gcm::Error,
>)
    requires
        key@.len() == KEY_SIZE,
        nonce@.len() == NONCE_SIZE,
    ensures
        match outcome {
            Ok(opened) => aes_gcm_opened(key@, nonce@, sealed@) == Some(opened@),
            Err(_) => aes_gcm_opened(key@, nonce@, sealed@) is None,
        },
        match outcome {
            Ok(opened) => forall|plaintext: Seq<u8>|
                plaintext.len() <= MAX_PLAINTEXT && sealed@ == #[trigger] aes_gcm_sealed(
                    key@,
                    nonce@,
                    plaintext,
                ) ==> opened@ == plaintext,
            Err(_) => forall|plaintext: Seq<u8>|
                plaintext.len() <= MAX_PLAINTEXT ==> sealed@ != #[trigger] aes_gcm_sealed(
                    key@,
                    nonce@,
                    plaintext,
                ),
        },
{
    let cipher = aes_gcm::Aes256Gcm::new(aes_gcm::Key::<aes_gcm::Aes256Gcm>::from_slice(key));
    cipher.decrypt(aes_gcm::Nonce::from_slice(nonce), sealed)
}

/// Calls `encode` of `base64::engine::general_purpose::STANDARD`. Trusted:
/// the text is a function of the bytes alone, and has four characters for
/// every three bytes begun.
#[verifier::external_body]
pub(crate) fn encode_base64(bytes: &[u8]) -> (text: String)
    requires
        encodable(bytes@.len()),
    ensures
        text@ == base64_text(bytes@),
        text@.len() == (bytes@.len() + 2) / 3 * 4,
{
    base64::engine::general_purpose::STANDARD.encode(bytes)
}

/// Calls `decode` of `base64::engine::general_purpose::STANDARD`. Trusted:
/// whether it succeeds, and the bytes it then returns, are a function of the
/// text alone; and the text that `encode` gives for some bytes is decoded to
/// those bytes.
#[verifier::external_body]
pub(crate) fn decode_base64(text: &str) -> (outcome: Result<Vec<u8>, base64::DecodeError>)
    ensures
        match outcome {
            Ok(bytes) => base64_bytes(text@) == Some(bytes@),
            Err(_) => base64_bytes(text@) is None,
        },
        match outcome {
            Ok(decoded) => forall|bytes: Seq<u8>|
                text@ == #[trigger] base64_text(bytes) ==> decoded@ == bytes,
            Err(_) => forall|bytes: Seq<u8>| text@ != #[trigger] base64_text(bytes),
        },
{
    base64::engine::general_purpose::STANDARD.decode(text)
}

/// Calls `String::from_utf8`. Trusted, as std documents it: it succeeds
/// exactly on valid UTF-8, with the text that the bytes encode.
#[verifier::external_body]
pub(crate) fn text_from_utf8(bytes: Vec<u8>) -> (text: Option<String>)
    ensures
        match text {
            Some(t) => valid_utf8(bytes@) && t@ == decode_utf8(bytes@),
            None => !valid_utf8(bytes@),
        },
{
    String::from_utf8(bytes).ok()
}

/// Calls `gen` of `rand::thread_rng()` for twelve bytes. Trusted: there are
/// twelve. Nothing is claimed of their values; two calls may give any two
/// results.
#[verifier::external_body]
pub(crate) fn random_nonce() -> (nonce: Vec<u8>)
    ensures
        nonce@.len() == NONCE_SIZE,
{
    rand::thread_rng().gen::<[u8; 12]>().to_vec()
}

/// Calls `machine_uid::get`. Nothing is claimed of the result: it is read
/// from the machine.
#[verifier::external_body]
pub(crate) fn machine_id() -> (id: Option<String>) {
    machine_uid::get().ok()
}

} // verus!

//! Authenticated encryption of credentials.
//!
//! A credential is sealed with AES-256-GCM under a key derived from the
//! machine's identifier, and stored as the base64 text of the nonce followed
//! by the sealed bytes.

use crate::error::CryptoError;
use crate::services::primitives::{
    aes_gcm_opened, aes_gcm_sealed, base64_bytes, base64_text, decode_base64, encodable,
    encode_base64, machine_id, open, random_nonce, seal, sha256, sha256_of, text_from_utf8,
    KEY_SIZE, MAX_PLAINTEXT, NONCE_SIZE, TAG_SIZE,
};
use vstd::prelude::*;
use vstd::slice::{slice_subrange, slice_to_vec};
use vstd::utf8::{
    decode_utf8, encode_scalar, encode_utf8, encode_utf8_decode_utf8, encode_utf8_valid_utf8,
    valid_utf8,
};

verus! {

/// The application's identifier, hashed into every key.
pub const APP_IDENTIFIER: &'static str = "com.hkdev.gitlog-ai-reporter";

/// The key that belongs to the machine identified by `machine_id`.
pub open spec fn derived_key(machine_id: Seq<char>) -> Seq<u8> {
    sha256_of(encode_utf8(machine_id) + encode_utf8(APP_IDENTIFIER@))
}

/// Whether `plaintext` is short enough to be sealed and encoded.
pub open spec fn sealable(plaintext: Seq<char>) -> bool {
    let len = encode_utf8(plaintext).len();
    len <= MAX_PLAINTEXT && encodable(NONCE_SIZE as nat + len + TAG_SIZE as nat)
}

/// The number of characters of the encryption of `plaintext`: four for
/// every three bytes begun of nonce, ciphertext and tag.
pub open spec fn encrypted_len(plaintext: Seq<char>) -> nat {
    ((NONCE_SIZE + encode_utf8(plaintext).len() + TAG_SIZE + 2) / 3 * 4) as nat
}

/// A text has no more characters than its UTF-8 encoding has bytes.
pub proof fn lemma_bytes_cover_chars(text: Seq<char>)
    ensures
        text.len() <= encode_utf8(text).len(),
    decreases text.len(),
{
    if text.len() > 0 {
        lemma_bytes_cover_chars(text.drop_first());
        assert(encode_scalar(text[0] as u32).len() >= 1);
    }
}

/// An encryption is longer than the plaintext it was made from, so the two
/// are never the same text.
pub proof fn lemma_encryption_is_longer(plaintext: Seq<char>)
    ensures
        encrypted_len(plaintext) > plaintext.len(),
{
    lemma_bytes_cover_chars(plaintext);
}

/// What encrypting `plaintext` under `key` with `nonce` gives.
pub open spec fn encrypted_text(key: Seq<u8>, nonce: Seq<u8>, plaintext: Seq<char>) -> Seq<char> {
    base64_text(nonce + aes_gcm_sealed(key, nonce, encode_utf8(plaintext)))
}

/// What decrypting `encoded` under `key` gives: the plaintext, or the first
/// of the four checks that fails.
pub open spec fn decrypted_text(key: Seq<u8>, encoded: Seq<char>) -> Result<Seq<char>, CryptoError> {
    match base64_bytes(encoded) {
        None => Err(CryptoError::Encoding),
        Some(payload) => if payload.len() < NONCE_SIZE {
            Err(CryptoError::TooShort)
        } else {
            let nonce = payload.subrange(0, NONCE_SIZE as int);
            let sealed = payload.subrange(NONCE_SIZE as int, payload.len() as int);
            match aes_gcm_opened(key, nonce, sealed) {
                None => Err(CryptoError::Authentication),
                Some(bytes) => if valid_utf8(bytes) {
                    Ok(decode_utf8(bytes))
                } else {
                    Err(CryptoError::NotText)
                },
            }
        },
    }
}

/// The view of the outcome of a decryption.
pub open spec fn outcome_view(outcome: Result<String, CryptoError>) -> Result<Seq<char>, CryptoError> {
    match outcome {
        Ok(text) => Ok(text@),
        Err(e) => Err(e),
    }
}

/// A key of the cipher: thirty-two bytes.
pub struct EncryptionKey {
    bytes: Vec<u8>,
}

impl View for EncryptionKey {
    type V = Seq<u8>;

    closed spec fn view(&self) -> Seq<u8> {
        self.bytes@
    }
}

impl EncryptionKey {
    #[verifier::type_invariant]
    spec fn sized(self) -> bool {
        self.bytes@.len() == KEY_SIZE
    }

    /// The key that belongs to the machine identified by `machine_id`: the
    /// SHA-256 digest of the identifier followed by the application's.
    pub fn derive(machine_id: &str) -> (key: Self)
        ensures
            key@ == derived_key(machine_id@),
            key@.len() == KEY_SIZE,
    {
        let material = concat_bytes(machine_id.as_bytes(), APP_IDENTIFIER.as_bytes());
        EncryptionKey { bytes: sha256(material.as_slice()) }
    }

    /// A key with the given bytes, where there are thirty-two of them.
    pub fn from_bytes(bytes: Vec<u8>) -> (key: Option<Self>)
        ensures
            match key {
                Some(k) => bytes@.len() == KEY_SIZE && k@ == bytes@,
                None => bytes@.len() != KEY_SIZE,
            },
    {
        if bytes.len() == KEY_SIZE {
            Some(EncryptionKey { bytes })
        } else {
            None
        }
    }
}

/// A nonce of the cipher: twelve bytes, to be used for one encryption only.
pub struct Nonce {
    bytes: Vec<u8>,
}

impl View for Nonce {
    type V = Seq<u8>;

    closed spec fn view(&self) -> Seq<u8> {
        self.bytes@
    }
}

impl Nonce {
    #[verifier::type_invariant]
    spec fn sized(self) -> bool {
        self.bytes@.len() == NONCE_SIZE
    }

    /// A fresh random nonce.
    pub fn random() -> (nonce: Self)
        ensures
            nonce@.len() == NONCE_SIZE,
    {
        Nonce { bytes: random_nonce() }
    }

    /// A nonce with the given bytes, where there are twelve of them.
    pub fn from_bytes(bytes: Vec<u8>) -> (nonce: Option<Self>)
        ensures
            match nonce {
                Some(n) => bytes@.len() == NONCE_SIZE && n@ == bytes@,
                None => bytes@.len() != NONCE_SIZE,
            },
    {
        if bytes.len() == NONCE_SIZE {
            Some(Nonce { bytes })
        } else {
            None
        }
    }
}

/// The bytes of `a` followed by those of `b`.
pub fn concat_bytes(a: &[u8], b: &[u8]) -> (joined: Vec<u8>)
    ensures
        joined@ == a@ + b@,
{
    let mut joined: Vec<u8> = slice_to_vec(a);
    let mut i: usize = 0;
    while i < b.len()
        invariant
            i <= b.len(),
            joined@ == a@ + b@.take(i as int),
        decreases b.len() - i,
    {
        joined.push(b[i]);
        assert(b@.take(i + 1) == b@.take(i as int).push(b@[i as int]));
        i += 1;
    }
    assert(b@.take(i as int) == b@);
    joined
}

/// Encrypts and decrypts credentials with a key derived from the machine.
pub struct EncryptionService;

impl EncryptionService {
    /// Encrypts `plaintext` under `key` with `nonce`. Fails only where the
    /// plaintext is too long. The text that is encoded is the nonce, the
    /// ciphertext, which is as long as the plaintext, and the tag; so the
    /// encryption is longer than the plaintext and never the same text.
    pub fn encrypt_with(key: &EncryptionKey, nonce: &Nonce, plaintext: &str) -> (outcome: Result<
        String,
        CryptoError,
    >)
        ensures
            key@.len() == KEY_SIZE,
            nonce@.len() == NONCE_SIZE,
            match outcome {
                Ok(encoded) => sealable(plaintext@) && encoded@.len() > 0 && encoded@
                    == encrypted_text(key@, nonce@, plaintext@),
                Err(e) => !sealable(plaintext@) && e == CryptoError::Encryption,
            },
            outcome is Ok ==> aes_gcm_sealed(key@, nonce@, encode_utf8(plaintext@)).len()
                == encode_utf8(plaintext@).len() + TAG_SIZE,
            outcome matches Ok(encoded) ==> encoded@.len() == (NONCE_SIZE + encode_utf8(
                plaintext@,
            ).len() + TAG_SIZE + 2) / 3 * 4,
            outcome matches Ok(encoded) ==> encoded@.len() == encrypted_len(plaintext@)
                && encoded@ != plaintext@,
    {
        proof {
            use_type_invariant(key);
            use_type_invariant(nonce);
        }
        let bytes = plaintext.as_bytes();
        match seal(key.bytes.as_slice(), nonce.bytes.as_slice(), bytes) {
            Err(_) => Err(CryptoError::Encryption),
            Ok(sealed) => {
                let payload = concat_bytes(nonce.bytes.as_slice(), sealed.as_slice());
                if payload.len() / 3 > (usize::MAX - 4) / 4 {
                    Err(CryptoError::Encryption)
                } else {
                    proof {
                        lemma_encryption_is_longer(plaintext@);
                    }
                    Ok(encode_base64(payload.as_slice()))
                }
            },
        }
    }

    /// Decrypts `encoded` under `key`. Fails where `encoded` is not base64,
    /// holds less than a nonce, does not carry the right tag, or does not
    /// decrypt to text. Whatever was encrypted under the same key, with
    /// whatever nonce, decrypts to the plaintext it was made from; and a
    /// text is the encryption of one plaintext with one nonce at most.
    pub fn decrypt_with(key: &EncryptionKey, encoded: &str) -> (outcome: Result<String, CryptoError>)
        ensures
            outcome_view(outcome) == decrypted_text(key@, encoded@),
            forall|nonce: Seq<u8>, plaintext: Seq<char>|
                nonce.len() == NONCE_SIZE && encode_utf8(plaintext).len() <= MAX_PLAINTEXT
                    && encoded@ == #[trigger] encrypted_text(key@, nonce, plaintext)
                    ==> outcome_view(outcome) == Ok::<Seq<char>, CryptoError>(plaintext),
            forall|first: Seq<u8>, second: Seq<u8>, plaintext: Seq<char>, other: Seq<char>|
                first.len() == NONCE_SIZE && second.len() == NONCE_SIZE && encoded@
                    == #[trigger] encrypted_text(key@, first, plaintext) && encoded@
                    == #[trigger] encrypted_text(key@, second, other) ==> first == second,
    {
        proof {
            use_type_invariant(key);
        }
        let payload = match decode_base64(encoded) {
            Ok(payload) => payload,
            Err(_) => {
                return Err(CryptoError::Encoding);
            },
        };
        proof {
            assert forall|nonce: Seq<u8>, plaintext: Seq<char>|
                nonce.len() == NONCE_SIZE && encoded@ == #[trigger] encrypted_text(
                    key@,
                    nonce,
                    plaintext,
                ) implies payload@ == nonce + aes_gcm_sealed(key@, nonce, encode_utf8(plaintext))
                && payload@.subrange(0, NONCE_SIZE as int) == nonce by {
                let whole = nonce + aes_gcm_sealed(key@, nonce, encode_utf8(plaintext));
                assert(encoded@ == base64_text(whole));
                assert(whole.subrange(0, NONCE_SIZE as int) == nonce);
            }
        }
        if payload.len() < NONCE_SIZE {
            return Err(CryptoError::TooShort);
        }
        let nonce = slice_subrange(payload.as_slice(), 0, NONCE_SIZE);
        let sealed = slice_subrange(payload.as_slice(), NONCE_SIZE, payload.len());
        let bytes = match open(key.bytes.as_slice(), nonce, sealed) {
            Ok(bytes) => bytes,
            Err(_) => {
                proof {
                    assert forall|n: Seq<u8>, plaintext: Seq<char>|
                        n.len() == NONCE_SIZE && encode_utf8(plaintext).len() <= MAX_PLAINTEXT
                            && encoded@ == #[trigger] encrypted_text(key@, n, plaintext) implies false by {
                        let part = aes_gcm_sealed(key@, n, encode_utf8(plaintext));
                        assert((n + part).subrange(NONCE_SIZE as int, (n + part).len() as int) == part);
                    }
                }
                return Err(CryptoError::Authentication);
            },
        };
        proof {
            assert forall|n: Seq<u8>, plaintext: Seq<char>|
                n.len() == NONCE_SIZE && encode_utf8(plaintext).len() <= MAX_PLAINTEXT && encoded@
                    == #[trigger] encrypted_text(key@, n, plaintext) implies bytes@ == encode_utf8(
                plaintext,
            ) && valid_utf8(bytes@) && decode_utf8(bytes@) == plaintext by {
                let part = aes_gcm_sealed(key@, n, encode_utf8(plaintext));
                assert((n + part).subrange(NONCE_SIZE as int, (n + part).len() as int) == part);
                encode_utf8_valid_utf8(plaintext);
                encode_utf8_decode_utf8(plaintext);
            }
        }
        match text_from_utf8(bytes) {
            Some(text) => Ok(text),
            None => Err(CryptoError::NotText),
        }
    }

    /// What asking for the machine's identifier comes to, given what the
    /// machine answered: the identifier itself, or, where the machine gave
    /// none, the failure to derive a key.
    pub fn machine_id_outcome(answer: Option<String>) -> (outcome: Result<String, CryptoError>)
        ensures
            outcome == match answer {
                Some(id) => Ok::<String, CryptoError>(id),
                None => Err::<String, CryptoError>(CryptoError::KeyDerivation),
            },
    {
        match answer {
            Some(id) => Ok(id),
            None => Err(CryptoError::KeyDerivation),
        }
    }

    /// The machine's identifier, from which the key is derived. Whether the
    /// machine has one, and which, is for the machine to say; what is made
    /// of its answer is [`EncryptionService::machine_id_outcome`].
    pub fn get_machine_id() -> (outcome: Result<String, CryptoError>)
        ensures
            outcome matches Err(e) ==> e == CryptoError::KeyDerivation,
    {
        Self::machine_id_outcome(machine_id())
    }

    /// The key of this machine.
    pub fn get_encryption_key() -> (outcome: Result<EncryptionKey, CryptoError>)
        ensures
            match outcome {
                Ok(key) => exists|id: Seq<char>| key@ == derived_key(id),
                Err(e) => e == CryptoError::KeyDerivation,
            },
    {
        match Self::get_machine_id() {
            Ok(id) => {
                let key = EncryptionKey::derive(id.as_str());
                assert(key@ == derived_key(id@));
                Ok(key)
            },
            Err(e) => Err(e),
        }
    }

    /// Encrypts `plaintext` under this machine's key with a fresh random
    /// nonce. Fails where the machine has no identifier or the plaintext is
    /// too long. The encryption is the base64 text of the nonce, the
    /// ciphertext, which is as long as the plaintext, and the tag.
    pub fn encrypt(plaintext: &str) -> (outcome: Result<String, CryptoError>)
        ensures
            match outcome {
                Ok(encoded) => sealable(plaintext@) && encoded@.len() > 0 && exists|
                    id: Seq<char>,
                    nonce: Seq<u8>,
                |
                    nonce.len() == NONCE_SIZE && encoded@ == encrypted_text(
                        derived_key(id),
                        nonce,
                        plaintext@,
                    ) && aes_gcm_sealed(derived_key(id), nonce, encode_utf8(plaintext@)).len()
                        == encode_utf8(plaintext@).len() + TAG_SIZE,
                Err(e) => e == CryptoError::KeyDerivation || (e == CryptoError::Encryption
                    && !sealable(plaintext@)),
            },
            outcome matches Ok(encoded) ==> encoded@.len() == (NONCE_SIZE + encode_utf8(
                plaintext@,
            ).len() + TAG_SIZE + 2) / 3 * 4,
            outcome matches Ok(encoded) ==> encoded@.len() == encrypted_len(plaintext@)
                && encoded@ != plaintext@,
    {
        let key = match Self::get_encryption_key() {
            Ok(key) => key,
            Err(e) => {
                return Err(e);
            },
        };
        let nonce = Nonce::random();
        let outcome = Self::encrypt_with(&key, &nonce, plaintext);
        proof {
            if outcome is Ok {
                let id = choose|id: Seq<char>| key@ == derived_key(id);
                assert(nonce@.len() == NONCE_SIZE && outcome->Ok_0@ == encrypted_text(
                    derived_key(id),
                    nonce@,
                    plaintext@,
                ) && aes_gcm_sealed(derived_key(id), nonce@, encode_utf8(plaintext@)).len()
                    == encode_utf8(plaintext@).len() + TAG_SIZE);
            }
        }
        outcome
    }

    /// Decrypts `encoded` under this machine's key.
    pub fn decrypt(encoded: &str) -> (outcome: Result<String, CryptoError>)
        ensures
            outcome matches Err(CryptoError::KeyDerivation) || exists|id: Seq<char>|
                outcome_view(outcome) == decrypted_text(derived_key(id), encoded@),
    {
        let key = match Self::get_encryption_key() {
            Ok(key) => key,
            Err(e) => {
                return Err(e);
            },
        };
        let outcome = Self::decrypt_with(&key, encoded);
        proof {
            let id = choose|id: Seq<char>| key@ == derived_key(id);
            assert(outcome_view(outcome) == decrypted_text(derived_key(id), encoded@));
        }
        outcome
    }
}

} // verus!

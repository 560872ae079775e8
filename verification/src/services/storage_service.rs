//! The secure configuration store.
//!
//! The store keeps the whole configuration as one document. On the way to
//! the document the provider's credential is encrypted; on the way back it
//! is decrypted, and a credential that does not decrypt is taken to be a
//! plaintext from before encryption was introduced. Reading and writing the
//! document itself is left to the caller.

use crate::error::{CryptoError, SaveError};
use crate::models::config::{AppConfig, AppConfigView, ValidationError};
use crate::services::encryption_service::{
    decrypted_text, derived_key, encrypted_len, encrypted_text, sealable, EncryptionKey,
    EncryptionService, Nonce,
};
use crate::services::primitives::{aes_gcm_sealed, NONCE_SIZE, TAG_SIZE};
use vstd::prelude::*;
use vstd::utf8::encode_utf8;

verus! {

/// What the credential of a stored document is, seen with a key.
#[derive(Debug, Clone, Copy, PartialEq, Eq, Structural)]
pub enum CredentialState {
    /// The provider has no credential, or an empty one.
    Absent,
    /// The credential does not decrypt: it was stored before encryption.
    PlaintextLegacy,
    /// The credential decrypts under the key.
    Encrypted,
}

/// The credential of a configuration, where it has one that is not empty.
pub open spec fn credential(config: AppConfigView) -> Option<Seq<char>> {
    match config.llm_provider.api_key() {
        Some(key) => if key.len() > 0 {
            Some(key)
        } else {
            None
        },
        None => None,
    }
}

/// The state of the credential of `stored` under `key`.
pub open spec fn credential_state(stored: AppConfigView, key: Seq<u8>) -> CredentialState {
    match credential(stored) {
        None => CredentialState::Absent,
        Some(text) => if decrypted_text(key, text) is Ok {
            CredentialState::Encrypted
        } else {
            CredentialState::PlaintextLegacy
        },
    }
}

/// The document that is persisted for `config`: the configuration with its
/// credential, where it has one, encrypted under `key` with `nonce`.
pub open spec fn sealed_config(config: AppConfigView, key: Seq<u8>, nonce: Seq<u8>) -> AppConfigView {
    match credential(config) {
        Some(text) => config.with_api_key(encrypted_text(key, nonce, text)),
        None => config,
    }
}

/// The configuration that the document `stored` stands for under `key`: an
/// encrypted credential is decrypted, a legacy plaintext is kept as it is.
pub open spec fn opened_config(stored: AppConfigView, key: Seq<u8>) -> AppConfigView {
    match credential(stored) {
        Some(text) => match decrypted_text(key, text) {
            Ok(plain) => stored.with_api_key(plain),
            Err(_) => stored,
        },
        None => stored,
    }
}

/// The configuration that is loaded from what the store holds: the
/// application's defaults where it holds nothing.
pub open spec fn loaded_config(stored: Option<AppConfig>, key: Seq<u8>) -> AppConfigView {
    match stored {
        Some(document) => opened_config(document@, key),
        None => AppConfigView::initial(),
    }
}

/// What saving `config` under `key` with `nonce` gives: the document to
/// persist, or the reason why nothing may be persisted.
pub open spec fn save_outcome(config: AppConfigView, key: Seq<u8>, nonce: Seq<u8>) -> Result<
    AppConfigView,
    SaveError,
> {
    match config.llm_provider.first_problem() {
        Some(problem) => Err(SaveError::Validation(problem)),
        None => match credential(config) {
            Some(text) => if sealable(text) {
                Ok(sealed_config(config, key, nonce))
            } else {
                Err(SaveError::Crypto(CryptoError::Encryption))
            },
            None => Ok(config),
        },
    }
}

/// `document` is what a successful save of `original` under `key` with
/// `nonce` left in the store: the outcome of the save, in which a credential
/// that was there before is there still.
pub open spec fn saved_from(
    document: AppConfigView,
    original: AppConfigView,
    key: Seq<u8>,
    nonce: Seq<u8>,
) -> bool {
    &&& save_outcome(original, key, nonce) == Ok::<AppConfigView, SaveError>(document)
    &&& credential(original) is Some ==> credential(document) is Some
}

/// The view of the outcome of a save.
pub open spec fn saved_view(outcome: Result<AppConfig, SaveError>) -> Result<
    AppConfigView,
    SaveError,
> {
    match outcome {
        Ok(document) => Ok(document@),
        Err(e) => Err(e),
    }
}

/// Prepares configurations for persisting and restores them after loading.
pub struct StorageService;

impl StorageService {
    /// Checks the provider's required fields. To be called before a
    /// configuration is persisted.
    pub fn validate_config(config: &AppConfig) -> (outcome: Result<(), ValidationError>)
        ensures
            match outcome {
                Ok(_) => config@.llm_provider.first_problem() is None,
                Err(e) => config@.llm_provider.first_problem() == Some(e),
            },
    {
        config.llm_provider.validate()
    }

    /// Whether `config` holds a credential that is not empty.
    pub fn has_credential(config: &AppConfig) -> (present: bool)
        ensures
            present == credential(config@) is Some,
    {
        let mut probe = config.llm_provider.clone();
        match probe.take_api_key() {
            Some(text) => !text.as_str().is_empty(),
            None => false,
        }
    }

    /// The state of the credential of `stored`, seen with `key`.
    pub fn credential_state_with(key: &EncryptionKey, stored: &AppConfig) -> (state: CredentialState)
        ensures
            state == credential_state(stored@, key@),
    {
        let mut probe = stored.llm_provider.clone();
        match probe.take_api_key() {
            Some(text) => {
                if text.as_str().is_empty() {
                    CredentialState::Absent
                } else {
                    match EncryptionService::decrypt_with(key, text.as_str()) {
                        Ok(_) => CredentialState::Encrypted,
                        Err(_) => CredentialState::PlaintextLegacy,
                    }
                }
            },
            None => CredentialState::Absent,
        }
    }

    /// Validates `config` and makes the document that is to be persisted
    /// for it, with the credential encrypted under `key` with `nonce`. A
    /// configuration that is rejected gives no document, so nothing is
    /// written for it. In the document the credential is never what it is
    /// in `config`: it is the encryption, which is not empty.
    pub fn save_config_with(key: &EncryptionKey, nonce: &Nonce, config: &AppConfig) -> (outcome:
        Result<AppConfig, SaveError>)
        ensures
            saved_view(outcome) == save_outcome(config@, key@, nonce@),
            outcome matches Ok(document) ==> saved_from(document@, config@, key@, nonce@),
            outcome matches Ok(document) ==> (credential(config@) matches Some(text)
                ==> credential(document@) == Some(encrypted_text(key@, nonce@, text))),
            outcome matches Ok(document) ==> (credential(config@) is Some ==> credential(
                document@,
            ) != credential(config@)),
            outcome matches Ok(document) ==> (credential(config@) matches Some(text)
                ==> credential(document@)->0.len() == (NONCE_SIZE + encode_utf8(text).len()
                + TAG_SIZE + 2) / 3 * 4 && credential(document@)->0.len() == encrypted_len(text)
                && aes_gcm_sealed(key@, nonce@, encode_utf8(text)).len() == encode_utf8(text).len()
                + TAG_SIZE),
    {
        match Self::validate_config(config) {
            Err(problem) => {
                return Err(SaveError::Validation(problem));
            },
            Ok(_) => {},
        }
        let mut document = config.clone();
        match document.llm_provider.take_api_key() {
            Some(text) => {
                if text.as_str().is_empty() {
                    document.llm_provider.set_api_key(text);
                } else {
                    match EncryptionService::encrypt_with(key, nonce, text.as_str()) {
                        Ok(encrypted) => {
                            document.llm_provider.set_api_key(encrypted);
                        },
                        Err(e) => {
                            return Err(SaveError::Crypto(e));
                        },
                    }
                }
            },
            None => {},
        }
        Ok(document)
    }

    /// Makes the configuration that the stored document stands for, or the
    /// application's defaults where nothing is stored. A credential that
    /// does not decrypt under `key` is kept as it is. What was saved under
    /// the same key, with whatever nonce, is loaded as the configuration it
    /// was saved from.
    pub fn load_config_with(key: &EncryptionKey, stored: Option<AppConfig>) -> (config: AppConfig)
        ensures
            config@ == loaded_config(stored, key@),
            forall|original: AppConfigView, nonce: Seq<u8>|
                stored is Some && nonce.len() == NONCE_SIZE && #[trigger] saved_from(
                    stored->0@,
                    original,
                    key@,
                    nonce,
                ) ==> config@ == original,
    {
        let mut config = match stored {
            Some(document) => document,
            None => AppConfig::default(),
        };
        let ghost before = config@;
        match config.llm_provider.take_api_key() {
            Some(text) => {
                if text.as_str().is_empty() {
                    config.llm_provider.set_api_key(text);
                } else {
                    match EncryptionService::decrypt_with(key, text.as_str()) {
                        Ok(plain) => {
                            config.llm_provider.set_api_key(plain);
                        },
                        Err(_) => {
                            config.llm_provider.set_api_key(text);
                        },
                    }
                }
            },
            None => {},
        }
        proof {
            assert forall|original: AppConfigView, nonce: Seq<u8>|
                stored is Some && nonce.len() == NONCE_SIZE && #[trigger] saved_from(
                    stored->0@,
                    original,
                    key@,
                    nonce,
                ) implies config@ == original by {
                match credential(original) {
                    Some(text) => {
                        assert(sealable(text));
                        assert(before == original.with_api_key(encrypted_text(key@, nonce, text)));
                        assert(credential(before) == Some(encrypted_text(key@, nonce, text)));
                        assert(config@.llm_provider == original.llm_provider);
                    },
                    None => {},
                }
            }
        }
        config
    }

    /// Validates `config` and makes the document that is to be persisted
    /// for it. A configuration that is rejected gives its validation error
    /// and nothing else happens. A configuration without a credential is
    /// its own document: the machine's key is not asked for. Only where
    /// there is a credential is it encrypted, under this machine's key with
    /// a fresh nonce, and only then can the key be missing.
    pub fn save_config(config: &AppConfig) -> (outcome: Result<AppConfig, SaveError>)
        ensures
            config@.llm_provider.first_problem() matches Some(problem) ==> outcome == Err::<
                AppConfig,
                SaveError,
            >(SaveError::Validation(problem)),
            config@.llm_provider.first_problem() is None && credential(config@) is None
                ==> saved_view(outcome) == Ok::<AppConfigView, SaveError>(config@),
            config@.llm_provider.first_problem() is None && credential(config@) is Some ==> (
            outcome matches Err(SaveError::Crypto(CryptoError::KeyDerivation)) || exists|
                id: Seq<char>,
                nonce: Seq<u8>,
            |
                nonce.len() == NONCE_SIZE && saved_view(outcome) == save_outcome(
                    config@,
                    derived_key(id),
                    nonce,
                )),
            outcome matches Ok(document) ==> (credential(config@) is Some ==> credential(
                document@,
            ) != credential(config@)),
            outcome matches Ok(document) ==> (credential(config@) matches Some(text)
                ==> credential(document@)->0.len() == (NONCE_SIZE + encode_utf8(text).len()
                + TAG_SIZE + 2) / 3 * 4 && credential(document@)->0.len() == encrypted_len(text)),
            outcome matches Ok(document) ==> (credential(config@) matches Some(text) ==> exists|
                id: Seq<char>,
                nonce: Seq<u8>,
            |
                nonce.len() == NONCE_SIZE && credential(document@) == Some(
                    encrypted_text(derived_key(id), nonce, text),
                ) && aes_gcm_sealed(derived_key(id), nonce, encode_utf8(text)).len()
                    == encode_utf8(text).len() + TAG_SIZE),
    {
        match Self::validate_config(config) {
            Err(problem) => {
                return Err(SaveError::Validation(problem));
            },
            Ok(_) => {},
        }
        if !Self::has_credential(config) {
            return Ok(config.clone());
        }
        let key = match EncryptionService::get_encryption_key() {
            Ok(key) => key,
            Err(e) => {
                return Err(SaveError::Crypto(e));
            },
        };
        let nonce = Nonce::random();
        let outcome = Self::save_config_with(&key, &nonce, config);
        proof {
            let id = choose|id: Seq<char>| key@ == derived_key(id);
            assert(nonce@.len() == NONCE_SIZE && saved_view(outcome) == save_outcome(
                config@,
                derived_key(id),
                nonce@,
            ));
            if outcome is Ok {
                let text = credential(config@)->0;
                assert(nonce@.len() == NONCE_SIZE && credential(outcome->Ok_0@) == Some(
                    encrypted_text(derived_key(id), nonce@, text),
                ) && aes_gcm_sealed(derived_key(id), nonce@, encode_utf8(text)).len()
                    == encode_utf8(text).len() + TAG_SIZE);
            }
        }
        outcome
    }

    /// Makes the configuration that the stored document stands for, or the
    /// application's defaults where nothing is stored. A document without
    /// a credential is returned as it is: the machine's key is not asked
    /// for. A credential is decrypted with this machine's key; where it
    /// does not decrypt, or the machine has no identifier, the document is
    /// returned as it is. Loading never fails.
    pub fn load_config(stored: Option<AppConfig>) -> (config: AppConfig)
        ensures
            stored is None ==> config@ == AppConfigView::initial(),
            stored matches Some(document) ==> (credential(document@) is None ==> config@
                == document@),
            stored matches Some(document) ==> (config@ == document@ || exists|id: Seq<char>|
                config@ == opened_config(document@, derived_key(id))),
            (exists|id: Seq<char>| config@ == loaded_config(stored, derived_key(id))) || config@
                == match stored {
                Some(document) => document@,
                None => AppConfigView::initial(),
            },
    {
        let document = match stored {
            Some(document) => document,
            None => {
                return AppConfig::default();
            },
        };
        if !Self::has_credential(&document) {
            return document;
        }
        match EncryptionService::get_encryption_key() {
            Ok(key) => {
                let config = Self::load_config_with(&key, Some(document));
                proof {
                    let id = choose|id: Seq<char>| key@ == derived_key(id);
                    assert(config@ == loaded_config(stored, derived_key(id)));
                    assert(config@ == opened_config(document@, derived_key(id)));
                }
                config
            },
            Err(_) => document,
        }
    }
}

/// A document whose credential is a plaintext from before encryption is
/// loaded unchanged, and the next save of what was loaded stores the
/// credential encrypted.
pub proof fn lemma_legacy_migration(stored: AppConfigView, key: Seq<u8>, nonce: Seq<u8>)
    requires
        credential_state(stored, key) == CredentialState::PlaintextLegacy,
    ensures
        opened_config(stored, key) == stored,
        stored.llm_provider.first_problem() is None && sealable(credential(stored)->0)
            ==> save_outcome(opened_config(stored, key), key, nonce) == Ok::<
            AppConfigView,
            SaveError,
        >(stored.with_api_key(encrypted_text(key, nonce, credential(stored)->0))),
{
}

/// A document whose credential decrypts is loaded with the plaintext in its
/// place, and a document without a credential is loaded as it is.
pub proof fn lemma_load_by_state(stored: AppConfigView, key: Seq<u8>)
    ensures
        credential_state(stored, key) == CredentialState::Absent ==> opened_config(stored, key)
            == stored,
        credential_state(stored, key) == CredentialState::Encrypted ==> opened_config(stored, key)
            == stored.with_api_key(decrypted_text(key, credential(stored)->0)->Ok_0),
{
}

} // verus!

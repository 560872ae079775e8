use base64::Engine;
use gitlog_ai_reporter::error::{CryptoError, SaveError};
use gitlog_ai_reporter::models::{AppConfig, ExportFormat, LLMProvider, ProxyConfig, ValidationError};
use gitlog_ai_reporter::services::{
    CredentialState, EncryptionKey, EncryptionService, Nonce, StorageService,
};

fn store_key() -> EncryptionKey {
    EncryptionKey::from_bytes(vec![11; 32]).unwrap()
}

fn store_nonce(fill: u8) -> Nonce {
    Nonce::from_bytes(vec![fill; 12]).unwrap()
}

fn config_with(provider: LLMProvider) -> AppConfig {
    AppConfig {
        llm_provider: provider,
        proxy_config: ProxyConfig { enabled: true, url: "http://127.0.0.1:7890".to_string() },
        export_format: ExportFormat::Html,
        timezone: "Asia/Shanghai".to_string(),
    }
}

fn openai(api_key: &str) -> AppConfig {
    config_with(LLMProvider::OpenAI {
        api_key: api_key.to_string(),
        base_url: "https://api.openai.com/v1".to_string(),
    })
}

fn api_key_of(config: &AppConfig) -> Option<String> {
    config.llm_provider.clone().take_api_key()
}

#[test]
fn saved_document_holds_the_credential_encrypted() {
    let config = openai("sk-1234567890abcdef");
    let document =
        StorageService::save_config_with(&store_key(), &store_nonce(1), &config).unwrap();
    let stored = api_key_of(&document).unwrap();
    assert_ne!(stored, "sk-1234567890abcdef");
    assert_eq!(
        stored,
        EncryptionService::encrypt_with(&store_key(), &store_nonce(1), "sk-1234567890abcdef")
            .unwrap()
    );
    assert_eq!(document.proxy_config, config.proxy_config);
    assert_eq!(document.export_format, ExportFormat::Html);
    assert_eq!(document.timezone, "Asia/Shanghai");
    assert_eq!(
        document.llm_provider,
        LLMProvider::OpenAI { api_key: stored, base_url: "https://api.openai.com/v1".to_string() }
    );
}

#[test]
fn saved_configuration_is_loaded_as_it_was() {
    for config in [
        openai("sk-1234567890abcdef"),
        config_with(LLMProvider::DeepSeek { api_key: "ds-key".to_string() }),
        config_with(LLMProvider::Local { model_path: "/models/m.gguf".to_string() }),
    ] {
        let document =
            StorageService::save_config_with(&store_key(), &store_nonce(2), &config).unwrap();
        let loaded = StorageService::load_config_with(&store_key(), Some(document));
        assert_eq!(loaded, config);
    }
}

#[test]
fn machine_key_round_trip() {
    let config = openai("sk-1234567890abcdef");
    let document = StorageService::save_config(&config).unwrap();
    assert_ne!(api_key_of(&document).unwrap(), "sk-1234567890abcdef");
    assert_eq!(StorageService::load_config(Some(document)), config);
}

#[test]
fn two_saves_store_different_credentials() {
    let config = openai("sk-1234567890abcdef");
    let first = StorageService::save_config(&config).unwrap();
    let second = StorageService::save_config(&config).unwrap();
    assert_ne!(api_key_of(&first), api_key_of(&second));
}

#[test]
fn legacy_plaintext_is_loaded_unchanged_and_encrypted_on_the_next_save() {
    let legacy = openai("sk-plain-legacy-key");
    assert_eq!(
        StorageService::credential_state_with(&store_key(), &legacy),
        CredentialState::PlaintextLegacy
    );
    let loaded = StorageService::load_config_with(&store_key(), Some(legacy.clone()));
    assert_eq!(loaded, legacy);

    let document =
        StorageService::save_config_with(&store_key(), &store_nonce(3), &loaded).unwrap();
    assert_ne!(api_key_of(&document).unwrap(), "sk-plain-legacy-key");
    assert_eq!(
        StorageService::credential_state_with(&store_key(), &document),
        CredentialState::Encrypted
    );
    assert_eq!(StorageService::load_config_with(&store_key(), Some(document)), legacy);
}

#[test]
fn legacy_plaintext_with_the_machine_key() {
    let legacy = config_with(LLMProvider::DeepSeek { api_key: "plain".to_string() });
    assert_eq!(StorageService::load_config(Some(legacy.clone())), legacy);
}

#[test]
fn credential_under_another_key_is_kept_as_it_is() {
    let document =
        StorageService::save_config_with(&store_key(), &store_nonce(4), &openai("sk-secret"))
            .unwrap();
    let other = EncryptionKey::from_bytes(vec![12; 32]).unwrap();
    let loaded = StorageService::load_config_with(&other, Some(document.clone()));
    assert_eq!(loaded, document);
}

#[test]
fn nothing_stored_gives_the_defaults() {
    let loaded = StorageService::load_config_with(&store_key(), None);
    assert_eq!(loaded, AppConfig::default());
    assert_eq!(StorageService::load_config(None), AppConfig::default());
    assert_eq!(
        loaded.llm_provider,
        LLMProvider::OpenAI {
            api_key: String::new(),
            base_url: "https://api.openai.com/v1".to_string()
        }
    );
    assert_eq!(loaded.proxy_config, ProxyConfig { enabled: false, url: String::new() });
    assert_eq!(loaded.export_format, ExportFormat::Markdown);
    assert_eq!(loaded.timezone, "UTC");
}

#[test]
fn empty_credential_is_absent_and_stays_empty() {
    let stored = openai("");
    assert_eq!(
        StorageService::credential_state_with(&store_key(), &stored),
        CredentialState::Absent
    );
    assert_eq!(StorageService::load_config_with(&store_key(), Some(stored.clone())), stored);
    let local = config_with(LLMProvider::Local { model_path: "/m".to_string() });
    assert_eq!(
        StorageService::credential_state_with(&store_key(), &local),
        CredentialState::Absent
    );
}

#[test]
fn rejected_configuration_gives_no_document() {
    assert_eq!(
        StorageService::save_config_with(&store_key(), &store_nonce(5), &openai("")),
        Err(SaveError::Validation(ValidationError::MissingApiKey))
    );
    assert_eq!(
        StorageService::save_config(&config_with(LLMProvider::Local { model_path: String::new() })),
        Err(SaveError::Validation(ValidationError::MissingModelPath))
    );
}

#[test]
fn each_provider_needs_its_fields() {
    let check = |provider: LLMProvider| StorageService::validate_config(&config_with(provider));
    assert_eq!(
        check(LLMProvider::OpenAI { api_key: String::new(), base_url: "u".to_string() }),
        Err(ValidationError::MissingApiKey)
    );
    assert_eq!(
        check(LLMProvider::OpenAI { api_key: String::new(), base_url: String::new() }),
        Err(ValidationError::MissingApiKey)
    );
    assert_eq!(
        check(LLMProvider::OpenAI { api_key: "k".to_string(), base_url: String::new() }),
        Err(ValidationError::MissingBaseUrl)
    );
    assert_eq!(
        check(LLMProvider::OpenAI { api_key: "k".to_string(), base_url: "u".to_string() }),
        Ok(())
    );
    assert_eq!(
        check(LLMProvider::DeepSeek { api_key: String::new() }),
        Err(ValidationError::MissingApiKey)
    );
    assert_eq!(check(LLMProvider::DeepSeek { api_key: "k".to_string() }), Ok(()));
    assert_eq!(
        check(LLMProvider::Local { model_path: String::new() }),
        Err(ValidationError::MissingModelPath)
    );
    assert_eq!(check(LLMProvider::Local { model_path: "/m".to_string() }), Ok(()));
}

#[test]
fn validation_errors_describe_themselves() {
    assert_eq!(ValidationError::MissingApiKey.message(), "API key is required");
    assert_eq!(ValidationError::MissingBaseUrl.message(), "Base URL is required");
    assert_eq!(ValidationError::MissingModelPath.message(), "Model path is required");
}

#[test]
fn taking_and_setting_the_credential() {
    let mut provider =
        LLMProvider::OpenAI { api_key: "k".to_string(), base_url: "u".to_string() };
    assert_eq!(provider.take_api_key(), Some("k".to_string()));
    assert_eq!(
        provider,
        LLMProvider::OpenAI { api_key: String::new(), base_url: "u".to_string() }
    );
    assert_eq!(provider.take_api_key(), Some(String::new()));
    provider.set_api_key("n".to_string());
    assert_eq!(provider, LLMProvider::OpenAI { api_key: "n".to_string(), base_url: "u".to_string() });

    let mut deepseek = LLMProvider::DeepSeek { api_key: "d".to_string() };
    assert_eq!(deepseek.take_api_key(), Some("d".to_string()));
    deepseek.set_api_key("e".to_string());
    assert_eq!(deepseek, LLMProvider::DeepSeek { api_key: "e".to_string() });

    let mut local = LLMProvider::Local { model_path: "/m".to_string() };
    assert_eq!(local.take_api_key(), None);
    local.set_api_key("ignored".to_string());
    assert_eq!(local, LLMProvider::Local { model_path: "/m".to_string() });
}

#[test]
fn configuration_without_a_secret_is_saved_as_it_is() {
    let local = config_with(LLMProvider::Local { model_path: "/models/m.gguf".to_string() });
    assert_eq!(StorageService::save_config(&local), Ok(local.clone()));
    assert_eq!(
        StorageService::save_config_with(&store_key(), &store_nonce(6), &local),
        Ok(local.clone())
    );
    assert!(!StorageService::has_credential(&local));
    assert!(!StorageService::has_credential(&openai("")));
    assert!(StorageService::has_credential(&openai("k")));
}

#[test]
fn rejected_configuration_returns_its_validation_error() {
    assert_eq!(
        StorageService::save_config(&openai("")),
        Err(SaveError::Validation(ValidationError::MissingApiKey))
    );
    assert_eq!(
        StorageService::save_config(&config_with(LLMProvider::OpenAI {
            api_key: "k".to_string(),
            base_url: String::new()
        })),
        Err(SaveError::Validation(ValidationError::MissingBaseUrl))
    );
    assert_eq!(
        StorageService::save_config(&config_with(LLMProvider::DeepSeek { api_key: String::new() })),
        Err(SaveError::Validation(ValidationError::MissingApiKey))
    );
}

#[test]
fn stored_credential_is_nonce_ciphertext_and_tag() {
    for secret in ["k", "sk-1234567890abcdef", "密钥🔑"] {
        let config = config_with(LLMProvider::DeepSeek { api_key: secret.to_string() });
        for document in [
            StorageService::save_config(&config).unwrap(),
            StorageService::save_config_with(&store_key(), &store_nonce(7), &config).unwrap(),
        ] {
            let stored = api_key_of(&document).unwrap();
            assert_ne!(stored, secret);
            let payload = base64::engine::general_purpose::STANDARD.decode(&stored).unwrap();
            assert_eq!(payload.len(), secret.len() + 28);
            assert_eq!(stored.len(), (secret.len() + 28 + 2) / 3 * 4);
        }
    }
}

#[test]
fn document_without_credential_is_loaded_as_it_is() {
    let local = config_with(LLMProvider::Local { model_path: "/m".to_string() });
    assert_eq!(StorageService::load_config(Some(local.clone())), local);
    let empty = openai("");
    assert_eq!(StorageService::load_config(Some(empty.clone())), empty);
}

#[test]
fn save_errors_describe_themselves() {
    assert_eq!(
        SaveError::Validation(ValidationError::MissingApiKey).message(),
        "API key is required"
    );
    assert_eq!(
        SaveError::Validation(ValidationError::MissingModelPath).message(),
        "Model path is required"
    );
    assert_eq!(SaveError::Crypto(CryptoError::KeyDerivation).message(), "Failed to get machine ID");
    assert_eq!(SaveError::Crypto(CryptoError::Encryption).message(), "Encryption failed");
}

#[test]
fn crypto_failure_is_a_storage_error() {
    let error = SaveError::Crypto(CryptoError::Encryption);
    assert_ne!(error, SaveError::Validation(ValidationError::MissingApiKey));
}

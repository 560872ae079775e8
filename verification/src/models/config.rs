//! Application configuration and provider credentials.

use vstd::prelude::*;

verus! {

/// The provider a report is generated with, and what is needed to reach it.
#[derive(Debug, PartialEq, Eq)]
pub enum LLMProvider {
    OpenAI { api_key: String, base_url: String },
    DeepSeek { api_key: String },
    Local { model_path: String },
}

/// Mathematical model of an [`LLMProvider`].
pub ghost enum LLMProviderView {
    OpenAI { api_key: Seq<char>, base_url: Seq<char> },
    DeepSeek { api_key: Seq<char> },
    Local { model_path: Seq<char> },
}

/// Why a provider configuration is rejected.
#[derive(Debug, Clone, Copy, PartialEq, Eq, Structural)]
pub enum ValidationError {
    /// A provider that needs an API key has an empty one.
    MissingApiKey,
    /// The OpenAI provider has an empty base URL.
    MissingBaseUrl,
    /// The local provider has an empty model path.
    MissingModelPath,
}

impl ValidationError {
    /// The sentence that describes the error.
    pub open spec fn text(self) -> Seq<char> {
        match self {
            ValidationError::MissingApiKey => "API key is required"@,
            ValidationError::MissingBaseUrl => "Base URL is required"@,
            ValidationError::MissingModelPath => "Model path is required"@,
        }
    }

    /// A sentence that describes the error.
    pub fn message(&self) -> (text: String)
        ensures
            text@ == self.text(),
    {
        match self {
            ValidationError::MissingApiKey => String::from_str("API key is required"),
            ValidationError::MissingBaseUrl => String::from_str("Base URL is required"),
            ValidationError::MissingModelPath => String::from_str("Model path is required"),
        }
    }
}

impl LLMProviderView {
    /// The credential the provider carries; `None` for a provider without one.
    pub open spec fn api_key(self) -> Option<Seq<char>> {
        match self {
            LLMProviderView::OpenAI { api_key, .. } => Some(api_key),
            LLMProviderView::DeepSeek { api_key } => Some(api_key),
            LLMProviderView::Local { .. } => None,
        }
    }

    /// The same provider with `key` as its credential; a provider without a
    /// credential is unchanged.
    pub open spec fn with_api_key(self, key: Seq<char>) -> LLMProviderView {
        match self {
            LLMProviderView::OpenAI { api_key, base_url } => LLMProviderView::OpenAI {
                api_key: key,
                base_url,
            },
            LLMProviderView::DeepSeek { api_key } => LLMProviderView::DeepSeek { api_key: key },
            LLMProviderView::Local { model_path } => LLMProviderView::Local { model_path },
        }
    }

    /// The first required field that is empty, if any.
    pub open spec fn first_problem(self) -> Option<ValidationError> {
        match self {
            LLMProviderView::OpenAI { api_key, base_url } => if api_key.len() == 0 {
                Some(ValidationError::MissingApiKey)
            } else if base_url.len() == 0 {
                Some(ValidationError::MissingBaseUrl)
            } else {
                None
            },
            LLMProviderView::DeepSeek { api_key } => if api_key.len() == 0 {
                Some(ValidationError::MissingApiKey)
            } else {
                None
            },
            LLMProviderView::Local { model_path } => if model_path.len() == 0 {
                Some(ValidationError::MissingModelPath)
            } else {
                None
            },
        }
    }
}

impl View for LLMProvider {
    type V = LLMProviderView;

    open spec fn view(&self) -> LLMProviderView {
        match *self {
            LLMProvider::OpenAI { api_key, base_url } => LLMProviderView::OpenAI {
                api_key: api_key@,
                base_url: base_url@,
            },
            LLMProvider::DeepSeek { api_key } => LLMProviderView::DeepSeek { api_key: api_key@ },
            LLMProvider::Local { model_path } => LLMProviderView::Local { model_path: model_path@ },
        }
    }
}

impl Clone for LLMProvider {
    fn clone(&self) -> (copy: Self)
        ensures
            copy == *self,
    {
        match self {
            LLMProvider::OpenAI { api_key, base_url } => LLMProvider::OpenAI {
                api_key: api_key.clone(),
                base_url: base_url.clone(),
            },
            LLMProvider::DeepSeek { api_key } => LLMProvider::DeepSeek { api_key: api_key.clone() },
            LLMProvider::Local { model_path } => LLMProvider::Local {
                model_path: model_path.clone(),
            },
        }
    }
}

impl LLMProvider {
    /// Removes the credential and returns it, leaving an empty one behind.
    /// A provider without a credential is unchanged and gives `None`.
    pub fn take_api_key(&mut self) -> (key: Option<String>)
        ensures
            match key {
                Some(k) => old(self)@.api_key() == Some(k@),
                None => old(self)@.api_key() is None,
            },
            final(self)@ == old(self)@.with_api_key(Seq::empty()),
    {
        match self {
            LLMProvider::OpenAI { api_key, .. } => {
                let key = api_key.clone();
                *api_key = String::new();
                Some(key)
            },
            LLMProvider::DeepSeek { api_key } => {
                let key = api_key.clone();
                *api_key = String::new();
                Some(key)
            },
            LLMProvider::Local { .. } => None,
        }
    }

    /// Replaces the credential by `key`. A provider without a credential is
    /// unchanged.
    pub fn set_api_key(&mut self, key: String)
        ensures
            final(self)@ == old(self)@.with_api_key(key@),
    {
        match self {
            LLMProvider::OpenAI { api_key, .. } => {
                *api_key = key;
            },
            LLMProvider::DeepSeek { api_key } => {
                *api_key = key;
            },
            LLMProvider::Local { .. } => {},
        }
    }

    /// Checks that every field the provider needs is present.
    pub fn validate(&self) -> (outcome: Result<(), ValidationError>)
        ensures
            match outcome {
                Ok(_) => self@.first_problem() is None,
                Err(e) => self@.first_problem() == Some(e),
            },
    {
        match self {
            LLMProvider::OpenAI { api_key, base_url } => {
                if api_key.as_str().is_empty() {
                    Err(ValidationError::MissingApiKey)
                } else if base_url.as_str().is_empty() {
                    Err(ValidationError::MissingBaseUrl)
                } else {
                    Ok(())
                }
            },
            LLMProvider::DeepSeek { api_key } => {
                if api_key.as_str().is_empty() {
                    Err(ValidationError::MissingApiKey)
                } else {
                    Ok(())
                }
            },
            LLMProvider::Local { model_path } => {
                if model_path.as_str().is_empty() {
                    Err(ValidationError::MissingModelPath)
                } else {
                    Ok(())
                }
            },
        }
    }
}

/// The provider part of a configuration.
#[derive(Debug, PartialEq, Eq)]
pub struct LLMConfig {
    pub provider: LLMProvider,
}

impl Clone for LLMConfig {
    fn clone(&self) -> (copy: Self)
        ensures
            copy == *self,
    {
        LLMConfig { provider: self.provider.clone() }
    }
}

/// How outgoing requests are routed.
#[derive(Debug, PartialEq, Eq)]
pub struct ProxyConfig {
    pub enabled: bool,
    pub url: String,
}

/// Mathematical model of a [`ProxyConfig`].
pub ghost struct ProxyConfigView {
    pub enabled: bool,
    pub url: Seq<char>,
}

impl View for ProxyConfig {
    type V = ProxyConfigView;

    open spec fn view(&self) -> ProxyConfigView {
        ProxyConfigView { enabled: self.enabled, url: self.url@ }
    }
}

impl Clone for ProxyConfig {
    fn clone(&self) -> (copy: Self)
        ensures
            copy == *self,
    {
        ProxyConfig { enabled: self.enabled, url: self.url.clone() }
    }
}

/// The file format a report is exported to.
#[derive(Debug, Clone, Copy, PartialEq, Eq, Structural)]
pub enum ExportFormat {
    Markdown,
    Html,
    Pdf,
}

/// The application's configuration. Only the provider's credential is
/// encrypted when the configuration is persisted.
#[derive(Debug, PartialEq, Eq)]
pub struct AppConfig {
    pub llm_provider: LLMProvider,
    pub proxy_config: ProxyConfig,
    pub export_format: ExportFormat,
    pub timezone: String,
}

/// Mathematical model of an [`AppConfig`].
pub ghost struct AppConfigView {
    pub llm_provider: LLMProviderView,
    pub proxy_config: ProxyConfigView,
    pub export_format: ExportFormat,
    pub timezone: Seq<char>,
}

impl AppConfigView {
    /// The same configuration with `key` as the provider's credential.
    pub open spec fn with_api_key(self, key: Seq<char>) -> AppConfigView {
        AppConfigView { llm_provider: self.llm_provider.with_api_key(key), ..self }
    }

    /// The configuration used when none was ever saved.
    pub open spec fn initial() -> AppConfigView {
        AppConfigView {
            llm_provider: LLMProviderView::OpenAI {
                api_key: Seq::empty(),
                base_url: "https://api.openai.com/v1"@,
            },
            proxy_config: ProxyConfigView { enabled: false, url: Seq::empty() },
            export_format: ExportFormat::Markdown,
            timezone: "UTC"@,
        }
    }
}

impl View for AppConfig {
    type V = AppConfigView;

    open spec fn view(&self) -> AppConfigView {
        AppConfigView {
            llm_provider: self.llm_provider@,
            proxy_config: self.proxy_config@,
            export_format: self.export_format,
            timezone: self.timezone@,
        }
    }
}

impl Clone for AppConfig {
    fn clone(&self) -> (copy: Self)
        ensures
            copy == *self,
    {
        AppConfig {
            llm_provider: self.llm_provider.clone(),
            proxy_config: self.proxy_config.clone(),
            export_format: self.export_format,
            timezone: self.timezone.clone(),
        }
    }
}

impl Default for AppConfig {
    fn default() -> (config: Self)
        ensures
            config@ == AppConfigView::initial(),
    {
        AppConfig {
            llm_provider: LLMProvider::OpenAI {
                api_key: String::new(),
                base_url: String::from_str("https://api.openai.com/v1"),
            },
            proxy_config: ProxyConfig { enabled: false, url: String::new() },
            export_format: ExportFormat::Markdown,
            timezone: String::from_str("UTC"),
        }
    }
}

} // verus!

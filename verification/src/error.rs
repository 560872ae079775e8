//! The failures the services report.

use vstd::prelude::*;

verus! {

/// A request that cannot be served because of what was passed in.
#[derive(Debug, Clone, Copy, PartialEq, Eq, Structural)]
pub enum InputError {
    /// No repository group was given.
    NoRepositories,
    /// The repository groups hold no commit at all.
    NoCommits,
    /// The reporting window starts after it ends.
    InvalidDateWindow,
    /// A date is not of the form `YYYY-MM-DD`, or lies beyond what a
    /// timestamp can hold.
    InvalidDate,
}

impl InputError {
    /// The sentence that describes the error.
    pub open spec fn text(self) -> Seq<char> {
        match self {
            InputError::NoRepositories => "No repositories provided for report generation"@,
            InputError::NoCommits => "No commits provided for report generation"@,
            InputError::InvalidDateWindow => "The start date is after the end date"@,
            InputError::InvalidDate => "The date is not of the form YYYY-MM-DD"@,
        }
    }

    /// A sentence that describes the error.
    pub fn message(&self) -> (text: String)
        ensures
            text@ == self.text(),
    {
        match self {
            InputError::NoRepositories => String::from_str(
                "No repositories provided for report generation",
            ),
            InputError::NoCommits => String::from_str("No commits provided for report generation"),
            InputError::InvalidDateWindow => String::from_str(
                "The start date is after the end date",
            ),
            InputError::InvalidDate => String::from_str("The date is not of the form YYYY-MM-DD"),
        }
    }
}

/// Why a credential could not be encrypted or decrypted.
#[derive(Debug, Clone, Copy, PartialEq, Eq, Structural)]
pub enum CryptoError {
    /// The machine's identifier, from which the key is derived, is unavailable.
    KeyDerivation,
    /// The plaintext is too long to be sealed and encoded.
    Encryption,
    /// The text is not base64.
    Encoding,
    /// The decoded payload is shorter than a nonce.
    TooShort,
    /// The authentication tag does not match the payload.
    Authentication,
    /// The decrypted bytes are not UTF-8 text.
    NotText,
}

impl CryptoError {
    /// The sentence that describes the error.
    pub open spec fn text(self) -> Seq<char> {
        match self {
            CryptoError::KeyDerivation => "Failed to get machine ID"@,
            CryptoError::Encryption => "Encryption failed"@,
            CryptoError::Encoding => "Base64 decode failed"@,
            CryptoError::TooShort => "Invalid encrypted data"@,
            CryptoError::Authentication => "Decryption failed"@,
            CryptoError::NotText => "UTF-8 decode failed"@,
        }
    }

    /// A sentence that describes the error.
    pub fn message(&self) -> (text: String)
        ensures
            text@ == self.text(),
    {
        match self {
            CryptoError::KeyDerivation => String::from_str("Failed to get machine ID"),
            CryptoError::Encryption => String::from_str("Encryption failed"),
            CryptoError::Encoding => String::from_str("Base64 decode failed"),
            CryptoError::TooShort => String::from_str("Invalid encrypted data"),
            CryptoError::Authentication => String::from_str("Decryption failed"),
            CryptoError::NotText => String::from_str("UTF-8 decode failed"),
        }
    }
}

/// Why no prompt could be made from a template.
#[derive(Debug, PartialEq, Eq)]
pub enum TemplateError {
    /// The template store knows no template of the requested id, or has no
    /// default for the report's kind. Holds the store's message.
    NotFound { message: String },
    /// The template engine could not render the template. Holds the
    /// engine's message.
    Render { message: String },
}

impl TemplateError {
    /// The sentence that describes the error: a fixed opening and the
    /// message the error holds.
    pub open spec fn text(self) -> Seq<char> {
        match self {
            TemplateError::NotFound { message } => "Template not found: "@ + message@,
            TemplateError::Render { message } => "Template rendering error: "@ + message@,
        }
    }

    /// A sentence that describes the error.
    pub fn message(&self) -> (text: String)
        ensures
            text@ == self.text(),
    {
        match self {
            TemplateError::NotFound { message } => {
                let mut text = String::from_str("Template not found: ");
                text.append(message.as_str());
                text
            },
            TemplateError::Render { message } => {
                let mut text = String::from_str("Template rendering error: ");
                text.append(message.as_str());
                text
            },
        }
    }
}

/// Why the provider gave no report.
#[derive(Debug, PartialEq, Eq)]
pub enum ProviderError {
    /// The connection, the provider or its stream failed. Holds what the
    /// transport said.
    Stream { message: String },
    /// The stream ended without any text.
    EmptyStream,
    /// The consumer of the progress stopped listening; the stream was
    /// aborted.
    Cancelled,
    /// An event arrived that the generation was not waiting for.
    OutOfTurn,
}

impl ProviderError {
    /// The sentence that describes the error.
    pub open spec fn text(self) -> Seq<char> {
        match self {
            ProviderError::Stream { message } => "Provider error: "@ + message@,
            ProviderError::EmptyStream => "The provider returned no content"@,
            ProviderError::Cancelled => "The generation was cancelled"@,
            ProviderError::OutOfTurn => "Unexpected event for the generation"@,
        }
    }

    /// A sentence that describes the error.
    pub fn message(&self) -> (text: String)
        ensures
            text@ == self.text(),
    {
        match self {
            ProviderError::Stream { message } => {
                let mut text = String::from_str("Provider error: ");
                text.append(message.as_str());
                text
            },
            ProviderError::EmptyStream => String::from_str("The provider returned no content"),
            ProviderError::Cancelled => String::from_str("The generation was cancelled"),
            ProviderError::OutOfTurn => String::from_str("Unexpected event for the generation"),
        }
    }
}

/// Why a report could not be generated.
#[derive(Debug, PartialEq, Eq)]
pub enum ReportError {
    Input(InputError),
    Template(TemplateError),
    Provider(ProviderError),
}

impl ReportError {
    /// The sentence that describes the error: that of the error it holds.
    pub open spec fn text(self) -> Seq<char> {
        match self {
            ReportError::Input(e) => e.text(),
            ReportError::Template(e) => e.text(),
            ReportError::Provider(e) => e.text(),
        }
    }

    /// A sentence that describes the error.
    pub fn message(&self) -> (text: String)
        ensures
            text@ == self.text(),
    {
        match self {
            ReportError::Input(e) => e.message(),
            ReportError::Template(e) => e.message(),
            ReportError::Provider(e) => e.message(),
        }
    }
}

/// Why no document was made for a configuration that was to be saved.
/// Failures of the store itself are not among them: the store is not part
/// of this crate.
#[derive(Debug, Clone, Copy, PartialEq, Eq, Structural)]
pub enum SaveError {
    /// The provider's configuration is not valid.
    Validation(crate::models::config::ValidationError),
    /// The credential could not be encrypted.
    Crypto(CryptoError),
}

impl SaveError {
    /// The sentence that describes the error: that of the error it holds.
    pub open spec fn text(self) -> Seq<char> {
        match self {
            SaveError::Validation(e) => e.text(),
            SaveError::Crypto(e) => e.text(),
        }
    }

    /// A sentence that describes the error.
    pub fn message(&self) -> (text: String)
        ensures
            text@ == self.text(),
    {
        match self {
            SaveError::Validation(e) => e.message(),
            SaveError::Crypto(e) => e.message(),
        }
    }
}

} // verus!

//! The provider a report is generated with.

use crate::models::commit::Commit;
use crate::models::config::{LLMProvider, LLMProviderView};
use vstd::prelude::*;

verus! {

/// Holds the provider that prompts are sent to.
#[derive(Debug)]
pub struct LLMService {
    provider: LLMProvider,
}

impl View for LLMService {
    type V = LLMProviderView;

    closed spec fn view(&self) -> LLMProviderView {
        self.provider@
    }
}

impl LLMService {
    /// A service for `provider`.
    pub fn new(provider: LLMProvider) -> (service: Self)
        ensures
            service@ == provider@,
    {
        LLMService { provider }
    }

    /// The report for `commits` under `template`. The provider is not asked
    /// here: a generation is driven step by step, and this function stands
    /// for its result with a fixed text.
    pub fn generate_report(&self, commits: &[Commit], template: &str) -> (outcome: Result<
        String,
        String,
    >)
        ensures
            outcome matches Ok(text) && text@ == "Generated report placeholder"@,
    {
        Ok(String::from_str("Generated report placeholder"))
    }

    /// The commit message `original`, improved. No improvement is made
    /// yet: the message comes back as it is.
    pub fn optimize_commit_msg(&self, original: &str) -> (outcome: Result<String, String>)
        ensures
            outcome matches Ok(text) && text@ == original@,
    {
        Ok(String::from_str(original))
    }

    /// The provider the service was made for.
    pub fn provider(&self) -> (provider: &LLMProvider)
        ensures
            provider@ == self@,
    {
        &self.provider
    }
}

} // verus!

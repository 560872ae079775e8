//! Data model shared by all services.

pub mod commit;
pub mod config;
pub mod report;

pub use commit::{Commit, CommitView, RepoInfo, RepoStats};
pub use config::{
    AppConfig, AppConfigView, ExportFormat, LLMConfig, LLMProvider, LLMProviderView, ProxyConfig,
    ProxyConfigView, ValidationError,
};
pub use report::{RepoGroup, RepoGroupView, Report, ReportType, ReportView};

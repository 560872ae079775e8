//! The services built on the data model.

pub mod aggregator;
pub mod calendar;
pub mod date_window;
pub mod encryption_service;
pub mod export_service;
pub mod generation;
pub mod git_service;
pub mod llm_service;
pub mod markdown;
pub mod primitives;
pub mod prompt;
pub mod report_service;
pub mod storage_service;
pub mod template_data;
pub mod template_text;
pub mod text;

pub use aggregator::{CommitAggregator, ReportStats};
pub use encryption_service::{EncryptionKey, EncryptionService, Nonce};
pub use export_service::{build_html_document, report_type_to_chinese, ExportService};
pub use git_service::{collect_repo_group, GitService};
pub use llm_service::LLMService;
pub use storage_service::StorageService;
pub use date_window::{check_window, parse_date_end, parse_date_start, parse_window};
pub use generation::{Action, Event, Generation, Phase};
pub use prompt::{CommitEntry, GroupEntry, PromptContext};
pub use report_service::ReportService;
pub use storage_service::CredentialState;

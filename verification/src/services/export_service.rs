//! Rendering a finished report as a document.
//!
//! The documents are made here; writing them to a file is left to the
//! caller.

use crate::models::commit::Commit;
use crate::models::report::{Report, ReportType};
use crate::services::calendar::{format_utc, utc_text, DATE_TIME_PATTERN};
use crate::services::markdown::{html_of_markdown, markdown_to_html};
use crate::services::prompt::SHORT_HASH_LEN;
use crate::services::text::{decimal, decimal_string, ends_with, leading, prefix};
use vstd::prelude::*;

verus! {

/// The extension of a Markdown file.
pub const MARKDOWN_EXTENSION: &'static str = ".md";

/// The extension of an HTML file.
pub const HTML_EXTENSION: &'static str = ".html";

/// The page up to its title.
pub const PAGE_OPENING: &'static str = "<!DOCTYPE html>\n<html lang=\"zh-CN\">\n<head>\n    <meta charset=\"UTF-8\">\n    <meta name=\"viewport\" content=\"width=device-width, initial-scale=1.0\">\n    <title>";

/// What stands between the two halves of the title.
pub const PAGE_TITLE_SEPARATOR: &'static str = " - ";

/// The rest of the head, the style sheet, and the page down to the badge.
pub const PAGE_STYLE_AND_BADGE: &'static str = "</title>\n    <style>\n        /* GitHub Markdown 风格 */\n        body {\n            font-family: -apple-system, BlinkMacSystemFont, \"Segoe UI\", \"Noto Sans\", Helvetica, Arial, sans-serif;\n            font-size: 16px;\n            line-height: 1.6;\n            color: #24292f;\n            background-color: #ffffff;\n            max-width: 980px;\n            margin: 0 auto;\n            padding: 45px;\n        }\n\n        .header {\n            border-bottom: 1px solid #d0d7de;\n            padding-bottom: 16px;\n            margin-bottom: 32px;\n        }\n\n        .header h1 {\n            font-size: 32px;\n            font-weight: 600;\n            margin: 0 0 8px 0;\n            color: #0969da;\n        }\n\n        .metadata {\n            font-size: 14px;\n            color: #57606a;\n            margin: 8px 0;\n        }\n\n        .metadata strong {\n            font-weight: 600;\n            color: #24292f;\n        }\n\n        h1, h2, h3, h4, h5, h6 {\n            margin-top: 24px;\n            margin-bottom: 16px;\n            font-weight: 600;\n            line-height: 1.25;\n        }\n\n        h2 {\n            font-size: 24px;\n            border-bottom: 1px solid #d0d7de;\n            padding-bottom: 8px;\n        }\n\n        h3 {\n            font-size: 20px;\n        }\n\n        p {\n            margin-top: 0;\n            margin-bottom: 16px;\n        }\n\n        ul, ol {\n            padding-left: 2em;\n            margin-top: 0;\n            margin-bottom: 16px;\n        }\n\n        li {\n            margin-bottom: 4px;\n        }\n\n        code {\n            padding: 0.2em 0.4em;\n            margin: 0;\n            font-size: 85%;\n            background-color: rgba(175,184,193,0.2);\n            border-radius: 6px;\n            font-family: ui-monospace, SFMono-Regular, \"SF Mono\", Menlo, Consolas, \"Liberation Mono\", monospace;\n        }\n\n        pre {\n            padding: 16px;\n            overflow: auto;\n            font-size: 85%;\n            line-height: 1.45;\n            background-color: #f6f8fa;\n            border-radius: 6px;\n            margin-bottom: 16px;\n        }\n\n        pre code {\n            background-color: transparent;\n            padding: 0;\n            border-radius: 0;\n        }\n\n        blockquote {\n            padding: 0 1em;\n            color: #57606a;\n            border-left: 0.25em solid #d0d7de;\n            margin: 0 0 16px 0;\n        }\n\n        table {\n            border-spacing: 0;\n            border-collapse: collapse;\n            width: 100%;\n            margin-bottom: 16px;\n        }\n\n        table th, table td {\n            padding: 6px 13px;\n            border: 1px solid #d0d7de;\n        }\n\n        table th {\n            font-weight: 600;\n            background-color: #f6f8fa;\n        }\n\n        hr {\n            height: 0.25em;\n            padding: 0;\n            margin: 24px 0;\n            background-color: #d0d7de;\n            border: 0;\n        }\n\n        .footer {\n            margin-top: 48px;\n            padding-top: 24px;\n            border-top: 1px solid #d0d7de;\n            font-size: 14px;\n            color: #57606a;\n        }\n\n        .badge {\n            display: inline-block;\n            padding: 4px 8px;\n            font-size: 12px;\n            font-weight: 600;\n            line-height: 1;\n            color: #ffffff;\n            background-color: #0969da;\n            border-radius: 12px;\n            margin-right: 8px;\n        }\n\n        @media (prefers-color-scheme: dark) {\n            body {\n                color: #c9d1d9;\n                background-color: #0d1117;\n            }\n\n            .header h1 {\n                color: #58a6ff;\n            }\n\n            .metadata, .footer {\n                color: #8b949e;\n            }\n\n            .metadata strong {\n                color: #c9d1d9;\n            }\n\n            h2 {\n                border-bottom-color: #21262d;\n            }\n\n            code {\n                background-color: rgba(110,118,129,0.4);\n            }\n\n            pre {\n                background-color: #161b22;\n            }\n\n            blockquote {\n                color: #8b949e;\n                border-left-color: #3b434b;\n            }\n\n            table th, table td {\n                border-color: #30363d;\n            }\n\n            table th {\n                background-color: #161b22;\n            }\n\n            hr {\n                background-color: #21262d;\n            }\n\n            .footer {\n                border-top-color: #21262d;\n            }\n        }\n    </style>\n</head>\n<body>\n    <div class=\"header\">\n        <span class=\"badge\">";

/// What stands between the badge and the heading.
pub const PAGE_HEADING: &'static str = "</span>\n        <h1>";

/// What stands between the heading and the time of generation.
pub const PAGE_GENERATED_AT: &'static str = "</h1>\n        <div class=\"metadata\">\n            <strong>生成时间:</strong> ";

/// What stands between the time of generation and the number of commits.
pub const PAGE_COMMIT_COUNT: &'static str = " |\n            <strong>提交数量:</strong> ";

/// What stands between the number of commits and the report's identifier.
pub const PAGE_REPORT_ID: &'static str = " |\n            <strong>报告 ID:</strong> ";

/// What stands between the identifier and the content.
pub const PAGE_CONTENT: &'static str = "\n        </div>\n    </div>\n\n    <div class=\"content\">\n        ";

/// The page after the content.
pub const PAGE_CLOSING: &'static str = "\n    </div>\n\n    <div class=\"footer\">\n        <p>由 <strong>Commitly</strong> 生成</p>\n    </div>\n</body>\n</html>";

/// The name a kind of report is shown under.
pub open spec fn kind_name(report_type: ReportType) -> Seq<char> {
    match report_type {
        ReportType::Weekly => "周报"@,
        ReportType::Monthly => "月报"@,
        ReportType::Custom => "自定义报告"@,
    }
}

/// The time of a timestamp as `YYYY-MM-DD HH:MM:SS UTC`, or a fixed text
/// where the calendar cannot represent the timestamp.
pub open spec fn time_text(timestamp: int) -> Seq<char> {
    match utc_text(timestamp, DATE_TIME_PATTERN@) {
        Some(text) => text,
        None => "Unknown date"@,
    }
}

/// `path` with `extension` at its end: `path` itself where it ends so
/// already.
pub open spec fn with_extension(path: Seq<char>, extension: Seq<char>) -> Seq<char> {
    if ends_with(path, extension) {
        path
    } else {
        path + extension
    }
}

/// The line of the Markdown document that lists `commit`.
pub open spec fn commit_line(commit: Commit) -> Seq<char> {
    "- `"@ + prefix(commit.hash@, SHORT_HASH_LEN as nat) + "` "@ + commit.message@ + " - "@
        + commit.author@ + " ("@ + time_text(commit.timestamp as int) + ")\n"@
}

/// The lines that list `commits`, in order.
pub open spec fn commit_lines(commits: Seq<Commit>) -> Seq<char>
    decreases commits.len(),
{
    if commits.len() == 0 {
        Seq::empty()
    } else {
        commit_lines(commits.drop_last()) + commit_line(commits.last())
    }
}

/// The Markdown document of a report: a heading with the report's kind,
/// the time of generation, the number of commits and the identifier, then
/// the content, then one line for each commit.
pub open spec fn markdown_text(report: Report) -> Seq<char> {
    "# "@ + kind_name(report.report_type) + "\n\n"@ + "> **生成时间**: "@ + time_text(
        report.generated_at as int,
    ) + "\n"@ + "> **提交数量**: "@ + decimal(report.commits@.len()) + "\n"@ + "> **报告 ID**: "@
        + report.id@ + "\n\n"@ + "---\n\n"@ + report.content@ + "\n\n---\n\n"@
        + "## 📝 提交详情\n\n"@ + commit_lines(report.commits@)
}

/// The HTML page of a report around `html_content`.
pub open spec fn page_text(report: Report, html_content: Seq<char>) -> Seq<char> {
    PAGE_OPENING@ + kind_name(report.report_type) + PAGE_TITLE_SEPARATOR@ + time_text(
        report.generated_at as int,
    ) + PAGE_STYLE_AND_BADGE@ + kind_name(report.report_type) + PAGE_HEADING@ + kind_name(
        report.report_type,
    ) + PAGE_GENERATED_AT@ + time_text(report.generated_at as int) + PAGE_COMMIT_COUNT@ + decimal(
        report.commits@.len(),
    ) + PAGE_REPORT_ID@ + report.id@ + PAGE_CONTENT@ + html_content + PAGE_CLOSING@
}

/// The time of a timestamp as `YYYY-MM-DD HH:MM:SS UTC`.
pub fn format_timestamp(timestamp: i64) -> (text: String)
    ensures
        text@ == time_text(timestamp as int),
{
    match format_utc(timestamp, DATE_TIME_PATTERN) {
        Some(text) => text,
        None => String::from_str("Unknown date"),
    }
}

/// The name a kind of report is shown under.
pub fn report_type_to_chinese(report_type: &ReportType) -> (name: &'static str)
    ensures
        name@ == kind_name(*report_type),
{
    match report_type {
        ReportType::Weekly => "周报",
        ReportType::Monthly => "月报",
        ReportType::Custom => "自定义报告",
    }
}

/// Whether `text` ends in `suffix`.
pub fn has_suffix(text: &str, suffix: &str) -> (found: bool)
    ensures
        found == ends_with(text@, suffix@),
{
    let len = text.unicode_len();
    let suffix_len = suffix.unicode_len();
    if suffix_len > len {
        return false;
    }
    let start = len - suffix_len;
    let ghost tail = text@.subrange(start as int, len as int);
    let mut i: usize = 0;
    while i < suffix_len
        invariant
            i <= suffix_len,
            len == text@.len(),
            suffix_len == suffix@.len(),
            start == len - suffix_len,
            tail == text@.subrange(start as int, len as int),
            forall|k: int| 0 <= k < i ==> tail[k] == suffix@[k],
        decreases suffix_len - i,
    {
        if text.get_char(start + i) != suffix.get_char(i) {
            assert(tail[i as int] != suffix@[i as int]);
            return false;
        }
        i += 1;
    }
    assert(tail =~= suffix@);
    true
}

/// The full HTML page of `report` around `html_content`, which is the
/// report's content as HTML.
pub fn build_html_document(report: &Report, html_content: &str) -> (page: String)
    ensures
        page@ == page_text(*report, html_content@),
{
    let name = report_type_to_chinese(&report.report_type);
    let time = format_timestamp(report.generated_at);
    let count = decimal_string(report.commits.len());
    let mut page = String::from_str(PAGE_OPENING);
    page.append(name);
    page.append(PAGE_TITLE_SEPARATOR);
    page.append(time.as_str());
    page.append(PAGE_STYLE_AND_BADGE);
    page.append(name);
    page.append(PAGE_HEADING);
    page.append(name);
    page.append(PAGE_GENERATED_AT);
    page.append(time.as_str());
    page.append(PAGE_COMMIT_COUNT);
    page.append(count.as_str());
    page.append(PAGE_REPORT_ID);
    page.append(report.id.as_str());
    page.append(PAGE_CONTENT);
    page.append(html_content);
    page.append(PAGE_CLOSING);
    page
}

/// Builds the documents a report is exported as.
pub struct ExportService;

impl ExportService {
    /// The path a Markdown export is written to: `save_path`, with the
    /// Markdown extension added where it does not end in it.
    pub fn markdown_path(save_path: &str) -> (path: String)
        ensures
            path@ == with_extension(save_path@, MARKDOWN_EXTENSION@),
    {
        let mut path = String::from_str(save_path);
        if !has_suffix(save_path, MARKDOWN_EXTENSION) {
            path.append(MARKDOWN_EXTENSION);
        }
        path
    }

    /// The path an HTML export is written to: `save_path`, with the HTML
    /// extension added where it does not end in it.
    pub fn html_path(save_path: &str) -> (path: String)
        ensures
            path@ == with_extension(save_path@, HTML_EXTENSION@),
    {
        let mut path = String::from_str(save_path);
        if !has_suffix(save_path, HTML_EXTENSION) {
            path.append(HTML_EXTENSION);
        }
        path
    }

    /// The Markdown document that `report` is exported as.
    pub fn export_markdown(report: &Report) -> (document: String)
        ensures
            document@ == markdown_text(*report),
    {
        let mut document = String::from_str("# ");
        document.append(report_type_to_chinese(&report.report_type));
        document.append("\n\n");
        document.append("> **生成时间**: ");
        document.append(format_timestamp(report.generated_at).as_str());
        document.append("\n");
        document.append("> **提交数量**: ");
        document.append(decimal_string(report.commits.len()).as_str());
        document.append("\n");
        document.append("> **报告 ID**: ");
        document.append(report.id.as_str());
        document.append("\n\n");
        document.append("---\n\n");
        document.append(report.content.as_str());
        document.append("\n\n---\n\n");
        document.append("## 📝 提交详情\n\n");
        let ghost head = document@;
        let mut i: usize = 0;
        assert(report.commits@.take(0).len() == 0);
        while i < report.commits.len()
            invariant
                i <= report.commits.len(),
                document@ == head + commit_lines(report.commits@.take(i as int)),
            decreases report.commits.len() - i,
        {
            let commit = &report.commits[i];
            let ghost before = document@;
            document.append("- `");
            document.append(leading(commit.hash.as_str(), SHORT_HASH_LEN).as_str());
            document.append("` ");
            document.append(commit.message.as_str());
            document.append(" - ");
            document.append(commit.author.as_str());
            document.append(" (");
            document.append(format_timestamp(commit.timestamp).as_str());
            document.append(")\n");
            proof {
                assert(document@ == before + commit_line(*commit));
                assert(report.commits@.take(i + 1).drop_last() == report.commits@.take(i as int));
                assert(report.commits@.take(i + 1).last() == *commit);
            }
            i += 1;
        }
        assert(report.commits@.take(i as int) == report.commits@);
        document
    }

    /// The HTML page that `report` is exported as: its content, which is
    /// Markdown, turned into HTML and set into the page.
    pub fn export_html(report: &Report) -> (page: String)
        ensures
            page@ == page_text(*report, html_of_markdown(report.content@)),
    {
        let html_content = markdown_to_html(report.content.as_str());
        build_html_document(report, html_content.as_str())
    }
}

} // verus!

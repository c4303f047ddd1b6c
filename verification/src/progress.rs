//! Progress display of the live-stream queries: the bar template and the
//! closing message of each stage.

use crate::template_style::{
    no_truncation_mark, short_digit_runs, template_accepted, template_state, with_template,
    TemplateStyle,
};
use indicatif::style::TemplateError;
use vstd::prelude::*;

verus! {

/// A stage of a live-stream query that shows a progress bar.
#[derive(Debug, Clone, Copy, PartialEq, Eq, Structural)]
pub enum ProgressKind {
    GetRecordingLives,
    GetLiveIds,
    GetLiveUrls,
    GetDeviceCodes,
    /// Any other stage.
    Other,
}

/// The progress bar template of a stage.
pub open spec fn template_text(k: ProgressKind) -> Seq<char> {
    match k {
        ProgressKind::GetRecordingLives =>
            "获取回放地址：[{elapsed_precise}] {bar:40.cyan/blue} {pos:>7}/{len:7} {msg}"@,
        ProgressKind::GetLiveIds =>
            "获取直播号：[{elapsed_precise}] {bar:40.cyan/blue} {pos:>7}/{len:7} {msg}"@,
        ProgressKind::GetLiveUrls =>
            "获取地址中：[{elapsed_precise}] {bar:40.cyan/blue} {pos:>7}/{len:7} {msg}"@,
        ProgressKind::GetDeviceCodes =>
            "获取设备码：[{elapsed_precise}] {bar:40.cyan/blue} {pos:>7}/{len:7} {msg}"@,
        ProgressKind::Other =>
            "获取 Bug 中：[{elapsed_precise}] {bar:40.cyan/blue} {pos:>7}/{len:7} {msg}"@,
    }
}

/// The message a finished progress bar of a stage shows.
pub open spec fn finish_text(k: ProgressKind) -> Seq<char> {
    match k {
        ProgressKind::GetRecordingLives => "获取回放地址完成。"@,
        ProgressKind::GetLiveIds => "获取直播号完成。"@,
        ProgressKind::GetLiveUrls => "已获取直播地址。"@,
        ProgressKind::GetDeviceCodes => "获取设备码完成。"@,
        ProgressKind::Other => "获取 Bug 完成。"@,
    }
}

impl ProgressKind {
    /// The progress bar template of this stage.
    pub fn template(&self) -> (t: &'static str)
        ensures
            t@ == template_text(*self),
    {
        match self {
            ProgressKind::GetRecordingLives =>
                "获取回放地址：[{elapsed_precise}] {bar:40.cyan/blue} {pos:>7}/{len:7} {msg}",
            ProgressKind::GetLiveIds =>
                "获取直播号：[{elapsed_precise}] {bar:40.cyan/blue} {pos:>7}/{len:7} {msg}",
            ProgressKind::GetLiveUrls =>
                "获取地址中：[{elapsed_precise}] {bar:40.cyan/blue} {pos:>7}/{len:7} {msg}",
            ProgressKind::GetDeviceCodes =>
                "获取设备码：[{elapsed_precise}] {bar:40.cyan/blue} {pos:>7}/{len:7} {msg}",
            ProgressKind::Other =>
                "获取 Bug 中：[{elapsed_precise}] {bar:40.cyan/blue} {pos:>7}/{len:7} {msg}",
        }
    }

    /// The message shown when this stage's progress bar finishes.
    pub fn finish_message(&self) -> (m: &'static str)
        ensures
            m@ == finish_text(*self),
    {
        match self {
            ProgressKind::GetRecordingLives => "获取回放地址完成。",
            ProgressKind::GetLiveIds => "获取直播号完成。",
            ProgressKind::GetLiveUrls => "已获取直播地址。",
            ProgressKind::GetDeviceCodes => "获取设备码完成。",
            ProgressKind::Other => "获取 Bug 完成。",
        }
    }
}

/// How `indicatif` starts the text of every template error.
pub open spec fn template_error_lead() -> Seq<char> {
    "TemplateError: unexpected character "@
}

/// `format!("{}", e)`: the text `indicatif` gives a template error. The
/// contract claims only its fixed start; the rest names the offending
/// character and the parser state.
#[verifier::external_body]
fn template_error_text(e: &TemplateError) -> (text: String)
    ensures
        exists|rest: Seq<char>| text@ == template_error_lead() + rest,
{
    format!("{}", e)
}

/// The start of the line logged when a progress bar template does not parse.
pub open spec fn template_failure_prefix() -> Seq<char> {
    "json 解析出错！错误信息："@
}

/// The line logged when a progress bar cannot be set up: the error text
/// `detail` in the fixed sentence.
pub fn prog_init_error_handler(detail: &str) -> (line: String)
    ensures
        line@ == template_failure_prefix() + detail@ + "."@,
{
    let mut line = String::new();
    line.append("json 解析出错！错误信息：");
    line.append(detail);
    line.append(".");
    line
}

/// Each stage's template is accepted, and can be handed to `indicatif`
/// without a panic.
#[verifier::spinoff_prover]
#[verifier::rlimit(60)]
proof fn lemma_templates_usable(k: ProgressKind)
    ensures
        short_digit_runs(template_text(k)),
        no_truncation_mark(template_text(k)),
        template_accepted(template_text(k)),
{
    let t = template_text(k);
    match k {
        ProgressKind::GetRecordingLives => {
            assert(short_digit_runs(t) && no_truncation_mark(t) && template_accepted(t)) by {
                reveal_strlit("获取回放地址：[{elapsed_precise}] {bar:40.cyan/blue} {pos:>7}/{len:7} {msg}");
                reveal_with_fuel(template_state, 90);
            }
        },
        ProgressKind::GetLiveIds => {
            assert(short_digit_runs(t) && no_truncation_mark(t) && template_accepted(t)) by {
                reveal_strlit("获取直播号：[{elapsed_precise}] {bar:40.cyan/blue} {pos:>7}/{len:7} {msg}");
                reveal_with_fuel(template_state, 90);
            }
        },
        ProgressKind::GetLiveUrls => {
            assert(short_digit_runs(t) && no_truncation_mark(t) && template_accepted(t)) by {
                reveal_strlit("获取地址中：[{elapsed_precise}] {bar:40.cyan/blue} {pos:>7}/{len:7} {msg}");
                reveal_with_fuel(template_state, 90);
            }
        },
        ProgressKind::GetDeviceCodes => {
            assert(short_digit_runs(t) && no_truncation_mark(t) && template_accepted(t)) by {
                reveal_strlit("获取设备码：[{elapsed_precise}] {bar:40.cyan/blue} {pos:>7}/{len:7} {msg}");
                reveal_with_fuel(template_state, 90);
            }
        },
        ProgressKind::Other => {
            assert(short_digit_runs(t) && no_truncation_mark(t) && template_accepted(t)) by {
                reveal_strlit("获取 Bug 中：[{elapsed_precise}] {bar:40.cyan/blue} {pos:>7}/{len:7} {msg}");
                reveal_with_fuel(template_state, 90);
            }
        },
    }
}

/// The style of a stage's progress bar, made from its template, which
/// `indicatif` always accepts; the error branch carries the line that would
/// be logged.
pub fn progress_style(k: ProgressKind) -> (r: Result<TemplateStyle, String>)
    ensures
        r is Ok,
        r matches Ok(s) ==> s.template() == template_text(k),
{
    let t = k.template();
    proof {
        lemma_templates_usable(k);
    }
    match with_template(t) {
        Ok(style) => Ok(style),
        Err(e) => {
            let detail = template_error_text(&e);
            Err(prog_init_error_handler(detail.as_str()))
        },
    }
}

} // verus!

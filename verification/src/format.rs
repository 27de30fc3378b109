//! The response formatter: the provenance signature under a reply and the
//! wording of the completion report.

use crate::mode::Mode;
use vstd::prelude::*;
use vstd::string::*;

verus! {

/// The name under which the tool signs its output.
pub const TOOL_NAME: &'static str = "ccw";

/// The version under which the tool signs its output.
pub const TOOL_VERSION: &'static str = "0.1.0";

/// The provenance line for a reply of the given model.
pub open spec fn signature_text(model: Seq<char>) -> Seq<char> {
    "Text generated with "@ + TOOL_NAME@ + " (v"@ + TOOL_VERSION@ + ")/"@ + model
}

/// The text handed to the caller for a reply: the model's words, unchanged,
/// then a blank line and the provenance line.
pub open spec fn reply_text(content: Seq<char>, model: Seq<char>) -> Seq<char> {
    content + "\n\n"@ + signature_text(model)
}

/// The provenance line that identifies the tool, its version and the model.
pub fn signature(model: &str) -> (r: String)
    ensures
        r@ == signature_text(model@),
{
    let mut line = "Text generated with ".to_owned();
    line.append(TOOL_NAME);
    line.append(" (v");
    line.append(TOOL_VERSION);
    line.append(")/");
    line.append(model);
    line
}

/// Appends the provenance signature to the model's reply.
pub fn format_reply(content: &str, model: &str) -> (r: String)
    ensures
        r@ == reply_text(content@, model@),
{
    let mut text = content.to_owned();
    text.append("\n\n");
    let line = signature(model);
    text.append(line.as_str());
    text
}

/// What the completion report says a mode has done.
pub open spec fn completion_text(mode: Mode) -> Seq<char> {
    match mode {
        Mode::Ask => "Answer generated"@,
        Mode::Checker => "Checked"@,
        Mode::CommitReview => "Commit review generated"@,
        Mode::CommitSummary => "Commit summary generated"@,
        Mode::CriteriaVerify => "Criteria verified"@,
        Mode::DesignAdvice => "Design advice generated"@,
        Mode::Explain => "Explained"@,
        Mode::Performance => "Checked"@,
        Mode::TaskGenerate => "Task generated"@,
        Mode::TaskReview => "Task review generated"@,
    }
}

impl Mode {
    /// What the completion report says this mode has done.
    pub fn completion_label(&self) -> (r: &'static str)
        ensures
            r@ == completion_text(*self),
    {
        match self {
            Mode::Ask => "Answer generated",
            Mode::Checker => "Checked",
            Mode::CommitReview => "Commit review generated",
            Mode::CommitSummary => "Commit summary generated",
            Mode::CriteriaVerify => "Criteria verified",
            Mode::DesignAdvice => "Design advice generated",
            Mode::Explain => "Explained",
            Mode::Performance => "Checked",
            Mode::TaskGenerate => "Task generated",
            Mode::TaskReview => "Task review generated",
        }
    }
}

/// Formatting keeps the reply: the model's words are a prefix of the
/// formatted text, and what follows does not depend on them.
pub proof fn lemma_format_keeps_content(content: Seq<char>, model: Seq<char>)
    ensures
        reply_text(content, model).len() >= content.len(),
        reply_text(content, model).take(content.len() as int) == content,
        reply_text(content, model).skip(content.len() as int) == reply_text(Seq::empty(), model),
{
    let tail = "\n\n"@ + signature_text(model);
    assert(reply_text(content, model) =~= content + tail);
    assert((content + tail).take(content.len() as int) =~= content);
    assert((content + tail).skip(content.len() as int) =~= tail);
    assert(reply_text(Seq::empty(), model) =~= tail);
}

} // verus!

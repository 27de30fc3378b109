//! The registry that maps each mode to its template and to the inputs that
//! it consumes.

use crate::mode::Mode;
use crate::templates;
use vstd::prelude::*;

verus! {

/// The label in front of a free-standing question.
pub const QUESTION_LABEL: &'static str = "Here is the question: ";

/// The label in front of a question that accompanies a primary body.
pub const CODE_QUESTION_LABEL: &'static str = "Here is the question about the code: ";

/// What a mode sends as instructions and which inputs it consumes.
///
/// Definitions are fixed for the lifetime of the process.
#[derive(Debug)]
pub struct ModeDefinition {
    pub id: Mode,
    /// The system messages of the mode, in the order in which they are sent.
    pub instructional_texts: Vec<String>,
    /// The mode cannot run without a question.
    pub requires_question: bool,
    /// The mode cannot run without acceptance criteria.
    pub requires_criteria_file: bool,
    /// The mode forwards a question when one is supplied.
    pub accepts_question: bool,
    /// The label in front of a forwarded question.
    pub question_label: String,
    /// The mode forwards the primary text body.
    pub takes_body: bool,
}

/// The mathematical value of a [`ModeDefinition`].
pub struct ModeDefinitionView {
    pub id: Mode,
    pub instructional_texts: Seq<Seq<char>>,
    pub requires_question: bool,
    pub requires_criteria_file: bool,
    pub accepts_question: bool,
    pub question_label: Seq<char>,
    pub takes_body: bool,
}

impl View for ModeDefinition {
    type V = ModeDefinitionView;

    open spec fn view(&self) -> ModeDefinitionView {
        ModeDefinitionView {
            id: self.id,
            instructional_texts: Seq::new(
                self.instructional_texts@.len(),
                |i: int| self.instructional_texts@[i]@,
            ),
            requires_question: self.requires_question,
            requires_criteria_file: self.requires_criteria_file,
            accepts_question: self.accepts_question,
            question_label: self.question_label@,
            takes_body: self.takes_body,
        }
    }
}

impl ModeDefinitionView {
    /// A required question is also a forwarded one.
    pub open spec fn well_formed(self) -> bool {
        self.requires_question ==> self.accepts_question
    }
}

/// The instructional text of a mode.
pub open spec fn template_text(mode: Mode) -> Seq<char> {
    match mode {
        Mode::Ask => templates::ASK@,
        Mode::Checker => templates::CHECKER@,
        Mode::CommitReview => templates::COMMIT_REVIEW@,
        Mode::CommitSummary => templates::COMMIT_SUMMARY@,
        Mode::CriteriaVerify => templates::CRITERIA_VERIFY@,
        Mode::DesignAdvice => templates::DESIGN_ADVICE@,
        Mode::Explain => templates::EXPLAIN@,
        Mode::Performance => templates::PERFORMANCE@,
        Mode::TaskGenerate => templates::TASK_GENERATE@,
        Mode::TaskReview => templates::TASK_REVIEW@,
    }
}

/// Whether a mode forwards a question when one is supplied.
pub open spec fn mode_accepts_question(mode: Mode) -> bool {
    mode == Mode::Ask || mode == Mode::DesignAdvice || mode == Mode::Explain
}

/// The registered definition of a mode.
pub open spec fn definition_of(mode: Mode) -> ModeDefinitionView {
    ModeDefinitionView {
        id: mode,
        instructional_texts: seq![template_text(mode)],
        requires_question: mode == Mode::Ask,
        requires_criteria_file: mode == Mode::CriteriaVerify,
        accepts_question: mode_accepts_question(mode),
        question_label: if mode == Mode::Ask {
            QUESTION_LABEL@
        } else {
            CODE_QUESTION_LABEL@
        },
        takes_body: mode != Mode::Ask,
    }
}

/// Where the primary text body of a mode comes from.
#[derive(Clone, Copy, Debug, PartialEq, Eq, Structural)]
pub enum InputSource {
    /// The mode has no body: it answers the question alone.
    Question,
    /// The body is a source file; the mode runs once for each file.
    Files,
    /// The body is a diff, read from the standard input.
    StandardInput,
}

/// Where the primary text body of a mode comes from.
pub open spec fn input_source_of(mode: Mode) -> InputSource {
    match mode {
        Mode::Ask => InputSource::Question,
        Mode::Checker | Mode::DesignAdvice | Mode::Explain | Mode::Performance => InputSource::Files,
        Mode::CommitReview
        | Mode::CommitSummary
        | Mode::CriteriaVerify
        | Mode::TaskGenerate
        | Mode::TaskReview => InputSource::StandardInput,
    }
}

/// A mode forwards a body exactly when it has a source for one.
pub proof fn lemma_body_has_a_source(mode: Mode)
    ensures
        definition_of(mode).takes_body <==> input_source_of(mode) != InputSource::Question,
        definition_of(mode).well_formed(),
{
}

impl Mode {
    /// Where the primary text body of this mode comes from.
    pub fn input_source(&self) -> (r: InputSource)
        ensures
            r == input_source_of(*self),
    {
        match self {
            Mode::Ask => InputSource::Question,
            Mode::Checker | Mode::DesignAdvice | Mode::Explain | Mode::Performance => {
                InputSource::Files
            },
            Mode::CommitReview
            | Mode::CommitSummary
            | Mode::CriteriaVerify
            | Mode::TaskGenerate
            | Mode::TaskReview => InputSource::StandardInput,
        }
    }

    /// The instructional text of this mode.
    pub fn template(&self) -> (r: &'static str)
        ensures
            r@ == template_text(*self),
    {
        match self {
            Mode::Ask => templates::ASK,
            Mode::Checker => templates::CHECKER,
            Mode::CommitReview => templates::COMMIT_REVIEW,
            Mode::CommitSummary => templates::COMMIT_SUMMARY,
            Mode::CriteriaVerify => templates::CRITERIA_VERIFY,
            Mode::DesignAdvice => templates::DESIGN_ADVICE,
            Mode::Explain => templates::EXPLAIN,
            Mode::Performance => templates::PERFORMANCE,
            Mode::TaskGenerate => templates::TASK_GENERATE,
            Mode::TaskReview => templates::TASK_REVIEW,
        }
    }

    /// The registered definition of this mode.
    pub fn definition(&self) -> (r: ModeDefinition)
        ensures
            r@ == definition_of(*self),
            r@.well_formed(),
    {
        let mut texts: Vec<String> = Vec::new();
        texts.push(self.template().to_owned());
        let asks = match self {
            Mode::Ask => true,
            _ => false,
        };
        let verifies = match self {
            Mode::CriteriaVerify => true,
            _ => false,
        };
        let accepts = match self {
            Mode::Ask | Mode::DesignAdvice | Mode::Explain => true,
            _ => false,
        };
        let label = if asks {
            QUESTION_LABEL
        } else {
            CODE_QUESTION_LABEL
        };
        let r = ModeDefinition {
            id: *self,
            instructional_texts: texts,
            requires_question: asks,
            requires_criteria_file: verifies,
            accepts_question: accepts,
            question_label: label.to_owned(),
            takes_body: !asks,
        };
        assert(r@.instructional_texts =~= seq![template_text(*self)]);
        r
    }
}

} // verus!

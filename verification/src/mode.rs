//! The analysis modes and how an identifier selects one.

use crate::error::Error;
use crate::text::{lowercase, same_text, to_lowercase};
use vstd::prelude::*;

verus! {

/// A selectable analysis persona.
#[derive(Clone, Copy, Debug, PartialEq, Eq, Structural)]
pub enum Mode {
    Ask,
    Checker,
    CommitReview,
    CommitSummary,
    CriteriaVerify,
    DesignAdvice,
    Explain,
    Performance,
    TaskGenerate,
    TaskReview,
}

/// The identifier under which a mode is registered.
pub open spec fn mode_name(mode: Mode) -> Seq<char> {
    match mode {
        Mode::Ask => "ask"@,
        Mode::Checker => "checker"@,
        Mode::CommitReview => "commit_review"@,
        Mode::CommitSummary => "commit_summary"@,
        Mode::CriteriaVerify => "criteria_verify"@,
        Mode::DesignAdvice => "design_advice"@,
        Mode::Explain => "explain"@,
        Mode::Performance => "performance"@,
        Mode::TaskGenerate => "task_generate"@,
        Mode::TaskReview => "task_review"@,
    }
}

/// Whether some mode is registered under `name`.
pub open spec fn is_registered(name: Seq<char>) -> bool {
    exists|mode: Mode| #[trigger] mode_name(mode) == name
}

/// The mode that falls in when an identifier is unknown or absent.
pub open spec fn default_mode() -> Mode {
    Mode::Checker
}

/// The mode registered under `name`, or the default mode when there is none.
pub open spec fn mode_named(name: Seq<char>) -> Mode {
    if name == mode_name(Mode::Ask) {
        Mode::Ask
    } else if name == mode_name(Mode::Checker) {
        Mode::Checker
    } else if name == mode_name(Mode::CommitReview) {
        Mode::CommitReview
    } else if name == mode_name(Mode::CommitSummary) {
        Mode::CommitSummary
    } else if name == mode_name(Mode::CriteriaVerify) {
        Mode::CriteriaVerify
    } else if name == mode_name(Mode::DesignAdvice) {
        Mode::DesignAdvice
    } else if name == mode_name(Mode::Explain) {
        Mode::Explain
    } else if name == mode_name(Mode::Performance) {
        Mode::Performance
    } else if name == mode_name(Mode::TaskGenerate) {
        Mode::TaskGenerate
    } else if name == mode_name(Mode::TaskReview) {
        Mode::TaskReview
    } else {
        default_mode()
    }
}

impl Mode {
    /// The identifier under which this mode is registered.
    pub fn name(&self) -> (r: &'static str)
        ensures
            r@ == mode_name(*self),
    {
        match self {
            Mode::Ask => "ask",
            Mode::Checker => "checker",
            Mode::CommitReview => "commit_review",
            Mode::CommitSummary => "commit_summary",
            Mode::CriteriaVerify => "criteria_verify",
            Mode::DesignAdvice => "design_advice",
            Mode::Explain => "explain",
            Mode::Performance => "performance",
            Mode::TaskGenerate => "task_generate",
            Mode::TaskReview => "task_review",
        }
    }

    /// Looks a mode up by its exact registered identifier. An identifier that
    /// is not registered selects the default mode.
    pub fn from_name(name: &str) -> (r: Mode)
        ensures
            r == mode_named(name@),
    {
        if same_text(name, "ask") {
            Mode::Ask
        } else if same_text(name, "checker") {
            Mode::Checker
        } else if same_text(name, "commit_review") {
            Mode::CommitReview
        } else if same_text(name, "commit_summary") {
            Mode::CommitSummary
        } else if same_text(name, "criteria_verify") {
            Mode::CriteriaVerify
        } else if same_text(name, "design_advice") {
            Mode::DesignAdvice
        } else if same_text(name, "explain") {
            Mode::Explain
        } else if same_text(name, "performance") {
            Mode::Performance
        } else if same_text(name, "task_generate") {
            Mode::TaskGenerate
        } else if same_text(name, "task_review") {
            Mode::TaskReview
        } else {
            Mode::Checker
        }
    }

    /// Resolves a mode identifier without regard to letter case. Resolution
    /// never fails: an unknown identifier selects the default mode.
    pub fn from_str(s: &str) -> (r: Result<Mode, Error>)
        ensures
            r == Ok::<Mode, Error>(mode_named(lowercase(s@))),
    {
        let lowered = to_lowercase(s);
        Ok(Mode::from_name(lowered.as_str()))
    }

    /// Resolves an optional mode identifier; an absent one selects the
    /// default mode.
    pub fn resolve(id: Option<&str>) -> (r: Mode)
        ensures
            r == resolved_mode(
                match id {
                    Some(s) => Some(s@),
                    None => None,
                },
            ),
    {
        match id {
            Some(s) => Mode::from_name(to_lowercase(s).as_str()),
            None => Mode::Checker,
        }
    }
}

/// The mode that an optional identifier resolves to.
pub open spec fn resolved_mode(id: Option<Seq<char>>) -> Mode {
    match id {
        Some(s) => mode_named(lowercase(s)),
        None => default_mode(),
    }
}

/// The registered identifiers are pairwise distinct, so each one selects its
/// own mode.
pub proof fn lemma_registered_name_selects_its_mode(mode: Mode)
    ensures
        mode_named(mode_name(mode)) == mode,
{
    reveal_strlit("ask");
    reveal_strlit("checker");
    reveal_strlit("commit_review");
    reveal_strlit("commit_summary");
    reveal_strlit("criteria_verify");
    reveal_strlit("design_advice");
    reveal_strlit("explain");
    reveal_strlit("performance");
    reveal_strlit("task_generate");
    reveal_strlit("task_review");
    assert("ask"@.len() == 3);
    assert("checker"@.len() == 7 && "explain"@.len() == 7);
    assert("performance"@.len() == 11 && "task_review"@.len() == 11);
    assert("commit_review"@.len() == 13 && "design_advice"@.len() == 13);
    assert("task_generate"@.len() == 13);
    assert("commit_summary"@.len() == 14);
    assert("criteria_verify"@.len() == 15);
    assert("checker"@[0] == 'c' && "explain"@[0] == 'e');
    assert("performance"@[0] == 'p' && "task_review"@[0] == 't');
    assert("commit_review"@[0] == 'c' && "design_advice"@[0] == 'd');
    assert("task_generate"@[0] == 't');
}

/// Resolution falls back to the default mode for every identifier whose
/// lowercase form is not registered, and for an absent identifier.
pub proof fn lemma_unknown_mode_is_default(id: Option<Seq<char>>)
    requires
        id matches Some(s) ==> !is_registered(lowercase(s)),
    ensures
        resolved_mode(id) == default_mode(),
{
    if let Some(s) = id {
        let name = lowercase(s);
        assert forall|mode: Mode| #[trigger] mode_name(mode) != name by {
            if mode_name(mode) == name {
                assert(is_registered(name));
            }
        }
        assert(mode_name(Mode::Ask) != name);
        assert(mode_name(Mode::Checker) != name);
        assert(mode_name(Mode::CommitReview) != name);
        assert(mode_name(Mode::CommitSummary) != name);
        assert(mode_name(Mode::CriteriaVerify) != name);
        assert(mode_name(Mode::DesignAdvice) != name);
        assert(mode_name(Mode::Explain) != name);
        assert(mode_name(Mode::Performance) != name);
        assert(mode_name(Mode::TaskGenerate) != name);
        assert(mode_name(Mode::TaskReview) != name);
    }
}

} // verus!

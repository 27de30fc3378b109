use ccw::error::Error;
use ccw::mode::Mode;
use ccw::registry::InputSource;

const ALL_MODES: [Mode; 10] = [
    Mode::Ask,
    Mode::Checker,
    Mode::CommitReview,
    Mode::CommitSummary,
    Mode::CriteriaVerify,
    Mode::DesignAdvice,
    Mode::Explain,
    Mode::Performance,
    Mode::TaskGenerate,
    Mode::TaskReview,
];

#[test]
fn from_str_knows_every_registered_name() {
    assert_eq!(Mode::from_str("ask"), Ok(Mode::Ask));
    assert_eq!(Mode::from_str("checker"), Ok(Mode::Checker));
    assert_eq!(Mode::from_str("commit_review"), Ok(Mode::CommitReview));
    assert_eq!(Mode::from_str("commit_summary"), Ok(Mode::CommitSummary));
    assert_eq!(Mode::from_str("criteria_verify"), Ok(Mode::CriteriaVerify));
    assert_eq!(Mode::from_str("design_advice"), Ok(Mode::DesignAdvice));
    assert_eq!(Mode::from_str("explain"), Ok(Mode::Explain));
    assert_eq!(Mode::from_str("performance"), Ok(Mode::Performance));
    assert_eq!(Mode::from_str("task_generate"), Ok(Mode::TaskGenerate));
    assert_eq!(Mode::from_str("task_review"), Ok(Mode::TaskReview));
}

#[test]
fn from_str_ignores_letter_case() {
    assert_eq!(Mode::from_str("ASK"), Ok(Mode::Ask));
    assert_eq!(Mode::from_str("Commit_Review"), Ok(Mode::CommitReview));
    assert_eq!(Mode::from_str("PERFORMANCE"), Ok(Mode::Performance));
    assert_eq!(Mode::from_str("eXpLaIn"), Ok(Mode::Explain));
}

#[test]
fn from_str_lowercases_beyond_ascii() {
    // The Kelvin sign lowercases to the letter k.
    assert_eq!(Mode::from_str("as\u{212A}"), Ok(Mode::Ask));
}

#[test]
fn from_str_falls_back_to_the_default_mode() {
    assert_eq!(Mode::from_str(""), Ok(Mode::Checker));
    assert_eq!(Mode::from_str("no_such_mode"), Ok(Mode::Checker));
    assert_eq!(Mode::from_str(" ask"), Ok(Mode::Checker));
    assert_eq!(Mode::from_str("ask "), Ok(Mode::Checker));
    assert_eq!(Mode::from_str("commit-review"), Ok(Mode::Checker));
    assert_eq!(Mode::from_str("convert_to_rust"), Ok(Mode::Checker));
}

#[test]
fn from_str_never_fails() {
    let inputs = ["", "x", "ASK", "\u{0}", "task", "task_", "déjà vu", "検査"];
    for input in inputs {
        let resolved: Result<Mode, Error> = Mode::from_str(input);
        assert!(resolved.is_ok());
    }
}

#[test]
fn from_name_is_exact_about_case() {
    assert_eq!(Mode::from_name("ask"), Mode::Ask);
    assert_eq!(Mode::from_name("ASK"), Mode::Checker);
    assert_eq!(Mode::from_name("Explain"), Mode::Checker);
}

#[test]
fn resolve_of_an_absent_identifier_is_the_default() {
    assert_eq!(Mode::resolve(None), Mode::Checker);
    assert_eq!(Mode::resolve(Some("TASK_REVIEW")), Mode::TaskReview);
    assert_eq!(Mode::resolve(Some("unknown")), Mode::Checker);
}

#[test]
fn every_name_selects_its_own_mode() {
    for mode in ALL_MODES {
        assert_eq!(Mode::from_name(mode.name()), mode);
        assert_eq!(Mode::from_str(mode.name()), Ok(mode));
        assert_eq!(Mode::from_str(&mode.name().to_uppercase()), Ok(mode));
    }
}

#[test]
fn completion_labels() {
    assert_eq!(Mode::Ask.completion_label(), "Answer generated");
    assert_eq!(Mode::Checker.completion_label(), "Checked");
    assert_eq!(Mode::CommitReview.completion_label(), "Commit review generated");
    assert_eq!(Mode::CommitSummary.completion_label(), "Commit summary generated");
    assert_eq!(Mode::CriteriaVerify.completion_label(), "Criteria verified");
    assert_eq!(Mode::Explain.completion_label(), "Explained");
    assert_eq!(Mode::Performance.completion_label(), "Checked");
    assert_eq!(Mode::TaskGenerate.completion_label(), "Task generated");
    assert_eq!(Mode::TaskReview.completion_label(), "Task review generated");
}

#[test]
fn definitions_declare_the_inputs_of_each_mode() {
    for mode in ALL_MODES {
        let definition = mode.definition();
        assert_eq!(definition.id, mode);
        assert_eq!(definition.instructional_texts.len(), 1);
        assert_eq!(definition.instructional_texts[0], mode.template());
        assert_eq!(definition.requires_question, mode == Mode::Ask);
        assert_eq!(definition.requires_criteria_file, mode == Mode::CriteriaVerify);
        assert_eq!(
            definition.accepts_question,
            mode == Mode::Ask || mode == Mode::DesignAdvice || mode == Mode::Explain
        );
        assert_eq!(definition.takes_body, mode != Mode::Ask);
        if definition.requires_question {
            assert!(definition.accepts_question);
        }
    }
    assert_eq!(Mode::Ask.definition().question_label, "Here is the question: ");
    assert_eq!(
        Mode::Explain.definition().question_label,
        "Here is the question about the code: "
    );
}

#[test]
fn templates_open_with_their_persona() {
    assert!(Mode::Ask.template().starts_with("You are CCW-ASK, "));
    assert!(Mode::Checker.template().starts_with("You are CCW-CHECK, "));
    assert!(Mode::CommitReview.template().starts_with("You are CCW-COMMIT-REVIEW, "));
    assert!(Mode::CommitSummary.template().starts_with("You are CCW-COMMIT-SUMMARY, "));
    assert!(Mode::CriteriaVerify.template().starts_with("You are CCW-CRITERIA-VERIFY. "));
    assert!(Mode::DesignAdvice.template().starts_with("You are CCW-DESIGN-ADVICE. "));
    assert!(Mode::Explain.template().starts_with("You are CCW-EXPLAIN, "));
    assert!(Mode::Performance.template().starts_with("You are CCW-PERFORMANCE, "));
    assert!(Mode::TaskReview.template().starts_with("You are CCW-TASK-REVIEW. "));
    assert!(Mode::Checker.template().ends_with("using the provided code."));
}

#[test]
fn error_messages_and_classes() {
    assert!(Error::QuestionMissing.is_usage_error());
    assert!(Error::CriteriaMissing.is_usage_error());
    assert!(!Error::OllamaRequestProblem.is_usage_error());
    assert!(!Error::OllamaHostAddresMissing.is_usage_error());
    assert!(Error::OllamaRequestProblem.is_protocol_failure());
    assert!(Error::ReplyMalformed.is_protocol_failure());
    assert!(Error::ReplyUnreadable.is_protocol_failure());
    assert!(!Error::QuestionMissing.is_protocol_failure());
    assert!(!Error::MessagesTooLong.is_protocol_failure());
    assert!(!Error::ClientUnavailable.is_protocol_failure());
    assert_eq!(
        Error::QuestionMissing.message(),
        "You need to provide --question with the question you want to ask."
    );
    assert_eq!(
        Error::CriteriaMissing.message(),
        "You need to provide input --file with acceptance criteria."
    );
    let all = [
        Error::OllamaHostAddresMissing,
        Error::OllamaRequestProblem,
        Error::QuestionMissing,
        Error::CriteriaMissing,
        Error::MessagesTooLong,
        Error::ClientUnavailable,
        Error::ReplyUnreadable,
        Error::ReplyMalformed,
    ];
    for (i, a) in all.iter().enumerate() {
        assert!(!a.message().is_empty());
        for b in all.iter().skip(i + 1) {
            assert_ne!(a.message(), b.message());
        }
    }
}

#[test]
fn every_mode_has_its_input_source() {
    assert_eq!(Mode::Ask.input_source(), InputSource::Question);
    for mode in [Mode::Checker, Mode::DesignAdvice, Mode::Explain, Mode::Performance] {
        assert_eq!(mode.input_source(), InputSource::Files);
    }
    for mode in [
        Mode::CommitReview,
        Mode::CommitSummary,
        Mode::CriteriaVerify,
        Mode::TaskGenerate,
        Mode::TaskReview,
    ] {
        assert_eq!(mode.input_source(), InputSource::StandardInput);
    }
    for mode in ALL_MODES {
        assert_eq!(mode.definition().takes_body, mode.input_source() != InputSource::Question);
    }
}

//! The pipeline from the caller's input to the first decision of a request:
//! assemble the messages, estimate the context window, apply admission
//! control, and start the dispatcher.

use crate::config::{Config, ConfigView};
use crate::dispatch::{
    enter_attempt, lemma_calls_never_exceed_max_attempts, replay, trace_start, Action, ActionView,
    Dispatcher, DispatcherView, EventView,
};
use crate::error::Error;
use crate::estimate::{
    admission_for, admits, context_estimate, estimate_context, total_chars, Admission,
};
use crate::message::{assemble, assembled, optional_text, views, Message, MessageView};
use crate::ollama::{dispatcher_for, request};
use crate::registry::definition_of;
use vstd::prelude::*;

verus! {

/// What the pipeline has decided for a request before any network activity.
#[derive(Debug)]
pub enum Plan {
    /// The request is larger than the ceiling. Nothing is sent; this is a
    /// deliberate skip, not an error.
    Skipped { num_ctx: u32 },
    /// The request was admitted and its dispatcher took the first decision.
    Dispatch { num_ctx: u32, dispatcher: Dispatcher, action: Action },
}

/// The mathematical value of a [`Plan`].
pub enum PlanView {
    Skipped { num_ctx: u32 },
    Dispatch { num_ctx: u32, dispatcher: DispatcherView, action: ActionView },
}

impl View for Plan {
    type V = PlanView;

    open spec fn view(&self) -> PlanView {
        match *self {
            Plan::Skipped { num_ctx } => PlanView::Skipped { num_ctx },
            Plan::Dispatch { num_ctx, dispatcher, action } => PlanView::Dispatch {
                num_ctx,
                dispatcher: dispatcher@,
                action: action@,
            },
        }
    }
}

/// The plan of an admitted request: one dispatcher, started at attempt 1
/// with the estimated context window.
pub open spec fn dispatch_plan(config: ConfigView, messages: Seq<MessageView>, num_ctx: u32) -> PlanView {
    let start = enter_attempt(dispatcher_for(config, messages, Some(num_ctx), 1));
    PlanView::Dispatch { num_ctx, dispatcher: start.0, action: start.1 }
}

/// The plan for a message sequence, or the error that prevents one.
pub open spec fn planned(config: ConfigView, messages: Seq<MessageView>) -> Result<PlanView, Error> {
    if total_chars(messages) > u32::MAX {
        Err(Error::MessagesTooLong)
    } else {
        let num_ctx = context_estimate(messages) as u32;
        if admits(num_ctx, config.skip_larger) {
            Ok(dispatch_plan(config, messages, num_ctx))
        } else {
            Ok(PlanView::Skipped { num_ctx })
        }
    }
}

/// The plan for a caller's input under a configuration, or the error that
/// prevents one. A usage error comes before everything else.
pub open spec fn run_plan(
    config: ConfigView,
    body: Seq<char>,
    criteria: Option<Seq<char>>,
) -> Result<PlanView, Error> {
    match assembled(definition_of(config.mode), body, config.question, criteria) {
        Ok(messages) => planned(config, messages),
        Err(e) => Err(e),
    }
}

/// The network calls that a pipeline invocation issues when the given events
/// arrive: none without a dispatcher.
pub open spec fn calls_of(plan: Result<PlanView, Error>, events: Seq<EventView>) -> nat {
    match plan {
        Ok(PlanView::Dispatch { num_ctx, dispatcher, action }) => replay(
            trace_start((dispatcher, action)),
            events,
        ).calls,
        _ => 0,
    }
}

/// Estimates the context window of a message sequence, applies admission
/// control, and starts the dispatcher of an admitted request.
pub fn run_request(config: &Config, messages: Vec<Message>) -> (r: Result<Plan, Error>)
    ensures
        match planned(config@, views(messages@)) {
            Ok(plan) => r is Ok && r->Ok_0@ == plan,
            Err(e) => r is Err && r->Err_0 == e,
        },
{
    let num_ctx = match estimate_context(&messages) {
        Ok(n) => n,
        Err(e) => {
            return Err(e);
        },
    };
    match admission_for(num_ctx, config.skip_larger) {
        Admission::Skipped => Ok(Plan::Skipped { num_ctx }),
        Admission::Admitted => {
            let (dispatcher, action) = request(config, messages, Some(num_ctx), 1);
            Ok(Plan::Dispatch { num_ctx, dispatcher, action })
        },
    }
}

/// Runs the pipeline for the configured mode up to its first decision.
///
/// `body` is the code or diff under analysis and `criteria` the acceptance
/// criteria, when the caller has any. The question comes from the
/// configuration.
pub fn run(config: &Config, body: &str, criteria: Option<&str>) -> (r: Result<Plan, Error>)
    ensures
        match run_plan(config@, body@, optional_text(criteria)) {
            Ok(plan) => r is Ok && r->Ok_0@ == plan,
            Err(e) => r is Err && r->Err_0 == e,
        },
{
    let definition = config.mode.definition();
    let question = match &config.question {
        Some(q) => Some(q.as_str()),
        None => None,
    };
    match assemble(&definition, body, question, criteria) {
        Ok(messages) => run_request(config, messages),
        Err(e) => Err(e),
    }
}

/// With a ceiling below the estimate the request is skipped: the plan holds
/// no dispatcher and no network call is made, whatever happens afterwards.
pub proof fn lemma_oversized_request_is_skipped(
    config: ConfigView,
    messages: Seq<MessageView>,
    events: Seq<EventView>,
)
    requires
        total_chars(messages) <= u32::MAX,
        config.skip_larger matches Some(ceiling) && context_estimate(messages) > ceiling,
    ensures
        planned(config, messages) == Ok::<PlanView, Error>(
            PlanView::Skipped { num_ctx: context_estimate(messages) as u32 },
        ),
        calls_of(planned(config, messages), events) == 0,
{
}

/// With no ceiling, or one that is not below the estimate, the request is
/// admitted: exactly one dispatcher is started, at attempt 1, with the
/// estimated context window.
pub proof fn lemma_admitted_request_is_dispatched(config: ConfigView, messages: Seq<MessageView>)
    requires
        total_chars(messages) <= u32::MAX,
        config.skip_larger matches Some(ceiling) ==> context_estimate(messages) <= ceiling,
    ensures
        planned(config, messages) == Ok::<PlanView, Error>(
            dispatch_plan(config, messages, context_estimate(messages) as u32),
        ),
{
}

/// The ceiling is a cost gate only: an admitted request is planned exactly
/// as it would be with no ceiling configured.
pub proof fn lemma_ceiling_changes_nothing_else(config: ConfigView, messages: Seq<MessageView>)
    requires
        total_chars(messages) <= u32::MAX,
        admits(context_estimate(messages) as u32, config.skip_larger),
    ensures
        planned(config, messages) == planned(
            ConfigView { skip_larger: None, ..config },
            messages,
        ),
{
}

/// A mode that requires a question, run without one, ends in a usage error
/// before any network call.
pub proof fn lemma_missing_question_stops_the_pipeline(
    config: ConfigView,
    body: Seq<char>,
    criteria: Option<Seq<char>>,
    events: Seq<EventView>,
)
    requires
        definition_of(config.mode).requires_question,
        config.question is None,
    ensures
        run_plan(config, body, criteria) == Err::<PlanView, Error>(Error::QuestionMissing),
        Error::QuestionMissing.is_usage(),
        calls_of(run_plan(config, body, criteria), events) == 0,
{
}

/// One pipeline invocation issues at most `max_attempts` network calls,
/// whatever events arrive.
pub proof fn lemma_pipeline_calls_are_bounded(
    config: ConfigView,
    body: Seq<char>,
    criteria: Option<Seq<char>>,
    events: Seq<EventView>,
)
    ensures
        calls_of(run_plan(config, body, criteria), events) <= config.max_attempts,
{
    if let Ok(messages) = assembled(definition_of(config.mode), body, config.question, criteria) {
        if total_chars(messages) <= u32::MAX {
            let num_ctx = context_estimate(messages) as u32;
            lemma_calls_never_exceed_max_attempts(
                dispatcher_for(config, messages, Some(num_ctx), 1),
                events,
            );
        }
    }
}

} // verus!

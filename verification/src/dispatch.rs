//! The request dispatcher: a state machine that decides, after each event of
//! the network exchange, what the embedding program does next.
//!
//! The machine never performs I/O. It hands out an [`Action`], the embedding
//! program performs it and reports back an [`Event`]. One logical request is
//! one walk through the machine; retries are sequential and unconditional,
//! without delay, and bounded by the configured attempt count.

use crate::error::Error;
use crate::format::{format_reply, reply_text};
use crate::ollama::{OllamaRequest, OllamaRequestView, OllamaResponse};
use vstd::prelude::*;

verus! {

/// The attempt counter of one logical request.
#[derive(Clone, Copy, Debug, PartialEq, Eq, Structural)]
pub struct RetryState {
    /// The attempt under way, counted from 1.
    pub attempt: u16,
    /// The number of network calls that the request may make.
    pub max_attempts: u8,
}

/// Where a dispatcher stands between two events.
#[derive(Clone, Copy, Debug, PartialEq, Eq, Structural)]
pub enum Phase {
    /// A network call was issued and its result is awaited.
    InFlight,
    /// The exchange completed with a success status; its body is awaited.
    ReadingReply { status: u16 },
    /// The request has reached its outcome.
    Finished,
}

/// What the embedding program reports after performing an action.
#[derive(Debug)]
pub enum Event {
    /// The HTTP client could not be constructed.
    ClientFailed,
    /// The exchange did not complete: refused, timed out, unresolved.
    TransportFailed,
    /// The exchange completed with this HTTP status.
    Status(u16),
    /// The body of a completed exchange could not be received.
    BodyUnreadable,
    /// The body of a completed exchange is not a chat reply.
    BodyMalformed,
    /// The reply parsed from the body of a completed exchange.
    Reply(OllamaResponse),
}

/// The mathematical value of an [`Event`].
pub enum EventView {
    ClientFailed,
    TransportFailed,
    Status(u16),
    BodyUnreadable,
    BodyMalformed,
    Reply(Seq<char>),
}

impl View for Event {
    type V = EventView;

    open spec fn view(&self) -> EventView {
        match *self {
            Event::ClientFailed => EventView::ClientFailed,
            Event::TransportFailed => EventView::TransportFailed,
            Event::Status(code) => EventView::Status(code),
            Event::BodyUnreadable => EventView::BodyUnreadable,
            Event::BodyMalformed => EventView::BodyMalformed,
            Event::Reply(response) => EventView::Reply(response@.content),
        }
    }
}

/// How one logical request ended.
#[derive(Debug)]
pub enum RequestOutcome {
    /// The server replied; `text` is the formatted reply.
    Replied { text: String, status: u16 },
    /// Every permitted attempt failed in transport.
    Exhausted,
    /// A failure that is never retried.
    Failed(Error),
}

/// The mathematical value of a [`RequestOutcome`].
pub enum RequestOutcomeView {
    Replied { text: Seq<char>, status: u16 },
    Exhausted,
    Failed(Error),
}

impl View for RequestOutcome {
    type V = RequestOutcomeView;

    open spec fn view(&self) -> RequestOutcomeView {
        match *self {
            RequestOutcome::Replied { text, status } => RequestOutcomeView::Replied {
                text: text@,
                status,
            },
            RequestOutcome::Exhausted => RequestOutcomeView::Exhausted,
            RequestOutcome::Failed(e) => RequestOutcomeView::Failed(e),
        }
    }
}

/// What the caller of the pipeline receives for an outcome: the formatted
/// reply, the empty text after exhaustion, or the error.
pub open spec fn outcome_result(outcome: RequestOutcomeView) -> Result<Seq<char>, Error> {
    match outcome {
        RequestOutcomeView::Replied { text, status } => Ok(text),
        RequestOutcomeView::Exhausted => Ok(Seq::empty()),
        RequestOutcomeView::Failed(e) => Err(e),
    }
}

impl RequestOutcome {
    /// What the caller of the pipeline receives: the formatted reply, the
    /// empty text after exhaustion, or the error.
    pub fn into_result(self) -> (r: Result<String, Error>)
        ensures
            match outcome_result(self@) {
                Ok(text) => r is Ok && r->Ok_0@ == text,
                Err(e) => r == Err::<String, Error>(e),
            },
    {
        match self {
            RequestOutcome::Replied { text, status } => Ok(text),
            RequestOutcome::Exhausted => Ok(String::new()),
            RequestOutcome::Failed(e) => Err(e),
        }
    }
}

/// What the embedding program does next.
#[derive(Debug)]
pub enum Action {
    /// Issue one network call with the dispatcher's request.
    Send,
    /// Receive and parse the body of the completed exchange.
    ReadReply,
    /// Stop: the request has this outcome.
    Finish(RequestOutcome),
    /// Nothing: the event does not belong to the current phase.
    Ignored,
}

/// The mathematical value of an [`Action`].
pub enum ActionView {
    Send,
    ReadReply,
    Finish(RequestOutcomeView),
    Ignored,
}

impl View for Action {
    type V = ActionView;

    open spec fn view(&self) -> ActionView {
        match *self {
            Action::Send => ActionView::Send,
            Action::ReadReply => ActionView::ReadReply,
            Action::Finish(outcome) => ActionView::Finish(outcome@),
            Action::Ignored => ActionView::Ignored,
        }
    }
}

/// The mathematical value of a [`Dispatcher`].
pub struct DispatcherView {
    pub attempt: nat,
    pub max_attempts: nat,
    pub phase: Phase,
    pub request: OllamaRequestView,
    pub url: Seq<char>,
    pub timeout: u64,
}

impl DispatcherView {
    /// The attempt counter stays within one of the attempt count, and a
    /// request that is still under way has not used up its attempts.
    pub open spec fn well_formed(self) -> bool {
        &&& self.attempt <= self.max_attempts + 1
        &&& self.phase != Phase::Finished ==> self.attempt <= self.max_attempts
    }

    /// The same dispatcher in another phase.
    pub open spec fn at(self, phase: Phase) -> DispatcherView {
        DispatcherView { phase, ..self }
    }

    /// The same dispatcher at another attempt.
    pub open spec fn on_attempt(self, attempt: nat) -> DispatcherView {
        DispatcherView { attempt, ..self }
    }

    /// The network calls that the dispatcher may still make.
    pub open spec fn calls_left(self) -> nat {
        if self.phase == Phase::InFlight && self.attempt <= self.max_attempts {
            (self.max_attempts - self.attempt) as nat
        } else {
            0
        }
    }
}

/// Whether a completed exchange carries a reply.
pub open spec fn is_success_status(status: u16) -> bool {
    status == 200 || status == 201
}

/// Entering an attempt: with attempts left a call is issued, otherwise the
/// request is exhausted and no call is made.
pub open spec fn enter_attempt(d: DispatcherView) -> (DispatcherView, ActionView) {
    if d.attempt > d.max_attempts {
        (
            d.on_attempt(d.max_attempts + 1).at(Phase::Finished),
            ActionView::Finish(RequestOutcomeView::Exhausted),
        )
    } else {
        (d.at(Phase::InFlight), ActionView::Send)
    }
}

/// Ending the request with a failure that is not retried.
pub open spec fn fail_with(d: DispatcherView, e: Error) -> (DispatcherView, ActionView) {
    (d.at(Phase::Finished), ActionView::Finish(RequestOutcomeView::Failed(e)))
}

/// The transition of the dispatcher: the state after an event and the
/// action that answers it.
///
/// A transport failure is retried at once. A completed exchange is final:
/// a success status leads to the reply, any other status is fatal, and so is
/// a success body that cannot be received or parsed.
pub open spec fn dispatch_step(d: DispatcherView, event: EventView) -> (
    DispatcherView,
    ActionView,
) {
    match d.phase {
        Phase::InFlight => match event {
            EventView::TransportFailed => enter_attempt(d.on_attempt(d.attempt + 1)),
            EventView::ClientFailed => fail_with(d, Error::ClientUnavailable),
            EventView::Status(status) => if is_success_status(status) {
                (d.at(Phase::ReadingReply { status }), ActionView::ReadReply)
            } else {
                fail_with(d, Error::OllamaRequestProblem)
            },
            _ => (d, ActionView::Ignored),
        },
        Phase::ReadingReply { status } => match event {
            EventView::Reply(content) => (
                d.at(Phase::Finished),
                ActionView::Finish(
                    RequestOutcomeView::Replied {
                        text: reply_text(content, d.request.model),
                        status,
                    },
                ),
            ),
            EventView::BodyUnreadable => fail_with(d, Error::ReplyUnreadable),
            EventView::BodyMalformed => fail_with(d, Error::ReplyMalformed),
            _ => (d, ActionView::Ignored),
        },
        Phase::Finished => (d, ActionView::Ignored),
    }
}

/// The dispatcher of one logical request.
///
/// It owns the request envelope, which is the same on every attempt, and the
/// attempt counter.
#[derive(Debug)]
pub struct Dispatcher {
    retry: RetryState,
    phase: Phase,
    envelope: OllamaRequest,
    url: String,
    timeout: u64,
}

impl View for Dispatcher {
    type V = DispatcherView;

    closed spec fn view(&self) -> DispatcherView {
        DispatcherView {
            attempt: self.retry.attempt as nat,
            max_attempts: self.retry.max_attempts as nat,
            phase: self.phase,
            request: self.envelope@,
            url: self.url@,
            timeout: self.timeout,
        }
    }
}

impl Dispatcher {
    #[verifier::type_invariant]
    spec fn counter_in_bounds(self) -> bool {
        self@.well_formed()
    }

    /// Starts a logical request at the given attempt and takes its first
    /// decision: to issue a call, or to give up when no attempt is left.
    pub fn start(
        envelope: OllamaRequest,
        url: String,
        timeout: u64,
        max_attempts: u8,
        attempt: u8,
    ) -> (r: (Dispatcher, Action))
        ensures
            (r.0@, r.1@) == enter_attempt(
                DispatcherView {
                    attempt: attempt as nat,
                    max_attempts: max_attempts as nat,
                    phase: Phase::InFlight,
                    request: envelope@,
                    url: url@,
                    timeout,
                },
            ),
            r.0@.well_formed(),
    {
        if attempt > max_attempts {
            let retry = RetryState { attempt: max_attempts as u16 + 1, max_attempts };
            let d = Dispatcher { retry, phase: Phase::Finished, envelope, url, timeout };
            (d, Action::Finish(RequestOutcome::Exhausted))
        } else {
            let retry = RetryState { attempt: attempt as u16, max_attempts };
            let d = Dispatcher { retry, phase: Phase::InFlight, envelope, url, timeout };
            (d, Action::Send)
        }
    }

    /// The request that every attempt sends.
    pub fn request(&self) -> (r: &OllamaRequest)
        ensures
            r@ == self@.request,
    {
        &self.envelope
    }

    /// The address of the chat endpoint.
    pub fn url(&self) -> (r: &str)
        ensures
            r@ == self@.url,
    {
        self.url.as_str()
    }

    /// Seconds that bound both connecting and receiving, per attempt.
    pub fn timeout(&self) -> (r: u64)
        ensures
            r == self@.timeout,
    {
        self.timeout
    }

    /// The attempt counter.
    pub fn retry_state(&self) -> (r: RetryState)
        ensures
            r.attempt == self@.attempt,
            r.max_attempts == self@.max_attempts,
            r.attempt <= r.max_attempts + 1,
    {
        proof {
            use_type_invariant(self);
        }
        self.retry
    }

    /// Where the dispatcher stands.
    pub fn phase(&self) -> (r: Phase)
        ensures
            r == self@.phase,
    {
        self.phase
    }

    /// Whether the request has reached its outcome.
    pub fn is_finished(&self) -> (r: bool)
        ensures
            r == (self@.phase == Phase::Finished),
    {
        match self.phase {
            Phase::Finished => true,
            _ => false,
        }
    }

    /// Takes the decision that answers an event.
    pub fn step(&mut self, event: Event) -> (action: Action)
        ensures
            (final(self)@, action@) == dispatch_step(old(self)@, event@),
            final(self)@.well_formed(),
    {
        proof {
            use_type_invariant(&*self);
        }
        match self.phase {
            Phase::InFlight => match event {
                Event::TransportFailed => {
                    self.phase = Phase::Finished;
                    if self.retry.attempt < self.retry.max_attempts as u16 {
                        self.retry = RetryState {
                            attempt: self.retry.attempt + 1,
                            max_attempts: self.retry.max_attempts,
                        };
                        self.phase = Phase::InFlight;
                        Action::Send
                    } else {
                        self.retry = RetryState {
                            attempt: self.retry.max_attempts as u16 + 1,
                            max_attempts: self.retry.max_attempts,
                        };
                        Action::Finish(RequestOutcome::Exhausted)
                    }
                },
                Event::ClientFailed => {
                    self.phase = Phase::Finished;
                    Action::Finish(RequestOutcome::Failed(Error::ClientUnavailable))
                },
                Event::Status(status) => {
                    if status == 200 || status == 201 {
                        self.phase = Phase::ReadingReply { status };
                        Action::ReadReply
                    } else {
                        self.phase = Phase::Finished;
                        Action::Finish(RequestOutcome::Failed(Error::OllamaRequestProblem))
                    }
                },
                _ => Action::Ignored,
            },
            Phase::ReadingReply { status } => match event {
                Event::Reply(response) => {
                    let text = format_reply(response.content(), self.envelope.model.as_str());
                    self.phase = Phase::Finished;
                    Action::Finish(RequestOutcome::Replied { text, status })
                },
                Event::BodyUnreadable => {
                    self.phase = Phase::Finished;
                    Action::Finish(RequestOutcome::Failed(Error::ReplyUnreadable))
                },
                Event::BodyMalformed => {
                    self.phase = Phase::Finished;
                    Action::Finish(RequestOutcome::Failed(Error::ReplyMalformed))
                },
                _ => Action::Ignored,
            },
            Phase::Finished => Action::Ignored,
        }
    }
}

/// The network calls that an action stands for.
pub open spec fn call_count(action: ActionView) -> nat {
    if action is Send {
        1
    } else {
        0
    }
}

/// A logical request as far as it has run: where the dispatcher stands, its
/// latest action, and the network calls issued so far.
pub struct Trace {
    pub state: DispatcherView,
    pub action: ActionView,
    pub calls: nat,
}

/// The trace of a request that has only taken its first decision.
pub open spec fn trace_start(start: (DispatcherView, ActionView)) -> Trace {
    Trace { state: start.0, action: start.1, calls: call_count(start.1) }
}

/// The trace after one more event.
pub open spec fn trace_extend(trace: Trace, event: EventView) -> Trace {
    let next = dispatch_step(trace.state, event);
    Trace { state: next.0, action: next.1, calls: trace.calls + call_count(next.1) }
}

/// The trace after a sequence of events, in order.
pub open spec fn replay(trace: Trace, events: Seq<EventView>) -> Trace
    decreases events.len(),
{
    if events.len() == 0 {
        trace
    } else {
        replay(trace_extend(trace, events[0]), events.drop_first())
    }
}

/// The attempt counter never exceeds the attempt count by more than one:
/// every transition keeps a dispatcher well formed. The counter never goes
/// back, and the request, its address and its timeout are the same on every
/// attempt.
pub proof fn lemma_step_keeps_counter_in_bounds(d: DispatcherView, event: EventView)
    requires
        d.well_formed(),
    ensures
        dispatch_step(d, event).0.well_formed(),
        dispatch_step(d, event).0.max_attempts == d.max_attempts,
        dispatch_step(d, event).0.attempt >= d.attempt,
        dispatch_step(d, event).0.request == d.request,
        dispatch_step(d, event).0.url == d.url,
        dispatch_step(d, event).0.timeout == d.timeout,
{
}

/// Whatever events arrive, a dispatcher issues no more calls than it has
/// attempts left.
pub proof fn lemma_calls_within_attempts_left(trace: Trace, events: Seq<EventView>)
    requires
        trace.state.well_formed(),
    ensures
        replay(trace, events).calls <= trace.calls + trace.state.calls_left(),
        replay(trace, events).calls >= trace.calls,
        replay(trace, events).state.well_formed(),
        replay(trace, events).state.max_attempts == trace.state.max_attempts,
    decreases events.len(),
{
    if events.len() > 0 {
        let next = trace_extend(trace, events[0]);
        lemma_step_keeps_counter_in_bounds(trace.state, events[0]);
        lemma_calls_within_attempts_left(next, events.drop_first());
    }
}

/// A logical request that starts at attempt 1 issues at most `max_attempts`
/// network calls, whatever events arrive and however many.
pub proof fn lemma_calls_never_exceed_max_attempts(d: DispatcherView, events: Seq<EventView>)
    requires
        d.attempt == 1,
        d.phase == Phase::InFlight,
    ensures
        replay(trace_start(enter_attempt(d)), events).calls <= d.max_attempts,
{
    lemma_calls_within_attempts_left(trace_start(enter_attempt(d)), events);
}

/// A request that has reached its outcome stays there: later events are
/// ignored and no further call is issued.
pub proof fn lemma_finished_is_final(trace: Trace, events: Seq<EventView>)
    requires
        trace.state.phase == Phase::Finished,
    ensures
        replay(trace, events).state == trace.state,
        replay(trace, events).calls == trace.calls,
        events.len() > 0 ==> replay(trace, events).action == ActionView::Ignored,
    decreases events.len(),
{
    if events.len() > 0 {
        let next = trace_extend(trace, events[0]);
        lemma_finished_is_final(next, events.drop_first());
    }
}

/// A completed exchange with a status other than 200 or 201 ends the request
/// with the request-problem error, and no attempt follows it.
pub proof fn lemma_fatal_status_ends_request(
    trace: Trace,
    status: u16,
    later: Seq<EventView>,
)
    requires
        trace.state.phase == Phase::InFlight,
        !is_success_status(status),
    ensures
        trace_extend(trace, EventView::Status(status)).action == ActionView::Finish(
            RequestOutcomeView::Failed(Error::OllamaRequestProblem),
        ),
        replay(trace_extend(trace, EventView::Status(status)), later).calls == trace.calls,
{
    lemma_finished_is_final(trace_extend(trace, EventView::Status(status)), later);
}

/// A reply to a success status ends the request with the model's words
/// followed by the provenance signature, under the status that carried it.
pub proof fn lemma_reply_is_signed(d: DispatcherView, status: u16, content: Seq<char>)
    requires
        d.phase == Phase::InFlight,
        is_success_status(status),
    ensures
        ({
            let reading = dispatch_step(d, EventView::Status(status));
            let done = dispatch_step(reading.0, EventView::Reply(content));
            &&& reading.1 == ActionView::ReadReply
            &&& done.1 == ActionView::Finish(
                RequestOutcomeView::Replied { text: reply_text(content, d.request.model), status },
            )
            &&& outcome_result(done.1->Finish_0) == Ok::<Seq<char>, Error>(
                reply_text(content, d.request.model),
            )
        }),
{
}

/// While every attempt fails in transport, each failure but the last is
/// answered by another call.
proof fn lemma_failures_use_every_attempt(trace: Trace, events: Seq<EventView>)
    requires
        trace.state.phase == Phase::InFlight,
        trace.state.attempt <= trace.state.max_attempts,
        events.len() == trace.state.max_attempts - trace.state.attempt + 1,
        forall|i: int| 0 <= i < events.len() ==> events[i] == EventView::TransportFailed,
    ensures
        replay(trace, events).calls == trace.calls + trace.state.max_attempts
            - trace.state.attempt,
        replay(trace, events).action == ActionView::Finish(RequestOutcomeView::Exhausted),
        replay(trace, events).state.phase == Phase::Finished,
    decreases events.len(),
{
    let next = trace_extend(trace, events[0]);
    let rest = events.drop_first();
    if trace.state.attempt < trace.state.max_attempts {
        assert forall|i: int| 0 <= i < rest.len() implies rest[i]
            == EventView::TransportFailed by {
            assert(rest[i] == events[i + 1]);
        }
        lemma_failures_use_every_attempt(next, rest);
    } else {
        assert(rest.len() == 0);
        assert(replay(next, rest) == next);
    }
}

/// When the transport fails on every attempt, a request that starts at
/// attempt 1 issues exactly `max_attempts` calls and then ends exhausted:
/// the caller receives the empty text and no error.
pub proof fn lemma_persistent_failure_exhausts(d: DispatcherView, events: Seq<EventView>)
    requires
        d.attempt == 1,
        d.phase == Phase::InFlight,
        events.len() == d.max_attempts,
        forall|i: int| 0 <= i < events.len() ==> events[i] == EventView::TransportFailed,
    ensures
        replay(trace_start(enter_attempt(d)), events).calls == d.max_attempts,
        replay(trace_start(enter_attempt(d)), events).action == ActionView::Finish(
            RequestOutcomeView::Exhausted,
        ),
        outcome_result(RequestOutcomeView::Exhausted) == Ok::<Seq<char>, Error>(Seq::empty()),
{
    let start = trace_start(enter_attempt(d));
    if d.max_attempts == 0 {
        assert(replay(start, events) == start);
    } else {
        lemma_failures_use_every_attempt(start, events);
    }
}

} // verus!

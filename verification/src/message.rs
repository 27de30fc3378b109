//! Chat messages and their assembly from a mode's template and the caller's
//! input.

use crate::error::Error;
use crate::registry::{ModeDefinition, ModeDefinitionView};
use crate::text::join;
use vstd::prelude::*;
use vstd::utf8::encode_utf8;

verus! {

/// The role of a message that carries instructions.
pub const ROLE_SYSTEM: &'static str = "system";

/// The role of a message that carries the caller's input.
pub const ROLE_USER: &'static str = "user";

/// The label in front of the acceptance criteria.
pub const CRITERIA_LABEL: &'static str = "Here are the acceptance criteria: ";

/// The label in front of the primary text body.
pub const BODY_LABEL: &'static str = "Here is the code: ";

/// One entry of a chat request. Messages are never changed once created, and
/// their order within a request is significant.
#[derive(Debug)]
pub struct Message {
    pub content: String,
    pub role: String,
}

/// The mathematical value of a [`Message`].
pub struct MessageView {
    pub content: Seq<char>,
    pub role: Seq<char>,
}

impl View for Message {
    type V = MessageView;

    open spec fn view(&self) -> MessageView {
        MessageView { content: self.content@, role: self.role@ }
    }
}

impl Clone for Message {
    fn clone(&self) -> (r: Message)
        ensures
            r@ == self@,
    {
        Message { content: self.content.clone(), role: self.role.clone() }
    }
}

impl Message {
    /// A message with the system role.
    pub fn system(content: String) -> (r: Message)
        ensures
            r@ == system_message(content@),
    {
        Message { content, role: ROLE_SYSTEM.to_owned() }
    }

    /// A message with the user role.
    pub fn user(content: String) -> (r: Message)
        ensures
            r@ == user_message(content@),
    {
        Message { content, role: ROLE_USER.to_owned() }
    }
}

/// The system message with the given content.
pub open spec fn system_message(content: Seq<char>) -> MessageView {
    MessageView { content, role: ROLE_SYSTEM@ }
}

/// The user message with the given content.
pub open spec fn user_message(content: Seq<char>) -> MessageView {
    MessageView { content, role: ROLE_USER@ }
}

/// The mathematical values of a sequence of messages, in order.
pub open spec fn views(messages: Seq<Message>) -> Seq<MessageView> {
    Seq::new(messages.len(), |i: int| messages[i]@)
}

/// The characters of an optional text.
pub open spec fn optional_text(text: Option<&str>) -> Option<Seq<char>> {
    match text {
        Some(s) => Some(s@),
        None => None,
    }
}

/// One system message per instructional text, in the declared order.
pub open spec fn instruction_messages(texts: Seq<Seq<char>>) -> Seq<MessageView> {
    Seq::new(texts.len(), |i: int| system_message(texts[i]))
}

/// The system message that carries the acceptance criteria, when present.
pub open spec fn criteria_messages(criteria: Option<Seq<char>>) -> Seq<MessageView> {
    match criteria {
        Some(c) => seq![system_message(CRITERIA_LABEL@ + c)],
        None => seq![],
    }
}

/// The user message that carries the question, when the mode takes one and
/// one is present.
pub open spec fn question_messages(
    definition: ModeDefinitionView,
    question: Option<Seq<char>>,
) -> Seq<MessageView> {
    match question {
        Some(q) if definition.accepts_question => seq![
            user_message(definition.question_label + q),
        ],
        _ => seq![],
    }
}

/// The final user message that carries the primary body, when the mode
/// takes one.
pub open spec fn body_messages(definition: ModeDefinitionView, body: Seq<char>) -> Seq<
    MessageView,
> {
    if definition.takes_body {
        seq![user_message(BODY_LABEL@ + body)]
    } else {
        seq![]
    }
}

/// The message sequence of a request, or the usage error that prevents it.
///
/// Instructions come first, then the acceptance criteria, then the question,
/// and the primary body last. A required question is checked before required
/// criteria.
pub open spec fn assembled(
    definition: ModeDefinitionView,
    body: Seq<char>,
    question: Option<Seq<char>>,
    criteria: Option<Seq<char>>,
) -> Result<Seq<MessageView>, Error> {
    if definition.requires_question && question is None {
        Err(Error::QuestionMissing)
    } else if definition.requires_criteria_file && criteria is None {
        Err(Error::CriteriaMissing)
    } else {
        Ok(
            instruction_messages(definition.instructional_texts) + criteria_messages(criteria)
                + question_messages(definition, question) + body_messages(definition, body),
        )
    }
}

/// Assembles the ordered message sequence of a request.
///
/// Fails with a usage error exactly when the mode requires a question or
/// acceptance criteria and the caller supplied none.
pub fn assemble(
    definition: &ModeDefinition,
    body: &str,
    question: Option<&str>,
    criteria: Option<&str>,
) -> (r: Result<Vec<Message>, Error>)
    ensures
        match assembled(definition@, body@, optional_text(question), optional_text(criteria)) {
            Ok(expected) => r is Ok && views(r->Ok_0@) == expected,
            Err(e) => r == Err::<Vec<Message>, Error>(e),
        },
{
    if definition.requires_question && question.is_none() {
        return Err(Error::QuestionMissing);
    }
    if definition.requires_criteria_file && criteria.is_none() {
        return Err(Error::CriteriaMissing);
    }
    let mut messages: Vec<Message> = Vec::new();
    let count = definition.instructional_texts.len();
    let mut i: usize = 0;
    while i < count
        invariant
            i <= count,
            count == definition.instructional_texts.len(),
            count == definition@.instructional_texts.len(),
            views(messages@) == instruction_messages(definition@.instructional_texts).take(
                i as int,
            ),
        decreases count - i,
    {
        let text = definition.instructional_texts[i].clone();
        assert(text@ == definition@.instructional_texts[i as int]);
        let ghost before = views(messages@);
        messages.push(Message::system(text));
        assert(views(messages@) =~= before.push(system_message(text@)));
        i = i + 1;
        assert(views(messages@) =~= instruction_messages(definition@.instructional_texts).take(
            i as int,
        ));
    }
    assert(views(messages@) =~= instruction_messages(definition@.instructional_texts));
    if let Some(c) = criteria {
        let ghost before = views(messages@);
        messages.push(Message::system(join(CRITERIA_LABEL, c)));
        assert(views(messages@) =~= before + criteria_messages(Some(c@)));
    }
    let ghost with_criteria = views(messages@);
    assert(with_criteria =~= instruction_messages(definition@.instructional_texts)
        + criteria_messages(optional_text(criteria)));
    if definition.accepts_question {
        if let Some(q) = question {
            messages.push(Message::user(join(definition.question_label.as_str(), q)));
        }
    }
    let ghost with_question = views(messages@);
    assert(with_question =~= with_criteria + question_messages(
        definition@,
        optional_text(question),
    ));
    if definition.takes_body {
        messages.push(Message::user(join(BODY_LABEL, body)));
    }
    assert(views(messages@) =~= with_question + body_messages(definition@, body@));
    Ok(messages)
}

/// Assembly is a function of the mode and the inputs: two sequences that are
/// assembled from the same mode and inputs agree message by message, in the
/// characters of role and content and so in their bytes.
pub proof fn lemma_assembly_is_deterministic(
    definition: ModeDefinitionView,
    body: Seq<char>,
    question: Option<Seq<char>>,
    criteria: Option<Seq<char>>,
    first: Seq<Message>,
    second: Seq<Message>,
)
    requires
        assembled(definition, body, question, criteria) == Ok::<Seq<MessageView>, Error>(
            views(first),
        ),
        assembled(definition, body, question, criteria) == Ok::<Seq<MessageView>, Error>(
            views(second),
        ),
    ensures
        first.len() == second.len(),
        forall|i: int|
            0 <= i < first.len() ==> {
                &&& (#[trigger] first[i])@ == second[i]@
                &&& encode_utf8(first[i].content@) == encode_utf8(second[i].content@)
                &&& encode_utf8(first[i].role@) == encode_utf8(second[i].role@)
            },
{
    assert(views(first) == views(second));
    assert(views(first).len() == first.len());
    assert(views(second).len() == second.len());
    assert forall|i: int| 0 <= i < first.len() implies (#[trigger] first[i])@ == second[i]@ by {
        assert(views(first)[i] == first[i]@);
        assert(views(second)[i] == second[i]@);
    }
}

/// A mode that requires a question yields a usage error, and no messages,
/// when none is supplied.
pub proof fn lemma_missing_question_is_usage_error(
    definition: ModeDefinitionView,
    body: Seq<char>,
    criteria: Option<Seq<char>>,
)
    requires
        definition.requires_question,
    ensures
        assembled(definition, body, None, criteria) == Err::<Seq<MessageView>, Error>(
            Error::QuestionMissing,
        ),
        Error::QuestionMissing.is_usage(),
{
}

/// The instructions lead the sequence and the primary body, when the mode
/// takes one, ends it.
pub proof fn lemma_assembly_order(
    definition: ModeDefinitionView,
    body: Seq<char>,
    question: Option<Seq<char>>,
    criteria: Option<Seq<char>>,
)
    requires
        assembled(definition, body, question, criteria) is Ok,
    ensures
        ({
            let messages = assembled(definition, body, question, criteria)->Ok_0;
            &&& messages.len() >= definition.instructional_texts.len()
            &&& forall|i: int|
                0 <= i < definition.instructional_texts.len() ==> #[trigger] messages[i]
                    == system_message(definition.instructional_texts[i])
            &&& definition.takes_body ==> messages.len() > 0 && messages.last() == user_message(
                BODY_LABEL@ + body,
            )
        }),
{
}

} // verus!

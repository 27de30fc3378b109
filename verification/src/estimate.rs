//! The context estimator and the admission controller.
//!
//! The estimate is a fixed heuristic, not a tokenizer: four characters per
//! token, plus headroom for the model's own response.

use crate::error::Error;
use crate::message::{views, Message, MessageView};
use vstd::prelude::*;
use vstd::string::*;

verus! {

/// Characters that are counted as one token.
pub const CHARS_PER_TOKEN: u32 = 4;

/// Tokens set aside for the model's response.
pub const RESPONSE_HEADROOM: u32 = 4096;

/// The number of characters in the contents of all messages.
pub open spec fn total_chars(messages: Seq<MessageView>) -> nat
    decreases messages.len(),
{
    if messages.len() == 0 {
        0
    } else {
        total_chars(messages.drop_last()) + messages.last().content.len()
    }
}

/// The context window for a request of `total` characters.
pub open spec fn context_for(total: nat) -> nat {
    total / (CHARS_PER_TOKEN as nat) + RESPONSE_HEADROOM as nat
}

/// The context window that a message sequence needs.
pub open spec fn context_estimate(messages: Seq<MessageView>) -> nat {
    context_for(total_chars(messages))
}

/// A longer prefix of a message sequence never has fewer characters.
pub proof fn lemma_total_chars_monotonic(messages: Seq<MessageView>, n: int)
    requires
        0 <= n <= messages.len(),
    ensures
        total_chars(messages.take(n)) <= total_chars(messages),
    decreases messages.len() - n,
{
    if n == messages.len() {
        assert(messages.take(n) =~= messages);
    } else {
        lemma_total_chars_monotonic(messages, n + 1);
        assert(messages.take(n + 1).drop_last() =~= messages.take(n));
    }
}

/// Estimates the context window that a message sequence needs.
///
/// The estimate is exactly a quarter of the character total, rounded down,
/// plus the response headroom. It fails only when the character total does
/// not fit in 32 bits.
pub fn estimate_context(messages: &Vec<Message>) -> (r: Result<u32, Error>)
    ensures
        match r {
            Ok(n) => total_chars(views(messages@)) <= u32::MAX && n == context_estimate(
                views(messages@),
            ),
            Err(e) => total_chars(views(messages@)) > u32::MAX && e == Error::MessagesTooLong,
        },
{
    let ghost all = views(messages@);
    let mut total: u64 = 0;
    let mut i: usize = 0;
    while i < messages.len()
        invariant
            i <= messages.len(),
            all == views(messages@),
            total == total_chars(all.take(i as int)),
            total <= u32::MAX,
        decreases messages.len() - i,
    {
        let length = messages[i].content.as_str().unicode_len();
        proof {
            assert(all.take(i + 1).drop_last() =~= all.take(i as int));
            assert(all.take(i + 1).last().content.len() == length);
            lemma_total_chars_monotonic(all, i + 1);
        }
        if length > u32::MAX as usize {
            return Err(Error::MessagesTooLong);
        }
        total = total + length as u64;
        if total > u32::MAX as u64 {
            return Err(Error::MessagesTooLong);
        }
        i = i + 1;
    }
    assert(all.take(i as int) =~= all);
    let tokens: u32 = (total / CHARS_PER_TOKEN as u64) as u32;
    Ok(tokens + RESPONSE_HEADROOM)
}

/// The verdict of the admission controller.
#[derive(Clone, Copy, Debug, PartialEq, Eq, Structural)]
pub enum Admission {
    /// The request may be dispatched.
    Admitted,
    /// The request is larger than the ceiling and is skipped.
    Skipped,
}

/// Whether a request of the estimated size passes the ceiling. Without a
/// ceiling every request passes.
pub open spec fn admits(estimate: u32, ceiling: Option<u32>) -> bool {
    match ceiling {
        Some(limit) => estimate <= limit,
        None => true,
    }
}

/// Compares the estimated context window against the configured ceiling.
pub fn admission_for(estimate: u32, ceiling: Option<u32>) -> (r: Admission)
    ensures
        r == (if admits(estimate, ceiling) {
            Admission::Admitted
        } else {
            Admission::Skipped
        }),
{
    match ceiling {
        Some(limit) => if estimate > limit {
            Admission::Skipped
        } else {
            Admission::Admitted
        },
        None => Admission::Admitted,
    }
}

/// An estimate never undercounts: four times what lies above the headroom
/// covers the character total to within one token.
pub proof fn lemma_estimate_covers_total(messages: Seq<MessageView>)
    ensures
        context_estimate(messages) >= RESPONSE_HEADROOM,
        4 * (context_estimate(messages) - RESPONSE_HEADROOM) <= total_chars(messages),
        total_chars(messages) < 4 * (context_estimate(messages) - RESPONSE_HEADROOM) + 4,
{
}

/// Appending a message adds its length to the character total.
pub proof fn lemma_total_chars_push(messages: Seq<MessageView>, last: MessageView)
    ensures
        total_chars(messages.push(last)) == total_chars(messages) + last.content.len(),
{
    assert(messages.push(last).drop_last() =~= messages);
}

} // verus!

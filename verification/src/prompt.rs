//! Building the two messages that are sent to the completion service.

use vstd::prelude::*;
use vstd::string::*;

verus! {

/// The most scalar values of the diff that are sent along.
pub const MAX_DIFF_CHARS: usize = 3800;

/// Who speaks in a message.
#[derive(Debug, Clone, Copy, PartialEq, Eq, Structural)]
pub enum Role {
    System,
    User,
}

/// One message of the prompt.
#[derive(Debug, PartialEq, Eq)]
pub struct Message {
    pub role: Role,
    pub content: String,
}

/// A message as a mathematical value.
pub struct MessageView {
    pub role: Role,
    pub content: Seq<char>,
}

impl View for Message {
    type V = MessageView;

    open spec fn view(&self) -> MessageView {
        MessageView { role: self.role, content: self.content@ }
    }
}

impl DeepView for Message {
    type V = MessageView;

    open spec fn deep_view(&self) -> MessageView {
        self@
    }
}

/// The part of the diff that is sent: its first `MAX_DIFF_CHARS` scalar
/// values, or all of it where it has no more. The cut falls wherever the
/// count says, be it in the middle of a line.
pub open spec fn excerpt_of(diff: Seq<char>) -> Seq<char> {
    if diff.len() > MAX_DIFF_CHARS {
        diff.take(MAX_DIFF_CHARS as int)
    } else {
        diff
    }
}

/// The text of the user message: the reason as given, then the excerpt of
/// the diff inside a fenced block that is labelled as a diff.
pub open spec fn user_text(reason: Seq<char>, diff: Seq<char>) -> Seq<char> {
    "\nWhy: "@ + reason + "\nWhat: ```diff\n"@ + excerpt_of(diff) + "\n```\n"@
}

/// The prompt: the system message, which is the context prefix as given,
/// and then the user message.
pub open spec fn prompt_of(reason: Seq<char>, diff: Seq<char>, context_prefix: Seq<char>) -> Seq<
    MessageView,
> {
    seq![
        MessageView { role: Role::System, content: context_prefix },
        MessageView { role: Role::User, content: user_text(reason, diff) },
    ]
}

/// Cuts the diff down to what is sent.
pub fn excerpt(diff: &str) -> (cut: String)
    ensures
        cut@ == excerpt_of(diff@),
        diff@.len() > MAX_DIFF_CHARS ==> cut@.len() == MAX_DIFF_CHARS,
        diff@.len() <= MAX_DIFF_CHARS ==> cut@ == diff@,
{
    if diff.unicode_len() > MAX_DIFF_CHARS {
        String::from_str(diff.substring_char(0, MAX_DIFF_CHARS))
    } else {
        String::from_str(diff)
    }
}

/// The system message for a context prefix.
pub fn system_message(context_prefix: String) -> (message: Message)
    ensures
        message@ == (MessageView { role: Role::System, content: context_prefix@ }),
{
    Message { role: Role::System, content: context_prefix }
}

/// The user message for a reason and a diff.
pub fn user_message(reason: &str, diff: &str) -> (message: Message)
    ensures
        message@ == (MessageView { role: Role::User, content: user_text(reason@, diff@) }),
{
    let cut = excerpt(diff);
    let mut content = String::from_str("\nWhy: ");
    content.append(reason);
    content.append("\nWhat: ```diff\n");
    content.append(cut.as_str());
    content.append("\n```\n");
    Message { role: Role::User, content }
}

/// Builds the prompt for a reason, a diff and a context prefix.
pub fn build(reason: &str, diff: &str, context_prefix: &str) -> (messages: Vec<Message>)
    ensures
        messages.deep_view() == prompt_of(reason@, diff@, context_prefix@),
{
    let mut messages: Vec<Message> = Vec::new();
    messages.push(system_message(String::from_str(context_prefix)));
    messages.push(user_message(reason, diff));
    messages
}

/// The excerpt is a prefix of the diff, has exactly `MAX_DIFF_CHARS`
/// scalar values where the diff has more, and is the whole diff where it
/// has not.
pub proof fn lemma_excerpt_exact(diff: Seq<char>)
    ensures
        excerpt_of(diff) == diff.take(excerpt_of(diff).len() as int),
        diff.len() > MAX_DIFF_CHARS ==> excerpt_of(diff).len() == MAX_DIFF_CHARS,
        diff.len() <= MAX_DIFF_CHARS ==> excerpt_of(diff) == diff,
{
}

/// What lies behind the cut does not reach the user message: two diffs
/// with the same first `MAX_DIFF_CHARS` scalar values give the same text.
pub proof fn lemma_user_text_ignores_tail(reason: Seq<char>, a: Seq<char>, b: Seq<char>)
    requires
        a.len() > MAX_DIFF_CHARS,
        b.len() > MAX_DIFF_CHARS,
        a.take(MAX_DIFF_CHARS as int) == b.take(MAX_DIFF_CHARS as int),
    ensures
        user_text(reason, a) == user_text(reason, b),
{
}

/// The length of the user message in scalar values: the fixed frame, the
/// reason and the excerpt.
pub proof fn lemma_user_text_len(reason: Seq<char>, diff: Seq<char>)
    ensures
        user_text(reason, diff).len() == 26 + reason.len() + excerpt_of(diff).len(),
        diff.len() > MAX_DIFF_CHARS ==> user_text(reason, diff).len() == 26 + reason.len()
            + MAX_DIFF_CHARS,
{
    reveal_strlit("\nWhy: ");
    reveal_strlit("\nWhat: ```diff\n");
    reveal_strlit("\n```\n");
}

} // verus!

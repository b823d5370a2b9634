//! The transcript from which a session is named.
//!
//! A session that was never saved gets its name from the first turns of its
//! conversation. The transcript built here is what the naming request reads:
//! one entry for each message of the user and of the assistant, in the order
//! of the conversation, each with its content cut to a bounded length.

use vstd::prelude::*;
use vstd::string::*;

verus! {

/// The greatest number of characters of a message's content that an entry
/// keeps.
pub const CONTENT_LIMIT: usize = 140;

/// The number of user messages a session must hold before it is named.
pub const USER_TURNS_BEFORE_NAMING: usize = 2;

/// Who wrote a message.
#[derive(Debug, Clone, Copy, PartialEq, Eq)]
pub enum MessageRole {
    System,
    User,
    Assistant,
}

/// One message of a conversation.
#[derive(Debug, PartialEq, Eq)]
pub struct Message {
    pub role: MessageRole,
    pub content: String,
}

/// The mathematical value of a [`Message`].
pub struct MessageView {
    pub role: MessageRole,
    pub content: Seq<char>,
}

impl View for Message {
    type V = MessageView;

    open spec fn view(&self) -> MessageView {
        MessageView { role: self.role, content: self.content@ }
    }
}

impl DeepView for Message {
    type V = MessageView;

    open spec fn deep_view(&self) -> MessageView {
        self@
    }
}

/// What follows the content of an entry that was cut.
pub open spec fn truncation_marker() -> Seq<char> {
    "[...]"@
}

/// The content as an entry shows it: whole where it has at most
/// [`CONTENT_LIMIT`] characters, else its first [`CONTENT_LIMIT`] characters
/// and the truncation marker.
pub open spec fn capped(content: Seq<char>) -> Seq<char> {
    if content.len() > CONTENT_LIMIT {
        content.take(CONTENT_LIMIT as int) + truncation_marker()
    } else {
        content
    }
}

/// The prefix that tells who speaks. The system has none: it gets no entry.
pub open spec fn role_prefix(role: MessageRole) -> Seq<char> {
    match role {
        MessageRole::User => "User: "@,
        MessageRole::Assistant => "Assistant: "@,
        MessageRole::System => Seq::empty(),
    }
}

/// The text of an entry with the given role and shown content: the prefix on
/// a line of its own, the content, and an empty line.
pub open spec fn entry_text(role: MessageRole, shown: Seq<char>) -> Seq<char> {
    role_prefix(role) + "\n"@ + shown + "\n\n"@
}

/// What one message adds to the transcript: nothing for a system message,
/// else its entry with the content capped.
pub open spec fn message_text(message: MessageView) -> Seq<char> {
    if message.role is System {
        Seq::empty()
    } else {
        entry_text(message.role, capped(message.content))
    }
}

/// The transcript of a conversation: what each message adds, in order.
pub open spec fn transcript(messages: Seq<MessageView>) -> Seq<char>
    decreases messages.len(),
{
    if messages.len() == 0 {
        Seq::empty()
    } else {
        transcript(messages.drop_last()) + message_text(messages.last())
    }
}

/// The number of messages that the user wrote.
pub open spec fn user_turns_of(messages: Seq<MessageView>) -> nat
    decreases messages.len(),
{
    if messages.len() == 0 {
        0
    } else {
        let before = user_turns_of(messages.drop_last());
        if messages.last().role is User {
            before + 1
        } else {
            before
        }
    }
}

/// One entry of the transcript: a message of the user or of the assistant,
/// with its content already capped.
#[derive(Debug, PartialEq, Eq)]
pub struct TranscriptEntry {
    pub role: MessageRole,
    pub content: String,
}

impl TranscriptEntry {
    /// An entry never stands for a system message, and its content is at most
    /// [`CONTENT_LIMIT`] characters and the truncation marker.
    pub open spec fn well_formed(&self) -> bool {
        &&& !(self.role is System)
        &&& self.content@.len() <= CONTENT_LIMIT + truncation_marker().len()
    }

    /// The entry for a message: none for a system message, else the message's
    /// role with its content capped.
    pub fn of(message: &Message) -> (entry: Option<TranscriptEntry>)
        ensures
            entry is None <==> message.role is System,
            entry matches Some(e) ==> e.role == message.role && e.content@ == capped(
                message.content@,
            ) && e.well_formed(),
    {
        match message.role {
            MessageRole::System => None,
            role => {
                proof {
                    lemma_capped_is_bounded(message.content@);
                }
                Some(TranscriptEntry { role, content: cap(message.content.as_str()) })
            },
        }
    }

    /// The text of the entry.
    pub fn render(&self) -> (text: String)
        ensures
            text@ == entry_text(self.role, self.content@),
    {
        let mut text = match self.role {
            MessageRole::User => "User: ".to_owned(),
            MessageRole::Assistant => "Assistant: ".to_owned(),
            MessageRole::System => String::new(),
        };
        text.append("\n");
        text.append(self.content.as_str());
        text.append("\n\n");
        text
    }
}

/// A capped content is never longer than the limit and the marker together,
/// and it is the content itself where that fits the limit.
pub proof fn lemma_capped_is_bounded(content: Seq<char>)
    ensures
        capped(content).len() <= CONTENT_LIMIT + truncation_marker().len(),
        content.len() <= CONTENT_LIMIT ==> capped(content) == content,
        content.len() > CONTENT_LIMIT ==> capped(content).len() == CONTENT_LIMIT
            + truncation_marker().len(),
        capped(content).take(CONTENT_LIMIT as int) == content.take(CONTENT_LIMIT as int),
{
    if content.len() > CONTENT_LIMIT {
        assert(capped(content).take(CONTENT_LIMIT as int) =~= content.take(CONTENT_LIMIT as int));
    }
}

/// A transcript is built message by message: the transcript of two
/// conversations, one after the other, is the two transcripts joined.
pub proof fn lemma_transcript_concat(first: Seq<MessageView>, second: Seq<MessageView>)
    ensures
        transcript(first + second) == transcript(first) + transcript(second),
    decreases second.len(),
{
    if second.len() == 0 {
        assert(first + second =~= first);
    } else {
        lemma_transcript_concat(first, second.drop_last());
        assert((first + second).drop_last() =~= first + second.drop_last());
    }
}

/// The content as an entry shows it.
pub fn cap(content: &str) -> (shown: String)
    ensures
        shown@ == capped(content@),
{
    if content.unicode_len() > CONTENT_LIMIT {
        let mut shown = content.substring_char(0, CONTENT_LIMIT).to_owned();
        shown.append("[...]");
        shown
    } else {
        content.to_owned()
    }
}

/// Builds the transcript of a conversation.
///
/// The messages are taken in order. A system message adds nothing. Every other
/// message adds its role's prefix on a line of its own, its content cut to
/// [`CONTENT_LIMIT`] characters, with the truncation marker where it was cut,
/// and an empty line.
pub fn build(messages: &Vec<Message>) -> (text: String)
    ensures
        text@ == transcript(messages.deep_view()),
{
    let mut text = String::new();
    let mut i: usize = 0;
    while i < messages.len()
        invariant
            i <= messages.len(),
            text@ == transcript(messages.deep_view().take(i as int)),
        decreases messages.len() - i,
    {
        let ghost before = messages.deep_view().take(i as int);
        let ghost until = messages.deep_view().take(i + 1);
        assert(until.drop_last() =~= before);
        assert(until.last() == messages[i as int]@);
        match TranscriptEntry::of(&messages[i]) {
            Some(entry) => {
                let rendered = entry.render();
                text.append(rendered.as_str());
            },
            None => {
                assert(text@ + Seq::<char>::empty() =~= text@);
            },
        }
        i = i + 1;
    }
    assert(messages.deep_view().take(i as int) =~= messages.deep_view());
    text
}

/// The number of messages that the user wrote.
pub fn user_turns(messages: &Vec<Message>) -> (turns: usize)
    ensures
        turns == user_turns_of(messages.deep_view()),
{
    let mut turns: usize = 0;
    let mut i: usize = 0;
    while i < messages.len()
        invariant
            i <= messages.len(),
            turns <= i,
            turns == user_turns_of(messages.deep_view().take(i as int)),
        decreases messages.len() - i,
    {
        let ghost before = messages.deep_view().take(i as int);
        let ghost until = messages.deep_view().take(i + 1);
        assert(until.drop_last() =~= before);
        assert(until.last() == messages[i as int]@);
        match messages[i].role {
            MessageRole::User => {
                turns = turns + 1;
            },
            _ => {},
        }
        i = i + 1;
    }
    assert(messages.deep_view().take(i as int) =~= messages.deep_view());
    turns
}

/// Whether a session is due for its name: it has none yet, and the user has
/// written at least [`USER_TURNS_BEFORE_NAMING`] messages, so that a session
/// is not named on its first turn.
pub fn autoname_due(messages: &Vec<Message>, named: bool) -> (due: bool)
    ensures
        due == (!named && user_turns_of(messages.deep_view()) >= USER_TURNS_BEFORE_NAMING),
{
    !named && user_turns(messages) >= USER_TURNS_BEFORE_NAMING
}

} // verus!

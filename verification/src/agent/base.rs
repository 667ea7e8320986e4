//! The conversation session: an ordered, append-only message history with
//! the invariant that at most one system message exists and stands first,
//! and the selection rule applied to a completion call's choices. The
//! completion call itself is performed by the caller, which hands its
//! choices back as plain values.
use vstd::prelude::*;

use crate::error::{AgentError, AgentErrorModel};

verus! {

/// The interface of an agent that can take one conversational step: send a
/// message, get the reply's content. Implementors perform the completion
/// call; nothing is assumed of their replies.
pub trait Agent {
    fn name(&self) -> &str;

    fn description(&self) -> &str;

    fn step(&mut self, message: &str) -> Result<String, AgentError>;
}

/// Role of a chat message.
#[derive(Debug, Clone, Copy, PartialEq, Eq, Structural)]
pub enum Role {
    System,
    User,
    Assistant,
}

/// Ghost shape of a [`Message`].
pub struct MessageModel {
    pub role: Role,
    pub content: Seq<char>,
}

/// One chat message, immutable once appended.
#[derive(Debug)]
pub struct Message {
    pub role: Role,
    pub content: String,
}

impl View for Message {
    type V = MessageModel;

    open spec fn view(&self) -> MessageModel {
        MessageModel { role: self.role, content: self.content@ }
    }
}

/// A history is well formed when only its first message may be a system
/// message: at most one system message, always first if present.
pub open spec fn history_wf(history: Seq<MessageModel>) -> bool {
    forall|i: int| 1 <= i < history.len() ==> !((#[trigger] history[i]).role is System)
}

/// An ordered, append-only conversation history; its insertion order is the
/// transcript order sent to the completion endpoint.
#[derive(Debug)]
pub struct Conversation {
    messages: Vec<Message>,
}

impl Conversation {
    /// The transcript, in insertion order.
    pub closed spec fn history(&self) -> Seq<MessageModel> {
        Seq::new(self.messages@.len(), |i: int| self.messages@[i]@)
    }

    /// Whether the transcript is well formed.
    pub open spec fn wf(&self) -> bool {
        history_wf(self.history())
    }

    /// A fresh history: empty, or opened by the given system prompt.
    pub fn new(system_prompt: Option<String>) -> (r: Self)
        ensures
            r.wf(),
            r.history() == match system_prompt {
                Some(prompt) => seq![MessageModel { role: Role::System, content: prompt@ }],
                None => Seq::<MessageModel>::empty(),
            },
    {
        let mut messages: Vec<Message> = Vec::new();
        match system_prompt {
            Some(prompt) => {
                messages.push(Message { role: Role::System, content: prompt });
                let r = Conversation { messages };
                proof {
                    assert(r.history() =~= seq![r.messages@[0]@]);
                }
                r
            },
            None => {
                let r = Conversation { messages };
                proof {
                    assert(r.history() =~= Seq::<MessageModel>::empty());
                }
                r
            },
        }
    }

    /// Appends the user's message for this step.
    pub fn append_user(&mut self, content: String)
        requires
            old(self).wf(),
        ensures
            final(self).wf(),
            final(self).history() == old(self).history().push(
                MessageModel { role: Role::User, content: content@ },
            ),
    {
        let ghost content_view = content@;
        self.messages.push(Message { role: Role::User, content });
        proof {
            assert(final(self).history() =~= old(self).history().push(
                MessageModel { role: Role::User, content: content_view },
            ));
        }
    }

    /// Appends the assistant's reply for this step.
    pub fn append_assistant(&mut self, content: String)
        requires
            old(self).wf(),
        ensures
            final(self).wf(),
            final(self).history() == old(self).history().push(
                MessageModel { role: Role::Assistant, content: content@ },
            ),
    {
        let ghost content_view = content@;
        self.messages.push(Message { role: Role::Assistant, content });
        proof {
            assert(final(self).history() =~= old(self).history().push(
                MessageModel { role: Role::Assistant, content: content_view },
            ));
        }
    }

    /// How many messages the transcript holds.
    pub fn len(&self) -> (r: usize)
        ensures
            r == self.history().len(),
    {
        self.messages.len()
    }

    /// The message at one transcript position.
    pub fn message_at(&self, i: usize) -> (r: &Message)
        requires
            i < self.history().len(),
        ensures
            r@ == self.history()[i as int],
    {
        &self.messages[i]
    }
}

/// Closes one conversational step after the completion call: on success the
/// selected reply is appended as the assistant's message and returned; on
/// any failure — transport, no choices, no content — the history is left as
/// it stands, so the user message appended before the call is retained and
/// a retry reuses the same transcript.
pub fn finish_step(
    conversation: &mut Conversation,
    outcome: Result<Vec<Option<String>>, AgentError>,
) -> (r: Result<String, AgentError>)
    requires
        old(conversation).wf(),
    ensures
        final(conversation).wf(),
        r matches Ok(content) ==> final(conversation).history() == old(
            conversation,
        ).history().push(MessageModel { role: Role::Assistant, content: content@ }),
        r is Err ==> final(conversation).history() == old(conversation).history(),
        outcome matches Err(e) ==> (r matches Err(e2) && e2 == e),
        outcome matches Ok(choices) ==> ({
            &&& choices@.len() == 0 ==> (r matches Err(e) && e@ == AgentErrorModel::Generic(
                "No choices returned from OpenAI API"@,
            ))
            &&& choices@.len() > 0 ==> (match choices@[0] {
                Some(content) => r matches Ok(c) && c@ == content@,
                None => r matches Err(e) && e@ == AgentErrorModel::Generic(
                    "No content in the response message"@,
                ),
            })
        }),
{
    let choices = match outcome {
        Ok(choices) => choices,
        Err(e) => {
            return Err(e);
        },
    };
    match choose_reply(choices) {
        Ok(content) => {
            conversation.append_assistant(content.clone());
            Ok(content)
        },
        Err(e) => Err(e),
    }
}

/// The selection rule for a completion call's outcome: take the first
/// choice; fail when there is none, or when it carries no textual content.
/// Each choice is the optional content of one returned message.
pub fn choose_reply(choices: Vec<Option<String>>) -> (r: Result<String, AgentError>)
    ensures
        choices@.len() == 0 ==> (r matches Err(e) && e@ == AgentErrorModel::Generic(
            "No choices returned from OpenAI API"@,
        )),
        choices@.len() > 0 ==> (match choices@[0] {
            Some(content) => r matches Ok(c) && c@ == content@,
            None => r matches Err(e) && e@ == AgentErrorModel::Generic(
                "No content in the response message"@,
            ),
        }),
{
    let mut choices = choices;
    if choices.len() == 0 {
        return Err(AgentError::Generic("No choices returned from OpenAI API".to_owned()));
    }
    match choices.remove(0) {
        Some(content) => Ok(content),
        None => Err(AgentError::Generic("No content in the response message".to_owned())),
    }
}

} // verus!

//! The conversation with a chat-completion service, as values.
//!
//! A conversation is an ordered history: the system prompt first, then turns,
//! each a user's message and the assistant's reply to it. One request is out
//! at a time, which the types say: asking turns a `Conversation` into a
//! `PendingTurn`, and only the reply turns that back into a `Conversation`.
//! Sending the request is left to the caller.

use vstd::prelude::*;
use crate::error::Error;
use crate::error::ErrorView;

verus! {

/// The system prompt of a conversation that extracts listing fields.
pub const SYSTEM_PROMPT: &'static str = "You extract information from Job listings";

/// The cause given where the service answered without a usable choice.
pub const NO_REPLY: &'static str = "the reply holds no message";

/// Who wrote a message.
#[derive(Clone, Copy, Debug, PartialEq, Eq, Structural)]
pub enum Role {
    System,
    User,
    Assistant,
}

/// One message of a conversation.
#[derive(Clone, Debug, PartialEq, Eq)]
pub struct Message {
    pub role: Role,
    pub content: String,
}

/// A `Message` with its content as a sequence of characters.
pub struct MessageView {
    pub role: Role,
    pub content: Seq<char>,
}

impl View for Message {
    type V = MessageView;

    open spec fn view(&self) -> MessageView {
        MessageView { role: self.role, content: self.content@ }
    }
}

impl DeepView for Message {
    type V = MessageView;

    open spec fn deep_view(&self) -> MessageView {
        self@
    }
}

/// The message with which `role` says `content`.
pub open spec fn message_of(role: Role, content: Seq<char>) -> MessageView {
    MessageView { role, content }
}

/// Who writes the message at index `i` of a history.
pub open spec fn role_at(i: int) -> Role {
    if i == 0 {
        Role::System
    } else if i % 2 == 1 {
        Role::User
    } else {
        Role::Assistant
    }
}

/// Whether `messages` starts with the system prompt and then alternates
/// between user and assistant.
pub open spec fn follows_protocol(messages: Seq<MessageView>) -> bool {
    &&& messages.len() >= 1
    &&& forall|i: int| 0 <= i < messages.len() ==> (#[trigger] messages[i]).role == role_at(i)
}

/// Whether `messages` is a history in which every user message has its reply.
pub open spec fn is_at_rest(messages: Seq<MessageView>) -> bool {
    follows_protocol(messages) && messages.len() % 2 == 1
}

/// Whether `messages` is a history whose last message is the user's and
/// waits for its reply.
pub open spec fn awaits_reply(messages: Seq<MessageView>) -> bool {
    follows_protocol(messages) && messages.len() % 2 == 0
}

/// What the reply to `request` gives: the history with the assistant's
/// message appended, and that message's text. The first choice counts. A
/// reply without choices, or whose first choice has no text, is an inference
/// error, and nothing stands in for the missing text.
pub open spec fn answered(request: Seq<MessageView>, choices: Seq<Option<Seq<char>>>) -> Result<
    (Seq<MessageView>, Seq<char>),
    ErrorView,
> {
    if choices.len() > 0 && choices[0] is Some {
        let text = choices[0]->0;
        Ok((request.push(message_of(Role::Assistant, text)), text))
    } else {
        Err(ErrorView::Inference(NO_REPLY@))
    }
}

/// A history in which every user message has its reply.
#[derive(Debug, PartialEq, Eq)]
pub struct Conversation {
    messages: Vec<Message>,
}

/// A history whose last message is the user's: the request to send.
#[derive(Debug, PartialEq, Eq)]
pub struct PendingTurn {
    messages: Vec<Message>,
}

/// What `outcome` is in specifications.
pub open spec fn outcome_view(outcome: Result<(Conversation, String), Error>) -> Result<
    (Seq<MessageView>, Seq<char>),
    ErrorView,
> {
    match outcome {
        Ok((conversation, text)) => Ok((conversation@, text@)),
        Err(error) => Err(error@),
    }
}

impl View for Conversation {
    type V = Seq<MessageView>;

    closed spec fn view(&self) -> Seq<MessageView> {
        self.messages.deep_view()
    }
}

impl View for PendingTurn {
    type V = Seq<MessageView>;

    closed spec fn view(&self) -> Seq<MessageView> {
        self.messages.deep_view()
    }
}

impl Conversation {
    #[verifier::type_invariant]
    spec fn well_formed(self) -> bool {
        is_at_rest(self.messages.deep_view())
    }

    /// Starts a conversation that holds the system prompt and nothing else.
    pub fn new(system_prompt: &str) -> (conversation: Conversation)
        ensures
            conversation@ == seq![message_of(Role::System, system_prompt@)],
    {
        let mut messages: Vec<Message> = Vec::new();
        messages.push(Message { role: Role::System, content: system_prompt.to_owned() });
        assert(messages.deep_view() =~= seq![message_of(Role::System, system_prompt@)]);
        Conversation { messages }
    }

    /// The messages so far, oldest first.
    pub fn messages(&self) -> (messages: &Vec<Message>)
        ensures
            messages.deep_view() == self@,
            is_at_rest(self@),
    {
        proof {
            use_type_invariant(self);
        }
        &self.messages
    }

    /// Appends the user's message. The result is the request to send: the
    /// whole history, the new message last.
    pub fn ask(self, user_text: String) -> (turn: PendingTurn)
        ensures
            turn@ == self@.push(message_of(Role::User, user_text@)),
    {
        proof {
            use_type_invariant(&self);
        }
        let ghost before = self.messages.deep_view();
        let mut messages = self.messages;
        messages.push(Message { role: Role::User, content: user_text });
        assert(messages.deep_view() =~= before.push(message_of(Role::User, user_text@)));
        PendingTurn { messages }
    }
}

impl PendingTurn {
    #[verifier::type_invariant]
    spec fn well_formed(self) -> bool {
        awaits_reply(self.messages.deep_view())
    }

    /// The messages to send, oldest first; the last one is the user's.
    pub fn request(&self) -> (messages: &Vec<Message>)
        ensures
            messages.deep_view() == self@,
            awaits_reply(self@),
    {
        proof {
            use_type_invariant(self);
        }
        &self.messages
    }

    /// Records the reply to the request. `choices` holds the text of each
    /// choice that the service returned, `None` for a choice without text.
    pub fn answer(self, choices: Vec<Option<String>>) -> (outcome: Result<
        (Conversation, String),
        Error,
    >)
        ensures
            outcome_view(outcome) == answered(self@, choices.deep_view()),
    {
        proof {
            use_type_invariant(&self);
        }
        let ghost before = self.messages.deep_view();
        let mut choices = choices;
        if choices.len() == 0 {
            return Err(Error::Inference(NO_REPLY.to_owned()));
        }
        let ghost first = choices.deep_view()[0];
        assert(first == choices[0].deep_view());
        match choices.swap_remove(0) {
            Some(text) => {
                let mut messages = self.messages;
                messages.push(Message { role: Role::Assistant, content: text.clone() });
                assert(messages.deep_view() =~= before.push(message_of(Role::Assistant, text@)));
                Ok((Conversation { messages }, text))
            },
            None => Err(Error::Inference(NO_REPLY.to_owned())),
        }
    }
}

} // verus!

//! Turns: the role-tagged messages a conversation is made of.

use vstd::prelude::*;

verus! {

/// Who speaks in a turn.
#[derive(Clone, Copy, Debug, PartialEq, Eq, Structural)]
pub enum Role {
    System,
    User,
    Assistant,
}

impl Role {
    /// The name under which the role is sent to a tokenizer or a backend.
    pub open spec fn wire_name(self) -> Seq<char> {
        match self {
            Role::System => "system"@,
            Role::User => "user"@,
            Role::Assistant => "assistant"@,
        }
    }

    pub fn name(self) -> (r: &'static str)
        ensures
            r@ == self.wire_name(),
    {
        match self {
            Role::System => "system",
            Role::User => "user",
            Role::Assistant => "assistant",
        }
    }
}

/// One message of a conversation.
#[derive(Debug, PartialEq, Eq)]
pub struct Turn {
    pub role: Role,
    /// Who said it, as shown to the model; empty for system and assistant turns.
    pub speaker_label: String,
    /// The text as it is submitted.
    pub content: String,
    /// The token cost, where it has been estimated.
    pub estimated_cost: Option<usize>,
}

impl Clone for Turn {
    fn clone(&self) -> (r: Self)
        ensures
            r == *self,
    {
        Turn {
            role: self.role,
            speaker_label: self.speaker_label.clone(),
            content: self.content.clone(),
            estimated_cost: self.estimated_cost,
        }
    }
}

/// The content of a user turn: the speaker's label, a colon and a space, then
/// the message as it was written.
pub open spec fn labelled(label: Seq<char>, message: Seq<char>) -> Seq<char> {
    label + ": "@ + message
}

impl Turn {
    /// A turn of the system role, as yet without an estimate.
    pub fn system(content: &str) -> (r: Turn)
        ensures
            r.role == Role::System,
            r.speaker_label@ == Seq::<char>::empty(),
            r.content@ == content@,
            r.estimated_cost is None,
    {
        Turn {
            role: Role::System,
            speaker_label: String::new(),
            content: content.to_owned(),
            estimated_cost: None,
        }
    }

    /// What a user said: the content carries the speaker's label in front of
    /// the message.
    pub fn user(speaker_label: &str, message: &str) -> (r: Turn)
        ensures
            r.role == Role::User,
            r.speaker_label@ == speaker_label@,
            r.content@ == labelled(speaker_label@, message@),
            r.estimated_cost is None,
    {
        let mut content = speaker_label.to_owned();
        content.append(": ");
        content.append(message);
        Turn {
            role: Role::User,
            speaker_label: speaker_label.to_owned(),
            content,
            estimated_cost: None,
        }
    }

    /// An answer of the assistant.
    pub fn assistant(content: &str) -> (r: Turn)
        ensures
            r.role == Role::Assistant,
            r.speaker_label@ == Seq::<char>::empty(),
            r.content@ == content@,
            r.estimated_cost is None,
    {
        Turn {
            role: Role::Assistant,
            speaker_label: String::new(),
            content: content.to_owned(),
            estimated_cost: None,
        }
    }

    /// The same turn with its cost recorded.
    pub fn with_cost(self, cost: usize) -> (r: Turn)
        ensures
            r == (Turn { estimated_cost: Some(cost), ..self }),
    {
        Turn {
            role: self.role,
            speaker_label: self.speaker_label,
            content: self.content,
            estimated_cost: Some(cost),
        }
    }
}

} // verus!

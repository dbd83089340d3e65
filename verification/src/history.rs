//! The messages of a conversation.
use crate::identity::{is_random_id, random_id};
use vstd::prelude::*;

verus! {

/// Names a message of the user.
pub struct UserMessageId {
    pub id: String,
}

/// Who wrote a message.
#[derive(Clone, Copy, Debug, PartialEq, Eq, Structural)]
pub enum CodexHistoryRole {
    User,
    Assistant,
}

/// A message of a conversation. Messages of the user can have a name.
pub struct CodexHistoryMessage {
    pub user_message_id: Option<UserMessageId>,
    pub role: CodexHistoryRole,
    pub text: String,
}

/// Who said what.
pub struct HistoryEntry {
    pub role: CodexHistoryRole,
    pub text: Seq<char>,
}

impl View for UserMessageId {
    type V = Seq<char>;

    open spec fn view(&self) -> Seq<char> {
        self.id@
    }
}

impl UserMessageId {
    /// A new name. Two new names can be equal only by chance.
    pub fn new() -> (id: Self)
        ensures
            is_random_id(id@),
    {
        UserMessageId { id: random_id() }
    }
}

impl CodexHistoryMessage {
    /// Who said what in this message.
    pub open spec fn entry(self) -> HistoryEntry {
        HistoryEntry { role: self.role, text: self.text@ }
    }

    /// The message has a new name if and only if it is one of the user's.
    pub open spec fn freshly_named(self) -> bool {
        match self.user_message_id {
            Some(id) => self.role == CodexHistoryRole::User && is_random_id(id@),
            None => self.role == CodexHistoryRole::Assistant,
        }
    }

    /// A message that gets a new name where it is one of the user's.
    pub fn with_new_id(role: CodexHistoryRole, text: String) -> (message: Self)
        ensures
            message.entry() == (HistoryEntry { role, text: text@ }),
            message.freshly_named(),
    {
        let user_message_id = match role {
            CodexHistoryRole::User => Some(UserMessageId::new()),
            CodexHistoryRole::Assistant => None,
        };
        CodexHistoryMessage { user_message_id, role, text }
    }
}

/// Who said what in the messages of a conversation.
pub open spec fn entries(messages: Seq<CodexHistoryMessage>) -> Seq<HistoryEntry> {
    Seq::new(messages.len(), |i: int| messages[i].entry())
}

/// Every message of the user, and no other, has a new name.
pub open spec fn freshly_named(messages: Seq<CodexHistoryMessage>) -> bool {
    forall|i: int| 0 <= i < messages.len() ==> (#[trigger] messages[i]).freshly_named()
}

} // verus!

//! Conversation documents and the edits the orchestrator performs on them.
//!
//! The document invariant: at most one message of a conversation is
//! incomplete; when one exists it is the last message and carries the
//! assistant role.

use vstd::prelude::*;

verus! {

use vstd::string::StringExecFns;
use crate::strings::str_eq;

/// One chat message.
#[derive(Debug, Clone)]
pub struct Message {
    /// `"system"`, `"user"` or `"assistant"`.
    pub role: String,
    pub content: String,
    /// ISO-8601 timestamp.
    pub timestamp: String,
    /// `false` only while a stream is still filling this message in.
    pub complete: bool,
}

/// One conversation document, owned by the store between operations.
#[derive(Debug, Clone)]
pub struct Conversation {
    pub id: String,
    pub title: String,
    pub created_at: String,
    pub updated_at: String,
    pub messages: Vec<Message>,
}

/// The list-view summary of a conversation.
#[derive(Debug, Clone)]
pub struct ConversationMetadata {
    pub id: String,
    pub title: String,
    pub last_message: String,
    pub timestamp: String,
    pub message_count: usize,
}

/// Every message of the sequence is complete.
pub open spec fn all_complete(ms: Seq<Message>) -> bool {
    forall|i: int| 0 <= i < ms.len() ==> ms[i].complete
}

/// The single-incomplete-message invariant: at most one message is
/// incomplete, and then it is the last one and has the assistant role.
pub open spec fn conversation_wf(c: Conversation) -> bool {
    &&& forall|i: int| 0 <= i < c.messages@.len() - 1 ==> c.messages@[i].complete
    &&& (c.messages@.len() > 0 && !c.messages@.last().complete ==> c.messages@.last().role@
        == "assistant"@)
}

/// `new_ms` is `old_ms` with one message of the given shape appended.
pub open spec fn appended_message(
    old_ms: Seq<Message>,
    new_ms: Seq<Message>,
    role: Seq<char>,
    content: Seq<char>,
    timestamp: Seq<char>,
    complete: bool,
) -> bool {
    &&& new_ms.len() == old_ms.len() + 1
    &&& forall|i: int| 0 <= i < old_ms.len() ==> new_ms[i] == old_ms[i]
    &&& new_ms.last().role@ == role
    &&& new_ms.last().content@ == content
    &&& new_ms.last().timestamp@ == timestamp
    &&& new_ms.last().complete == complete
}

/// Identity, title and creation time agree.
pub open spec fn same_header(a: Conversation, b: Conversation) -> bool {
    a.id == b.id && a.title == b.title && a.created_at == b.created_at
}

impl Message {
    /// An equal copy.
    pub fn duplicate(&self) -> (r: Message)
        ensures
            r == *self,
    {
        Message {
            role: self.role.clone(),
            content: self.content.clone(),
            timestamp: self.timestamp.clone(),
            complete: self.complete,
        }
    }
}

impl Conversation {
    /// The last message is a user message carrying exactly `text`.
    pub fn last_is_user_with(&self, text: &str) -> (r: bool)
        ensures
            r == (self.messages@.len() > 0 && self.messages@.last().role@ == "user"@
                && self.messages@.last().content@ == text@),
    {
        if self.messages.len() == 0 {
            return false;
        }
        let last = &self.messages[self.messages.len() - 1];
        str_eq(last.role.as_str(), "user") && str_eq(last.content.as_str(), text)
    }

    /// Append the user's message unless it is already the last message
    /// (a freshly created conversation already carries it).
    pub fn ensure_user_message(&mut self, user_message: &str, timestamp: &str) -> (added: bool)
        ensures
            added == !(old(self).messages@.len() > 0 && old(self).messages@.last().role@ == "user"@
                && old(self).messages@.last().content@ == user_message@),
            added ==> appended_message(
                old(self).messages@,
                final(self).messages@,
                "user"@,
                user_message@,
                timestamp@,
                true,
            ),
            !added ==> *final(self) == *old(self),
            same_header(*old(self), *final(self)),
            final(self).updated_at == old(self).updated_at,
            all_complete(old(self).messages@) ==> all_complete(final(self).messages@),
    {
        if self.last_is_user_with(user_message) {
            false
        } else {
            let msg = Message {
                role: String::from_str("user"),
                content: user_message.to_owned(),
                timestamp: timestamp.to_owned(),
                complete: true,
            };
            self.messages.push(msg);
            true
        }
    }

    /// Append a completed assistant message carrying the backend's reply.
    pub fn push_assistant_message(&mut self, content: String, timestamp: &str)
        ensures
            appended_message(
                old(self).messages@,
                final(self).messages@,
                "assistant"@,
                content@,
                timestamp@,
                true,
            ),
            same_header(*old(self), *final(self)),
            final(self).updated_at == old(self).updated_at,
            all_complete(old(self).messages@) ==> all_complete(final(self).messages@),
    {
        let msg = Message {
            role: String::from_str("assistant"),
            content,
            timestamp: timestamp.to_owned(),
            complete: true,
        };
        self.messages.push(msg);
    }

    /// Append the empty, incomplete assistant message a new stream will fill.
    pub fn push_incomplete_assistant(&mut self, timestamp: &str)
        ensures
            appended_message(
                old(self).messages@,
                final(self).messages@,
                "assistant"@,
                Seq::<char>::empty(),
                timestamp@,
                false,
            ),
            same_header(*old(self), *final(self)),
            final(self).updated_at == old(self).updated_at,
            all_complete(old(self).messages@) ==> conversation_wf(*final(self)),
    {
        let msg = Message {
            role: String::from_str("assistant"),
            content: String::new(),
            timestamp: timestamp.to_owned(),
            complete: false,
        };
        self.messages.push(msg);
    }

    /// Stamp the document's modification time.
    pub fn set_updated_at(&mut self, timestamp: &str)
        ensures
            final(self).updated_at@ == timestamp@,
            final(self).messages == old(self).messages,
            same_header(*old(self), *final(self)),
    {
        self.updated_at = timestamp.to_owned();
    }

    /// Checkpoint write: overwrite the content of the trailing incomplete
    /// assistant message with the partial text accumulated so far. Does
    /// nothing when no such message trails the conversation. Preserves the
    /// single-incomplete-message invariant.
    pub fn apply_checkpoint(&mut self, partial: &str, timestamp: &str) -> (applied: bool)
        ensures
            applied == (old(self).messages@.len() > 0 && old(self).messages@.last().role@
                == "assistant"@ && !old(self).messages@.last().complete),
            !applied ==> *final(self) == *old(self),
            applied ==> {
                &&& final(self).messages@.len() == old(self).messages@.len()
                &&& forall|i: int|
                    0 <= i < old(self).messages@.len() - 1 ==> final(self).messages@[i] == old(
                        self,
                    ).messages@[i]
                &&& final(self).messages@.last().content@ == partial@
                &&& final(self).messages@.last().role == old(self).messages@.last().role
                &&& final(self).messages@.last().timestamp == old(self).messages@.last().timestamp
                &&& final(self).messages@.last().complete == false
                &&& final(self).updated_at@ == timestamp@
            },
            same_header(*old(self), *final(self)),
            conversation_wf(*old(self)) ==> conversation_wf(*final(self)),
    {
        let n = self.messages.len();
        if n == 0 {
            return false;
        }
        let last = &self.messages[n - 1];
        if str_eq(last.role.as_str(), "assistant") && !last.complete {
            let updated = Message {
                role: last.role.clone(),
                content: partial.to_owned(),
                timestamp: last.timestamp.clone(),
                complete: false,
            };
            self.messages[n - 1] = updated;
            self.updated_at = timestamp.to_owned();
            true
        } else {
            false
        }
    }

    /// Terminal transition of a completed stream: the trailing assistant
    /// message receives the full accumulated content and is marked complete;
    /// the modification time is stamped in every case.
    pub fn finalize_completed(&mut self, full: &str, timestamp: &str) -> (applied: bool)
        ensures
            applied == (old(self).messages@.len() > 0 && old(self).messages@.last().role@
                == "assistant"@),
            final(self).updated_at@ == timestamp@,
            final(self).messages@.len() == old(self).messages@.len(),
            forall|i: int|
                0 <= i < old(self).messages@.len() - 1 ==> final(self).messages@[i] == old(
                    self,
                ).messages@[i],
            !applied ==> final(self).messages == old(self).messages,
            applied ==> {
                &&& final(self).messages@.last().content@ == full@
                &&& final(self).messages@.last().complete == true
                &&& final(self).messages@.last().role == old(self).messages@.last().role
                &&& final(self).messages@.last().timestamp == old(self).messages@.last().timestamp
            },
            same_header(*old(self), *final(self)),
            conversation_wf(*old(self)) ==> conversation_wf(*final(self)),
            conversation_wf(*old(self)) && applied ==> all_complete(final(self).messages@),
    {
        let n = self.messages.len();
        let mut applied = false;
        if n > 0 {
            let last = &self.messages[n - 1];
            if str_eq(last.role.as_str(), "assistant") {
                let updated = Message {
                    role: last.role.clone(),
                    content: full.to_owned(),
                    timestamp: last.timestamp.clone(),
                    complete: true,
                };
                self.messages[n - 1] = updated;
                applied = true;
            }
        }
        self.updated_at = timestamp.to_owned();
        applied
    }

    /// Terminal transition of a cancelled stream: the partial output becomes
    /// the final content of the trailing incomplete assistant message, which
    /// is marked complete. Partial output is kept, never discarded.
    pub fn finalize_cancelled(&mut self, partial: &str, timestamp: &str) -> (applied: bool)
        ensures
            applied == (old(self).messages@.len() > 0 && old(self).messages@.last().role@
                == "assistant"@ && !old(self).messages@.last().complete),
            !applied ==> *final(self) == *old(self),
            applied ==> {
                &&& final(self).messages@.len() == old(self).messages@.len()
                &&& forall|i: int|
                    0 <= i < old(self).messages@.len() - 1 ==> final(self).messages@[i] == old(
                        self,
                    ).messages@[i]
                &&& final(self).messages@.last().content@ == partial@
                &&& final(self).messages@.last().complete == true
                &&& final(self).messages@.last().role == old(self).messages@.last().role
                &&& final(self).messages@.last().timestamp == old(self).messages@.last().timestamp
                &&& final(self).updated_at@ == timestamp@
            },
            same_header(*old(self), *final(self)),
            conversation_wf(*old(self)) ==> conversation_wf(*final(self)),
            conversation_wf(*old(self)) && applied ==> all_complete(final(self).messages@),
    {
        let n = self.messages.len();
        if n == 0 {
            return false;
        }
        let last = &self.messages[n - 1];
        if str_eq(last.role.as_str(), "assistant") && !last.complete {
            let updated = Message {
                role: last.role.clone(),
                content: partial.to_owned(),
                timestamp: last.timestamp.clone(),
                complete: true,
            };
            self.messages[n - 1] = updated;
            self.updated_at = timestamp.to_owned();
            true
        } else {
            false
        }
    }
}

} // verus!

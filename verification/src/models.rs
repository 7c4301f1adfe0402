//! Chat records exchanged with the storage layer.

use vstd::prelude::*;

verus! {

/// One stored conversation.
#[derive(Debug, PartialEq, Eq)]
pub struct Conversation {
    pub id: i64,
    pub title: String,
    pub created_at: String,
    pub updated_at: String,
}

/// One stored message. The role is `"user"` or `"assistant"`.
#[derive(Debug, PartialEq, Eq)]
pub struct Message {
    pub id: i64,
    pub conversation_id: i64,
    pub role: String,
    pub content: String,
    pub created_at: String,
}

/// A request to open a conversation.
#[derive(Debug, PartialEq, Eq)]
pub struct CreateConversationRequest {
    pub title: String,
}

/// A request to append a message to a conversation.
#[derive(Debug, PartialEq, Eq)]
pub struct SendMessageRequest {
    pub conversation_id: i64,
    pub content: String,
}

} // verus!

//! The messages of the engine's mail service.
use vstd::prelude::*;

use crate::engine::proto::Timestamp;

verus! {

/// A mail message between agents.
#[derive(Clone, Debug, PartialEq)]
pub struct MailMessage {
    pub id: String,
    pub from_addr: String,
    pub to_addr: String,
    pub subject: String,
    pub body: String,
    pub priority: String,
    pub message_type: String,
    pub delivery: String,
    pub thread_id: String,
    pub reply_to: String,
    pub queue: String,
    pub channel: String,
    pub claimed_by: String,
    pub pinned: bool,
    pub read: bool,
    pub claimed_at: Option<Timestamp>,
    pub created_at: Option<Timestamp>,
}

/// A request to send mail.
#[derive(Clone, Debug, PartialEq)]
pub struct SendMailRequest {
    pub from_addr: String,
    pub to_addr: String,
    pub subject: String,
    pub body: String,
    pub priority: String,
    pub message_type: String,
    pub delivery: String,
    pub thread_id: String,
    pub reply_to: String,
    pub channel: String,
}

/// A request for an inbox; empty filters match all.
#[derive(Clone, Debug, PartialEq)]
pub struct GetInboxRequest {
    pub to_addr: String,
    pub queue: String,
    pub channel: String,
    pub unread_only: bool,
    pub limit: i32,
    pub offset: i32,
}

/// A request to mark a message as read.
#[derive(Clone, Debug, PartialEq)]
pub struct MarkReadRequest {
    pub id: String,
}

/// A request to claim the next message of a queue.
#[derive(Clone, Debug, PartialEq)]
pub struct ClaimRequest {
    pub queue: String,
    pub claimed_by: String,
}

} // verus!

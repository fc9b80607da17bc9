//! The mail message of the HTTP API, the request that creates one, and the listing.
use vstd::prelude::*;

verus! {

/// A mail message as the API serves it.
#[derive(Debug, Clone)]
pub struct MailMessage {
    pub id: String,
    pub from_addr: String,
    pub to_addr: Option<String>,
    pub subject: String,
    pub body: Option<String>,
    pub priority: String,
    pub message_type: String,
    pub delivery: String,
    pub thread_id: Option<String>,
    pub reply_to: Option<String>,
    pub queue: Option<String>,
    pub channel: Option<String>,
    pub claimed_by: Option<String>,
    pub claimed_at: Option<String>,
    pub pinned: bool,
    pub wisp: bool,
    pub read: bool,
    pub cc_json: String,
    pub created_at: String,
}

/// The body of a request to create a mail message; the fields left out take their defaults.
#[derive(Debug, Clone)]
pub struct CreateMailMessageRequest {
    pub id: String,
    pub from_addr: String,
    pub to_addr: Option<String>,
    pub subject: String,
    pub body: Option<String>,
    pub priority: Option<String>,
    pub message_type: Option<String>,
    pub delivery: Option<String>,
    pub thread_id: Option<String>,
    pub reply_to: Option<String>,
    pub queue: Option<String>,
    pub channel: Option<String>,
    pub cc_json: Option<String>,
}

/// The answer to a request to list mail messages.
#[derive(Debug, Clone)]
pub struct ListMailMessagesResponse {
    pub messages: Vec<MailMessage>,
}

} // verus!

//! The mail routes: the inbox, sending, and marking as read.
use vstd::prelude::*;

use crate::external::{is_uuid_v4_text, new_uuid_v4, now_rfc3339};
use crate::text::{opt_view, owned, string_or, text_or};

verus! {

/// A mail message as the mail routes serve it.
#[derive(Debug, Clone)]
pub struct MailMessage {
    pub id: String,
    pub from_addr: String,
    pub to_addr: String,
    pub subject: String,
    pub body: String,
    pub priority: String,
    pub message_type: String,
    pub thread_id: Option<String>,
    pub read: bool,
    pub created_at: String,
}

/// The query of an inbox request.
#[derive(Debug, Clone)]
pub struct InboxQuery {
    pub to_addr: Option<String>,
    pub unread_only: Option<bool>,
    pub limit: Option<i32>,
    pub offset: Option<i32>,
}

/// The answer to an inbox request.
#[derive(Debug, Clone)]
pub struct InboxResponse {
    pub messages: Vec<MailMessage>,
    pub total: i32,
}

/// The body of a request to send mail.
#[derive(Debug, Clone)]
pub struct SendMailRequest {
    pub from_addr: String,
    pub to_addr: String,
    pub subject: String,
    pub body: String,
    pub priority: Option<String>,
    pub message_type: Option<String>,
    pub thread_id: Option<String>,
}

/// The answer to marking a message as read: its id and `read` set.
#[derive(Debug, Clone)]
pub struct MarkReadReply {
    pub id: String,
    pub read: bool,
}

/// The inbox: empty, whatever the query.
pub fn get_inbox(query: InboxQuery) -> (r: InboxResponse)
    ensures
        r.messages@.len() == 0,
        r.total == 0,
{
    InboxResponse { messages: Vec::new(), total: 0 }
}

/// The message that sending mail creates: a fresh version-4 UUID, the request's addresses, subject,
/// body and thread, priority `normal` and type `task` unless the request says
/// otherwise, unread, created now.
pub fn send_mail(req: SendMailRequest) -> (m: MailMessage)
    ensures
        is_uuid_v4_text(m.id@),
        m.from_addr == req.from_addr,
        m.to_addr == req.to_addr,
        m.subject == req.subject,
        m.body == req.body,
        m.priority@ == text_or(opt_view(req.priority), "normal"@),
        m.message_type@ == text_or(opt_view(req.message_type), "task"@),
        m.thread_id == req.thread_id,
        !m.read,
{
    MailMessage {
        id: new_uuid_v4(),
        from_addr: req.from_addr,
        to_addr: req.to_addr,
        subject: req.subject,
        body: req.body,
        priority: string_or(req.priority, "normal"),
        message_type: string_or(req.message_type, "task"),
        thread_id: req.thread_id,
        read: false,
        created_at: now_rfc3339(),
    }
}

/// The answer to marking the message `id` as read.
pub fn mark_read(id: String) -> (r: MarkReadReply)
    ensures
        r.id == id,
        r.read,
{
    MarkReadReply { id, read: true }
}

} // verus!

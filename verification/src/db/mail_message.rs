//! The `mail_messages` table: its rows, what creating one takes, and the values a new row is
//! stored with.
use vstd::prelude::*;

use crate::text::{opt_view, str_or, text_or};

verus! {

/// A row of the `mail_messages` table.
#[derive(Debug, Clone)]
pub struct MailMessage {
    pub id: String,
    pub from_addr: String,
    pub to_addr: Option<String>,
    pub subject: String,
    pub body: Option<String>,
    pub priority: String,
    pub message_type: String,
    pub delivery: String,
    pub thread_id: Option<String>,
    pub reply_to: Option<String>,
    pub queue: Option<String>,
    pub channel: Option<String>,
    pub claimed_by: Option<String>,
    pub claimed_at: Option<String>,
    pub pinned: bool,
    pub wisp: bool,
    pub read: bool,
    pub cc_json: String,
    pub created_at: String,
}

/// What creating a mail message takes; the fields left out take their defaults.
#[derive(Debug, Clone)]
pub struct CreateMailMessage {
    pub id: String,
    pub from_addr: String,
    pub to_addr: Option<String>,
    pub subject: String,
    pub body: Option<String>,
    pub priority: Option<String>,
    pub message_type: Option<String>,
    pub delivery: Option<String>,
    pub thread_id: Option<String>,
    pub reply_to: Option<String>,
    pub queue: Option<String>,
    pub channel: Option<String>,
    pub cc_json: Option<String>,
}

impl CreateMailMessage {
    /// The values stored for the fields that have defaults, in order: `priority` as
    /// given or `normal`, `message_type` as given or `task`, `delivery` as given or
    /// `queue`, `cc_json` as given or `[]`.
    pub fn insert_defaults(&self) -> (res: (String, String, String, String))
        ensures
            res.0@ == text_or(opt_view(self.priority), "normal"@),
            res.1@ == text_or(opt_view(self.message_type), "task"@),
            res.2@ == text_or(opt_view(self.delivery), "queue"@),
            res.3@ == text_or(opt_view(self.cc_json), "[]"@),
    {
        (str_or(&self.priority, "normal"), str_or(&self.message_type, "task"), str_or(&self.delivery, "queue"), str_or(&self.cc_json, "[]"))
    }
}

} // verus!

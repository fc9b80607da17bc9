//! The `feed_events` table: its rows, what creating one takes, and the values a new row is
//! stored with.
use vstd::prelude::*;

use crate::text::{opt_view, str_or, text_or};

verus! {

/// A row of the `feed_events` table.
#[derive(Debug, Clone)]
pub struct FeedEvent {
    pub id: String,
    pub event_type: String,
    pub source: String,
    pub rig_id: Option<String>,
    pub agent_id: Option<String>,
    pub work_item_id: Option<String>,
    pub summary: String,
    pub details_json: String,
    pub severity: String,
    pub created_at: String,
}

/// What creating a feed event takes; the fields left out take their defaults.
#[derive(Debug, Clone)]
pub struct CreateFeedEvent {
    pub id: String,
    pub event_type: String,
    pub source: String,
    pub rig_id: Option<String>,
    pub agent_id: Option<String>,
    pub work_item_id: Option<String>,
    pub summary: String,
    pub details_json: Option<String>,
    pub severity: Option<String>,
}

impl CreateFeedEvent {
    /// The values stored for the fields that have defaults, in order: `details_json` as
    /// given or `{}`, `severity` as given or `info`.
    pub fn insert_defaults(&self) -> (res: (String, String))
        ensures
            res.0@ == text_or(opt_view(self.details_json), "{}"@),
            res.1@ == text_or(opt_view(self.severity), "info"@),
    {
        (str_or(&self.details_json, "{}"), str_or(&self.severity, "info"))
    }
}

} // verus!

//! The messages of the engine's feed service.
use vstd::prelude::*;

use crate::engine::proto::Timestamp;

verus! {

/// An event of the activity feed.
#[derive(Clone, Debug, PartialEq)]
pub struct FeedEvent {
    pub id: String,
    pub event_type: String,
    pub source: String,
    pub rig_id: String,
    pub agent_id: String,
    pub work_item_id: String,
    pub summary: String,
    pub details_json: String,
    pub severity: String,
    pub created_at: Option<Timestamp>,
}

/// A request for recent events; an empty rig matches all.
#[derive(Clone, Debug, PartialEq)]
pub struct GetRecentEventsRequest {
    pub rig_id: String,
    pub limit: i32,
    pub offset: i32,
}

/// A request for a stream of events; an empty filter matches all.
#[derive(Clone, Debug, PartialEq)]
pub struct StreamEventsRequest {
    pub rig_id: String,
    pub severity: String,
}

} // verus!

//! The feed event of the HTTP API, the request that creates one, and the listing.
use vstd::prelude::*;

verus! {

/// A feed event as the API serves it.
#[derive(Debug, Clone)]
pub struct FeedEvent {
    pub id: String,
    pub event_type: String,
    pub source: String,
    pub rig_id: Option<String>,
    pub agent_id: Option<String>,
    pub work_item_id: Option<String>,
    pub summary: String,
    pub details_json: String,
    pub severity: String,
    pub created_at: String,
}

/// The body of a request to create a feed event; the fields left out take their defaults.
#[derive(Debug, Clone)]
pub struct CreateFeedEventRequest {
    pub id: String,
    pub event_type: String,
    pub source: String,
    pub rig_id: Option<String>,
    pub agent_id: Option<String>,
    pub work_item_id: Option<String>,
    pub summary: String,
    pub details_json: Option<String>,
    pub severity: Option<String>,
}

/// The answer to a request to list feed events.
#[derive(Debug, Clone)]
pub struct ListFeedEventsResponse {
    pub events: Vec<FeedEvent>,
}

} // verus!

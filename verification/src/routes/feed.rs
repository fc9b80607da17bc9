//! The feed route: recent events.
use vstd::prelude::*;

verus! {

/// A feed event as the feed route serves it.
#[derive(Debug, Clone)]
pub struct FeedEvent {
    pub id: String,
    pub event_type: String,
    pub source: String,
    pub rig_id: Option<String>,
    pub agent_id: Option<String>,
    pub work_item_id: Option<String>,
    pub summary: String,
    pub details_json: String,
    pub severity: String,
    pub created_at: String,
}

/// The query of a feed request.
#[derive(Debug, Clone)]
pub struct FeedQuery {
    pub rig_id: Option<String>,
    pub limit: Option<i32>,
    pub offset: Option<i32>,
}

/// The answer to a feed request.
#[derive(Debug, Clone)]
pub struct FeedResponse {
    pub events: Vec<FeedEvent>,
    pub total: i32,
}

/// The number of events a feed request asks for: its limit, or 50.
pub fn feed_limit(query: &FeedQuery) -> (n: i32)
    ensures
        n == match query.limit {
            Some(l) => l,
            None => 50,
        },
{
    match query.limit {
        Some(l) => l,
        None => 50,
    }
}

/// The recent events: none yet, whatever the query.
pub fn get_recent_events(query: FeedQuery) -> (r: FeedResponse)
    ensures
        r.events@.len() == 0,
        r.total == 0,
{
    let _limit = feed_limit(&query);
    FeedResponse { events: Vec::new(), total: 0 }
}

} // verus!

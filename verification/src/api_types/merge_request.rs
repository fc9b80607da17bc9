//! The merge request of the HTTP API, the request that creates one, and the listing.
use vstd::prelude::*;

verus! {

/// A merge request as the API serves it.
#[derive(Debug, Clone)]
pub struct MergeRequest {
    pub id: String,
    pub work_item_id: Option<String>,
    pub rig_id: Option<String>,
    pub branch: String,
    pub target_branch: String,
    pub status: String,
    pub agent_id: Option<String>,
    pub pr_url: Option<String>,
    pub metadata_json: String,
    pub queued_at: String,
    pub merged_at: Option<String>,
    pub created_at: String,
    pub updated_at: String,
}

/// The body of a request to create a merge request; the fields left out take their defaults.
#[derive(Debug, Clone)]
pub struct CreateMergeRequestRequest {
    pub id: String,
    pub work_item_id: Option<String>,
    pub rig_id: Option<String>,
    pub branch: String,
    pub target_branch: Option<String>,
    pub status: Option<String>,
    pub agent_id: Option<String>,
    pub pr_url: Option<String>,
    pub metadata_json: Option<String>,
}

/// The answer to a request to list merge requests.
#[derive(Debug, Clone)]
pub struct ListMergeRequestsResponse {
    pub merge_requests: Vec<MergeRequest>,
}

} // verus!

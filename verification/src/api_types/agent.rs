//! The agent of the HTTP API, the request that creates one, and the listing.
use vstd::prelude::*;

verus! {

/// An agent as the API serves it.
#[derive(Debug, Clone)]
pub struct Agent {
    pub id: String,
    pub name: String,
    pub role: String,
    pub rig_id: Option<String>,
    pub status: String,
    pub runtime: Option<String>,
    pub config_json: String,
    pub last_activity_at: Option<String>,
    pub created_at: String,
    pub updated_at: String,
}

/// The body of a request to create an agent; the fields left out take their defaults.
#[derive(Debug, Clone)]
pub struct CreateAgentRequest {
    pub id: String,
    pub name: String,
    pub role: String,
    pub rig_id: Option<String>,
    pub status: Option<String>,
    pub runtime: Option<String>,
    pub config_json: Option<String>,
}

/// The answer to a request to list agents.
#[derive(Debug, Clone)]
pub struct ListAgentsResponse {
    pub agents: Vec<Agent>,
}

} // verus!

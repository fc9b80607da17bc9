//! The rig of the HTTP API, the request that creates one, and the listing.
use vstd::prelude::*;

verus! {

/// A rig as the API serves it.
#[derive(Debug, Clone)]
pub struct Rig {
    pub id: String,
    pub town_id: Option<String>,
    pub name: String,
    pub repo_url: Option<String>,
    pub beads_prefix: String,
    pub config_json: String,
    pub created_at: String,
    pub updated_at: String,
}

/// The body of a request to create a rig; the fields left out take their defaults.
#[derive(Debug, Clone)]
pub struct CreateRigRequest {
    pub id: String,
    pub town_id: Option<String>,
    pub name: String,
    pub repo_url: Option<String>,
    pub beads_prefix: String,
    pub config_json: Option<String>,
}

/// The answer to a request to list rigs.
#[derive(Debug, Clone)]
pub struct ListRigsResponse {
    pub rigs: Vec<Rig>,
}

} // verus!

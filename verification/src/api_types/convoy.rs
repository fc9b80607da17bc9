//! The convoy of the HTTP API, the request that creates one, and the listing.
use vstd::prelude::*;

verus! {

/// A convoy as the API serves it.
#[derive(Debug, Clone)]
pub struct Convoy {
    pub id: String,
    pub name: String,
    pub status: String,
    pub formula: Option<String>,
    pub config_json: String,
    pub created_at: String,
    pub updated_at: String,
}

/// The body of a request to create a convoy; the fields left out take their defaults.
#[derive(Debug, Clone)]
pub struct CreateConvoyRequest {
    pub id: String,
    pub name: String,
    pub status: Option<String>,
    pub formula: Option<String>,
    pub config_json: Option<String>,
}

/// The answer to a request to list convoys.
#[derive(Debug, Clone)]
pub struct ListConvoysResponse {
    pub convoys: Vec<Convoy>,
}

} // verus!

//! The town of the HTTP API, the request that creates one, and the listing.
use vstd::prelude::*;

verus! {

/// A town as the API serves it.
#[derive(Debug, Clone)]
pub struct Town {
    pub id: String,
    pub name: String,
    pub owner: Option<String>,
    pub config_json: String,
    pub settings_json: String,
    pub created_at: String,
    pub updated_at: String,
}

/// The body of a request to create a town; the fields left out take their defaults.
#[derive(Debug, Clone)]
pub struct CreateTownRequest {
    pub id: String,
    pub name: String,
    pub owner: Option<String>,
    pub config_json: Option<String>,
    pub settings_json: Option<String>,
}

/// The answer to a request to list towns.
#[derive(Debug, Clone)]
pub struct ListTownsResponse {
    pub towns: Vec<Town>,
}

} // verus!

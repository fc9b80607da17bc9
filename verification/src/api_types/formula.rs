//! The formula of the HTTP API, the request that creates one, and the listing.
use vstd::prelude::*;

verus! {

/// A formula as the API serves it.
#[derive(Debug, Clone)]
pub struct Formula {
    pub id: String,
    pub name: String,
    pub description: Option<String>,
    pub definition: String,
    pub rig_id: Option<String>,
    pub metadata_json: String,
    pub created_at: String,
    pub updated_at: String,
}

/// The body of a request to create a formula; the fields left out take their defaults.
#[derive(Debug, Clone)]
pub struct CreateFormulaRequest {
    pub id: String,
    pub name: String,
    pub description: Option<String>,
    pub definition: String,
    pub rig_id: Option<String>,
    pub metadata_json: Option<String>,
}

/// The answer to a request to list formulas.
#[derive(Debug, Clone)]
pub struct ListFormulasResponse {
    pub formulas: Vec<Formula>,
}

} // verus!

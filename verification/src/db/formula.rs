//! The `formulas` table: its rows, what creating one takes, and the values a new row is
//! stored with.
use vstd::prelude::*;

use crate::text::{opt_view, str_or, text_or};

verus! {

/// A row of the `formulas` table.
#[derive(Debug, Clone)]
pub struct Formula {
    pub id: String,
    pub name: String,
    pub description: Option<String>,
    pub definition: String,
    pub rig_id: Option<String>,
    pub metadata_json: String,
    pub created_at: String,
    pub updated_at: String,
}

/// What creating a formula takes; the fields left out take their defaults.
#[derive(Debug, Clone)]
pub struct CreateFormula {
    pub id: String,
    pub name: String,
    pub description: Option<String>,
    pub definition: String,
    pub rig_id: Option<String>,
    pub metadata_json: Option<String>,
}

impl CreateFormula {
    /// The value stored for `metadata_json` as given or `{}`.
    pub fn insert_defaults(&self) -> (res: String)
        ensures
            res@ == text_or(opt_view(self.metadata_json), "{}"@),
    {
        str_or(&self.metadata_json, "{}")
    }
}

} // verus!

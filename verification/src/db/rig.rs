//! The `rigs` table: its rows, what creating one takes, and the values a new row is
//! stored with.
use vstd::prelude::*;

use crate::text::{opt_view, str_or, text_or};

verus! {

/// A row of the `rigs` table.
#[derive(Debug, Clone)]
pub struct Rig {
    pub id: String,
    pub town_id: Option<String>,
    pub name: String,
    pub repo_url: Option<String>,
    pub beads_prefix: String,
    pub config_json: String,
    pub created_at: String,
    pub updated_at: String,
}

/// What creating a rig takes; the fields left out take their defaults.
#[derive(Debug, Clone)]
pub struct CreateRig {
    pub id: String,
    pub town_id: Option<String>,
    pub name: String,
    pub repo_url: Option<String>,
    pub beads_prefix: String,
    pub config_json: Option<String>,
}

impl CreateRig {
    /// The value stored for `config_json` as given or `{}`.
    pub fn insert_defaults(&self) -> (res: String)
        ensures
            res@ == text_or(opt_view(self.config_json), "{}"@),
    {
        str_or(&self.config_json, "{}")
    }
}

} // verus!

//! The `convoys` table: its rows, what creating one takes, and the values a new row is
//! stored with.
use vstd::prelude::*;

use crate::text::{opt_view, str_or, text_or};

verus! {

/// A row of the `convoys` table.
#[derive(Debug, Clone)]
pub struct Convoy {
    pub id: String,
    pub name: String,
    pub status: String,
    pub formula: Option<String>,
    pub config_json: String,
    pub created_at: String,
    pub updated_at: String,
}

/// What creating a convoy takes; the fields left out take their defaults.
#[derive(Debug, Clone)]
pub struct CreateConvoy {
    pub id: String,
    pub name: String,
    pub status: Option<String>,
    pub formula: Option<String>,
    pub config_json: Option<String>,
}

impl CreateConvoy {
    /// The values stored for the fields that have defaults, in order: `status` as given
    /// or `active`, `config_json` as given or `{}`.
    pub fn insert_defaults(&self) -> (res: (String, String))
        ensures
            res.0@ == text_or(opt_view(self.status), "active"@),
            res.1@ == text_or(opt_view(self.config_json), "{}"@),
    {
        (str_or(&self.status, "active"), str_or(&self.config_json, "{}"))
    }
}

} // verus!

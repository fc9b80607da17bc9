//! The `towns` table: its rows, what creating one takes, and the values a new row is
//! stored with.
use vstd::prelude::*;

use crate::text::{opt_view, str_or, text_or};

verus! {

/// A row of the `towns` table.
#[derive(Debug, Clone)]
pub struct Town {
    pub id: String,
    pub name: String,
    pub owner: Option<String>,
    pub config_json: String,
    pub settings_json: String,
    pub created_at: String,
    pub updated_at: String,
}

/// What creating a town takes; the fields left out take their defaults.
#[derive(Debug, Clone)]
pub struct CreateTown {
    pub id: String,
    pub name: String,
    pub owner: Option<String>,
    pub config_json: Option<String>,
    pub settings_json: Option<String>,
}

impl CreateTown {
    /// The values stored for the fields that have defaults, in order: `config_json` as
    /// given or `{}`, `settings_json` as given or `{}`.
    pub fn insert_defaults(&self) -> (res: (String, String))
        ensures
            res.0@ == text_or(opt_view(self.config_json), "{}"@),
            res.1@ == text_or(opt_view(self.settings_json), "{}"@),
    {
        (str_or(&self.config_json, "{}"), str_or(&self.settings_json, "{}"))
    }
}

} // verus!

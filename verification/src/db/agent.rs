//! The `agents` table: its rows, what creating one takes, and the values a new row is
//! stored with.
use vstd::prelude::*;

use crate::text::{opt_view, str_or, text_or};

verus! {

/// A row of the `agents` table.
#[derive(Debug, Clone)]
pub struct Agent {
    pub id: String,
    pub name: String,
    pub role: String,
    pub rig_id: Option<String>,
    pub status: String,
    pub runtime: Option<String>,
    pub config_json: String,
    pub last_activity_at: Option<String>,
    pub created_at: String,
    pub updated_at: String,
}

/// What creating an agent takes; the fields left out take their defaults.
#[derive(Debug, Clone)]
pub struct CreateAgent {
    pub id: String,
    pub name: String,
    pub role: String,
    pub rig_id: Option<String>,
    pub status: Option<String>,
    pub runtime: Option<String>,
    pub config_json: Option<String>,
}

impl CreateAgent {
    /// The values stored for the fields that have defaults, in order: `status` as given
    /// or `idle`, `config_json` as given or `{}`.
    pub fn insert_defaults(&self) -> (res: (String, String))
        ensures
            res.0@ == text_or(opt_view(self.status), "idle"@),
            res.1@ == text_or(opt_view(self.config_json), "{}"@),
    {
        (str_or(&self.status, "idle"), str_or(&self.config_json, "{}"))
    }
}

} // verus!

//! The `work_items` table: what creating a row takes, and the values a new row is
//! stored with. A row's sort order is a floating-point number, which the server keeps;
//! everything else about creating a row is here.
use vstd::prelude::*;

use crate::text::{opt_view, str_or, text_or};

verus! {

/// What creating a work item takes, apart from its sort order; the fields left out
/// take their defaults.
#[derive(Debug, Clone)]
pub struct CreateWorkItem {
    pub id: String,
    pub project_id: Option<String>,
    pub rig_id: Option<String>,
    pub convoy_id: Option<String>,
    pub prefix: Option<String>,
    pub item_type: String,
    pub title: String,
    pub description: Option<String>,
    pub status: Option<String>,
    pub priority: Option<i32>,
    pub assignee: Option<String>,
    pub labels_json: Option<String>,
    pub metadata_json: Option<String>,
    pub parent_id: Option<String>,
    pub thread_id: Option<String>,
}

impl CreateWorkItem {
    /// The values stored for the fields that have defaults, in order: `status` as given
    /// or `open`, `priority` as given or 0, `labels_json` as given or `[]`,
    /// `metadata_json` as given or `{}`.
    pub fn insert_defaults(&self) -> (res: (String, i32, String, String))
        ensures
            res.0@ == text_or(opt_view(self.status), "open"@),
            res.1 == (match self.priority {
                Some(p) => p,
                None => 0i32,
            }),
            res.2@ == text_or(opt_view(self.labels_json), "[]"@),
            res.3@ == text_or(opt_view(self.metadata_json), "{}"@),
    {
        let priority = match self.priority {
            Some(p) => p,
            None => 0,
        };
        (
            str_or(&self.status, "open"),
            priority,
            str_or(&self.labels_json, "[]"),
            str_or(&self.metadata_json, "{}"),
        )
    }
}

} // verus!

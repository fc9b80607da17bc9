//! The work-item routes: the query and request they take, and the work items they
//! answer with. A work item's sort order is a floating-point number, which the
//! server adds to the fields here.
use vstd::prelude::*;

use crate::external::{is_uuid_v4_text, new_uuid_v4, now_rfc3339};
use crate::text::owned;

verus! {

/// The query of a work-item listing.
#[derive(Debug, Clone)]
pub struct WorkItemQuery {
    pub status: Option<String>,
    pub item_type: Option<String>,
    pub assignee: Option<String>,
    pub rig_id: Option<String>,
    pub project_id: Option<String>,
    pub limit: Option<i32>,
    pub offset: Option<i32>,
}

/// The body of a request to create a work item.
#[derive(Debug, Clone)]
pub struct CreateWorkItemRequest {
    pub project_id: Option<String>,
    pub rig_id: Option<String>,
    pub item_type: String,
    pub title: String,
    pub description: Option<String>,
    pub priority: Option<i32>,
    pub assignee: Option<String>,
    pub labels: Option<Vec<String>>,
}

/// A work item as the routes serve it, apart from its sort order.
#[derive(Debug, Clone)]
pub struct WorkItemFields {
    pub id: String,
    pub project_id: Option<String>,
    pub rig_id: Option<String>,
    pub convoy_id: Option<String>,
    pub prefix: Option<String>,
    pub item_type: String,
    pub title: String,
    pub description: Option<String>,
    pub status: String,
    pub priority: i32,
    pub assignee: Option<String>,
    pub labels: Vec<String>,
    pub parent_id: Option<String>,
    pub created_at: String,
    pub updated_at: String,
}

/// A newly created work item: a fresh version-4 UUID, the request's project, rig, type, title,
/// description and assignee, status `open`, the requested priority or 0, the requested
/// labels or none, no convoy, prefix or parent, created and updated now.
pub fn create_work_item(req: CreateWorkItemRequest) -> (w: WorkItemFields)
    ensures
        is_uuid_v4_text(w.id@),
        w.project_id == req.project_id,
        w.rig_id == req.rig_id,
        w.convoy_id is None,
        w.prefix is None,
        w.item_type == req.item_type,
        w.title == req.title,
        w.description == req.description,
        w.status@ == "open"@,
        w.priority == (match req.priority {
            Some(p) => p,
            None => 0i32,
        }),
        w.assignee == req.assignee,
        w.labels@ == (match req.labels {
            Some(l) => l@,
            None => Seq::<String>::empty(),
        }),
        w.parent_id is None,
{
    let priority = match req.priority {
        Some(p) => p,
        None => 0,
    };
    let labels = match req.labels {
        Some(l) => l,
        None => Vec::new(),
    };
    WorkItemFields {
        id: new_uuid_v4(),
        project_id: req.project_id,
        rig_id: req.rig_id,
        convoy_id: None,
        prefix: None,
        item_type: req.item_type,
        title: req.title,
        description: req.description,
        status: owned("open"),
        priority,
        assignee: req.assignee,
        labels,
        parent_id: None,
        created_at: now_rfc3339(),
        updated_at: now_rfc3339(),
    }
}

/// The work item `id`: an open `task` titled `Sample work item`, with priority 0 and
/// nothing else set.
pub fn get_work_item(id: String) -> (w: WorkItemFields)
    ensures
        w.id == id,
        w.project_id is None,
        w.rig_id is None,
        w.convoy_id is None,
        w.prefix is None,
        w.item_type@ == "task"@,
        w.title@ == "Sample work item"@,
        w.description is None,
        w.status@ == "open"@,
        w.priority == 0,
        w.assignee is None,
        w.labels@.len() == 0,
        w.parent_id is None,
{
    WorkItemFields {
        id,
        project_id: None,
        rig_id: None,
        convoy_id: None,
        prefix: None,
        item_type: owned("task"),
        title: owned("Sample work item"),
        description: None,
        status: owned("open"),
        priority: 0,
        assignee: None,
        labels: Vec::new(),
        parent_id: None,
        created_at: now_rfc3339(),
        updated_at: now_rfc3339(),
    }
}

} // verus!

//! The database rows: defaults of new rows and the status update of merge requests.

use vibetown::db::agent::CreateAgent;
use vibetown::db::convoy::CreateConvoy;
use vibetown::db::feed_event::CreateFeedEvent;
use vibetown::db::formula::CreateFormula;
use vibetown::db::mail_message::CreateMailMessage;
use vibetown::db::merge_request::{CreateMergeRequest, MergeRequest};
use vibetown::db::rig::CreateRig;
use vibetown::db::town::CreateTown;

#[test]
fn agent_defaults() {
    let a = CreateAgent {
        id: "a".to_string(),
        name: "n".to_string(),
        role: "crew".to_string(),
        rig_id: None,
        status: None,
        runtime: None,
        config_json: None,
    };
    assert_eq!(a.insert_defaults(), ("idle".to_string(), "{}".to_string()));
    let b = CreateAgent { status: Some("busy".to_string()), config_json: Some("{\"k\":1}".to_string()), ..a };
    assert_eq!(b.insert_defaults(), ("busy".to_string(), "{\"k\":1}".to_string()));
}

#[test]
fn convoy_town_rig_formula_feed_defaults() {
    let c = CreateConvoy { id: "c".to_string(), name: "n".to_string(), status: None, formula: None, config_json: None };
    assert_eq!(c.insert_defaults(), ("active".to_string(), "{}".to_string()));
    let t = CreateTown { id: "t".to_string(), name: "n".to_string(), owner: None, config_json: None, settings_json: Some("{\"a\":2}".to_string()) };
    assert_eq!(t.insert_defaults(), ("{}".to_string(), "{\"a\":2}".to_string()));
    let r = CreateRig { id: "r".to_string(), town_id: None, name: "n".to_string(), repo_url: None, beads_prefix: "vt-".to_string(), config_json: None };
    assert_eq!(r.insert_defaults(), "{}");
    let f = CreateFormula { id: "f".to_string(), name: "n".to_string(), description: None, definition: "d".to_string(), rig_id: None, metadata_json: None };
    assert_eq!(f.insert_defaults(), "{}");
    let e = CreateFeedEvent {
        id: "e".to_string(),
        event_type: "t".to_string(),
        source: "s".to_string(),
        rig_id: None,
        agent_id: None,
        work_item_id: None,
        summary: "x".to_string(),
        details_json: None,
        severity: None,
    };
    assert_eq!(e.insert_defaults(), ("{}".to_string(), "info".to_string()));
}

#[test]
fn mail_and_merge_request_defaults() {
    let m = CreateMailMessage {
        id: "m".to_string(),
        from_addr: "a".to_string(),
        to_addr: None,
        subject: "s".to_string(),
        body: None,
        priority: None,
        message_type: None,
        delivery: None,
        thread_id: None,
        reply_to: None,
        queue: None,
        channel: None,
        cc_json: None,
    };
    assert_eq!(
        m.insert_defaults(),
        ("normal".to_string(), "task".to_string(), "queue".to_string(), "[]".to_string())
    );
    let r = CreateMergeRequest {
        id: "r".to_string(),
        work_item_id: None,
        rig_id: None,
        branch: "b".to_string(),
        target_branch: None,
        status: None,
        agent_id: None,
        pr_url: None,
        metadata_json: None,
    };
    assert_eq!(r.insert_defaults(), ("main".to_string(), "pending".to_string(), "{}".to_string()));
}

#[test]
fn merged_status_stamps_merged_at() {
    assert_eq!(
        MergeRequest::status_update_query("merged"),
        "UPDATE merge_requests SET status = ?, merged_at = datetime('now'), updated_at = datetime('now') WHERE id = ?"
    );
    assert_eq!(
        MergeRequest::status_update_query("pending"),
        "UPDATE merge_requests SET status = ?, updated_at = datetime('now') WHERE id = ?"
    );
    assert_eq!(
        MergeRequest::status_update_query("Merged"),
        "UPDATE merge_requests SET status = ?, updated_at = datetime('now') WHERE id = ?"
    );
}

#[test]
fn work_item_defaults() {
    let w = vibetown::db::work_item::CreateWorkItem {
        id: "w".to_string(),
        project_id: None,
        rig_id: None,
        convoy_id: None,
        prefix: None,
        item_type: "task".to_string(),
        title: "t".to_string(),
        description: None,
        status: None,
        priority: None,
        assignee: None,
        labels_json: None,
        metadata_json: None,
        parent_id: None,
        thread_id: None,
    };
    assert_eq!(
        w.insert_defaults(),
        ("open".to_string(), 0, "[]".to_string(), "{}".to_string())
    );
    let v = vibetown::db::work_item::CreateWorkItem {
        status: Some("done".to_string()),
        priority: Some(3),
        labels_json: Some("[\"a\"]".to_string()),
        ..w
    };
    assert_eq!(
        v.insert_defaults(),
        ("done".to_string(), 3, "[\"a\"]".to_string(), "{}".to_string())
    );
}

//! The engine client's requests, user context, health reading and errors.

use vibetown::engine::client::{
    claim_request, create_rig_request, create_town_request, dispatch_work_request,
    get_agent_status_request, get_convoy_status_request, get_inbox_request,
    get_merge_queue_request, get_recent_events_request, get_town_request, health_check_request,
    is_serving, kill_agent_request, list_agents_request, list_convoys_request, list_rigs_request,
    mark_read_request, start_convoy_request, stream_events_request, user_metadata,
    EngineClientError,
};
use vibetown::engine::proto::orchestration::health_check_response::ServingStatus;
use vibetown::engine::proto::orchestration::HealthCheckResponse;

#[test]
fn health_check_reads_serving() {
    assert_eq!(health_check_request().service, "");
    assert!(is_serving(&HealthCheckResponse { status: 1 }));
    assert!(!is_serving(&HealthCheckResponse { status: 0 }));
    assert!(!is_serving(&HealthCheckResponse { status: 2 }));
    assert_eq!(ServingStatus::Serving.code(), 1);
    assert_eq!(ServingStatus::NotServing.code(), 2);
}

#[test]
fn requests_carry_their_arguments() {
    let t = create_town_request("Vibetown", "owner-1");
    assert_eq!((t.name.as_str(), t.owner.as_str()), ("Vibetown", "owner-1"));
    assert_eq!(get_town_request("town-1").id, "town-1");
    let r = create_rig_request("town-1", "rig", "https://x/repo", "vt-");
    assert_eq!((r.town_id.as_str(), r.name.as_str(), r.repo_url.as_str(), r.beads_prefix.as_str()), ("town-1", "rig", "https://x/repo", "vt-"));
    assert_eq!(list_rigs_request("town-1").town_id, "town-1");
    assert_eq!(kill_agent_request("a").id, "a");
    assert_eq!(get_agent_status_request("a").id, "a");
    let c = start_convoy_request("deploy", "standard", "{}");
    assert_eq!((c.name.as_str(), c.formula.as_str(), c.config_json.as_str()), ("deploy", "standard", "{}"));
    assert_eq!(get_convoy_status_request("c").id, "c");
    let d = dispatch_work_request("agent-1", "Fix bug #42", "The widget is broken", "rig-1");
    assert_eq!((d.agent_id.as_str(), d.title.as_str(), d.description.as_str(), d.rig_id.as_str()), ("agent-1", "Fix bug #42", "The widget is broken", "rig-1"));
    assert_eq!(mark_read_request("m").id, "m");
    let q = claim_request("default", "crew-1");
    assert_eq!((q.queue.as_str(), q.claimed_by.as_str()), ("default", "crew-1"));
}

#[test]
fn missing_filters_are_sent_empty() {
    let a = list_agents_request(Some("rig-1"), None, Some("idle"));
    assert_eq!((a.rig_id.as_str(), a.role.as_str(), a.status.as_str()), ("rig-1", "", "idle"));
    assert_eq!(list_convoys_request(None).status, "");
    assert_eq!(get_merge_queue_request(Some("r")).rig_id, "r");
    let s = stream_events_request(None, Some("warn"));
    assert_eq!((s.rig_id.as_str(), s.severity.as_str()), ("", "warn"));
}

#[test]
fn inbox_and_feed_requests_start_at_zero() {
    let i = get_inbox_request("agent-1@town", 20);
    assert_eq!(i.to_addr, "agent-1@town");
    assert_eq!((i.queue.as_str(), i.channel.as_str()), ("", ""));
    assert!(!i.unread_only);
    assert_eq!((i.limit, i.offset), (20, 0));
    let f = get_recent_events_request(50);
    assert_eq!((f.rig_id.as_str(), f.limit, f.offset), ("", 50, 0));
}

#[test]
fn user_context_metadata() {
    assert_eq!(
        user_metadata(Some("u-1"), Some("a@b")),
        vec![
            ("x-user-id".to_string(), "u-1".to_string()),
            ("x-user-email".to_string(), "a@b".to_string())
        ]
    );
    assert_eq!(user_metadata(None, Some("a@b")), vec![("x-user-email".to_string(), "a@b".to_string())]);
    assert!(user_metadata(None, None).is_empty());
}

#[test]
fn engine_error_messages() {
    assert_eq!(EngineClientError::InvalidUri("bad".to_string()).message(), "invalid uri: bad");
    assert_eq!(EngineClientError::Transport("refused".to_string()).message(), "transport error: refused");
    assert_eq!(EngineClientError::Status("unavailable".to_string()).message(), "grpc status: unavailable");
    assert_eq!(
        EngineClientError::EmptyResponse("get_town".to_string()).message(),
        "unexpected empty response for get_town"
    );
}

#[test]
fn invalid_metadata_values_are_left_out() {
    assert_eq!(
        user_metadata(Some("u\n1"), Some("a@b")),
        vec![("x-user-email".to_string(), "a@b".to_string())]
    );
    assert!(user_metadata(Some("bad\u{7f}"), Some("x\ry")).is_empty());
    assert_eq!(
        user_metadata(Some("tab\tok"), None),
        vec![("x-user-id".to_string(), "tab\tok".to_string())]
    );
}

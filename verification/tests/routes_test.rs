//! The HTTP routes: cookies, client details, administration and the stub answers.

use vibetown::auth::errors::AuthError;
use vibetown::auth::middleware::extract_session_cookie;
use vibetown::auth::models::{Team, User};
use vibetown::routes::admin::{
    found_team, found_user, local_user_data, require_admin, team_role_id, user_changes,
    CreateLocalUserRequest, UpdateUserRequest, UserChange,
};
use vibetown::routes::auth::{
    auth_unavailable, clear_session_cookie, cookie_secure, extract_client_info,
    logout_session_token, set_session_cookie, setup_status,
};
use vibetown::routes::feed::{feed_limit, get_recent_events, FeedQuery};
use vibetown::routes::health::ready_check;
use vibetown::routes::mail::{get_inbox, mark_read, send_mail, InboxQuery, SendMailRequest};
use vibetown::routes::orchestration::{
    create_rig, create_town, get_agent, get_convoy, get_merge_queue, get_town, kill_agent,
    list_agents, list_convoys, list_rigs, queue_merge, spawn_agent, CreateRigRequest,
    CreateTownRequest, QueueMergeRequest, SpawnAgentRequest,
};
use vibetown::routes::terminal::{default_cols, default_rows, terminal_ws};
use vibetown::routes::work_items::{create_work_item, get_work_item, CreateWorkItemRequest};

fn user(is_admin: bool) -> User {
    User {
        id: "u-1".to_string(),
        email: "ann@example.com".to_string(),
        username: None,
        display_name: None,
        auth_provider: "local".to_string(),
        external_id: None,
        avatar_url: None,
        is_active: true,
        is_admin,
        created_at: "c".to_string(),
        updated_at: "u".to_string(),
        last_login_at: None,
    }
}

// ── Cookies ──

#[test]
fn session_cookie_text() {
    assert_eq!(
        set_session_cookie("abc", 604800, false),
        "vt_session=abc; HttpOnly; SameSite=Lax; Path=/; Max-Age=604800"
    );
    assert_eq!(
        set_session_cookie("abc", -5, true),
        "vt_session=abc; HttpOnly; SameSite=Lax; Path=/; Max-Age=-5; Secure"
    );
}

#[test]
fn clear_session_cookie_text() {
    assert_eq!(clear_session_cookie(), "vt_session=; HttpOnly; SameSite=Lax; Path=/; Max-Age=0");
}

#[test]
fn session_cookie_reads_back() {
    let token = "0123456789abcdef0123456789abcdef0123456789abcdef0123456789abcdef";
    let cookie = set_session_cookie(token, 3600, true);
    assert_eq!(extract_session_cookie(Some(&cookie)), Some(token.to_string()));
    assert_eq!(logout_session_token(Some(&cookie)), Some(token.to_string()));
}

#[test]
fn cleared_cookie_holds_no_session() {
    let cookie = clear_session_cookie();
    assert_eq!(extract_session_cookie(Some(&cookie)), None);
    assert_eq!(logout_session_token(Some(&cookie)), Some(String::new()));
}

#[test]
fn secure_flag_follows_the_environment() {
    let on = vec![("VT_AUTH_COOKIE_SECURE".to_string(), "1".to_string())];
    let off = vec![("VT_AUTH_COOKIE_SECURE".to_string(), "yes".to_string())];
    assert!(cookie_secure(&on));
    assert!(!cookie_secure(&off));
    assert!(!cookie_secure(&[]));
}

#[test]
fn logout_takes_the_first_session_piece_even_empty() {
    assert_eq!(logout_session_token(None), None);
    assert_eq!(logout_session_token(Some("a=1; vt_session=tok")), Some("tok".to_string()));
    assert_eq!(logout_session_token(Some("vt_session=; vt_session=tok")), Some(String::new()));
    assert_eq!(logout_session_token(Some("a=1")), None);
}

// ── Client details ──

#[test]
fn client_ip_prefers_the_first_forwarded_address() {
    let (ip, ua) = extract_client_info(Some(" 10.0.0.1 , 10.0.0.2"), Some("192.168.0.9"), Some("curl/8"));
    assert_eq!(ip, Some("10.0.0.1".to_string()));
    assert_eq!(ua, Some("curl/8".to_string()));
    let (ip, ua) = extract_client_info(None, Some("192.168.0.9"), None);
    assert_eq!(ip, Some("192.168.0.9".to_string()));
    assert_eq!(ua, None);
    let (ip, _) = extract_client_info(Some(""), Some("192.168.0.9"), None);
    assert_eq!(ip, Some(String::new()));
    assert_eq!(extract_client_info(None, None, None), (None, None));
}

// ── Status and availability ──

#[test]
fn setup_status_without_and_with_authentication() {
    let off = setup_status(false, Ok(true), vec![]);
    assert!(!off.has_users && !off.auth_required && off.providers.is_empty());
    let on = setup_status(true, Ok(true), vec![]);
    assert!(on.has_users && on.auth_required);
    let failed = setup_status(true, Err(AuthError::Database("down".to_string())), vec![]);
    assert!(!failed.has_users && failed.auth_required);
}

#[test]
fn authentication_unavailable_is_503() {
    let r = auth_unavailable();
    assert_eq!(r.status, 503);
    assert_eq!(r.error, "Authentication not enabled");
}

// ── Administration ──

#[test]
fn only_administrators_pass() {
    assert!(require_admin(&user(true)).is_ok());
    let r = require_admin(&user(false)).unwrap_err();
    assert_eq!(r.status, 403);
    assert_eq!(r.error, "Admin access required");
}

#[test]
fn created_users_are_local_with_a_password() {
    let d = local_user_data(CreateLocalUserRequest {
        email: "c@example.com".to_string(),
        username: None,
        display_name: Some("C".to_string()),
        password: "pw".to_string(),
        is_admin: true,
    });
    assert_eq!(d.auth_provider, "local");
    assert_eq!(d.password, Some("pw".to_string()));
    assert_eq!(d.external_id, None);
    assert!(d.is_admin);
}

#[test]
fn user_changes_come_in_order() {
    let all = user_changes(&UpdateUserRequest { is_active: Some(false), is_admin: Some(true), display_name: None });
    assert_eq!(all.len(), 2);
    assert!(matches!(all[0], UserChange::Deactivate));
    assert!(matches!(all[1], UserChange::SetAdmin(true)));
    let one = user_changes(&UpdateUserRequest { is_active: Some(true), is_admin: None, display_name: Some("x".to_string()) });
    assert_eq!(one.len(), 1);
    assert!(matches!(one[0], UserChange::Activate));
    assert!(user_changes(&UpdateUserRequest { is_active: None, is_admin: None, display_name: None }).is_empty());
}

#[test]
fn missing_users_and_teams_are_404() {
    assert_eq!(found_user(Some(user(false))).unwrap().id, "u-1");
    let r = found_user(None).unwrap_err();
    assert_eq!((r.status, r.error.as_str()), (404, "User not found"));
    let t = Team {
        id: "t-1".to_string(),
        name: "core".to_string(),
        description: None,
        created_by: None,
        created_at: "c".to_string(),
        updated_at: "u".to_string(),
    };
    assert_eq!(found_team(Some(t)).unwrap().id, "t-1");
    let r = found_team(None).unwrap_err();
    assert_eq!((r.status, r.error.as_str()), (404, "Team not found"));
}

#[test]
fn team_roles_are_prefixed() {
    assert_eq!(team_role_id("admin"), "role-admin");
    assert_eq!(team_role_id(""), "role-");
}

// ── Orchestration, mail, feed, health, terminal ──

#[test]
fn orchestration_answers() {
    let t = get_town();
    assert_eq!((t.name.as_str(), t.owner.as_str(), t.id.len()), ("Default Town", "admin", 36));
    let t = create_town(CreateTownRequest { name: "n".to_string(), owner: "o".to_string() });
    assert_eq!((t.name.as_str(), t.owner.as_str()), ("n", "o"));
    let rigs = list_rigs();
    assert_eq!(rigs.len(), 1);
    assert_eq!(rigs[0].repo_url, "https://github.com/edicorai/vibetown");
    assert_eq!(rigs[0].beads_prefix, "vt-");
    let r = create_rig(CreateRigRequest {
        town_id: "t".to_string(),
        name: "r".to_string(),
        repo_url: "u".to_string(),
        beads_prefix: "p".to_string(),
    });
    assert_eq!((r.town_id.as_str(), r.name.as_str(), r.repo_url.as_str(), r.beads_prefix.as_str()), ("t", "r", "u", "p"));
    assert!(list_agents().is_empty());
    let a = spawn_agent(SpawnAgentRequest {
        name: "w".to_string(),
        role: "crew".to_string(),
        rig_id: "r".to_string(),
        runtime: "local-runtime".to_string(),
    });
    assert_eq!((a.status.as_str(), a.role.as_str(), a.id.len()), ("idle", "crew", 36));
    assert!(a.last_activity_at.is_none());
    let k = kill_agent("a-1".to_string());
    assert_eq!((k.id.as_str(), k.status.as_str()), ("a-1", "killed"));
    let g = get_agent("a-2".to_string());
    assert_eq!((g.id.as_str(), g.name.as_str(), g.role.as_str(), g.runtime.as_str()), ("a-2", "agent-1", "polecat", "default"));
    assert!(list_convoys().is_empty());
    let c = get_convoy("c-1".to_string());
    assert_eq!((c.id.as_str(), c.name.as_str(), c.status.as_str(), c.formula.as_str()), ("c-1", "convoy-1", "active", ""));
    assert!(get_merge_queue().is_empty());
    let m = queue_merge(QueueMergeRequest {
        rig_id: "r".to_string(),
        branch: "b".to_string(),
        target_branch: "main".to_string(),
        agent_id: "a".to_string(),
    });
    assert_eq!((m.branch.as_str(), m.target_branch.as_str(), m.status.as_str(), m.pr_url.as_str()), ("b", "main", "pending", ""));
}

#[test]
fn mail_answers_with_defaults() {
    let m = send_mail(SendMailRequest {
        from_addr: "a@town".to_string(),
        to_addr: "b@town".to_string(),
        subject: "s".to_string(),
        body: "b".to_string(),
        priority: None,
        message_type: Some("escalation".to_string()),
        thread_id: None,
    });
    assert_eq!(m.priority, "normal");
    assert_eq!(m.message_type, "escalation");
    assert!(!m.read);
    assert_eq!(m.id.len(), 36);
    let inbox = get_inbox(InboxQuery { to_addr: None, unread_only: None, limit: None, offset: None });
    assert!(inbox.messages.is_empty());
    assert_eq!(inbox.total, 0);
    let r = mark_read("m-1".to_string());
    assert_eq!(r.id, "m-1");
    assert!(r.read);
}

#[test]
fn feed_and_health_answers() {
    assert_eq!(feed_limit(&FeedQuery { rig_id: None, limit: None, offset: None }), 50);
    assert_eq!(feed_limit(&FeedQuery { rig_id: None, limit: Some(5), offset: None }), 5);
    let f = get_recent_events(FeedQuery { rig_id: None, limit: Some(5), offset: None });
    assert!(f.events.is_empty());
    assert_eq!(f.total, 0);
    let r = ready_check();
    assert_eq!((r.status.as_str(), r.db.as_str(), r.engine.as_str()), ("ok", "ok", "unknown"));
}

#[test]
fn terminal_defaults_and_refusal() {
    assert_eq!(default_cols(), 80);
    assert_eq!(default_rows(), 24);
    let r = terminal_ws();
    assert_eq!(r.status, 400);
    assert_eq!(r.error, "Terminal functionality is not available");
}

#[test]
fn work_item_answers() {
    let w = create_work_item(CreateWorkItemRequest {
        project_id: Some("p".to_string()),
        rig_id: None,
        item_type: "bug".to_string(),
        title: "crash".to_string(),
        description: None,
        priority: None,
        assignee: Some("ann".to_string()),
        labels: None,
    });
    assert_eq!((w.status.as_str(), w.priority, w.id.len()), ("open", 0, 36));
    assert!(w.labels.is_empty());
    assert_eq!(w.assignee, Some("ann".to_string()));
    let g = get_work_item("w-1".to_string());
    assert_eq!((g.id.as_str(), g.item_type.as_str(), g.title.as_str(), g.status.as_str()), ("w-1", "task", "Sample work item", "open"));
}

fn is_uuid_v4(s: &str) -> bool {
    let b = s.as_bytes();
    b.len() == 36
        && b.iter().enumerate().all(|(i, c)| {
            if [8, 13, 18, 23].contains(&i) {
                *c == b'-'
            } else {
                c.is_ascii_digit() || (b'a'..=b'f').contains(c)
            }
        })
        && b[14] == b'4'
        && [b'8', b'9', b'a', b'b'].contains(&b[19])
}

#[test]
fn new_ids_are_version_4_uuids() {
    assert!(is_uuid_v4(&get_town().id));
    assert!(is_uuid_v4(&create_town(CreateTownRequest { name: "n".to_string(), owner: "o".to_string() }).id));
    let w = create_work_item(CreateWorkItemRequest {
        project_id: None,
        rig_id: None,
        item_type: "task".to_string(),
        title: "t".to_string(),
        description: None,
        priority: None,
        assignee: None,
        labels: None,
    });
    assert!(is_uuid_v4(&w.id));
}

//! What the engine client sends: one request message per call, built from the
//! caller's arguments, the user context it attaches, how it reads a health check,
//! and its errors.
use vstd::prelude::*;

use crate::engine::proto::feed;
use crate::engine::proto::mail;
use crate::engine::proto::orchestration;
use crate::external::{is_valid_header_value, valid_header_value};
use crate::text::{concat2, owned};
use vstd::utf8::encode_utf8;

verus! {

/// The errors of the engine client, with the text of their cause.
#[derive(Debug, Clone)]
pub enum EngineClientError {
    /// The connection failed or broke.
    Transport(String),
    /// The engine answered with an error status.
    Status(String),
    /// The engine's address is not a valid URI.
    InvalidUri(String),
    /// The engine answered a call with nothing.
    EmptyResponse(String),
}

/// The message of an engine-client error.
pub open spec fn engine_error_text(e: EngineClientError) -> Seq<char> {
    match e {
        EngineClientError::Transport(m) => "transport error: "@ + m@,
        EngineClientError::Status(m) => "grpc status: "@ + m@,
        EngineClientError::InvalidUri(m) => "invalid uri: "@ + m@,
        EngineClientError::EmptyResponse(m) => "unexpected empty response for "@ + m@,
    }
}

impl EngineClientError {
    /// The message of the error: what failed, then its cause.
    pub fn message(&self) -> (res: String)
        ensures
            res@ == engine_error_text(*self),
    {
        match self {
            EngineClientError::Transport(m) => concat2("transport error: ", m.as_str()),
            EngineClientError::Status(m) => concat2("grpc status: ", m.as_str()),
            EngineClientError::InvalidUri(m) => concat2("invalid uri: ", m.as_str()),
            EngineClientError::EmptyResponse(m) => concat2(
                "unexpected empty response for ",
                m.as_str(),
            ),
        }
    }
}

/// The text of an optional filter: the filter, or empty for none.
pub open spec fn filter_text(f: Option<Seq<char>>) -> Seq<char> {
    match f {
        Some(t) => t,
        None => Seq::<char>::empty(),
    }
}

/// The view of an optional string slice.
pub open spec fn filter_view(f: Option<&str>) -> Option<Seq<char>> {
    match f {
        Some(t) => Some(t@),
        None => None,
    }
}

fn filter_string(f: Option<&str>) -> (res: String)
    ensures
        res@ == filter_text(filter_view(f)),
{
    match f {
        Some(t) => owned(t),
        None => String::new(),
    }
}

/// A text that can be sent as ASCII metadata: its UTF-8 bytes form a valid header
/// value.
pub open spec fn metadata_ok(t: Seq<char>) -> bool {
    valid_header_value(encode_utf8(t))
}

/// The user context attached to a request: `x-user-id` with the user's id and
/// `x-user-email` with the email, each when given and valid as metadata, in that
/// order.
pub open spec fn user_metadata_of(user_id: Option<Seq<char>>, email: Option<Seq<char>>) -> Seq<
    (Seq<char>, Seq<char>),
> {
    (match user_id {
        Some(i) => if metadata_ok(i) {
            seq![("x-user-id"@, i)]
        } else {
            Seq::<(Seq<char>, Seq<char>)>::empty()
        },
        None => Seq::<(Seq<char>, Seq<char>)>::empty(),
    }) + (match email {
        Some(e) => if metadata_ok(e) {
            seq![("x-user-email"@, e)]
        } else {
            Seq::<(Seq<char>, Seq<char>)>::empty()
        },
        None => Seq::<(Seq<char>, Seq<char>)>::empty(),
    })
}

/// The user context carries one entry per given, valid value and no other: the
/// user's id under `x-user-id` first, then the email under `x-user-email`.
pub proof fn lemma_user_metadata_entries(user_id: Option<Seq<char>>, email: Option<Seq<char>>)
    ensures
        user_metadata_of(user_id, email).len() == (if user_id matches Some(i) && metadata_ok(i) {
            1int
        } else {
            0int
        }) + (if email matches Some(e) && metadata_ok(e) {
            1int
        } else {
            0int
        }),
        user_id matches Some(i) ==> metadata_ok(i) ==> user_metadata_of(user_id, email)[0] == (
            "x-user-id"@,
            i,
        ),
        email matches Some(e) ==> metadata_ok(e) ==> user_metadata_of(user_id, email).last() == (
            "x-user-email"@,
            e,
        ),
        !(user_id matches Some(i) && metadata_ok(i)) && !(email matches Some(e) && metadata_ok(e))
            ==> user_metadata_of(user_id, email).len() == 0,
{
}

/// The metadata entries that carry the user context of a request, as
/// `(key, value)`: the user's id and email, each when given and valid as metadata (a
/// value that is not is left out).
pub fn user_metadata(user_id: Option<&str>, email: Option<&str>) -> (res: Vec<(String, String)>)
    ensures
        res@.map_values(|p: (String, String)| (p.0@, p.1@)) == user_metadata_of(
            filter_view(user_id),
            filter_view(email),
        ),
{
    let mut v: Vec<(String, String)> = Vec::new();
    match user_id {
        Some(i) => {
            if is_valid_header_value(i) {
                v.push((owned("x-user-id"), owned(i)));
            }
        },
        None => {},
    }
    match email {
        Some(e) => {
            if is_valid_header_value(e) {
                v.push((owned("x-user-email"), owned(e)));
            }
        },
        None => {},
    }
    assert(v@.map_values(|p: (String, String)| (p.0@, p.1@)) =~= user_metadata_of(
        filter_view(user_id),
        filter_view(email),
    ));
    v
}

// ── Health ──

/// The health check of the engine as a whole.
pub fn health_check_request() -> (r: orchestration::HealthCheckRequest)
    ensures
        r.service@ == Seq::<char>::empty(),
{
    orchestration::HealthCheckRequest { service: String::new() }
}

/// Whether a health check's status code says the engine is serving.
pub fn is_serving(response: &orchestration::HealthCheckResponse) -> (b: bool)
    ensures
        b == (response.status == 1),
{
    let serving = orchestration::health_check_response::ServingStatus::Serving;
    response.status == serving.code()
}

// ── Town ──

/// The request that creates a town.
pub fn create_town_request(name: &str, owner: &str) -> (r: orchestration::CreateTownRequest)
    ensures
        r.name@ == name@,
        r.owner@ == owner@,
{
    orchestration::CreateTownRequest { name: owned(name), owner: owned(owner) }
}

/// The request for the town `id`.
pub fn get_town_request(id: &str) -> (r: orchestration::GetTownRequest)
    ensures
        r.id@ == id@,
{
    orchestration::GetTownRequest { id: owned(id) }
}

// ── Rig ──

/// The request that creates a rig.
pub fn create_rig_request(town_id: &str, name: &str, repo_url: &str, beads_prefix: &str) -> (r:
    orchestration::CreateRigRequest)
    ensures
        r.town_id@ == town_id@,
        r.name@ == name@,
        r.repo_url@ == repo_url@,
        r.beads_prefix@ == beads_prefix@,
{
    orchestration::CreateRigRequest {
        town_id: owned(town_id),
        name: owned(name),
        repo_url: owned(repo_url),
        beads_prefix: owned(beads_prefix),
    }
}

/// The request for the rigs of the town `town_id`.
pub fn list_rigs_request(town_id: &str) -> (r: orchestration::ListRigsRequest)
    ensures
        r.town_id@ == town_id@,
{
    orchestration::ListRigsRequest { town_id: owned(town_id) }
}

// ── Agent ──

/// The request that kills the agent `id`.
pub fn kill_agent_request(id: &str) -> (r: orchestration::KillAgentRequest)
    ensures
        r.id@ == id@,
{
    orchestration::KillAgentRequest { id: owned(id) }
}

/// The request for the status of the agent `id`.
pub fn get_agent_status_request(id: &str) -> (r: orchestration::GetAgentStatusRequest)
    ensures
        r.id@ == id@,
{
    orchestration::GetAgentStatusRequest { id: owned(id) }
}

/// The request for the agents; a filter left out is sent empty, which matches all.
pub fn list_agents_request(rig_id: Option<&str>, role: Option<&str>, status: Option<&str>) -> (r:
    orchestration::ListAgentsRequest)
    ensures
        r.rig_id@ == filter_text(filter_view(rig_id)),
        r.role@ == filter_text(filter_view(role)),
        r.status@ == filter_text(filter_view(status)),
{
    orchestration::ListAgentsRequest {
        rig_id: filter_string(rig_id),
        role: filter_string(role),
        status: filter_string(status),
    }
}

// ── Convoy ──

/// The request that starts a convoy.
pub fn start_convoy_request(name: &str, formula: &str, config_json: &str) -> (r:
    orchestration::StartConvoyRequest)
    ensures
        r.name@ == name@,
        r.formula@ == formula@,
        r.config_json@ == config_json@,
{
    orchestration::StartConvoyRequest {
        name: owned(name),
        formula: owned(formula),
        config_json: owned(config_json),
    }
}

/// The request for the status of the convoy `id`.
pub fn get_convoy_status_request(id: &str) -> (r: orchestration::GetConvoyStatusRequest)
    ensures
        r.id@ == id@,
{
    orchestration::GetConvoyStatusRequest { id: owned(id) }
}

/// The request for the convoys; a status left out is sent empty, which matches all.
pub fn list_convoys_request(status: Option<&str>) -> (r: orchestration::ListConvoysRequest)
    ensures
        r.status@ == filter_text(filter_view(status)),
{
    orchestration::ListConvoysRequest { status: filter_string(status) }
}

// ── Work dispatch ──

/// The request that dispatches a work item to an agent.
pub fn dispatch_work_request(agent_id: &str, title: &str, description: &str, rig_id: &str) -> (r:
    orchestration::DispatchWorkRequest)
    ensures
        r.agent_id@ == agent_id@,
        r.title@ == title@,
        r.description@ == description@,
        r.rig_id@ == rig_id@,
{
    orchestration::DispatchWorkRequest {
        agent_id: owned(agent_id),
        title: owned(title),
        description: owned(description),
        rig_id: owned(rig_id),
    }
}

// ── Merge queue ──

/// The request for the merge queue; a rig left out is sent empty, which matches all.
pub fn get_merge_queue_request(rig_id: Option<&str>) -> (r: orchestration::GetMergeQueueRequest)
    ensures
        r.rig_id@ == filter_text(filter_view(rig_id)),
{
    orchestration::GetMergeQueueRequest { rig_id: filter_string(rig_id) }
}

// ── Mail ──

/// The request for the first `limit` messages of the inbox of `to_addr`, read or not,
/// from any queue and channel.
pub fn get_inbox_request(to_addr: &str, limit: i32) -> (r: mail::GetInboxRequest)
    ensures
        r.to_addr@ == to_addr@,
        r.queue@ == Seq::<char>::empty(),
        r.channel@ == Seq::<char>::empty(),
        !r.unread_only,
        r.limit == limit,
        r.offset == 0,
{
    mail::GetInboxRequest {
        to_addr: owned(to_addr),
        queue: String::new(),
        channel: String::new(),
        unread_only: false,
        limit,
        offset: 0,
    }
}

/// The request that marks the message `id` as read.
pub fn mark_read_request(id: &str) -> (r: mail::MarkReadRequest)
    ensures
        r.id@ == id@,
{
    mail::MarkReadRequest { id: owned(id) }
}

/// The request that claims the next message of `queue` for `claimed_by`.
pub fn claim_request(queue: &str, claimed_by: &str) -> (r: mail::ClaimRequest)
    ensures
        r.queue@ == queue@,
        r.claimed_by@ == claimed_by@,
{
    mail::ClaimRequest { queue: owned(queue), claimed_by: owned(claimed_by) }
}

// ── Feed ──

/// The request for the `limit` most recent events of all rigs.
pub fn get_recent_events_request(limit: i32) -> (r: feed::GetRecentEventsRequest)
    ensures
        r.rig_id@ == Seq::<char>::empty(),
        r.limit == limit,
        r.offset == 0,
{
    feed::GetRecentEventsRequest { rig_id: String::new(), limit, offset: 0 }
}

/// The request for a stream of events; a filter left out is sent empty, which matches
/// all.
pub fn stream_events_request(rig_id: Option<&str>, severity: Option<&str>) -> (r:
    feed::StreamEventsRequest)
    ensures
        r.rig_id@ == filter_text(filter_view(rig_id)),
        r.severity@ == filter_text(filter_view(severity)),
{
    feed::StreamEventsRequest { rig_id: filter_string(rig_id), severity: filter_string(severity) }
}

} // verus!

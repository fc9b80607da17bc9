//! The messages of the engine's orchestration and health services.
use vstd::prelude::*;

use crate::engine::proto::Timestamp;

pub mod health_check_response;

verus! {

/// A town.
#[derive(Clone, Debug, PartialEq)]
pub struct Town {
    pub id: String,
    pub name: String,
    pub owner: String,
    pub config_json: String,
    pub created_at: Option<Timestamp>,
    pub updated_at: Option<Timestamp>,
}

/// A rig: a repository worked on within a town.
#[derive(Clone, Debug, PartialEq)]
pub struct Rig {
    pub id: String,
    pub town_id: String,
    pub name: String,
    pub repo_url: String,
    pub beads_prefix: String,
    pub config_json: String,
    pub created_at: Option<Timestamp>,
    pub updated_at: Option<Timestamp>,
}

/// An agent.
#[derive(Clone, Debug, PartialEq)]
pub struct Agent {
    pub id: String,
    pub name: String,
    pub role: String,
    pub rig_id: String,
    pub status: String,
    pub runtime: String,
    pub config_json: String,
    pub last_activity_at: Option<Timestamp>,
    pub created_at: Option<Timestamp>,
}

/// A convoy.
#[derive(Clone, Debug, PartialEq)]
pub struct Convoy {
    pub id: String,
    pub name: String,
    pub status: String,
    pub formula: String,
    pub config_json: String,
    pub created_at: Option<Timestamp>,
    pub updated_at: Option<Timestamp>,
}

/// An entry of the merge queue.
#[derive(Clone, Debug, PartialEq)]
pub struct MergeRequest {
    pub id: String,
    pub work_item_id: String,
    pub rig_id: String,
    pub branch: String,
    pub target_branch: String,
    pub status: String,
    pub agent_id: String,
    pub pr_url: String,
    pub queued_at: Option<Timestamp>,
    pub merged_at: Option<Timestamp>,
}

/// A health check of a service (empty for the engine as a whole).
#[derive(Clone, Debug, PartialEq)]
pub struct HealthCheckRequest {
    pub service: String,
}

/// The answer to a health check: a `ServingStatus` code.
#[derive(Clone, Debug, PartialEq)]
pub struct HealthCheckResponse {
    pub status: i32,
}

/// A request to create a town.
#[derive(Clone, Debug, PartialEq)]
pub struct CreateTownRequest {
    pub name: String,
    pub owner: String,
}

/// A request for a town.
#[derive(Clone, Debug, PartialEq)]
pub struct GetTownRequest {
    pub id: String,
}

/// A request to create a rig.
#[derive(Clone, Debug, PartialEq)]
pub struct CreateRigRequest {
    pub town_id: String,
    pub name: String,
    pub repo_url: String,
    pub beads_prefix: String,
}

/// A request for the rigs of a town.
#[derive(Clone, Debug, PartialEq)]
pub struct ListRigsRequest {
    pub town_id: String,
}

/// A request to spawn an agent.
#[derive(Clone, Debug, PartialEq)]
pub struct SpawnAgentRequest {
    pub name: String,
    pub role: String,
    pub rig_id: String,
    pub runtime: String,
    pub config_json: String,
}

/// A request to kill an agent.
#[derive(Clone, Debug, PartialEq)]
pub struct KillAgentRequest {
    pub id: String,
}

/// A request for the status of an agent.
#[derive(Clone, Debug, PartialEq)]
pub struct GetAgentStatusRequest {
    pub id: String,
}

/// A request for the agents; an empty filter matches all.
#[derive(Clone, Debug, PartialEq)]
pub struct ListAgentsRequest {
    pub rig_id: String,
    pub role: String,
    pub status: String,
}

/// A request to start a convoy.
#[derive(Clone, Debug, PartialEq)]
pub struct StartConvoyRequest {
    pub name: String,
    pub formula: String,
    pub config_json: String,
}

/// A request for the status of a convoy.
#[derive(Clone, Debug, PartialEq)]
pub struct GetConvoyStatusRequest {
    pub id: String,
}

/// A request for the convoys; an empty filter matches all.
#[derive(Clone, Debug, PartialEq)]
pub struct ListConvoysRequest {
    pub status: String,
}

/// A request to dispatch a work item to an agent.
#[derive(Clone, Debug, PartialEq)]
pub struct DispatchWorkRequest {
    pub agent_id: String,
    pub title: String,
    pub description: String,
    pub rig_id: String,
}

/// A request for the merge queue; an empty filter matches all rigs.
#[derive(Clone, Debug, PartialEq)]
pub struct GetMergeQueueRequest {
    pub rig_id: String,
}

} // verus!

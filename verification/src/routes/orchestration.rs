//! The orchestration routes: towns, rigs, agents, convoys and the merge queue, as the
//! server answers them before the engine takes them over.
use vstd::prelude::*;

use crate::external::{is_uuid_v4_text, new_uuid_v4, now_rfc3339};
use crate::text::owned;

verus! {

/// A town as the orchestration routes serve it.
#[derive(Debug, Clone)]
pub struct Town {
    pub id: String,
    pub name: String,
    pub owner: String,
}

/// A rig as the orchestration routes serve it.
#[derive(Debug, Clone)]
pub struct Rig {
    pub id: String,
    pub town_id: String,
    pub name: String,
    pub repo_url: String,
    pub beads_prefix: String,
}

/// An agent as the orchestration routes serve it.
#[derive(Debug, Clone)]
pub struct Agent {
    pub id: String,
    pub name: String,
    pub role: String,
    pub rig_id: String,
    pub status: String,
    pub runtime: String,
    pub last_activity_at: Option<String>,
    pub created_at: String,
}

/// A convoy as the orchestration routes serve it.
#[derive(Debug, Clone)]
pub struct Convoy {
    pub id: String,
    pub name: String,
    pub status: String,
    pub formula: String,
    pub created_at: String,
}

/// An entry of the merge queue.
#[derive(Debug, Clone)]
pub struct MergeRequestEntry {
    pub id: String,
    pub branch: String,
    pub target_branch: String,
    pub status: String,
    pub agent_id: String,
    pub pr_url: String,
    pub queued_at: String,
}

/// The body of a request to create a town.
#[derive(Debug, Clone)]
pub struct CreateTownRequest {
    pub name: String,
    pub owner: String,
}

/// The body of a request to create a rig.
#[derive(Debug, Clone)]
pub struct CreateRigRequest {
    pub town_id: String,
    pub name: String,
    pub repo_url: String,
    pub beads_prefix: String,
}

/// The body of a request to spawn an agent.
#[derive(Debug, Clone)]
pub struct SpawnAgentRequest {
    pub name: String,
    pub role: String,
    pub rig_id: String,
    pub runtime: String,
}

/// The body of a request to queue a merge.
#[derive(Debug, Clone)]
pub struct QueueMergeRequest {
    pub rig_id: String,
    pub branch: String,
    pub target_branch: String,
    pub agent_id: String,
}

/// The answer to a request to kill an agent: its id and the status `killed`.
#[derive(Debug, Clone)]
pub struct KillAgentReply {
    pub id: String,
    pub status: String,
}

/// The town: a fresh version-4 UUID, the name `Default Town`, owned by `admin`.
pub fn get_town() -> (t: Town)
    ensures
        is_uuid_v4_text(t.id@),
        t.name@ == "Default Town"@,
        t.owner@ == "admin"@,
{
    Town { id: new_uuid_v4(), name: owned("Default Town"), owner: owned("admin") }
}

/// A new town with a fresh version-4 UUID and the requested name and owner.
pub fn create_town(req: CreateTownRequest) -> (t: Town)
    ensures
        is_uuid_v4_text(t.id@),
        t.name == req.name,
        t.owner == req.owner,
{
    Town { id: new_uuid_v4(), name: req.name, owner: req.owner }
}

/// The rigs: the project's own repository, in the default town.
pub fn list_rigs() -> (v: Vec<Rig>)
    ensures
        v@.len() == 1,
        is_uuid_v4_text(v@[0].id@),
        v@[0].town_id@ == "default"@,
        v@[0].name@ == "vibetown"@,
        v@[0].repo_url@ == "https://github.com/edicorai/vibetown"@,
        v@[0].beads_prefix@ == "vt-"@,
{
    let mut v: Vec<Rig> = Vec::new();
    v.push(
        Rig {
            id: new_uuid_v4(),
            town_id: owned("default"),
            name: owned("vibetown"),
            repo_url: owned("https://github.com/edicorai/vibetown"),
            beads_prefix: owned("vt-"),
        },
    );
    v
}

/// A new rig with a fresh version-4 UUID and the requested details.
pub fn create_rig(req: CreateRigRequest) -> (r: Rig)
    ensures
        is_uuid_v4_text(r.id@),
        r.town_id == req.town_id,
        r.name == req.name,
        r.repo_url == req.repo_url,
        r.beads_prefix == req.beads_prefix,
{
    Rig {
        id: new_uuid_v4(),
        town_id: req.town_id,
        name: req.name,
        repo_url: req.repo_url,
        beads_prefix: req.beads_prefix,
    }
}

/// The agents: none yet.
pub fn list_agents() -> (v: Vec<Agent>)
    ensures
        v@.len() == 0,
{
    Vec::new()
}

/// A newly spawned agent: a fresh version-4 UUID, the requested details, idle, with no activity
/// yet, created now.
pub fn spawn_agent(req: SpawnAgentRequest) -> (a: Agent)
    ensures
        is_uuid_v4_text(a.id@),
        a.name == req.name,
        a.role == req.role,
        a.rig_id == req.rig_id,
        a.runtime == req.runtime,
        a.status@ == "idle"@,
        a.last_activity_at is None,
{
    Agent {
        id: new_uuid_v4(),
        name: req.name,
        role: req.role,
        rig_id: req.rig_id,
        status: owned("idle"),
        runtime: req.runtime,
        last_activity_at: None,
        created_at: now_rfc3339(),
    }
}

/// The answer to killing the agent `id`.
pub fn kill_agent(id: String) -> (r: KillAgentReply)
    ensures
        r.id == id,
        r.status@ == "killed"@,
{
    KillAgentReply { id, status: owned("killed") }
}

/// The agent `id`: `agent-1`, a `polecat` of the default rig, idle, on the `default` runtime.
pub fn get_agent(id: String) -> (a: Agent)
    ensures
        a.id == id,
        a.name@ == "agent-1"@,
        a.role@ == "polecat"@,
        a.rig_id@ == "default"@,
        a.status@ == "idle"@,
        a.runtime@ == "default"@,
        a.last_activity_at is None,
{
    Agent {
        id,
        name: owned("agent-1"),
        role: owned("polecat"),
        rig_id: owned("default"),
        status: owned("idle"),
        runtime: owned("default"),
        last_activity_at: None,
        created_at: now_rfc3339(),
    }
}

/// The convoys: none yet.
pub fn list_convoys() -> (v: Vec<Convoy>)
    ensures
        v@.len() == 0,
{
    Vec::new()
}

/// The convoy `id`: `convoy-1`, active, with no formula.
pub fn get_convoy(id: String) -> (c: Convoy)
    ensures
        c.id == id,
        c.name@ == "convoy-1"@,
        c.status@ == "active"@,
        c.formula@ == Seq::<char>::empty(),
{
    Convoy {
        id,
        name: owned("convoy-1"),
        status: owned("active"),
        formula: String::new(),
        created_at: now_rfc3339(),
    }
}

/// The merge queue: empty.
pub fn get_merge_queue() -> (v: Vec<MergeRequestEntry>)
    ensures
        v@.len() == 0,
{
    Vec::new()
}

/// A newly queued merge: a fresh version-4 UUID, the requested branches and agent, pending, with
/// no pull request yet, queued now.
pub fn queue_merge(req: QueueMergeRequest) -> (m: MergeRequestEntry)
    ensures
        is_uuid_v4_text(m.id@),
        m.branch == req.branch,
        m.target_branch == req.target_branch,
        m.agent_id == req.agent_id,
        m.status@ == "pending"@,
        m.pr_url@ == Seq::<char>::empty(),
{
    MergeRequestEntry {
        id: new_uuid_v4(),
        branch: req.branch,
        target_branch: req.target_branch,
        status: owned("pending"),
        agent_id: req.agent_id,
        pr_url: String::new(),
        queued_at: now_rfc3339(),
    }
}

} // verus!

//! The records and requests of the team bookkeeping store, and the
//! defaults that a request takes for the fields it leaves out.
use vstd::prelude::*;

verus! {

#[derive(Debug, Clone)]
pub struct TeamSummary {
    pub name: String,
    pub description: String,
    pub created_at: u64,
    pub archived: bool,
    pub members: Vec<MemberSummary>,
    pub tasks: Vec<TaskSummary>,
    pub conflicts: Vec<ConflictInfo>,
}

#[derive(Debug, Clone)]
pub struct MemberSummary {
    pub name: String,
    pub agent_type: String,
    pub model: String,
    pub cwd: String,
    pub is_active: bool,
    pub color: Option<String>,
}

#[derive(Debug, Clone)]
pub struct TaskSummary {
    pub id: String,
    pub subject: String,
    pub status: String,
    pub owner: Option<String>,
}

#[derive(Debug, Clone)]
pub struct ConflictInfo {
    pub path: String,
    pub members: Vec<String>,
}

#[derive(Debug, Clone)]
pub struct TeamSnapshot {
    pub team: TeamSummary,
    pub statuses: Vec<MemberStatusCurrent>,
}

#[derive(Debug, Clone)]
pub struct MemberStatusCurrent {
    pub member_name: String,
    pub alive: bool,
    pub state: String,
    pub headline: Option<String>,
    pub last_heartbeat_ms: u64,
    pub last_error: Option<String>,
}

#[derive(Debug, Clone)]
pub struct ActivityEntry {
    pub id: String,
    pub kind: String,
    pub payload_json: String,
    pub created_at_ms: u64,
}

#[derive(Debug, Clone)]
pub struct TimelineEntry {
    pub id: String,
    pub event_type: String,
    pub state: Option<String>,
    pub headline: Option<String>,
    pub payload_json: Option<String>,
    pub created_at_ms: u64,
}

#[derive(Debug, Clone, Copy, PartialEq, Eq)]
pub struct ActionResponse {
    pub ok: bool,
}

#[derive(Debug, Clone)]
pub struct CreateTeamRequest {
    pub name: String,
    pub description: String,
    pub lead_name: String,
    pub lead_agent_type: String,
    pub model: String,
    pub backend_type: String,
    pub cwd: String,
}

#[derive(Debug, Clone)]
pub struct DeleteTeamRequest {
    pub name: String,
}

#[derive(Debug, Clone)]
pub struct SpawnTeammateRequest {
    pub team: String,
    pub name: String,
    pub agent_type: String,
    pub model: String,
    pub backend_type: String,
    pub cwd: String,
    pub plan_mode_required: bool,
}

#[derive(Debug, Clone)]
pub struct KillTeammateRequest {
    pub team: String,
    pub name: String,
    pub reason: Option<String>,
}

#[derive(Debug, Clone)]
pub struct CreateTaskRequest {
    pub team: String,
    pub external_task_id: String,
    pub subject: String,
    pub description: String,
    pub active_form: String,
    pub status: String,
    pub owner_name: Option<String>,
}

#[derive(Debug, Clone)]
pub struct ReadInboxRequest {
    pub team: String,
    pub member_name: String,
}

pub fn default_lead_name() -> (r: String)
    ensures
        r@ == "team-lead"@,
{
    String::from_str("team-lead")
}

pub fn default_lead_type() -> (r: String)
    ensures
        r@ == "team-lead"@,
{
    String::from_str("team-lead")
}

pub fn default_agent_type() -> (r: String)
    ensures
        r@ == "general"@,
{
    String::from_str("general")
}

pub fn default_task_status() -> (r: String)
    ensures
        r@ == "pending"@,
{
    String::from_str("pending")
}

} // verus!

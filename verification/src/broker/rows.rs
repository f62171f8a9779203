//! The rows of list replies, and the values that a response gives them.

use vstd::prelude::*;

use crate::json::{self, Json, JsonV};
use crate::order;
use crate::text;

verus! {

/// The text, or the empty text where there is none.
pub open spec fn or_empty(t: Option<String>) -> Seq<char> {
    match t {
        Some(s) => s@,
        None => ""@,
    }
}

fn or_blank(t: &Option<String>) -> (r: Json)
    ensures
        r@ == JsonV::Str(or_empty(*t)),
{
    match t {
        Some(s) => Json::string(s),
        None => Json::string(""),
    }
}

/// Seconds that remain, where a lapsed time leaves none.
pub open spec fn remaining(secs: i64) -> u64 {
    if secs < 0 {
        0
    } else {
        secs as u64
    }
}

pub(crate) fn remaining_secs(secs: i64) -> (r: u64)
    ensures
        r == remaining(secs),
{
    if secs < 0 {
        0
    } else {
        secs as u64
    }
}

/// A listed secret: its name and when it changed.
pub struct SecretRow {
    pub key: String,
    pub updated: String,
}

/// The value of a [`SecretRow`].
pub open spec fn secret_value(r: SecretRow) -> JsonV {
    json::empty_object().with("key"@, JsonV::Str(r.key@)).with("updated"@, JsonV::Str(r.updated@))
}

fn secret_json(r: &SecretRow) -> (j: Json)
    ensures
        j@ == secret_value(*r),
{
    let mut j = Json::object();
    j.put("key", Json::string(&r.key));
    j.put("updated", Json::string(&r.updated));
    j
}

/// The values of some [`SecretRow`]s.
pub open spec fn secret_values(rows: Seq<SecretRow>) -> JsonV {
    JsonV::Array(Seq::new(rows.len(), |i: int| secret_value(rows[i])))
}

pub(crate) fn secret_array(rows: &Vec<SecretRow>) -> (j: Json)
    ensures
        j@ == secret_values(rows@),
{
    let mut out: Vec<Json> = Vec::new();
    let mut i: usize = 0;
    while i < rows.len()
        invariant
            i <= rows@.len(),
            out@.len() == i,
            forall|k: int| 0 <= k < i ==> (#[trigger] out@[k])@ == secret_value(rows@[k]),
        decreases rows@.len() - i,
    {
        out.push(secret_json(&rows[i]));
        i = i + 1;
    }
    let j = Json::Array(out);
    assert(j@->Array_0 =~= secret_values(rows@)->Array_0);
    j
}

/// A listed project.
pub struct ProjectRow {
    pub name: String,
    pub paths: Vec<String>,
}

/// The value of a [`ProjectRow`].
pub open spec fn project_value(r: ProjectRow) -> JsonV {
    json::empty_object()
        .with("name"@, JsonV::Str(r.name@))
        .with("paths"@, json::text_array(text::texts(r.paths@)))
}

fn project_json(r: &ProjectRow) -> (j: Json)
    ensures
        j@ == project_value(*r),
{
    let mut j = Json::object();
    j.put("name", Json::string(&r.name));
    j.put("paths", Json::strings(r.paths.as_slice()));
    j
}

/// The values of some [`ProjectRow`]s.
pub open spec fn project_values(rows: Seq<ProjectRow>) -> JsonV {
    JsonV::Array(Seq::new(rows.len(), |i: int| project_value(rows[i])))
}

pub(crate) fn project_array(rows: &Vec<ProjectRow>) -> (j: Json)
    ensures
        j@ == project_values(rows@),
{
    let mut out: Vec<Json> = Vec::new();
    let mut i: usize = 0;
    while i < rows.len()
        invariant
            i <= rows@.len(),
            out@.len() == i,
            forall|k: int| 0 <= k < i ==> (#[trigger] out@[k])@ == project_value(rows@[k]),
        decreases rows@.len() - i,
    {
        out.push(project_json(&rows[i]));
        i = i + 1;
    }
    let j = Json::Array(out);
    assert(j@->Array_0 =~= project_values(rows@)->Array_0);
    j
}

/// A listed agent.
pub struct AgentRow {
    pub name: String,
    pub status: String,
    pub token_prefix: String,
}

/// The value of a [`AgentRow`].
pub open spec fn agent_value(r: AgentRow) -> JsonV {
    json::empty_object()
        .with("name"@, JsonV::Str(r.name@))
        .with("status"@, JsonV::Str(r.status@))
        .with("token_prefix"@, JsonV::Str(r.token_prefix@))
}

fn agent_json(r: &AgentRow) -> (j: Json)
    ensures
        j@ == agent_value(*r),
{
    let mut j = Json::object();
    j.put("name", Json::string(&r.name));
    j.put("status", Json::string(&r.status));
    j.put("token_prefix", Json::string(&r.token_prefix));
    j
}

/// The values of some [`AgentRow`]s.
pub open spec fn agent_values(rows: Seq<AgentRow>) -> JsonV {
    JsonV::Array(Seq::new(rows.len(), |i: int| agent_value(rows[i])))
}

pub(crate) fn agent_array(rows: &Vec<AgentRow>) -> (j: Json)
    ensures
        j@ == agent_values(rows@),
{
    let mut out: Vec<Json> = Vec::new();
    let mut i: usize = 0;
    while i < rows.len()
        invariant
            i <= rows@.len(),
            out@.len() == i,
            forall|k: int| 0 <= k < i ==> (#[trigger] out@[k])@ == agent_value(rows@[k]),
        decreases rows@.len() - i,
    {
        out.push(agent_json(&rows[i]));
        i = i + 1;
    }
    let j = Json::Array(out);
    assert(j@->Array_0 =~= agent_values(rows@)->Array_0);
    j
}

/// A listed grant.
pub struct GrantRow {
    pub agent: String,
    pub project: String,
    pub ops: Vec<String>,
    pub revoked: bool,
}

/// The value of a [`GrantRow`].
pub open spec fn grant_value(r: GrantRow) -> JsonV {
    json::empty_object()
        .with("agent"@, JsonV::Str(r.agent@))
        .with("project"@, JsonV::Str(r.project@))
        .with("ops"@, json::text_array(text::texts(r.ops@)))
        .with("revoked"@, JsonV::Bool(r.revoked))
}

fn grant_json(r: &GrantRow) -> (j: Json)
    ensures
        j@ == grant_value(*r),
{
    let mut j = Json::object();
    j.put("agent", Json::string(&r.agent));
    j.put("project", Json::string(&r.project));
    j.put("ops", Json::strings(r.ops.as_slice()));
    j.put("revoked", Json::Bool(r.revoked));
    j
}

/// The values of some [`GrantRow`]s.
pub open spec fn grant_values(rows: Seq<GrantRow>) -> JsonV {
    JsonV::Array(Seq::new(rows.len(), |i: int| grant_value(rows[i])))
}

pub(crate) fn grant_array(rows: &Vec<GrantRow>) -> (j: Json)
    ensures
        j@ == grant_values(rows@),
{
    let mut out: Vec<Json> = Vec::new();
    let mut i: usize = 0;
    while i < rows.len()
        invariant
            i <= rows@.len(),
            out@.len() == i,
            forall|k: int| 0 <= k < i ==> (#[trigger] out@[k])@ == grant_value(rows@[k]),
        decreases rows@.len() - i,
    {
        out.push(grant_json(&rows[i]));
        i = i + 1;
    }
    let j = Json::Array(out);
    assert(j@->Array_0 =~= grant_values(rows@)->Array_0);
    j
}

/// A pending approval. The agent and the project are named where the vault still knows them.
pub struct ApprovalRow {
    pub id: String,
    pub agent: Option<String>,
    pub project: Option<String>,
    pub key: String,
    pub expires_at: String,
}

/// The value of a [`ApprovalRow`].
pub open spec fn approval_value(r: ApprovalRow) -> JsonV {
    json::empty_object()
        .with("approval_id"@, JsonV::Str(r.id@))
        .with("agent"@, JsonV::Str(or_empty(r.agent)))
        .with("project"@, JsonV::Str(or_empty(r.project)))
        .with("key"@, JsonV::Str(r.key@))
        .with("status"@, JsonV::Str("pending"@))
        .with("expires_at"@, JsonV::Str(r.expires_at@))
}

fn approval_json(r: &ApprovalRow) -> (j: Json)
    ensures
        j@ == approval_value(*r),
{
    let mut j = Json::object();
    j.put("approval_id", Json::string(&r.id));
    j.put("agent", or_blank(&r.agent));
    j.put("project", or_blank(&r.project));
    j.put("key", Json::string(&r.key));
    j.put("status", Json::string("pending"));
    j.put("expires_at", Json::string(&r.expires_at));
    j
}

/// The values of some [`ApprovalRow`]s.
pub open spec fn approval_values(rows: Seq<ApprovalRow>) -> JsonV {
    JsonV::Array(Seq::new(rows.len(), |i: int| approval_value(rows[i])))
}

pub(crate) fn approval_array(rows: &Vec<ApprovalRow>) -> (j: Json)
    ensures
        j@ == approval_values(rows@),
{
    let mut out: Vec<Json> = Vec::new();
    let mut i: usize = 0;
    while i < rows.len()
        invariant
            i <= rows@.len(),
            out@.len() == i,
            forall|k: int| 0 <= k < i ==> (#[trigger] out@[k])@ == approval_value(rows@[k]),
        decreases rows@.len() - i,
    {
        out.push(approval_json(&rows[i]));
        i = i + 1;
    }
    let j = Json::Array(out);
    assert(j@->Array_0 =~= approval_values(rows@)->Array_0);
    j
}

/// A listed lease: the seconds until it lapses, whether it has lapsed and whether it was revoked.
pub struct LeaseRow {
    pub id: String,
    pub prefix: String,
    pub project: Option<String>,
    pub ops: Vec<String>,
    pub expires_at: String,
    pub expires_in: i64,
    pub lapsed: bool,
    pub revoked: bool,
}

/// The value of a [`LeaseRow`].
pub open spec fn lease_value(r: LeaseRow) -> JsonV {
    json::empty_object()
        .with("lease_id"@, JsonV::Str(r.id@))
        .with("lease_prefix"@, JsonV::Str(r.prefix@))
        .with("project"@, JsonV::Str(or_empty(r.project)))
        .with("ops"@, json::text_array(text::texts(r.ops@)))
        .with("expires_at"@, JsonV::Str(r.expires_at@))
        .with("expires_in"@, JsonV::UInt(remaining(r.expires_in)))
        .with("status"@, JsonV::Str(lease_status(r)))
}

fn lease_json(r: &LeaseRow) -> (j: Json)
    ensures
        j@ == lease_value(*r),
{
    let mut j = Json::object();
    j.put("lease_id", Json::string(&r.id));
    j.put("lease_prefix", Json::string(&r.prefix));
    j.put("project", or_blank(&r.project));
    j.put("ops", Json::strings(r.ops.as_slice()));
    j.put("expires_at", Json::string(&r.expires_at));
    j.put("expires_in", Json::UInt(remaining_secs(r.expires_in)));
    j.put("status", Json::string(lease_word(r)));
    j
}

/// The values of some [`LeaseRow`]s.
pub open spec fn lease_values(rows: Seq<LeaseRow>) -> JsonV {
    JsonV::Array(Seq::new(rows.len(), |i: int| lease_value(rows[i])))
}

pub(crate) fn lease_array(rows: &Vec<LeaseRow>) -> (j: Json)
    ensures
        j@ == lease_values(rows@),
{
    let mut out: Vec<Json> = Vec::new();
    let mut i: usize = 0;
    while i < rows.len()
        invariant
            i <= rows@.len(),
            out@.len() == i,
            forall|k: int| 0 <= k < i ==> (#[trigger] out@[k])@ == lease_value(rows@[k]),
        decreases rows@.len() - i,
    {
        out.push(lease_json(&rows[i]));
        i = i + 1;
    }
    let j = Json::Array(out);
    assert(j@->Array_0 =~= lease_values(rows@)->Array_0);
    j
}

/// The state of a lease: a revocation weighs more than a lapse.
pub open spec fn lease_status(r: LeaseRow) -> Seq<char> {
    if r.revoked {
        "revoked"@
    } else if r.lapsed {
        "expired"@
    } else {
        "active"@
    }
}

fn lease_word(r: &LeaseRow) -> (w: &'static str)
    ensures
        w@ == lease_status(*r),
{
    if r.revoked {
        "revoked"
    } else if r.lapsed {
        "expired"
    } else {
        "active"
    }
}

/// A running child. Its agent is named where the vault still knows it, and given by id otherwise.
pub struct RunRow {
    pub run_id: String,
    pub agent_id: String,
    pub agent_name: Option<String>,
    pub project: String,
    pub pid: i32,
    pub started_at: String,
}

/// The value of a [`RunRow`].
pub open spec fn run_value(r: RunRow) -> JsonV {
    json::empty_object()
        .with("run_id"@, JsonV::Str(r.run_id@))
        .with("agent"@, JsonV::Str(run_agent(r)))
        .with("project"@, JsonV::Str(r.project@))
        .with("pid"@, json::int_value(r.pid as int))
        .with("started_at"@, JsonV::Str(r.started_at@))
        .with("status"@, JsonV::Str("running"@))
}

fn run_json(r: &RunRow) -> (j: Json)
    ensures
        j@ == run_value(*r),
{
    let mut j = Json::object();
    j.put("run_id", Json::string(&r.run_id));
    j.put("agent", Json::string(run_agent_name(r)));
    j.put("project", Json::string(&r.project));
    j.put("pid", Json::integer(r.pid as i64));
    j.put("started_at", Json::string(&r.started_at));
    j.put("status", Json::string("running"));
    j
}

/// The name of a run's agent, or its id.
pub open spec fn run_agent(r: RunRow) -> Seq<char> {
    match r.agent_name {
        Some(n) => n@,
        None => r.agent_id@,
    }
}

fn run_agent_name(r: &RunRow) -> (s: &str)
    ensures
        s@ == run_agent(*r),
{
    match &r.agent_name {
        Some(n) => n.as_str(),
        None => r.agent_id.as_str(),
    }
}

/// The ids of some runs.
pub open spec fn run_ids(rows: Seq<RunRow>) -> Seq<Seq<char>> {
    Seq::new(rows.len(), |i: int| rows[i].run_id@)
}

/// The values of some runs, in the order of their ids.
pub open spec fn sorted_runs(rows: Seq<RunRow>) -> JsonV {
    let order = order::sorting(run_ids(rows), rows.len());
    JsonV::Array(Seq::new(rows.len(), |i: int| run_value(rows[order[i]])))
}

pub(crate) fn sorted_run_array(rows: &Vec<RunRow>) -> (j: Json)
    ensures
        j@ == sorted_runs(rows@),
{
    let mut ids: Vec<String> = Vec::new();
    let mut n: usize = 0;
    while n < rows.len()
        invariant
            n <= rows@.len(),
            ids@.len() == n,
            forall|k: int| 0 <= k < n ==> (#[trigger] ids@[k])@ == rows@[k].run_id@,
        decreases rows@.len() - n,
    {
        ids.push(rows[n].run_id.clone());
        n = n + 1;
    }
    proof {
        assert(text::texts(ids@) =~= run_ids(rows@));
        order::law_sorting_sorts(run_ids(rows@), rows@.len());
    }
    let order = order::sorted_positions(ids.as_slice());
    let ghost sorting = order::sorting(run_ids(rows@), rows@.len());
    proof {
        assert(order@.len() == sorting.len());
        assert forall|k: int| 0 <= k < order@.len() implies #[trigger] order@[k] as int
            == sorting[k] by {
            assert(order::positions(order@)[k] == order@[k] as int);
        }
    }
    let mut out: Vec<Json> = Vec::new();
    let mut i: usize = 0;
    while i < order.len()
        invariant
            i <= order@.len(),
            order@.len() == rows@.len(),
            out@.len() == i,
            sorting.len() == rows@.len(),
            forall|k: int| 0 <= k < order@.len() ==> #[trigger] order@[k] as int == sorting[k],
            forall|k: int| 0 <= k < sorting.len() ==> 0 <= #[trigger] sorting[k] < rows@.len(),
            forall|k: int| 0 <= k < i ==> (#[trigger] out@[k])@ == run_value(rows@[sorting[k]]),
        decreases order@.len() - i,
    {
        let at: usize = order[i];
        proof {
            assert(at as int == sorting[i as int]);
        }
        out.push(run_json(&rows[at]));
        i = i + 1;
    }
    let j = Json::Array(out);
    assert(j@->Array_0 =~= sorted_runs(rows@)->Array_0);
    j
}

} // verus!


//! What the commands of the dashboard take and give: rows, inputs and outputs.
//! None of them holds a credential, but for the token of a new agent and the
//! value of a reveal, which each cross once in the answer that they belong to.

use vstd::prelude::*;

use crate::dashboard::{self, CmdError, CmdErrorV};
use crate::json::{self, Json, JsonV};
use crate::text;

verus! {

/// The flag of a member; false where it is no boolean.
pub open spec fn flag(j: JsonV, key: Seq<char>) -> bool {
    j.at(key).boolean() == Some(true)
}

/// The text of a member; empty where it is no text.
pub open spec fn word(j: JsonV, key: Seq<char>) -> Seq<char> {
    match j.at(key).text() {
        Some(t) => t,
        None => Seq::empty(),
    }
}

/// The count of a member; zero where it is none.
pub open spec fn count(j: JsonV, key: Seq<char>) -> u64 {
    match j.at(key).uint() {
        Some(n) => n,
        None => 0,
    }
}

/// The process id of a member, cut to 32 bits; zero where it is no integer.
pub open spec fn process_id(j: JsonV, key: Seq<char>) -> i32 {
    match j.at(key).int64() {
        Some(n) => n as i32,
        None => 0,
    }
}

fn flag_at(j: &Json, key: &str) -> (r: bool)
    ensures
        r == flag(j@, key@),
{
    match j.bool_at(key) {
        Some(b) => b,
        None => false,
    }
}

fn word_at(j: &Json, key: &str) -> (r: String)
    ensures
        r@ == word(j@, key@),
{
    match j.text_at(key) {
        Some(t) => t.to_string(),
        None => String::new(),
    }
}

fn count_at(j: &Json, key: &str) -> (r: u64)
    ensures
        r == count(j@, key@),
{
    match j.uint_at(key) {
        Some(n) => n,
        None => 0,
    }
}

fn process_id_at(j: &Json, key: &str) -> (r: i32)
    ensures
        r == process_id(j@, key@),
{
    match j.int_at(key) {
        Some(n) => #[verifier::truncate] (n as i32),
        None => 0,
    }
}

fn texts_at(j: &Json, key: &str) -> (r: Vec<String>)
    ensures
        text::texts(r@) == json::texts_among(json::items_at(j@, key@)),
{
    match j.array_at(key) {
        Some(v) => json::texts_in(v.as_slice()),
        None => {
            let v: Vec<String> = Vec::new();
            proof {
                assert(text::texts(v@) =~= Seq::<Seq<char>>::empty());
            }
            v
        },
    }
}

fn owned(t: Option<&str>) -> (r: Option<String>)
    ensures
        json::opt_text(r) == json::opt_str(t),
{
    match t {
        Some(s) => Some(s.to_string()),
        None => None,
    }
}

// ----------------------------------------------------------------------- rows
/// A project and its authorized folders.
#[derive(Debug, PartialEq)]
pub struct ProjectEntry {
    pub name: String,
    pub paths: Vec<String>,
}

/// The mathematical value of [`ProjectEntry`].
pub struct ProjectEntryV {
    pub name: Seq<char>,
    pub paths: Seq<Seq<char>>,
}

impl View for ProjectEntry {
    type V = ProjectEntryV;

    open spec fn view(&self) -> ProjectEntryV {
        ProjectEntryV {
            name: self.name@,
            paths: text::texts(self.paths@),
        }
    }
}

/// The row that a value holds; a value without one of the required members
/// holds none.
pub open spec fn project_entry_of(j: JsonV) -> Option<ProjectEntryV> {
    match (j.at("name"@).text()) {
        (Some(name)) => Some(
            ProjectEntryV {
                name,
                paths: json::texts_among(json::items_at(j, "paths"@)),
            },
        ),
        _ => None,
    }
}

/// The rows that some values hold, in order.
pub open spec fn projects_list_of(items: Seq<JsonV>) -> Seq<ProjectEntryV>
    decreases items.len(),
{
    if items.len() == 0 {
        Seq::empty()
    } else {
        match project_entry_of(items.last()) {
            Some(r) => projects_list_of(items.drop_last()).push(r),
            None => projects_list_of(items.drop_last()),
        }
    }
}

/// The values of some rows.
pub open spec fn project_entry_values(v: Seq<ProjectEntry>) -> Seq<ProjectEntryV> {
    Seq::new(v.len(), |i: int| v[i]@)
}

fn read_project_entry(j: &Json) -> (r: Option<ProjectEntry>)
    ensures
        match r {
            Some(e) => project_entry_of(j@) == Some(e@),
            None => project_entry_of(j@) is None,
        },
{
    match (j.text_at("name")) {
        (Some(name)) => Some(
            ProjectEntry {
                name: name.to_string(),
                paths: texts_at(j, "paths"),
            },
        ),
        _ => None,
    }
}

fn read_projects_list(items: &[Json]) -> (r: Vec<ProjectEntry>)
    ensures
        project_entry_values(r@) == projects_list_of(json::values(items@)),
{
    let ghost all = json::values(items@);
    let mut out: Vec<ProjectEntry> = Vec::new();
    let mut i: usize = 0;
    proof {
        assert(all.take(0) =~= Seq::empty());
        assert(project_entry_values(out@) =~= Seq::<ProjectEntryV>::empty());
    }
    while i < items.len()
        invariant
            i <= items@.len(),
            all == json::values(items@),
            project_entry_values(out@) == projects_list_of(all.take(i as int)),
        decreases items@.len() - i,
    {
        proof {
            assert(all.take(i + 1).drop_last() =~= all.take(i as int));
            assert(all.take(i + 1).last() == items@[i as int]@);
        }
        match read_project_entry(&items[i]) {
            Some(e) => {
                let ghost before = project_entry_values(out@);
                let ghost value = e@;
                out.push(e);
                proof {
                    assert(project_entry_values(out@) =~= before.push(value));
                }
            },
            None => {},
        }
        i = i + 1;
    }
    proof {
        assert(all.take(i as int) =~= all);
    }
    out
}

/// The rows of an answer.
#[derive(Debug, PartialEq)]
pub struct ProjectsOut {
    pub projects: Vec<ProjectEntry>,
}

/// The projects, by name and folders.
pub fn projects_list(v: &Json) -> (r: ProjectsOut)
    ensures
        project_entry_values(r.projects@) == projects_list_of(json::items_at(v@, "projects"@)),
{
    match v.array_at("projects") {
        Some(items) => ProjectsOut { projects: read_projects_list(items.as_slice()) },
        None => {
            let projects: Vec<ProjectEntry> = Vec::new();
            proof {
                assert(project_entry_values(projects@) =~= Seq::<ProjectEntryV>::empty());
            }
            ProjectsOut { projects }
        },
    }
}

/// The name of a secret and when it changed; never its value.
#[derive(Debug, PartialEq)]
pub struct SecretEntry {
    pub key: String,
    pub updated: String,
}

/// The mathematical value of [`SecretEntry`].
pub struct SecretEntryV {
    pub key: Seq<char>,
    pub updated: Seq<char>,
}

impl View for SecretEntry {
    type V = SecretEntryV;

    open spec fn view(&self) -> SecretEntryV {
        SecretEntryV {
            key: self.key@,
            updated: self.updated@,
        }
    }
}

/// The row that a value holds; a value without one of the required members
/// holds none.
pub open spec fn secret_entry_of(j: JsonV) -> Option<SecretEntryV> {
    match (j.at("key"@).text(), j.at("updated"@).text()) {
        (Some(key), Some(updated)) => Some(
            SecretEntryV {
                key,
                updated,
            },
        ),
        _ => None,
    }
}

/// The rows that some values hold, in order.
pub open spec fn secrets_list_of(items: Seq<JsonV>) -> Seq<SecretEntryV>
    decreases items.len(),
{
    if items.len() == 0 {
        Seq::empty()
    } else {
        match secret_entry_of(items.last()) {
            Some(r) => secrets_list_of(items.drop_last()).push(r),
            None => secrets_list_of(items.drop_last()),
        }
    }
}

/// The values of some rows.
pub open spec fn secret_entry_values(v: Seq<SecretEntry>) -> Seq<SecretEntryV> {
    Seq::new(v.len(), |i: int| v[i]@)
}

fn read_secret_entry(j: &Json) -> (r: Option<SecretEntry>)
    ensures
        match r {
            Some(e) => secret_entry_of(j@) == Some(e@),
            None => secret_entry_of(j@) is None,
        },
{
    match (j.text_at("key"), j.text_at("updated")) {
        (Some(key), Some(updated)) => Some(
            SecretEntry {
                key: key.to_string(),
                updated: updated.to_string(),
            },
        ),
        _ => None,
    }
}

fn read_secrets_list(items: &[Json]) -> (r: Vec<SecretEntry>)
    ensures
        secret_entry_values(r@) == secrets_list_of(json::values(items@)),
{
    let ghost all = json::values(items@);
    let mut out: Vec<SecretEntry> = Vec::new();
    let mut i: usize = 0;
    proof {
        assert(all.take(0) =~= Seq::empty());
        assert(secret_entry_values(out@) =~= Seq::<SecretEntryV>::empty());
    }
    while i < items.len()
        invariant
            i <= items@.len(),
            all == json::values(items@),
            secret_entry_values(out@) == secrets_list_of(all.take(i as int)),
        decreases items@.len() - i,
    {
        proof {
            assert(all.take(i + 1).drop_last() =~= all.take(i as int));
            assert(all.take(i + 1).last() == items@[i as int]@);
        }
        match read_secret_entry(&items[i]) {
            Some(e) => {
                let ghost before = secret_entry_values(out@);
                let ghost value = e@;
                out.push(e);
                proof {
                    assert(secret_entry_values(out@) =~= before.push(value));
                }
            },
            None => {},
        }
        i = i + 1;
    }
    proof {
        assert(all.take(i as int) =~= all);
    }
    out
}

/// The rows of an answer.
#[derive(Debug, PartialEq)]
pub struct SecretsOut {
    pub secrets: Vec<SecretEntry>,
}

/// The secrets of a project, by name.
pub fn secrets_list(v: &Json) -> (r: SecretsOut)
    ensures
        secret_entry_values(r.secrets@) == secrets_list_of(json::items_at(v@, "secrets"@)),
{
    match v.array_at("secrets") {
        Some(items) => SecretsOut { secrets: read_secrets_list(items.as_slice()) },
        None => {
            let secrets: Vec<SecretEntry> = Vec::new();
            proof {
                assert(secret_entry_values(secrets@) =~= Seq::<SecretEntryV>::empty());
            }
            SecretsOut { secrets }
        },
    }
}

/// An agent: its name, its status and a prefix of its token.
#[derive(Debug, PartialEq)]
pub struct AgentEntry {
    pub name: String,
    pub status: String,
    pub token_prefix: String,
}

/// The mathematical value of [`AgentEntry`].
pub struct AgentEntryV {
    pub name: Seq<char>,
    pub status: Seq<char>,
    pub token_prefix: Seq<char>,
}

impl View for AgentEntry {
    type V = AgentEntryV;

    open spec fn view(&self) -> AgentEntryV {
        AgentEntryV {
            name: self.name@,
            status: self.status@,
            token_prefix: self.token_prefix@,
        }
    }
}

/// The row that a value holds; a value without one of the required members
/// holds none.
pub open spec fn agent_entry_of(j: JsonV) -> Option<AgentEntryV> {
    match (j.at("name"@).text(), j.at("status"@).text(), j.at("token_prefix"@).text()) {
        (Some(name), Some(status), Some(token_prefix)) => Some(
            AgentEntryV {
                name,
                status,
                token_prefix,
            },
        ),
        _ => None,
    }
}

/// The rows that some values hold, in order.
pub open spec fn agents_list_of(items: Seq<JsonV>) -> Seq<AgentEntryV>
    decreases items.len(),
{
    if items.len() == 0 {
        Seq::empty()
    } else {
        match agent_entry_of(items.last()) {
            Some(r) => agents_list_of(items.drop_last()).push(r),
            None => agents_list_of(items.drop_last()),
        }
    }
}

/// The values of some rows.
pub open spec fn agent_entry_values(v: Seq<AgentEntry>) -> Seq<AgentEntryV> {
    Seq::new(v.len(), |i: int| v[i]@)
}

fn read_agent_entry(j: &Json) -> (r: Option<AgentEntry>)
    ensures
        match r {
            Some(e) => agent_entry_of(j@) == Some(e@),
            None => agent_entry_of(j@) is None,
        },
{
    match (j.text_at("name"), j.text_at("status"), j.text_at("token_prefix")) {
        (Some(name), Some(status), Some(token_prefix)) => Some(
            AgentEntry {
                name: name.to_string(),
                status: status.to_string(),
                token_prefix: token_prefix.to_string(),
            },
        ),
        _ => None,
    }
}

fn read_agents_list(items: &[Json]) -> (r: Vec<AgentEntry>)
    ensures
        agent_entry_values(r@) == agents_list_of(json::values(items@)),
{
    let ghost all = json::values(items@);
    let mut out: Vec<AgentEntry> = Vec::new();
    let mut i: usize = 0;
    proof {
        assert(all.take(0) =~= Seq::empty());
        assert(agent_entry_values(out@) =~= Seq::<AgentEntryV>::empty());
    }
    while i < items.len()
        invariant
            i <= items@.len(),
            all == json::values(items@),
            agent_entry_values(out@) == agents_list_of(all.take(i as int)),
        decreases items@.len() - i,
    {
        proof {
            assert(all.take(i + 1).drop_last() =~= all.take(i as int));
            assert(all.take(i + 1).last() == items@[i as int]@);
        }
        match read_agent_entry(&items[i]) {
            Some(e) => {
                let ghost before = agent_entry_values(out@);
                let ghost value = e@;
                out.push(e);
                proof {
                    assert(agent_entry_values(out@) =~= before.push(value));
                }
            },
            None => {},
        }
        i = i + 1;
    }
    proof {
        assert(all.take(i as int) =~= all);
    }
    out
}

/// The rows of an answer.
#[derive(Debug, PartialEq)]
pub struct AgentsOut {
    pub agents: Vec<AgentEntry>,
}

/// The agents. A list holds no token.
pub fn agents_list(v: &Json) -> (r: AgentsOut)
    ensures
        agent_entry_values(r.agents@) == agents_list_of(json::items_at(v@, "agents"@)),
{
    match v.array_at("agents") {
        Some(items) => AgentsOut { agents: read_agents_list(items.as_slice()) },
        None => {
            let agents: Vec<AgentEntry> = Vec::new();
            proof {
                assert(agent_entry_values(agents@) =~= Seq::<AgentEntryV>::empty());
            }
            AgentsOut { agents }
        },
    }
}

/// A grant, with the operations exactly as the broker reports them.
#[derive(Debug, PartialEq)]
pub struct GrantEntry {
    pub agent: String,
    pub project: String,
    pub ops: Vec<String>,
    pub revoked: bool,
}

/// The mathematical value of [`GrantEntry`].
pub struct GrantEntryV {
    pub agent: Seq<char>,
    pub project: Seq<char>,
    pub ops: Seq<Seq<char>>,
    pub revoked: bool,
}

impl View for GrantEntry {
    type V = GrantEntryV;

    open spec fn view(&self) -> GrantEntryV {
        GrantEntryV {
            agent: self.agent@,
            project: self.project@,
            ops: text::texts(self.ops@),
            revoked: self.revoked,
        }
    }
}

/// The row that a value holds; a value without one of the required members
/// holds none.
pub open spec fn grant_entry_of(j: JsonV) -> Option<GrantEntryV> {
    match (j.at("agent"@).text(), j.at("project"@).text()) {
        (Some(agent), Some(project)) => Some(
            GrantEntryV {
                agent,
                project,
                ops: json::texts_among(json::items_at(j, "ops"@)),
                revoked: flag(j, "revoked"@),
            },
        ),
        _ => None,
    }
}

/// The rows that some values hold, in order.
pub open spec fn grants_list_of(items: Seq<JsonV>) -> Seq<GrantEntryV>
    decreases items.len(),
{
    if items.len() == 0 {
        Seq::empty()
    } else {
        match grant_entry_of(items.last()) {
            Some(r) => grants_list_of(items.drop_last()).push(r),
            None => grants_list_of(items.drop_last()),
        }
    }
}

/// The values of some rows.
pub open spec fn grant_entry_values(v: Seq<GrantEntry>) -> Seq<GrantEntryV> {
    Seq::new(v.len(), |i: int| v[i]@)
}

fn read_grant_entry(j: &Json) -> (r: Option<GrantEntry>)
    ensures
        match r {
            Some(e) => grant_entry_of(j@) == Some(e@),
            None => grant_entry_of(j@) is None,
        },
{
    match (j.text_at("agent"), j.text_at("project")) {
        (Some(agent), Some(project)) => Some(
            GrantEntry {
                agent: agent.to_string(),
                project: project.to_string(),
                ops: texts_at(j, "ops"),
                revoked: flag_at(j, "revoked"),
            },
        ),
        _ => None,
    }
}

fn read_grants_list(items: &[Json]) -> (r: Vec<GrantEntry>)
    ensures
        grant_entry_values(r@) == grants_list_of(json::values(items@)),
{
    let ghost all = json::values(items@);
    let mut out: Vec<GrantEntry> = Vec::new();
    let mut i: usize = 0;
    proof {
        assert(all.take(0) =~= Seq::empty());
        assert(grant_entry_values(out@) =~= Seq::<GrantEntryV>::empty());
    }
    while i < items.len()
        invariant
            i <= items@.len(),
            all == json::values(items@),
            grant_entry_values(out@) == grants_list_of(all.take(i as int)),
        decreases items@.len() - i,
    {
        proof {
            assert(all.take(i + 1).drop_last() =~= all.take(i as int));
            assert(all.take(i + 1).last() == items@[i as int]@);
        }
        match read_grant_entry(&items[i]) {
            Some(e) => {
                let ghost before = grant_entry_values(out@);
                let ghost value = e@;
                out.push(e);
                proof {
                    assert(grant_entry_values(out@) =~= before.push(value));
                }
            },
            None => {},
        }
        i = i + 1;
    }
    proof {
        assert(all.take(i as int) =~= all);
    }
    out
}

/// The rows of an answer.
#[derive(Debug, PartialEq)]
pub struct GrantsOut {
    pub grants: Vec<GrantEntry>,
}

/// The grants.
pub fn grants_list(v: &Json) -> (r: GrantsOut)
    ensures
        grant_entry_values(r.grants@) == grants_list_of(json::items_at(v@, "grants"@)),
{
    match v.array_at("grants") {
        Some(items) => GrantsOut { grants: read_grants_list(items.as_slice()) },
        None => {
            let grants: Vec<GrantEntry> = Vec::new();
            proof {
                assert(grant_entry_values(grants@) =~= Seq::<GrantEntryV>::empty());
            }
            GrantsOut { grants }
        },
    }
}

/// An approval that waits for a decision. The key is a name.
#[derive(Debug, PartialEq)]
pub struct ApprovalEntry {
    pub approval_id: String,
    pub agent: String,
    pub project: String,
    pub key: String,
    pub status: String,
    pub expires_at: String,
}

/// The mathematical value of [`ApprovalEntry`].
pub struct ApprovalEntryV {
    pub approval_id: Seq<char>,
    pub agent: Seq<char>,
    pub project: Seq<char>,
    pub key: Seq<char>,
    pub status: Seq<char>,
    pub expires_at: Seq<char>,
}

impl View for ApprovalEntry {
    type V = ApprovalEntryV;

    open spec fn view(&self) -> ApprovalEntryV {
        ApprovalEntryV {
            approval_id: self.approval_id@,
            agent: self.agent@,
            project: self.project@,
            key: self.key@,
            status: self.status@,
            expires_at: self.expires_at@,
        }
    }
}

/// The row that a value holds; a value without one of the required members
/// holds none.
pub open spec fn approval_entry_of(j: JsonV) -> Option<ApprovalEntryV> {
    match (j.at("approval_id"@).text(), j.at("agent"@).text(), j.at("project"@).text(), j.at("key"@).text(), j.at("status"@).text(), j.at("expires_at"@).text()) {
        (Some(approval_id), Some(agent), Some(project), Some(key), Some(status), Some(expires_at)) => Some(
            ApprovalEntryV {
                approval_id,
                agent,
                project,
                key,
                status,
                expires_at,
            },
        ),
        _ => None,
    }
}

/// The rows that some values hold, in order.
pub open spec fn approvals_pending_of(items: Seq<JsonV>) -> Seq<ApprovalEntryV>
    decreases items.len(),
{
    if items.len() == 0 {
        Seq::empty()
    } else {
        match approval_entry_of(items.last()) {
            Some(r) => approvals_pending_of(items.drop_last()).push(r),
            None => approvals_pending_of(items.drop_last()),
        }
    }
}

/// The values of some rows.
pub open spec fn approval_entry_values(v: Seq<ApprovalEntry>) -> Seq<ApprovalEntryV> {
    Seq::new(v.len(), |i: int| v[i]@)
}

fn read_approval_entry(j: &Json) -> (r: Option<ApprovalEntry>)
    ensures
        match r {
            Some(e) => approval_entry_of(j@) == Some(e@),
            None => approval_entry_of(j@) is None,
        },
{
    match (j.text_at("approval_id"), j.text_at("agent"), j.text_at("project"), j.text_at("key"), j.text_at("status"), j.text_at("expires_at")) {
        (Some(approval_id), Some(agent), Some(project), Some(key), Some(status), Some(expires_at)) => Some(
            ApprovalEntry {
                approval_id: approval_id.to_string(),
                agent: agent.to_string(),
                project: project.to_string(),
                key: key.to_string(),
                status: status.to_string(),
                expires_at: expires_at.to_string(),
            },
        ),
        _ => None,
    }
}

fn read_approvals_pending(items: &[Json]) -> (r: Vec<ApprovalEntry>)
    ensures
        approval_entry_values(r@) == approvals_pending_of(json::values(items@)),
{
    let ghost all = json::values(items@);
    let mut out: Vec<ApprovalEntry> = Vec::new();
    let mut i: usize = 0;
    proof {
        assert(all.take(0) =~= Seq::empty());
        assert(approval_entry_values(out@) =~= Seq::<ApprovalEntryV>::empty());
    }
    while i < items.len()
        invariant
            i <= items@.len(),
            all == json::values(items@),
            approval_entry_values(out@) == approvals_pending_of(all.take(i as int)),
        decreases items@.len() - i,
    {
        proof {
            assert(all.take(i + 1).drop_last() =~= all.take(i as int));
            assert(all.take(i + 1).last() == items@[i as int]@);
        }
        match read_approval_entry(&items[i]) {
            Some(e) => {
                let ghost before = approval_entry_values(out@);
                let ghost value = e@;
                out.push(e);
                proof {
                    assert(approval_entry_values(out@) =~= before.push(value));
                }
            },
            None => {},
        }
        i = i + 1;
    }
    proof {
        assert(all.take(i as int) =~= all);
    }
    out
}

/// The rows of an answer.
#[derive(Debug, PartialEq)]
pub struct ApprovalsOut {
    pub approvals: Vec<ApprovalEntry>,
}

/// The approvals that wait for a decision.
pub fn approvals_pending(v: &Json) -> (r: ApprovalsOut)
    ensures
        approval_entry_values(r.approvals@) == approvals_pending_of(
            json::items_at(v@, "approvals"@),
        ),
{
    match v.array_at("approvals") {
        Some(items) => ApprovalsOut { approvals: read_approvals_pending(items.as_slice()) },
        None => {
            let approvals: Vec<ApprovalEntry> = Vec::new();
            proof {
                assert(approval_entry_values(approvals@) =~= Seq::<ApprovalEntryV>::empty());
            }
            ApprovalsOut { approvals }
        },
    }
}

/// A lease. It has no field for a credential.
#[derive(Debug, PartialEq)]
pub struct LeaseEntry {
    pub lease_id: String,
    pub lease_prefix: String,
    pub project: String,
    pub ops: Vec<String>,
    pub expires_at: String,
    pub expires_in: u64,
    pub status: String,
}

/// The mathematical value of [`LeaseEntry`].
pub struct LeaseEntryV {
    pub lease_id: Seq<char>,
    pub lease_prefix: Seq<char>,
    pub project: Seq<char>,
    pub ops: Seq<Seq<char>>,
    pub expires_at: Seq<char>,
    pub expires_in: u64,
    pub status: Seq<char>,
}

impl View for LeaseEntry {
    type V = LeaseEntryV;

    open spec fn view(&self) -> LeaseEntryV {
        LeaseEntryV {
            lease_id: self.lease_id@,
            lease_prefix: self.lease_prefix@,
            project: self.project@,
            ops: text::texts(self.ops@),
            expires_at: self.expires_at@,
            expires_in: self.expires_in,
            status: self.status@,
        }
    }
}

/// The row that a value holds; a value without one of the required members
/// holds none.
pub open spec fn lease_entry_of(j: JsonV) -> Option<LeaseEntryV> {
    match (j.at("lease_id"@).text(), j.at("lease_prefix"@).text(), j.at("project"@).text(), j.at("expires_at"@).text(), j.at("status"@).text()) {
        (Some(lease_id), Some(lease_prefix), Some(project), Some(expires_at), Some(status)) => Some(
            LeaseEntryV {
                lease_id,
                lease_prefix,
                project,
                ops: json::texts_among(json::items_at(j, "ops"@)),
                expires_at,
                expires_in: count(j, "expires_in"@),
                status,
            },
        ),
        _ => None,
    }
}

/// The rows that some values hold, in order.
pub open spec fn leases_list_of(items: Seq<JsonV>) -> Seq<LeaseEntryV>
    decreases items.len(),
{
    if items.len() == 0 {
        Seq::empty()
    } else {
        match lease_entry_of(items.last()) {
            Some(r) => leases_list_of(items.drop_last()).push(r),
            None => leases_list_of(items.drop_last()),
        }
    }
}

/// The values of some rows.
pub open spec fn lease_entry_values(v: Seq<LeaseEntry>) -> Seq<LeaseEntryV> {
    Seq::new(v.len(), |i: int| v[i]@)
}

fn read_lease_entry(j: &Json) -> (r: Option<LeaseEntry>)
    ensures
        match r {
            Some(e) => lease_entry_of(j@) == Some(e@),
            None => lease_entry_of(j@) is None,
        },
{
    match (j.text_at("lease_id"), j.text_at("lease_prefix"), j.text_at("project"), j.text_at("expires_at"), j.text_at("status")) {
        (Some(lease_id), Some(lease_prefix), Some(project), Some(expires_at), Some(status)) => Some(
            LeaseEntry {
                lease_id: lease_id.to_string(),
                lease_prefix: lease_prefix.to_string(),
                project: project.to_string(),
                ops: texts_at(j, "ops"),
                expires_at: expires_at.to_string(),
                expires_in: count_at(j, "expires_in"),
                status: status.to_string(),
            },
        ),
        _ => None,
    }
}

fn read_leases_list(items: &[Json]) -> (r: Vec<LeaseEntry>)
    ensures
        lease_entry_values(r@) == leases_list_of(json::values(items@)),
{
    let ghost all = json::values(items@);
    let mut out: Vec<LeaseEntry> = Vec::new();
    let mut i: usize = 0;
    proof {
        assert(all.take(0) =~= Seq::empty());
        assert(lease_entry_values(out@) =~= Seq::<LeaseEntryV>::empty());
    }
    while i < items.len()
        invariant
            i <= items@.len(),
            all == json::values(items@),
            lease_entry_values(out@) == leases_list_of(all.take(i as int)),
        decreases items@.len() - i,
    {
        proof {
            assert(all.take(i + 1).drop_last() =~= all.take(i as int));
            assert(all.take(i + 1).last() == items@[i as int]@);
        }
        match read_lease_entry(&items[i]) {
            Some(e) => {
                let ghost before = lease_entry_values(out@);
                let ghost value = e@;
                out.push(e);
                proof {
                    assert(lease_entry_values(out@) =~= before.push(value));
                }
            },
            None => {},
        }
        i = i + 1;
    }
    proof {
        assert(all.take(i as int) =~= all);
    }
    out
}

/// The rows of an answer.
#[derive(Debug, PartialEq)]
pub struct LeasesOut {
    pub leases: Vec<LeaseEntry>,
}

/// The leases. An answer without a list is malformed.
pub fn leases_list(v: &Json) -> (r: Result<LeasesOut, CmdError>)
    ensures
        match (r, v@.at("leases"@).items()) {
            (Ok(o), Some(items)) => lease_entry_values(o.leases@) == leases_list_of(items),
            (Err(e), None) => e@ == dashboard::malformed(),
            _ => false,
        },
{
    match v.array_at("leases") {
        Some(items) => Ok(LeasesOut { leases: read_leases_list(items.as_slice()) }),
        None => Err(dashboard::malformed_answer()),
    }
}

/// A live run: no argument, no environment, no folder and no secret name.
#[derive(Debug, PartialEq)]
pub struct RunEntry {
    pub run_id: String,
    pub agent: String,
    pub project: String,
    pub pid: i32,
    pub started_at: String,
    pub status: String,
}

/// The mathematical value of [`RunEntry`].
pub struct RunEntryV {
    pub run_id: Seq<char>,
    pub agent: Seq<char>,
    pub project: Seq<char>,
    pub pid: i32,
    pub started_at: Seq<char>,
    pub status: Seq<char>,
}

impl View for RunEntry {
    type V = RunEntryV;

    open spec fn view(&self) -> RunEntryV {
        RunEntryV {
            run_id: self.run_id@,
            agent: self.agent@,
            project: self.project@,
            pid: self.pid,
            started_at: self.started_at@,
            status: self.status@,
        }
    }
}

/// The row that a value holds; a value without one of the required members
/// holds none.
pub open spec fn run_entry_of(j: JsonV) -> Option<RunEntryV> {
    match (j.at("run_id"@).text(), j.at("agent"@).text(), j.at("project"@).text(), j.at("started_at"@).text(), j.at("status"@).text()) {
        (Some(run_id), Some(agent), Some(project), Some(started_at), Some(status)) => Some(
            RunEntryV {
                run_id,
                agent,
                project,
                pid: process_id(j, "pid"@),
                started_at,
                status,
            },
        ),
        _ => None,
    }
}

/// The rows that some values hold, in order.
pub open spec fn runs_list_of(items: Seq<JsonV>) -> Seq<RunEntryV>
    decreases items.len(),
{
    if items.len() == 0 {
        Seq::empty()
    } else {
        match run_entry_of(items.last()) {
            Some(r) => runs_list_of(items.drop_last()).push(r),
            None => runs_list_of(items.drop_last()),
        }
    }
}

/// The values of some rows.
pub open spec fn run_entry_values(v: Seq<RunEntry>) -> Seq<RunEntryV> {
    Seq::new(v.len(), |i: int| v[i]@)
}

fn read_run_entry(j: &Json) -> (r: Option<RunEntry>)
    ensures
        match r {
            Some(e) => run_entry_of(j@) == Some(e@),
            None => run_entry_of(j@) is None,
        },
{
    match (j.text_at("run_id"), j.text_at("agent"), j.text_at("project"), j.text_at("started_at"), j.text_at("status")) {
        (Some(run_id), Some(agent), Some(project), Some(started_at), Some(status)) => Some(
            RunEntry {
                run_id: run_id.to_string(),
                agent: agent.to_string(),
                project: project.to_string(),
                pid: process_id_at(j, "pid"),
                started_at: started_at.to_string(),
                status: status.to_string(),
            },
        ),
        _ => None,
    }
}

fn read_runs_list(items: &[Json]) -> (r: Vec<RunEntry>)
    ensures
        run_entry_values(r@) == runs_list_of(json::values(items@)),
{
    let ghost all = json::values(items@);
    let mut out: Vec<RunEntry> = Vec::new();
    let mut i: usize = 0;
    proof {
        assert(all.take(0) =~= Seq::empty());
        assert(run_entry_values(out@) =~= Seq::<RunEntryV>::empty());
    }
    while i < items.len()
        invariant
            i <= items@.len(),
            all == json::values(items@),
            run_entry_values(out@) == runs_list_of(all.take(i as int)),
        decreases items@.len() - i,
    {
        proof {
            assert(all.take(i + 1).drop_last() =~= all.take(i as int));
            assert(all.take(i + 1).last() == items@[i as int]@);
        }
        match read_run_entry(&items[i]) {
            Some(e) => {
                let ghost before = run_entry_values(out@);
                let ghost value = e@;
                out.push(e);
                proof {
                    assert(run_entry_values(out@) =~= before.push(value));
                }
            },
            None => {},
        }
        i = i + 1;
    }
    proof {
        assert(all.take(i as int) =~= all);
    }
    out
}

/// The rows of an answer.
#[derive(Debug, PartialEq)]
pub struct RunsOut {
    pub runs: Vec<RunEntry>,
}

/// The live runs. An answer without a list is malformed.
pub fn runs_list(v: &Json) -> (r: Result<RunsOut, CmdError>)
    ensures
        match (r, v@.at("runs"@).items()) {
            (Ok(o), Some(items)) => run_entry_values(o.runs@) == runs_list_of(items),
            (Err(e), None) => e@ == dashboard::malformed(),
            _ => false,
        },
{
    match v.array_at("runs") {
        Some(items) => Ok(RunsOut { runs: read_runs_list(items.as_slice()) }),
        None => Err(dashboard::malformed_answer()),
    }
}

/// A row of the audit timeline: identifiers and names only.
#[derive(Debug, PartialEq)]
pub struct AuditEntryOut {
    pub seq: u64,
    pub ts: String,
    pub actor: String,
    pub op: String,
    pub project: Option<String>,
    pub keys: Vec<String>,
    pub decision: String,
    pub reason: Option<String>,
    pub run_id: Option<String>,
    pub authenticated: bool,
}

/// The mathematical value of [`AuditEntryOut`].
pub struct AuditEntryV {
    pub seq: u64,
    pub ts: Seq<char>,
    pub actor: Seq<char>,
    pub op: Seq<char>,
    pub project: Option<Seq<char>>,
    pub keys: Seq<Seq<char>>,
    pub decision: Seq<char>,
    pub reason: Option<Seq<char>>,
    pub run_id: Option<Seq<char>>,
    pub authenticated: bool,
}

impl View for AuditEntryOut {
    type V = AuditEntryV;

    open spec fn view(&self) -> AuditEntryV {
        AuditEntryV {
            seq: self.seq,
            ts: self.ts@,
            actor: self.actor@,
            op: self.op@,
            project: json::opt_text(self.project),
            keys: text::texts(self.keys@),
            decision: self.decision@,
            reason: json::opt_text(self.reason),
            run_id: json::opt_text(self.run_id),
            authenticated: self.authenticated,
        }
    }
}

/// The row that a value holds; a value without one of the required members
/// holds none.
pub open spec fn audit_entry_out_of(j: JsonV) -> Option<AuditEntryV> {
    match (j.at("seq"@).uint(), j.at("ts"@).text(), j.at("actor"@).text(), j.at("op"@).text(), j.at("decision"@).text()) {
        (Some(seq), Some(ts), Some(actor), Some(op), Some(decision)) => Some(
            AuditEntryV {
                seq,
                ts,
                actor,
                op,
                project: j.at("project"@).text(),
                keys: json::texts_among(json::items_at(j, "keys"@)),
                decision,
                reason: j.at("reason"@).text(),
                run_id: j.at("run_id"@).text(),
                authenticated: j.at("mac"@).text() is Some,
            },
        ),
        _ => None,
    }
}

/// The rows that some values hold, in order.
pub open spec fn audit_entries_of(items: Seq<JsonV>) -> Seq<AuditEntryV>
    decreases items.len(),
{
    if items.len() == 0 {
        Seq::empty()
    } else {
        match audit_entry_out_of(items.last()) {
            Some(r) => audit_entries_of(items.drop_last()).push(r),
            None => audit_entries_of(items.drop_last()),
        }
    }
}

/// The values of some rows.
pub open spec fn audit_entry_out_values(v: Seq<AuditEntryOut>) -> Seq<AuditEntryV> {
    Seq::new(v.len(), |i: int| v[i]@)
}

fn read_audit_entry_out(j: &Json) -> (r: Option<AuditEntryOut>)
    ensures
        match r {
            Some(e) => audit_entry_out_of(j@) == Some(e@),
            None => audit_entry_out_of(j@) is None,
        },
{
    match (j.uint_at("seq"), j.text_at("ts"), j.text_at("actor"), j.text_at("op"), j.text_at("decision")) {
        (Some(seq), Some(ts), Some(actor), Some(op), Some(decision)) => Some(
            AuditEntryOut {
                seq,
                ts: ts.to_string(),
                actor: actor.to_string(),
                op: op.to_string(),
                project: owned(j.text_at("project")),
                keys: texts_at(j, "keys"),
                decision: decision.to_string(),
                reason: owned(j.text_at("reason")),
                run_id: owned(j.text_at("run_id")),
                authenticated: j.text_at("mac").is_some(),
            },
        ),
        _ => None,
    }
}

fn read_audit_entries(items: &[Json]) -> (r: Vec<AuditEntryOut>)
    ensures
        audit_entry_out_values(r@) == audit_entries_of(json::values(items@)),
{
    let ghost all = json::values(items@);
    let mut out: Vec<AuditEntryOut> = Vec::new();
    let mut i: usize = 0;
    proof {
        assert(all.take(0) =~= Seq::empty());
        assert(audit_entry_out_values(out@) =~= Seq::<AuditEntryV>::empty());
    }
    while i < items.len()
        invariant
            i <= items@.len(),
            all == json::values(items@),
            audit_entry_out_values(out@) == audit_entries_of(all.take(i as int)),
        decreases items@.len() - i,
    {
        proof {
            assert(all.take(i + 1).drop_last() =~= all.take(i as int));
            assert(all.take(i + 1).last() == items@[i as int]@);
        }
        match read_audit_entry_out(&items[i]) {
            Some(e) => {
                let ghost before = audit_entry_out_values(out@);
                let ghost value = e@;
                out.push(e);
                proof {
                    assert(audit_entry_out_values(out@) =~= before.push(value));
                }
            },
            None => {},
        }
        i = i + 1;
    }
    proof {
        assert(all.take(i as int) =~= all);
    }
    out
}

// --------------------------------------------------------------------- inputs
/// The passphrase that unlocks the vault.
#[derive(Debug, PartialEq)]
pub struct UnlockIn {
    pub passphrase: String,
}

/// A new project.
#[derive(Debug, PartialEq)]
pub struct ProjectAddIn {
    pub name: String,
    pub paths: Vec<String>,
}

impl ProjectAddIn {
    /// What the parameters of the request hold.
    pub open spec fn asked(self) -> JsonV {
        json::empty_object()
            .with("name"@, JsonV::Str(self.name@))
            .with("paths"@, json::text_array(text::texts(self.paths@)))
    }

    /// The parameters of the request.
    pub fn params(&self) -> (r: Json)
        ensures
            r@ == self.asked(),
            r@ == json::empty_object()
                .with("name"@, JsonV::Str(self.name@))
                .with("paths"@, json::text_array(text::texts(self.paths@))),
    {
        let mut j = Json::object();
        j.put("name", Json::string(&self.name));
        j.put("paths", Json::strings(self.paths.as_slice()));
        j
    }
}

/// A name.
#[derive(Debug, PartialEq)]
pub struct NameIn {
    pub name: String,
}

impl NameIn {
    /// What the parameters of the request hold.
    pub open spec fn asked(self) -> JsonV {
        json::empty_object().with("name"@, JsonV::Str(self.name@))
    }

    /// The parameters of the request.
    pub fn params(&self) -> (r: Json)
        ensures
            r@ == self.asked(),
            r@ == json::empty_object().with("name"@, JsonV::Str(self.name@)),
    {
        let mut j = Json::object();
        j.put("name", Json::string(&self.name));
        j
    }
}

/// A project and a folder.
#[derive(Debug, PartialEq)]
pub struct ProjectPathIn {
    pub name: String,
    pub path: String,
}

impl ProjectPathIn {
    /// What the parameters of the request hold.
    pub open spec fn asked(self) -> JsonV {
        json::empty_object()
            .with("name"@, JsonV::Str(self.name@))
            .with("path"@, JsonV::Str(self.path@))
    }

    /// The parameters of the request.
    pub fn params(&self) -> (r: Json)
        ensures
            r@ == self.asked(),
            r@ == json::empty_object()
                .with("name"@, JsonV::Str(self.name@))
                .with("path"@, JsonV::Str(self.path@)),
    {
        let mut j = Json::object();
        j.put("name", Json::string(&self.name));
        j.put("path", Json::string(&self.path));
        j
    }
}

/// A project.
#[derive(Debug, PartialEq)]
pub struct SecretsListIn {
    pub project: String,
}

impl SecretsListIn {
    /// What the parameters of the request hold.
    pub open spec fn asked(self) -> JsonV {
        json::empty_object().with("project"@, JsonV::Str(self.project@))
    }

    /// The parameters of the request.
    pub fn params(&self) -> (r: Json)
        ensures
            r@ == self.asked(),
            r@ == json::empty_object().with("project"@, JsonV::Str(self.project@)),
    {
        let mut j = Json::object();
        j.put("project", Json::string(&self.project));
        j
    }
}

/// A secret and its value, which no answer, log line or error holds.
#[derive(Debug, PartialEq)]
pub struct SecretSetIn {
    pub project: String,
    pub key: String,
    pub value: String,
}

impl SecretSetIn {
    /// What the parameters of the request hold.
    pub open spec fn asked(self) -> JsonV {
        json::empty_object()
            .with("project"@, JsonV::Str(self.project@))
            .with("key"@, JsonV::Str(self.key@))
            .with("value"@, JsonV::Str(self.value@))
    }

    /// The parameters of the request.
    pub fn params(&self) -> (r: Json)
        ensures
            r@ == self.asked(),
            r@ == json::empty_object()
                .with("project"@, JsonV::Str(self.project@))
                .with("key"@, JsonV::Str(self.key@))
                .with("value"@, JsonV::Str(self.value@)),
    {
        let mut j = Json::object();
        j.put("project", Json::string(&self.project));
        j.put("key", Json::string(&self.key));
        j.put("value", Json::string(&self.value));
        j
    }
}

/// A secret.
#[derive(Debug, PartialEq)]
pub struct SecretDeleteIn {
    pub project: String,
    pub key: String,
}

impl SecretDeleteIn {
    /// What the parameters of the request hold.
    pub open spec fn asked(self) -> JsonV {
        json::empty_object()
            .with("project"@, JsonV::Str(self.project@))
            .with("key"@, JsonV::Str(self.key@))
    }

    /// The parameters of the request.
    pub fn params(&self) -> (r: Json)
        ensures
            r@ == self.asked(),
            r@ == json::empty_object()
                .with("project"@, JsonV::Str(self.project@))
                .with("key"@, JsonV::Str(self.key@)),
    {
        let mut j = Json::object();
        j.put("project", Json::string(&self.project));
        j.put("key", Json::string(&self.key));
        j
    }
}

/// A new agent, and a file for its token if one is wanted.
#[derive(Debug, PartialEq)]
pub struct AgentAddIn {
    pub name: String,
    pub token_path: Option<String>,
}

impl AgentAddIn {
    /// What the parameters of the request hold.
    pub open spec fn asked(self) -> JsonV {
        json::empty_object().with("name"@, JsonV::Str(self.name@))
    }

    /// The parameters of the request.
    pub fn params(&self) -> (r: Json)
        ensures
            r@ == self.asked(),
            r@ == json::empty_object().with("name"@, JsonV::Str(self.name@)),
    {
        let mut j = Json::object();
        j.put("name", Json::string(&self.name));
        j
    }
}

/// A grant; the operations are separated by commas.
#[derive(Debug, PartialEq)]
pub struct GrantSetIn {
    pub agent: String,
    pub project: String,
    pub ops: String,
}

impl GrantSetIn {
    /// What the parameters of the request hold.
    pub open spec fn asked(self) -> JsonV {
        json::empty_object()
            .with("agent"@, JsonV::Str(self.agent@))
            .with("project"@, JsonV::Str(self.project@))
            .with("ops"@, JsonV::Str(self.ops@))
    }

    /// The parameters of the request.
    pub fn params(&self) -> (r: Json)
        ensures
            r@ == self.asked(),
            r@ == json::empty_object()
                .with("agent"@, JsonV::Str(self.agent@))
                .with("project"@, JsonV::Str(self.project@))
                .with("ops"@, JsonV::Str(self.ops@)),
    {
        let mut j = Json::object();
        j.put("agent", Json::string(&self.agent));
        j.put("project", Json::string(&self.project));
        j.put("ops", Json::string(&self.ops));
        j
    }
}

/// A grant to revoke.
#[derive(Debug, PartialEq)]
pub struct GrantRevokeIn {
    pub agent: String,
    pub project: String,
}

impl GrantRevokeIn {
    /// What the parameters of the request hold.
    pub open spec fn asked(self) -> JsonV {
        json::empty_object()
            .with("agent"@, JsonV::Str(self.agent@))
            .with("project"@, JsonV::Str(self.project@))
    }

    /// The parameters of the request.
    pub fn params(&self) -> (r: Json)
        ensures
            r@ == self.asked(),
            r@ == json::empty_object()
                .with("agent"@, JsonV::Str(self.agent@))
                .with("project"@, JsonV::Str(self.project@)),
    {
        let mut j = Json::object();
        j.put("agent", Json::string(&self.agent));
        j.put("project", Json::string(&self.project));
        j
    }
}

/// An approval.
#[derive(Debug, PartialEq)]
pub struct ApprovalDecisionIn {
    pub approval_id: String,
}

impl ApprovalDecisionIn {
    /// What the parameters of the request hold.
    pub open spec fn asked(self) -> JsonV {
        json::empty_object().with("approval_id"@, JsonV::Str(self.approval_id@))
    }

    /// The parameters of the request.
    pub fn params(&self) -> (r: Json)
        ensures
            r@ == self.asked(),
            r@ == json::empty_object().with("approval_id"@, JsonV::Str(self.approval_id@)),
    {
        let mut j = Json::object();
        j.put("approval_id", Json::string(&self.approval_id));
        j
    }
}

/// A secret to reveal. A person reveals without an approval.
#[derive(Debug, PartialEq)]
pub struct RevealIn {
    pub project: String,
    pub key: String,
}

impl RevealIn {
    /// What the parameters of the request hold.
    pub open spec fn asked(self) -> JsonV {
        json::empty_object()
            .with("project"@, JsonV::Str(self.project@))
            .with("key"@, JsonV::Str(self.key@))
    }

    /// The parameters of the request.
    pub fn params(&self) -> (r: Json)
        ensures
            r@ == self.asked(),
            r@ == json::empty_object()
                .with("project"@, JsonV::Str(self.project@))
                .with("key"@, JsonV::Str(self.key@)),
    {
        let mut j = Json::object();
        j.put("project", Json::string(&self.project));
        j.put("key", Json::string(&self.key));
        j
    }
}

/// A lease.
#[derive(Debug, PartialEq)]
pub struct LeaseRevokeIn {
    pub lease_id: String,
}

impl LeaseRevokeIn {
    /// What the parameters of the request hold.
    pub open spec fn asked(self) -> JsonV {
        json::empty_object().with("lease_id"@, JsonV::Str(self.lease_id@))
    }

    /// The parameters of the request.
    pub fn params(&self) -> (r: Json)
        ensures
            r@ == self.asked(),
            r@ == json::empty_object().with("lease_id"@, JsonV::Str(self.lease_id@)),
    {
        let mut j = Json::object();
        j.put("lease_id", Json::string(&self.lease_id));
        j
    }
}

/// A page of the audit timeline.
#[derive(Debug, PartialEq)]
pub struct AuditShowIn {
    pub tail: u64,
    pub before_seq: Option<u64>,
}

/// How many entries a page may have.
pub const MAX_PAGE: u64 = 1000;

/// The parameters of a page, whose size is checked before anything is sent.
pub open spec fn page_params(tail: u64, before_seq: Option<u64>) -> Result<JsonV, CmdErrorV> {
    if 1 <= tail <= MAX_PAGE {
        let p = json::empty_object().with("tail"@, JsonV::UInt(tail));
        match before_seq {
            Some(b) => Ok(p.with("before_seq"@, JsonV::UInt(b))),
            None => Ok(p),
        }
    } else {
        Err(
            CmdErrorV {
                code: "E_INVALID_INPUT"@,
                message: dashboard::broker_text("E_INVALID_INPUT"@),
            },
        )
    }
}

impl AuditShowIn {
    /// The parameters of the request; a page of no or too many entries is
    /// refused.
    pub fn params(&self) -> (r: Result<Json, CmdError>)
        ensures
            match r {
                Ok(j) => page_params(self.tail, self.before_seq) == Ok::<JsonV, CmdErrorV>(j@),
                Err(e) => page_params(self.tail, self.before_seq) == Err::<JsonV, CmdErrorV>(e@),
            },
    {
        if !(1 <= self.tail && self.tail <= MAX_PAGE) {
            return Err(
                CmdError::new("E_INVALID_INPUT", dashboard::broker_message("E_INVALID_INPUT")),
            );
        }
        let mut j = Json::object();
        j.put("tail", Json::UInt(self.tail));
        match self.before_seq {
            Some(b) => {
                j.put("before_seq", Json::UInt(b));
            },
            None => {},
        }
        Ok(j)
    }
}

// -------------------------------------------------------------------- outputs
/// What was added.
#[derive(Debug, PartialEq)]
pub struct AddedOut {
    pub added: String,
}

/// Reads the answer to `project_add`.
pub fn project_add(v: &Json) -> (r: AddedOut)
    ensures
        r.added@ == word(v@, "added"@),
{
    AddedOut { added: word_at(v, "added") }
}

/// Reads the answer to `project_path_add`.
pub fn project_path_add(v: &Json) -> (r: AddedOut)
    ensures
        r.added@ == word(v@, "added"@),
{
    AddedOut { added: word_at(v, "added") }
}

/// What was removed.
#[derive(Debug, PartialEq)]
pub struct RemovedOut {
    pub removed: String,
}

/// Reads the answer to `project_remove`.
pub fn project_remove(v: &Json) -> (r: RemovedOut)
    ensures
        r.removed@ == word(v@, "removed"@),
{
    RemovedOut { removed: word_at(v, "removed") }
}

/// Reads the answer to `project_path_remove`.
pub fn project_path_remove(v: &Json) -> (r: RemovedOut)
    ensures
        r.removed@ == word(v@, "removed"@),
{
    RemovedOut { removed: word_at(v, "removed") }
}

/// The project and the key that were set.
#[derive(Debug, PartialEq)]
pub struct SecretSetOut {
    pub set: String,
}

/// Reads the answer to `secret_set`.
pub fn secret_set(v: &Json) -> (r: SecretSetOut)
    ensures
        r.set@ == word(v@, "set"@),
{
    SecretSetOut { set: word_at(v, "set") }
}

/// The project and the key that were deleted.
#[derive(Debug, PartialEq)]
pub struct SecretDeleteOut {
    pub deleted: String,
}

/// Reads the answer to `secret_delete`.
pub fn secret_delete(v: &Json) -> (r: SecretDeleteOut)
    ensures
        r.deleted@ == word(v@, "deleted"@),
{
    SecretDeleteOut { deleted: word_at(v, "deleted") }
}

/// What was revoked.
#[derive(Debug, PartialEq)]
pub struct RevokedOut {
    pub revoked: String,
}

/// Reads the answer to `agent_revoke`.
pub fn agent_revoke(v: &Json) -> (r: RevokedOut)
    ensures
        r.revoked@ == word(v@, "revoked"@),
{
    RevokedOut { revoked: word_at(v, "revoked") }
}

/// Reads the answer to `grant_revoke`.
pub fn grant_revoke(v: &Json) -> (r: RevokedOut)
    ensures
        r.revoked@ == word(v@, "revoked"@),
{
    RevokedOut { revoked: word_at(v, "revoked") }
}

/// What was granted.
#[derive(Debug, PartialEq)]
pub struct GrantedOut {
    pub granted: String,
}

/// Reads the answer to `grant_set`.
pub fn grant_set(v: &Json) -> (r: GrantedOut)
    ensures
        r.granted@ == word(v@, "granted"@),
{
    GrantedOut { granted: word_at(v, "granted") }
}

/// The decided approval.
#[derive(Debug, PartialEq)]
pub struct ApprovalDecisionOut {
    pub approval_id: String,
    pub status: String,
}

/// Reads the answer to `approval_approve`.
pub fn approval_approve(v: &Json) -> (r: ApprovalDecisionOut)
    ensures
        r.approval_id@ == word(v@, "approval_id"@),
        r.status@ == word(v@, "status"@),
{
    ApprovalDecisionOut { approval_id: word_at(v, "approval_id"), status: word_at(v, "status") }
}

/// Reads the answer to `approval_deny`.
pub fn approval_deny(v: &Json) -> (r: ApprovalDecisionOut)
    ensures
        r.approval_id@ == word(v@, "approval_id"@),
        r.status@ == word(v@, "status"@),
{
    ApprovalDecisionOut { approval_id: word_at(v, "approval_id"), status: word_at(v, "status") }
}

/// The revoked lease.
#[derive(Debug, PartialEq)]
pub struct LeaseRevokeOut {
    pub lease_id: String,
    pub revoked: bool,
}

/// Reads the answer to `lease_revoke`.
pub fn lease_revoke(v: &Json) -> (r: LeaseRevokeOut)
    ensures
        r.lease_id@ == word(v@, "lease_id"@),
        r.revoked == flag(v@, "revoked"@),
{
    LeaseRevokeOut { lease_id: word_at(v, "lease_id"), revoked: flag_at(v, "revoked") }
}

/// A new agent. The token is given here once and can never be asked for again.
#[derive(Debug, PartialEq)]
pub struct AgentAddOut {
    pub agent_id: String,
    pub token: String,
    pub token_saved_path: Option<String>,
}

impl AgentAddIn {
    /// The file that the token is to be written to, if any.
    pub fn save_path(&self) -> (r: Option<&str>)
        ensures
            json::opt_str(r) == wanted_path(json::opt_text(self.token_path)),
    {
        match &self.token_path {
            Some(p) => if p.as_str().is_empty() {
                None
            } else {
                Some(p.as_str())
            },
            None => None,
        }
    }
}

/// The file that a token is to be written to: an empty name is none.
pub open spec fn wanted_path(path: Option<Seq<char>>) -> Option<Seq<char>> {
    match path {
        Some(p) => if p.len() == 0 {
            None
        } else {
            Some(p)
        },
        None => None,
    }
}

/// Reads the answer to `agent_add`, once the token was written where it was
/// wanted.
pub fn agent_add(input: &AgentAddIn, v: &Json) -> (r: AgentAddOut)
    ensures
        r.agent_id@ == word(v@, "agent_id"@),
        r.token@ == word(v@, "token"@),
        json::opt_text(r.token_saved_path) == wanted_path(json::opt_text(input.token_path)),
{
    AgentAddOut {
        agent_id: word_at(v, "agent_id"),
        token: word_at(v, "token"),
        token_saved_path: owned(input.save_path()),
    }
}

/// The value of a secret: the one answer that holds one.
#[derive(Debug, PartialEq)]
pub struct RevealOut {
    pub value: String,
}

/// Reads the answer to `reveal`. An answer without a value is malformed.
pub fn revealed(v: &Json) -> (r: Result<RevealOut, CmdError>)
    ensures
        match (r, v@.at("value"@).text()) {
            (Ok(o), Some(t)) => o.value@ == t,
            (Err(e), None) => e@ == dashboard::malformed(),
            _ => false,
        },
{
    match v.text_at("value") {
        Some(t) => Ok(RevealOut { value: t.to_string() }),
        None => Err(dashboard::malformed_answer()),
    }
}

/// A page of the audit timeline.
#[derive(Debug, PartialEq)]
pub struct AuditShowOut {
    pub entries: Vec<AuditEntryOut>,
    pub next_before_seq: Option<u64>,
}

/// A page of the audit timeline, or what is wrong with it.
pub open spec fn page_of(v: JsonV) -> Result<(Seq<AuditEntryV>, Option<u64>), CmdErrorV> {
    match (v.at("entries"@).items(), v.at("next_before_seq"@)) {
        (None, _) => Err(dashboard::malformed()),
        (Some(items), JsonV::Null) => Ok((audit_entries_of(items), None)),
        (Some(items), JsonV::UInt(n)) => Ok((audit_entries_of(items), Some(n))),
        (Some(_), _) => Err(dashboard::malformed()),
    }
}

/// Reads the answer to `audit_show`. An answer without entries, or with a
/// cursor that is no number, is malformed; a row that is malformed is left out.
pub fn audit_show(v: &Json) -> (r: Result<AuditShowOut, CmdError>)
    ensures
        match r {
            Ok(o) => page_of(v@) == Ok::<(Seq<AuditEntryV>, Option<u64>), CmdErrorV>(
                (audit_entry_out_values(o.entries@), o.next_before_seq),
            ),
            Err(e) => page_of(v@) == Err::<(Seq<AuditEntryV>, Option<u64>), CmdErrorV>(e@),
        },
{
    let items = match v.array_at("entries") {
        Some(a) => a,
        None => {
            return Err(dashboard::malformed_answer());
        },
    };
    let next_before_seq = match v.get("next_before_seq") {
        None => None,
        Some(Json::Null) => None,
        Some(Json::UInt(n)) => Some(*n),
        Some(_) => {
            return Err(dashboard::malformed_answer());
        },
    };
    Ok(AuditShowOut { entries: read_audit_entries(items.as_slice()), next_before_seq })
}

/// What a verification of the audit log found.
#[derive(Debug, PartialEq)]
pub struct AuditVerifyOut {
    pub entries: u64,
    pub macs_verified: u64,
    pub macs_null: u64,
}

/// Reads the answer to `audit_verify`. An answer without one of the counts is
/// malformed: a made-up zero would read as a clean log.
pub fn audit_verify(v: &Json) -> (r: Result<AuditVerifyOut, CmdError>)
    ensures
        match (
            r,
            v@.at("entries"@).uint(),
            v@.at("macs_verified"@).uint(),
            v@.at("macs_null"@).uint(),
        ) {
            (Ok(o), Some(a), Some(b), Some(c)) => o.entries == a && o.macs_verified == b
                && o.macs_null == c,
            (Ok(_), _, _, _) => false,
            (Err(e), Some(_), Some(_), Some(_)) => false,
            (Err(e), _, _, _) => e@ == dashboard::malformed(),
        },
{
    match (v.uint_at("entries"), v.uint_at("macs_verified"), v.uint_at("macs_null")) {
        (Some(entries), Some(macs_verified), Some(macs_null)) => Ok(
            AuditVerifyOut { entries, macs_verified, macs_null },
        ),
        _ => Err(dashboard::malformed_answer()),
    }
}

// ----------------------------------------------------------------------- laws
/// A row of leases says nothing of a credential: two answers that differ only
/// in members that no row has give the same rows.
pub proof fn law_rows_hold_only_their_members(a: JsonV, b: JsonV)
    requires
        a.at("lease_id"@) == b.at("lease_id"@),
        a.at("lease_prefix"@) == b.at("lease_prefix"@),
        a.at("project"@) == b.at("project"@),
        a.at("ops"@) == b.at("ops"@),
        a.at("expires_at"@) == b.at("expires_at"@),
        a.at("expires_in"@) == b.at("expires_in"@),
        a.at("status"@) == b.at("status"@),
    ensures
        lease_entry_of(a) == lease_entry_of(b),
{
}

/// The secrets of a project are shown by name and time, whatever else an
/// answer holds.
pub proof fn law_secret_rows_hold_no_value(a: JsonV, b: JsonV)
    requires
        a.at("key"@) == b.at("key"@),
        a.at("updated"@) == b.at("updated"@),
    ensures
        secret_entry_of(a) == secret_entry_of(b),
{
}

/// What stands for a value stands for all of it, part by part.
pub proof fn law_the_view_of_project_entry_is_faithful(x: ProjectEntry)
    ensures
        x@.name == x.name@,
        x@.paths == text::texts(x.paths@),
{
}

/// What stands for a value stands for all of it, part by part.
pub proof fn law_the_view_of_secret_entry_is_faithful(x: SecretEntry)
    ensures
        x@.key == x.key@,
        x@.updated == x.updated@,
{
}

/// What stands for a value stands for all of it, part by part.
pub proof fn law_the_view_of_agent_entry_is_faithful(x: AgentEntry)
    ensures
        x@.name == x.name@,
        x@.status == x.status@,
        x@.token_prefix == x.token_prefix@,
{
}

/// What stands for a value stands for all of it, part by part.
pub proof fn law_the_view_of_grant_entry_is_faithful(x: GrantEntry)
    ensures
        x@.agent == x.agent@,
        x@.project == x.project@,
        x@.ops == text::texts(x.ops@),
        x@.revoked == x.revoked,
{
}

/// What stands for a value stands for all of it, part by part.
pub proof fn law_the_view_of_approval_entry_is_faithful(x: ApprovalEntry)
    ensures
        x@.approval_id == x.approval_id@,
        x@.agent == x.agent@,
        x@.project == x.project@,
        x@.key == x.key@,
        x@.status == x.status@,
        x@.expires_at == x.expires_at@,
{
}

/// What stands for a value stands for all of it, part by part.
pub proof fn law_the_view_of_lease_entry_is_faithful(x: LeaseEntry)
    ensures
        x@.lease_id == x.lease_id@,
        x@.lease_prefix == x.lease_prefix@,
        x@.project == x.project@,
        x@.ops == text::texts(x.ops@),
        x@.expires_at == x.expires_at@,
        x@.expires_in == x.expires_in,
        x@.status == x.status@,
{
}

/// What stands for a value stands for all of it, part by part.
pub proof fn law_the_view_of_run_entry_is_faithful(x: RunEntry)
    ensures
        x@.run_id == x.run_id@,
        x@.agent == x.agent@,
        x@.project == x.project@,
        x@.pid == x.pid,
        x@.started_at == x.started_at@,
        x@.status == x.status@,
{
}

/// What stands for a value stands for all of it, part by part.
pub proof fn law_the_view_of_audit_entry_out_is_faithful(x: AuditEntryOut)
    ensures
        x@.seq == x.seq,
        x@.ts == x.ts@,
        x@.actor == x.actor@,
        x@.op == x.op@,
        x@.project == json::opt_text(x.project),
        x@.keys == text::texts(x.keys@),
        x@.decision == x.decision@,
        x@.reason == json::opt_text(x.reason),
        x@.run_id == json::opt_text(x.run_id),
        x@.authenticated == x.authenticated,
{
}

} // verus!

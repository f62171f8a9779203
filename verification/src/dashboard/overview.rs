//! The overview: the state of the broker, and counts where they can be known.
//!
//! A count that is not known is absent, never zero. The overview asks the
//! broker for one thing after another; a session that has lapsed ends it, and
//! any other failure only leaves its own count unknown.

use vstd::prelude::*;

use crate::broker::ops::Operation;
use crate::dashboard::{self, CmdError, CmdErrorV, StatusOut, StatusV};
use crate::dashboard::OVERVIEW_SECRETS_PROJECT_CAP;
use crate::json::{self, Json, JsonV};
use crate::text::{self, same};

verus! {

/// The overview.
#[derive(Debug, PartialEq)]
pub struct OverviewOut {
    pub online: bool,
    pub trusted: bool,
    pub fingerprint: Option<String>,
    pub version: u32,
    pub created: String,
    pub locked: bool,
    /// Whether a session is held here; never the credential itself.
    pub session_held: bool,
    pub projects: Option<u64>,
    pub secrets_total: Option<u64>,
    pub secrets_total_exact: bool,
    pub agents_active: Option<u64>,
    pub runs_active: Option<u64>,
    pub approvals_pending: Option<u64>,
    pub leases_active: Option<u64>,
    pub idle_lock_secs: Option<u64>,
    pub idle_in: Option<u64>,
    pub audit_bytes: Option<u64>,
    pub audit_soft_limit: Option<u64>,
    pub audit_hard_limit: Option<u64>,
    pub vault_bytes: Option<u64>,
    pub vault_max_bytes: Option<u64>,
}

/// The mathematical value of an [`OverviewOut`]: the state, and the counts.
pub struct OverviewV {
    pub online: bool,
    pub trusted: bool,
    pub fingerprint: Option<Seq<char>>,
    pub version: u32,
    pub created: Seq<char>,
    pub locked: bool,
    pub session_held: bool,
    pub projects: Option<u64>,
    pub secrets_total: Option<u64>,
    pub secrets_total_exact: bool,
    pub agents_active: Option<u64>,
    pub runs_active: Option<u64>,
    pub approvals_pending: Option<u64>,
    pub leases_active: Option<u64>,
    pub idle_lock_secs: Option<u64>,
    pub idle_in: Option<u64>,
    pub audit_bytes: Option<u64>,
    pub audit_soft_limit: Option<u64>,
    pub audit_hard_limit: Option<u64>,
    pub vault_bytes: Option<u64>,
    pub vault_max_bytes: Option<u64>,
}

impl View for OverviewOut {
    type V = OverviewV;

    open spec fn view(&self) -> OverviewV {
        OverviewV {
            online: self.online,
            trusted: self.trusted,
            fingerprint: json::opt_text(self.fingerprint),
            version: self.version,
            created: self.created@,
            locked: self.locked,
            session_held: self.session_held,
            projects: self.projects,
            secrets_total: self.secrets_total,
            secrets_total_exact: self.secrets_total_exact,
            agents_active: self.agents_active,
            runs_active: self.runs_active,
            approvals_pending: self.approvals_pending,
            leases_active: self.leases_active,
            idle_lock_secs: self.idle_lock_secs,
            idle_in: self.idle_in,
            audit_bytes: self.audit_bytes,
            audit_soft_limit: self.audit_soft_limit,
            audit_hard_limit: self.audit_hard_limit,
            vault_bytes: self.vault_bytes,
            vault_max_bytes: self.vault_max_bytes,
        }
    }
}

/// Where an overview stands: the answer that it waits for.
#[derive(Clone, Copy, Debug, PartialEq, Eq, Structural)]
pub enum Stage {
    Health,
    Projects,
    Agents,
    Secrets,
    Over,
}

/// What is to be done next.
pub enum Act<J, O, E> {
    /// Ask the broker for an operation with the credential of the session.
    Call { op: Operation, params: J },
    /// The overview.
    Show(O),
    /// The session has lapsed.
    Fail(E),
}

pub type ActV = Act<JsonV, OverviewV, CmdErrorV>;

pub open spec fn act_value(a: Act<Json, OverviewOut, CmdError>) -> ActV {
    match a {
        Act::Call { op, params } => Act::Call { op, params: params@ },
        Act::Show(o) => Act::Show(o@),
        Act::Fail(e) => Act::Fail(e@),
    }
}

/// An overview in the making.
pub struct Overview {
    status: StatusOut,
    session_held: bool,
    health: Option<Json>,
    names: Option<Vec<String>>,
    agents: Option<u64>,
    at: usize,
    total: u64,
    stage: Stage,
}

/// The mathematical value of an [`Overview`].
pub struct MakingV {
    pub status: StatusV,
    pub session_held: bool,
    pub health: Option<JsonV>,
    pub names: Option<Seq<Seq<char>>>,
    pub agents: Option<u64>,
    pub at: usize,
    pub total: u64,
    pub stage: Stage,
}

impl View for Overview {
    type V = MakingV;

    closed spec fn view(&self) -> MakingV {
        MakingV {
            status: self.status@,
            session_held: self.session_held,
            health: crate::wire::opt_json(self.health),
            names: match self.names {
                Some(v) => Some(text::texts(v@)),
                None => None,
            },
            agents: self.agents,
            at: self.at,
            total: self.total,
            stage: self.stage,
        }
    }
}

/// The names that the members of some values give.
pub open spec fn names_of(items: Seq<JsonV>) -> Seq<Seq<char>>
    decreases items.len(),
{
    if items.len() == 0 {
        Seq::empty()
    } else {
        match items.last().at("name"@).text() {
            Some(t) => names_of(items.drop_last()).push(t),
            None => names_of(items.drop_last()),
        }
    }
}

/// How many of some agents are active.
pub open spec fn active_of(items: Seq<JsonV>) -> nat
    decreases items.len(),
{
    if items.len() == 0 {
        0
    } else if items.last().at("status"@).text() == Some("active"@) {
        active_of(items.drop_last()) + 1
    } else {
        active_of(items.drop_last())
    }
}

/// A count that the broker's health report gives.
pub open spec fn health_count(health: Option<JsonV>, key: Seq<char>) -> Option<u64> {
    match health {
        Some(v) => v.at(key).uint(),
        None => None,
    }
}

/// The overview that an attempt comes to.
pub open spec fn shown(s: MakingV, secrets_total: Option<u64>, exact: bool) -> OverviewV {
    OverviewV {
        online: s.status.online,
        trusted: s.status.trusted,
        fingerprint: s.status.fingerprint,
        version: s.status.version,
        created: s.status.created,
        locked: s.status.locked,
        session_held: s.session_held,
        projects: match s.names {
            Some(n) => Some(n.len() as u64),
            None => None,
        },
        secrets_total,
        secrets_total_exact: exact,
        agents_active: s.agents,
        runs_active: health_count(s.health, "runs_active"@),
        approvals_pending: health_count(s.health, "approvals_pending"@),
        leases_active: health_count(s.health, "leases_active"@),
        idle_lock_secs: health_count(s.health, "idle_lock_secs"@),
        idle_in: health_count(s.health, "idle_in"@),
        audit_bytes: health_count(s.health, "audit_bytes"@),
        audit_soft_limit: health_count(s.health, "audit_soft_limit"@),
        audit_hard_limit: health_count(s.health, "audit_hard_limit"@),
        vault_bytes: health_count(s.health, "vault_bytes"@),
        vault_max_bytes: health_count(s.health, "vault_max_bytes"@),
    }
}

/// The state alone, without any count.
pub open spec fn posture(status: StatusV, session_held: bool) -> OverviewV {
    shown(fresh(status, session_held), None, false)
}

/// An overview at its start.
pub open spec fn fresh(status: StatusV, session_held: bool) -> MakingV {
    MakingV {
        status,
        session_held,
        health: None,
        names: None,
        agents: None,
        at: 0,
        total: 0,
        stage: Stage::Over,
    }
}

/// The first step: nothing is asked unless the broker is there, trusted and
/// open, and a session is held.
pub open spec fn begun(status: StatusV, session_held: bool) -> (MakingV, ActV) {
    if status.locked || !status.online || !status.trusted || !session_held {
        (fresh(status, session_held), Act::Show(posture(status, session_held)))
    } else {
        (
            MakingV { stage: Stage::Health, ..fresh(status, session_held) },
            Act::Call { op: Operation::VaultHealth, params: json::empty_object() },
        )
    }
}

/// The end, with or without a sum of secrets.
pub open spec fn ended(s: MakingV, secrets_total: Option<u64>, exact: bool) -> (MakingV, ActV) {
    (MakingV { stage: Stage::Over, ..s }, Act::Show(shown(s, secrets_total, exact)))
}

/// The next project whose secrets are counted, or the end.
pub open spec fn counting(s: MakingV) -> (MakingV, ActV) {
    match s.names {
        None => ended(s, None, false),
        Some(names) => if s.at < names.len() && s.at < OVERVIEW_SECRETS_PROJECT_CAP {
            (
                MakingV { stage: Stage::Secrets, ..s },
                Act::Call {
                    op: Operation::SecretsList,
                    params: json::empty_object().with(
                        "project"@,
                        JsonV::Str(names[s.at as int]),
                    ),
                },
            )
        } else {
            ended(s, Some(s.total), names.len() <= OVERVIEW_SECRETS_PROJECT_CAP)
        },
    }
}

/// Whether an answer says that the session has lapsed. It is the first
/// question, for the vault's health, that finds out; a later answer with that
/// code is a failure like any other.
pub open spec fn lapsed(s: MakingV, res: Result<JsonV, CmdErrorV>) -> bool {
    s.stage == Stage::Health && (res matches Err(e) && e.code == "E_SESSION_EXPIRED"@)
}

/// What follows an answer.
pub open spec fn stepped(s: MakingV, res: Result<JsonV, CmdErrorV>) -> (MakingV, ActV) {
    if lapsed(s, res) {
        (MakingV { stage: Stage::Over, ..s }, Act::Fail(res->Err_0))
    } else {
        match s.stage {
            Stage::Health => (
                MakingV {
                    health: match res {
                        Ok(v) => Some(v),
                        Err(_) => None,
                    },
                    stage: Stage::Projects,
                    ..s
                },
                Act::Call { op: Operation::ProjectList, params: json::empty_object() },
            ),
            Stage::Projects => (
                MakingV {
                    names: match res {
                        Ok(v) => Some(names_of(json::items_at(v, "projects"@))),
                        Err(_) => None,
                    },
                    stage: Stage::Agents,
                    ..s
                },
                Act::Call { op: Operation::AgentsList, params: json::empty_object() },
            ),
            Stage::Agents => counting(
                MakingV {
                    agents: match res {
                        Ok(v) => match v.at("agents"@).items() {
                            Some(items) => Some(active_of(items) as u64),
                            None => None,
                        },
                        Err(_) => None,
                    },
                    ..s
                },
            ),
            Stage::Secrets => match res {
                Ok(v) => match v.at("secrets"@).items() {
                    Some(items) => if s.total + items.len() <= u64::MAX {
                        counting(
                            MakingV {
                                at: (s.at + 1) as usize,
                                total: (s.total + items.len()) as u64,
                                ..s
                            },
                        )
                    } else {
                        ended(s, None, false)
                    },
                    None => ended(s, None, false),
                },
                Err(_) => ended(s, None, false),
            },
            Stage::Over => ended(s, None, false),
        }
    }
}

fn read_names(items: &[Json]) -> (r: Vec<String>)
    ensures
        text::texts(r@) == names_of(json::values(items@)),
{
    let ghost all = json::values(items@);
    let mut out: Vec<String> = Vec::new();
    let mut i: usize = 0;
    proof {
        assert(all.take(0) =~= Seq::empty());
        assert(text::texts(out@) =~= Seq::<Seq<char>>::empty());
    }
    while i < items.len()
        invariant
            i <= items@.len(),
            all == json::values(items@),
            text::texts(out@) == names_of(all.take(i as int)),
        decreases items@.len() - i,
    {
        proof {
            assert(all.take(i + 1).drop_last() =~= all.take(i as int));
            assert(all.take(i + 1).last() == items@[i as int]@);
        }
        match items[i].text_at("name") {
            Some(t) => {
                let ghost before = text::texts(out@);
                out.push(t.to_string());
                proof {
                    assert(text::texts(out@) =~= before.push(t@));
                }
            },
            None => {},
        }
        i = i + 1;
    }
    proof {
        assert(all.take(i as int) =~= all);
    }
    out
}

fn count_active(items: &[Json]) -> (r: u64)
    ensures
        r == active_of(json::values(items@)),
        active_of(json::values(items@)) <= items@.len(),
{
    let ghost all = json::values(items@);
    let mut n: u64 = 0;
    let mut i: usize = 0;
    proof {
        assert(all.take(0) =~= Seq::empty());
    }
    while i < items.len()
        invariant
            i <= items@.len(),
            all == json::values(items@),
            n == active_of(all.take(i as int)),
            n <= i,
        decreases items@.len() - i,
    {
        proof {
            assert(all.take(i + 1).drop_last() =~= all.take(i as int));
            assert(all.take(i + 1).last() == items@[i as int]@);
        }
        match items[i].text_at("status") {
            Some(t) => {
                if same(t, "active") {
                    n = n + 1;
                }
            },
            None => {},
        }
        i = i + 1;
    }
    proof {
        assert(all.take(i as int) =~= all);
    }
    n
}

fn count_in(health: &Option<Json>, key: &str) -> (r: Option<u64>)
    ensures
        r == health_count(crate::wire::opt_json(*health), key@),
{
    match health {
        Some(v) => v.uint_at(key),
        None => None,
    }
}

fn copied(t: &Option<String>) -> (r: Option<String>)
    ensures
        json::opt_text(r) == json::opt_text(*t),
{
    match t {
        Some(s) => Some(s.clone()),
        None => None,
    }
}

impl Overview {
    /// Starts an overview from the state of the broker.
    pub fn overview_refresh(status: StatusOut, session_held: bool) -> (r: (
        Overview,
        Act<Json, OverviewOut, CmdError>,
    ))
        ensures
            (r.0@, act_value(r.1)) == begun(status@, session_held),
    {
        let ask = !status.locked && status.online && status.trusted && session_held;
        let mut o = Overview {
            status,
            session_held,
            health: None,
            names: None,
            agents: None,
            at: 0,
            total: 0,
            stage: Stage::Over,
        };
        if ask {
            o.stage = Stage::Health;
            (o, Act::Call { op: Operation::VaultHealth, params: Json::object() })
        } else {
            let act = o.end(None, false);
            (o, act)
        }
    }

    fn end(&mut self, secrets_total: Option<u64>, secrets_total_exact: bool) -> (r: Act<
        Json,
        OverviewOut,
        CmdError,
    >)
        ensures
            (final(self)@, act_value(r)) == ended(old(self)@, secrets_total, secrets_total_exact),
    {
        self.stage = Stage::Over;
        let projects = match &self.names {
            Some(n) => {
                assert(text::texts(n@).len() == n@.len());
                Some(n.len() as u64)
            },
            None => None,
        };
        Act::Show(
            OverviewOut {
                online: self.status.online,
                trusted: self.status.trusted,
                fingerprint: copied(&self.status.fingerprint),
                version: self.status.version,
                created: self.status.created.clone(),
                locked: self.status.locked,
                session_held: self.session_held,
                projects,
                secrets_total,
                secrets_total_exact,
                agents_active: self.agents,
                runs_active: count_in(&self.health, "runs_active"),
                approvals_pending: count_in(&self.health, "approvals_pending"),
                leases_active: count_in(&self.health, "leases_active"),
                idle_lock_secs: count_in(&self.health, "idle_lock_secs"),
                idle_in: count_in(&self.health, "idle_in"),
                audit_bytes: count_in(&self.health, "audit_bytes"),
                audit_soft_limit: count_in(&self.health, "audit_soft_limit"),
                audit_hard_limit: count_in(&self.health, "audit_hard_limit"),
                vault_bytes: count_in(&self.health, "vault_bytes"),
                vault_max_bytes: count_in(&self.health, "vault_max_bytes"),
            },
        )
    }

    fn count_on(&mut self) -> (r: Act<Json, OverviewOut, CmdError>)
        ensures
            (final(self)@, act_value(r)) == counting(old(self)@),
    {
        let (known, name, exact) = match &self.names {
            Some(n) => {
                assert(text::texts(n@).len() == n@.len());
                if self.at < n.len() && self.at < OVERVIEW_SECRETS_PROJECT_CAP {
                    assert(text::texts(n@)[self.at as int] == n@[self.at as int]@);
                    (true, Some(n[self.at].clone()), false)
                } else {
                    (true, None, n.len() <= OVERVIEW_SECRETS_PROJECT_CAP)
                }
            },
            None => (false, None, false),
        };
        match name {
            Some(project) => {
                self.stage = Stage::Secrets;
                let mut params = Json::object();
                params.put("project", Json::Str(project));
                Act::Call { op: Operation::SecretsList, params }
            },
            None => {
                let total = if known {
                    Some(self.total)
                } else {
                    None
                };
                self.end(total, exact)
            },
        }
    }

    /// Takes an answer and gives the next step.
    pub fn step(&mut self, res: Result<Json, CmdError>) -> (r: Act<Json, OverviewOut, CmdError>)
        requires
            old(self)@.stage == Stage::Secrets ==> old(self)@.at < OVERVIEW_SECRETS_PROJECT_CAP,
        ensures
            (final(self)@, act_value(r)) == stepped(old(self)@, dashboard::answer_value(res)),
            final(self)@.stage == Stage::Secrets ==> final(self)@.at
                < OVERVIEW_SECRETS_PROJECT_CAP,
    {
        let answer = match res {
            Ok(v) => Some(v),
            Err(e) => {
                let first = match self.stage {
                    Stage::Health => true,
                    _ => false,
                };
                if first && same(&e.code, "E_SESSION_EXPIRED") {
                    self.stage = Stage::Over;
                    return Act::Fail(e);
                }
                None
            },
        };
        match self.stage {
            Stage::Health => {
                self.health = answer;
                self.stage = Stage::Projects;
                Act::Call { op: Operation::ProjectList, params: Json::object() }
            },
            Stage::Projects => {
                self.names = match answer {
                    Some(v) => match v.array_at("projects") {
                        Some(items) => Some(read_names(items.as_slice())),
                        None => {
                            let none: Vec<String> = Vec::new();
                            assert(text::texts(none@) =~= Seq::<Seq<char>>::empty());
                            Some(none)
                        },
                    },
                    None => None,
                };
                self.stage = Stage::Agents;
                Act::Call { op: Operation::AgentsList, params: Json::object() }
            },
            Stage::Agents => {
                self.agents = match answer {
                    Some(v) => match v.array_at("agents") {
                        Some(items) => Some(count_active(items.as_slice())),
                        None => None,
                    },
                    None => None,
                };
                self.count_on()
            },
            Stage::Secrets => {
                let more: Option<u64> = match answer {
                    Some(v) => match v.array_at("secrets") {
                        Some(items) => Some(items.len() as u64),
                        None => None,
                    },
                    None => None,
                };
                match more {
                    Some(n) => match self.total.checked_add(n) {
                        Some(total) => {
                            self.total = total;
                            self.at = self.at + 1;
                            self.count_on()
                        },
                        None => self.end(None, false),
                    },
                    None => self.end(None, false),
                }
            },
            Stage::Over => self.end(None, false),
        }
    }
}

/// The state of the broker alone, without any count.
pub fn posture_only(status: StatusOut, session_held: bool) -> (r: OverviewOut)
    ensures
        r@ == posture(status@, session_held),
{
    OverviewOut {
        online: status.online,
        trusted: status.trusted,
        fingerprint: status.fingerprint,
        version: status.version,
        created: status.created,
        locked: status.locked,
        session_held,
        projects: None,
        secrets_total: None,
        secrets_total_exact: false,
        agents_active: None,
        runs_active: None,
        approvals_pending: None,
        leases_active: None,
        idle_lock_secs: None,
        idle_in: None,
        audit_bytes: None,
        audit_soft_limit: None,
        audit_hard_limit: None,
        vault_bytes: None,
        vault_max_bytes: None,
    }
}

// ----------------------------------------------------------------------- laws
/// Nothing is asked of a broker that is locked, absent or not trusted, and no
/// count is shown of it.
pub proof fn law_posture_gates_the_questions(status: StatusV, session_held: bool)
    requires
        status.locked || !status.online || !status.trusted || !session_held,
    ensures
        begun(status, session_held).1 == ActV::Show(posture(status, session_held)),
        posture(status, session_held).projects is None,
        posture(status, session_held).secrets_total is None,
        posture(status, session_held).agents_active is None,
        posture(status, session_held).runs_active is None,
{
}

/// A session that has lapsed by the first question ends the overview with the
/// broker's own refusal.
pub proof fn law_lapsed_session_is_told(s: MakingV, e: CmdErrorV)
    requires
        s.stage == Stage::Health,
        e.code == "E_SESSION_EXPIRED"@,
    ensures
        stepped(s, Err(e)).1 == ActV::Fail(e),
{
}

/// Any other failure leaves the overview standing, and what it would have
/// counted is unknown.
pub proof fn law_failures_leave_counts_unknown(s: MakingV, e: CmdErrorV)
    requires
        s.stage == Stage::Health ==> e.code != "E_SESSION_EXPIRED"@,
    ensures
        !(stepped(s, Err(e)).1 is Fail),
        s.stage == Stage::Health ==> stepped(s, Err(e)).0.health is None,
        s.stage == Stage::Projects ==> stepped(s, Err(e)).0.names is None,
        s.stage == Stage::Agents ==> stepped(s, Err(e)).0.agents is None,
        s.stage == Stage::Secrets ==> (stepped(s, Err(e)).1 matches Act::Show(o)
            && o.secrets_total is None && !o.secrets_total_exact),
{
}

/// The secrets of a bounded number of projects are asked for, and a sum over
/// fewer than all of them is never called exact.
pub proof fn law_fan_out_is_bounded(s: MakingV)
    ensures
        counting(s).1 is Call ==> s.at < OVERVIEW_SECRETS_PROJECT_CAP,
        counting(s).1 matches Act::Show(o) ==> (o.secrets_total_exact ==> (s.names matches Some(n)
            && n.len() <= OVERVIEW_SECRETS_PROJECT_CAP && n.len() <= s.at)),
{
}

/// What stands for a value stands for all of it: the same variant, with every part.
pub proof fn law_act_value_is_faithful(a: Act<Json, OverviewOut, CmdError>)
    ensures
        match (a, act_value(a)) {
            (
                Act::Call { op, params },
                Act::Call { op: op_v, params: params_v },
            ) => op_v == op
                && params_v == params@,
            (Act::Show(o), Act::Show(v0)) => v0 == o@,
            (Act::Fail(e), Act::Fail(v0)) => v0 == e@,
            _ => false,
        },
{
}

/// What stands for a value stands for all of it, part by part.
pub proof fn law_the_view_of_overview_out_is_faithful(x: OverviewOut)
    ensures
        x@.online == x.online,
        x@.trusted == x.trusted,
        x@.fingerprint == json::opt_text(x.fingerprint),
        x@.version == x.version,
        x@.created == x.created@,
        x@.locked == x.locked,
        x@.session_held == x.session_held,
        x@.projects == x.projects,
        x@.secrets_total == x.secrets_total,
        x@.secrets_total_exact == x.secrets_total_exact,
        x@.agents_active == x.agents_active,
        x@.runs_active == x.runs_active,
        x@.approvals_pending == x.approvals_pending,
        x@.leases_active == x.leases_active,
        x@.idle_lock_secs == x.idle_lock_secs,
        x@.idle_in == x.idle_in,
        x@.audit_bytes == x.audit_bytes,
        x@.audit_soft_limit == x.audit_soft_limit,
        x@.audit_hard_limit == x.audit_hard_limit,
        x@.vault_bytes == x.vault_bytes,
        x@.vault_max_bytes == x.vault_max_bytes,
{
}

} // verus!

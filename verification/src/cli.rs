//! The command line: what a command asks of the broker, with which credential,
//! and what is printed of the answer.
//!
//! Passphrases and secret values come from a terminal, or with a warning from
//! a file; tokens and lease credentials come from a descriptor, a file or the
//! environment. None of them is an argument of a command.

use vstd::prelude::*;

use crate::broker::ops::{self, Operation};
use crate::client::{self, Auth, BrokerError, BrokerErrorV};
use crate::error::{Fault, VaultError};
use crate::json::{self, Json, JsonV};
use crate::text::{self, joined, same};
use crate::wire::{self, AuthV};

pub mod errand;
pub mod errand_laws;
pub mod grammar;
pub mod grammar_laws;
pub mod launch;
pub mod laws;
pub mod trust;

verus! {

/// The idle window in seconds, unless another one is asked for.
pub const DEFAULT_IDLE_LOCK_SECS: u64 = 900;

/// A command that asks the broker for something, over texts `S` and lists of
/// texts `L`.
#[allow(inconsistent_fields)]
pub enum Command<S, L> {
    /// Create a vault.
    Init,
    /// Show the metadata and the lock state.
    Status,
    /// Unlock the session of the daemon.
    Unlock,
    /// Lock the session of the daemon.
    Lock,
    /// Create a project with authorized folders.
    ProjectAdd { name: S, paths: L },
    /// List the projects.
    ProjectList,
    /// Add an authorized folder.
    ProjectPathAdd { name: S, path: S },
    /// Remove an authorized folder.
    ProjectPathRemove { name: S, path: S },
    /// Remove a project.
    ProjectRemove { name: S },
    /// Create or update a secret.
    SecretSet { project: S, key: S },
    /// List the names of the secrets.
    SecretList { project: S },
    /// Delete a secret.
    SecretDelete { project: S, key: S },
    /// Enroll an agent.
    AgentAdd { name: S },
    /// Revoke an agent.
    AgentRevoke { name: S },
    /// List the agents.
    AgentList,
    /// Grant operations to an agent.
    GrantAdd { agent: S, project: S, ops: S },
    /// Revoke a grant.
    GrantRevoke { agent: S, project: S },
    /// List the grants.
    GrantList,
    /// Show the last audit entries.
    AuditShow { tail: u64 },
    /// Verify the audit chain.
    AuditVerify,
    /// Signal a run.
    RunSignal { run_id: S, signal: S },
    /// Create a lease.
    LeaseCreate { project: S, ops: S, ttl_secs: u64 },
    /// List leases.
    LeaseList,
    /// Revoke a lease.
    LeaseRevoke { lease_id: S },
    /// Reveal a secret.
    Reveal { project: S, key: S, approval_id: Option<S> },
    /// Write secrets to a file.
    Inject { project: S, path: S, keys: L },
    /// Ask for the state of an approval.
    ApprovalStatus { approval_id: S },
    /// List the pending approvals.
    ApprovalPending,
    /// Approve a reveal.
    ApprovalApprove { approval_id: S },
    /// Deny a reveal.
    ApprovalDeny { approval_id: S },
}

pub type Cmd = Command<String, Vec<String>>;

pub type CmdV = Command<Seq<char>, Seq<Seq<char>>>;

/// The mathematical value of a command.
pub open spec fn command_value(c: Cmd) -> CmdV {
    match c {
        Command::Init => Command::Init,
        Command::Status => Command::Status,
        Command::Unlock => Command::Unlock,
        Command::Lock => Command::Lock,
        Command::ProjectAdd { name, paths } => Command::ProjectAdd {
            name: name@,
            paths: text::texts(paths@),
        },
        Command::ProjectList => Command::ProjectList,
        Command::ProjectPathAdd { name, path } => Command::ProjectPathAdd {
            name: name@,
            path: path@,
        },
        Command::ProjectPathRemove { name, path } => Command::ProjectPathRemove {
            name: name@,
            path: path@,
        },
        Command::ProjectRemove { name } => Command::ProjectRemove { name: name@ },
        Command::SecretSet { project, key } => Command::SecretSet { project: project@, key: key@ },
        Command::SecretList { project } => Command::SecretList { project: project@ },
        Command::SecretDelete { project, key } => Command::SecretDelete {
            project: project@,
            key: key@,
        },
        Command::AgentAdd { name } => Command::AgentAdd { name: name@ },
        Command::AgentRevoke { name } => Command::AgentRevoke { name: name@ },
        Command::AgentList => Command::AgentList,
        Command::GrantAdd { agent, project, ops } => Command::GrantAdd {
            agent: agent@,
            project: project@,
            ops: ops@,
        },
        Command::GrantRevoke { agent, project } => Command::GrantRevoke {
            agent: agent@,
            project: project@,
        },
        Command::GrantList => Command::GrantList,
        Command::AuditShow { tail } => Command::AuditShow { tail },
        Command::AuditVerify => Command::AuditVerify,
        Command::RunSignal { run_id, signal } => Command::RunSignal {
            run_id: run_id@,
            signal: signal@,
        },
        Command::LeaseCreate { project, ops, ttl_secs } => Command::LeaseCreate {
            project: project@,
            ops: ops@,
            ttl_secs,
        },
        Command::LeaseList => Command::LeaseList,
        Command::LeaseRevoke { lease_id } => Command::LeaseRevoke { lease_id: lease_id@ },
        Command::Reveal { project, key, approval_id } => Command::Reveal {
            project: project@,
            key: key@,
            approval_id: json::opt_text(approval_id),
        },
        Command::Inject { project, path, keys } => Command::Inject {
            project: project@,
            path: path@,
            keys: text::texts(keys@),
        },
        Command::ApprovalStatus { approval_id } => Command::ApprovalStatus {
            approval_id: approval_id@,
        },
        Command::ApprovalPending => Command::ApprovalPending,
        Command::ApprovalApprove { approval_id } => Command::ApprovalApprove {
            approval_id: approval_id@,
        },
        Command::ApprovalDeny { approval_id } => Command::ApprovalDeny {
            approval_id: approval_id@,
        },
    }
}

/// Which credential a command presents.
#[derive(Clone, Copy, Debug, PartialEq, Eq, Structural)]
pub enum Need {
    /// None: the answer is public.
    Nobody,
    /// None, but a new passphrase goes with the request.
    NewPassphrase,
    /// The passphrase.
    Human,
    /// The agent token.
    Agent,
    /// The agent token where there is one, and the passphrase otherwise.
    Either,
}

/// The operation of a command.
pub open spec fn operation_of(c: CmdV) -> Operation {
    match c {
        Command::Init => Operation::VaultCreate,
        Command::Status => Operation::VaultStatus,
        Command::Unlock => Operation::VaultUnlock,
        Command::Lock => Operation::VaultLock,
        Command::ProjectAdd { .. } => Operation::ProjectAdd,
        Command::ProjectList => Operation::ProjectList,
        Command::ProjectPathAdd { .. } => Operation::ProjectPathAdd,
        Command::ProjectPathRemove { .. } => Operation::ProjectPathRemove,
        Command::ProjectRemove { .. } => Operation::ProjectRemove,
        Command::SecretSet { .. } => Operation::SecretSet,
        Command::SecretList { .. } => Operation::SecretsList,
        Command::SecretDelete { .. } => Operation::SecretDelete,
        Command::AgentAdd { .. } => Operation::AgentsAdd,
        Command::AgentRevoke { .. } => Operation::AgentsRevoke,
        Command::AgentList => Operation::AgentsList,
        Command::GrantAdd { .. } => Operation::GrantsGrant,
        Command::GrantRevoke { .. } => Operation::GrantsRevoke,
        Command::GrantList => Operation::GrantsList,
        Command::AuditShow { .. } => Operation::AuditShow,
        Command::AuditVerify => Operation::AuditVerify,
        Command::RunSignal { .. } => Operation::RunSignal,
        Command::LeaseCreate { .. } => Operation::LeaseCreate,
        Command::LeaseList => Operation::LeaseList,
        Command::LeaseRevoke { .. } => Operation::LeaseRevoke,
        Command::Reveal { .. } => Operation::Reveal,
        Command::Inject { .. } => Operation::InjectFile,
        Command::ApprovalStatus { .. } => Operation::ApprovalsStatus,
        Command::ApprovalPending => Operation::ApprovalsPending,
        Command::ApprovalApprove { .. } => Operation::ApprovalsApprove,
        Command::ApprovalDeny { .. } => Operation::ApprovalsDeny,
    }
}

/// The credential of a command.
pub open spec fn need_of(c: CmdV) -> Need {
    match c {
        Command::Init => Need::NewPassphrase,
        Command::Status => Need::Nobody,
        Command::Unlock => Need::Human,
        Command::Lock => Need::Either,
        Command::ProjectAdd { .. } => Need::Human,
        Command::ProjectList => Need::Human,
        Command::ProjectPathAdd { .. } => Need::Human,
        Command::ProjectPathRemove { .. } => Need::Human,
        Command::ProjectRemove { .. } => Need::Human,
        Command::SecretSet { .. } => Need::Human,
        Command::SecretList { .. } => Need::Either,
        Command::SecretDelete { .. } => Need::Human,
        Command::AgentAdd { .. } => Need::Human,
        Command::AgentRevoke { .. } => Need::Human,
        Command::AgentList => Need::Human,
        Command::GrantAdd { .. } => Need::Human,
        Command::GrantRevoke { .. } => Need::Human,
        Command::GrantList => Need::Human,
        Command::AuditShow { .. } => Need::Human,
        Command::AuditVerify => Need::Human,
        Command::RunSignal { .. } => Need::Agent,
        Command::LeaseCreate { .. } => Need::Agent,
        Command::LeaseList => Need::Either,
        Command::LeaseRevoke { .. } => Need::Either,
        Command::Reveal { .. } => Need::Either,
        Command::Inject { .. } => Need::Agent,
        Command::ApprovalStatus { .. } => Need::Agent,
        Command::ApprovalPending => Need::Human,
        Command::ApprovalApprove { .. } => Need::Human,
        Command::ApprovalDeny { .. } => Need::Human,
    }
}

/// Gives the operation of a command.
pub fn operation(c: &Cmd) -> (r: Operation)
    ensures
        r == operation_of(command_value(*c)),
{
    match c {
        Command::Init => Operation::VaultCreate,
        Command::Status => Operation::VaultStatus,
        Command::Unlock => Operation::VaultUnlock,
        Command::Lock => Operation::VaultLock,
        Command::ProjectAdd { .. } => Operation::ProjectAdd,
        Command::ProjectList => Operation::ProjectList,
        Command::ProjectPathAdd { .. } => Operation::ProjectPathAdd,
        Command::ProjectPathRemove { .. } => Operation::ProjectPathRemove,
        Command::ProjectRemove { .. } => Operation::ProjectRemove,
        Command::SecretSet { .. } => Operation::SecretSet,
        Command::SecretList { .. } => Operation::SecretsList,
        Command::SecretDelete { .. } => Operation::SecretDelete,
        Command::AgentAdd { .. } => Operation::AgentsAdd,
        Command::AgentRevoke { .. } => Operation::AgentsRevoke,
        Command::AgentList => Operation::AgentsList,
        Command::GrantAdd { .. } => Operation::GrantsGrant,
        Command::GrantRevoke { .. } => Operation::GrantsRevoke,
        Command::GrantList => Operation::GrantsList,
        Command::AuditShow { .. } => Operation::AuditShow,
        Command::AuditVerify => Operation::AuditVerify,
        Command::RunSignal { .. } => Operation::RunSignal,
        Command::LeaseCreate { .. } => Operation::LeaseCreate,
        Command::LeaseList => Operation::LeaseList,
        Command::LeaseRevoke { .. } => Operation::LeaseRevoke,
        Command::Reveal { .. } => Operation::Reveal,
        Command::Inject { .. } => Operation::InjectFile,
        Command::ApprovalStatus { .. } => Operation::ApprovalsStatus,
        Command::ApprovalPending => Operation::ApprovalsPending,
        Command::ApprovalApprove { .. } => Operation::ApprovalsApprove,
        Command::ApprovalDeny { .. } => Operation::ApprovalsDeny,
    }
}

/// Gives the credential of a command.
pub fn need(c: &Cmd) -> (r: Need)
    ensures
        r == need_of(command_value(*c)),
{
    match c {
        Command::Init => Need::NewPassphrase,
        Command::Status => Need::Nobody,
        Command::Unlock => Need::Human,
        Command::Lock => Need::Either,
        Command::ProjectAdd { .. } => Need::Human,
        Command::ProjectList => Need::Human,
        Command::ProjectPathAdd { .. } => Need::Human,
        Command::ProjectPathRemove { .. } => Need::Human,
        Command::ProjectRemove { .. } => Need::Human,
        Command::SecretSet { .. } => Need::Human,
        Command::SecretList { .. } => Need::Either,
        Command::SecretDelete { .. } => Need::Human,
        Command::AgentAdd { .. } => Need::Human,
        Command::AgentRevoke { .. } => Need::Human,
        Command::AgentList => Need::Human,
        Command::GrantAdd { .. } => Need::Human,
        Command::GrantRevoke { .. } => Need::Human,
        Command::GrantList => Need::Human,
        Command::AuditShow { .. } => Need::Human,
        Command::AuditVerify => Need::Human,
        Command::RunSignal { .. } => Need::Agent,
        Command::LeaseCreate { .. } => Need::Agent,
        Command::LeaseList => Need::Either,
        Command::LeaseRevoke { .. } => Need::Either,
        Command::Reveal { .. } => Need::Either,
        Command::Inject { .. } => Need::Agent,
        Command::ApprovalStatus { .. } => Need::Agent,
        Command::ApprovalPending => Need::Human,
        Command::ApprovalApprove { .. } => Need::Human,
        Command::ApprovalDeny { .. } => Need::Human,
    }
}

/// How the passphrase is asked for.
#[derive(Clone, Copy, Debug, PartialEq, Eq, Structural)]
pub enum Prompt {
    Never,
    Once,
    /// Twice, and both must be the same.
    Confirmed,
}

/// How the passphrase is asked for by a command.
pub open spec fn prompt_of(need: Need, has_token: bool) -> Prompt {
    match need {
        Need::NewPassphrase => Prompt::Confirmed,
        Need::Human => Prompt::Once,
        Need::Either => if has_token {
            Prompt::Never
        } else {
            Prompt::Once
        },
        Need::Nobody | Need::Agent => Prompt::Never,
    }
}

/// Tells how the passphrase is asked for.
pub fn prompt(need: Need, has_token: bool) -> (r: Prompt)
    ensures
        r == prompt_of(need, has_token),
{
    match need {
        Need::NewPassphrase => Prompt::Confirmed,
        Need::Human => Prompt::Once,
        Need::Either => if has_token {
            Prompt::Never
        } else {
            Prompt::Once
        },
        Need::Nobody | Need::Agent => Prompt::Never,
    }
}

/// The credential that is presented: an agent command without a token is
/// denied like one without a grant.
pub open spec fn presented_auth(
    need: Need,
    token: Option<Seq<char>>,
    passphrase: Option<Seq<char>>,
) -> Result<AuthV, Fault> {
    match (need, token, passphrase) {
        (Need::Nobody | Need::NewPassphrase, _, _) => Ok(wire::no_auth()),
        (Need::Agent | Need::Either, Some(t), _) => Ok(
            AuthV { token: Some(t), passphrase: None, session: None },
        ),
        (Need::Agent, None, _) => Err(Fault::Permission),
        (Need::Human | Need::Either, _, Some(p)) => Ok(
            AuthV { token: None, passphrase: Some(p), session: None },
        ),
        (Need::Human | Need::Either, _, None) => Err(Fault::HumanRequired),
    }
}

/// Requires an agent token.
pub fn agent_auth(token: Option<&str>) -> (r: Result<Auth, VaultError>)
    ensures
        match r {
            Ok(a) => token is Some && client::auth_value(a) == (AuthV {
                token: json::opt_str(token),
                passphrase: None,
                session: None,
            }),
            Err(e) => token is None && e@ == Fault::Permission,
        },
{
    match token {
        Some(t) => Ok(Auth::AgentToken(t.to_string())),
        None => Err(VaultError::Permission),
    }
}

/// Requires the passphrase of a person.
pub fn human_auth(passphrase: Option<&str>) -> (r: Result<Auth, VaultError>)
    ensures
        match r {
            Ok(a) => passphrase is Some && client::auth_value(a) == (AuthV {
                token: None,
                passphrase: json::opt_str(passphrase),
                session: None,
            }),
            Err(e) => passphrase is None && e@ == Fault::HumanRequired,
        },
{
    match passphrase {
        Some(p) => Ok(Auth::Passphrase(p.to_string())),
        None => Err(VaultError::HumanRequired),
    }
}

/// Gives the credential that a command presents.
pub fn credential(need: Need, token: Option<&str>, passphrase: Option<&str>) -> (r: Result<
    Auth,
    VaultError,
>)
    ensures
        match r {
            Ok(a) => presented_auth(need, json::opt_str(token), json::opt_str(passphrase)) == Ok::<
                AuthV,
                Fault,
            >(client::auth_value(a)),
            Err(e) => presented_auth(need, json::opt_str(token), json::opt_str(passphrase))
                == Err::<AuthV, Fault>(e@),
        },
{
    match need {
        Need::Nobody | Need::NewPassphrase => Ok(Auth::Anonymous),
        Need::Agent => agent_auth(token),
        Need::Human => human_auth(passphrase),
        Need::Either => match token {
            Some(t) => Ok(Auth::AgentToken(t.to_string())),
            None => human_auth(passphrase),
        },
    }
}

/// A command for agents never presents a passphrase, and a command for people
/// never presents a token.
pub proof fn law_credentials_do_not_mix(
    need: Need,
    token: Option<Seq<char>>,
    passphrase: Option<Seq<char>>,
)
    ensures
        presented_auth(need, token, passphrase) matches Ok(a) ==> {
            &&& need == Need::Agent ==> a.passphrase is None && a.token == token && token is Some
            &&& need == Need::Human ==> a.token is None && a.passphrase == passphrase
                && passphrase is Some
            &&& need == Need::Either && token is Some ==> a.passphrase is None && a.token == token
            &&& a.session is None
        },
{
}

/// The commands of agents are operations that agents may ask for, and the
/// operations of people are asked for by people.
pub proof fn law_commands_fit_their_operations(c: CmdV)
    ensures
        need_of(c) == Need::Agent || need_of(c) == Need::Either ==> !operation_of(
            c,
        ).is_human_only(),
        ops::operation_named(operation_of(c).wire_name()) == Some(operation_of(c)),
{
    ops::law_names_identify_operations(operation_of(c).wire_name(), operation_of(c));
}

/// What a command needs besides its arguments.
pub struct Inputs<'a> {
    pub passphrase: Option<&'a str>,
    pub value: Option<&'a str>,
    pub lease: Option<&'a str>,
}

/// The mathematical value of [`Inputs`].
pub struct InputsV {
    pub passphrase: Seq<char>,
    pub value: Seq<char>,
    pub lease: Seq<char>,
}

/// A text that counts as empty where there is none.
pub open spec fn or_empty(t: Option<&str>) -> Seq<char> {
    match t {
        Some(s) => s@,
        None => Seq::empty(),
    }
}

pub open spec fn inputs_value(i: Inputs) -> InputsV {
    InputsV {
        passphrase: or_empty(i.passphrase),
        value: or_empty(i.value),
        lease: or_empty(i.lease),
    }
}

fn given(t: Option<&str>) -> (r: String)
    ensures
        r@ == or_empty(t),
{
    match t {
        Some(s) => s.to_string(),
        None => String::new(),
    }
}

/// Parameters with the lease credential, if one is presented.
pub open spec fn lease_params(params: JsonV, lease: Seq<char>) -> JsonV {
    if lease.len() > 0 {
        params.with("lease"@, JsonV::Str(lease))
    } else {
        params
    }
}

/// Adds the lease credential, if one is presented.
pub fn lease_scoped(params: &mut Json, lease: Option<&str>)
    ensures
        final(params)@ == lease_params(old(params)@, or_empty(lease)),
{
    match lease {
        Some(l) => {
            if !l.is_empty() {
                params.put("lease", Json::string(l));
            }
        },
        None => {},
    }
}

/// Whether a command is narrowed by a lease, where one is presented.
pub open spec fn lease_wanted(c: CmdV) -> bool {
    c is SecretList || c is Reveal || c is Inject
}

/// Whether a command takes a secret value.
pub open spec fn value_wanted(c: CmdV) -> bool {
    c is SecretSet
}

/// Tells whether the lease credential is read for a command.
pub fn wants_lease(c: &Cmd) -> (r: bool)
    ensures
        r == lease_wanted(command_value(*c)),
{
    match c {
        Command::SecretList { .. } => true,
        Command::Reveal { .. } => true,
        Command::Inject { .. } => true,
        _ => false,
    }
}

/// Tells whether a secret value is read for a command.
pub fn wants_value(c: &Cmd) -> (r: bool)
    ensures
        r == value_wanted(command_value(*c)),
{
    match c {
        Command::SecretSet { .. } => true,
        _ => false,
    }
}

/// The parameters of a command.
pub open spec fn params_of(c: CmdV, i: InputsV) -> JsonV {
    match c {
        Command::Init => json::empty_object().with("passphrase"@, JsonV::Str(i.passphrase)),
        Command::Status => json::empty_object(),
        Command::Unlock => json::empty_object(),
        Command::Lock => json::empty_object(),
        Command::ProjectAdd { name, paths } => json::empty_object()
            .with("name"@, JsonV::Str(name))
            .with("paths"@, json::text_array(paths)),
        Command::ProjectList => json::empty_object(),
        Command::ProjectPathAdd { name, path } => json::empty_object()
            .with("name"@, JsonV::Str(name))
            .with("path"@, JsonV::Str(path)),
        Command::ProjectPathRemove { name, path } => json::empty_object()
            .with("name"@, JsonV::Str(name))
            .with("path"@, JsonV::Str(path)),
        Command::ProjectRemove { name } => json::empty_object().with("name"@, JsonV::Str(name)),
        Command::SecretSet { project, key } => json::empty_object()
            .with("project"@, JsonV::Str(project))
            .with("key"@, JsonV::Str(key))
            .with("value"@, JsonV::Str(i.value)),
        Command::SecretList { project } => lease_params(
            json::empty_object().with("project"@, JsonV::Str(project)),
            i.lease,
        ),
        Command::SecretDelete { project, key } => json::empty_object()
            .with("project"@, JsonV::Str(project))
            .with("key"@, JsonV::Str(key)),
        Command::AgentAdd { name } => json::empty_object().with("name"@, JsonV::Str(name)),
        Command::AgentRevoke { name } => json::empty_object().with("name"@, JsonV::Str(name)),
        Command::AgentList => json::empty_object(),
        Command::GrantAdd { agent, project, ops } => json::empty_object()
            .with("agent"@, JsonV::Str(agent))
            .with("project"@, JsonV::Str(project))
            .with("ops"@, JsonV::Str(ops)),
        Command::GrantRevoke { agent, project } => json::empty_object()
            .with("agent"@, JsonV::Str(agent))
            .with("project"@, JsonV::Str(project)),
        Command::GrantList => json::empty_object(),
        Command::AuditShow { tail } => json::empty_object().with("tail"@, JsonV::UInt(tail)),
        Command::AuditVerify => json::empty_object(),
        Command::RunSignal { run_id, signal } => json::empty_object()
            .with("run_id"@, JsonV::Str(run_id))
            .with("signal"@, JsonV::Str(signal)),
        Command::LeaseCreate { project, ops, ttl_secs } => json::empty_object()
            .with("project"@, JsonV::Str(project))
            .with("ops"@, JsonV::Str(ops))
            .with("ttl_secs"@, JsonV::UInt(ttl_secs)),
        Command::LeaseList => json::empty_object(),
        Command::LeaseRevoke { lease_id } => json::empty_object().with(
            "lease_id"@,
            JsonV::Str(lease_id),
        ),
        Command::Reveal { project, key, approval_id } => {
            let p = lease_params(
                json::empty_object().with("project"@, JsonV::Str(project)).with(
                    "key"@,
                    JsonV::Str(key),
                ),
                i.lease,
            );
            match approval_id {
                Some(a) => p.with("approval_id"@, JsonV::Str(a)),
                None => p,
            }
        },
        Command::Inject { project, path, keys } => {
            let p = json::empty_object().with("project"@, JsonV::Str(project)).with(
                "path"@,
                JsonV::Str(path),
            );
            lease_params(
                if keys.len() > 0 {
                    p.with("keys"@, json::text_array(keys))
                } else {
                    p
                },
                i.lease,
            )
        },
        Command::ApprovalStatus { approval_id } => json::empty_object().with(
            "approval_id"@,
            JsonV::Str(approval_id),
        ),
        Command::ApprovalPending => json::empty_object(),
        Command::ApprovalApprove { approval_id } => json::empty_object().with(
            "approval_id"@,
            JsonV::Str(approval_id),
        ),
        Command::ApprovalDeny { approval_id } => json::empty_object().with(
            "approval_id"@,
            JsonV::Str(approval_id),
        ),
    }
}

/// What is not wanted is not used: the parameters of a command depend on the
/// lease and on the value only where they are read for it.
pub proof fn law_unread_inputs_do_not_matter(c: CmdV, i: InputsV, j: InputsV)
    requires
        i.passphrase == j.passphrase,
        lease_wanted(c) ==> i.lease == j.lease,
        value_wanted(c) ==> i.value == j.value,
    ensures
        params_of(c, i) == params_of(c, j),
{
}

/// Builds the parameters of a command.
pub fn params(c: &Cmd, i: &Inputs) -> (r: Json)
    ensures
        r@ == params_of(command_value(*c), inputs_value(*i)),
{
    let mut j = Json::object();
    match c {
        Command::Init => {
            j.put("passphrase", Json::Str(given(i.passphrase)));
        },
        Command::Status => {},
        Command::Unlock => {},
        Command::Lock => {},
        Command::ProjectAdd { name, paths } => {
            j.put("name", Json::string(name));
            j.put("paths", Json::strings(paths.as_slice()));
        },
        Command::ProjectList => {},
        Command::ProjectPathAdd { name, path } => {
            j.put("name", Json::string(name));
            j.put("path", Json::string(path));
        },
        Command::ProjectPathRemove { name, path } => {
            j.put("name", Json::string(name));
            j.put("path", Json::string(path));
        },
        Command::ProjectRemove { name } => {
            j.put("name", Json::string(name));
        },
        Command::SecretSet { project, key } => {
            j.put("project", Json::string(project));
            j.put("key", Json::string(key));
            j.put("value", Json::Str(given(i.value)));
        },
        Command::SecretList { project } => {
            j.put("project", Json::string(project));
            lease_scoped(&mut j, i.lease);
        },
        Command::SecretDelete { project, key } => {
            j.put("project", Json::string(project));
            j.put("key", Json::string(key));
        },
        Command::AgentAdd { name } => {
            j.put("name", Json::string(name));
        },
        Command::AgentRevoke { name } => {
            j.put("name", Json::string(name));
        },
        Command::AgentList => {},
        Command::GrantAdd { agent, project, ops } => {
            j.put("agent", Json::string(agent));
            j.put("project", Json::string(project));
            j.put("ops", Json::string(ops));
        },
        Command::GrantRevoke { agent, project } => {
            j.put("agent", Json::string(agent));
            j.put("project", Json::string(project));
        },
        Command::GrantList => {},
        Command::AuditShow { tail } => {
            j.put("tail", Json::UInt(*tail));
        },
        Command::AuditVerify => {},
        Command::RunSignal { run_id, signal } => {
            j.put("run_id", Json::string(run_id));
            j.put("signal", Json::string(signal));
        },
        Command::LeaseCreate { project, ops, ttl_secs } => {
            j.put("project", Json::string(project));
            j.put("ops", Json::string(ops));
            j.put("ttl_secs", Json::UInt(*ttl_secs));
        },
        Command::LeaseList => {},
        Command::LeaseRevoke { lease_id } => {
            j.put("lease_id", Json::string(lease_id));
        },
        Command::Reveal { project, key, approval_id } => {
            j.put("project", Json::string(project));
            j.put("key", Json::string(key));
            lease_scoped(&mut j, i.lease);
            match approval_id {
                Some(a) => {
                    j.put("approval_id", Json::string(a));
                },
                None => {},
            }
        },
        Command::Inject { project, path, keys } => {
            j.put("project", Json::string(project));
            j.put("path", Json::string(path));
            proof {
                assert(text::texts(keys@).len() == keys@.len());
            }
            if keys.len() > 0 {
                j.put("keys", Json::strings(keys.as_slice()));
            }
            lease_scoped(&mut j, i.lease);
        },
        Command::ApprovalStatus { approval_id } => {
            j.put("approval_id", Json::string(approval_id));
        },
        Command::ApprovalPending => {},
        Command::ApprovalApprove { approval_id } => {
            j.put("approval_id", Json::string(approval_id));
        },
        Command::ApprovalDeny { approval_id } => {
            j.put("approval_id", Json::string(approval_id));
        },
    }
    j
}

/// Whether the refusals of a command keep their codes, so that a pending
/// approval can be told from a denial.
pub open spec fn keeps_codes(c: CmdV) -> bool {
    match c {
        Command::LeaseCreate { .. } => true,
        Command::LeaseList => true,
        Command::LeaseRevoke { .. } => true,
        Command::Reveal { .. } => true,
        Command::ApprovalStatus { .. } => true,
        Command::ApprovalPending => true,
        Command::ApprovalApprove { .. } => true,
        Command::ApprovalDeny { .. } => true,
        _ => false,
    }
}

/// Tells whether the refusals of a command keep their codes.
pub fn code_preserving(c: &Cmd) -> (r: bool)
    ensures
        r == keeps_codes(command_value(*c)),
{
    match c {
        Command::LeaseCreate { .. } => true,
        Command::LeaseList => true,
        Command::LeaseRevoke { .. } => true,
        Command::Reveal { .. } => true,
        Command::ApprovalStatus { .. } => true,
        Command::ApprovalPending => true,
        Command::ApprovalApprove { .. } => true,
        Command::ApprovalDeny { .. } => true,
        _ => false,
    }
}

// -------------------------------------------------------------------- reports

/// The text of a member; empty where it is no text.
pub open spec fn word(j: JsonV, key: Seq<char>) -> Seq<char> {
    match j.at(key).text() {
        Some(t) => t,
        None => Seq::empty(),
    }
}

/// The JSON notation of a member; `null` where there is none.
pub open spec fn shown(j: JsonV, key: Seq<char>) -> Seq<char> {
    json::json_text(j.at(key))
}

/// The operations of a row: a text as it is, anything else in JSON notation.
pub open spec fn named_ops(j: JsonV, key: Seq<char>) -> Seq<char> {
    match j.get(key) {
        Some(v) => match v.text() {
            Some(t) => t,
            None => json::json_text(v),
        },
        None => Seq::empty(),
    }
}

fn word_at(j: &Json, key: &str) -> (r: String)
    ensures
        r@ == word(j@, key@),
{
    match j.text_at(key) {
        Some(t) => t.to_string(),
        None => String::new(),
    }
}

fn shown_at(j: &Json, key: &str) -> (r: String)
    ensures
        r@ == shown(j@, key@),
{
    match j.get(key) {
        Some(v) => v.to_text(),
        None => "null".to_string(),
    }
}

fn ops_at(j: &Json, key: &str) -> (r: String)
    ensures
        r@ == named_ops(j@, key@),
{
    match j.get(key) {
        Some(v) => match v {
            Json::Str(t) => t.clone(),
            other => other.to_text(),
        },
        None => String::new(),
    }
}

/// The kinds of rows.
#[derive(Clone, Copy, Debug, PartialEq, Eq, Structural)]
pub enum Row {
    Secret,
    Agent,
    Grant,
    Audit,
    Lease,
    Approval,
    /// An item that is a text.
    Name,
    /// A folder below its project.
    Folder,
}

/// A labelled text, where there is one.
pub open spec fn labelled(label: Seq<char>, t: Option<Seq<char>>) -> Seq<char> {
    match t {
        Some(s) => label + s,
        None => Seq::empty(),
    }
}

/// The names of the keys of an entry, where there are any.
pub open spec fn key_names(j: JsonV) -> Seq<char> {
    let names = json::texts_among(json::items_at(j, "keys"@));
    if names.len() > 0 {
        " keys="@ + text::debug_text(names)
    } else {
        Seq::empty()
    }
}

/// The line of an audit entry.
pub open spec fn audit_row(j: JsonV) -> Seq<char> {
    "#"@ + shown(j, "seq"@) + " "@ + shown(j, "ts"@) + " "@ + shown(j, "actor"@) + " "@ + shown(
        j,
        "op"@,
    ) + " "@ + shown(j, "decision"@) + labelled(" reason="@, j.at("reason"@).text()) + labelled(
        " project="@,
        j.at("project"@).text(),
    ) + key_names(j) + labelled(" target="@, j.at("target"@).text()) + (if j.at("mac"@) is Null {
        " [unauthenticated]"@
    } else {
        Seq::empty()
    })
}

fn label(name: &str, t: Option<&str>) -> (r: String)
    ensures
        r@ == labelled(name@, json::opt_str(t)),
{
    match t {
        Some(s) => joined(name, s),
        None => String::new(),
    }
}

fn key_list(j: &Json) -> (r: String)
    ensures
        r@ == key_names(j@),
{
    match j.array_at("keys") {
        Some(v) => {
            let names = json::texts_in(v.as_slice());
            proof {
                assert(text::texts(names@).len() == names@.len());
            }
            if names.len() > 0 {
                joined(" keys=", &text::debug_list(names.as_slice()))
            } else {
                String::new()
            }
        },
        None => String::new(),
    }
}

/// Renders an audit entry.
pub fn render_audit_line(j: &Json) -> (r: String)
    ensures
        r@ == audit_row(j@),
{
    let mut s = "#".to_string();
    s.push_str(&shown_at(j, "seq"));
    s.push_str(" ");
    s.push_str(&shown_at(j, "ts"));
    s.push_str(" ");
    s.push_str(&shown_at(j, "actor"));
    s.push_str(" ");
    s.push_str(&shown_at(j, "op"));
    s.push_str(" ");
    s.push_str(&shown_at(j, "decision"));
    s.push_str(&label(" reason=", j.text_at("reason")));
    s.push_str(&label(" project=", j.text_at("project")));
    s.push_str(&key_list(j));
    s.push_str(&label(" target=", j.text_at("target")));
    let mark = if j.present("mac") {
        String::new()
    } else {
        " [unauthenticated]".to_string()
    };
    s.push_str(&mark);
    s
}

/// The line of a row.
pub open spec fn row_text(kind: Row, j: JsonV) -> Seq<char> {
    match kind {
        Row::Secret => word(j, "key"@) + " (updated "@ + word(j, "updated"@) + ")"@,
        Row::Agent => word(j, "name"@) + " ("@ + word(j, "status"@) + ", token prefix "@
            + word(j, "token_prefix"@) + ")"@,
        Row::Grant => word(j, "agent"@) + " on "@ + word(j, "project"@) + " ops="@
            + shown(j, "ops"@) + " revoked="@ + shown(j, "revoked"@),
        Row::Lease => word(j, "lease_id"@) + " ["@ + word(j, "lease_prefix"@) + "] "@
            + word(j, "project"@) + " "@ + named_ops(j, "ops"@) + " (expires in "@
            + shown(j, "expires_in"@) + "s)"@,
        Row::Approval => word(j, "approval_id"@) + " "@ + word(j, "agent"@) + " "@
            + word(j, "project"@) + "/"@ + word(j, "key"@) + " "@ + word(j, "status"@),
        Row::Audit => audit_row(j),
        Row::Name => text_of(j),
        Row::Folder => "  "@ + text_of(j),
    }
}

/// A value that is a text; empty for any other.
pub open spec fn text_of(j: JsonV) -> Seq<char> {
    match j.text() {
        Some(t) => t,
        None => Seq::empty(),
    }
}

/// The lines of some rows.
pub open spec fn row_texts(kind: Row, items: Seq<JsonV>) -> Seq<Seq<char>> {
    Seq::new(items.len(), |i: int| row_text(kind, items[i]))
}

fn text_value(j: &Json) -> (r: String)
    ensures
        r@ == text_of(j@),
{
    match j {
        Json::Str(t) => t.clone(),
        _ => String::new(),
    }
}

fn row(kind: Row, j: &Json) -> (r: String)
    ensures
        r@ == row_text(kind, j@),
{
    match kind {
        Row::Secret => {
            let mut s = word_at(j, "key");
            s.push_str(" (updated ");
            s.push_str(&word_at(j, "updated"));
            s.push_str(")");
            s
        },
        Row::Agent => {
            let mut s = word_at(j, "name");
            s.push_str(" (");
            s.push_str(&word_at(j, "status"));
            s.push_str(", token prefix ");
            s.push_str(&word_at(j, "token_prefix"));
            s.push_str(")");
            s
        },
        Row::Grant => {
            let mut s = word_at(j, "agent");
            s.push_str(" on ");
            s.push_str(&word_at(j, "project"));
            s.push_str(" ops=");
            s.push_str(&shown_at(j, "ops"));
            s.push_str(" revoked=");
            s.push_str(&shown_at(j, "revoked"));
            s
        },
        Row::Lease => {
            let mut s = word_at(j, "lease_id");
            s.push_str(" [");
            s.push_str(&word_at(j, "lease_prefix"));
            s.push_str("] ");
            s.push_str(&word_at(j, "project"));
            s.push_str(" ");
            s.push_str(&ops_at(j, "ops"));
            s.push_str(" (expires in ");
            s.push_str(&shown_at(j, "expires_in"));
            s.push_str("s)");
            s
        },
        Row::Approval => {
            let mut s = word_at(j, "approval_id");
            s.push_str(" ");
            s.push_str(&word_at(j, "agent"));
            s.push_str(" ");
            s.push_str(&word_at(j, "project"));
            s.push_str("/");
            s.push_str(&word_at(j, "key"));
            s.push_str(" ");
            s.push_str(&word_at(j, "status"));
            s
        },
        Row::Audit => render_audit_line(j),
        Row::Name => text_value(j),
        Row::Folder => joined("  ", &text_value(j)),
    }
}

/// Adds the lines of some rows to a report.
fn add_rows(out: &mut Vec<String>, kind: Row, items: &[Json])
    ensures
        text::texts(final(out)@) == text::texts(old(out)@) + row_texts(kind, json::values(items@)),
{
    let ghost before = text::texts(out@);
    let ghost all = row_texts(kind, json::values(items@));
    let mut i: usize = 0;
    proof {
        assert(before + all.take(0) =~= before);
    }
    while i < items.len()
        invariant
            i <= items@.len(),
            all == row_texts(kind, json::values(items@)),
            text::texts(out@) == before + all.take(i as int),
        decreases items@.len() - i,
    {
        let ghost so_far = text::texts(out@);
        let line = row(kind, &items[i]);
        out.push(line);
        proof {
            assert(text::texts(out@) =~= so_far.push(line@));
            assert(all.take(i + 1) =~= all.take(i as int).push(all[i as int]));
            assert(so_far.push(line@) =~= before + all.take(i + 1));
        }
        i = i + 1;
    }
    proof {
        assert(all.take(i as int) =~= all);
    }
}

/// Adds the rows of a member to a report.
fn add_member(out: &mut Vec<String>, kind: Row, j: &Json, key: &str)
    ensures
        text::texts(final(out)@) == text::texts(old(out)@) + row_texts(
            kind,
            json::items_at(j@, key@),
        ),
{
    match j.array_at(key) {
        Some(v) => add_rows(out, kind, v.as_slice()),
        None => {
            proof {
                assert(row_texts(kind, json::items_at(j@, key@)) =~= Seq::<Seq<char>>::empty());
                assert(text::texts(out@) + Seq::<Seq<char>>::empty() =~= text::texts(out@));
            }
        },
    }
}

/// The lines of a project: its name and its folders.
pub open spec fn project_lines(p: JsonV) -> Seq<Seq<char>> {
    let folders = json::items_at(p, "paths"@);
    seq![
        word(p, "name"@) + " ("@ + text::decimal_text(folders.len()) + " authorized folders)"@,
    ] + row_texts(Row::Folder, folders)
}

/// The lines of some projects.
pub open spec fn all_project_lines(items: Seq<JsonV>) -> Seq<Seq<char>>
    decreases items.len(),
{
    if items.len() == 0 {
        Seq::empty()
    } else {
        all_project_lines(items.drop_last()) + project_lines(items.last())
    }
}

fn add_project(out: &mut Vec<String>, p: &Json)
    ensures
        text::texts(final(out)@) == text::texts(old(out)@) + project_lines(p@),
{
    let ghost before = text::texts(out@);
    let count: u64 = match p.array_at("paths") {
        Some(v) => v.len() as u64,
        None => 0,
    };
    let mut s = word_at(p, "name");
    s.push_str(" (");
    s.push_str(&text::decimal(count));
    s.push_str(" authorized folders)");
    let ghost first = s@;
    out.push(s);
    proof {
        assert(text::texts(out@) =~= before.push(first));
    }
    add_member(out, Row::Folder, p, "paths");
    proof {
        assert(text::texts(out@) =~= before + project_lines(p@));
    }
}

fn add_projects(out: &mut Vec<String>, items: &[Json])
    ensures
        text::texts(final(out)@) == text::texts(old(out)@) + all_project_lines(
            json::values(items@),
        ),
{
    let ghost before = text::texts(out@);
    let ghost all = json::values(items@);
    let mut i: usize = 0;
    proof {
        assert(all.take(0) =~= Seq::empty());
        assert(before + Seq::<Seq<char>>::empty() =~= before);
    }
    while i < items.len()
        invariant
            i <= items@.len(),
            all == json::values(items@),
            text::texts(out@) == before + all_project_lines(all.take(i as int)),
        decreases items@.len() - i,
    {
        proof {
            assert(all.take(i + 1).drop_last() =~= all.take(i as int));
            assert(all.take(i + 1).last() == items@[i as int]@);
        }
        add_project(out, &items[i]);
        proof {
            assert(text::texts(out@) =~= before + all_project_lines(all.take(i + 1)));
        }
        i = i + 1;
    }
    proof {
        assert(all.take(i as int) =~= all);
    }
}

/// What is printed of the answer to a command.
pub open spec fn report_of(c: CmdV, j: JsonV) -> Result<Seq<Seq<char>>, Fault> {
    match c {
        Command::Init => Ok(seq!["vault created"@]),
        Command::Status => Ok(
            seq![
                "version: "@ + shown(j, "version"@),
                "created: "@ + word(j, "created"@),
                "state: "@ + (if j.at("locked"@).boolean() == Some(false) {
                    "unlocked"@
                } else {
                    "locked"@
                }),
            ],
        ),
        Command::Unlock => Ok(seq!["unlocked (the daemon session holds the key material)"@]),
        Command::Lock => Ok(seq!["locked"@]),
        Command::ProjectAdd { name, .. } => Ok(seq!["project added: "@ + name]),
        Command::ProjectList => Ok(all_project_lines(json::items_at(j, "projects"@))),
        Command::ProjectPathAdd { name, .. } => Ok(seq!["authorized folder added to "@ + name]),
        Command::ProjectPathRemove { name, .. } => Ok(
            seq!["authorized folder removed from "@ + name],
        ),
        Command::ProjectRemove { name } => Ok(seq!["project removed: "@ + name]),
        Command::SecretSet { project, key } => Ok(seq!["secret set: "@ + project + "/"@ + key]),
        Command::SecretList { .. } => Ok(row_texts(Row::Secret, json::items_at(j, "secrets"@))),
        Command::SecretDelete { project, key } => Ok(
            seq!["secret deleted: "@ + project + "/"@ + key],
        ),
        Command::AgentAdd { name } => Ok(
            seq![
                "agent enrolled: "@ + name + " ("@ + word(j, "agent_id"@) + ")"@,
                "token (shown once, store it now): "@ + word(j, "token"@),
            ],
        ),
        Command::AgentRevoke { name } => Ok(seq!["agent revoked: "@ + name]),
        Command::AgentList => Ok(row_texts(Row::Agent, json::items_at(j, "agents"@))),
        Command::GrantAdd { agent, project, ops } => Ok(
            seq!["grant added: "@ + agent + " on "@ + project + " ("@ + ops + ")"@],
        ),
        Command::GrantRevoke { agent, project } => Ok(
            seq!["grant revoked: "@ + agent + " on "@ + project],
        ),
        Command::GrantList => Ok(row_texts(Row::Grant, json::items_at(j, "grants"@))),
        Command::AuditShow { .. } => Ok(row_texts(Row::Audit, json::items_at(j, "entries"@))),
        Command::AuditVerify => Ok(
            seq![
                "entries: "@ + shown(j, "entries"@) + " \u{b7} macs verified: "@ + shown(
                    j,
                    "macs_verified"@,
                ) + " \u{b7} macs null: "@ + shown(j, "macs_null"@),
            ],
        ),
        Command::RunSignal { run_id, .. } => match client::signal_fault(j, run_id) {
            Some(e) => Err(e),
            None => Ok(seq!["run "@ + run_id + " signaled"@]),
        },
        Command::LeaseCreate { .. } => {
            let first = "lease created: "@ + word(j, "lease_id"@) + " (expires in "@ + shown(
                j,
                "expires_in"@,
            ) + "s)"@;
            match j.at("lease_credential"@).text() {
                Some(t) => Ok(
                    seq![first, "lease credential (shown once, store it now): "@ + t],
                ),
                None => Ok(seq![first]),
            }
        },
        Command::LeaseList => Ok(row_texts(Row::Lease, json::items_at(j, "leases"@))),
        Command::LeaseRevoke { lease_id } => Ok(seq!["lease revoked: "@ + lease_id]),
        Command::Reveal { .. } => match j.at("value"@).text() {
            Some(v) => Ok(seq![v]),
            None => Err(Fault::Protocol("reveal response missing value"@)),
        },
        Command::Inject { path, .. } => Ok(
            seq![
                "injected "@ + shown(j, "count"@) + " keys to "@ + (match j.at("path"@).text() {
                    Some(p) => p,
                    None => path,
                }),
            ] + row_texts(Row::Name, json::items_at(j, "keys"@)),
        ),
        Command::ApprovalStatus { approval_id } => Ok(
            seq![
                word(j, "status"@) + " "@ + approval_id + " (expires in "@ + shown(
                    j,
                    "expires_in"@,
                ) + "s)"@,
            ],
        ),
        Command::ApprovalPending => Ok(row_texts(Row::Approval, json::items_at(j, "approvals"@))),
        Command::ApprovalApprove { approval_id } => Ok(seq!["approved: "@ + approval_id]),
        Command::ApprovalDeny { approval_id } => Ok(seq!["denied: "@ + approval_id]),
    }
}

fn one(line: String) -> (r: Vec<String>)
    ensures
        text::texts(r@) == seq![line@],
{
    let ghost t = line@;
    let mut v: Vec<String> = Vec::new();
    v.push(line);
    proof {
        assert(text::texts(v@) =~= seq![t]);
    }
    v
}

fn two(a: String, b: String) -> (r: Vec<String>)
    ensures
        text::texts(r@) == seq![a@, b@],
{
    let ghost t = a@;
    let ghost u = b@;
    let mut v: Vec<String> = Vec::new();
    v.push(a);
    v.push(b);
    proof {
        assert(text::texts(v@) =~= seq![t, u]);
    }
    v
}

fn member_rows(kind: Row, j: &Json, key: &str) -> (r: Vec<String>)
    ensures
        text::texts(r@) == row_texts(kind, json::items_at(j@, key@)),
{
    let mut v: Vec<String> = Vec::new();
    let ghost none = text::texts(v@);
    add_member(&mut v, kind, j, key);
    proof {
        assert(none =~= Seq::<Seq<char>>::empty());
        assert(text::texts(v@) =~= row_texts(kind, json::items_at(j@, key@)));
    }
    v
}

fn status_lines(j: &Json) -> (r: Vec<String>)
    ensures
        report_of(Command::Status, j@) == Ok::<Seq<Seq<char>>, Fault>(text::texts(r@)),
{
    let version = joined("version: ", &shown_at(j, "version"));
    let created = joined("created: ", &word_at(j, "created"));
    let open = match j.bool_at("locked") {
        Some(b) => !b,
        None => false,
    };
    let state = joined(
        "state: ",
        if open {
            "unlocked"
        } else {
            "locked"
        },
    );
    let ghost a = version@;
    let ghost b = created@;
    let ghost c = state@;
    let mut v: Vec<String> = Vec::new();
    v.push(version);
    v.push(created);
    v.push(state);
    proof {
        assert(text::texts(v@) =~= seq![a, b, c]);
    }
    v
}

fn project_list(j: &Json) -> (r: Vec<String>)
    ensures
        text::texts(r@) == all_project_lines(json::items_at(j@, "projects"@)),
{
    let mut v: Vec<String> = Vec::new();
    proof {
        assert(text::texts(v@) =~= Seq::<Seq<char>>::empty());
    }
    match j.array_at("projects") {
        Some(items) => {
            add_projects(&mut v, items.as_slice());
            proof {
                assert(Seq::<Seq<char>>::empty() + all_project_lines(json::values(items@))
                    =~= all_project_lines(json::values(items@)));
            }
        },
        None => {},
    }
    v
}

/// Gives what is printed of the answer to a command.
pub fn report(c: &Cmd, j: &Json) -> (r: Result<Vec<String>, VaultError>)
    ensures
        match r {
            Ok(lines) => report_of(command_value(*c), j@) == Ok::<Seq<Seq<char>>, Fault>(
                text::texts(lines@),
            ),
            Err(e) => report_of(command_value(*c), j@) == Err::<Seq<Seq<char>>, Fault>(e@),
        },
{
    match c {
        Command::Init => {
            let s = "vault created".to_string();
            Ok(one(s))
        },
        Command::Status => Ok(status_lines(j)),
        Command::Unlock => {
            let s = "unlocked (the daemon session holds the key material)".to_string();
            Ok(one(s))
        },
        Command::Lock => {
            let s = "locked".to_string();
            Ok(one(s))
        },
        Command::ProjectAdd { name, .. } => {
            let mut s = "project added: ".to_string();
            s.push_str(name);
            Ok(one(s))
        },
        Command::ProjectList => Ok(project_list(j)),
        Command::ProjectPathAdd { name, .. } => {
            let mut s = "authorized folder added to ".to_string();
            s.push_str(name);
            Ok(one(s))
        },
        Command::ProjectPathRemove { name, .. } => {
            let mut s = "authorized folder removed from ".to_string();
            s.push_str(name);
            Ok(one(s))
        },
        Command::ProjectRemove { name } => {
            let mut s = "project removed: ".to_string();
            s.push_str(name);
            Ok(one(s))
        },
        Command::SecretSet { project, key } => {
            let mut s = "secret set: ".to_string();
            s.push_str(project);
            s.push_str("/");
            s.push_str(key);
            Ok(one(s))
        },
        Command::SecretList { .. } => Ok(member_rows(Row::Secret, j, "secrets")),
        Command::SecretDelete { project, key } => {
            let mut s = "secret deleted: ".to_string();
            s.push_str(project);
            s.push_str("/");
            s.push_str(key);
            Ok(one(s))
        },
        Command::AgentAdd { name } => {
            let mut s = "agent enrolled: ".to_string();
            s.push_str(name);
            s.push_str(" (");
            s.push_str(&word_at(j, "agent_id"));
            s.push_str(")");
            let token = joined("token (shown once, store it now): ", &word_at(j, "token"));
            Ok(two(s, token))
        },
        Command::AgentRevoke { name } => {
            let mut s = "agent revoked: ".to_string();
            s.push_str(name);
            Ok(one(s))
        },
        Command::AgentList => Ok(member_rows(Row::Agent, j, "agents")),
        Command::GrantAdd { agent, project, ops } => {
            let mut s = "grant added: ".to_string();
            s.push_str(agent);
            s.push_str(" on ");
            s.push_str(project);
            s.push_str(" (");
            s.push_str(ops);
            s.push_str(")");
            Ok(one(s))
        },
        Command::GrantRevoke { agent, project } => {
            let mut s = "grant revoked: ".to_string();
            s.push_str(agent);
            s.push_str(" on ");
            s.push_str(project);
            Ok(one(s))
        },
        Command::GrantList => Ok(member_rows(Row::Grant, j, "grants")),
        Command::AuditShow { .. } => Ok(member_rows(Row::Audit, j, "entries")),
        Command::AuditVerify => {
            let mut s = "entries: ".to_string();
            s.push_str(&shown_at(j, "entries"));
            s.push_str(" \u{b7} macs verified: ");
            s.push_str(&shown_at(j, "macs_verified"));
            s.push_str(" \u{b7} macs null: ");
            s.push_str(&shown_at(j, "macs_null"));
            Ok(one(s))
        },
        Command::RunSignal { run_id, .. } => match client::run_signal(j, run_id) {
            Ok(_) => {
                let mut s = "run ".to_string();
                s.push_str(run_id);
                s.push_str(" signaled");
                Ok(one(s))
            },
            Err(e) => Err(e),
        },
        Command::LeaseCreate { .. } => {
            let mut s = "lease created: ".to_string();
            s.push_str(&word_at(j, "lease_id"));
            s.push_str(" (expires in ");
            s.push_str(&shown_at(j, "expires_in"));
            s.push_str("s)");
            match j.text_at("lease_credential") {
                Some(t) => Ok(
                    two(s, joined("lease credential (shown once, store it now): ", t)),
                ),
                None => Ok(one(s)),
            }
        },
        Command::LeaseList => Ok(member_rows(Row::Lease, j, "leases")),
        Command::LeaseRevoke { lease_id } => {
            let mut s = "lease revoked: ".to_string();
            s.push_str(lease_id);
            Ok(one(s))
        },
        Command::Reveal { .. } => match j.text_at("value") {
            Some(v) => Ok(one(v.to_string())),
            None => Err(VaultError::Protocol("reveal response missing value".to_string())),
        },
        Command::Inject { path, .. } => {
            let mut s = "injected ".to_string();
            s.push_str(&shown_at(j, "count"));
            s.push_str(" keys to ");
            match j.text_at("path") {
                Some(p) => s.push_str(p),
                None => s.push_str(path),
            }
            let mut lines = one(s);
            add_member(&mut lines, Row::Name, j, "keys");
            Ok(lines)
        },
        Command::ApprovalStatus { approval_id } => {
            let mut s = word_at(j, "status");
            s.push_str(" ");
            s.push_str(approval_id);
            s.push_str(" (expires in ");
            s.push_str(&shown_at(j, "expires_in"));
            s.push_str("s)");
            Ok(one(s))
        },
        Command::ApprovalPending => Ok(member_rows(Row::Approval, j, "approvals")),
        Command::ApprovalApprove { approval_id } => {
            let mut s = "approved: ".to_string();
            s.push_str(approval_id);
            Ok(one(s))
        },
        Command::ApprovalDeny { approval_id } => {
            let mut s = "denied: ".to_string();
            s.push_str(approval_id);
            Ok(one(s))
        },
    }
}

/// What is printed of a refused reveal: a pending approval is named.
pub open spec fn pending_line(e: BrokerErrorV) -> Option<Seq<char>> {
    if e.code == "E_APPROVAL_PENDING"@ {
        Some(
            "approval pending: "@ + (match e.data {
                Some(d) => word(d, "approval_id"@),
                None => Seq::empty(),
            }) + " (expires in "@ + (match e.data {
                Some(d) => match d.get("expires_in"@) {
                    Some(v) => json::json_text(v),
                    None => Seq::empty(),
                },
                None => Seq::empty(),
            }) + "s)"@,
        )
    } else {
        None
    }
}

/// Gives what is printed of a refused reveal.
pub fn reveal_refusal(e: &BrokerError) -> (r: Option<String>)
    ensures
        json::opt_text(r) == pending_line(e@),
{
    if !same(&e.code, "E_APPROVAL_PENDING") {
        return None;
    }
    let (id, expires) = match &e.data {
        Some(d) => (
            word_at(d, "approval_id"),
            match d.get("expires_in") {
                Some(v) => v.to_text(),
                None => String::new(),
            },
        ),
        None => (String::new(), String::new()),
    };
    let mut s = "approval pending: ".to_string();
    s.push_str(&id);
    s.push_str(" (expires in ");
    s.push_str(&expires);
    s.push_str("s)");
    Some(s)
}

// -------------------------------------------------------------------- sources
/// A line without its end.
pub open spec fn without_line_end(s: Seq<char>) -> Seq<char> {
    if s.len() > 0 && s.last() == '\n' {
        let t = s.drop_last();
        if t.len() > 0 && t.last() == '\r' {
            t.drop_last()
        } else {
            t
        }
    } else {
        s
    }
}

/// Takes the end off a line that was read.
pub fn read_trimmed(s: &str) -> (r: String)
    ensures
        r@ == without_line_end(s@),
{
    let chars = text::chars_of(s);
    let mut n: usize = chars.len();
    if n > 0 && chars[n - 1] == '\n' {
        n = n - 1;
        if n > 0 && chars[n - 1] == '\r' {
            n = n - 1;
        }
    }
    let mut out = String::new();
    let mut i: usize = 0;
    while i < n
        invariant
            i <= n <= chars@.len(),
            chars@ == s@,
            out@ == s@.take(i as int),
        decreases n - i,
    {
        out.push(chars[i]);
        proof {
            assert(s@.take(i + 1) =~= s@.take(i as int).push(s@[i as int]));
        }
        i = i + 1;
    }
    proof {
        assert(s@.take(n as int) =~= without_line_end(s@));
    }
    out
}

/// Where the agent token comes from.
#[derive(Clone, Copy, Debug, PartialEq, Eq, Structural)]
pub enum TokenSource {
    /// A descriptor, which stays open.
    Descriptor(i32),
    Stdin,
    /// The named file.
    File,
    /// The environment, where it may be missing.
    Environment,
}

/// Where the agent token comes from: a descriptor before a file before the
/// environment.
pub open spec fn source_of(token_fd: Option<i32>, token_file: Option<Seq<char>>) -> TokenSource {
    match (token_fd, token_file) {
        (Some(fd), _) => TokenSource::Descriptor(fd),
        (None, Some(f)) => if f == "-"@ {
            TokenSource::Stdin
        } else {
            TokenSource::File
        },
        (None, None) => TokenSource::Environment,
    }
}

/// Decides where the agent token comes from.
pub fn agent_token(token_fd: Option<i32>, token_file: Option<&str>) -> (r: TokenSource)
    ensures
        r == source_of(token_fd, json::opt_str(token_file)),
{
    match (token_fd, token_file) {
        (Some(fd), _) => TokenSource::Descriptor(fd),
        (None, Some(f)) => if same(f, "-") {
            TokenSource::Stdin
        } else {
            TokenSource::File
        },
        (None, None) => TokenSource::Environment,
    }
}

/// Checks that a lease credential comes from standard input or from a regular
/// file.
pub fn lease_source(path: &str, is_regular: bool) -> (r: Result<TokenSource, VaultError>)
    ensures
        match r {
            Ok(s) => (path@ == "-"@ && s == TokenSource::Stdin) || (path@ != "-"@ && is_regular && s
                == TokenSource::File),
            Err(e) => path@ != "-"@ && !is_regular && e@ == (Fault::Io {
                os_code: None,
                text: "lease credential source must be a regular file"@,
            }),
        },
{
    if same(path, "-") {
        return Ok(TokenSource::Stdin);
    }
    if !is_regular {
        return Err(
            VaultError::Io(
                crate::error::IoFailure {
                    os_code: None,
                    text: "lease credential source must be a regular file".to_string(),
                },
            ),
        );
    }
    Ok(TokenSource::File)
}

/// What a token file holds: the token on a line of its own.
pub fn token_file_text(token: &str) -> (r: String)
    ensures
        r@ == token@ + "\n"@,
{
    joined(token, "\n")
}

/// What a token file that could not be created is reported as: an existing one
/// is never overwritten.
pub fn token_file_error(exists: bool, e: crate::error::IoFailure) -> (r: VaultError)
    ensures
        r@ == (if exists {
            Fault::Exists
        } else {
            Fault::Io { os_code: e.os_code, text: e.text@ }
        }),
{
    if exists {
        VaultError::Exists
    } else {
        VaultError::Io(e)
    }
}

/// A token that is read back from its file is the token.
pub proof fn law_token_file_reads_back(token: Seq<char>)
    requires
        token.len() == 0 || token.last() != '\r',
    ensures
        without_line_end(token + "\n"@) == token,
{
    reveal_strlit("\n");
    assert((token + "\n"@).drop_last() =~= token);
}

/// What two prompts for a new passphrase come to.
pub fn confirmed(first: &str, second: &str) -> (r: Result<(), VaultError>)
    ensures
        match r {
            Ok(_) => first@ == second@,
            Err(e) => first@ != second@ && e@ == Fault::Mismatch,
        },
{
    if same(first, second) {
        Ok(())
    } else {
        Err(VaultError::Mismatch)
    }
}

/// The idle window: the asked one, where zero switches the lock off, or the
/// default.
pub fn idle_lock(secs: Option<u64>) -> (r: u64)
    ensures
        r == (match secs {
            Some(s) => s,
            None => DEFAULT_IDLE_LOCK_SECS,
        }),
{
    match secs {
        Some(s) => s,
        None => DEFAULT_IDLE_LOCK_SECS,
    }
}

/// The socket: the given one, or the default one.
pub fn socket_path(socket: Option<String>, runtime_dir: Option<&str>) -> (r: Result<
    String,
    VaultError,
>)
    ensures
        match (socket, runtime_dir) {
            (Some(p), _) => r matches Ok(q) && q@ == p@,
            (None, Some(d)) => r matches Ok(q) && q@ == crate::broker_identity::under(
                crate::broker_identity::under(d@, "svault"@),
                "svault.sock"@,
            ),
            (None, None) => r matches Err(e) && e@ == (Fault::Io {
                os_code: None,
                text: "XDG_RUNTIME_DIR not set"@,
            }),
        },
{
    match socket {
        Some(p) => Ok(p),
        None => crate::broker_identity::default_socket_path(runtime_dir),
    }
}

/// The exit code of a command: zero on success and one on any failure.
pub fn run(outcome: &Result<(), VaultError>) -> (r: i32)
    ensures
        r == (if outcome is Ok {
            0i32
        } else {
            1i32
        }),
{
    match outcome {
        Ok(_) => 0,
        Err(_) => 1,
    }
}

/// What stands for a value stands for all of it: the same variant, with every part.
pub proof fn law_command_value_is_faithful(c: Cmd)
    ensures
        match (c, command_value(c)) {
            (Command::Init, Command::Init) => true,
            (Command::Status, Command::Status) => true,
            (Command::Unlock, Command::Unlock) => true,
            (Command::Lock, Command::Lock) => true,
            (
                Command::ProjectAdd { name, paths },
                Command::ProjectAdd { name: name_v, paths: paths_v },
            ) => name_v == name@
                && paths_v == (text::texts(paths@)),
            (Command::ProjectList, Command::ProjectList) => true,
            (
                Command::ProjectPathAdd { name, path },
                Command::ProjectPathAdd { name: name_v, path: path_v },
            ) => name_v == name@
                && path_v == path@,
            (
                Command::ProjectPathRemove { name, path },
                Command::ProjectPathRemove { name: name_v, path: path_v },
            ) => name_v == name@
                && path_v == path@,
            (
                Command::ProjectRemove { name },
                Command::ProjectRemove { name: name_v },
            ) => name_v == name@,
            (
                Command::SecretSet { project, key },
                Command::SecretSet { project: project_v, key: key_v },
            ) => project_v == project@
                && key_v == key@,
            (
                Command::SecretList { project },
                Command::SecretList { project: project_v },
            ) => project_v == project@,
            (
                Command::SecretDelete { project, key },
                Command::SecretDelete { project: project_v, key: key_v },
            ) => project_v == project@
                && key_v == key@,
            (Command::AgentAdd { name }, Command::AgentAdd { name: name_v }) => name_v == name@,
            (
                Command::AgentRevoke { name },
                Command::AgentRevoke { name: name_v },
            ) => name_v == name@,
            (Command::AgentList, Command::AgentList) => true,
            (
                Command::GrantAdd { agent, project, ops },
                Command::GrantAdd { agent: agent_v, project: project_v, ops: ops_v },
            ) => agent_v == agent@
                && project_v == project@
                && ops_v == ops@,
            (
                Command::GrantRevoke { agent, project },
                Command::GrantRevoke { agent: agent_v, project: project_v },
            ) => agent_v == agent@
                && project_v == project@,
            (Command::GrantList, Command::GrantList) => true,
            (Command::AuditShow { tail }, Command::AuditShow { tail: tail_v }) => tail_v == tail,
            (Command::AuditVerify, Command::AuditVerify) => true,
            (
                Command::RunSignal { run_id, signal },
                Command::RunSignal { run_id: run_id_v, signal: signal_v },
            ) => run_id_v == run_id@
                && signal_v == signal@,
            (
                Command::LeaseCreate { project, ops, ttl_secs },
                Command::LeaseCreate { project: project_v, ops: ops_v, ttl_secs: ttl_secs_v },
            ) => project_v == project@
                && ops_v == ops@
                && ttl_secs_v == ttl_secs,
            (Command::LeaseList, Command::LeaseList) => true,
            (
                Command::LeaseRevoke { lease_id },
                Command::LeaseRevoke { lease_id: lease_id_v },
            ) => lease_id_v == lease_id@,
            (
                Command::Reveal { project, key, approval_id },
                Command::Reveal { project: project_v, key: key_v, approval_id: approval_id_v },
            ) => project_v == project@
                && key_v == key@
                && approval_id_v == (json::opt_text(approval_id)),
            (
                Command::Inject { project, path, keys },
                Command::Inject { project: project_v, path: path_v, keys: keys_v },
            ) => project_v == project@
                && path_v == path@
                && keys_v == (text::texts(keys@)),
            (
                Command::ApprovalStatus { approval_id },
                Command::ApprovalStatus { approval_id: approval_id_v },
            ) => approval_id_v == approval_id@,
            (Command::ApprovalPending, Command::ApprovalPending) => true,
            (
                Command::ApprovalApprove { approval_id },
                Command::ApprovalApprove { approval_id: approval_id_v },
            ) => approval_id_v == approval_id@,
            (
                Command::ApprovalDeny { approval_id },
                Command::ApprovalDeny { approval_id: approval_id_v },
            ) => approval_id_v == approval_id@,
            _ => false,
        },
{
}

/// What stands for a value stands for all of it, part by part.
pub proof fn law_inputs_value_is_faithful(i: Inputs)
    ensures
        inputs_value(i).passphrase == or_empty(i.passphrase),
        inputs_value(i).value == or_empty(i.value),
        inputs_value(i).lease == or_empty(i.lease),
{
}

} // verus!

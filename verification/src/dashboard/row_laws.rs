//! What the broker writes of its rows is what the dashboard reads.

use vstd::prelude::*;

use crate::audit::{self, AuditLine, LineV};
use crate::broker::dispatch;
use crate::broker::rows::{
    self as broker_rows, AgentRow, ApprovalRow, GrantRow, LeaseRow, ProjectRow, RunRow, SecretRow,
};
use crate::dashboard::rows::{
    self, AgentEntryV, ApprovalEntryV, AuditEntryV, GrantEntryV, LeaseEntryV, ProjectEntryV,
    RunEntryV, SecretEntryV,
};
use crate::json::{self, JsonV};
use crate::order;
use crate::text;

verus! {

/// The names of members are told apart by their length and a letter.
proof fn lemma_names_differ()
    ensures
        "key"@.len() == 3 && "key"@[0] == 'k',
        "updated"@.len() == 7 && "updated"@[0] == 'u',
        "name"@.len() == 4 && "name"@[0] == 'n',
        "paths"@.len() == 5 && "paths"@[0] == 'p' && "paths"@[1] == 'a',
        "status"@.len() == 6 && "status"@[0] == 's' && "status"@[1] == 't' && "status"@[2] == 'a',
        "token_prefix"@.len() == 12 && "token_prefix"@[0] == 't',
        "agent"@.len() == 5 && "agent"@[0] == 'a' && "agent"@[1] == 'g',
        "project"@.len() == 7 && "project"@[0] == 'p',
        "ops"@.len() == 3 && "ops"@[0] == 'o',
        "revoked"@.len() == 7 && "revoked"@[0] == 'r',
        "approval_id"@.len() == 11,
        "expires_at"@.len() == 10 && "expires_at"@[8] == 'a' && "expires_at"@[0] == 'e',
        "lease_id"@.len() == 8 && "lease_id"@[0] == 'l',
        "lease_prefix"@.len() == 12 && "lease_prefix"@[0] == 'l',
        "expires_in"@.len() == 10 && "expires_in"@[8] == 'i' && "expires_in"@[0] == 'e',
        "run_id"@.len() == 6 && "run_id"@[0] == 'r' && "run_id"@[1] == 'u' && "run_id"@[2] == 'n',
        "pid"@.len() == 3 && "pid"@[0] == 'p',
        "started_at"@.len() == 10 && "started_at"@[8] == 'a' && "started_at"@[0] == 's',
        "ts"@.len() == 2 && "ts"@[0] == 't',
        "seq"@.len() == 3 && "seq"@[0] == 's',
        "prev_hash"@.len() == 9 && "prev_hash"@[0] == 'p',
        "actor"@.len() == 5 && "actor"@[0] == 'a' && "actor"@[1] == 'c',
        "op"@.len() == 2 && "op"@[0] == 'o',
        "keys"@.len() == 4 && "keys"@[0] == 'k',
        "target"@.len() == 6 && "target"@[0] == 't' && "target"@[1] == 'a' && "target"@[2] == 'r',
        "decision"@.len() == 8 && "decision"@[0] == 'd',
        "reason"@.len() == 6 && "reason"@[0] == 'r' && "reason"@[1] == 'e' && "reason"@[2] == 'a',
        "executable"@.len() == 10 && "executable"@[8] == 'l' && "executable"@[0] == 'e',
        "arg_count"@.len() == 9 && "arg_count"@[0] == 'a',
        "cwd"@.len() == 3 && "cwd"@[0] == 'c',
        "result"@.len() == 6 && "result"@[0] == 'r' && "result"@[1] == 'e' && "result"@[2] == 's',
        "exit_code"@.len() == 9 && "exit_code"@[0] == 'e',
        "signal"@.len() == 6 && "signal"@[0] == 's' && "signal"@[1] == 'i' && "signal"@[2] == 'g',
        "hash"@.len() == 4 && "hash"@[0] == 'h',
        "mac"@.len() == 3 && "mac"@[0] == 'm',
        "entries"@.len() == 7 && "entries"@[0] == 'e',
        "next_before_seq"@.len() == 15,
{
    reveal_strlit("key");
    assert("key"@.len() == 3 && "key"@[0] == 'k');
    reveal_strlit("updated");
    assert("updated"@.len() == 7 && "updated"@[0] == 'u');
    reveal_strlit("name");
    assert("name"@.len() == 4 && "name"@[0] == 'n');
    reveal_strlit("paths");
    assert("paths"@.len() == 5 && "paths"@[0] == 'p' && "paths"@[1] == 'a');
    reveal_strlit("status");
    assert("status"@.len() == 6 && "status"@[0] == 's' && "status"@[1] == 't' && "status"@[2] == 'a');
    reveal_strlit("token_prefix");
    assert("token_prefix"@.len() == 12 && "token_prefix"@[0] == 't');
    reveal_strlit("agent");
    assert("agent"@.len() == 5 && "agent"@[0] == 'a' && "agent"@[1] == 'g');
    reveal_strlit("project");
    assert("project"@.len() == 7 && "project"@[0] == 'p');
    reveal_strlit("ops");
    assert("ops"@.len() == 3 && "ops"@[0] == 'o');
    reveal_strlit("revoked");
    assert("revoked"@.len() == 7 && "revoked"@[0] == 'r');
    reveal_strlit("approval_id");
    assert("approval_id"@.len() == 11);
    reveal_strlit("expires_at");
    assert("expires_at"@.len() == 10 && "expires_at"@[8] == 'a' && "expires_at"@[0] == 'e');
    reveal_strlit("lease_id");
    assert("lease_id"@.len() == 8 && "lease_id"@[0] == 'l');
    reveal_strlit("lease_prefix");
    assert("lease_prefix"@.len() == 12 && "lease_prefix"@[0] == 'l');
    reveal_strlit("expires_in");
    assert("expires_in"@.len() == 10 && "expires_in"@[8] == 'i' && "expires_in"@[0] == 'e');
    reveal_strlit("run_id");
    assert("run_id"@.len() == 6 && "run_id"@[0] == 'r' && "run_id"@[1] == 'u' && "run_id"@[2] == 'n');
    reveal_strlit("pid");
    assert("pid"@.len() == 3 && "pid"@[0] == 'p');
    reveal_strlit("started_at");
    assert("started_at"@.len() == 10 && "started_at"@[8] == 'a' && "started_at"@[0] == 's');
    reveal_strlit("ts");
    assert("ts"@.len() == 2 && "ts"@[0] == 't');
    reveal_strlit("seq");
    assert("seq"@.len() == 3 && "seq"@[0] == 's');
    reveal_strlit("prev_hash");
    assert("prev_hash"@.len() == 9 && "prev_hash"@[0] == 'p');
    reveal_strlit("actor");
    assert("actor"@.len() == 5 && "actor"@[0] == 'a' && "actor"@[1] == 'c');
    reveal_strlit("op");
    assert("op"@.len() == 2 && "op"@[0] == 'o');
    reveal_strlit("keys");
    assert("keys"@.len() == 4 && "keys"@[0] == 'k');
    reveal_strlit("target");
    assert("target"@.len() == 6 && "target"@[0] == 't' && "target"@[1] == 'a' && "target"@[2] == 'r');
    reveal_strlit("decision");
    assert("decision"@.len() == 8 && "decision"@[0] == 'd');
    reveal_strlit("reason");
    assert("reason"@.len() == 6 && "reason"@[0] == 'r' && "reason"@[1] == 'e' && "reason"@[2] == 'a');
    reveal_strlit("executable");
    assert("executable"@.len() == 10 && "executable"@[8] == 'l' && "executable"@[0] == 'e');
    reveal_strlit("arg_count");
    assert("arg_count"@.len() == 9 && "arg_count"@[0] == 'a');
    reveal_strlit("cwd");
    assert("cwd"@.len() == 3 && "cwd"@[0] == 'c');
    reveal_strlit("result");
    assert("result"@.len() == 6 && "result"@[0] == 'r' && "result"@[1] == 'e' && "result"@[2] == 's');
    reveal_strlit("exit_code");
    assert("exit_code"@.len() == 9 && "exit_code"@[0] == 'e');
    reveal_strlit("signal");
    assert("signal"@.len() == 6 && "signal"@[0] == 's' && "signal"@[1] == 'i' && "signal"@[2] == 'g');
    reveal_strlit("hash");
    assert("hash"@.len() == 4 && "hash"@[0] == 'h');
    reveal_strlit("mac");
    assert("mac"@.len() == 3 && "mac"@[0] == 'm');
    reveal_strlit("entries");
    assert("entries"@.len() == 7 && "entries"@[0] == 'e');
    reveal_strlit("next_before_seq");
    assert("next_before_seq"@.len() == 15);
}

/// What is shown of a [`SecretRow`].
pub open spec fn secret_shown(r: SecretRow) -> SecretEntryV {
    SecretEntryV {
        key: r.key@,
        updated: r.updated@,
    }
}

/// The row of a secret is read with every member in its place.
pub proof fn law_a_secret_row_is_read_as_written(r: SecretRow)
    ensures
        rows::secret_entry_of(broker_rows::secret_value(r)) == Some(secret_shown(r)),
{
    broadcast use json::lemma_with_get;

    lemma_names_differ();
    reveal_strlit("");
    assert(""@ =~= Seq::<char>::empty());
    assert(forall|key: Seq<char>| json::empty_object().get(key) is None);
}

/// Where every item is a row, the rows are those of the items, one by one.
proof fn lemma_secret_list(items: Seq<JsonV>)
    requires
        forall|i: int| 0 <= i < items.len() ==> rows::secret_entry_of(#[trigger] items[i]) is Some,
    ensures
        rows::secrets_list_of(items) =~= Seq::new(items.len(), |i: int| rows::secret_entry_of(items[i])->0),
    decreases items.len(),
{
    if items.len() > 0 {
        lemma_secret_list(items.drop_last());
        assert(rows::secret_entry_of(items[items.len() - 1]) is Some);
    }
}

/// The list of the secrets is read with every row, in order.
pub proof fn law_secret_rows_are_read_as_written(all: Seq<SecretRow>)
    ensures
        rows::secrets_list_of(broker_rows::secret_values(all)->Array_0) == Seq::new(
            all.len(),
            |i: int| secret_shown(all[i]),
        ),
{
    let items = broker_rows::secret_values(all)->Array_0;
    assert forall|i: int| 0 <= i < items.len() implies rows::secret_entry_of(#[trigger] items[i]) == Some(
        secret_shown(all[i]),
    ) by {
        law_a_secret_row_is_read_as_written(all[i]);
    }
    lemma_secret_list(items);
    assert(rows::secrets_list_of(items) =~= Seq::new(all.len(), |i: int| secret_shown(all[i])));
}

/// What is shown of a [`ProjectRow`].
pub open spec fn project_shown(r: ProjectRow) -> ProjectEntryV {
    ProjectEntryV {
        name: r.name@,
        paths: text::texts(r.paths@),
    }
}

/// The row of a project is read with every member in its place.
pub proof fn law_a_project_row_is_read_as_written(r: ProjectRow)
    ensures
        rows::project_entry_of(broker_rows::project_value(r)) == Some(project_shown(r)),
{
    broadcast use json::lemma_with_get;

    lemma_names_differ();
    reveal_strlit("");
    assert(""@ =~= Seq::<char>::empty());
    assert(forall|key: Seq<char>| json::empty_object().get(key) is None);
    json::lemma_texts_of_texts(text::texts(r.paths@));
}

/// Where every item is a row, the rows are those of the items, one by one.
proof fn lemma_project_list(items: Seq<JsonV>)
    requires
        forall|i: int| 0 <= i < items.len() ==> rows::project_entry_of(#[trigger] items[i]) is Some,
    ensures
        rows::projects_list_of(items) =~= Seq::new(items.len(), |i: int| rows::project_entry_of(items[i])->0),
    decreases items.len(),
{
    if items.len() > 0 {
        lemma_project_list(items.drop_last());
        assert(rows::project_entry_of(items[items.len() - 1]) is Some);
    }
}

/// The list of the projects is read with every row, in order.
pub proof fn law_project_rows_are_read_as_written(all: Seq<ProjectRow>)
    ensures
        rows::projects_list_of(broker_rows::project_values(all)->Array_0) == Seq::new(
            all.len(),
            |i: int| project_shown(all[i]),
        ),
{
    let items = broker_rows::project_values(all)->Array_0;
    assert forall|i: int| 0 <= i < items.len() implies rows::project_entry_of(#[trigger] items[i]) == Some(
        project_shown(all[i]),
    ) by {
        law_a_project_row_is_read_as_written(all[i]);
    }
    lemma_project_list(items);
    assert(rows::projects_list_of(items) =~= Seq::new(all.len(), |i: int| project_shown(all[i])));
}

/// What is shown of a [`AgentRow`].
pub open spec fn agent_shown(r: AgentRow) -> AgentEntryV {
    AgentEntryV {
        name: r.name@,
        status: r.status@,
        token_prefix: r.token_prefix@,
    }
}

/// The row of an agent is read with every member in its place.
pub proof fn law_an_agent_row_is_read_as_written(r: AgentRow)
    ensures
        rows::agent_entry_of(broker_rows::agent_value(r)) == Some(agent_shown(r)),
{
    broadcast use json::lemma_with_get;

    lemma_names_differ();
    reveal_strlit("");
    assert(""@ =~= Seq::<char>::empty());
    assert(forall|key: Seq<char>| json::empty_object().get(key) is None);
}

/// Where every item is a row, the rows are those of the items, one by one.
proof fn lemma_agent_list(items: Seq<JsonV>)
    requires
        forall|i: int| 0 <= i < items.len() ==> rows::agent_entry_of(#[trigger] items[i]) is Some,
    ensures
        rows::agents_list_of(items) =~= Seq::new(items.len(), |i: int| rows::agent_entry_of(items[i])->0),
    decreases items.len(),
{
    if items.len() > 0 {
        lemma_agent_list(items.drop_last());
        assert(rows::agent_entry_of(items[items.len() - 1]) is Some);
    }
}

/// The list of the agents is read with every row, in order.
pub proof fn law_agent_rows_are_read_as_written(all: Seq<AgentRow>)
    ensures
        rows::agents_list_of(broker_rows::agent_values(all)->Array_0) == Seq::new(
            all.len(),
            |i: int| agent_shown(all[i]),
        ),
{
    let items = broker_rows::agent_values(all)->Array_0;
    assert forall|i: int| 0 <= i < items.len() implies rows::agent_entry_of(#[trigger] items[i]) == Some(
        agent_shown(all[i]),
    ) by {
        law_an_agent_row_is_read_as_written(all[i]);
    }
    lemma_agent_list(items);
    assert(rows::agents_list_of(items) =~= Seq::new(all.len(), |i: int| agent_shown(all[i])));
}

/// What is shown of a [`GrantRow`].
pub open spec fn grant_shown(r: GrantRow) -> GrantEntryV {
    GrantEntryV {
        agent: r.agent@,
        project: r.project@,
        ops: text::texts(r.ops@),
        revoked: r.revoked,
    }
}

/// The row of a grant is read with every member in its place.
pub proof fn law_a_grant_row_is_read_as_written(r: GrantRow)
    ensures
        rows::grant_entry_of(broker_rows::grant_value(r)) == Some(grant_shown(r)),
{
    broadcast use json::lemma_with_get;

    lemma_names_differ();
    reveal_strlit("");
    assert(""@ =~= Seq::<char>::empty());
    assert(forall|key: Seq<char>| json::empty_object().get(key) is None);
    json::lemma_texts_of_texts(text::texts(r.ops@));
}

/// Where every item is a row, the rows are those of the items, one by one.
proof fn lemma_grant_list(items: Seq<JsonV>)
    requires
        forall|i: int| 0 <= i < items.len() ==> rows::grant_entry_of(#[trigger] items[i]) is Some,
    ensures
        rows::grants_list_of(items) =~= Seq::new(items.len(), |i: int| rows::grant_entry_of(items[i])->0),
    decreases items.len(),
{
    if items.len() > 0 {
        lemma_grant_list(items.drop_last());
        assert(rows::grant_entry_of(items[items.len() - 1]) is Some);
    }
}

/// The list of the grants is read with every row, in order.
pub proof fn law_grant_rows_are_read_as_written(all: Seq<GrantRow>)
    ensures
        rows::grants_list_of(broker_rows::grant_values(all)->Array_0) == Seq::new(
            all.len(),
            |i: int| grant_shown(all[i]),
        ),
{
    let items = broker_rows::grant_values(all)->Array_0;
    assert forall|i: int| 0 <= i < items.len() implies rows::grant_entry_of(#[trigger] items[i]) == Some(
        grant_shown(all[i]),
    ) by {
        law_a_grant_row_is_read_as_written(all[i]);
    }
    lemma_grant_list(items);
    assert(rows::grants_list_of(items) =~= Seq::new(all.len(), |i: int| grant_shown(all[i])));
}

/// What is shown of a [`ApprovalRow`].
pub open spec fn approval_shown(r: ApprovalRow) -> ApprovalEntryV {
    ApprovalEntryV {
        approval_id: r.id@,
        agent: match r.agent {
            Some(t) => t@,
            None => Seq::empty(),
        },
        project: match r.project {
            Some(t) => t@,
            None => Seq::empty(),
        },
        key: r.key@,
        status: "pending"@,
        expires_at: r.expires_at@,
    }
}

/// The row of an approval is read with every member in its place.
pub proof fn law_an_approval_row_is_read_as_written(r: ApprovalRow)
    ensures
        rows::approval_entry_of(broker_rows::approval_value(r)) == Some(approval_shown(r)),
{
    broadcast use json::lemma_with_get;

    lemma_names_differ();
    reveal_strlit("");
    assert(""@ =~= Seq::<char>::empty());
    assert(forall|key: Seq<char>| json::empty_object().get(key) is None);
}

/// Where every item is a row, the rows are those of the items, one by one.
proof fn lemma_approval_list(items: Seq<JsonV>)
    requires
        forall|i: int| 0 <= i < items.len() ==> rows::approval_entry_of(#[trigger] items[i]) is Some,
    ensures
        rows::approvals_pending_of(items) =~= Seq::new(items.len(), |i: int| rows::approval_entry_of(items[i])->0),
    decreases items.len(),
{
    if items.len() > 0 {
        lemma_approval_list(items.drop_last());
        assert(rows::approval_entry_of(items[items.len() - 1]) is Some);
    }
}

/// The list of the approvals is read with every row, in order.
pub proof fn law_approval_rows_are_read_as_written(all: Seq<ApprovalRow>)
    ensures
        rows::approvals_pending_of(broker_rows::approval_values(all)->Array_0) == Seq::new(
            all.len(),
            |i: int| approval_shown(all[i]),
        ),
{
    let items = broker_rows::approval_values(all)->Array_0;
    assert forall|i: int| 0 <= i < items.len() implies rows::approval_entry_of(#[trigger] items[i]) == Some(
        approval_shown(all[i]),
    ) by {
        law_an_approval_row_is_read_as_written(all[i]);
    }
    lemma_approval_list(items);
    assert(rows::approvals_pending_of(items) =~= Seq::new(all.len(), |i: int| approval_shown(all[i])));
}

/// What is shown of a [`LeaseRow`].
pub open spec fn lease_shown(r: LeaseRow) -> LeaseEntryV {
    LeaseEntryV {
        lease_id: r.id@,
        lease_prefix: r.prefix@,
        project: match r.project {
            Some(t) => t@,
            None => Seq::empty(),
        },
        ops: text::texts(r.ops@),
        expires_at: r.expires_at@,
        expires_in: if r.expires_in > 0 {
            r.expires_in as u64
        } else {
            0
        },
        status: if r.revoked {
            "revoked"@
        } else if r.lapsed {
            "expired"@
        } else {
            "active"@
        },
    }
}

/// The row of a lease is read with every member in its place.
pub proof fn law_a_lease_row_is_read_as_written(r: LeaseRow)
    ensures
        rows::lease_entry_of(broker_rows::lease_value(r)) == Some(lease_shown(r)),
{
    broadcast use json::lemma_with_get;

    lemma_names_differ();
    reveal_strlit("");
    assert(""@ =~= Seq::<char>::empty());
    assert(forall|key: Seq<char>| json::empty_object().get(key) is None);
    json::lemma_texts_of_texts(text::texts(r.ops@));
}

/// Where every item is a row, the rows are those of the items, one by one.
proof fn lemma_lease_list(items: Seq<JsonV>)
    requires
        forall|i: int| 0 <= i < items.len() ==> rows::lease_entry_of(#[trigger] items[i]) is Some,
    ensures
        rows::leases_list_of(items) =~= Seq::new(items.len(), |i: int| rows::lease_entry_of(items[i])->0),
    decreases items.len(),
{
    if items.len() > 0 {
        lemma_lease_list(items.drop_last());
        assert(rows::lease_entry_of(items[items.len() - 1]) is Some);
    }
}

/// The list of the leases is read with every row, in order.
pub proof fn law_lease_rows_are_read_as_written(all: Seq<LeaseRow>)
    ensures
        rows::leases_list_of(broker_rows::lease_values(all)->Array_0) == Seq::new(
            all.len(),
            |i: int| lease_shown(all[i]),
        ),
{
    let items = broker_rows::lease_values(all)->Array_0;
    assert forall|i: int| 0 <= i < items.len() implies rows::lease_entry_of(#[trigger] items[i]) == Some(
        lease_shown(all[i]),
    ) by {
        law_a_lease_row_is_read_as_written(all[i]);
    }
    lemma_lease_list(items);
    assert(rows::leases_list_of(items) =~= Seq::new(all.len(), |i: int| lease_shown(all[i])));
}

/// What is shown of a [`RunRow`].
pub open spec fn run_shown(r: RunRow) -> RunEntryV {
    RunEntryV {
        run_id: r.run_id@,
        agent: match r.agent_name {
            Some(t) => t@,
            None => r.agent_id@,
        },
        project: r.project@,
        pid: r.pid,
        started_at: r.started_at@,
        status: "running"@,
    }
}

/// The row of a run is read with every member in its place.
pub proof fn law_a_run_row_is_read_as_written(r: RunRow)
    ensures
        rows::run_entry_of(broker_rows::run_value(r)) == Some(run_shown(r)),
{
    broadcast use json::lemma_with_get;

    lemma_names_differ();
    reveal_strlit("");
    assert(""@ =~= Seq::<char>::empty());
    assert(forall|key: Seq<char>| json::empty_object().get(key) is None);
}

/// Where every item is a row, the rows are those of the items, one by one.
proof fn lemma_run_list(items: Seq<JsonV>)
    requires
        forall|i: int| 0 <= i < items.len() ==> rows::run_entry_of(#[trigger] items[i]) is Some,
    ensures
        rows::runs_list_of(items) =~= Seq::new(items.len(), |i: int| rows::run_entry_of(items[i])->0),
    decreases items.len(),
{
    if items.len() > 0 {
        lemma_run_list(items.drop_last());
        assert(rows::run_entry_of(items[items.len() - 1]) is Some);
    }
}

/// The list of the runs holds every run, each as it is, and stands in the order of the
/// identifiers.
pub proof fn law_runs_are_listed_by_their_identifiers(all: Seq<RunRow>)
    ensures
        ({
            let list = rows::runs_list_of(broker_rows::sorted_runs(all)->Array_0);
            &&& list.len() == all.len()
            &&& forall|k: int| 0 <= k < all.len() ==> list.contains(#[trigger] run_shown(all[k]))
            &&& forall|i: int|
                0 <= i < list.len() ==> exists|k: int|
                    0 <= k < all.len() && #[trigger] list[i] == run_shown(#[trigger] all[k])
            &&& forall|i: int, j: int|
                0 <= i < j < list.len() ==> !order::before(
                    (#[trigger] list[j]).run_id,
                    (#[trigger] list[i]).run_id,
                )
        }),
{
    let ids = broker_rows::run_ids(all);
    let places = order::sorting(ids, all.len());
    let items = broker_rows::sorted_runs(all)->Array_0;
    let list = rows::runs_list_of(items);
    order::law_sorting_sorts(ids, all.len());
    assert forall|i: int| 0 <= i < items.len() implies rows::run_entry_of(#[trigger] items[i]) == Some(
        run_shown(all[places[i]]),
    ) by {
        law_a_run_row_is_read_as_written(all[places[i]]);
    }
    lemma_run_list(items);
    assert forall|i: int| 0 <= i < list.len() implies #[trigger] list[i] == run_shown(
        all[places[i]],
    ) by {
        assert(rows::run_entry_of(items[i]) == Some(run_shown(all[places[i]])));
    }
    assert forall|k: int| 0 <= k < all.len() implies list.contains(
        #[trigger] run_shown(all[k]),
    ) by {
        order::law_sorting_is_a_permutation(ids, all.len(), k);
        let i = places.index_of(k);
        assert(places[i] == k);
        assert(list[i] == run_shown(all[k]));
    }
    assert forall|i: int, j: int| 0 <= i < j < list.len() implies !order::before(
        (#[trigger] list[j]).run_id,
        (#[trigger] list[i]).run_id,
    ) by {
        let (a, b) = (ids[places[i]], ids[places[j]]);
        assert(list[i].run_id == a && list[j].run_id == b);
        assert(order::stands_before(ids, places[i], places[j]));
        order::lemma_before_irreflexive(a);
        if order::before(b, a) && order::before(a, b) {
            order::lemma_before_transitive(a, b, a);
        }
    }
}

/// What is shown of an entry of the log.
pub open spec fn entry_shown(l: LineV) -> AuditEntryV {
    AuditEntryV {
        seq: l.event.seq,
        ts: l.event.ts,
        actor: l.event.actor,
        op: l.event.op,
        project: l.event.project,
        keys: l.event.keys,
        decision: match l.event.decision {
            audit::Decision::Allowed => "allowed"@,
            audit::Decision::Denied => "denied"@,
        },
        reason: l.event.reason,
        run_id: l.event.run_id,
        authenticated: l.mac is Some,
    }
}

/// What an object gives a name after a text was added where there is one.
proof fn lemma_with_text(j: JsonV, k: Seq<char>, t: Option<Seq<char>>, key: Seq<char>)
    requires
        j is Object,
    ensures
        audit::with_text(j, k, t) is Object,
        key != k ==> audit::with_text(j, k, t).get(key) == j.get(key),
        key == k && j.get(key) is None ==> audit::with_text(j, k, t).at(key).text() == t,
{
    match t {
        Some(s) => {
            json::lemma_with_get(j, k, JsonV::Str(s), key);
        },
        None => {},
    }
}

/// What an object gives a name after a number was added under another.
proof fn lemma_with_int(j: JsonV, k: Seq<char>, n: Option<int>, key: Seq<char>)
    requires
        j is Object,
    ensures
        audit::with_int(j, k, n) is Object,
        key != k ==> audit::with_int(j, k, n).get(key) == j.get(key),
{
    match n {
        Some(i) => {
            json::lemma_with_get(j, k, json::int_value(i), key);
        },
        None => {},
    }
}

/// What follows the first members of an entry changes none of them.
proof fn lemma_tail(base: JsonV, l: LineV, key: Seq<char>)
    requires
        base is Object,
        key != "executable"@,
        key != "arg_count"@,
        key != "cwd"@,
        key != "result"@,
        key != "exit_code"@,
        key != "signal"@,
        key != "hash"@,
    ensures
        ({
            let e = l.event;
            let a = audit::with_text(base, "run_id"@, e.run_id);
            let b = audit::with_text(a, "executable"@, e.executable);
            let c = audit::with_int(b, "arg_count"@, audit::opt_u64(e.arg_count));
            let d = audit::with_text(c, "cwd"@, e.cwd);
            let f = audit::with_text(d, "result"@, e.result);
            let g = audit::with_int(f, "exit_code"@, audit::opt_i32(e.exit_code));
            let all = audit::with_text(g, "signal"@, e.signal).with(
                "hash"@,
                JsonV::Str(l.hash),
            ).with("mac"@, json::text_or_null(l.mac));
            &&& key != "run_id"@ && key != "mac"@ ==> all.get(key) == base.get(key)
            &&& key == "run_id"@ && key != "mac"@ && base.get(key) is None ==> all.at(key).text()
                == e.run_id
            &&& key != "run_id"@ && key == "mac"@ && base.get(key) is None ==> all.get(key)
                == Some(json::text_or_null(l.mac))
        }),
{
    let e = l.event;
    let a = audit::with_text(base, "run_id"@, e.run_id);
    let b = audit::with_text(a, "executable"@, e.executable);
    let c = audit::with_int(b, "arg_count"@, audit::opt_u64(e.arg_count));
    let d = audit::with_text(c, "cwd"@, e.cwd);
    let f = audit::with_text(d, "result"@, e.result);
    let g = audit::with_int(f, "exit_code"@, audit::opt_i32(e.exit_code));
    let h = audit::with_text(g, "signal"@, e.signal);
    lemma_with_text(base, "run_id"@, e.run_id, key);
    lemma_with_text(a, "executable"@, e.executable, key);
    lemma_with_int(b, "arg_count"@, audit::opt_u64(e.arg_count), key);
    lemma_with_text(c, "cwd"@, e.cwd, key);
    lemma_with_text(d, "result"@, e.result, key);
    lemma_with_int(f, "exit_code"@, audit::opt_i32(e.exit_code), key);
    lemma_with_text(g, "signal"@, e.signal, key);
    json::lemma_with_get(h, "hash"@, JsonV::Str(l.hash), key);
    json::lemma_with_get(
        h.with("hash"@, JsonV::Str(l.hash)),
        "mac"@,
        json::text_or_null(l.mac),
        key,
    );
}

/// The first members of an entry.
pub open spec fn first_members(l: LineV) -> JsonV {
    json::empty_object()
        .with("ts"@, JsonV::Str(l.event.ts))
        .with("seq"@, JsonV::UInt(l.event.seq))
        .with("prev_hash"@, JsonV::Str(l.event.prev_hash))
        .with("actor"@, JsonV::Str(l.event.actor))
        .with("op"@, JsonV::Str(l.event.op))
        .with("project"@, json::text_or_null(l.event.project))
        .with("keys"@, json::text_array(l.event.keys))
        .with("target"@, json::text_or_null(l.event.target))
        .with("decision"@, JsonV::Str(l.event.decision.word()))
        .with("reason"@, json::text_or_null(l.event.reason))
}

/// The members of an entry that are shown, by name.
pub proof fn lemma_entry_members(l: LineV)
    ensures
        ({
            let j = audit::line_value(l);
            &&& j.get("ts"@) == Some(JsonV::Str(l.event.ts))
            &&& j.get("seq"@) == Some(JsonV::UInt(l.event.seq))
            &&& j.get("actor"@) == Some(JsonV::Str(l.event.actor))
            &&& j.get("op"@) == Some(JsonV::Str(l.event.op))
            &&& j.get("project"@) == Some(json::text_or_null(l.event.project))
            &&& j.get("keys"@) == Some(json::text_array(l.event.keys))
            &&& j.get("target"@) == Some(json::text_or_null(l.event.target))
            &&& j.get("decision"@) == Some(JsonV::Str(l.event.decision.word()))
            &&& j.get("reason"@) == Some(json::text_or_null(l.event.reason))
            &&& j.at("run_id"@).text() == l.event.run_id
            &&& j.get("mac"@) == Some(json::text_or_null(l.mac))
        }),
{
    lemma_names_differ();
    let base = first_members(l);
    assert(base.get("run_id"@) is None && base.get("mac"@) is None && base.get("ts"@) == Some(
        JsonV::Str(l.event.ts),
    ) && base.get("seq"@) == Some(JsonV::UInt(l.event.seq)) && base.get("actor"@) == Some(
        JsonV::Str(l.event.actor),
    ) && base.get("op"@) == Some(JsonV::Str(l.event.op)) && base.get("project"@) == Some(
        json::text_or_null(l.event.project),
    ) && base.get("keys"@) == Some(json::text_array(l.event.keys)) && base.get("target"@) == Some(
        json::text_or_null(l.event.target),
    ) && base.get("decision"@) == Some(JsonV::Str(l.event.decision.word())) && base.get("reason"@)
        == Some(json::text_or_null(l.event.reason))) by {
        broadcast use json::lemma_with_get;

        assert(forall|key: Seq<char>| json::empty_object().get(key) is None);
    }
    lemma_tail(base, l, "ts"@);
    lemma_tail(base, l, "seq"@);
    lemma_tail(base, l, "actor"@);
    lemma_tail(base, l, "op"@);
    lemma_tail(base, l, "project"@);
    lemma_tail(base, l, "keys"@);
    lemma_tail(base, l, "target"@);
    lemma_tail(base, l, "decision"@);
    lemma_tail(base, l, "reason"@);
    lemma_tail(base, l, "run_id"@);
    lemma_tail(base, l, "mac"@);
}

/// An entry of the log is read with every member in its place, and counts as authenticated
/// exactly when it has a MAC.
pub proof fn law_an_entry_is_read_as_written(l: LineV)
    ensures
        rows::audit_entry_out_of(audit::line_value(l)) == Some(entry_shown(l)),
{
    lemma_entry_members(l);
    json::lemma_texts_of_texts(l.event.keys);
}

/// Where every item is an entry, the entries are those of the items, one by one.
proof fn lemma_entry_list(items: Seq<JsonV>)
    requires
        forall|i: int| 0 <= i < items.len() ==> rows::audit_entry_out_of(#[trigger] items[i]) is Some,
    ensures
        rows::audit_entries_of(items) =~= Seq::new(
            items.len(),
            |i: int| rows::audit_entry_out_of(items[i])->0,
        ),
    decreases items.len(),
{
    if items.len() > 0 {
        lemma_entry_list(items.drop_last());
        assert(rows::audit_entry_out_of(items[items.len() - 1]) is Some);
    }
}

/// The page of the log that an answer holds.
pub open spec fn page_answer(lines: Seq<AuditLine>, next: Option<u64>) -> JsonV {
    json::empty_object().with("entries"@, dispatch::line_values(lines)).with(
        "next_before_seq"@,
        match next {
            Some(n) => JsonV::UInt(n),
            None => JsonV::Null,
        },
    )
}

/// A page of the log is read with every entry, in order, and with the place where the next
/// page goes on.
pub proof fn law_a_page_is_read_as_written(lines: Seq<AuditLine>, next: Option<u64>)
    ensures
        rows::page_of(page_answer(lines, next)) == Ok::<
            (Seq<AuditEntryV>, Option<u64>),
            crate::dashboard::CmdErrorV,
        >((Seq::new(lines.len(), |i: int| entry_shown(lines[i]@)), next)),
{
    broadcast use json::lemma_with_get;

    lemma_names_differ();
    assert(forall|key: Seq<char>| json::empty_object().get(key) is None);
    let items = dispatch::line_values(lines)->Array_0;
    assert forall|i: int| 0 <= i < items.len() implies rows::audit_entry_out_of(
        #[trigger] items[i],
    ) == Some(entry_shown(lines[i]@)) by {
        law_an_entry_is_read_as_written(lines[i]@);
    }
    lemma_entry_list(items);
    assert(rows::audit_entries_of(items) =~= Seq::new(
        lines.len(),
        |i: int| entry_shown(lines[i]@),
    ));
}

} // verus!

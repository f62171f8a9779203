//! Running a child from the command line: what is sent, and what the exit of
//! the child becomes.
//!
//! There is no shell and no interpolation, and of the environment only the
//! allowed names travel.

use vstd::prelude::*;

use crate::client::{ExitedV, RunExit, RunStarted};
use crate::error::{Fault, VaultError};
use crate::json::{self, Json, JsonV};
use crate::text::{self, same};

verus! {

/// Whether a token source is one of the streams that the child inherits.
pub open spec fn aliases_stdio(token_fd: Option<i32>, token_file: Option<Seq<char>>) -> bool {
    (token_fd matches Some(fd) && fd <= 2) || token_file == Some("-"@)
}

/// Checks that the token does not come from a stream that the child inherits.
pub fn validate_run_token_source(token_fd: Option<i32>, token_file: Option<&str>) -> (r: Result<
    (),
    VaultError,
>)
    ensures
        match r {
            Ok(_) => !aliases_stdio(token_fd, json::opt_str(token_file)),
            Err(e) => aliases_stdio(token_fd, json::opt_str(token_file)) && e@
                == Fault::InvalidInput("run token source cannot alias child stdio"@),
        },
{
    let low = match token_fd {
        Some(fd) => fd <= 2,
        None => false,
    };
    let dash = match token_file {
        Some(f) => same(f, "-"),
        None => false,
    };
    if low || dash {
        Err(VaultError::InvalidInput("run token source cannot alias child stdio"))
    } else {
        Ok(())
    }
}

/// Whether a text holds a NUL.
pub open spec fn has_nul(s: Seq<char>) -> bool {
    exists|i: int| 0 <= i < s.len() && #[trigger] s[i] == '\0'
}

fn nul_in(s: &str) -> (r: bool)
    ensures
        r == has_nul(s@),
{
    let chars = text::chars_of(s);
    let mut i: usize = 0;
    while i < chars.len()
        invariant
            chars@ == s@,
            i <= chars@.len(),
            forall|k: int| 0 <= k < i ==> #[trigger] s@[k] != '\0',
        decreases chars@.len() - i,
    {
        if chars[i] == '\0' {
            assert(s@[i as int] == '\0');
            return true;
        }
        i = i + 1;
    }
    false
}

/// Whether an element of a command cannot be sent: it is empty or holds a NUL.
pub open spec fn bad_element(arg: Seq<char>) -> bool {
    arg.len() == 0 || has_nul(arg)
}

/// What is wrong with a command.
pub open spec fn argv_fault(command: Seq<Seq<char>>) -> Option<Fault> {
    if command.len() == 0 {
        Some(Fault::InvalidInput("missing command"@))
    } else if bad_element(command[0]) {
        Some(Fault::InvalidInput("invalid executable"@))
    } else if exists|i: int| 0 <= i < command.len() && bad_element(#[trigger] command[i]) {
        Some(Fault::InvalidInput("invalid argv value"@))
    } else {
        None
    }
}

/// Splits a command: the executable, which is also the first argument, and all
/// arguments as they are. An empty element is refused.
pub fn build_argv(command: &[String]) -> (r: Result<(String, Vec<String>), VaultError>)
    ensures
        match r {
            Ok((executable, argv)) => argv_fault(text::texts(command@)) is None && executable@
                == command@[0]@ && text::texts(argv@) == text::texts(command@),
            Err(e) => argv_fault(text::texts(command@)) == Some(e@),
        },
{
    let ghost all = text::texts(command@);
    if command.len() == 0 {
        return Err(VaultError::InvalidInput("missing command"));
    }
    assert(all[0] == command@[0]@);
    if command[0].as_str().is_empty() || nul_in(&command[0]) {
        return Err(VaultError::InvalidInput("invalid executable"));
    }
    let mut i: usize = 0;
    while i < command.len()
        invariant
            i <= command@.len(),
            all == text::texts(command@),
            all.len() > 0,
            !bad_element(all[0]),
            forall|k: int| 0 <= k < i ==> !bad_element(#[trigger] all[k]),
        decreases command@.len() - i,
    {
        assert(all[i as int] == command@[i as int]@);
        if command[i].as_str().is_empty() || nul_in(&command[i]) {
            assert(bad_element(all[i as int]));
            return Err(VaultError::InvalidInput("invalid argv value"));
        }
        i = i + 1;
    }
    Ok((command[0].clone(), crate::audit::copy_texts(command)))
}

// ---------------------------------------------------------------- environment
/// A name that may travel: whether it is forbidden all the same, and its value
/// in the caller's environment.
pub struct AllowedName {
    pub name: String,
    pub forbidden: bool,
    pub current: Option<String>,
}

/// The mathematical value of an [`AllowedName`].
pub struct AllowedV {
    pub name: Seq<char>,
    pub forbidden: bool,
    pub current: Option<Seq<char>>,
}

pub open spec fn allowed_values(v: Seq<AllowedName>) -> Seq<AllowedV> {
    Seq::new(
        v.len(),
        |i: int|
            AllowedV {
                name: v[i].name@,
                forbidden: v[i].forbidden,
                current: json::opt_text(v[i].current),
            },
    )
}

/// Where the first equals sign of a text stands.
pub open spec fn equals_at(s: Seq<char>) -> Option<nat>
    decreases s.len(),
{
    if s.len() == 0 {
        None
    } else {
        match equals_at(s.drop_last()) {
            Some(p) => Some(p),
            None => if s.last() == '=' {
                Some((s.len() - 1) as nat)
            } else {
                None
            },
        }
    }
}

/// The name and the value of an assignment.
pub open spec fn assignment(s: Seq<char>) -> Option<(Seq<char>, Seq<char>)> {
    match equals_at(s) {
        Some(p) => Some((s.take(p as int), s.skip((p + 1) as int))),
        None => None,
    }
}

/// Whether a name may be set.
pub open spec fn is_settable(name: Seq<char>, allowed: Seq<AllowedV>) -> bool {
    exists|i: int|
        0 <= i < allowed.len() && (#[trigger] allowed[i]).name == name && !allowed[i].forbidden
}

/// Whether an assignment is fine.
pub open spec fn is_valid_item(item: Seq<char>, allowed: Seq<AllowedV>) -> bool {
    match assignment(item) {
        Some((name, value)) => name.len() > 0 && !has_nul(name) && !has_nul(value) && is_settable(
            name,
            allowed,
        ),
        None => false,
    }
}

/// The value that some assignments give to a name: that of the last one.
pub open spec fn override_for(items: Seq<Seq<char>>, name: Seq<char>) -> Option<Seq<char>>
    decreases items.len(),
{
    if items.len() == 0 {
        None
    } else {
        match assignment(items.last()) {
            Some((n, v)) => if n == name {
                Some(v)
            } else {
                override_for(items.drop_last(), name)
            },
            None => override_for(items.drop_last(), name),
        }
    }
}

/// The value that a name travels with, if it does.
pub open spec fn travels_with(a: AllowedV, items: Seq<Seq<char>>) -> Option<Seq<char>> {
    match override_for(items, a.name) {
        Some(v) => Some(v),
        None => if a.forbidden {
            None
        } else {
            a.current
        },
    }
}

/// The environment that travels.
pub open spec fn traveling(allowed: Seq<AllowedV>, items: Seq<Seq<char>>) -> Seq<
    (Seq<char>, JsonV),
>
    decreases allowed.len(),
{
    if allowed.len() == 0 {
        Seq::empty()
    } else {
        let rest = traveling(allowed.drop_last(), items);
        match travels_with(allowed.last(), items) {
            Some(v) => rest.push((allowed.last().name, JsonV::Str(v))),
            None => rest,
        }
    }
}

fn find_equals(chars: &[char]) -> (r: Option<usize>)
    ensures
        match r {
            Some(p) => equals_at(chars@) == Some(p as nat) && p < chars@.len(),
            None => equals_at(chars@) is None,
        },
{
    let mut i: usize = 0;
    proof {
        assert(chars@.take(0) =~= Seq::<char>::empty());
    }
    while i < chars.len()
        invariant
            i <= chars@.len(),
            equals_at(chars@.take(i as int)) is None,
        decreases chars@.len() - i,
    {
        proof {
            assert(chars@.take(i + 1).drop_last() =~= chars@.take(i as int));
            assert(chars@.take(i + 1).last() == chars@[i as int]);
        }
        if chars[i] == '=' {
            proof {
                lemma_equals_stays(chars@, i + 1);
            }
            return Some(i);
        }
        i = i + 1;
    }
    proof {
        assert(chars@.take(i as int) =~= chars@);
    }
    None
}

proof fn lemma_equals_stays(s: Seq<char>, n: int)
    requires
        0 <= n <= s.len(),
        equals_at(s.take(n)) is Some,
    ensures
        equals_at(s) == equals_at(s.take(n)),
    decreases s.len() - n,
{
    if n == s.len() {
        assert(s.take(n) =~= s);
    } else {
        assert(s.take(n + 1).drop_last() =~= s.take(n));
        lemma_equals_stays(s, n + 1);
    }
}

fn collected(chars: &[char], from: usize, to: usize) -> (r: String)
    requires
        from <= to <= chars@.len(),
    ensures
        r@ == chars@.subrange(from as int, to as int),
{
    let mut out = String::new();
    let mut i: usize = from;
    proof {
        assert(chars@.subrange(from as int, from as int) =~= Seq::<char>::empty());
    }
    while i < to
        invariant
            from <= i <= to <= chars@.len(),
            out@ == chars@.subrange(from as int, i as int),
        decreases to - i,
    {
        out.push(chars[i]);
        proof {
            assert(chars@.subrange(from as int, i + 1) =~= chars@.subrange(
                from as int,
                i as int,
            ).push(chars@[i as int]));
        }
        i = i + 1;
    }
    out
}

fn split_assignment(item: &str) -> (r: Option<(String, String)>)
    ensures
        match r {
            Some((n, v)) => assignment(item@) == Some((n@, v@)),
            None => assignment(item@) is None,
        },
{
    let chars = text::chars_of(item);
    match find_equals(chars.as_slice()) {
        Some(p) => {
            let name = collected(chars.as_slice(), 0, p);
            let value = collected(chars.as_slice(), p + 1, chars.len());
            proof {
                assert(name@ =~= item@.take(p as int));
                assert(value@ =~= item@.skip(p + 1));
            }
            Some((name, value))
        },
        None => None,
    }
}

fn settable(name: &str, allowed: &[AllowedName]) -> (r: bool)
    ensures
        r == is_settable(name@, allowed_values(allowed@)),
{
    let ghost all = allowed_values(allowed@);
    let mut i: usize = 0;
    while i < allowed.len()
        invariant
            i <= allowed@.len(),
            all == allowed_values(allowed@),
            forall|k: int| 0 <= k < i ==> !((#[trigger] all[k]).name == name@ && !all[k].forbidden),
        decreases allowed@.len() - i,
    {
        assert(all[i as int].name == allowed@[i as int].name@);
        if same(&allowed[i].name, name) && !allowed[i].forbidden {
            return true;
        }
        i = i + 1;
    }
    false
}

/// The name and the value of every assignment; `None` where one is not fine.
fn read_overrides(items: &[String], allowed: &[AllowedName]) -> (r: Option<Vec<(String, String)>>)
    ensures
        match r {
            Some(v) => {
                &&& v@.len() == items@.len()
                &&& forall|i: int|
                    0 <= i < items@.len() ==> is_valid_item(
                        #[trigger] items@[i]@,
                        allowed_values(allowed@),
                    ) && assignment(items@[i]@) == Some((v@[i].0@, v@[i].1@))
            },
            None => exists|i: int|
                0 <= i < items@.len() && !is_valid_item(
                    #[trigger] items@[i]@,
                    allowed_values(allowed@),
                ),
        },
{
    let mut out: Vec<(String, String)> = Vec::new();
    let mut i: usize = 0;
    while i < items.len()
        invariant
            i <= items@.len(),
            out@.len() == i,
            forall|k: int|
                0 <= k < i ==> is_valid_item(#[trigger] items@[k]@, allowed_values(allowed@))
                    && assignment(items@[k]@) == Some((out@[k].0@, out@[k].1@)),
        decreases items@.len() - i,
    {
        match split_assignment(&items[i]) {
            Some((name, value)) => {
                if name.as_str().is_empty() || nul_in(&name) || nul_in(&value) || !settable(
                    &name,
                    allowed,
                ) {
                    assert(!is_valid_item(items@[i as int]@, allowed_values(allowed@)));
                    return None;
                }
                out.push((name, value));
            },
            None => {
                assert(!is_valid_item(items@[i as int]@, allowed_values(allowed@)));
                return None;
            },
        }
        i = i + 1;
    }
    Some(out)
}

/// The value that the assignments give to a name.
fn find_override(
    pairs: &[(String, String)],
    name: &str,
    Ghost(items): Ghost<Seq<Seq<char>>>,
) -> (r: Option<String>)
    requires
        items.len() == pairs@.len(),
        forall|i: int|
            0 <= i < items.len() ==> assignment(#[trigger] items[i]) == Some(
                (pairs@[i].0@, pairs@[i].1@),
            ),
    ensures
        json::opt_text(r) == override_for(items, name@),
{
    let mut n: usize = pairs.len();
    proof {
        assert(items.take(n as int) =~= items);
    }
    while n > 0
        invariant
            n <= pairs@.len(),
            items.len() == pairs@.len(),
            forall|i: int|
                0 <= i < items.len() ==> assignment(#[trigger] items[i]) == Some(
                    (pairs@[i].0@, pairs@[i].1@),
                ),
            override_for(items, name@) == override_for(items.take(n as int), name@),
        decreases n,
    {
        proof {
            assert(items.take(n as int).last() == items[n - 1]);
            assert(items.take(n as int).drop_last() =~= items.take(n - 1));
        }
        if same(&pairs[n - 1].0, name) {
            return Some(pairs[n - 1].1.clone());
        }
        n = n - 1;
    }
    None
}

/// Whether every assignment is fine.
pub open spec fn all_valid(items: Seq<Seq<char>>, allowed: Seq<AllowedV>) -> bool {
    forall|i: int| 0 <= i < items.len() ==> is_valid_item(#[trigger] items[i], allowed)
}

/// What a run is asked for with.
pub struct RunRequest<'a> {
    pub project: &'a str,
    pub keys: &'a [String],
    pub cwd: Option<&'a str>,
    pub env_overrides: &'a [String],
    pub timeout_secs: Option<u64>,
    pub executable: &'a str,
    pub argv: &'a [String],
}

/// The parameters of a run, where the assignments are fine: members that say
/// nothing are left out.
pub open spec fn run_params(q: RunRequest, allowed: Seq<AllowedV>) -> JsonV {
    let env = traveling(allowed, text::texts(q.env_overrides@));
    let a = json::empty_object().with("project"@, JsonV::Str(q.project@)).with(
        "executable"@,
        JsonV::Str(q.executable@),
    ).with("argv"@, json::text_array(text::texts(q.argv@)));
    let b = match q.cwd {
        Some(d) => a.with("cwd"@, JsonV::Str(d@)),
        None => a,
    };
    let c = if q.keys@.len() > 0 {
        b.with("keys"@, json::text_array(text::texts(q.keys@)))
    } else {
        b
    };
    let d = if env.len() > 0 {
        c.with("env"@, JsonV::Object(env))
    } else {
        c
    };
    match q.timeout_secs {
        Some(t) => d.with("timeout_secs"@, JsonV::UInt(t)),
        None => d,
    }
}

fn environment(
    allowed: &[AllowedName],
    pairs: &[(String, String)],
    Ghost(items): Ghost<Seq<Seq<char>>>,
) -> (r: (Json, usize))
    requires
        items.len() == pairs@.len(),
        forall|i: int|
            0 <= i < items.len() ==> assignment(#[trigger] items[i]) == Some(
                (pairs@[i].0@, pairs@[i].1@),
            ),
    ensures
        r.0@ == JsonV::Object(traveling(allowed_values(allowed@), items)),
        r.1 == traveling(allowed_values(allowed@), items).len(),
{
    let ghost all = allowed_values(allowed@);
    let mut env = Json::object();
    let mut count: usize = 0;
    let mut i: usize = 0;
    proof {
        assert(all.take(0) =~= Seq::empty());
    }
    while i < allowed.len()
        invariant
            i <= allowed@.len(),
            count <= i,
            all == allowed_values(allowed@),
            items.len() == pairs@.len(),
            forall|k: int|
                0 <= k < items.len() ==> assignment(#[trigger] items[k]) == Some(
                    (pairs@[k].0@, pairs@[k].1@),
                ),
            env@ == JsonV::Object(traveling(all.take(i as int), items)),
            count == traveling(all.take(i as int), items).len(),
        decreases allowed@.len() - i,
    {
        proof {
            assert(all.take(i + 1).drop_last() =~= all.take(i as int));
            assert(all.take(i + 1).last() == all[i as int]);
        }
        match find_override(pairs, &allowed[i].name, Ghost(items)) {
            Some(v) => {
                env.put(&allowed[i].name, Json::Str(v));
                count = count + 1;
            },
            None => {
                if !allowed[i].forbidden {
                    match &allowed[i].current {
                        Some(v) => {
                            env.put(&allowed[i].name, Json::Str(v.clone()));
                            count = count + 1;
                        },
                        None => {},
                    }
                }
            },
        }
        i = i + 1;
    }
    proof {
        assert(all.take(i as int) =~= all);
    }
    (env, count)
}

/// Builds the parameters of a run. `allowed` lists the names that may travel.
pub fn build_run_params(q: &RunRequest, allowed: &[AllowedName]) -> (r: Result<Json, VaultError>)
    ensures
        match r {
            Ok(j) => all_valid(text::texts(q.env_overrides@), allowed_values(allowed@)) && j@
                == run_params(*q, allowed_values(allowed@)),
            Err(e) => !all_valid(text::texts(q.env_overrides@), allowed_values(allowed@)) && e@
                == Fault::InvalidInput("invalid env entry"@),
        },
{
    let ghost items = text::texts(q.env_overrides@);
    let pairs = match read_overrides(q.env_overrides, allowed) {
        Some(v) => v,
        None => {
            proof {
                let i = choose|i: int|
                    0 <= i < q.env_overrides@.len() && !is_valid_item(
                        #[trigger] q.env_overrides@[i]@,
                        allowed_values(allowed@),
                    );
                assert(!is_valid_item(items[i], allowed_values(allowed@)));
            }
            return Err(VaultError::InvalidInput("invalid env entry"));
        },
    };
    proof {
        assert forall|i: int| 0 <= i < items.len() implies is_valid_item(
            #[trigger] items[i],
            allowed_values(allowed@),
        ) && assignment(items[i]) == Some((pairs@[i].0@, pairs@[i].1@)) by {
            assert(items[i] == q.env_overrides@[i]@);
        }
    }
    let (env, count) = environment(allowed, pairs.as_slice(), Ghost(items));
    let mut j = Json::object();
    j.put("project", Json::string(q.project));
    j.put("executable", Json::string(q.executable));
    j.put("argv", Json::strings(q.argv));
    match q.cwd {
        Some(d) => {
            j.put("cwd", Json::string(d));
        },
        None => {},
    }
    if q.keys.len() > 0 {
        j.put("keys", Json::strings(q.keys));
    }
    if count > 0 {
        j.put("env", env);
    }
    match q.timeout_secs {
        Some(t) => {
            j.put("timeout_secs", Json::UInt(t));
        },
        None => {},
    }
    Ok(j)
}

/// Only allowed names travel, and a forbidden one never does.
pub proof fn law_only_allowed_names_travel(
    allowed: Seq<AllowedV>,
    items: Seq<Seq<char>>,
    i: int,
)
    requires
        all_valid(items, allowed),
        0 <= i < traveling(allowed, items).len(),
    ensures
        is_settable(traveling(allowed, items)[i].0, allowed),
{
    lemma_traveling_names(allowed, allowed, items, i);
}

proof fn lemma_traveling_names(
    some: Seq<AllowedV>,
    allowed: Seq<AllowedV>,
    items: Seq<Seq<char>>,
    i: int,
)
    requires
        all_valid(items, allowed),
        some.len() <= allowed.len(),
        forall|k: int| 0 <= k < some.len() ==> some[k] == #[trigger] allowed[k],
        0 <= i < traveling(some, items).len(),
    ensures
        is_settable(traveling(some, items)[i].0, allowed),
    decreases some.len(),
{
    if some.len() > 0 {
        let rest = traveling(some.drop_last(), items);
        let last = some.last();
        if i < rest.len() {
            lemma_traveling_names(some.drop_last(), allowed, items, i);
        } else {
            assert(allowed[some.len() - 1] == last);
            if override_for(items, last.name) is Some {
                lemma_override_is_settable(items, last.name, allowed);
            }
        }
    }
}

proof fn lemma_override_is_settable(
    items: Seq<Seq<char>>,
    name: Seq<char>,
    allowed: Seq<AllowedV>,
)
    requires
        all_valid(items, allowed),
        override_for(items, name) is Some,
    ensures
        is_settable(name, allowed),
    decreases items.len(),
{
    if items.len() > 0 {
        let last = items.last();
        assert(is_valid_item(items[items.len() - 1], allowed));
        if !(assignment(last) matches Some((n, v)) && n == name) {
            assert forall|k: int| 0 <= k < items.drop_last().len() implies is_valid_item(
                #[trigger] items.drop_last()[k],
                allowed,
            ) by {
                assert(is_valid_item(items[k], allowed));
            }
            lemma_override_is_settable(items.drop_last(), name, allowed);
        }
    }
}

// ----------------------------------------------------------------------- exit
/// The line that reports a started child.
pub fn started_line(s: &RunStarted) -> (r: String)
    ensures
        r@ == "run "@ + s@.run_id + " pid "@ + text::integer_text(s@.pid as int),
{
    let mut out = "run ".to_string();
    out.push_str(&s.run_id);
    out.push_str(" pid ");
    out.push_str(&text::integer(s.pid as i64));
    out
}

/// The exit code of the command and the line that reports the end of the
/// child.
pub open spec fn exit_report(e: ExitedV) -> Result<(i32, Seq<char>), Fault> {
    match (e.exit_code, e.signal) {
        (Some(code), _) => Ok(
            (code, "run "@ + e.run_id + " exited "@ + text::integer_text(code as int)),
        ),
        (None, Some(signal)) => Ok((1i32, "run "@ + e.run_id + " signaled "@ + signal)),
        (None, None) => Err(Fault::Protocol("run: exited response lacks status"@)),
    }
}

/// Gives the exit code of the command, which is the child's own, and the line
/// that reports it.
pub fn execute_run(e: &RunExit) -> (r: Result<(i32, String), VaultError>)
    ensures
        match r {
            Ok((code, line)) => exit_report(e@) == Ok::<(i32, Seq<char>), Fault>((code, line@)),
            Err(f) => exit_report(e@) == Err::<(i32, Seq<char>), Fault>(f@),
        },
{
    let mut out = "run ".to_string();
    out.push_str(&e.run_id);
    match (e.exit_code, &e.signal) {
        (Some(code), _) => {
            out.push_str(" exited ");
            out.push_str(&text::integer(code as i64));
            Ok((code, out))
        },
        (None, Some(signal)) => {
            out.push_str(" signaled ");
            out.push_str(signal);
            Ok((1, out))
        },
        (None, None) => Err(
            VaultError::Protocol("run: exited response lacks status".to_string()),
        ),
    }
}

} // verus!

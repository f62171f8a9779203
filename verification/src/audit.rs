//! The authenticated audit log: append-only lines of JSON in a hash chain,
//! with a MAC under a key derived from the master key.
//!
//! - `hash_i = SHA-256(prev_hash_i || canonical(event_i))`, where the canonical
//!   form of an event is its JSON without `hash` and `mac`, in a fixed order of
//!   fields;
//! - `mac_i = HMAC-SHA256(K_audit, prev_hash_i || canonical(event_i))`, only
//!   while the vault is unlocked. An entry without a MAC is unauthenticated: a
//!   later MAC fixes its position and bytes, never its provenance;
//! - the first `prev_hash` is 32 zero bytes.
//!
//! A log is handed over as its decoded lines, where `None` stands for a line
//! that is no audit entry. No field of a record could carry a secret value.

use vstd::prelude::*;

use crate::json::{self, Json, JsonV};
use crate::text;

pub mod canonical;
pub mod chain;
pub mod laws;
pub mod log;
pub mod record_laws;

pub use chain::{check_checkpoint, derive_audit_key};
pub use log::{AuditLog, StagedEntry};

verus! {

/// Hard ceiling on the log file.
pub const MAX_AUDIT_LEN: u64 = 16_777_216;

/// Bytes below the hard ceiling that only lifecycle events may spend.
pub const AUDIT_HEADROOM: u64 = 2_097_152;

/// Ceiling for ordinary operations.
pub const AUDIT_SOFT_LIMIT: u64 = 14_680_064;

/// Whether an event may spend the reserved headroom and may proceed
/// unrecorded.
#[derive(Clone, Copy, PartialEq, Eq, Debug, Structural)]
pub enum Priority {
    /// An ordinary operation: it is refused if its entry cannot be written.
    Ordinary,
    /// A revocation, a lock or a drained run: it happens even unrecorded.
    Lifecycle,
}

#[derive(Clone, Copy, Debug, PartialEq, Eq, Structural)]
pub enum Decision {
    Allowed,
    Denied,
}

impl Decision {
    pub open spec fn word(self) -> Seq<char> {
        match self {
            Decision::Allowed => "allowed"@,
            Decision::Denied => "denied"@,
        }
    }

    /// The word for the decision.
    pub fn name(self) -> (r: &'static str)
        ensures
            r@ == self.word(),
    {
        match self {
            Decision::Allowed => "allowed",
            Decision::Denied => "denied",
        }
    }
}

/// The authenticated content of one entry: everything but `hash` and `mac`.
#[derive(Debug, PartialEq)]
pub struct AuditEvent {
    /// RFC 3339 timestamp.
    pub ts: String,
    pub seq: u64,
    pub prev_hash: String,
    pub actor: String,
    pub op: String,
    pub project: Option<String>,
    /// Names of keys only.
    pub keys: Vec<String>,
    pub target: Option<String>,
    pub decision: Decision,
    /// An error code, never a message.
    pub reason: Option<String>,
    pub run_id: Option<String>,
    /// The path only, never the arguments.
    pub executable: Option<String>,
    /// How many arguments, never the arguments themselves.
    pub arg_count: Option<u64>,
    pub cwd: Option<String>,
    pub result: Option<String>,
    pub exit_code: Option<i32>,
    pub signal: Option<String>,
}

/// The mathematical value of an [`AuditEvent`].
pub struct EventV {
    pub ts: Seq<char>,
    pub seq: u64,
    pub prev_hash: Seq<char>,
    pub actor: Seq<char>,
    pub op: Seq<char>,
    pub project: Option<Seq<char>>,
    pub keys: Seq<Seq<char>>,
    pub target: Option<Seq<char>>,
    pub decision: Decision,
    pub reason: Option<Seq<char>>,
    pub run_id: Option<Seq<char>>,
    pub executable: Option<Seq<char>>,
    pub arg_count: Option<u64>,
    pub cwd: Option<Seq<char>>,
    pub result: Option<Seq<char>>,
    pub exit_code: Option<i32>,
    pub signal: Option<Seq<char>>,
}

impl View for AuditEvent {
    type V = EventV;

    open spec fn view(&self) -> EventV {
        EventV {
            ts: self.ts@,
            seq: self.seq,
            prev_hash: self.prev_hash@,
            actor: self.actor@,
            op: self.op@,
            project: json::opt_text(self.project),
            keys: text::texts(self.keys@),
            target: json::opt_text(self.target),
            decision: self.decision,
            reason: json::opt_text(self.reason),
            run_id: json::opt_text(self.run_id),
            executable: json::opt_text(self.executable),
            arg_count: self.arg_count,
            cwd: json::opt_text(self.cwd),
            result: json::opt_text(self.result),
            exit_code: self.exit_code,
            signal: json::opt_text(self.signal),
        }
    }
}

/// One stored line: an event and its integrity fields.
#[derive(Debug, PartialEq)]
pub struct AuditLine {
    pub event: AuditEvent,
    pub hash: String,
    pub mac: Option<String>,
}

/// The mathematical value of an [`AuditLine`].
pub struct LineV {
    pub event: EventV,
    pub hash: Seq<char>,
    pub mac: Option<Seq<char>>,
}

impl View for AuditLine {
    type V = LineV;

    open spec fn view(&self) -> LineV {
        LineV { event: self.event@, hash: self.hash@, mac: json::opt_text(self.mac) }
    }
}

/// What a verification found.
#[derive(Clone, Copy, Debug, PartialEq, Eq, Structural)]
pub struct VerifyReport {
    pub entries: usize,
    pub macs_verified: usize,
    pub macs_null: usize,
}

/// One entry to record.
pub struct Record<'a> {
    pub actor: &'a str,
    pub op: &'a str,
    pub project: Option<&'a str>,
    pub keys: &'a [String],
    pub target: Option<&'a str>,
    pub decision: Decision,
    pub reason: Option<&'a str>,
}

/// One `run_with_secrets` entry to record.
pub struct RunRecord<'a> {
    pub actor: &'a str,
    pub project: Option<&'a str>,
    pub keys: &'a [String],
    pub run_id: Option<&'a str>,
    pub executable: Option<&'a str>,
    pub arg_count: Option<u64>,
    pub cwd: Option<&'a str>,
    pub decision: Decision,
    pub reason: Option<&'a str>,
    pub result: Option<&'a str>,
    pub exit_code: Option<i32>,
    pub signal: Option<&'a str>,
}

// ---------------------------------------------------------------- JSON form
/// String literals, separated by commas.
pub open spec fn quoted_list(items: Seq<Seq<char>>) -> Seq<char>
    decreases items.len(),
{
    if items.len() == 0 {
        Seq::empty()
    } else if items.len() == 1 {
        json::json_quoted(items[0])
    } else {
        quoted_list(items.drop_last()) + ","@ + json::json_quoted(items.last())
    }
}

/// A string literal, or `null`.
pub open spec fn quoted_or_null(t: Option<Seq<char>>) -> Seq<char> {
    match t {
        Some(s) => json::json_quoted(s),
        None => "null"@,
    }
}

/// A further member, left out when there is no value.
pub open spec fn text_member(head: Seq<char>, t: Option<Seq<char>>) -> Seq<char> {
    match t {
        Some(s) => head + json::json_quoted(s),
        None => Seq::empty(),
    }
}

/// A further member with an integer, left out when there is no value.
pub open spec fn int_member(head: Seq<char>, n: Option<int>) -> Seq<char> {
    match n {
        Some(k) => head + text::integer_text(k),
        None => Seq::empty(),
    }
}

pub open spec fn opt_u64(n: Option<u64>) -> Option<int> {
    match n {
        Some(k) => Some(k as int),
        None => None,
    }
}

pub open spec fn opt_i32(n: Option<i32>) -> Option<int> {
    match n {
        Some(k) => Some(k as int),
        None => None,
    }
}

/// The members that every event has, from the opening brace on.
pub open spec fn core_members(e: EventV) -> Seq<char> {
    "{\"ts\":"@ + json::json_quoted(e.ts) + ",\"seq\":"@ + text::decimal_text(e.seq as nat)
        + ",\"prev_hash\":"@ + json::json_quoted(e.prev_hash) + ",\"actor\":"@ + json::json_quoted(
        e.actor,
    ) + ",\"op\":"@ + json::json_quoted(e.op) + ",\"project\":"@ + quoted_or_null(e.project)
        + ",\"keys\":["@ + quoted_list(e.keys) + "],\"target\":"@ + quoted_or_null(e.target)
        + ",\"decision\":\""@ + e.decision.word() + "\",\"reason\":"@ + quoted_or_null(e.reason)
}

/// The members that only the events of a run have.
pub open spec fn run_members(e: EventV) -> Seq<char> {
    text_member(",\"run_id\":"@, e.run_id) + text_member(",\"executable\":"@, e.executable)
        + int_member(",\"arg_count\":"@, opt_u64(e.arg_count)) + text_member(",\"cwd\":"@, e.cwd)
        + text_member(",\"result\":"@, e.result) + int_member(
        ",\"exit_code\":"@,
        opt_i32(e.exit_code),
    ) + text_member(",\"signal\":"@, e.signal)
}

/// The canonical JSON of an event.
pub open spec fn canonical_text(e: EventV) -> Seq<char> {
    core_members(e) + run_members(e) + "}"@
}

/// The canonical bytes of an event.
pub open spec fn canonical_bytes(e: EventV) -> Seq<u8> {
    text::utf8(canonical_text(e))
}

/// The JSON of a stored line.
pub open spec fn line_json(l: LineV) -> Seq<char> {
    core_members(l.event) + run_members(l.event) + ",\"hash\":"@ + json::json_quoted(l.hash)
        + ",\"mac\":"@ + quoted_or_null(l.mac) + "}"@
}

fn push_quoted(out: &mut String, s: &str)
    ensures
        final(out)@ == old(out)@ + json::json_quoted(s@),
{
    out.push_str(&json::quoted(s));
}

fn push_quoted_or_null(out: &mut String, s: &Option<String>)
    ensures
        final(out)@ == old(out)@ + quoted_or_null(json::opt_text(*s)),
{
    match s {
        Some(t) => push_quoted(out, t),
        None => out.push_str("null"),
    }
}

fn push_text_member(out: &mut String, head: &str, s: &Option<String>)
    ensures
        final(out)@ == old(out)@ + text_member(head@, json::opt_text(*s)),
{
    match s {
        Some(t) => {
            out.push_str(head);
            push_quoted(out, t);
            proof {
                assert(out@ =~= old(out)@ + (head@ + json::json_quoted(t@)));
            }
        },
        None => {
            proof {
                assert(out@ =~= old(out)@ + Seq::<char>::empty());
            }
        },
    }
}

fn push_keys(out: &mut String, keys: &Vec<String>)
    ensures
        final(out)@ == old(out)@ + quoted_list(text::texts(keys@)),
{
    let ghost all = text::texts(keys@);
    let mut i: usize = 0;
    proof {
        assert(out@ =~= old(out)@ + quoted_list(all.take(0)));
    }
    while i < keys.len()
        invariant
            i <= keys@.len(),
            all == text::texts(keys@),
            out@ == old(out)@ + quoted_list(all.take(i as int)),
        decreases keys@.len() - i,
    {
        proof {
            assert(all.take(i + 1).drop_last() =~= all.take(i as int));
            assert(all.take(i + 1).last() == keys@[i as int]@);
        }
        if i > 0 {
            out.push_str(",");
        }
        push_quoted(out, &keys[i]);
        i = i + 1;
        proof {
            assert(out@ =~= old(out)@ + quoted_list(all.take(i as int)));
        }
    }
    proof {
        assert(all.take(all.len() as int) =~= all);
    }
}

fn push_int_member(out: &mut String, head: &str, n: Option<i64>)
    ensures
        final(out)@ == old(out)@ + int_member(
            head@,
            match n {
                Some(k) => Some(k as int),
                None => None,
            },
        ),
{
    match n {
        Some(k) => {
            out.push_str(head);
            out.push_str(&text::integer(k));
            proof {
                assert(out@ =~= old(out)@ + (head@ + text::integer_text(k as int)));
            }
        },
        None => {
            proof {
                assert(out@ =~= old(out)@ + Seq::<char>::empty());
            }
        },
    }
}

fn push_count_member(out: &mut String, head: &str, n: Option<u64>)
    ensures
        final(out)@ == old(out)@ + int_member(head@, opt_u64(n)),
{
    match n {
        Some(k) => {
            out.push_str(head);
            out.push_str(&text::decimal(k));
            proof {
                assert(out@ =~= old(out)@ + (head@ + text::integer_text(k as int)));
            }
        },
        None => {
            proof {
                assert(out@ =~= old(out)@ + Seq::<char>::empty());
            }
        },
    }
}

fn core_text(e: &AuditEvent) -> (out: String)
    ensures
        out@ == core_members(e@),
{
    let mut out = "{\"ts\":".to_string();
    push_quoted(&mut out, &e.ts);
    out.push_str(",\"seq\":");
    out.push_str(&text::decimal(e.seq));
    out.push_str(",\"prev_hash\":");
    push_quoted(&mut out, &e.prev_hash);
    out.push_str(",\"actor\":");
    push_quoted(&mut out, &e.actor);
    out.push_str(",\"op\":");
    push_quoted(&mut out, &e.op);
    out.push_str(",\"project\":");
    push_quoted_or_null(&mut out, &e.project);
    out.push_str(",\"keys\":[");
    push_keys(&mut out, &e.keys);
    out.push_str("],\"target\":");
    push_quoted_or_null(&mut out, &e.target);
    out.push_str(",\"decision\":\"");
    out.push_str(e.decision.name());
    out.push_str("\",\"reason\":");
    push_quoted_or_null(&mut out, &e.reason);
    out
}

fn run_text(e: &AuditEvent) -> (out: String)
    ensures
        out@ == run_members(e@),
{
    let mut out = String::new();
    push_text_member(&mut out, ",\"run_id\":", &e.run_id);
    proof {
        assert(out@ =~= text_member(",\"run_id\":"@, e@.run_id));
    }
    push_text_member(&mut out, ",\"executable\":", &e.executable);
    push_count_member(&mut out, ",\"arg_count\":", e.arg_count);
    push_text_member(&mut out, ",\"cwd\":", &e.cwd);
    push_text_member(&mut out, ",\"result\":", &e.result);
    push_int_member(
        &mut out,
        ",\"exit_code\":",
        match e.exit_code {
            Some(n) => Some(n as i64),
            None => None,
        },
    );
    push_text_member(&mut out, ",\"signal\":", &e.signal);
    out
}

/// The canonical bytes of an event.
pub fn canonical(event: &AuditEvent) -> (r: Vec<u8>)
    ensures
        r@ == canonical_bytes(event@),
{
    let mut out = core_text(event);
    out.push_str(&run_text(event));
    out.push_str("}");
    vstd::slice::slice_to_vec(out.as_str().as_bytes())
}

impl AuditLine {
    /// The JSON of the line, without the line feed.
    pub fn to_json_text(&self) -> (r: String)
        ensures
            r@ == line_json(self@),
    {
        let mut out = core_text(&self.event);
        out.push_str(&run_text(&self.event));
        out.push_str(",\"hash\":");
        push_quoted(&mut out, &self.hash);
        out.push_str(",\"mac\":");
        push_quoted_or_null(&mut out, &self.mac);
        out.push_str("}");
        out
    }
}

// ------------------------------------------------------------ display form
/// A labelled part of the display form, left out when there is no value.
pub open spec fn labelled(label: Seq<char>, t: Option<Seq<char>>) -> Seq<char> {
    match t {
        Some(s) => label + s,
        None => Seq::empty(),
    }
}

/// A labelled integer of the display form, left out when there is no value.
pub open spec fn labelled_int(label: Seq<char>, n: Option<int>) -> Seq<char> {
    match n {
        Some(k) => label + text::integer_text(k),
        None => Seq::empty(),
    }
}

/// The line as it is shown to a person. An entry without a MAC is marked.
pub open spec fn line_display(l: LineV) -> Seq<char> {
    let e = l.event;
    "#"@ + text::decimal_text(e.seq as nat) + " "@ + e.ts + " "@ + e.actor + " "@ + e.op + " "@
        + e.decision.word() + labelled(" reason="@, e.reason) + labelled(" project="@, e.project) + (
    if e.keys.len() == 0 {
        Seq::empty()
    } else {
        " keys="@ + text::debug_text(e.keys)
    }) + labelled(" target="@, e.target) + labelled(" run_id="@, e.run_id) + labelled(
        " executable="@,
        e.executable,
    ) + labelled_int(" arg_count="@, opt_u64(e.arg_count)) + labelled(" cwd="@, e.cwd) + labelled(
        " result="@,
        e.result,
    ) + labelled_int(" exit_code="@, opt_i32(e.exit_code)) + labelled(" signal="@, e.signal) + (
    if l.mac is None {
        " [unauthenticated]"@
    } else {
        Seq::empty()
    })
}

fn push_labelled(out: &mut String, label: &str, s: &Option<String>)
    ensures
        final(out)@ == old(out)@ + labelled(label@, json::opt_text(*s)),
{
    match s {
        Some(t) => {
            out.push_str(label);
            out.push_str(t);
            proof {
                assert(out@ =~= old(out)@ + (label@ + t@));
            }
        },
        None => {
            proof {
                assert(out@ =~= old(out)@ + Seq::<char>::empty());
            }
        },
    }
}

impl AuditLine {
    /// The line as it is shown to a person.
    pub fn display(&self) -> (r: String)
        ensures
            r@ == line_display(self@),
    {
        let e = &self.event;
        let mut out = "#".to_string();
        out.push_str(&text::decimal(e.seq));
        out.push_str(" ");
        out.push_str(&e.ts);
        out.push_str(" ");
        out.push_str(&e.actor);
        out.push_str(" ");
        out.push_str(&e.op);
        out.push_str(" ");
        out.push_str(e.decision.name());
        push_labelled(&mut out, " reason=", &e.reason);
        push_labelled(&mut out, " project=", &e.project);
        let names = if e.keys.len() == 0 {
            String::new()
        } else {
            text::joined(" keys=", &text::debug_list(e.keys.as_slice()))
        };
        out.push_str(&names);
        push_labelled(&mut out, " target=", &e.target);
        push_labelled(&mut out, " run_id=", &e.run_id);
        push_labelled(&mut out, " executable=", &e.executable);
        push_count_member(&mut out, " arg_count=", e.arg_count);
        push_labelled(&mut out, " cwd=", &e.cwd);
        push_labelled(&mut out, " result=", &e.result);
        push_int_member(
            &mut out,
            " exit_code=",
            match e.exit_code {
                Some(n) => Some(n as i64),
                None => None,
            },
        );
        push_labelled(&mut out, " signal=", &e.signal);
        out.push_str(
            match self.mac {
                None => " [unauthenticated]",
                Some(_) => "",
            },
        );
        proof {
            reveal_strlit("");
            assert(""@ =~= Seq::<char>::empty());
        }
        out
    }
}

// -------------------------------------------------------------- wire form
/// The value of a stored line in a response.
pub open spec fn line_value(l: LineV) -> JsonV {
    let e = l.event;
    let base = json::empty_object()
        .with("ts"@, JsonV::Str(e.ts))
        .with("seq"@, JsonV::UInt(e.seq))
        .with(
        "prev_hash"@,
        JsonV::Str(e.prev_hash),
    ).with("actor"@, JsonV::Str(e.actor)).with("op"@, JsonV::Str(e.op)).with(
        "project"@,
        json::text_or_null(e.project),
    ).with("keys"@, json::text_array(e.keys)).with("target"@, json::text_or_null(e.target)).with(
        "decision"@,
        JsonV::Str(e.decision.word()),
    ).with("reason"@, json::text_or_null(e.reason));
    let a = with_text(base, "run_id"@, e.run_id);
    let b = with_text(a, "executable"@, e.executable);
    let c = with_int(b, "arg_count"@, opt_u64(e.arg_count));
    let d = with_text(c, "cwd"@, e.cwd);
    let f = with_text(d, "result"@, e.result);
    let g = with_int(f, "exit_code"@, opt_i32(e.exit_code));
    with_text(g, "signal"@, e.signal).with("hash"@, JsonV::Str(l.hash)).with(
        "mac"@,
        json::text_or_null(l.mac),
    )
}

/// A further member, left out when there is no value.
pub open spec fn with_text(j: JsonV, key: Seq<char>, t: Option<Seq<char>>) -> JsonV {
    match t {
        Some(s) => j.with(key, JsonV::Str(s)),
        None => j,
    }
}

/// A further integer member, left out when there is no value.
pub open spec fn with_int(j: JsonV, key: Seq<char>, n: Option<int>) -> JsonV {
    match n {
        Some(k) => j.with(key, json::int_value(k)),
        None => j,
    }
}

fn put_text(j: &mut Json, key: &str, t: &Option<String>)
    ensures
        final(j)@ == with_text(old(j)@, key@, json::opt_text(*t)),
{
    match t {
        Some(s) => j.put(key, Json::string(s)),
        None => {},
    }
}

fn opt_ref(t: &Option<String>) -> (r: Option<&str>)
    ensures
        json::opt_str(r) == json::opt_text(*t),
{
    match t {
        Some(s) => Some(s.as_str()),
        None => None,
    }
}

impl AuditLine {
    /// The line as a value of a response.
    pub fn to_json(&self) -> (r: Json)
        ensures
            r@ == line_value(self@),
    {
        let e = &self.event;
        let mut j = Json::object();
        j.put("ts", Json::string(&e.ts));
        j.put("seq", Json::UInt(e.seq));
        j.put("prev_hash", Json::string(&e.prev_hash));
        j.put("actor", Json::string(&e.actor));
        j.put("op", Json::string(&e.op));
        j.put("project", Json::string_or_null(opt_ref(&e.project)));
        j.put("keys", Json::strings(e.keys.as_slice()));
        j.put("target", Json::string_or_null(opt_ref(&e.target)));
        j.put("decision", Json::string(e.decision.name()));
        j.put("reason", Json::string_or_null(opt_ref(&e.reason)));
        put_text(&mut j, "run_id", &e.run_id);
        put_text(&mut j, "executable", &e.executable);
        match e.arg_count {
            Some(n) => j.put("arg_count", Json::UInt(n)),
            None => {},
        }
        put_text(&mut j, "cwd", &e.cwd);
        put_text(&mut j, "result", &e.result);
        match e.exit_code {
            Some(n) => j.put("exit_code", Json::integer(n as i64)),
            None => {},
        }
        put_text(&mut j, "signal", &e.signal);
        j.put("hash", Json::string(&self.hash));
        j.put("mac", Json::string_or_null(opt_ref(&self.mac)));
        j
    }
}

fn copy_text(t: &Option<String>) -> (r: Option<String>)
    ensures
        json::opt_text(r) == json::opt_text(*t),
{
    match t {
        Some(s) => Some(s.clone()),
        None => None,
    }
}

/// Another list with the same texts.
pub(crate) fn copy_texts(v: &[String]) -> (r: Vec<String>)
    ensures
        text::texts(r@) == text::texts(v@),
{
    let mut out: Vec<String> = Vec::new();
    let mut i: usize = 0;
    while i < v.len()
        invariant
            i <= v@.len(),
            out@.len() == i,
            forall|k: int| 0 <= k < i ==> (#[trigger] out@[k])@ == v@[k]@,
        decreases v@.len() - i,
    {
        out.push(v[i].clone());
        i = i + 1;
    }
    proof {
        assert(text::texts(out@) =~= text::texts(v@));
    }
    out
}

impl AuditEvent {
    /// Another event with the same content.
    pub fn duplicate(&self) -> (r: AuditEvent)
        ensures
            r@ == self@,
    {
        AuditEvent {
            ts: self.ts.clone(),
            seq: self.seq,
            prev_hash: self.prev_hash.clone(),
            actor: self.actor.clone(),
            op: self.op.clone(),
            project: copy_text(&self.project),
            keys: copy_texts(self.keys.as_slice()),
            target: copy_text(&self.target),
            decision: self.decision,
            reason: copy_text(&self.reason),
            run_id: copy_text(&self.run_id),
            executable: copy_text(&self.executable),
            arg_count: self.arg_count,
            cwd: copy_text(&self.cwd),
            result: copy_text(&self.result),
            exit_code: self.exit_code,
            signal: copy_text(&self.signal),
        }
    }
}

impl AuditLine {
    /// Another line with the same content.
    pub fn duplicate(&self) -> (r: AuditLine)
        ensures
            r@ == self@,
    {
        AuditLine {
            event: self.event.duplicate(),
            hash: self.hash.clone(),
            mac: copy_text(&self.mac),
        }
    }
}

/// What stands for a value stands for all of it, part by part.
pub proof fn law_the_view_of_audit_event_is_faithful(x: AuditEvent)
    ensures
        x@.ts == x.ts@,
        x@.seq == x.seq,
        x@.prev_hash == x.prev_hash@,
        x@.actor == x.actor@,
        x@.op == x.op@,
        x@.project == json::opt_text(x.project),
        x@.keys == text::texts(x.keys@),
        x@.target == json::opt_text(x.target),
        x@.decision == x.decision,
        x@.reason == json::opt_text(x.reason),
        x@.run_id == json::opt_text(x.run_id),
        x@.executable == json::opt_text(x.executable),
        x@.arg_count == x.arg_count,
        x@.cwd == json::opt_text(x.cwd),
        x@.result == json::opt_text(x.result),
        x@.exit_code == x.exit_code,
        x@.signal == json::opt_text(x.signal),
{
}

/// What stands for a value stands for all of it, part by part.
pub proof fn law_the_view_of_audit_line_is_faithful(x: AuditLine)
    ensures
        x@.event == x.event@,
        x@.hash == x.hash@,
        x@.mac == json::opt_text(x.mac),
{
}

} // verus!

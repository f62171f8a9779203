//! Admission: from the credentials of a request to an identity, or to a
//! refusal.
//!
//! Admission has two steps, because a credential can only be checked by the
//! vault session. [`examine`] looks at the shape of the request and names the
//! one credential to check; [`decide_admission`] takes the outcome of that check. What an
//! operation decided is then settled by [`settle`].

use vstd::prelude::*;

use crate::broker::ops::{self, Operation};
use crate::broker::params;
use crate::json;
use crate::text::joined;
use crate::wire::{self, AuthV, Request, RequestV, Response, ResponseV};

verus! {

/// Who a request authenticated as.
pub enum Identity {
    Human,
    Agent(String),
    Unauthenticated,
}

/// The mathematical value of an [`Identity`].
pub enum IdentityV {
    Human,
    Agent(Seq<char>),
    Unauthenticated,
}

impl View for Identity {
    type V = IdentityV;

    open spec fn view(&self) -> IdentityV {
        match self {
            Identity::Human => IdentityV::Human,
            Identity::Agent(a) => IdentityV::Agent(a@),
            Identity::Unauthenticated => IdentityV::Unauthenticated,
        }
    }
}

/// A refusal to record in the audit log. The reason is an error code, never a
/// message.
#[derive(Debug, PartialEq)]
pub struct Denial {
    pub actor: String,
    pub op: String,
    pub project: Option<String>,
    pub reason: String,
}

/// The mathematical value of a [`Denial`].
pub struct DenialV {
    pub actor: Seq<char>,
    pub op: Seq<char>,
    pub project: Option<Seq<char>>,
    pub reason: Seq<char>,
}

impl View for Denial {
    type V = DenialV;

    open spec fn view(&self) -> DenialV {
        DenialV {
            actor: self.actor@,
            op: self.op@,
            project: json::opt_text(self.project),
            reason: self.reason@,
        }
    }
}

/// A denial with or without a project.
pub fn denial(actor: &str, op: &str, project: Option<&str>, reason: &str) -> (r: Denial)
    ensures
        r@ == (DenialV {
            actor: actor@,
            op: op@,
            project: json::opt_str(project),
            reason: reason@,
        }),
{
    Denial {
        actor: actor.to_string(),
        op: op.to_string(),
        project: match project {
            Some(p) => Some(p.to_string()),
            None => None,
        },
        reason: reason.to_string(),
    }
}

/// What admission does next.
pub enum Examined {
    /// Record the refusal, if any, and answer at once.
    Answer { denial: Option<Denial>, response: Response },
    /// There is no vault and the request creates one.
    Create,
    /// Look the agent token up.
    Token(String),
    /// Check the passphrase proof.
    Proof,
    /// Look the session credential up.
    Session(String),
    /// No credential was presented.
    Anonymous,
}

/// The mathematical value of [`Examined`].
pub enum ExaminedV {
    Answer { denial: Option<DenialV>, response: ResponseV },
    Create,
    Token(Seq<char>),
    Proof,
    Session(Seq<char>),
    Anonymous,
}

impl View for Examined {
    type V = ExaminedV;

    open spec fn view(&self) -> ExaminedV {
        match self {
            Examined::Answer { denial, response } => ExaminedV::Answer {
                denial: opt_denial(*denial),
                response: response@,
            },
            Examined::Create => ExaminedV::Create,
            Examined::Token(t) => ExaminedV::Token(t@),
            Examined::Proof => ExaminedV::Proof,
            Examined::Session(s) => ExaminedV::Session(s@),
            Examined::Anonymous => ExaminedV::Anonymous,
        }
    }
}

/// How many credentials are presented.
pub open spec fn credentials(auth: AuthV) -> int {
    (if auth.token is Some { 1int } else { 0 }) + (if auth.passphrase is Some { 1int } else { 0 })
        + (if auth.session is Some { 1int } else { 0 })
}

pub open spec fn one_credential(id: Seq<char>) -> ResponseV {
    wire::err_response(
        id,
        "E_PROTOCOL"@,
        "provide exactly one credential: a token, a passphrase, or a session"@,
    )
}

pub open spec fn session_expired(id: Seq<char>) -> ResponseV {
    wire::err_response(id, "E_SESSION_EXPIRED"@, "session expired or revoked"@)
}

pub open spec fn authentication_failed(id: Seq<char>) -> ResponseV {
    wire::err_response(id, "E_AUTH"@, "authentication failed"@)
}

pub open spec fn no_vault(id: Seq<char>) -> ResponseV {
    wire::err_response(id, "E_NOT_FOUND"@, "no vault exists; run svault init"@)
}

/// The record of a request that was refused before anyone was established.
/// An empty name is no operation, so there is nothing to record of it.
pub open spec fn stranger_denial(req: RequestV, reason: Seq<char>) -> Option<DenialV> {
    if req.op.len() == 0 {
        None
    } else {
        Some(DenialV { actor: "unauthenticated"@, op: req.op, project: None, reason })
    }
}

/// The record of such a request.
pub fn deny_stranger(req: &Request, reason: &str) -> (r: Option<Denial>)
    ensures
        opt_denial(r) == stranger_denial(req@, reason@),
{
    if req.op.as_str().is_empty() {
        None
    } else {
        Some(denial("unauthenticated", &req.op, None, reason))
    }
}

/// What the shape of a request leads to. Where there is a vault, and so a log,
/// a refusal is recorded.
pub open spec fn examined(req: RequestV, vault_exists: bool) -> ExaminedV {
    if !vault_exists {
        if ops::operation_named(req.op) == Some(Operation::VaultCreate) {
            ExaminedV::Create
        } else {
            ExaminedV::Answer { denial: None, response: no_vault(req.id) }
        }
    } else if credentials(req.auth) > 1 {
        ExaminedV::Answer {
            denial: stranger_denial(req, "E_PROTOCOL"@),
            response: one_credential(req.id),
        }
    } else {
        match (req.auth.token, req.auth.passphrase, req.auth.session) {
            (Some(t), _, _) => ExaminedV::Token(t),
            (None, Some(_), _) => ExaminedV::Proof,
            (None, None, Some(s)) => if s.len() == 0 {
                ExaminedV::Answer {
                    denial: stranger_denial(req, "E_SESSION_EXPIRED"@),
                    response: session_expired(req.id),
                }
            } else {
                ExaminedV::Session(s)
            },
            (None, None, None) => ExaminedV::Anonymous,
        }
    }
}

/// Looks at the shape of a request: at most one credential, and which one.
pub fn examine(req: &Request, vault_exists: bool) -> (r: Examined)
    ensures
        r@ == examined(req@, vault_exists),
{
    if !vault_exists {
        return match Operation::parse(&req.op) {
            Some(Operation::VaultCreate) => Examined::Create,
            _ => Examined::Answer {
                denial: None,
                response: Response::err(
                    &req.id,
                    "E_NOT_FOUND",
                    "no vault exists; run svault init",
                ),
            },
        };
    }
    match (req.token(), req.passphrase(), req.session()) {
        (Some(_), Some(_), _) | (Some(_), _, Some(_)) | (_, Some(_), Some(_)) => Examined::Answer {
            denial: deny_stranger(req, "E_PROTOCOL"),
            response: Response::err(
                &req.id,
                "E_PROTOCOL",
                "provide exactly one credential: a token, a passphrase, or a session",
            ),
        },
        (Some(t), None, None) => Examined::Token(t.to_string()),
        (None, Some(_), None) => Examined::Proof,
        (None, None, Some(s)) => if s.is_empty() {
            Examined::Answer {
                denial: deny_stranger(req, "E_SESSION_EXPIRED"),
                response: Response::err(
                    &req.id,
                    "E_SESSION_EXPIRED",
                    "session expired or revoked",
                ),
            }
        } else {
            Examined::Session(s.to_string())
        },
        (None, None, None) => Examined::Anonymous,
    }
}

/// The outcome of checking the one presented credential.
pub enum Checked {
    /// The active agent that holds the token.
    Token(Option<String>),
    /// Whether the passphrase proof opens a key slot.
    Proof(bool),
    /// The actor of the live session that the credential names.
    Session(Option<String>),
    /// Nothing was presented.
    Anonymous,
}

/// What admission decides.
pub enum Admission {
    Admitted { identity: Identity, actor: String },
    Refused { denial: Option<Denial>, response: Response },
}

/// The mathematical value of an [`Admission`].
pub enum AdmissionV {
    Admitted { identity: IdentityV, actor: Seq<char> },
    Refused { denial: Option<DenialV>, response: ResponseV },
}

/// The value of an optional denial.
pub open spec fn opt_denial(d: Option<Denial>) -> Option<DenialV> {
    match d {
        Some(x) => Some(x@),
        None => None,
    }
}

impl View for Admission {
    type V = AdmissionV;

    open spec fn view(&self) -> AdmissionV {
        match self {
            Admission::Admitted { identity, actor } => AdmissionV::Admitted {
                identity: identity@,
                actor: actor@,
            },
            Admission::Refused { denial, response } => AdmissionV::Refused {
                denial: opt_denial(*denial),
                response: response@,
            },
        }
    }
}

/// The identity and the actor that a checked credential stands for; `None`
/// where the check failed.
pub open spec fn established(checked: Checked) -> Option<(IdentityV, Seq<char>)> {
    match checked {
        Checked::Token(Some(agent)) => Some((IdentityV::Agent(agent@), "agent:"@ + agent@)),
        Checked::Token(None) => None,
        Checked::Proof(true) => Some((IdentityV::Human, "human"@)),
        Checked::Proof(false) => None,
        Checked::Session(Some(actor)) => Some((IdentityV::Human, actor@)),
        Checked::Session(None) => None,
        Checked::Anonymous => Some((IdentityV::Unauthenticated, "unauthenticated"@)),
    }
}

/// The refusal for a credential whose check failed.
pub open spec fn rejected(req: RequestV, checked: Checked) -> AdmissionV {
    match checked {
        Checked::Session(_) => AdmissionV::Refused {
            denial: stranger_denial(req, "E_SESSION_EXPIRED"@),
            response: session_expired(req.id),
        },
        _ => AdmissionV::Refused {
            denial: Some(
                DenialV {
                    actor: if checked is Token { "agent:unknown"@ } else { "unauthenticated"@ },
                    op: req.op,
                    project: None,
                    reason: "E_AUTH"@,
                },
            ),
            response: authentication_failed(req.id),
        },
    }
}

/// What an established identity may do, before the operation itself decides.
pub open spec fn gated(req: RequestV, identity: IdentityV, actor: Seq<char>) -> AdmissionV {
    let op = ops::operation_named(req.op);
    if identity is Unauthenticated && op != Some(Operation::VaultStatus) {
        AdmissionV::Refused {
            denial: stranger_denial(req, "E_AUTH"@),
            response: wire::err_response(
                req.id,
                "E_AUTH"@,
                "unauthenticated: this operation requires agent or human credentials"@,
            ),
        }
    } else if identity is Agent && (op matches Some(o) && o.is_human_only()) {
        AdmissionV::Refused {
            denial: Some(
                DenialV { actor, op: req.op, project: None, reason: "E_HUMAN_REQUIRED"@ },
            ),
            response: wire::err_response(
                req.id,
                "E_HUMAN_REQUIRED"@,
                "this operation is human-only"@,
            ),
        }
    } else {
        match (identity, params::lease_objection(op, req.params)) {
            (IdentityV::Human, Some(why)) => AdmissionV::Refused {
                denial: Some(
                    DenialV { actor, op: req.op, project: None, reason: "E_INVALID_INPUT"@ },
                ),
                response: wire::err_response(req.id, "E_INVALID_INPUT"@, why),
            },
            _ => AdmissionV::Admitted { identity, actor },
        }
    }
}

/// What admission decides for a request whose credential was checked.
pub open spec fn admission(req: RequestV, checked: Checked) -> AdmissionV {
    match established(checked) {
        None => rejected(req, checked),
        Some((identity, actor)) => gated(req, identity, actor),
    }
}

/// Decides whether a request with a checked credential goes on to its
/// operation.
pub fn decide_admission(req: &Request, checked: Checked) -> (r: Admission)
    ensures
        r@ == admission(req@, checked),
{
    let (identity, actor): (Identity, String) = match checked {
        Checked::Token(Some(agent)) => {
            let actor = joined("agent:", &agent);
            (Identity::Agent(agent), actor)
        },
        Checked::Token(None) => {
            return Admission::Refused {
                denial: Some(denial("agent:unknown", &req.op, None, "E_AUTH")),
                response: Response::err(&req.id, "E_AUTH", "authentication failed"),
            };
        },
        Checked::Proof(ok) => if ok {
            (Identity::Human, "human".to_string())
        } else {
            return Admission::Refused {
                denial: Some(denial("unauthenticated", &req.op, None, "E_AUTH")),
                response: Response::err(&req.id, "E_AUTH", "authentication failed"),
            };
        },
        Checked::Session(Some(actor)) => (Identity::Human, actor),
        Checked::Session(None) => {
            return Admission::Refused {
                denial: deny_stranger(req, "E_SESSION_EXPIRED"),
                response: Response::err(
                    &req.id,
                    "E_SESSION_EXPIRED",
                    "session expired or revoked",
                ),
            };
        },
        Checked::Anonymous => (Identity::Unauthenticated, "unauthenticated".to_string()),
    };
    let op = Operation::parse(&req.op);
    match &identity {
        Identity::Unauthenticated => {
            let public = match op {
                Some(Operation::VaultStatus) => true,
                _ => false,
            };
            if !public {
                return Admission::Refused {
                    denial: deny_stranger(req, "E_AUTH"),
                    response: Response::err(
                        &req.id,
                        "E_AUTH",
                        "unauthenticated: this operation requires agent or human credentials",
                    ),
                };
            }
        },
        Identity::Agent(_) => {
            let refused = match op {
                Some(o) => o.human_only(),
                None => false,
            };
            if refused {
                return Admission::Refused {
                    denial: Some(denial(&actor, &req.op, None, "E_HUMAN_REQUIRED")),
                    response: Response::err(
                        &req.id,
                        "E_HUMAN_REQUIRED",
                        "this operation is human-only",
                    ),
                };
            }
        },
        Identity::Human => {
            match params::reject_lease_on_human_op(req) {
                Ok(_) => {},
                Err(why) => {
                    return Admission::Refused {
                        denial: Some(denial(&actor, &req.op, None, "E_INVALID_INPUT")),
                        response: Response::err(&req.id, "E_INVALID_INPUT", why),
                    };
                },
            }
        },
    }
    Admission::Admitted { identity, actor }
}

/// Whether the passphrase of a request is worth deriving a proof from: it is
/// the only credential. A session is the cheap path and must stay cheap, and
/// two credentials are refused anyway.
pub open spec fn derivation_wanted(auth: AuthV) -> bool {
    auth.passphrase is Some && auth.session is None && auth.token is None
}

/// Whether to derive the owner's proof before the vault session is taken.
pub fn wants_proof(req: &Request) -> (r: bool)
    ensures
        r == derivation_wanted(req@.auth),
{
    match (req.session(), req.passphrase(), req.token()) {
        (None, Some(_), None) => true,
        _ => false,
    }
}

/// What follows an operation.
pub struct Settlement {
    /// The session credential whose window slides.
    pub slide: Option<String>,
    /// The refusal to record.
    pub denial: Option<Denial>,
}

/// The session whose window slides: an allowed operation renews the session
/// that authenticated it, unless the operation manages the session itself.
pub open spec fn slides(req: RequestV, allowed: bool) -> Option<Seq<char>> {
    if allowed && !(ops::operation_named(req.op) matches Some(o) && o.manages_session()) {
        req.auth.session
    } else {
        None
    }
}

/// The refusal to record: a refused operation leaves a trace, once.
pub open spec fn residual_denial(
    req: RequestV,
    actor: Seq<char>,
    refusal: Option<Seq<char>>,
    already_recorded: bool,
) -> Option<DenialV> {
    match refusal {
        Some(code) => if req.op.len() > 0 && !already_recorded {
            Some(
                DenialV {
                    actor,
                    op: req.op,
                    project: req.params.at("project"@).text(),
                    reason: code,
                },
            )
        } else {
            None
        },
        None => None,
    }
}

/// Settles an operation: `refusal` is the error code of a refused one.
pub fn settle(
    req: &Request,
    actor: &str,
    refusal: Option<&str>,
    already_recorded: bool,
) -> (r: Settlement)
    ensures
        json::opt_text(r.slide) == slides(req@, refusal is None),
        opt_denial(r.denial) == residual_denial(
            req@,
            actor@,
            json::opt_str(refusal),
            already_recorded,
        ),
{
    match refusal {
        None => {
            let own = match Operation::parse(&req.op) {
                Some(Operation::SessionTouch) => true,
                Some(Operation::SessionOpen) => true,
                Some(Operation::SessionClose) => true,
                _ => false,
            };
            let slide = if own {
                None
            } else {
                match req.session() {
                    Some(c) => Some(c.to_string()),
                    None => None,
                }
            };
            Settlement { slide, denial: None }
        },
        Some(code) => {
            let recorded = if req.op.as_str().is_empty() || already_recorded {
                None
            } else {
                Some(denial(actor, &req.op, req.params.text_at("project"), code))
            };
            Settlement { slide: None, denial: recorded }
        },
    }
}

/// A request without credentials is never the owner and never an agent, and
/// is admitted to the public status alone.
pub proof fn law_anonymous_is_never_an_identity(req: RequestV)
    ensures
        match admission(req, Checked::Anonymous) {
            AdmissionV::Admitted { identity, .. } => identity is Unauthenticated
                && ops::operation_named(req.op) == Some(Operation::VaultStatus),
            AdmissionV::Refused { response, .. } => response.error matches Some(e) && e.code
                == "E_AUTH"@,
        },
{
}

/// Only a proof that opens a key slot, or a live session, makes a request the
/// owner's.
pub proof fn law_owner_needs_proof_or_session(req: RequestV, checked: Checked)
    ensures
        admission(req, checked) matches AdmissionV::Admitted { identity, .. } && identity is Human
            ==> checked == Checked::Proof(true)
                || (checked matches Checked::Session(s) && s is Some),
{
}

/// An agent is refused on every operation of the owner, and told so.
pub proof fn law_agents_stay_out_of_human_operations(req: RequestV, agent: String)
    requires
        ops::operation_named(req.op) matches Some(o) && o.is_human_only(),
    ensures
        admission(req, Checked::Token(Some(agent))) matches AdmissionV::Refused {
            denial,
            response,
        } && denial is Some && response == wire::err_response(
            req.id,
            "E_HUMAN_REQUIRED"@,
            "this operation is human-only"@,
        ),
{
}

/// A wrong passphrase and an unknown token are answered alike.
pub proof fn law_no_authentication_oracle(req: RequestV)
    ensures
        admission(req, Checked::Token(None)) matches AdmissionV::Refused { response: a, .. }
            && admission(req, Checked::Proof(false)) matches AdmissionV::Refused {
            response: b,
            ..
        } && a == b && a == authentication_failed(req.id),
{
}

/// A refusal says nothing of the credential: requests that differ only in the
/// texts of their credentials are refused with the same answer and record.
pub proof fn law_refusals_are_free_of_credentials(a: RequestV, b: RequestV, checked: Checked)
    requires
        a.id == b.id,
        a.op == b.op,
        a.params == b.params,
    ensures
        admission(a, checked) == admission(b, checked),
        credentials(a.auth) == credentials(b.auth) ==> match (examined(a, true), examined(b, true)) {
            (
                ExaminedV::Answer { denial: da, response: ra },
                ExaminedV::Answer { denial: db, response: rb },
            ) => ra == rb && da == db,
            _ => true,
        },
{
}

/// Two credentials are refused whatever they hold, before any is checked.
pub proof fn law_exactly_one_credential(req: RequestV)
    requires
        credentials(req.auth) > 1,
    ensures
        examined(req, true) == (ExaminedV::Answer {
            denial: stranger_denial(req, "E_PROTOCOL"@),
            response: one_credential(req.id),
        }),
        !derivation_wanted(req.auth),
{
}

/// A refused admission is recorded, unless the request names no operation.
pub proof fn law_refused_admissions_are_recorded(req: RequestV, checked: Checked)
    requires
        req.op.len() > 0,
    ensures
        examined(req, true) matches ExaminedV::Answer { denial, .. } ==> denial is Some,
        admission(req, checked) matches AdmissionV::Refused { denial, .. } ==> denial is Some,
{
}

/// A refused operation never slides a session window, and is recorded unless
/// it was recorded already or names no operation.
pub proof fn law_refusals_leave_a_trace(req: RequestV, actor: Seq<char>, code: Seq<char>)
    ensures
        slides(req, false) is None,
        req.op.len() > 0 ==> residual_denial(req, actor, Some(code), false) is Some,
        residual_denial(req, actor, Some(code), true) is None,
        residual_denial(req, actor, None, false) is None,
{
}

/// What stands for a value stands for all of it: the same variant, with every part.
pub proof fn law_the_view_of_identity_is_faithful(x: Identity)
    ensures
        match (x, x@) {
            (Identity::Human, IdentityV::Human) => true,
            (Identity::Agent(a), IdentityV::Agent(v0)) => v0 == a@,
            (Identity::Unauthenticated, IdentityV::Unauthenticated) => true,
            _ => false,
        },
{
}

/// What stands for a value stands for all of it, part by part.
pub proof fn law_the_view_of_denial_is_faithful(x: Denial)
    ensures
        x@.actor == x.actor@,
        x@.op == x.op@,
        x@.project == json::opt_text(x.project),
        x@.reason == x.reason@,
{
}

/// What stands for a value stands for all of it: the same variant, with every part.
pub proof fn law_the_view_of_examined_is_faithful(x: Examined)
    ensures
        match (x, x@) {
            (
                Examined::Answer { denial, response },
                ExaminedV::Answer { denial: denial_v, response: response_v },
            ) => denial_v == (opt_denial(denial))
                && response_v == response@,
            (Examined::Create, ExaminedV::Create) => true,
            (Examined::Token(t), ExaminedV::Token(v0)) => v0 == t@,
            (Examined::Proof, ExaminedV::Proof) => true,
            (Examined::Session(s), ExaminedV::Session(v0)) => v0 == s@,
            (Examined::Anonymous, ExaminedV::Anonymous) => true,
            _ => false,
        },
{
}

/// What stands for a value stands for all of it: the same variant, with every part.
pub proof fn law_the_view_of_admission_is_faithful(x: Admission)
    ensures
        match (x, x@) {
            (
                Admission::Admitted { identity, actor },
                AdmissionV::Admitted { identity: identity_v, actor: actor_v },
            ) => identity_v == identity@
                && actor_v == actor@,
            (
                Admission::Refused { denial, response },
                AdmissionV::Refused { denial: denial_v, response: response_v },
            ) => denial_v == (opt_denial(denial))
                && response_v == response@,
            _ => false,
        },
{
}

} // verus!

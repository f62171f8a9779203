//! The shapes of the wire: one request, one response.

use vstd::prelude::*;

use crate::error::VaultError;
use crate::json::{self, Json};

verus! {

/// The credentials that a request presents.
pub struct AuthField {
    pub token: Option<String>,
    pub passphrase: Option<String>,
    pub session: Option<String>,
}

/// One request.
pub struct Request {
    pub v: u64,
    pub id: String,
    pub op: String,
    pub auth: Option<AuthField>,
    pub params: Json,
}

/// Why a request was refused: a fixed code, a sentence, and data for the few
/// codes that carry some.
#[derive(Debug, PartialEq)]
pub struct WireError {
    pub code: String,
    pub msg: String,
    pub data: Option<Json>,
}

/// One response.
#[derive(Debug, PartialEq)]
pub struct Response {
    pub id: String,
    pub ok: bool,
    pub result: Option<Json>,
    pub error: Option<WireError>,
}

/// The mathematical value of a [`WireError`].
pub struct WireErrorV {
    pub code: Seq<char>,
    pub msg: Seq<char>,
    pub data: Option<json::JsonV>,
}

/// The mathematical value of a [`Response`].
pub struct ResponseV {
    pub id: Seq<char>,
    pub ok: bool,
    pub result: Option<json::JsonV>,
    pub error: Option<WireErrorV>,
}

/// The value of an optional JSON value.
pub open spec fn opt_json(o: Option<Json>) -> Option<json::JsonV> {
    match o {
        Some(j) => Some(j@),
        None => None,
    }
}

impl View for WireError {
    type V = WireErrorV;

    open spec fn view(&self) -> WireErrorV {
        WireErrorV { code: self.code@, msg: self.msg@, data: opt_json(self.data) }
    }
}

impl View for Response {
    type V = ResponseV;

    open spec fn view(&self) -> ResponseV {
        ResponseV {
            id: self.id@,
            ok: self.ok,
            result: opt_json(self.result),
            error: match self.error {
                Some(e) => Some(e@),
                None => None,
            },
        }
    }
}

/// The response that carries a result.
pub open spec fn ok_response(id: Seq<char>, result: json::JsonV) -> ResponseV {
    ResponseV { id, ok: true, result: Some(result), error: None }
}

/// The response that refuses with a code and a sentence.
pub open spec fn err_response(id: Seq<char>, code: Seq<char>, msg: Seq<char>) -> ResponseV {
    ResponseV { id, ok: false, result: None, error: Some(WireErrorV { code, msg, data: None }) }
}

/// The response that refuses with data beside the code and the sentence.
pub open spec fn err_data_response(
    id: Seq<char>,
    code: Seq<char>,
    msg: Seq<char>,
    data: json::JsonV,
) -> ResponseV {
    ResponseV {
        id,
        ok: false,
        result: None,
        error: Some(WireErrorV { code, msg, data: Some(data) }),
    }
}

impl Response {
    pub fn ok(id: &str, result: Json) -> (r: Response)
        ensures
            r@ == ok_response(id@, result@),
    {
        Response { id: id.to_string(), ok: true, result: Some(result), error: None }
    }

    pub fn err(id: &str, code: &str, msg: &str) -> (r: Response)
        ensures
            r@ == err_response(id@, code@, msg@),
    {
        Response {
            id: id.to_string(),
            ok: false,
            result: None,
            error: Some(WireError { code: code.to_string(), msg: msg.to_string(), data: None }),
        }
    }

    pub fn err_data(id: &str, code: &str, msg: &str, data: Json) -> (r: Response)
        ensures
            r@ == err_data_response(id@, code@, msg@, data@),
    {
        Response {
            id: id.to_string(),
            ok: false,
            result: None,
            error: Some(
                WireError { code: code.to_string(), msg: msg.to_string(), data: Some(data) },
            ),
        }
    }

    /// The response that reports an error by its code and message.
    pub fn failed(id: &str, e: &VaultError) -> (r: Response)
        ensures
            r@ == err_response(id@, e@.code(), e@.message()),
    {
        Response::err(id, e.code(), &e.message())
    }
}

/// The credentials of a request, by their texts.
pub struct AuthV {
    pub token: Option<Seq<char>>,
    pub passphrase: Option<Seq<char>>,
    pub session: Option<Seq<char>>,
}

/// The mathematical value of a [`Request`]; a request without credentials
/// counts as one with three absent credentials.
pub struct RequestV {
    pub v: u64,
    pub id: Seq<char>,
    pub op: Seq<char>,
    pub auth: AuthV,
    pub params: json::JsonV,
}

/// No credential at all.
pub open spec fn no_auth() -> AuthV {
    AuthV { token: None, passphrase: None, session: None }
}

impl View for AuthField {
    type V = AuthV;

    open spec fn view(&self) -> AuthV {
        AuthV {
            token: json::opt_text(self.token),
            passphrase: json::opt_text(self.passphrase),
            session: json::opt_text(self.session),
        }
    }
}

impl View for Request {
    type V = RequestV;

    open spec fn view(&self) -> RequestV {
        RequestV {
            v: self.v,
            id: self.id@,
            op: self.op@,
            auth: match self.auth {
                Some(a) => a@,
                None => no_auth(),
            },
            params: self.params@,
        }
    }
}

impl Request {
    /// The agent token that the request presents.
    pub fn token(&self) -> (r: Option<&str>)
        ensures
            json::opt_str(r) == self@.auth.token,
    {
        match &self.auth {
            Some(a) => match &a.token {
                Some(t) => Some(t.as_str()),
                None => None,
            },
            None => None,
        }
    }

    /// The passphrase that the request presents.
    pub fn passphrase(&self) -> (r: Option<&str>)
        ensures
            json::opt_str(r) == self@.auth.passphrase,
    {
        match &self.auth {
            Some(a) => match &a.passphrase {
                Some(t) => Some(t.as_str()),
                None => None,
            },
            None => None,
        }
    }

    /// The session credential that the request presents.
    pub fn session(&self) -> (r: Option<&str>)
        ensures
            json::opt_str(r) == self@.auth.session,
    {
        match &self.auth {
            Some(a) => match &a.session {
                Some(t) => Some(t.as_str()),
                None => None,
            },
            None => None,
        }
    }
}

/// What stands for a value stands for all of it, part by part.
pub proof fn law_the_view_of_wire_error_is_faithful(x: WireError)
    ensures
        x@.code == x.code@,
        x@.msg == x.msg@,
        x@.data == opt_json(x.data),
{
}

/// What stands for a value stands for all of it, part by part.
pub proof fn law_the_view_of_response_is_faithful(x: Response)
    ensures
        x@.id == x.id@,
        x@.ok == x.ok,
        x@.result == opt_json(x.result),
        x@.error == (match x.error {
                Some(e) => Some(e@),
                None => None,
            }),
{
}

/// What stands for a value stands for all of it, part by part.
pub proof fn law_the_view_of_auth_field_is_faithful(x: AuthField)
    ensures
        x@.token == json::opt_text(x.token),
        x@.passphrase == json::opt_text(x.passphrase),
        x@.session == json::opt_text(x.session),
{
}

/// What stands for a value stands for all of it, part by part.
pub proof fn law_the_view_of_request_is_faithful(x: Request)
    ensures
        x@.v == x.v,
        x@.id == x.id@,
        x@.op == x.op@,
        x@.auth == (match x.auth {
                Some(a) => a@,
                None => no_auth(),
            }),
        x@.params == x.params@,
{
}

} // verus!

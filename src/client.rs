use vstd::prelude::*;

use crate::error::{Error, ErrorKind};
use crate::json::{decode_strings, json_strings, member_text, member_text_of, string_views};
use crate::text::{decimal, decimal_text, parse_decimal, parse_usize};

verus! {

/// The HTTP method of a request.
#[derive(Clone, Copy, Debug, PartialEq, Eq, Structural)]
pub enum Method {
    Get,
    Post,
}

/// A request to the API, ready to be sent: method, full URI, and the value
/// of the `API-Token` header, if the request carries one. Its body is empty.
#[derive(Clone, Debug)]
pub struct HttpRequest {
    pub method: Method,
    pub uri: String,
    pub token: Option<String>,
}

/// What the API answered: the status code and the raw body.
#[derive(Clone, Debug)]
pub struct HttpResponse {
    pub status: u16,
    pub body: Vec<u8>,
}

/// What sending a request gave: the response, or the text of the transport
/// failure when none came.
pub type Reply = Result<HttpResponse, String>;

pub open spec fn status_ok(status: u16) -> bool {
    200 <= status < 300
}

/// Whether a reply arrived with a status of the success class.
pub open spec fn reply_ok(reply: Reply) -> bool {
    reply is Ok && status_ok(reply->Ok_0.status)
}

/// The kind of error that a reply without success gives.
pub open spec fn failure_kind(reply: Reply) -> ErrorKind {
    match reply {
        Ok(resp) => ErrorKind::RequestFailed(resp.status),
        Err(_) => ErrorKind::Transport,
    }
}

/// The log entries that a reply to the log request carries, if any.
pub open spec fn logs_of(reply: Reply) -> Option<Seq<Seq<char>>> {
    if reply_ok(reply) {
        json_strings(reply->Ok_0.body@)
    } else {
        None
    }
}

/// The message of a reply without success: the transport failure's text,
/// or what failed and the status.
pub open spec fn failure_message(reply: Reply, what: Seq<char>) -> Seq<char> {
    match reply {
        Ok(resp) => what + ": STATUS "@ + decimal(resp.status as nat),
        Err(text) => text@,
    }
}

pub open spec fn logs_decode_message() -> Seq<char> {
    "Logs are not a JSON array of strings"@
}

/// The message of a failed log fetch.
pub open spec fn logs_error(reply: Reply) -> Seq<char> {
    if reply_ok(reply) {
        logs_decode_message()
    } else {
        failure_message(reply, "Failed to fetch logs"@)
    }
}

/// The JSON text of the `id` member of a successful fund reply.
pub open spec fn fund_member_of(reply: Reply) -> Option<Seq<char>> {
    if reply_ok(reply) {
        member_text_of(reply->Ok_0.body@, "id"@)
    } else {
        None
    }
}

/// The fund ID that a reply to the fund request carries, if any.
pub open spec fn fund_id_of(reply: Reply) -> Option<usize> {
    match fund_member_of(reply) {
        Some(text) => parse_usize(text),
        None => None,
    }
}

pub open spec fn fund_id_message(text: Seq<char>) -> Seq<char> {
    "Fund ID is not an unsigned integer: "@ + text
}

/// The message of a failed fund ID fetch.
pub open spec fn fund_error(reply: Reply) -> Seq<char> {
    if !reply_ok(reply) {
        failure_message(reply, "Failed to fetch fund ID"@)
    } else {
        match fund_member_of(reply) {
            Some(text) => fund_id_message(text),
            None => "Fund has no member 'id'"@,
        }
    }
}

pub open spec fn health_path() -> Seq<char> {
    "api/health"@
}

pub open spec fn logs_get_path() -> Seq<char> {
    "api/control/logs/get"@
}

pub open spec fn logs_clear_path() -> Seq<char> {
    "api/control/logs/clear"@
}

pub open spec fn fund_path() -> Seq<char> {
    "api/v0/fund"@
}

pub open spec fn fund_update_path(id: nat) -> Seq<char> {
    "api/control/command/fund/id/"@ + decimal(id)
}

/// The abstract state of a client: the root URI that paths are appended to,
/// and the token that authorised requests carry.
pub ghost struct ClientView {
    pub root: Seq<char>,
    pub token: Seq<char>,
}

/// A client of the API. It builds the requests of the five operations and
/// interprets their replies.
pub struct Wrapper {
    token: String,
    root_uri: String,
}

/// The request a client with view `c` builds for `path`.
pub open spec fn request_for(c: ClientView, r: HttpRequest, method: Method, path: Seq<char>, auth: bool) -> bool {
    &&& r.method == method
    &&& r.uri@ == c.root + path
    &&& if auth { r.token is Some && r.token->Some_0@ == c.token } else { r.token is None }
}

/// Builds the error of a reply without success.
fn failure(reply: &Reply, what: &str) -> (r: Error)
    requires
        !reply_ok(*reply),
    ensures
        r.kind == failure_kind(*reply),
        r.message@ == failure_message(*reply, what@),
{
    proof { reveal_strlit(": STATUS "); }
    match reply {
        Ok(resp) => {
            let mut message = String::from_str(what);
            message.append(": STATUS ");
            let code = decimal_text(resp.status as usize);
            message.append(code.as_str());
            Error::new(ErrorKind::RequestFailed(resp.status), message)
        },
        Err(text) => Error::new(ErrorKind::Transport, text.clone()),
    }
}

fn is_success(reply: &Reply) -> (r: bool)
    ensures
        r == reply_ok(*reply),
{
    match reply {
        Ok(resp) => 200 <= resp.status && resp.status < 300,
        Err(_) => false,
    }
}

/// Reads a fund ID from the text of the `id` member: a decimal unsigned
/// integer that fits in `usize`.
pub fn fund_id_from_text(text: &str) -> (r: Result<usize, Error>)
    ensures
        parse_usize(text@) is Some ==> r == Ok::<usize, Error>(parse_usize(text@)->Some_0),
        parse_usize(text@) is None ==> r is Err && r->Err_0.kind == ErrorKind::Decode
            && r->Err_0.message@ == fund_id_message(text@),
{
    match parse_decimal(text) {
        Some(n) => Ok(n),
        None => {
            proof { reveal_strlit("Fund ID is not an unsigned integer: "); }
            let mut message = String::from_str("Fund ID is not an unsigned integer: ");
            message.append(text);
            Err(Error::new(ErrorKind::Decode, message))
        },
    }
}

impl View for Wrapper {
    type V = ClientView;

    closed spec fn view(&self) -> ClientView {
        ClientView { root: self.root_uri@, token: self.token@ }
    }
}

impl Wrapper {
    /// A client for the API under `root_uri`, which ends with `/`, holding
    /// `token`.
    pub fn new(root_uri: String, token: String) -> (r: Wrapper)
        ensures
            r@.root == root_uri@,
            r@.token == token@,
    {
        Wrapper { token, root_uri }
    }

    pub fn get_token(&self) -> (r: &str)
        ensures
            r@ == self@.token,
    {
        self.token.as_str()
    }

    pub fn set_token(&mut self, token: &str)
        ensures
            final(self)@.root == old(self)@.root,
            final(self)@.token == token@,
    {
        self.token = String::from_str(token);
    }

    pub fn root_uri(&self) -> (r: &str)
        ensures
            r@ == self@.root,
    {
        self.root_uri.as_str()
    }

    fn request(&self, method: Method, path: &str, auth: bool) -> (r: HttpRequest)
        ensures
            request_for(self@, r, method, path@, auth),
    {
        let mut uri = self.root_uri.clone();
        uri.append(path);
        let token = if auth { Some(self.token.clone()) } else { None };
        HttpRequest { method, uri, token }
    }

    /// GET `{root}api/health`, without token.
    pub fn health_check_request(&self) -> (r: HttpRequest)
        ensures
            request_for(self@, r, Method::Get, health_path(), false),
    {
        proof { reveal_strlit("api/health"); }
        self.request(Method::Get, "api/health", false)
    }

    /// Succeeds exactly when the health check was answered with a status of
    /// the success class.
    pub fn health_check(&self, reply: &Reply) -> (r: Result<(), Error>)
        ensures
            r is Ok <==> reply_ok(*reply),
            r is Err ==> r->Err_0.kind == failure_kind(*reply),
            r is Err ==> r->Err_0.message@ == failure_message(*reply, "Health check failed"@),
    {
        proof { reveal_strlit("Health check failed"); }
        if is_success(reply) {
            Ok(())
        } else {
            Err(failure(reply, "Health check failed"))
        }
    }

    /// GET `{root}api/control/logs/get`, with the current token.
    pub fn fetch_logs_request(&self) -> (r: HttpRequest)
        ensures
            request_for(self@, r, Method::Get, logs_get_path(), true),
    {
        proof { reveal_strlit("api/control/logs/get"); }
        self.request(Method::Get, "api/control/logs/get", true)
    }

    /// The log entries of a successful reply whose body is a JSON array of
    /// strings; otherwise the error that says what went wrong.
    pub fn fetch_logs(&self, reply: &Reply) -> (r: Result<Vec<String>, Error>)
        ensures
            r is Ok <==> logs_of(*reply) is Some,
            r is Ok ==> logs_of(*reply) == Some(string_views(r->Ok_0@)),
            !reply_ok(*reply) ==> r is Err && r->Err_0.kind == failure_kind(*reply),
            reply_ok(*reply) && r is Err ==> r->Err_0.kind == ErrorKind::Decode,
            r is Err ==> r->Err_0.message@ == logs_error(*reply),
    {
        proof {
            reveal_strlit("Failed to fetch logs");
            reveal_strlit("Logs are not a JSON array of strings");
        }
        if !is_success(reply) {
            return Err(failure(reply, "Failed to fetch logs"));
        }
        let resp = match reply {
            Ok(resp) => resp,
            Err(_) => { return Err(failure(reply, "Failed to fetch logs")); },
        };
        match decode_strings(&resp.body) {
            Some(logs) => Ok(logs),
            None => Err(Error::new(ErrorKind::Decode, String::from_str("Logs are not a JSON array of strings"))),
        }
    }

    /// POST `{root}api/control/logs/clear`, with the current token.
    pub fn clean_logs_request(&self) -> (r: HttpRequest)
        ensures
            request_for(self@, r, Method::Post, logs_clear_path(), true),
    {
        proof { reveal_strlit("api/control/logs/clear"); }
        self.request(Method::Post, "api/control/logs/clear", true)
    }

    /// Succeeds exactly when clearing was answered with a status of the
    /// success class.
    pub fn clean_logs(&self, reply: &Reply) -> (r: Result<(), Error>)
        ensures
            r is Ok <==> reply_ok(*reply),
            r is Err ==> r->Err_0.kind == failure_kind(*reply),
            r is Err ==> r->Err_0.message@ == failure_message(*reply, "Failed to clear logs"@),
    {
        proof { reveal_strlit("Failed to clear logs"); }
        if is_success(reply) {
            Ok(())
        } else {
            Err(failure(reply, "Failed to clear logs"))
        }
    }

    /// GET `{root}api/v0/fund`, without token.
    pub fn fetch_fund_id_request(&self) -> (r: HttpRequest)
        ensures
            request_for(self@, r, Method::Get, fund_path(), false),
    {
        proof { reveal_strlit("api/v0/fund"); }
        self.request(Method::Get, "api/v0/fund", false)
    }

    /// The fund ID of a successful reply whose body is a JSON object with a
    /// member `id` written as an unsigned integer that fits in `usize`.
    pub fn fetch_fund_id(&self, reply: &Reply) -> (r: Result<usize, Error>)
        ensures
            r is Ok <==> fund_id_of(*reply) is Some,
            r is Ok ==> r->Ok_0 == fund_id_of(*reply)->Some_0,
            !reply_ok(*reply) ==> r is Err && r->Err_0.kind == failure_kind(*reply),
            reply_ok(*reply) && r is Err ==> r->Err_0.kind == ErrorKind::Decode,
            r is Err ==> r->Err_0.message@ == fund_error(*reply),
    {
        proof {
            reveal_strlit("Failed to fetch fund ID");
            reveal_strlit("id");
            reveal_strlit("Fund has no member 'id'");
        }
        if !is_success(reply) {
            return Err(failure(reply, "Failed to fetch fund ID"));
        }
        let resp = match reply {
            Ok(resp) => resp,
            Err(_) => { return Err(failure(reply, "Failed to fetch fund ID")); },
        };
        match member_text(&resp.body, "id") {
            Some(text) => fund_id_from_text(text.as_str()),
            None => Err(Error::new(ErrorKind::Decode, String::from_str("Fund has no member 'id'"))),
        }
    }

    /// POST `{root}api/control/command/fund/id/{id}`, with the current token.
    pub fn update_fund_id_request(&self, id: usize) -> (r: HttpRequest)
        ensures
            request_for(self@, r, Method::Post, fund_update_path(id as nat), true),
    {
        proof { reveal_strlit("api/control/command/fund/id/"); }
        let digits = decimal_text(id);
        let mut path = String::from_str("api/control/command/fund/id/");
        path.append(digits.as_str());
        self.request(Method::Post, path.as_str(), true)
    }

    /// Succeeds exactly when the update was answered with a status of the
    /// success class.
    pub fn update_fund_id(&self, reply: &Reply) -> (r: Result<(), Error>)
        ensures
            r is Ok <==> reply_ok(*reply),
            r is Err ==> r->Err_0.kind == failure_kind(*reply),
            r is Err ==> r->Err_0.message@ == failure_message(*reply, "Failed to update fund ID"@),
    {
        proof { reveal_strlit("Failed to update fund ID"); }
        if is_success(reply) {
            Ok(())
        } else {
            Err(failure(reply, "Failed to update fund ID"))
        }
    }
}

} // verus!

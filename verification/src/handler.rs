use vstd::prelude::*;
use vstd::string::StringExecFns;

use crate::ident::fresh_id;
use crate::ident::is_id_rendering;

verus! {

/// The two-variant response envelope: `Success` maps to HTTP 200,
/// `Failure` to HTTP 500. Each variant carries the body string.
pub enum Response {
    Success(String),
    Failure(String),
}

impl Response {
    /// The characters of the body, whichever variant holds.
    pub open spec fn body_view(&self) -> Seq<char> {
        match self {
            Response::Success(b) => b@,
            Response::Failure(b) => b@,
        }
    }

    /// The HTTP status code this envelope maps to.
    pub open spec fn status_spec(&self) -> u16 {
        if self is Success {
            200
        } else {
            500
        }
    }

    /// The status code: 200 for success, 500 for failure.
    pub fn status(&self) -> (s: u16)
        ensures
            s == self.status_spec(),
    {
        match self {
            Response::Success(_) => 200,
            Response::Failure(_) => 500,
        }
    }

    /// Borrows the body string.
    pub fn body(&self) -> (b: &String)
        ensures
            b@ == self.body_view(),
    {
        match self {
            Response::Success(b) => b,
            Response::Failure(b) => b,
        }
    }
}

/// The greeting returned when both configuration values are present.
pub open spec fn success_body(stage: Seq<char>, secret_message: Seq<char>) -> Seq<char> {
    "Hello World! I am on "@ + stage + " stage. This is my secret: "@ + secret_message + "."@
}

/// The fixed error template: it names no configuration variable and
/// carries nothing request-specific but the correlation identifier.
pub open spec fn failure_body(id: Seq<char>) -> Seq<char> {
    "Internal server error. Contact IT with log id: "@ + id
}

/// The one informational record emitted for a request.
pub open spec fn log_line(id: Seq<char>) -> Seq<char> {
    "Log id: "@ + id
}

/// What the envelope for a request must look like, given the resolved
/// configuration values and the request's correlation identifier.
pub open spec fn response_matches(
    stage: Option<Seq<char>>,
    secret_message: Option<Seq<char>>,
    id: Seq<char>,
    r: Response,
) -> bool {
    match (stage, secret_message) {
        (Some(s), Some(m)) => r is Success && r.body_view() == success_body(s, m),
        _ => r is Failure && r.body_view() == failure_body(id),
    }
}

/// Builds the greeting for the two resolved values.
pub fn render_success(stage: &str, secret_message: &str) -> (r: String)
    ensures
        r@ == success_body(stage@, secret_message@),
{
    let mut b = String::from_str("Hello World! I am on ");
    b.append(stage);
    b.append(" stage. This is my secret: ");
    b.append(secret_message);
    b.append(".");
    b
}

/// Builds the fixed error template around the correlation identifier.
pub fn render_failure(log_id: &str) -> (r: String)
    ensures
        r@ == failure_body(log_id@),
{
    let mut b = String::from_str("Internal server error. Contact IT with log id: ");
    b.append(log_id);
    b
}

/// Builds the informational record for the correlation identifier.
pub fn render_log_line(log_id: &str) -> (r: String)
    ensures
        r@ == log_line(log_id@),
{
    let mut b = String::from_str("Log id: ");
    b.append(log_id);
    b
}

/// Chooses the envelope for one request, from the two resolved
/// configuration values and the request's correlation identifier.
/// Success carries the greeting; the absence of either value yields
/// the fixed failure template.
pub fn respond(stage: &Option<String>, secret_message: &Option<String>, log_id: &str) -> (r:
    Response)
    ensures
        response_matches(stage.deep_view(), secret_message.deep_view(), log_id@, r),
{
    match (stage, secret_message) {
        (Some(s), Some(m)) => Response::Success(render_success(s.as_str(), m.as_str())),
        _ => Response::Failure(render_failure(log_id)),
    }
}

/// Handles one request: draws a fresh correlation identifier, forms the
/// informational record for it, and selects the envelope from the two
/// resolved configuration values. The same identifier stands in the
/// record and, on failure, in the body.
pub fn index(stage: Option<String>, secret_message: Option<String>) -> (r: (String, Response))
    ensures
        exists|id: Seq<char>|
            #[trigger] is_id_rendering(id) && r.0@ == log_line(id) && response_matches(
                stage.deep_view(),
                secret_message.deep_view(),
                id,
                r.1,
            ),
{
    let log_id = fresh_id();
    let line = render_log_line(log_id.as_str());
    let resp = respond(&stage, &secret_message, log_id.as_str());
    proof {
        assert(is_id_rendering(log_id@) && line@ == log_line(log_id@) && response_matches(
            stage.deep_view(),
            secret_message.deep_view(),
            log_id@,
            resp,
        ));
    }
    (line, resp)
}

} // verus!

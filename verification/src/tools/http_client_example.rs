//! A tool that calls HTTP APIs, with a user's token or without one.
//!
//! Sending the request is left to the caller. The tool checks the request,
//! says what to send, and writes the answer from what came back.

use super::session_example::{authentication_failed, invalid_session_id};
use super::{refuse, tool_result_view, ToolError, ToolErrorView};
use crate::auth::session_id::is_session_id;
use crate::auth::{AuthQuery, OAuthTokenData, RedisAuthService};
use crate::error::ServerError;
use crate::text::{decimal, decimal_text};
use vstd::prelude::*;
use vstd::string::*;
use vstd::utf8::{decode_utf8, encode_utf8, encode_utf8_decode_utf8, is_char_boundary};

verus! {

/// A request to call an API with the token of the session's user.
#[derive(Debug, Clone, PartialEq, Eq)]
pub struct AuthenticatedApiRequest {
    /// The session id of an authenticated user.
    pub session_id: String,
    /// The URL to call.
    pub url: String,
    /// The third-party provider whose token is sent.
    pub provider: String,
    /// GET, POST, PUT or DELETE, in any mix of cases.
    pub method: String,
    /// The JSON text to send as the body, if any.
    pub body: Option<String>,
}

/// A request to call an API that asks for no authentication.
#[derive(Debug, Clone, PartialEq, Eq)]
pub struct PublicApiRequest {
    /// The URL to call.
    pub url: String,
    /// GET, POST, PUT or DELETE, in any mix of cases.
    pub method: String,
    /// The JSON text to send as the body, if any.
    pub body: Option<String>,
}

/// The provider of a request that names none.
pub fn default_provider() -> (provider: String)
    ensures
        provider@ == "google"@,
{
    String::from_str("google")
}

/// The method of a request that names none.
pub fn default_method() -> (method: String)
    ensures
        method@ == "GET"@,
{
    String::from_str("GET")
}

/// The methods that the tool sends.
#[derive(Debug, Clone, Copy, PartialEq, Eq, Structural)]
pub enum HttpMethod {
    Get,
    Post,
    Put,
    Delete,
}

/// What `str::to_uppercase` makes of a text.
pub uninterp spec fn uppercase_of(text: Seq<char>) -> Seq<char>;

/// Calls `str::to_uppercase`, which maps each character to its upper-case
/// form by the Unicode tables of the standard library. The result depends
/// on the text alone.
#[verifier::external_body]
fn uppercase(text: &str) -> (upper: String)
    ensures
        upper@ == uppercase_of(text@),
{
    text.to_uppercase()
}

/// The method that a name in capitals stands for.
pub open spec fn method_named(upper: Seq<char>) -> Option<HttpMethod> {
    if upper == "GET"@ {
        Some(HttpMethod::Get)
    } else if upper == "POST"@ {
        Some(HttpMethod::Post)
    } else if upper == "PUT"@ {
        Some(HttpMethod::Put)
    } else if upper == "DELETE"@ {
        Some(HttpMethod::Delete)
    } else {
        None
    }
}

/// The refusal of a method that the tool does not send.
pub open spec fn unsupported_method() -> ToolErrorView {
    ToolErrorView::InvalidParams("Unsupported HTTP method"@)
}

impl HttpMethod {
    /// The method that a name in capitals stands for.
    pub fn from_upper(upper: &str) -> (method: Option<HttpMethod>)
        ensures
            method == method_named(upper@),
    {
        let name = String::from_str(upper);
        if name == String::from_str("GET") {
            Some(HttpMethod::Get)
        } else if name == String::from_str("POST") {
            Some(HttpMethod::Post)
        } else if name == String::from_str("PUT") {
            Some(HttpMethod::Put)
        } else if name == String::from_str("DELETE") {
            Some(HttpMethod::Delete)
        } else {
            None
        }
    }

    /// The method that a name stands for, whatever its case. Any other
    /// name is refused.
    pub fn parse(name: &str) -> (r: Result<HttpMethod, ToolError>)
        ensures
            match method_named(uppercase_of(name@)) {
                Some(method) => r == Ok::<HttpMethod, ToolError>(method),
                None => (r matches Err(e) && e@ == unsupported_method()),
            },
    {
        let upper = uppercase(name);
        match HttpMethod::from_upper(upper.as_str()) {
            Some(method) => Ok(method),
            None => Err(ToolError::InvalidParams(String::from_str("Unsupported HTTP method"))),
        }
    }
}

/// A request to send.
#[derive(Debug, Clone, PartialEq, Eq)]
pub struct ApiCall {
    pub method: HttpMethod,
    pub url: String,
    /// The JSON text to send as the body, if any.
    pub body: Option<String>,
}

/// What came of sending a request.
pub enum HttpOutcome {
    /// The request could not be sent, or no response came. The text says
    /// why.
    SendFailed(String),
    /// A response came, and its body could not be read. The text says why.
    BodyFailed(String),
    /// A response with its status line and its body.
    Response { status: String, body: String },
}

/// The request that a method name, a URL and a body stand for, or the
/// refusal of the method.
pub open spec fn planned(method: Seq<char>, url: Seq<char>, body: Option<String>, r: Result<
    ApiCall,
    ToolError,
>) -> bool {
    match method_named(uppercase_of(method)) {
        Some(named) => (r matches Ok(call) && call.method == named && call.url@ == url && call.body
            == body),
        None => (r matches Err(e) && e@ == unsupported_method()),
    }
}

/// A response body is short enough to be shown whole, or can be cut after
/// its first 200 bytes without cutting a character in two.
pub open spec fn preview_defined(body: Seq<char>) -> bool {
    encode_utf8(body).len() > 200 ==> is_char_boundary(encode_utf8(body), 200)
}

/// What a report shows of a response body: the body if it has no more than
/// 200 bytes, and else its first 200 bytes and three dots.
pub open spec fn preview_of(body: Seq<char>) -> Seq<char> {
    if encode_utf8(body).len() > 200 {
        decode_utf8(encode_utf8(body).subrange(0, 200)) + "..."@
    } else {
        body
    }
}

/// The failure of a request that could not be sent.
pub open spec fn send_failed(why: Seq<char>) -> ToolErrorView {
    ToolErrorView::InternalError("HTTP request failed: "@ + why)
}

/// The failure of a response whose body could not be read.
pub open spec fn body_failed(why: Seq<char>) -> ToolErrorView {
    ToolErrorView::InternalError("Failed to read response: "@ + why)
}

/// The lines of a report that say what came back: the status, whatever
/// stands between it and the length, then the length and the preview of the
/// body.
pub open spec fn response_lines(status: Seq<char>, between: Seq<char>, body: Seq<char>) -> Seq<
    char,
> {
    "\n\u{2022} Status: "@ + status + between + "\n\u{2022} Response Length: "@ + decimal(
        encode_utf8(body).len(),
    ) + " bytes\n\u{2022} Response Preview: "@ + preview_of(body)
}

/// The text that reports a call with a user's token.
pub open spec fn authenticated_report(
    req: AuthenticatedApiRequest,
    email: Seq<char>,
    status: Seq<char>,
    body: Seq<char>,
) -> Seq<char> {
    "Authenticated API Call Results:\n\u{2022} URL: "@ + req.url@ + "\n\u{2022} Method: "@
        + req.method@ + response_lines(
        status,
        "\n\u{2022} Provider: "@ + req.provider@ + "\n\u{2022} User: "@ + email,
        body,
    ) + "\n\u{2022} Authentication: Enabled"@
}

/// The text that reports a call without authentication.
pub open spec fn public_report(req: PublicApiRequest, status: Seq<char>, body: Seq<char>) -> Seq<
    char,
> {
    "Public API Call Results:\n\u{2022} URL: "@ + req.url@ + "\n\u{2022} Method: "@ + req.method@
        + response_lines(status, Seq::empty(), body) + "\n\u{2022} Authentication: Not Required"@
}

/// What a call is answered with, given what came of sending it and the
/// report to give of a response.
pub open spec fn answer(outcome: HttpOutcome, report: spec_fn(Seq<char>, Seq<char>) -> Seq<char>) -> Result<
    Seq<char>,
    ToolErrorView,
> {
    match outcome {
        HttpOutcome::SendFailed(why) => Err(send_failed(why@)),
        HttpOutcome::BodyFailed(why) => Err(body_failed(why@)),
        HttpOutcome::Response { status, body } => Ok(report(status@, body@)),
    }
}

/// A copy of a body.
fn copy_body(body: &Option<String>) -> (copy: Option<String>)
    ensures
        copy == *body,
{
    match body {
        Some(text) => Some(text.clone()),
        None => None,
    }
}

/// The request to send for a method name, a URL and a body.
fn plan(method: &str, url: &str, body: &Option<String>) -> (r: Result<ApiCall, ToolError>)
    ensures
        planned(method@, url@, *body, r),
{
    match HttpMethod::parse(method) {
        Ok(method) => Ok(ApiCall { method, url: String::from_str(url), body: copy_body(body) }),
        Err(e) => Err(e),
    }
}

/// Writes the lines of a report that say what came back.
fn write_response_lines(text: &mut String, status: &str, between: &str, body: &str)
    requires
        preview_defined(body@),
    ensures
        final(text)@ == old(text)@ + response_lines(status@, between@, body@),
{
    let mut lines = String::from_str("\n\u{2022} Status: ");
    lines.append(status);
    lines.append(between);
    lines.append("\n\u{2022} Response Length: ");
    lines.append(decimal_text(body.as_bytes().len() as u128).as_str());
    lines.append(" bytes\n\u{2022} Response Preview: ");
    lines.append(HttpClientExampleTool::response_preview(body).as_str());
    text.append(lines.as_str());
}

/// A tool that calls HTTP APIs for the users of a Redis store's sessions.
#[derive(Clone)]
pub struct HttpClientExampleTool {
    auth_service: RedisAuthService,
}

impl HttpClientExampleTool {
    /// The service that the tool authenticates with.
    pub closed spec fn service(&self) -> RedisAuthService {
        self.auth_service
    }

    /// A tool that authenticates with `auth_service`.
    pub fn new(auth_service: RedisAuthService) -> (tool: Self)
        ensures
            tool.service() == auth_service,
    {
        HttpClientExampleTool { auth_service }
    }

    /// The service that the tool authenticates with.
    pub fn auth_service(&self) -> (service: &RedisAuthService)
        ensures
            *service == self.service(),
    {
        &self.auth_service
    }

    /// What a report shows of a response body: the body if it has no more
    /// than 200 bytes, and else its first 200 bytes and three dots.
    pub fn response_preview(body: &str) -> (preview: String)
        requires
            preview_defined(body@),
        ensures
            preview@ == preview_of(body@),
    {
        if body.as_bytes().len() > 200 {
            let (head, _tail) = body.split_at(200);
            proof {
                encode_utf8_decode_utf8(head@);
            }
            let mut preview = String::from_str(head);
            preview.append("...");
            preview
        } else {
            String::from_str(body)
        }
    }

    /// Begins a call with a user's token: a session id of the wrong shape
    /// is refused, and for any other the authentication for the provider's
    /// token begins.
    pub fn authenticated_api_call(&self, req: &AuthenticatedApiRequest) -> (r: Result<
        AuthQuery,
        ToolError,
    >)
        ensures
            r is Ok <==> is_session_id(req.session_id@),
            r matches Ok(query) ==> query.id() == req.session_id@ && query.provider_name()
                == req.provider@,
            r matches Err(e) ==> e@ == invalid_session_id(),
    {
        match RedisAuthService::validate_session_format(req.session_id.as_str()) {
            Err(cause) => {
                return Err(refuse("Invalid session ID: ", &cause));
            },
            Ok(_) => {},
        }
        match self.auth_service.authenticate(req.session_id.as_str(), req.provider.as_str()) {
            Ok(query) => Ok(query),
            Err(cause) => Err(refuse("Authentication failed: ", &cause)),
        }
    }

    /// The request to send for a call with a user's token, given what the
    /// authentication came to. A failed authentication is refused, and
    /// after it a method that the tool does not send. The caller sends the
    /// record's access token as the bearer of the request.
    pub fn authorized_call(
        req: &AuthenticatedApiRequest,
        authenticated: &Result<OAuthTokenData, ServerError>,
    ) -> (r: Result<ApiCall, ToolError>)
        ensures
            match *authenticated {
                Ok(_) => planned(req.method@, req.url@, req.body, r),
                Err(cause) => (r matches Err(e) && e@ == authentication_failed(cause@)),
            },
    {
        match authenticated {
            Ok(_) => plan(req.method.as_str(), req.url.as_str(), &req.body),
            Err(cause) => Err(refuse("Authentication failed: ", cause)),
        }
    }

    /// The answer to a call with a user's token, given what came of
    /// sending it: the report of the response, or the failure.
    pub fn authenticated_answer(
        req: &AuthenticatedApiRequest,
        token: &OAuthTokenData,
        outcome: &HttpOutcome,
    ) -> (r: Result<String, ToolError>)
        requires
            outcome matches HttpOutcome::Response { status, body } ==> preview_defined(body@),
        ensures
            tool_result_view(r) == answer(
                *outcome,
                |status: Seq<char>, body: Seq<char>|
                    authenticated_report(*req, token.email@, status, body),
            ),
    {
        match outcome {
            HttpOutcome::SendFailed(why) => {
                let mut text = String::from_str("HTTP request failed: ");
                text.append(why.as_str());
                Err(ToolError::InternalError(text))
            },
            HttpOutcome::BodyFailed(why) => {
                let mut text = String::from_str("Failed to read response: ");
                text.append(why.as_str());
                Err(ToolError::InternalError(text))
            },
            HttpOutcome::Response { status, body } => {
                let mut between = String::from_str("\n\u{2022} Provider: ");
                between.append(req.provider.as_str());
                between.append("\n\u{2022} User: ");
                between.append(token.email.as_str());
                let mut text = String::from_str("Authenticated API Call Results:\n\u{2022} URL: ");
                text.append(req.url.as_str());
                text.append("\n\u{2022} Method: ");
                text.append(req.method.as_str());
                write_response_lines(&mut text, status.as_str(), between.as_str(), body.as_str());
                text.append("\n\u{2022} Authentication: Enabled");
                Ok(text)
            },
        }
    }

    /// The request to send for a call without authentication. A method
    /// that the tool does not send is refused.
    pub fn public_api_call(&self, req: &PublicApiRequest) -> (r: Result<ApiCall, ToolError>)
        ensures
            planned(req.method@, req.url@, req.body, r),
    {
        plan(req.method.as_str(), req.url.as_str(), &req.body)
    }

    /// The answer to a call without authentication, given what came of
    /// sending it: the report of the response, or the failure.
    pub fn public_answer(req: &PublicApiRequest, outcome: &HttpOutcome) -> (r: Result<
        String,
        ToolError,
    >)
        requires
            outcome matches HttpOutcome::Response { status, body } ==> preview_defined(body@),
        ensures
            tool_result_view(r) == answer(
                *outcome,
                |status: Seq<char>, body: Seq<char>| public_report(*req, status, body),
            ),
    {
        match outcome {
            HttpOutcome::SendFailed(why) => {
                let mut text = String::from_str("HTTP request failed: ");
                text.append(why.as_str());
                Err(ToolError::InternalError(text))
            },
            HttpOutcome::BodyFailed(why) => {
                let mut text = String::from_str("Failed to read response: ");
                text.append(why.as_str());
                Err(ToolError::InternalError(text))
            },
            HttpOutcome::Response { status, body } => {
                let mut text = String::from_str("Public API Call Results:\n\u{2022} URL: ");
                text.append(req.url.as_str());
                text.append("\n\u{2022} Method: ");
                text.append(req.method.as_str());
                proof {
                    reveal_strlit("");
                }
                write_response_lines(&mut text, status.as_str(), "", body.as_str());
                text.append("\n\u{2022} Authentication: Not Required");
                Ok(text)
            },
        }
    }
}

} // verus!

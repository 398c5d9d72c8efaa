//! Requests to the service and what its answers mean.
//!
//! The service wraps its errors: the body of a failed request is
//! `{"error": "<text>"}`, and the text may itself be a JSON document with a
//! `message`. What reaches the user is the innermost message there is.

use vstd::prelude::*;
use crate::config::Config;
use crate::json::{json_string_at, read_json_string};
use crate::text::{concat2, copy_of};

verus! {

/// The method of a request.
#[derive(Debug, Clone, Copy, PartialEq, Eq, Structural)]
pub enum Method {
    Get,
    Post,
    Put,
    Delete,
}

/// A value in the body of a request.
#[derive(Debug, PartialEq, Eq)]
pub enum BodyValue {
    Text(String),
    Number(u64),
    /// A number given as JSON writes it, for values that are not whole.
    Literal(String),
    Null,
}

/// A value in the body of a request, by its contents.
pub enum BodyView {
    Text(Seq<char>),
    Number(u64),
    Literal(Seq<char>),
    Null,
}

impl View for BodyValue {
    type V = BodyView;

    open spec fn view(&self) -> BodyView {
        match self {
            BodyValue::Text(s) => BodyView::Text(s@),
            BodyValue::Number(n) => BodyView::Number(*n),
            BodyValue::Literal(s) => BodyView::Literal(s@),
            BodyValue::Null => BodyView::Null,
        }
    }
}

/// The members of a body, each by its name and its contents.
pub open spec fn body_view(members: Seq<(String, BodyValue)>) -> Seq<(Seq<char>, BodyView)> {
    Seq::new(members.len(), |i: int| (members[i].0@, members[i].1@))
}

/// A request to the service, ready to be sent.
#[derive(Debug, PartialEq, Eq)]
pub struct ApiRequest {
    pub method: Method,
    pub url: String,
    /// The value of the `Authorization` header.
    pub authorization: String,
    /// The members of the JSON object to send, if the request has a body.
    pub body: Option<Vec<(String, BodyValue)>>,
}

/// Why a request failed.
#[derive(Debug, PartialEq, Eq)]
pub enum ApiError {
    /// The service refused the request and said why.
    Rejected(String),
    /// The service refused the request with a body that is not an error
    /// envelope; the body is kept as it came.
    Undecoded(String),
    /// The request could not be sent, or its answer could not be read.
    Transport(String),
    /// The service accepted the request but its answer does not have the
    /// shape that was expected.
    MalformedResponse(String),
}

/// Why the service cannot be talked to.
#[derive(Debug, Clone, Copy, PartialEq, Eq, Structural)]
pub enum AuthError {
    /// No token is stored.
    NotAuthenticated,
}

/// Whether a status code reports success: 200 to 299.
pub open spec fn success_status(status: u16) -> bool {
    200 <= status <= 299
}

/// Whether an error is what the envelope of a failed request unwraps to:
/// the nested message if there is one, else the envelope's error text, else
/// the body itself, undecoded.
pub open spec fn unwraps_to(
    error: ApiError,
    body: Seq<char>,
    error_field: Option<Seq<char>>,
    nested_message: Option<Seq<char>>,
) -> bool {
    match error_field {
        None => error matches ApiError::Undecoded(kept) && kept@ == body,
        Some(text) => match nested_message {
            Some(message) => error matches ApiError::Rejected(shown) && shown@ == message,
            None => error matches ApiError::Rejected(shown) && shown@ == text,
        },
    }
}

/// The error text of the envelope that a body holds, if the body is one.
pub open spec fn envelope_error(body: Seq<char>) -> Option<Seq<char>> {
    json_string_at(body, "/error"@)
}

/// The message nested in the error text of the envelope that a body holds.
pub open spec fn envelope_message(body: Seq<char>) -> Option<Seq<char>> {
    match envelope_error(body) {
        Some(text) => json_string_at(text, "/message"@),
        None => None,
    }
}

/// The text of an error: the message the service gave, or, where it gave
/// none that could be decoded, the body of its answer as it came.
pub open spec fn api_error_text(error: ApiError) -> Seq<char> {
    match error {
        ApiError::Rejected(message) => message@,
        ApiError::Undecoded(body) => body@,
        ApiError::Transport(detail) => detail@,
        ApiError::MalformedResponse(detail) => detail@,
    }
}

impl ApiError {
    /// The message shown for this error.
    pub fn message(&self) -> (text: String)
        ensures
            text@ == api_error_text(*self),
    {
        match self {
            ApiError::Rejected(message) => message.clone(),
            ApiError::Undecoded(body) => body.clone(),
            ApiError::Transport(detail) => detail.clone(),
            ApiError::MalformedResponse(detail) => detail.clone(),
        }
    }

    /// A copy of the error.
    pub fn duplicate(&self) -> (copy: ApiError)
        ensures
            copy == *self,
    {
        match self {
            ApiError::Rejected(message) => ApiError::Rejected(message.clone()),
            ApiError::Undecoded(body) => ApiError::Undecoded(body.clone()),
            ApiError::Transport(detail) => ApiError::Transport(detail.clone()),
            ApiError::MalformedResponse(detail) => ApiError::MalformedResponse(detail.clone()),
        }
    }
}

impl AuthError {
    /// The message shown for this error.
    pub fn message(&self) -> (text: String)
        ensures
            text@ == "Not authenticated. Run 'wvdsh auth login' first."@,
    {
        copy_of("Not authenticated. Run 'wvdsh auth login' first.")
    }
}

/// Whether a status code reports success.
pub fn is_success(status: u16) -> (ok: bool)
    ensures
        ok == success_status(status),
{
    200 <= status && status <= 299
}

/// The error that the body of a failed request unwraps to, given what the
/// body holds as its error text and what that text holds as its message.
pub fn unwrap_error_envelope(
    body: &str,
    error_field: Option<String>,
    nested_message: Option<String>,
) -> (error: ApiError)
    ensures
        unwraps_to(
            error,
            body@,
            match error_field {
                Some(text) => Some(text@),
                None => None,
            },
            match nested_message {
                Some(message) => Some(message@),
                None => None,
            },
        ),
{
    match error_field {
        None => ApiError::Undecoded(copy_of(body)),
        Some(text) => match nested_message {
            Some(message) => ApiError::Rejected(message),
            None => ApiError::Rejected(text),
        },
    }
}

/// The error that the body of a failed request stands for.
pub fn decode_error_body(body: &str) -> (error: ApiError)
    ensures
        unwraps_to(error, body@, envelope_error(body@), envelope_message(body@)),
{
    match read_json_string(body, "/error") {
        None => unwrap_error_envelope(body, None, None),
        Some(text) => {
            let nested = read_json_string(text.as_str(), "/message");
            unwrap_error_envelope(body, Some(text), nested)
        },
    }
}

/// What an answer of the service means: a success status lets the body
/// through, any other status is the error that the body unwraps to.
pub fn handle_response(status: u16, body: &str) -> (r: Result<(), ApiError>)
    ensures
        success_status(status) <==> r is Ok,
        r matches Err(error) ==> unwraps_to(
            error,
            body@,
            envelope_error(body@),
            envelope_message(body@),
        ),
{
    if is_success(status) {
        Ok(())
    } else {
        Err(decode_error_body(body))
    }
}

/// The service as one user sees it: where it is, and the token that
/// requests carry.
#[derive(Debug, PartialEq, Eq)]
pub struct ApiClient {
    base_url: String,
    api_key: String,
}

impl ApiClient {
    /// The address that every path of the service hangs under.
    pub closed spec fn base(&self) -> Seq<char> {
        self.base_url@
    }

    /// The token that requests carry.
    pub closed spec fn token(&self) -> Seq<char> {
        self.api_key@
    }

    /// Whether `request` is the request that this client makes with the
    /// given method on the given path, with or without a body.
    pub open spec fn makes(&self, request: ApiRequest, method: Method, path: Seq<char>) -> bool {
        &&& request.method == method
        &&& request.url@ == self.base() + path
        &&& request.authorization@ == "Bearer "@ + self.token()
    }

    /// A client for the service at `api_host`, for the user with the given
    /// token.
    pub fn for_host(api_host: &str, api_key: &str) -> (client: ApiClient)
        ensures
            client.base() == api_host@ + "/api"@,
            client.token() == api_key@,
    {
        ApiClient { base_url: concat2(api_host, "/api"), api_key: copy_of(api_key) }
    }

    /// A client for the configured service, for the user whose token is
    /// stored. Without a token there is no client.
    pub fn new(config: &Config, api_key: Option<String>) -> (r: Result<ApiClient, AuthError>)
        ensures
            api_key is Some <==> r is Ok,
            r matches Ok(client) ==> client.base() == config.api_host@ + "/api"@ && client.token()
                == api_key->0@,
    {
        match api_key {
            None => Err(AuthError::NotAuthenticated),
            Some(api_key) => Ok(
                ApiClient { base_url: concat2(config.api_host.as_str(), "/api"), api_key },
            ),
        }
    }

    fn request(&self, method: Method, path: &str, body: Option<Vec<(String, BodyValue)>>) -> (request:
        ApiRequest)
        ensures
            self.makes(request, method, path@),
            request.body == body,
    {
        ApiRequest {
            method,
            url: concat2(self.base_url.as_str(), path),
            authorization: concat2("Bearer ", self.api_key.as_str()),
            body,
        }
    }

    /// The request that reads `path`.
    pub fn get(&self, path: &str) -> (request: ApiRequest)
        ensures
            self.makes(request, Method::Get, path@),
            request.body is None,
    {
        self.request(Method::Get, path, None)
    }

    /// The request that posts `body` to `path`.
    pub fn post(&self, path: &str, body: Option<Vec<(String, BodyValue)>>) -> (request: ApiRequest)
        ensures
            self.makes(request, Method::Post, path@),
            request.body == body,
    {
        self.request(Method::Post, path, body)
    }

    /// The request that puts `body` at `path`.
    pub fn put(&self, path: &str, body: Vec<(String, BodyValue)>) -> (request: ApiRequest)
        ensures
            self.makes(request, Method::Put, path@),
            request.body == Some(body),
    {
        self.request(Method::Put, path, Some(body))
    }

    /// The request that deletes `path`.
    pub fn delete(&self, path: &str) -> (request: ApiRequest)
        ensures
            self.makes(request, Method::Delete, path@),
            request.body is None,
    {
        self.request(Method::Delete, path, None)
    }
}

} // verus!

//! The transport: what a request to the service holds, and what an answer
//! from it means.

use crate::auth::{authenticate, signature_of, signed_payload, AuthHeaders};
use crate::error::{DoorPassesError, ErrorKind};
use crate::types::ConfigView;
use crate::wire::{
    json_document, json_parses, json_text_field, parse_json, query_view, read_text_field, text_of,
    Fields,
};
use std::time::Duration;
use vstd::prelude::*;
use vstd::string::StringExecFns;

verus! {

/// `reqwest::Client`, the connection pool, carried through as an opaque value.
#[verifier::external_type_specification]
#[verifier::external_body]
pub struct ExTransport(reqwest::Client);

/// The JSON field in which the service puts the reason for a refusal.
pub const MESSAGE_FIELD: &'static str = "message";

/// The verbs that the service is spoken to with.
#[derive(Debug, Clone, Copy, PartialEq, Eq, Structural)]
pub enum Method {
    Get,
    Post,
    Patch,
    Delete,
}

/// One request to the service, ready to be sent.
#[derive(Debug)]
pub struct ApiRequest {
    /// The verb.
    pub method: Method,
    /// The absolute URL.
    pub url: String,
    /// Query parameters, in the order in which they are sent.
    pub query: Option<Vec<(String, String)>>,
    /// The JSON body, if the request has one.
    pub body: Option<String>,
    /// The credentials that go with it.
    pub auth: AuthHeaders,
    /// The time after which the request is given up.
    pub timeout: Duration,
}

impl ApiRequest {
    /// Whether this is the request with the given verb for `path` that a
    /// transport configured as `config` makes: the URL is the base URL with
    /// the path behind it, the timeout is the configured one, and the
    /// credentials are the account and the signature of the body, or of the
    /// path where there is no body.
    pub open spec fn is_made_by(
        self,
        config: ConfigView,
        method: Method,
        path: Seq<char>,
        query: Option<Fields>,
        body: Option<Seq<char>>,
    ) -> bool {
        &&& self.method == method
        &&& self.url@ == config.base_url + path
        &&& query_view(self.query) == query
        &&& text_of(self.body) == body
        &&& self.timeout == config.timeout
        &&& self.auth.account_id@ == config.account_id
        &&& self.auth.signature@ == signature_of(config.shared_secret, signed_payload(path, body))
    }
}

/// Whether a status code reports success.
pub open spec fn is_success(status: u16) -> bool {
    200 <= status <= 299
}

/// The error that a status outside 2xx stands for, given the message that
/// goes with it.
pub open spec fn status_error(status: u16, message: Seq<char>) -> ErrorKind {
    if status == 429 {
        ErrorKind::RateLimitExceeded
    } else if status == 401 {
        ErrorKind::Auth(message)
    } else if status == 404 {
        ErrorKind::NotFound(message)
    } else {
        ErrorKind::Api { status, message }
    }
}

/// The error that an answer which is not what was asked for stands for:
/// `SerializationError` under a 2xx status, and under any other the error for
/// that status, with the service's message where the body holds one and the
/// body itself where it does not.
pub open spec fn response_error(status: u16, body: Seq<char>) -> ErrorKind {
    if is_success(status) {
        ErrorKind::Serialization
    } else {
        status_error(status, refusal_message(body, json_text_field(body, MESSAGE_FIELD@)))
    }
}

/// The message of a refusal: the one the service gave, or else the body as
/// it came.
pub open spec fn refusal_message(body: Seq<char>, server_message: Option<Seq<char>>) -> Seq<char> {
    match server_message {
        Some(m) => m,
        None => body,
    }
}

/// `reqwest::ClientBuilder::timeout` and `build`: a connection pool whose
/// requests are given up after `timeout`. Whether it can be built depends on
/// the machine, so nothing is claimed of the outcome.
#[verifier::external_body]
fn build_transport(timeout: Duration) -> (built: Result<reqwest::Client, reqwest::Error>) {
    reqwest::Client::builder().timeout(timeout).build()
}

/// The transport of one client: its credentials, where it sends to, and the
/// connection pool it sends through.
pub struct HttpClient {
    account_id: String,
    shared_secret: String,
    base_url: String,
    timeout: Duration,
    transport: reqwest::Client,
}

impl View for HttpClient {
    type V = ConfigView;

    closed spec fn view(&self) -> ConfigView {
        ConfigView {
            account_id: self.account_id@,
            shared_secret: self.shared_secret@,
            base_url: self.base_url@,
            timeout: self.timeout,
        }
    }
}

impl HttpClient {
    /// The connection pool of this transport.
    pub closed spec fn pool(&self) -> reqwest::Client {
        self.transport
    }

    /// A transport over a connection pool that exists already.
    pub fn with_transport(
        account_id: String,
        shared_secret: String,
        base_url: String,
        timeout: Duration,
        transport: reqwest::Client,
    ) -> (http: Self)
        ensures
            http@ == (ConfigView {
                account_id: account_id@,
                shared_secret: shared_secret@,
                base_url: base_url@,
                timeout,
            }),
            http.pool() == transport,
    {
        HttpClient { account_id, shared_secret, base_url, timeout, transport }
    }

    /// A transport over the outcome of building a connection pool: the
    /// transport where there is a pool, `HttpError` around the cause where
    /// there is none.
    pub fn from_build(
        account_id: String,
        shared_secret: String,
        base_url: String,
        timeout: Duration,
        built: Result<reqwest::Client, reqwest::Error>,
    ) -> (r: Result<Self, DoorPassesError>)
        ensures
            built is Ok <==> r is Ok,
            r matches Ok(http) ==> http.pool() == built->Ok_0 && http@ == (ConfigView {
                account_id: account_id@,
                shared_secret: shared_secret@,
                base_url: base_url@,
                timeout,
            }),
            r matches Err(e) ==> e == DoorPassesError::HttpError(built->Err_0),
    {
        match built {
            Ok(transport) => Ok(
                Self::with_transport(account_id, shared_secret, base_url, timeout, transport),
            ),
            Err(cause) => Err(DoorPassesError::HttpError(cause)),
        }
    }

    /// A transport with a connection pool of its own, whose requests are
    /// given up after `timeout`. It fails only where no pool can be built,
    /// and then with `HttpError`.
    pub fn new(account_id: String, shared_secret: String, base_url: String, timeout: Duration) -> (r:
        Result<Self, DoorPassesError>)
        ensures
            r matches Ok(http) ==> http@ == (ConfigView {
                account_id: account_id@,
                shared_secret: shared_secret@,
                base_url: base_url@,
                timeout,
            }),
            r matches Err(e) ==> e@ == ErrorKind::Http,
    {
        let built = build_transport(timeout);
        Self::from_build(account_id, shared_secret, base_url, timeout, built)
    }

    /// The account that requests are made for.
    pub fn account_id(&self) -> (id: &String)
        ensures
            id@ == self@.account_id,
    {
        &self.account_id
    }

    /// The URL that every path is appended to.
    pub fn base_url(&self) -> (url: &String)
        ensures
            url@ == self@.base_url,
    {
        &self.base_url
    }

    /// The time after which a request is given up.
    pub fn timeout(&self) -> (timeout: Duration)
        ensures
            timeout == self@.timeout,
    {
        self.timeout
    }

    /// The connection pool that requests are sent through.
    pub fn transport(&self) -> (transport: &reqwest::Client)
        ensures
            *transport == self.pool(),
    {
        &self.transport
    }

    /// The absolute URL of a path: the base URL with the path behind it.
    pub fn url(&self, path: &str) -> (url: String)
        ensures
            url@ == self@.base_url + path@,
    {
        self.base_url.clone().concat(path)
    }

    /// A request with the given verb, for `path` under the base URL, under
    /// this transport's timeout and with this account's credentials.
    pub fn request(
        &self,
        method: Method,
        path: &str,
        query: Option<Vec<(String, String)>>,
        body: Option<String>,
    ) -> (req: ApiRequest)
        ensures
            req.is_made_by(self@, method, path@, query_view(query), text_of(body)),
    {
        let auth = match &body {
            Some(text) => authenticate(
                self.account_id.as_str(),
                self.shared_secret.as_str(),
                text.as_str(),
            ),
            None => authenticate(self.account_id.as_str(), self.shared_secret.as_str(), path),
        };
        ApiRequest { method, url: self.url(path), query, body, auth, timeout: self.timeout }
    }

    /// A GET of `path` with the given query parameters and no body.
    pub fn get(&self, path: &str, query: Option<Vec<(String, String)>>) -> (req: ApiRequest)
        ensures
            req.is_made_by(self@, Method::Get, path@, query_view(query), None),
    {
        self.request(Method::Get, path, query, None)
    }

    /// A POST of `body` to `path`.
    pub fn post(&self, path: &str, body: String) -> (req: ApiRequest)
        ensures
            req.is_made_by(self@, Method::Post, path@, None, Some(body@)),
    {
        self.request(Method::Post, path, None, Some(body))
    }

    /// A PATCH of `path` with `body`.
    pub fn patch(&self, path: &str, body: String) -> (req: ApiRequest)
        ensures
            req.is_made_by(self@, Method::Patch, path@, None, Some(body@)),
    {
        self.request(Method::Patch, path, None, Some(body))
    }

    /// A DELETE of `path`, with neither query nor body.
    pub fn delete(&self, path: &str) -> (req: ApiRequest)
        ensures
            req.is_made_by(self@, Method::Delete, path@, None, None),
    {
        self.request(Method::Delete, path, None, None)
    }

    /// The error that an answer stands for, given the message that the
    /// service put into its body, if any: none for a 2xx status;
    /// `RateLimitExceeded` for 429, `AuthError` for 401, `NotFound` for 404,
    /// and `ApiError` with the status for every other one.
    pub fn error_for_status(status: u16, body: &str, server_message: Option<String>) -> (r: Option<
        DoorPassesError,
    >)
        ensures
            r is None <==> is_success(status),
            r matches Some(e) ==> e@ == status_error(
                status,
                refusal_message(body@, text_of(server_message)),
            ),
    {
        if 200 <= status && status <= 299 {
            return None;
        }
        if status == 429 {
            return Some(DoorPassesError::RateLimitExceeded);
        }
        let message = match server_message {
            Some(m) => m,
            None => body.to_owned(),
        };
        if status == 401 {
            Some(DoorPassesError::AuthError(message))
        } else if status == 404 {
            Some(DoorPassesError::NotFound(message))
        } else {
            Some(DoorPassesError::ApiError { status, message })
        }
    }

    /// The error that an answer stands for by its status: none for a 2xx
    /// status, and for any other the error for that status, with the
    /// service's message where the body holds one.
    pub fn refusal(status: u16, body: &str) -> (r: Option<DoorPassesError>)
        ensures
            r is None <==> is_success(status),
            r matches Some(e) ==> e@ == response_error(status, body@),
    {
        if 200 <= status && status <= 299 {
            None
        } else {
            let server_message = read_text_field(body, MESSAGE_FIELD);
            Self::error_for_status(status, body, server_message)
        }
    }

    /// What reading a successful answer's body comes to: the document, or
    /// `SerializationError` around the reason why there is none.
    pub open spec fn decoded(parsed: Result<serde_json::Value, serde_json::Error>) -> Result<
        serde_json::Value,
        DoorPassesError,
    > {
        match parsed {
            Ok(document) => Ok(document),
            Err(cause) => Err(DoorPassesError::SerializationError(cause)),
        }
    }

    /// The result of reading a successful answer's body: the document, or
    /// `SerializationError` around the reason why there is none.
    pub fn decode(parsed: Result<serde_json::Value, serde_json::Error>) -> (r: Result<
        serde_json::Value,
        DoorPassesError,
    >)
        ensures
            r == Self::decoded(parsed),
    {
        match parsed {
            Ok(document) => Ok(document),
            Err(cause) => Err(DoorPassesError::from_json(cause)),
        }
    }

    /// What an answer of the service means. A 2xx status with a JSON body
    /// gives the document, and with any other body `SerializationError`.
    /// Every other status gives the error that stands for it, with the
    /// service's message where the body holds one and the body itself where
    /// it does not.
    pub fn handle_response(status: u16, body: &str) -> (r: Result<
        serde_json::Value,
        DoorPassesError,
    >)
        ensures
            r is Ok <==> is_success(status) && json_parses(body@),
            is_success(status) ==> r == Self::decoded(json_document(body@)),
            r matches Err(e) ==> e@ == response_error(status, body@),
    {
        match Self::refusal(status, body) {
            Some(e) => Err(e),
            None => Self::decode(parse_json(body)),
        }
    }
}

/// A 429 is a rate-limit error whatever the body says, and no other status
/// is one.
pub proof fn lemma_rate_limit_is_distinct(status: u16, body: Seq<char>)
    ensures
        status == 429 ==> response_error(status, body) == ErrorKind::RateLimitExceeded,
        status != 429 ==> response_error(status, body) != ErrorKind::RateLimitExceeded,
{
}

/// A 2xx answer whose body is not what was expected is a serialization
/// error, and an answer with any other status never is.
pub proof fn lemma_serialization_error_iff_success(status: u16, body: Seq<char>)
    ensures
        is_success(status) <==> response_error(status, body) == ErrorKind::Serialization,
{
}

/// Every status outside 2xx other than 401, 404 and 429 is reported as an
/// `ApiError` that carries the status itself.
pub proof fn lemma_api_error_carries_status(status: u16, body: Seq<char>)
    requires
        !is_success(status),
        status != 401,
        status != 404,
        status != 429,
    ensures
        response_error(status, body) matches ErrorKind::Api { status: s, message: m } && s == status
            && m == refusal_message(body, json_text_field(body, MESSAGE_FIELD@)),
{
}

} // verus!

//! Client library for the DoorPasses digital access control service.
//!
//! The library decides what is sent and what an answer means: it validates
//! the configuration, shapes and signs each request, and classifies each
//! response. Sending a request is left to the caller.

pub mod auth;
pub mod error;
pub mod http_client;
pub mod resources;
pub mod types;
pub mod wire;

pub use error::DoorPassesError;
pub use types::DoorPassesConfig;

use crate::error::ErrorKind;
use crate::http_client::{ApiRequest, HttpClient, Method};
use crate::resources::{AccessPasses, Console};
use crate::types::ConfigView;
use std::sync::Arc;
use vstd::prelude::*;

verus! {

/// Where the service reports its health.
pub const HEALTH_PATH: &'static str = "/health";

/// Why no client can be made from a configuration: the account id is
/// empty, or else the shared secret is. `None` for a valid configuration.
pub open spec fn config_error(config: ConfigView) -> Option<ErrorKind> {
    if config.account_id.len() == 0 {
        Some(ErrorKind::Config("Account ID is required"@))
    } else if config.shared_secret.len() == 0 {
        Some(ErrorKind::Config("Shared secret is required"@))
    } else {
        None
    }
}

/// A configuration is rejected exactly when it is not valid.
pub proof fn lemma_rejected_iff_invalid(config: ConfigView)
    ensures
        config_error(config) is Some <==> !config.is_valid(),
{
}

/// `Arc::clone`: another handle to the same transport.
#[verifier::external_body]
fn share(http: &Arc<HttpClient>) -> (shared: Arc<HttpClient>)
    ensures
        shared == *http,
{
    Arc::clone(http)
}

/// Accepts a valid configuration, and rejects one with an empty account id
/// or an empty shared secret with `ConfigError`.
pub fn validate(config: &DoorPassesConfig) -> (r: Result<(), DoorPassesError>)
    ensures
        r is Ok <==> config@.is_valid(),
        r matches Err(e) ==> Some(e@) == config_error(config@),
{
    if config.account_id.as_str().is_empty() {
        return Err(DoorPassesError::ConfigError("Account ID is required".to_owned()));
    }
    if config.shared_secret.as_str().is_empty() {
        return Err(DoorPassesError::ConfigError("Shared secret is required".to_owned()));
    }
    Ok(())
}

/// The client: one transport, shared by the resource modules.
pub struct DoorPasses {
    http: Arc<HttpClient>,
    /// Operations on access passes.
    pub access_passes: AccessPasses,
    /// Operations on card templates.
    pub console: Console,
}

impl DoorPasses {
    /// The configuration that the client was made from.
    pub closed spec fn config(&self) -> ConfigView {
        self.http@
    }

    /// The connection pool that the client sends through.
    pub closed spec fn pool(&self) -> reqwest::Client {
        self.http.pool()
    }

    /// Whether the resource modules work under the client's configuration
    /// and over its connection pool.
    pub closed spec fn wf(&self) -> bool {
        &&& self.access_passes.config() == self.config()
        &&& self.access_passes.pool() == self.pool()
        &&& self.console.config() == self.config()
        &&& self.console.pool() == self.pool()
    }

    /// A client over a transport that exists already.
    pub fn from_http(http: HttpClient) -> (client: Self)
        ensures
            client.config() == http@,
            client.pool() == http.pool(),
            client.wf(),
    {
        let http = Arc::new(http);
        let access_passes = AccessPasses::new(share(&http));
        let console = Console::new(share(&http));
        DoorPasses { http, access_passes, console }
    }

    /// A client for the account, with the production base URL and a timeout
    /// of 30 seconds. Empty credentials are rejected with `ConfigError`
    /// before anything else is done; otherwise the client is returned unless
    /// no connection pool can be built, which gives `HttpError`.
    pub fn new(account_id: String, shared_secret: String) -> (r: Result<Self, DoorPassesError>)
        ensures
            config_error(ConfigView::initial(account_id@, shared_secret@)) matches Some(kind) ==> r is Err
                && r->Err_0@ == kind,
            ConfigView::initial(account_id@, shared_secret@).is_valid() ==> match r {
                Ok(client) => client.wf() && client.config() == ConfigView::initial(
                    account_id@,
                    shared_secret@,
                ),
                Err(e) => e@ == ErrorKind::Http,
            },
    {
        let config = DoorPassesConfig::new(account_id, shared_secret);
        Self::with_config(config)
    }

    /// A client with the given configuration. An empty account id, or else
    /// an empty shared secret, is rejected with `ConfigError` before anything
    /// else is done; otherwise the client is returned unless no connection
    /// pool can be built, which gives `HttpError`.
    pub fn with_config(config: DoorPassesConfig) -> (r: Result<Self, DoorPassesError>)
        ensures
            config_error(config@) matches Some(kind) ==> r is Err && r->Err_0@ == kind,
            config@.is_valid() ==> match r {
                Ok(client) => client.wf() && client.config() == config@,
                Err(e) => e@ == ErrorKind::Http,
            },
    {
        match validate(&config) {
            Err(e) => { return Err(e); },
            Ok(_) => {},
        }
        match HttpClient::new(
            config.account_id,
            config.shared_secret,
            config.base_url,
            config.timeout,
        ) {
            Ok(http) => Ok(Self::from_http(http)),
            Err(e) => Err(e),
        }
    }

    /// A client with the given configuration over a connection pool that
    /// exists already: it is made exactly when the configuration is valid.
    pub fn with_transport(config: DoorPassesConfig, transport: reqwest::Client) -> (r: Result<
        Self,
        DoorPassesError,
    >)
        ensures
            r is Ok <==> config@.is_valid(),
            r matches Ok(client) ==> client.wf() && client.config() == config@ && client.pool()
                == transport,
            r matches Err(e) ==> Some(e@) == config_error(config@),
    {
        match validate(&config) {
            Err(e) => { return Err(e); },
            Ok(_) => {},
        }
        Ok(
            Self::from_http(
                HttpClient::with_transport(
                    config.account_id,
                    config.shared_secret,
                    config.base_url,
                    config.timeout,
                    transport,
                ),
            ),
        )
    }

    /// The transport that the client sends through.
    pub fn http(&self) -> (http: &HttpClient)
        ensures
            http@ == self.config(),
            http.pool() == self.pool(),
    {
        &self.http
    }

    /// The request that asks the service for its health: a bare GET.
    pub fn health(&self) -> (req: ApiRequest)
        ensures
            req.is_made_by(self.config(), Method::Get, HEALTH_PATH@, None, None),
    {
        self.http.get(HEALTH_PATH, None)
    }
}

} // verus!

//! What a facade hands to the HTTP transport: the endpoint, its path and its arguments.
use vstd::prelude::*;

use crate::api::{route_path, API};

verus! {

/// Hosts and the default receive window of the exchange.
pub struct Config {
    pub rest_api_endpoint: String,
    pub futures_rest_api_endpoint: String,
    pub recv_window: u64,
}

impl Default for Config {
    fn default() -> (r: Config)
        ensures
            r.rest_api_endpoint@ == default_rest_host(),
            r.futures_rest_api_endpoint@ == default_futures_host(),
            r.recv_window == DEFAULT_RECV_WINDOW,
    {
        Config {
            rest_api_endpoint: "https://api.binance.com".to_owned(),
            futures_rest_api_endpoint: "https://fapi.binance.com".to_owned(),
            recv_window: DEFAULT_RECV_WINDOW,
        }
    }
}

/// Credentials and the host that requests go to.
pub struct Client {
    pub api_key: Option<String>,
    pub secret_key: Option<String>,
    pub host: String,
}

/// The HTTP verb of a request.
#[derive(Clone, Copy, Debug, PartialEq, Eq, Structural)]
pub enum Method {
    Get,
    Post,
    Put,
    Delete,
}

/// One request for the transport to sign, send and decode.
pub struct Request {
    pub method: Method,
    pub route: API,
    pub host: String,
    pub path: String,
    pub listen_key: Option<String>,
}

/// Failures that reach a caller.
#[derive(Clone, Debug, PartialEq, Eq)]
pub enum Error {
    /// The transport failed (network, HTTP status or decoding); its message is kept.
    Transport(String),
    /// The exchange's listing holds no record for the requested symbol.
    SymbolNotFound,
}

impl Client {
    pub fn new(api_key: Option<String>, secret_key: Option<String>, host: String) -> (r: Client)
        ensures
            r.api_key == api_key,
            r.secret_key == secret_key,
            r.host == host,
    {
        Client { api_key, secret_key, host }
    }

    /// A request for `route` with `method` on this client's host.
    pub fn request(&self, method: Method, route: API, listen_key: Option<String>) -> (r: Request)
        ensures
            r.method == method,
            r.route == route,
            r.host == self.host,
            r.path@ == route_path(route),
            r.listen_key == listen_key,
    {
        Request { method, route, host: self.host.clone(), path: route.resolve(), listen_key }
    }
}

/// The default host of the spot and savings namespaces.
pub open spec fn default_rest_host() -> Seq<char> {
    "https://api.binance.com"@
}

/// The default host of the futures namespace.
pub open spec fn default_futures_host() -> Seq<char> {
    "https://fapi.binance.com"@
}

/// The default receive window, in milliseconds.
pub const DEFAULT_RECV_WINDOW: u64 = 5000;

/// Facades built from credentials and a configuration.
pub trait Binance: Sized {
    /// The facade holds these credentials, the host of its namespace out of a
    /// configuration with these hosts, and that configuration's receive window.
    spec fn made_with(
        &self,
        api_key: Option<String>,
        secret_key: Option<String>,
        rest_host: Seq<char>,
        futures_host: Seq<char>,
        recv_window: u64,
    ) -> bool;

    /// A facade on the default configuration.
    fn new(api_key: Option<String>, secret_key: Option<String>) -> (r: Self)
        ensures
            r.made_with(
                api_key,
                secret_key,
                default_rest_host(),
                default_futures_host(),
                DEFAULT_RECV_WINDOW,
            ),
    ;

    /// A facade on `config`.
    fn new_with_config(
        api_key: Option<String>,
        secret_key: Option<String>,
        config: &Config,
    ) -> (r: Self)
        ensures
            r.made_with(
                api_key,
                secret_key,
                config.rest_api_endpoint@,
                config.futures_rest_api_endpoint@,
                config.recv_window,
            ),
    ;
}

} // verus!

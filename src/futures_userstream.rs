//! User data streams of the futures market.
use vstd::prelude::*;

use crate::api::{route_path, Futures, API};
use crate::client::{Binance, Client, Config, Method, Request};

verus! {

/// The facade for futures user data streams.
pub struct FuturesUserStream {
    pub client: Client,
    pub recv_window: u64,
}

impl Binance for FuturesUserStream {
    open spec fn made_with(
        &self,
        api_key: Option<String>,
        secret_key: Option<String>,
        rest_host: Seq<char>,
        futures_host: Seq<char>,
        recv_window: u64,
    ) -> bool {
        self.client.api_key == api_key && self.client.secret_key == secret_key
            && self.client.host@ == futures_host
            && self.recv_window == recv_window
    }

    fn new(api_key: Option<String>, secret_key: Option<String>) -> FuturesUserStream {
        Self::new_with_config(api_key, secret_key, &Config::default())
    }

    fn new_with_config(
        api_key: Option<String>,
        secret_key: Option<String>,
        config: &Config,
    ) -> FuturesUserStream {
        FuturesUserStream {
            client: Client::new(api_key, secret_key, config.futures_rest_api_endpoint.clone()),
            recv_window: config.recv_window,
        }
    }
}

impl FuturesUserStream {
    /// Opens a user data stream; the reply carries its listen key.
    pub fn start(&self) -> (r: Request)
        ensures
            r.method == Method::Post,
            r.route == API::Futures(Futures::UserDataStream),
            r.path@ == route_path(API::Futures(Futures::UserDataStream)),
            r.host == self.client.host,
            r.listen_key.is_none(),
    {
        self.client.request(Method::Post, API::Futures(Futures::UserDataStream), None)
    }

    /// Extends the life of the stream named by `listen_key`.
    pub fn keep_alive(&self, listen_key: &str) -> (r: Request)
        ensures
            r.method == Method::Put,
            r.route == API::Futures(Futures::UserDataStream),
            r.path@ == route_path(API::Futures(Futures::UserDataStream)),
            r.host == self.client.host,
            r.listen_key.is_some() && r.listen_key.unwrap()@ == listen_key@,
    {
        self.client.request(Method::Put, API::Futures(Futures::UserDataStream), Some(listen_key.to_owned()))
    }

    /// Closes the stream named by `listen_key`.
    pub fn close(&self, listen_key: &str) -> (r: Request)
        ensures
            r.method == Method::Delete,
            r.route == API::Futures(Futures::UserDataStream),
            r.path@ == route_path(API::Futures(Futures::UserDataStream)),
            r.host == self.client.host,
            r.listen_key.is_some() && r.listen_key.unwrap()@ == listen_key@,
    {
        self.client.request(Method::Delete, API::Futures(Futures::UserDataStream), Some(listen_key.to_owned()))
    }
}

} // verus!

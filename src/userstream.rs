//! User data streams of the spot market.
use vstd::prelude::*;

use crate::api::{route_path, Spot, API};
use crate::client::{Binance, Client, Config, Method, Request};

verus! {

/// The facade for spot user data streams.
pub struct UserStream {
    pub client: Client,
    pub recv_window: u64,
}

impl Binance for UserStream {
    open spec fn made_with(
        &self,
        api_key: Option<String>,
        secret_key: Option<String>,
        rest_host: Seq<char>,
        futures_host: Seq<char>,
        recv_window: u64,
    ) -> bool {
        self.client.api_key == api_key && self.client.secret_key == secret_key
            && self.client.host@ == rest_host
            && self.recv_window == recv_window
    }

    fn new(api_key: Option<String>, secret_key: Option<String>) -> UserStream {
        Self::new_with_config(api_key, secret_key, &Config::default())
    }

    fn new_with_config(
        api_key: Option<String>,
        secret_key: Option<String>,
        config: &Config,
    ) -> UserStream {
        UserStream {
            client: Client::new(api_key, secret_key, config.rest_api_endpoint.clone()),
            recv_window: config.recv_window,
        }
    }
}

impl UserStream {
    /// Opens a user data stream; the reply carries its listen key.
    pub fn start(&self) -> (r: Request)
        ensures
            r.method == Method::Post,
            r.route == API::Spot(Spot::UserDataStream),
            r.path@ == route_path(API::Spot(Spot::UserDataStream)),
            r.host == self.client.host,
            r.listen_key.is_none(),
    {
        self.client.request(Method::Post, API::Spot(Spot::UserDataStream), None)
    }

    /// Extends the life of the stream named by `listen_key`.
    pub fn keep_alive(&self, listen_key: &str) -> (r: Request)
        ensures
            r.method == Method::Put,
            r.route == API::Spot(Spot::UserDataStream),
            r.path@ == route_path(API::Spot(Spot::UserDataStream)),
            r.host == self.client.host,
            r.listen_key.is_some() && r.listen_key.unwrap()@ == listen_key@,
    {
        self.client.request(Method::Put, API::Spot(Spot::UserDataStream), Some(listen_key.to_owned()))
    }

    /// Closes the stream named by `listen_key`.
    pub fn close(&self, listen_key: &str) -> (r: Request)
        ensures
            r.method == Method::Delete,
            r.route == API::Spot(Spot::UserDataStream),
            r.path@ == route_path(API::Spot(Spot::UserDataStream)),
            r.host == self.client.host,
            r.listen_key.is_some() && r.listen_key.unwrap()@ == listen_key@,
    {
        self.client.request(Method::Delete, API::Spot(Spot::UserDataStream), Some(listen_key.to_owned()))
    }
}

} // verus!

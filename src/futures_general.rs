//! General futures endpoints: connectivity, server time, and instrument lookups.
use vstd::prelude::*;

use crate::api::{route_path, Futures, API};
use crate::client::{Binance, Client, Config, Error, Method, Request};
use crate::model::{ExchangeInformation, Symbol};

verus! {

/// The upper-case form of a string, as `str::to_uppercase` gives it.
pub uninterp spec fn upper_of(s: Seq<char>) -> Seq<char>;

/// Relies on `str::to_uppercase`: the result depends on the characters alone.
#[verifier::external_body]
fn to_upper(s: &str) -> (r: String)
    ensures
        r@ == upper_of(s@),
{
    s.to_uppercase()
}

/// Whether `k` is the first position in `symbols` whose code is `code`.
pub open spec fn is_first_match(symbols: Seq<Symbol>, code: Seq<char>, k: int) -> bool {
    0 <= k < symbols.len() && symbols[k].symbol@ == code && forall|j: int|
        0 <= j < k ==> #[trigger] symbols[j].symbol@ != code
}

/// Whether no record in `symbols` has the code `code`.
pub open spec fn has_no_match(symbols: Seq<Symbol>, code: Seq<char>) -> bool {
    forall|j: int| 0 <= j < symbols.len() ==> #[trigger] symbols[j].symbol@ != code
}

/// The first record of `symbols` whose code equals `code` exactly, or `SymbolNotFound`.
pub fn find_symbol(symbols: Vec<Symbol>, code: &str) -> (r: Result<Symbol, Error>)
    ensures
        match r {
            Ok(s) => exists|k: int| is_first_match(symbols@, code@, k) && s == symbols@[k],
            Err(e) => e == Error::SymbolNotFound && has_no_match(symbols@, code@),
        },
{
    let mut list = symbols;
    let target = code.to_owned();
    let ghost all = list@;
    let mut i: usize = 0;
    while i < list.len()
        invariant
            list@ == all,
            all == symbols@,
            target@ == code@,
            i <= list.len(),
            forall|j: int| 0 <= j < i ==> #[trigger] all[j].symbol@ != code@,
        decreases list.len() - i,
    {
        if list[i].symbol == target {
            assert(is_first_match(all, code@, i as int));
            let s = list.swap_remove(i);
            return Ok(s);
        }
        i = i + 1;
    }
    Err(Error::SymbolNotFound)
}

/// The general futures facade.
pub struct FuturesGeneral {
    pub client: Client,
}

impl Binance for FuturesGeneral {
    open spec fn made_with(
        &self,
        api_key: Option<String>,
        secret_key: Option<String>,
        rest_host: Seq<char>,
        futures_host: Seq<char>,
        recv_window: u64,
    ) -> bool {
        self.client.api_key == api_key && self.client.secret_key == secret_key
            && self.client.host@ == futures_host
    }

    fn new(api_key: Option<String>, secret_key: Option<String>) -> FuturesGeneral {
        Self::new_with_config(api_key, secret_key, &Config::default())
    }

    fn new_with_config(
        api_key: Option<String>,
        secret_key: Option<String>,
        config: &Config,
    ) -> FuturesGeneral {
        FuturesGeneral {
            client: Client::new(api_key, secret_key, config.futures_rest_api_endpoint.clone()),
        }
    }
}

impl FuturesGeneral {
    /// The connectivity test request.
    pub fn ping(&self) -> (r: Request)
        ensures
            r.method == Method::Get,
            r.route == API::Futures(Futures::Ping),
            r.path@ == route_path(API::Futures(Futures::Ping)),
            r.host == self.client.host,
            r.listen_key.is_none(),
    {
        self.client.request(Method::Get, API::Futures(Futures::Ping), None)
    }

    /// What a ping answers once the transport has replied: `"pong"`, or the
    /// transport's failure unchanged.
    pub fn ping_reply(outcome: Result<(), Error>) -> (r: Result<String, Error>)
        ensures
            match outcome {
                Ok(_) => r.is_ok() && r.unwrap()@ == "pong"@,
                Err(e) => r == Err::<String, Error>(e),
            },
    {
        match outcome {
            Ok(_) => Ok("pong".to_owned()),
            Err(e) => Err(e),
        }
    }

    /// The server-time request.
    pub fn get_server_time(&self) -> (r: Request)
        ensures
            r.method == Method::Get,
            r.route == API::Futures(Futures::Time),
            r.path@ == route_path(API::Futures(Futures::Time)),
            r.host == self.client.host,
            r.listen_key.is_none(),
    {
        self.client.request(Method::Get, API::Futures(Futures::Time), None)
    }

    /// The exchange-information request: trading rules and the instrument list.
    pub fn exchange_info(&self) -> (r: Request)
        ensures
            r.method == Method::Get,
            r.route == API::Futures(Futures::ExchangeInfo),
            r.path@ == route_path(API::Futures(Futures::ExchangeInfo)),
            r.host == self.client.host,
            r.listen_key.is_none(),
    {
        self.client.request(Method::Get, API::Futures(Futures::ExchangeInfo), None)
    }

    /// Looks `symbol`, upper-cased, up in the exchange information that the
    /// transport returned; a transport failure is passed on unchanged.
    pub fn get_symbol_info(&self, symbol: &str, info: Result<ExchangeInformation, Error>) -> (r:
        Result<Symbol, Error>)
        ensures
            match info {
                Err(e) => r == Err::<Symbol, Error>(e),
                Ok(i) => match r {
                    Ok(s) => exists|k: int|
                        is_first_match(i.symbols@, upper_of(symbol@), k) && s == i.symbols@[k],
                    Err(e) => e == Error::SymbolNotFound && has_no_match(
                        i.symbols@,
                        upper_of(symbol@),
                    ),
                },
            },
    {
        let upper_symbol = to_upper(symbol);
        match info {
            Ok(i) => find_symbol(i.symbols, upper_symbol.as_str()),
            Err(e) => Err(e),
        }
    }

    /// Every instrument of the exchange information that the transport returned;
    /// a transport failure is passed on unchanged.
    pub fn get_all_symbol_info(&self, info: Result<ExchangeInformation, Error>) -> (r: Result<
        Vec<Symbol>,
        Error,
    >)
        ensures
            match info {
                Ok(i) => r == Ok::<Vec<Symbol>, Error>(i.symbols),
                Err(e) => r == Err::<Vec<Symbol>, Error>(e),
            },
    {
        match info {
            Ok(i) => Ok(i.symbols),
            Err(e) => Err(e),
        }
    }
}

} // verus!

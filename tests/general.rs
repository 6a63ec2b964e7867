use binance::api::{Futures, API};
use binance::client::{Binance, Client, Config, Error, Method};
use binance::futures_general::{find_symbol, FuturesGeneral};
use binance::model::{ExchangeInformation, Symbol};

fn record(code: &str, base: &str, quote: &str) -> Symbol {
    Symbol {
        symbol: code.to_string(),
        pair: code.to_string(),
        contract_type: "PERPETUAL".to_string(),
        status: "TRADING".to_string(),
        base_asset: base.to_string(),
        quote_asset: quote.to_string(),
    }
}

fn fixture() -> ExchangeInformation {
    ExchangeInformation {
        timezone: "UTC".to_string(),
        server_time: 1700000000000,
        symbols: vec![
            record("ETHUSDT", "ETH", "USDT"),
            record("BTCUSDT", "BTC", "USDT"),
            record("BNBUSDT", "BNB", "USDT"),
        ],
    }
}

fn general() -> FuturesGeneral {
    FuturesGeneral::new(None, None)
}

#[test]
fn symbol_lookup_is_case_insensitive() {
    let found = general().get_symbol_info("btcusdt", Ok(fixture()));
    assert_eq!(found, Ok(record("BTCUSDT", "BTC", "USDT")));
}

#[test]
fn symbol_lookup_upper_cases_mixed_input() {
    let found = general().get_symbol_info("BnbUsdt", Ok(fixture())).unwrap();
    assert_eq!(found.base_asset, "BNB");
}

#[test]
fn missing_symbol_is_not_found() {
    let found = general().get_symbol_info("nosuchsymbol", Ok(fixture()));
    assert_eq!(found, Err(Error::SymbolNotFound));
}

#[test]
fn transport_failure_passes_through_lookup() {
    let failure = Error::Transport("timeout".to_string());
    let found = general().get_symbol_info("btcusdt", Err(failure.clone()));
    assert_eq!(found, Err(failure));
}

#[test]
fn find_symbol_takes_the_first_exact_match() {
    let mut symbols = fixture().symbols;
    symbols.push(record("BTCUSDT", "OTHER", "USDT"));
    assert_eq!(find_symbol(symbols.clone(), "BTCUSDT"), Ok(record("BTCUSDT", "BTC", "USDT")));
    assert_eq!(find_symbol(symbols, "btcusdt"), Err(Error::SymbolNotFound));
}

#[test]
fn find_symbol_in_empty_list() {
    assert_eq!(find_symbol(Vec::new(), "BTCUSDT"), Err(Error::SymbolNotFound));
}

#[test]
fn all_symbols_are_returned() {
    let all = general().get_all_symbol_info(Ok(fixture())).unwrap();
    assert_eq!(all, fixture().symbols);
    let failure = Error::Transport("HTTP 500".to_string());
    assert_eq!(general().get_all_symbol_info(Err(failure.clone())), Err(failure));
}

#[test]
fn general_requests_use_futures_routes() {
    let g = general();
    let ping = g.ping();
    assert_eq!(ping.method, Method::Get);
    assert_eq!(ping.route, API::Futures(Futures::Ping));
    assert_eq!(ping.path, "/fapi/v1/ping");
    assert_eq!(ping.host, "https://fapi.binance.com");
    assert_eq!(ping.listen_key, None);
    assert_eq!(g.get_server_time().path, "/fapi/v1/time");
    assert_eq!(g.exchange_info().path, "/fapi/v1/exchangeInfo");
    assert_eq!(g.exchange_info().method, Method::Get);
}

#[test]
fn ping_reply_is_pong() {
    assert_eq!(FuturesGeneral::ping_reply(Ok(())), Ok("pong".to_string()));
    let failure = Error::Transport("refused".to_string());
    assert_eq!(FuturesGeneral::ping_reply(Err(failure.clone())), Err(failure));
}

#[test]
fn configured_host_is_used() {
    let config = Config {
        rest_api_endpoint: "https://spot.example".to_string(),
        futures_rest_api_endpoint: "https://futures.example".to_string(),
        recv_window: 10000,
    };
    let g = FuturesGeneral::new_with_config(Some("key".to_string()), None, &config);
    assert_eq!(g.client.api_key, Some("key".to_string()));
    assert_eq!(g.ping().host, "https://futures.example");
    let c = Client::new(None, None, "https://h".to_string());
    assert_eq!(c.request(Method::Delete, API::Futures(Futures::Order), None).path, "/fapi/v1/order");
}

#[test]
fn default_config() {
    let c = Config::default();
    assert_eq!(c.rest_api_endpoint, "https://api.binance.com");
    assert_eq!(c.futures_rest_api_endpoint, "https://fapi.binance.com");
    assert_eq!(c.recv_window, 5000);
}

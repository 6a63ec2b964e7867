use binance::api::{Futures, Spot, API};
use binance::client::{Binance, Config, Method};
use binance::futures_userstream::FuturesUserStream;
use binance::userstream::UserStream;

#[test]
fn spot_user_stream_requests() {
    let s = UserStream::new(None, None);
    assert_eq!(s.recv_window, Config::default().recv_window);
    let start = s.start();
    assert_eq!(start.method, Method::Post);
    assert_eq!(start.route, API::Spot(Spot::UserDataStream));
    assert_eq!(start.path, "/api/v3/userDataStream");
    assert_eq!(start.host, "https://api.binance.com");
    assert_eq!(start.listen_key, None);
    let keep = s.keep_alive("abc");
    assert_eq!(keep.method, Method::Put);
    assert_eq!(keep.listen_key, Some("abc".to_string()));
    let close = s.close("abc");
    assert_eq!(close.method, Method::Delete);
    assert_eq!(close.path, "/api/v3/userDataStream");
    assert_eq!(close.listen_key, Some("abc".to_string()));
}

#[test]
fn futures_user_stream_requests() {
    let s = FuturesUserStream::new(None, None);
    let start = s.start();
    assert_eq!(start.method, Method::Post);
    assert_eq!(start.route, API::Futures(Futures::UserDataStream));
    assert_eq!(start.path, "/fapi/v1/listenKey");
    assert_eq!(start.host, "https://fapi.binance.com");
    let keep = s.keep_alive("xyz");
    assert_eq!(keep.method, Method::Put);
    assert_eq!(keep.path, "/fapi/v1/listenKey");
    assert_eq!(keep.listen_key, Some("xyz".to_string()));
    let close = s.close("xyz");
    assert_eq!(close.method, Method::Delete);
    assert_eq!(close.listen_key, Some("xyz".to_string()));
}

#[test]
fn user_streams_take_their_namespace_host_from_config() {
    let config = Config {
        rest_api_endpoint: "https://spot.example".to_string(),
        futures_rest_api_endpoint: "https://futures.example".to_string(),
        recv_window: 7000,
    };
    let spot = UserStream::new_with_config(None, Some("secret".to_string()), &config);
    assert_eq!(spot.recv_window, 7000);
    assert_eq!(spot.client.secret_key, Some("secret".to_string()));
    assert_eq!(spot.start().host, "https://spot.example");
    let futures = FuturesUserStream::new_with_config(None, None, &config);
    assert_eq!(futures.recv_window, 7000);
    assert_eq!(futures.close("k").host, "https://futures.example");
}

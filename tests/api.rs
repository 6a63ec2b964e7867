use binance::api::{Futures, Sapi, Spot, API};

fn table() -> Vec<(API, &'static str)> {
    vec![
        (API::Spot(Spot::Ping), "/api/v3/ping"),
        (API::Spot(Spot::Time), "/api/v3/time"),
        (API::Spot(Spot::ExchangeInfo), "/api/v3/exchangeInfo"),
        (API::Spot(Spot::Depth), "/api/v3/depth"),
        (API::Spot(Spot::Trades), "/api/v3/trades"),
        (API::Spot(Spot::HistoricalTrades), "/api/v3/historicalTrades"),
        (API::Spot(Spot::AggTrades), "/api/v3/aggTrades"),
        (API::Spot(Spot::Klines), "/api/v3/klines"),
        (API::Spot(Spot::AvgPrice), "/api/v3/avgPrice"),
        (API::Spot(Spot::Ticker24hr), "/api/v3/ticker/24hr"),
        (API::Spot(Spot::Price), "/api/v3/ticker/price"),
        (API::Spot(Spot::BookTicker), "/api/v3/ticker/bookTicker"),
        (API::Spot(Spot::Order), "/api/v3/order"),
        (API::Spot(Spot::OrderTest), "/api/v3/order/test"),
        (API::Spot(Spot::OpenOrders), "/api/v3/openOrders"),
        (API::Spot(Spot::AllOrders), "/api/v3/allOrders"),
        (API::Spot(Spot::Oco), "/api/v3/order/oco"),
        (API::Spot(Spot::OrderList), "/api/v3/orderList"),
        (API::Spot(Spot::AllOrderList), "/api/v3/allOrderList"),
        (API::Spot(Spot::OpenOrderList), "/api/v3/openOrderList"),
        (API::Spot(Spot::Account), "/api/v3/account"),
        (API::Spot(Spot::MyTrades), "/api/v3/myTrades"),
        (API::Spot(Spot::UserDataStream), "/api/v3/userDataStream"),
        (API::Savings(Sapi::AllCoins), "/sapi/v1/capital/config/getall"),
        (API::Savings(Sapi::AssetDetail), "/sapi/v1/asset/assetDetail"),
        (API::Savings(Sapi::DepositAddress), "/sapi/v1/capital/deposit/address"),
        (API::Savings(Sapi::SpotFuturesTransfer), "/sapi/v1/futures/transfer"),
        (API::Futures(Futures::Ping), "/fapi/v1/ping"),
        (API::Futures(Futures::Time), "/fapi/v1/time"),
        (API::Futures(Futures::ExchangeInfo), "/fapi/v1/exchangeInfo"),
        (API::Futures(Futures::Depth), "/fapi/v1/depth"),
        (API::Futures(Futures::Trades), "/fapi/v1/trades"),
        (API::Futures(Futures::HistoricalTrades), "/fapi/v1/historicalTrades"),
        (API::Futures(Futures::AggTrades), "/fapi/v1/aggTrades"),
        (API::Futures(Futures::Klines), "/fapi/v1/klines"),
        (API::Futures(Futures::ContinuousKlines), "/fapi/v1/continuousKlines"),
        (API::Futures(Futures::IndexPriceKlines), "/fapi/v1/indexPriceKlines"),
        (API::Futures(Futures::MarkPriceKlines), "/fapi/v1/markPriceKlines"),
        (API::Futures(Futures::PremiumIndex), "/fapi/v1/premiumIndex"),
        (API::Futures(Futures::FundingRate), "/fapi/v1/fundingRate"),
        (API::Futures(Futures::Ticker24hr), "/fapi/v1/ticker/24hr"),
        (API::Futures(Futures::TickerPrice), "/fapi/v1/ticker/price"),
        (API::Futures(Futures::BookTicker), "/fapi/v1/ticker/bookTicker"),
        (API::Futures(Futures::AllForceOrders), "/fapi/v1/allForceOrders"),
        (API::Futures(Futures::AllOpenOrders), "/fapi/v1/allOpenOrders"),
        (API::Futures(Futures::AllOrders), "/fapi/v1/allOrders"),
        (API::Futures(Futures::UserTrades), "/fapi/v1/userTrades"),
        (API::Futures(Futures::PositionSide), "/fapi/v1/positionSide/dual"),
        (API::Futures(Futures::Order), "/fapi/v1/order"),
        (API::Futures(Futures::PositionRisk), "/fapi/v2/positionRisk"),
        (API::Futures(Futures::Balance), "/fapi/v2/balance"),
        (API::Futures(Futures::OpenInterest), "/fapi/v1/openInterest"),
        (API::Futures(Futures::OpenInterestHist), "/futures/data/openInterestHist"),
        (API::Futures(Futures::TopLongShortAccountRatio), "/futures/data/topLongShortAccountRatio"),
        (API::Futures(Futures::TopLongShortPositionRatio), "/futures/data/topLongShortPositionRatio"),
        (API::Futures(Futures::GlobalLongShortAccountRatio), "/futures/data/globalLongShortAccountRatio"),
        (API::Futures(Futures::TakerlongshortRatio), "/futures/data/takerlongshortRatio"),
        (API::Futures(Futures::LvtKlines), "/fapi/v1/lvtKlines"),
        (API::Futures(Futures::IndexInfo), "/fapi/v1/indexInfo"),
        (API::Futures(Futures::ChangeInitialLeverage), "/fapi/v1/leverage"),
        (API::Futures(Futures::MarginType), "/fapi/v1/marginType"),
        (API::Futures(Futures::PositionMargin), "/fapi/v1/positionMargin"),
        (API::Futures(Futures::Account), "/fapi/v2/account"),
        (API::Futures(Futures::OpenOrders), "/fapi/v1/openOrders"),
        (API::Futures(Futures::UserDataStream), "/fapi/v1/listenKey"),
        (API::Futures(Futures::Income), "/fapi/v1/income"),
    ]
}

#[test]
fn every_route_resolves_to_its_path() {
    for (route, path) in table() {
        assert_eq!(route.resolve(), path);
    }
}

#[test]
fn paths_start_with_a_slash() {
    for (route, _) in table() {
        let p = route.resolve();
        assert!(!p.is_empty());
        assert!(p.starts_with('/'));
    }
}

#[test]
fn distinct_routes_have_distinct_paths() {
    let all = table();
    for (a, (ra, _)) in all.iter().enumerate() {
        for (b, (rb, _)) in all.iter().enumerate() {
            if a != b {
                assert_ne!(ra, rb);
                assert_ne!(ra.resolve(), rb.resolve());
            }
        }
    }
}

#[test]
fn namespaces_keep_their_prefixes() {
    assert_eq!(API::Spot(Spot::Ping).resolve(), "/api/v3/ping");
    assert_eq!(API::Savings(Sapi::AllCoins).resolve(), "/sapi/v1/capital/config/getall");
    assert_eq!(API::Futures(Futures::Ping).resolve(), "/fapi/v1/ping");
    assert_eq!(API::Futures(Futures::PositionRisk).resolve(), "/fapi/v2/positionRisk");
}

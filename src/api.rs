//! The closed registry of exchange endpoints and the URL path of each.
use vstd::prelude::*;

verus! {

/// An endpoint of one of the exchange's three market namespaces.
#[derive(Clone, Copy, Debug, PartialEq, Eq, Structural)]
pub enum API {
    Spot(Spot),
    Savings(Sapi),
    Futures(Futures),
}

/// Endpoint for production and test orders.
///
/// Orders issued to test are validated, but not sent into the matching engine.
#[derive(Clone, Copy, Debug, PartialEq, Eq, Structural)]
pub enum Spot {
    Ping,
    Time,
    ExchangeInfo,
    Depth,
    Trades,
    HistoricalTrades,
    AggTrades,
    Klines,
    AvgPrice,
    Ticker24hr,
    Price,
    BookTicker,
    Order,
    OrderTest,
    OpenOrders,
    AllOrders,
    Oco,
    OrderList,
    AllOrderList,
    OpenOrderList,
    Account,
    MyTrades,
    UserDataStream,
}

/// Endpoints of the savings and wallet namespace.
#[derive(Clone, Copy, Debug, PartialEq, Eq, Structural)]
pub enum Sapi {
    AllCoins,
    AssetDetail,
    DepositAddress,
    SpotFuturesTransfer,
}

/// Endpoints of the futures namespace.
#[derive(Clone, Copy, Debug, PartialEq, Eq, Structural)]
pub enum Futures {
    Ping,
    Time,
    ExchangeInfo,
    Depth,
    Trades,
    HistoricalTrades,
    AggTrades,
    Klines,
    ContinuousKlines,
    IndexPriceKlines,
    MarkPriceKlines,
    PremiumIndex,
    FundingRate,
    Ticker24hr,
    TickerPrice,
    BookTicker,
    AllForceOrders,
    AllOpenOrders,
    AllOrders,
    UserTrades,
    Order,
    PositionRisk,
    Balance,
    PositionSide,
    OpenInterest,
    OpenInterestHist,
    TopLongShortAccountRatio,
    TopLongShortPositionRatio,
    GlobalLongShortAccountRatio,
    TakerlongshortRatio,
    LvtKlines,
    IndexInfo,
    ChangeInitialLeverage,
    MarginType,
    PositionMargin,
    Account,
    OpenOrders,
    UserDataStream,
    Income,
}

/// Path of each spot endpoint.
pub open spec fn spot_path(r: Spot) -> Seq<char> {
    match r {
        Spot::Ping => "/api/v3/ping"@,
        Spot::Time => "/api/v3/time"@,
        Spot::ExchangeInfo => "/api/v3/exchangeInfo"@,
        Spot::Depth => "/api/v3/depth"@,
        Spot::Trades => "/api/v3/trades"@,
        Spot::HistoricalTrades => "/api/v3/historicalTrades"@,
        Spot::AggTrades => "/api/v3/aggTrades"@,
        Spot::Klines => "/api/v3/klines"@,
        Spot::AvgPrice => "/api/v3/avgPrice"@,
        Spot::Ticker24hr => "/api/v3/ticker/24hr"@,
        Spot::Price => "/api/v3/ticker/price"@,
        Spot::BookTicker => "/api/v3/ticker/bookTicker"@,
        Spot::Order => "/api/v3/order"@,
        Spot::OrderTest => "/api/v3/order/test"@,
        Spot::OpenOrders => "/api/v3/openOrders"@,
        Spot::AllOrders => "/api/v3/allOrders"@,
        Spot::Oco => "/api/v3/order/oco"@,
        Spot::OrderList => "/api/v3/orderList"@,
        Spot::AllOrderList => "/api/v3/allOrderList"@,
        Spot::OpenOrderList => "/api/v3/openOrderList"@,
        Spot::Account => "/api/v3/account"@,
        Spot::MyTrades => "/api/v3/myTrades"@,
        Spot::UserDataStream => "/api/v3/userDataStream"@,
    }
}

/// Path of each savings and wallet endpoint.
pub open spec fn sapi_path(r: Sapi) -> Seq<char> {
    match r {
        Sapi::AllCoins => "/sapi/v1/capital/config/getall"@,
        Sapi::AssetDetail => "/sapi/v1/asset/assetDetail"@,
        Sapi::DepositAddress => "/sapi/v1/capital/deposit/address"@,
        Sapi::SpotFuturesTransfer => "/sapi/v1/futures/transfer"@,
    }
}

/// Path of each futures endpoint.
pub open spec fn futures_path(r: Futures) -> Seq<char> {
    match r {
        Futures::Ping => "/fapi/v1/ping"@,
        Futures::Time => "/fapi/v1/time"@,
        Futures::ExchangeInfo => "/fapi/v1/exchangeInfo"@,
        Futures::Depth => "/fapi/v1/depth"@,
        Futures::Trades => "/fapi/v1/trades"@,
        Futures::HistoricalTrades => "/fapi/v1/historicalTrades"@,
        Futures::AggTrades => "/fapi/v1/aggTrades"@,
        Futures::Klines => "/fapi/v1/klines"@,
        Futures::ContinuousKlines => "/fapi/v1/continuousKlines"@,
        Futures::IndexPriceKlines => "/fapi/v1/indexPriceKlines"@,
        Futures::MarkPriceKlines => "/fapi/v1/markPriceKlines"@,
        Futures::PremiumIndex => "/fapi/v1/premiumIndex"@,
        Futures::FundingRate => "/fapi/v1/fundingRate"@,
        Futures::Ticker24hr => "/fapi/v1/ticker/24hr"@,
        Futures::TickerPrice => "/fapi/v1/ticker/price"@,
        Futures::BookTicker => "/fapi/v1/ticker/bookTicker"@,
        Futures::AllForceOrders => "/fapi/v1/allForceOrders"@,
        Futures::AllOpenOrders => "/fapi/v1/allOpenOrders"@,
        Futures::AllOrders => "/fapi/v1/allOrders"@,
        Futures::UserTrades => "/fapi/v1/userTrades"@,
        Futures::PositionSide => "/fapi/v1/positionSide/dual"@,
        Futures::Order => "/fapi/v1/order"@,
        Futures::PositionRisk => "/fapi/v2/positionRisk"@,
        Futures::Balance => "/fapi/v2/balance"@,
        Futures::OpenInterest => "/fapi/v1/openInterest"@,
        Futures::OpenInterestHist => "/futures/data/openInterestHist"@,
        Futures::TopLongShortAccountRatio => "/futures/data/topLongShortAccountRatio"@,
        Futures::TopLongShortPositionRatio => "/futures/data/topLongShortPositionRatio"@,
        Futures::GlobalLongShortAccountRatio => "/futures/data/globalLongShortAccountRatio"@,
        Futures::TakerlongshortRatio => "/futures/data/takerlongshortRatio"@,
        Futures::LvtKlines => "/fapi/v1/lvtKlines"@,
        Futures::IndexInfo => "/fapi/v1/indexInfo"@,
        Futures::ChangeInitialLeverage => "/fapi/v1/leverage"@,
        Futures::MarginType => "/fapi/v1/marginType"@,
        Futures::PositionMargin => "/fapi/v1/positionMargin"@,
        Futures::Account => "/fapi/v2/account"@,
        Futures::OpenOrders => "/fapi/v1/openOrders"@,
        Futures::UserDataStream => "/fapi/v1/listenKey"@,
        Futures::Income => "/fapi/v1/income"@,
    }
}

/// Path of each endpoint.
pub open spec fn route_path(a: API) -> Seq<char> {
    match a {
        API::Spot(r) => spot_path(r),
        API::Savings(r) => sapi_path(r),
        API::Futures(r) => futures_path(r),
    }
}

/// The path of a spot endpoint.
pub fn spot_str(r: Spot) -> (p: &'static str)
    ensures
        p@ == spot_path(r),
{
    match r {
        Spot::Ping => "/api/v3/ping",
        Spot::Time => "/api/v3/time",
        Spot::ExchangeInfo => "/api/v3/exchangeInfo",
        Spot::Depth => "/api/v3/depth",
        Spot::Trades => "/api/v3/trades",
        Spot::HistoricalTrades => "/api/v3/historicalTrades",
        Spot::AggTrades => "/api/v3/aggTrades",
        Spot::Klines => "/api/v3/klines",
        Spot::AvgPrice => "/api/v3/avgPrice",
        Spot::Ticker24hr => "/api/v3/ticker/24hr",
        Spot::Price => "/api/v3/ticker/price",
        Spot::BookTicker => "/api/v3/ticker/bookTicker",
        Spot::Order => "/api/v3/order",
        Spot::OrderTest => "/api/v3/order/test",
        Spot::OpenOrders => "/api/v3/openOrders",
        Spot::AllOrders => "/api/v3/allOrders",
        Spot::Oco => "/api/v3/order/oco",
        Spot::OrderList => "/api/v3/orderList",
        Spot::AllOrderList => "/api/v3/allOrderList",
        Spot::OpenOrderList => "/api/v3/openOrderList",
        Spot::Account => "/api/v3/account",
        Spot::MyTrades => "/api/v3/myTrades",
        Spot::UserDataStream => "/api/v3/userDataStream",
    }
}

/// The path of a sapi endpoint.
pub fn sapi_str(r: Sapi) -> (p: &'static str)
    ensures
        p@ == sapi_path(r),
{
    match r {
        Sapi::AllCoins => "/sapi/v1/capital/config/getall",
        Sapi::AssetDetail => "/sapi/v1/asset/assetDetail",
        Sapi::DepositAddress => "/sapi/v1/capital/deposit/address",
        Sapi::SpotFuturesTransfer => "/sapi/v1/futures/transfer",
    }
}

/// The path of a futures endpoint.
pub fn futures_str(r: Futures) -> (p: &'static str)
    ensures
        p@ == futures_path(r),
{
    match r {
        Futures::Ping => "/fapi/v1/ping",
        Futures::Time => "/fapi/v1/time",
        Futures::ExchangeInfo => "/fapi/v1/exchangeInfo",
        Futures::Depth => "/fapi/v1/depth",
        Futures::Trades => "/fapi/v1/trades",
        Futures::HistoricalTrades => "/fapi/v1/historicalTrades",
        Futures::AggTrades => "/fapi/v1/aggTrades",
        Futures::Klines => "/fapi/v1/klines",
        Futures::ContinuousKlines => "/fapi/v1/continuousKlines",
        Futures::IndexPriceKlines => "/fapi/v1/indexPriceKlines",
        Futures::MarkPriceKlines => "/fapi/v1/markPriceKlines",
        Futures::PremiumIndex => "/fapi/v1/premiumIndex",
        Futures::FundingRate => "/fapi/v1/fundingRate",
        Futures::Ticker24hr => "/fapi/v1/ticker/24hr",
        Futures::TickerPrice => "/fapi/v1/ticker/price",
        Futures::BookTicker => "/fapi/v1/ticker/bookTicker",
        Futures::AllForceOrders => "/fapi/v1/allForceOrders",
        Futures::AllOpenOrders => "/fapi/v1/allOpenOrders",
        Futures::AllOrders => "/fapi/v1/allOrders",
        Futures::UserTrades => "/fapi/v1/userTrades",
        Futures::PositionSide => "/fapi/v1/positionSide/dual",
        Futures::Order => "/fapi/v1/order",
        Futures::PositionRisk => "/fapi/v2/positionRisk",
        Futures::Balance => "/fapi/v2/balance",
        Futures::OpenInterest => "/fapi/v1/openInterest",
        Futures::OpenInterestHist => "/futures/data/openInterestHist",
        Futures::TopLongShortAccountRatio => "/futures/data/topLongShortAccountRatio",
        Futures::TopLongShortPositionRatio => "/futures/data/topLongShortPositionRatio",
        Futures::GlobalLongShortAccountRatio => "/futures/data/globalLongShortAccountRatio",
        Futures::TakerlongshortRatio => "/futures/data/takerlongshortRatio",
        Futures::LvtKlines => "/fapi/v1/lvtKlines",
        Futures::IndexInfo => "/fapi/v1/indexInfo",
        Futures::ChangeInitialLeverage => "/fapi/v1/leverage",
        Futures::MarginType => "/fapi/v1/marginType",
        Futures::PositionMargin => "/fapi/v1/positionMargin",
        Futures::Account => "/fapi/v2/account",
        Futures::OpenOrders => "/fapi/v1/openOrders",
        Futures::UserDataStream => "/fapi/v1/listenKey",
        Futures::Income => "/fapi/v1/income",
    }
}

impl API {
    /// The URL path of this endpoint.
    pub fn resolve(self) -> (r: String)
        ensures
            r@ == route_path(self),
    {
        let p: &str = match self {
            API::Spot(r) => spot_str(r),
            API::Savings(r) => sapi_str(r),
            API::Futures(r) => futures_str(r),
        };
        p.to_owned()
    }
}

/// Every endpoint resolves to a non-empty path that starts with `/`, and distinct
/// endpoints resolve to distinct paths.
#[verifier::rlimit(100)]
pub proof fn lemma_paths_well_formed(a: API, b: API)
    ensures
        route_path(a).len() >= 1,
        route_path(a)[0] == '/',
        a != b ==> route_path(a) != route_path(b),
{
    reveal_strlit("/api/v3/ping");
    reveal_strlit("/api/v3/time");
    reveal_strlit("/api/v3/exchangeInfo");
    reveal_strlit("/api/v3/depth");
    reveal_strlit("/api/v3/trades");
    reveal_strlit("/api/v3/historicalTrades");
    reveal_strlit("/api/v3/aggTrades");
    reveal_strlit("/api/v3/klines");
    reveal_strlit("/api/v3/avgPrice");
    reveal_strlit("/api/v3/ticker/24hr");
    reveal_strlit("/api/v3/ticker/price");
    reveal_strlit("/api/v3/ticker/bookTicker");
    reveal_strlit("/api/v3/order");
    reveal_strlit("/api/v3/order/test");
    reveal_strlit("/api/v3/openOrders");
    reveal_strlit("/api/v3/allOrders");
    reveal_strlit("/api/v3/order/oco");
    reveal_strlit("/api/v3/orderList");
    reveal_strlit("/api/v3/allOrderList");
    reveal_strlit("/api/v3/openOrderList");
    reveal_strlit("/api/v3/account");
    reveal_strlit("/api/v3/myTrades");
    reveal_strlit("/api/v3/userDataStream");
    reveal_strlit("/sapi/v1/capital/config/getall");
    reveal_strlit("/sapi/v1/asset/assetDetail");
    reveal_strlit("/sapi/v1/capital/deposit/address");
    reveal_strlit("/sapi/v1/futures/transfer");
    reveal_strlit("/fapi/v1/ping");
    reveal_strlit("/fapi/v1/time");
    reveal_strlit("/fapi/v1/exchangeInfo");
    reveal_strlit("/fapi/v1/depth");
    reveal_strlit("/fapi/v1/trades");
    reveal_strlit("/fapi/v1/historicalTrades");
    reveal_strlit("/fapi/v1/aggTrades");
    reveal_strlit("/fapi/v1/klines");
    reveal_strlit("/fapi/v1/continuousKlines");
    reveal_strlit("/fapi/v1/indexPriceKlines");
    reveal_strlit("/fapi/v1/markPriceKlines");
    reveal_strlit("/fapi/v1/premiumIndex");
    reveal_strlit("/fapi/v1/fundingRate");
    reveal_strlit("/fapi/v1/ticker/24hr");
    reveal_strlit("/fapi/v1/ticker/price");
    reveal_strlit("/fapi/v1/ticker/bookTicker");
    reveal_strlit("/fapi/v1/allForceOrders");
    reveal_strlit("/fapi/v1/allOpenOrders");
    reveal_strlit("/fapi/v1/allOrders");
    reveal_strlit("/fapi/v1/userTrades");
    reveal_strlit("/fapi/v1/positionSide/dual");
    reveal_strlit("/fapi/v1/order");
    reveal_strlit("/fapi/v2/positionRisk");
    reveal_strlit("/fapi/v2/balance");
    reveal_strlit("/fapi/v1/openInterest");
    reveal_strlit("/futures/data/openInterestHist");
    reveal_strlit("/futures/data/topLongShortAccountRatio");
    reveal_strlit("/futures/data/topLongShortPositionRatio");
    reveal_strlit("/futures/data/globalLongShortAccountRatio");
    reveal_strlit("/futures/data/takerlongshortRatio");
    reveal_strlit("/fapi/v1/lvtKlines");
    reveal_strlit("/fapi/v1/indexInfo");
    reveal_strlit("/fapi/v1/leverage");
    reveal_strlit("/fapi/v1/marginType");
    reveal_strlit("/fapi/v1/positionMargin");
    reveal_strlit("/fapi/v2/account");
    reveal_strlit("/fapi/v1/openOrders");
    reveal_strlit("/fapi/v1/listenKey");
    reveal_strlit("/fapi/v1/income");
    if route_path(a) == route_path(b) {
        assert(route_path(a).len() == route_path(b).len());
        assert(route_path(a)[9] == route_path(b)[9]);
        assert(route_path(a)[10] == route_path(b)[10]);
        assert(route_path(a)[13] == route_path(b)[13]);
    }
}

} // verus!

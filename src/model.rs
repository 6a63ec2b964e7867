//! Records of the futures exchange-information response that the lookups read.
use vstd::prelude::*;

verus! {

/// One tradeable instrument.
#[derive(Clone, Debug, PartialEq, Eq)]
pub struct Symbol {
    pub symbol: String,
    pub pair: String,
    pub contract_type: String,
    pub status: String,
    pub base_asset: String,
    pub quote_asset: String,
}

/// The exchange's trading rules and its full list of instruments.
#[derive(Clone, Debug, PartialEq, Eq)]
pub struct ExchangeInformation {
    pub timezone: String,
    pub server_time: u64,
    pub symbols: Vec<Symbol>,
}

} // verus!

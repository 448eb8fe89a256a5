//! Binance's futures settled in USD.

use crate::exchange::binance::{Binance, ExchangeServer};
use crate::exchange::{ExchangeId, StreamSelector};
use crate::subscription::liquidation::Liquidations;
use vstd::prelude::*;

verus! {

/// Binance as reached on its USD futures server.
pub type BinanceFuturesUsd = Binance<BinanceServerFuturesUsd>;

/// The server of Binance's futures settled in USD.
#[derive(Copy, Clone, Eq, PartialEq, Ord, PartialOrd, Hash, Debug)]
pub struct BinanceServerFuturesUsd;

impl Default for BinanceServerFuturesUsd {
    fn default() -> Self {
        BinanceServerFuturesUsd
    }
}

impl ExchangeServer for BinanceServerFuturesUsd {
    open spec fn spec_id() -> ExchangeId {
        ExchangeId::BinanceFuturesUsd
    }

    fn id() -> (id: ExchangeId) {
        ExchangeId::BinanceFuturesUsd
    }
}

impl StreamSelector<Liquidations> for BinanceFuturesUsd {

}

} // verus!

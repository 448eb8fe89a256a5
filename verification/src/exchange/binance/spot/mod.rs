//! Binance's spot market.

pub mod candles;

use crate::exchange::binance::{Binance, ExchangeServer};
use crate::exchange::ExchangeId;
use vstd::prelude::*;

verus! {

/// Binance as reached on its spot server.
pub type BinanceSpot = Binance<BinanceServerSpot>;

/// The server of Binance's spot market.
#[derive(Copy, Clone, Eq, PartialEq, Ord, PartialOrd, Hash, Debug)]
pub struct BinanceServerSpot;

impl Default for BinanceServerSpot {
    fn default() -> Self {
        BinanceServerSpot
    }
}

impl ExchangeServer for BinanceServerSpot {
    open spec fn spec_id() -> ExchangeId {
        ExchangeId::BinanceSpot
    }

    fn id() -> (id: ExchangeId) {
        ExchangeId::BinanceSpot
    }
}

} // verus!

//! How Binance spells a market.

use crate::exchange::binance::Binance;
use crate::exchange::WireName;
use crate::model::InstrumentView;
use crate::subscription::Subscription;
use crate::text::{to_uppercase, uppercase};
use crate::Identifier;
use vstd::prelude::*;
use vstd::string::*;

verus! {

/// The name of a market in Binance's spelling: base and quote without a separator, in
/// upper case, as Binance writes it in the messages it sends.
#[derive(Eq, PartialEq, Ord, PartialOrd, Hash, Debug)]
pub struct BinanceMarket(pub String);

impl View for BinanceMarket {
    type V = Seq<char>;

    open spec fn view(&self) -> Seq<char> {
        self.0@
    }
}

impl DeepView for BinanceMarket {
    type V = Seq<char>;

    open spec fn deep_view(&self) -> Seq<char> {
        self@
    }
}

impl Clone for BinanceMarket {
    fn clone(&self) -> (market: BinanceMarket)
        ensures
            market == *self,
    {
        BinanceMarket(self.0.clone())
    }
}

impl WireName for BinanceMarket {
    fn name(&self) -> (name: &str) {
        self.0.as_str()
    }
}

impl BinanceMarket {
    /// Binance's name for the market of `instrument`.
    pub open spec fn market_name(instrument: InstrumentView) -> Seq<char> {
        uppercase(instrument.base + instrument.quote)
    }
}

impl<Server, Kind> Identifier<BinanceMarket> for Subscription<Binance<Server>, Kind> {
    open spec fn spec_id(&self) -> Seq<char> {
        BinanceMarket::market_name(self.instrument@)
    }

    fn id(&self) -> (id: BinanceMarket) {
        let mut pair = self.instrument.base.as_str().to_owned();
        pair.append(self.instrument.quote.as_str());
        BinanceMarket(to_uppercase(pair.as_str()))
    }
}

} // verus!

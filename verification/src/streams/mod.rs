//! Many connections at once: the life of each, and where their events meet.

pub mod connection;
pub mod merge;

use crate::exchange::ExchangeId;
use vstd::prelude::*;

verus! {

/// The streams of events that are ready to be read, one for each exchange at most.
///
/// `Rx` is whatever a stream is read through. A stream is handed out once: to the caller
/// that selects its exchange, or, with all the other streams that are still here, to the
/// caller that joins them.
#[derive(Debug)]
pub struct Streams<Rx> {
    binance_futures_usd: Option<Rx>,
    binance_spot: Option<Rx>,
    coinbase: Option<Rx>,
    gateio_futures_usd: Option<Rx>,
    okx: Option<Rx>,
}

impl<Rx> View for Streams<Rx> {
    type V = Map<ExchangeId, Rx>;

    closed spec fn view(&self) -> Map<ExchangeId, Rx> {
        Map::new(
            |exchange: ExchangeId| self.slot(exchange) is Some,
            |exchange: ExchangeId| self.slot(exchange)->Some_0,
        )
    }
}

impl<Rx> Streams<Rx> {
    /// What is held for `exchange`.
    closed spec fn slot(self, exchange: ExchangeId) -> Option<Rx> {
        match exchange {
            ExchangeId::BinanceFuturesUsd => self.binance_futures_usd,
            ExchangeId::BinanceSpot => self.binance_spot,
            ExchangeId::Coinbase => self.coinbase,
            ExchangeId::GateioFuturesUsd => self.gateio_futures_usd,
            ExchangeId::Okx => self.okx,
        }
    }

    /// No streams.
    pub fn new() -> (streams: Self)
        ensures
            streams@ == Map::<ExchangeId, Rx>::empty(),
    {
        let streams = Streams {
            binance_futures_usd: None,
            binance_spot: None,
            coinbase: None,
            gateio_futures_usd: None,
            okx: None,
        };
        assert(streams@ =~= Map::<ExchangeId, Rx>::empty());
        streams
    }

    /// Whether the stream of `exchange` is here.
    pub fn contains(&self, exchange: ExchangeId) -> (found: bool)
        ensures
            found == self@.contains_key(exchange),
    {
        match exchange {
            ExchangeId::BinanceFuturesUsd => self.binance_futures_usd.is_some(),
            ExchangeId::BinanceSpot => self.binance_spot.is_some(),
            ExchangeId::Coinbase => self.coinbase.is_some(),
            ExchangeId::GateioFuturesUsd => self.gateio_futures_usd.is_some(),
            ExchangeId::Okx => self.okx.is_some(),
        }
    }

    /// Puts the stream of `exchange` here, and hands back the one that was here before.
    pub fn insert(&mut self, exchange: ExchangeId, stream: Rx) -> (previous: Option<Rx>)
        ensures
            final(self)@ == old(self)@.insert(exchange, stream),
            previous == if old(self)@.contains_key(exchange) {
                Some(old(self)@[exchange])
            } else {
                None::<Rx>
            },
    {
        let mut held = Some(stream);
        match exchange {
            ExchangeId::BinanceFuturesUsd => {
                std::mem::swap(&mut self.binance_futures_usd, &mut held)
            },
            ExchangeId::BinanceSpot => std::mem::swap(&mut self.binance_spot, &mut held),
            ExchangeId::Coinbase => std::mem::swap(&mut self.coinbase, &mut held),
            ExchangeId::GateioFuturesUsd => {
                std::mem::swap(&mut self.gateio_futures_usd, &mut held)
            },
            ExchangeId::Okx => std::mem::swap(&mut self.okx, &mut held),
        }
        proof {
            assert forall|other: ExchangeId| other != exchange implies self.slot(other) == old(
                self,
            ).slot(other) by {}
            assert(self.slot(exchange) == Some(stream));
            assert(self@ =~= old(self)@.insert(exchange, stream));
        }
        held
    }

    /// Hands out the stream of `exchange`, if it is still here.
    ///
    /// A stream goes to the first caller that selects it; to select it again gives
    /// nothing, and takes nothing from the first caller.
    pub fn select(&mut self, exchange: ExchangeId) -> (stream: Option<Rx>)
        ensures
            stream == if old(self)@.contains_key(exchange) {
                Some(old(self)@[exchange])
            } else {
                None::<Rx>
            },
            final(self)@ == old(self)@.remove(exchange),
            !final(self)@.contains_key(exchange),
    {
        let stream = match exchange {
            ExchangeId::BinanceFuturesUsd => self.binance_futures_usd.take(),
            ExchangeId::BinanceSpot => self.binance_spot.take(),
            ExchangeId::Coinbase => self.coinbase.take(),
            ExchangeId::GateioFuturesUsd => self.gateio_futures_usd.take(),
            ExchangeId::Okx => self.okx.take(),
        };
        proof {
            assert forall|other: ExchangeId| other != exchange implies self.slot(other) == old(
                self,
            ).slot(other) by {}
            assert(self.slot(exchange) is None);
            assert(self@ =~= old(self)@.remove(exchange));
        }
        stream
    }

    /// Hands out every stream that is still here, each with its exchange, to be read as
    /// one. The streams come in the order of their exchanges.
    pub fn join(self) -> (streams: Vec<(ExchangeId, Rx)>)
        ensures
            streams@.len() == self@.len(),
            self@.dom().finite(),
            forall|i: int|
                0 <= i < streams@.len() ==> self@.contains_key((#[trigger] streams@[i]).0)
                    && self@[streams@[i].0] == streams@[i].1,
            forall|i: int, j: int|
                0 <= i < j < streams@.len() ==> (#[trigger] streams@[i]).0.rank() < (
                #[trigger] streams@[j]).0.rank(),
    {
        let mut streams: Vec<(ExchangeId, Rx)> = Vec::new();
        let ghost all = self@;
        let Streams { binance_futures_usd, binance_spot, coinbase, gateio_futures_usd, okx } = self;
        let ghost at_binance_futures_usd = streams@.len() as int;
        if let Some(stream) = binance_futures_usd {
            streams.push((ExchangeId::BinanceFuturesUsd, stream));
        }
        let ghost at_binance_spot = streams@.len() as int;
        if let Some(stream) = binance_spot {
            streams.push((ExchangeId::BinanceSpot, stream));
        }
        let ghost at_coinbase = streams@.len() as int;
        if let Some(stream) = coinbase {
            streams.push((ExchangeId::Coinbase, stream));
        }
        let ghost at_gateio_futures_usd = streams@.len() as int;
        if let Some(stream) = gateio_futures_usd {
            streams.push((ExchangeId::GateioFuturesUsd, stream));
        }
        let ghost at_okx = streams@.len() as int;
        if let Some(stream) = okx {
            streams.push((ExchangeId::Okx, stream));
        }
        proof {
            let taken = streams@.map_values(|entry: (ExchangeId, Rx)| entry.0);
            assert(taken.no_duplicates());
            assert forall|exchange: ExchangeId| all.dom().contains(exchange) implies taken.contains(
                exchange,
            ) by {
                let i = match exchange {
                    ExchangeId::BinanceFuturesUsd => at_binance_futures_usd,
                    ExchangeId::BinanceSpot => at_binance_spot,
                    ExchangeId::Coinbase => at_coinbase,
                    ExchangeId::GateioFuturesUsd => at_gateio_futures_usd,
                    ExchangeId::Okx => at_okx,
                };
                assert(taken[i] == exchange);
            }
            assert forall|exchange: ExchangeId| taken.contains(exchange) implies all.dom().contains(
                exchange,
            ) by {
                let i = choose|i: int| 0 <= i < taken.len() && taken[i] == exchange;
                assert(streams@[i].0 == exchange);
            }
            assert(taken.to_set() =~= all.dom());
            taken.unique_seq_to_set();
        }
        streams
    }
}

} // verus!

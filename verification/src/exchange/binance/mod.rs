//! Binance: its spot market and its USD futures, reached on servers of their own.

pub mod channel;
pub mod futures;
pub mod market;
pub mod spot;
pub mod subscription;

use crate::exchange::{Connector, ExchangeId, StreamSelector};
use crate::subscription::book::{OrderBooksL1, OrderBooksL2};
use crate::subscription::candle::Candles;
use crate::subscription::trade::PublicTrades;
use vstd::prelude::*;

verus! {

/// One of the servers that Binance is reached on.
pub trait ExchangeServer {
    /// The exchange that this server belongs to.
    spec fn spec_id() -> ExchangeId;

    /// The exchange that this server belongs to.
    fn id() -> (id: ExchangeId)
        ensures
            id == Self::spec_id(),
    ;
}

/// Stands for Binance as reached on `Server`.
#[derive(Copy, Clone, Eq, PartialEq, Ord, PartialOrd, Hash, Debug)]
pub struct Binance<Server> {
    server: Server,
}

impl<Server: Default> Default for Binance<Server> {
    fn default() -> Self {
        Binance { server: Server::default() }
    }
}

impl<Server: ExchangeServer> Connector for Binance<Server> {
    open spec fn spec_id() -> ExchangeId {
        Server::spec_id()
    }

    fn id() -> (id: ExchangeId) {
        Server::id()
    }
}

impl<Server: ExchangeServer> StreamSelector<PublicTrades> for Binance<Server> {

}

impl<Server: ExchangeServer> StreamSelector<OrderBooksL1> for Binance<Server> {

}

impl<Server: ExchangeServer> StreamSelector<OrderBooksL2> for Binance<Server> {

}

impl<Server: ExchangeServer> StreamSelector<Candles> for Binance<Server> {

}

} // verus!

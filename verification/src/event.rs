//! What the library hands on: market events in one shape for every exchange.

use crate::error::SocketError;
use crate::exchange::ExchangeId;
use crate::model::Instrument;
use crate::time::UtcDateTime;
use vstd::prelude::*;

verus! {

/// One piece of market data of kind `T`, with where and when it came from.
///
/// `exchange_time` is the time that the exchange wrote into its message; `received_time`
/// is the time at which the message was transformed here.
#[derive(Clone, PartialEq, PartialOrd, Debug)]
pub struct MarketEvent<T> {
    pub exchange_time: UtcDateTime,
    pub received_time: UtcDateTime,
    pub exchange: ExchangeId,
    pub instrument: Instrument,
    pub kind: T,
}

impl<T> MarketEvent<T> {
    /// This event, as if it had been received at `received_time`.
    pub open spec fn received_at(self, received_time: UtcDateTime) -> MarketEvent<T> {
        MarketEvent { received_time, ..self }
    }
}

/// The events that one message of an exchange gives: none, one or several, each either
/// the event or the reason why there is none.
#[derive(Debug)]
pub struct MarketIter<T>(pub Vec<Result<MarketEvent<T>, SocketError>>);

} // verus!

//! Turning an exchange's messages into market events.

use crate::error::{SocketError, SocketErrorView};
use crate::event::{MarketEvent, MarketIter};
use crate::exchange::{Connector, ExchangeId};
use crate::model::{Instrument, SubscriptionId};
use crate::subscription::map::SubscriptionMap;
use crate::Identifier;
use std::marker::PhantomData;
use vstd::prelude::*;

verus! {

/// Transforms the messages of one connection to `Exchange`, each on its own: it finds the
/// instrument that a message is about and hands the message on as events.
pub struct StatelessTransformer<Exchange> {
    instrument_map: SubscriptionMap<Instrument>,
    exchange: PhantomData<Exchange>,
}

impl<Exchange: Connector> StatelessTransformer<Exchange> {
    /// The instruments that the connection subscribed to, by identifier.
    pub closed spec fn instruments(self) -> Map<Seq<char>, Instrument> {
        self.instrument_map@
    }

    /// The transformer of a connection that subscribed to what `instrument_map` holds.
    pub fn new(instrument_map: SubscriptionMap<Instrument>) -> (transformer: Self)
        ensures
            transformer.instruments() == instrument_map@,
    {
        StatelessTransformer { instrument_map, exchange: PhantomData }
    }

    /// The table of the instruments that the connection subscribed to.
    pub fn instrument_map(&self) -> (instrument_map: &SubscriptionMap<Instrument>)
        ensures
            instrument_map@ == self.instruments(),
    {
        &self.instrument_map
    }

    /// The events that `input` gives.
    ///
    /// A message without an identifier gives nothing. A message whose identifier nothing
    /// subscribed to gives one error, [`SocketError::Unidentifiable`]; the connection is
    /// not the worse for it. Any other message gives what `MarketIter::from` makes of it
    /// for the instrument that is entered under its identifier.
    pub fn transform<Input, Output>(&self, input: Input) -> (events: Vec<
        Result<MarketEvent<Output>, SocketError>,
    >)
        where
            Input: Identifier<Option<SubscriptionId>>,
            MarketIter<Output>: From<(ExchangeId, Instrument, Input)>,
        ensures
            match input.spec_id() {
                None => events@.len() == 0,
                Some(id) => if self.instruments().contains_key(id) {
                    call_ensures(
                        <MarketIter<Output> as From<(ExchangeId, Instrument, Input)>>::from,
                        ((Exchange::spec_id(), self.instruments()[id], input),),
                        MarketIter(events),
                    )
                } else {
                    &&& events@.len() == 1
                    &&& events@[0] matches Err(error) && error@ == SocketErrorView::Unidentifiable(
                        id,
                    )
                },
            },
    {
        let subscription_id = match input.id() {
            Some(subscription_id) => subscription_id,
            None => {
                return Vec::new();
            },
        };
        match self.instrument_map.find(&subscription_id) {
            Ok(instrument) => MarketIter::from((Exchange::id(), instrument, input)).0,
            Err(unidentifiable) => {
                let mut events = Vec::new();
                events.push(Err(unidentifiable));
                events
            },
        }
    }
}

} // verus!

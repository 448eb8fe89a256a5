//! Binance's candle messages.

use crate::error::SocketError;
use crate::event::{MarketEvent, MarketIter};
use crate::exchange::binance::channel::BinanceChannel;
use crate::exchange::binance::market::BinanceMarket;
use crate::exchange::binance::Binance;
use crate::exchange::{subscription_id_text, Connector, ExchangeId, ExchangeSub};
use crate::model::{Instrument, SubscriptionId};
use crate::subscription::candle::{Candle, Candles};
use crate::subscription::map::{collect, distinct_ids};
use crate::subscription::{
    id_pairs, lemma_batch_finds_each_instrument, subscription_id_of, Subscription,
};
use crate::transformer::StatelessTransformer;
use crate::time::UtcDateTime;
use crate::Identifier;
use vstd::prelude::*;
use vstd::std_specs::convert::FromSpecImpl;
use vstd::string::*;

verus! {

/// One candle message, as Binance sends it for every change of the running candle.
///
/// The message's fields, by the names they have on the wire: `E` is `time`, `s` the
/// market that `subscription_id` is made from, `k` the `candle`.
#[derive(Clone, PartialEq, PartialOrd, Debug)]
pub struct BinanceCandle<N> {
    pub subscription_id: SubscriptionId,
    pub time: UtcDateTime,
    pub candle: BinanceCandleInner<N>,
}

/// The candle inside a [`BinanceCandle`].
///
/// The fields, by the names they have on the wire: `t`, `T`, `i`, `o`, `c`, `h`, `l`,
/// `v` and `n`, in the order of the fields here. `N` is the type that the prices and the
/// volume were read into.
#[derive(Clone, PartialEq, PartialOrd, Debug)]
pub struct BinanceCandleInner<N> {
    pub start: UtcDateTime,
    pub end: UtcDateTime,
    pub interval: String,
    pub open: N,
    pub close: N,
    pub high: N,
    pub low: N,
    pub volume: N,
    pub trades: u64,
}

/// The identifier of the candles of `interval` on `market`: the candle channel's prefix
/// and the interval make the channel.
pub open spec fn candle_subscription_id(interval: Seq<char>, market: Seq<char>) -> Seq<char> {
    subscription_id_text("@kline_"@ + interval, market)
}

/// The identifier under which a candle message with interval `interval` (`1m`) and market
/// `market` (`BTCUSDT`) arrives.
pub fn de_trade_subscription_id(interval: &str, market: &str) -> (id: SubscriptionId)
    ensures
        id@ == candle_subscription_id(interval@, market@),
{
    let mut channel = BinanceChannel::candles_prefix().0.to_owned();
    channel.append(interval);
    ExchangeSub { channel, market }.id()
}

impl<N> BinanceCandleInner<N> {
    /// The candle that the fields `t`, `T`, `i`, `o`, `c`, `h`, `l`, `v` and `n` of a
    /// message describe; the two times are in milliseconds since the Unix epoch.
    pub fn new(
        start_ms: u64,
        end_ms: u64,
        interval: String,
        open: N,
        close: N,
        high: N,
        low: N,
        volume: N,
        trades: u64,
    ) -> (candle: Self)
        ensures
            candle == (BinanceCandleInner {
                start: UtcDateTime::spec_from_epoch_ms(start_ms),
                end: UtcDateTime::spec_from_epoch_ms(end_ms),
                interval,
                open,
                close,
                high,
                low,
                volume,
                trades,
            }),
    {
        BinanceCandleInner {
            start: UtcDateTime::from_epoch_ms(start_ms),
            end: UtcDateTime::from_epoch_ms(end_ms),
            interval,
            open,
            close,
            high,
            low,
            volume,
            trades,
        }
    }
}

impl<N> BinanceCandle<N> {
    /// The message with market `market` (field `s`), event time `time_ms` (field `E`, in
    /// milliseconds since the Unix epoch) and candle `candle` (field `k`).
    pub fn new(market: &str, time_ms: u64, candle: BinanceCandleInner<N>) -> (message: Self)
        ensures
            message.subscription_id@ == candle_subscription_id(candle.interval@, market@),
            message.time == UtcDateTime::spec_from_epoch_ms(time_ms),
            message.candle == candle,
    {
        BinanceCandle {
            subscription_id: de_trade_subscription_id(candle.interval.as_str(), market),
            time: UtcDateTime::from_epoch_ms(time_ms),
            candle,
        }
    }

    /// The event that this message stands for, once it is known which instrument it is
    /// about and when it was received.
    pub open spec fn event(
        self,
        exchange: ExchangeId,
        instrument: Instrument,
        received_time: UtcDateTime,
    ) -> MarketEvent<Candle<N>> {
        MarketEvent {
            exchange_time: self.time,
            received_time,
            exchange,
            instrument,
            kind: Candle {
                close_time: self.candle.end,
                open: self.candle.open,
                high: self.candle.high,
                low: self.candle.low,
                close: self.candle.close,
                volume: self.candle.volume,
                trade_count: self.candle.trades,
            },
        }
    }

    /// Turns the message into the event it stands for.
    pub fn into_event(
        self,
        exchange: ExchangeId,
        instrument: Instrument,
        received_time: UtcDateTime,
    ) -> (event: MarketEvent<Candle<N>>)
        ensures
            event == self.event(exchange, instrument, received_time),
    {
        MarketEvent {
            exchange_time: self.time,
            received_time,
            exchange,
            instrument,
            kind: Candle {
                close_time: self.candle.end,
                open: self.candle.open,
                high: self.candle.high,
                low: self.candle.low,
                close: self.candle.close,
                volume: self.candle.volume,
                trade_count: self.candle.trades,
            },
        }
    }
}

/// What a candle message gives on a connection to `exchange` that subscribed to
/// `instruments`, when the message is received at `received_time`: the one event it
/// stands for, or the one error that nothing subscribed to its identifier.
pub open spec fn candle_events<N>(
    instruments: Map<Seq<char>, Instrument>,
    exchange: ExchangeId,
    message: BinanceCandle<N>,
    received_time: UtcDateTime,
) -> Seq<Result<MarketEvent<Candle<N>>, SocketError>> {
    if instruments.contains_key(message.subscription_id@) {
        seq![
            Ok(message.event(exchange, instruments[message.subscription_id@], received_time)),
        ]
    } else {
        seq![Err(SocketError::Unidentifiable(message.subscription_id))]
    }
}

impl<Exchange: Connector> StatelessTransformer<Exchange> {
    /// The events that the candle message `message` gives when it is received at
    /// `received_time`.
    pub fn transform_candle_at<N>(
        &self,
        message: BinanceCandle<N>,
        received_time: UtcDateTime,
    ) -> (events: Vec<Result<MarketEvent<Candle<N>>, SocketError>>)
        ensures
            events@ == candle_events(
                self.instruments(),
                Exchange::spec_id(),
                message,
                received_time,
            ),
    {
        let mut events = Vec::new();
        match self.instrument_map().find(&message.subscription_id) {
            Ok(instrument) => {
                events.push(Ok(message.into_event(Exchange::id(), instrument, received_time)));
            },
            Err(_) => {
                events.push(Err(SocketError::Unidentifiable(message.subscription_id)));
            },
        }
        assert(events@ =~= candle_events(
            self.instruments(),
            Exchange::spec_id(),
            message,
            received_time,
        ));
        events
    }

    /// The events that the candle message `message` gives, received now.
    pub fn transform_candle<N>(&self, message: BinanceCandle<N>) -> (events: Vec<
        Result<MarketEvent<Candle<N>>, SocketError>,
    >)
        ensures
            exists|received_time: UtcDateTime|
                events@ == #[trigger] candle_events(
                    self.instruments(),
                    Exchange::spec_id(),
                    message,
                    received_time,
                ),
    {
        self.transform_candle_at(message, UtcDateTime::now())
    }
}

/// The identifier under which a candle subscription is entered before the connection
/// opens is the identifier under which its messages arrive: a message of the
/// subscription carries the spelling of the subscription's interval and Binance's name of
/// its market.
pub proof fn lemma_candle_id_round_trip<Server>(
    subscription: Subscription<Binance<Server>, Candles>,
)
    ensures
        subscription_id_of::<Binance<Server>, Candles, BinanceChannel, BinanceMarket>(subscription)
            == candle_subscription_id(
            subscription.kind.0.token(),
            BinanceMarket::market_name(subscription.instrument@),
        ),
{
}

/// On a connection that serves a batch of candle subscriptions with identifiers of their
/// own, a message that carries the interval and the market of one of them gives one
/// event, and the event is about the instrument of that subscription.
pub proof fn lemma_candle_message_finds_its_subscription<Server, N>(
    subscriptions: Seq<Subscription<Binance<Server>, Candles>>,
    i: int,
    exchange: ExchangeId,
    message: BinanceCandle<N>,
    received_time: UtcDateTime,
)
    requires
        distinct_ids(
            id_pairs::<Binance<Server>, Candles, BinanceChannel, BinanceMarket>(subscriptions),
        ),
        0 <= i < subscriptions.len(),
        message.subscription_id@ == candle_subscription_id(
            subscriptions[i].kind.0.token(),
            BinanceMarket::market_name(subscriptions[i].instrument@),
        ),
    ensures
        candle_events(
            collect(
                id_pairs::<Binance<Server>, Candles, BinanceChannel, BinanceMarket>(subscriptions),
            ),
            exchange,
            message,
            received_time,
        ) == seq![
            Ok::<MarketEvent<Candle<N>>, SocketError>(
                message.event(exchange, subscriptions[i].instrument, received_time),
            ),
        ],
{
    lemma_candle_id_round_trip(subscriptions[i]);
    lemma_batch_finds_each_instrument::<Binance<Server>, Candles, BinanceChannel, BinanceMarket>(
        subscriptions,
        i,
    );
}

/// A message that is transformed twice gives the same outcome twice, but for the time of
/// receipt: the same error both times, or two events that differ in nothing else.
pub proof fn lemma_candle_events_twice<N>(
    instruments: Map<Seq<char>, Instrument>,
    exchange: ExchangeId,
    message: BinanceCandle<N>,
    first: UtcDateTime,
    second: UtcDateTime,
)
    ensures
        candle_events(instruments, exchange, message, first).len() == 1,
        candle_events(instruments, exchange, message, second).len() == 1,
        match candle_events(instruments, exchange, message, first)[0] {
            Ok(event) => candle_events(instruments, exchange, message, second)[0] == Ok::<
                MarketEvent<Candle<N>>,
                SocketError,
            >(event.received_at(second)),
            Err(error) => candle_events(instruments, exchange, message, second)[0] == Err::<
                MarketEvent<Candle<N>>,
                SocketError,
            >(error),
        },
{
}

impl<N> Identifier<Option<SubscriptionId>> for BinanceCandle<N> {
    open spec fn spec_id(&self) -> Option<Seq<char>> {
        Some(self.subscription_id@)
    }

    fn id(&self) -> (id: Option<SubscriptionId>) {
        Some(self.subscription_id.clone())
    }
}

impl<N> From<(ExchangeId, Instrument, BinanceCandle<N>)> for MarketIter<Candle<N>> {
    /// The one event that a candle message gives, received now.
    fn from(parts: (ExchangeId, Instrument, BinanceCandle<N>)) -> (events: Self)
        ensures
            events.0@.len() == 1,
            events.0@[0] matches Ok(event) && event == parts.2.event(
                parts.0,
                parts.1,
                event.received_time,
            ),
    {
        let (exchange, instrument, candle) = parts;
        let event = candle.into_event(exchange, instrument, UtcDateTime::now());
        let mut events = Vec::new();
        events.push(Ok(event));
        MarketIter(events)
    }
}

impl<N> FromSpecImpl<(ExchangeId, Instrument, BinanceCandle<N>)> for MarketIter<Candle<N>> {
    /// The contract of `from` says what the conversion gives; no spec function does.
    open spec fn obeys_from_spec() -> bool {
        false
    }

    open spec fn from_spec(parts: (ExchangeId, Instrument, BinanceCandle<N>)) -> Self {
        arbitrary()
    }
}

} // verus!

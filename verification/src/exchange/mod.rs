//! The exchanges, what each can serve, and how a subscription is spelled on one.

pub mod binance;
pub mod coinbase;
pub mod gateio;
pub mod okx;

use crate::model::{InstrumentKind, SubscriptionId};
use crate::subscription::{SubKind, Subscription};
use crate::Identifier;
use vstd::prelude::*;
use vstd::string::*;

verus! {

/// Names one exchange, or one segment of an exchange that is reached on its own.
#[derive(Copy, Clone, Eq, PartialEq, Ord, PartialOrd, Hash, Debug)]
pub enum ExchangeId {
    BinanceFuturesUsd,
    BinanceSpot,
    Coinbase,
    GateioFuturesUsd,
    Okx,
}

impl ExchangeId {
    /// The exchange's place among the exchanges, in the order of their names.
    pub open spec fn rank(self) -> nat {
        match self {
            ExchangeId::BinanceFuturesUsd => 0,
            ExchangeId::BinanceSpot => 1,
            ExchangeId::Coinbase => 2,
            ExchangeId::GateioFuturesUsd => 3,
            ExchangeId::Okx => 4,
        }
    }

    /// The exchange's name in snake case.
    pub open spec fn name(self) -> Seq<char> {
        match self {
            ExchangeId::BinanceFuturesUsd => "binance_futures_usd"@,
            ExchangeId::BinanceSpot => "binance_spot"@,
            ExchangeId::Coinbase => "coinbase"@,
            ExchangeId::GateioFuturesUsd => "gateio_futures_usd"@,
            ExchangeId::Okx => "okx"@,
        }
    }

    /// The exchange's name in snake case.
    pub fn as_str(&self) -> (name: &'static str)
        ensures
            name@ == self.name(),
    {
        match self {
            ExchangeId::BinanceFuturesUsd => "binance_futures_usd",
            ExchangeId::BinanceSpot => "binance_spot",
            ExchangeId::Coinbase => "coinbase",
            ExchangeId::GateioFuturesUsd => "gateio_futures_usd",
            ExchangeId::Okx => "okx",
        }
    }

    /// The exchange's name in snake case, as a `String`.
    pub fn to_string(&self) -> (name: String)
        ensures
            name@ == self.name(),
    {
        self.as_str().to_owned()
    }

    /// Whether the exchange serves spot instruments.
    #[verifier::allow_in_spec]
    pub fn supports_spot(&self) -> bool
        returns
            !(*self == ExchangeId::BinanceFuturesUsd || *self == ExchangeId::GateioFuturesUsd),
    {
        match self {
            ExchangeId::BinanceFuturesUsd => false,
            ExchangeId::GateioFuturesUsd => false,
            _ => true,
        }
    }

    /// Whether the exchange serves perpetual futures.
    #[verifier::allow_in_spec]
    pub fn supports_futures(&self) -> bool
        returns
            (*self == ExchangeId::BinanceFuturesUsd || *self == ExchangeId::GateioFuturesUsd
                || *self == ExchangeId::Okx),
    {
        match self {
            ExchangeId::BinanceFuturesUsd => true,
            ExchangeId::GateioFuturesUsd => true,
            ExchangeId::Okx => true,
            _ => false,
        }
    }

    /// Whether the exchange serves instruments of the given kind.
    #[verifier::allow_in_spec]
    pub fn supports(&self, kind: InstrumentKind) -> bool
        returns
            (match kind {
                InstrumentKind::Spot => self.supports_spot(),
                InstrumentKind::FuturePerpetual => self.supports_futures(),
            }),
    {
        match kind {
            InstrumentKind::Spot => self.supports_spot(),
            InstrumentKind::FuturePerpetual => self.supports_futures(),
        }
    }
}

/// A type that stands for one exchange and knows how to talk to it.
pub trait Connector {
    /// The exchange that this type stands for.
    spec fn spec_id() -> ExchangeId;

    /// The exchange that this type stands for.
    fn id() -> (id: ExchangeId)
        ensures
            id == Self::spec_id(),
    ;
}

/// Marks that an exchange serves subscriptions of kind `Kind`.
pub trait StreamSelector<Kind: SubKind>: Connector {

}

/// A channel or market name, as the exchange writes it.
pub trait WireName: DeepView<V = Seq<char>> {
    /// The name.
    fn name(&self) -> (name: &str)
        ensures
            name@ == self.deep_view(),
    ;
}

impl<'a> WireName for &'a str {
    fn name(&self) -> (name: &str) {
        *self
    }
}

impl WireName for String {
    fn name(&self) -> (name: &str) {
        self.as_str()
    }
}

/// The text of the identifier made of a channel and a market: the two, with a bar between.
pub open spec fn subscription_id_text(channel: Seq<char>, market: Seq<char>) -> Seq<char> {
    channel + seq!['|'] + market
}

/// A subscription as the exchange sees it: a channel and a market, both in the exchange's
/// own spelling.
#[derive(Copy, Clone, Eq, PartialEq, Ord, PartialOrd, Hash, Debug)]
pub struct ExchangeSub<Channel, Market> {
    pub channel: Channel,
    pub market: Market,
}

impl<Channel: DeepView, Market: DeepView> ExchangeSub<Channel, Market> {
    /// The channel and market that `subscription` is spelled with on its exchange.
    pub fn new<Exchange, Kind>(subscription: &Subscription<Exchange, Kind>) -> (sub: Self)
        where
            Subscription<Exchange, Kind>: Identifier<Channel> + Identifier<Market>,
        ensures
            sub.channel.deep_view() == <Subscription<Exchange, Kind> as Identifier<
                Channel,
            >>::spec_id(subscription),
            sub.market.deep_view() == <Subscription<Exchange, Kind> as Identifier<
                Market,
            >>::spec_id(subscription),
    {
        ExchangeSub {
            channel: <Subscription<Exchange, Kind> as Identifier<Channel>>::id(subscription),
            market: <Subscription<Exchange, Kind> as Identifier<Market>>::id(subscription),
        }
    }
}

impl<Channel: WireName, Market: WireName> Identifier<SubscriptionId> for ExchangeSub<
    Channel,
    Market,
> {
    open spec fn spec_id(&self) -> Seq<char> {
        subscription_id_text(self.channel.deep_view(), self.market.deep_view())
    }

    fn id(&self) -> (id: SubscriptionId) {
        let mut text = self.channel.name().to_owned();
        proof {
            reveal_strlit("|");
            assert("|"@ =~= seq!['|']);
        }
        text.append("|");
        text.append(self.market.name());
        SubscriptionId(text)
    }
}

} // verus!

//! The channels that Binance streams market data on.

use crate::exchange::binance::futures::BinanceFuturesUsd;
use crate::exchange::binance::Binance;
use crate::exchange::WireName;
use crate::subscription::book::{OrderBooksL1, OrderBooksL2};
use crate::subscription::candle::Candles;
use crate::subscription::liquidation::Liquidations;
use crate::subscription::trade::PublicTrades;
use crate::subscription::{Interval, Subscription};
use crate::Identifier;
use vstd::prelude::*;

verus! {

/// The name of one of Binance's channels, as stream names end in it.
#[derive(Copy, Clone, Eq, PartialEq, Ord, PartialOrd, Hash, Debug)]
pub struct BinanceChannel(pub &'static str);

impl View for BinanceChannel {
    type V = Seq<char>;

    open spec fn view(&self) -> Seq<char> {
        self.0@
    }
}

impl DeepView for BinanceChannel {
    type V = Seq<char>;

    open spec fn deep_view(&self) -> Seq<char> {
        self@
    }
}

impl WireName for BinanceChannel {
    fn name(&self) -> (name: &str) {
        self.0
    }
}

impl BinanceChannel {
    /// The name of the candle channel of `interval`: the prefix of all candle channels,
    /// then the spelling of the interval.
    pub open spec fn candles_name(interval: Interval) -> Seq<char> {
        "@kline_"@ + interval.token()
    }

    /// Trades as they happen.
    pub fn trades() -> (channel: BinanceChannel)
        ensures
            channel@ == "@trade"@,
    {
        BinanceChannel("@trade")
    }

    /// The best bid and ask as they change.
    pub fn order_book_l1() -> (channel: BinanceChannel)
        ensures
            channel@ == "@bookTicker"@,
    {
        BinanceChannel("@bookTicker")
    }

    /// The changes of the book's price levels, every 100 milliseconds.
    pub fn order_book_l2() -> (channel: BinanceChannel)
        ensures
            channel@ == "@depth@100ms"@,
    {
        BinanceChannel("@depth@100ms")
    }

    /// Forced liquidations as they happen; served by the futures server only.
    pub fn liquidations() -> (channel: BinanceChannel)
        ensures
            channel@ == "@forceOrder"@,
    {
        BinanceChannel("@forceOrder")
    }

    /// What every candle channel's name starts with; the interval's spelling follows.
    pub fn candles_prefix() -> (channel: BinanceChannel)
        ensures
            channel@ == "@kline_"@,
    {
        BinanceChannel("@kline_")
    }

    /// The candles of `interval`.
    pub fn candles(interval: Interval) -> (channel: BinanceChannel)
        ensures
            channel@ == Self::candles_name(interval),
    {
        proof {
            lemma_candle_channels(interval);
        }
        match interval {
            Interval::Minute1 => BinanceChannel("@kline_1m"),
            Interval::Minute3 => BinanceChannel("@kline_3m"),
            Interval::Minute5 => BinanceChannel("@kline_5m"),
            Interval::Minute15 => BinanceChannel("@kline_15m"),
            Interval::Minute30 => BinanceChannel("@kline_30m"),
            Interval::Hour1 => BinanceChannel("@kline_1h"),
            Interval::Hour2 => BinanceChannel("@kline_2h"),
            Interval::Hour4 => BinanceChannel("@kline_4h"),
            Interval::Hour6 => BinanceChannel("@kline_6h"),
            Interval::Hour8 => BinanceChannel("@kline_8h"),
            Interval::Hour12 => BinanceChannel("@kline_12h"),
            Interval::Day1 => BinanceChannel("@kline_1d"),
            Interval::Day3 => BinanceChannel("@kline_3d"),
            Interval::Week1 => BinanceChannel("@kline_1w"),
            Interval::Month1 => BinanceChannel("@kline_1M"),
            Interval::Month3 => BinanceChannel("@kline_3M"),
        }
    }
}

impl<Server> Identifier<BinanceChannel> for Subscription<Binance<Server>, PublicTrades> {
    open spec fn spec_id(&self) -> Seq<char> {
        "@trade"@
    }

    fn id(&self) -> (id: BinanceChannel) {
        BinanceChannel::trades()
    }
}

impl<Server> Identifier<BinanceChannel> for Subscription<Binance<Server>, Candles> {
    open spec fn spec_id(&self) -> Seq<char> {
        BinanceChannel::candles_name(self.kind.0)
    }

    fn id(&self) -> (id: BinanceChannel) {
        BinanceChannel::candles(self.kind.0)
    }
}

impl<Server> Identifier<BinanceChannel> for Subscription<Binance<Server>, OrderBooksL1> {
    open spec fn spec_id(&self) -> Seq<char> {
        "@bookTicker"@
    }

    fn id(&self) -> (id: BinanceChannel) {
        BinanceChannel::order_book_l1()
    }
}

impl<Server> Identifier<BinanceChannel> for Subscription<Binance<Server>, OrderBooksL2> {
    open spec fn spec_id(&self) -> Seq<char> {
        "@depth@100ms"@
    }

    fn id(&self) -> (id: BinanceChannel) {
        BinanceChannel::order_book_l2()
    }
}

impl Identifier<BinanceChannel> for Subscription<BinanceFuturesUsd, Liquidations> {
    open spec fn spec_id(&self) -> Seq<char> {
        "@forceOrder"@
    }

    fn id(&self) -> (id: BinanceChannel) {
        BinanceChannel::liquidations()
    }
}

/// The name that Binance gives the candle channel of each interval is the prefix and the
/// spelling of the interval.
proof fn lemma_candle_channels(interval: Interval)
    ensures
        BinanceChannel::candles_name(interval) == match interval {
            Interval::Minute1 => "@kline_1m"@,
            Interval::Minute3 => "@kline_3m"@,
            Interval::Minute5 => "@kline_5m"@,
            Interval::Minute15 => "@kline_15m"@,
            Interval::Minute30 => "@kline_30m"@,
            Interval::Hour1 => "@kline_1h"@,
            Interval::Hour2 => "@kline_2h"@,
            Interval::Hour4 => "@kline_4h"@,
            Interval::Hour6 => "@kline_6h"@,
            Interval::Hour8 => "@kline_8h"@,
            Interval::Hour12 => "@kline_12h"@,
            Interval::Day1 => "@kline_1d"@,
            Interval::Day3 => "@kline_3d"@,
            Interval::Week1 => "@kline_1w"@,
            Interval::Month1 => "@kline_1M"@,
            Interval::Month3 => "@kline_3M"@,
        },
{
    reveal_strlit("@kline_");
    match interval {
        Interval::Minute1 => {
            reveal_strlit("@kline_1m");
            reveal_strlit("1m");
            assert("@kline_1m"@ =~= "@kline_"@ + "1m"@);
        },
        Interval::Minute3 => {
            reveal_strlit("@kline_3m");
            reveal_strlit("3m");
            assert("@kline_3m"@ =~= "@kline_"@ + "3m"@);
        },
        Interval::Minute5 => {
            reveal_strlit("@kline_5m");
            reveal_strlit("5m");
            assert("@kline_5m"@ =~= "@kline_"@ + "5m"@);
        },
        Interval::Minute15 => {
            reveal_strlit("@kline_15m");
            reveal_strlit("15m");
            assert("@kline_15m"@ =~= "@kline_"@ + "15m"@);
        },
        Interval::Minute30 => {
            reveal_strlit("@kline_30m");
            reveal_strlit("30m");
            assert("@kline_30m"@ =~= "@kline_"@ + "30m"@);
        },
        Interval::Hour1 => {
            reveal_strlit("@kline_1h");
            reveal_strlit("1h");
            assert("@kline_1h"@ =~= "@kline_"@ + "1h"@);
        },
        Interval::Hour2 => {
            reveal_strlit("@kline_2h");
            reveal_strlit("2h");
            assert("@kline_2h"@ =~= "@kline_"@ + "2h"@);
        },
        Interval::Hour4 => {
            reveal_strlit("@kline_4h");
            reveal_strlit("4h");
            assert("@kline_4h"@ =~= "@kline_"@ + "4h"@);
        },
        Interval::Hour6 => {
            reveal_strlit("@kline_6h");
            reveal_strlit("6h");
            assert("@kline_6h"@ =~= "@kline_"@ + "6h"@);
        },
        Interval::Hour8 => {
            reveal_strlit("@kline_8h");
            reveal_strlit("8h");
            assert("@kline_8h"@ =~= "@kline_"@ + "8h"@);
        },
        Interval::Hour12 => {
            reveal_strlit("@kline_12h");
            reveal_strlit("12h");
            assert("@kline_12h"@ =~= "@kline_"@ + "12h"@);
        },
        Interval::Day1 => {
            reveal_strlit("@kline_1d");
            reveal_strlit("1d");
            assert("@kline_1d"@ =~= "@kline_"@ + "1d"@);
        },
        Interval::Day3 => {
            reveal_strlit("@kline_3d");
            reveal_strlit("3d");
            assert("@kline_3d"@ =~= "@kline_"@ + "3d"@);
        },
        Interval::Week1 => {
            reveal_strlit("@kline_1w");
            reveal_strlit("1w");
            assert("@kline_1w"@ =~= "@kline_"@ + "1w"@);
        },
        Interval::Month1 => {
            reveal_strlit("@kline_1M");
            reveal_strlit("1M");
            assert("@kline_1M"@ =~= "@kline_"@ + "1M"@);
        },
        Interval::Month3 => {
            reveal_strlit("@kline_3M");
            reveal_strlit("3M");
            assert("@kline_3M"@ =~= "@kline_"@ + "3M"@);
        },
    }
}

/// Binance names the candle channels of two intervals alike only if the two are one
/// interval: the mapping from intervals to channels loses nothing.
pub proof fn lemma_candles_name_distinct(a: Interval, b: Interval)
    ensures
        BinanceChannel::candles_name(a) == BinanceChannel::candles_name(b) <==> a == b,
{
    crate::subscription::lemma_token_distinct(a, b);
    let prefix = "@kline_"@;
    if prefix + a.token() == prefix + b.token() {
        assert(a.token() =~= (prefix + a.token()).subrange(
            prefix.len() as int,
            (prefix + a.token()).len() as int,
        ));
        assert(b.token() =~= (prefix + b.token()).subrange(
            prefix.len() as int,
            (prefix + b.token()).len() as int,
        ));
    }
}

} // verus!

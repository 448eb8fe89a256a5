use barter_data::error::SocketError;
use barter_data::exchange::binance::channel::BinanceChannel;
use barter_data::exchange::binance::futures::{BinanceFuturesUsd, BinanceServerFuturesUsd};
use barter_data::exchange::binance::market::BinanceMarket;
use barter_data::exchange::binance::spot::{BinanceServerSpot, BinanceSpot};
use barter_data::exchange::binance::subscription::BinanceRequest;
use barter_data::exchange::binance::ExchangeServer;
use barter_data::exchange::{Connector, ExchangeId, ExchangeSub, WireName};
use barter_data::model::{Instrument, InstrumentKind, SubscriptionId, Symbol};
use barter_data::subscription::book::{OrderBooksL1, OrderBooksL2};
use barter_data::subscription::candle::Candles;
use barter_data::subscription::liquidation::Liquidations;
use barter_data::subscription::trade::PublicTrades;
use barter_data::subscription::{map_subscriptions, Interval, Subscription};
use barter_data::Identifier;

const INTERVALS: [Interval; 16] = [
    Interval::Minute1,
    Interval::Minute3,
    Interval::Minute5,
    Interval::Minute15,
    Interval::Minute30,
    Interval::Hour1,
    Interval::Hour2,
    Interval::Hour4,
    Interval::Hour6,
    Interval::Hour8,
    Interval::Hour12,
    Interval::Day1,
    Interval::Day3,
    Interval::Week1,
    Interval::Month1,
    Interval::Month3,
];

#[test]
fn every_interval_has_a_spelling_of_its_own() {
    let expected = [
        "1m", "3m", "5m", "15m", "30m", "1h", "2h", "4h", "6h", "8h", "12h", "1d", "3d", "1w",
        "1M", "3M",
    ];
    for (interval, token) in INTERVALS.iter().zip(expected) {
        assert_eq!(interval.as_str(), token);
        assert_eq!(interval.to_string(), token.to_string());
        assert_eq!(Interval::from_token(token), Some(*interval));
    }
    for (i, first) in INTERVALS.iter().enumerate() {
        for (j, second) in INTERVALS.iter().enumerate() {
            assert_eq!(first.as_str() == second.as_str(), i == j);
        }
    }
}

#[test]
fn what_spells_no_interval() {
    for token in ["", "m", "1", "1s", "2m", "1m ", " 1m", "1mm", "10m", "15M", "12H", "1W", "7d", "💡m"] {
        assert_eq!(Interval::from_token(token), None, "{token:?}");
    }
}

#[test]
fn every_interval_has_a_candle_channel_of_its_own() {
    let expected = [
        "@kline_1m",
        "@kline_3m",
        "@kline_5m",
        "@kline_15m",
        "@kline_30m",
        "@kline_1h",
        "@kline_2h",
        "@kline_4h",
        "@kline_6h",
        "@kline_8h",
        "@kline_12h",
        "@kline_1d",
        "@kline_3d",
        "@kline_1w",
        "@kline_1M",
        "@kline_3M",
    ];
    for (interval, channel) in INTERVALS.iter().zip(expected) {
        assert_eq!(BinanceChannel::candles(*interval), BinanceChannel(channel));
        assert_eq!(
            BinanceChannel::candles(*interval).0,
            format!("{}{}", BinanceChannel::candles_prefix().0, interval.as_str())
        );
        let spot = Subscription::from((
            BinanceSpot::default(),
            "btc",
            "usdt",
            InstrumentKind::Spot,
            Candles(*interval),
        ));
        let channel_of_spot: BinanceChannel = spot.id();
        assert_eq!(channel_of_spot, BinanceChannel(channel));
        let futures = Subscription::from((
            BinanceFuturesUsd::default(),
            "btc",
            "usdt",
            InstrumentKind::FuturePerpetual,
            Candles(*interval),
        ));
        let channel_of_futures: BinanceChannel = futures.id();
        assert_eq!(channel_of_futures, BinanceChannel(channel));
    }
    for (i, first) in INTERVALS.iter().enumerate() {
        for (j, second) in INTERVALS.iter().enumerate() {
            assert_eq!(
                BinanceChannel::candles(*first) == BinanceChannel::candles(*second),
                i == j
            );
        }
    }
}

#[test]
fn the_channel_of_each_kind() {
    assert_eq!(BinanceChannel::trades(), BinanceChannel("@trade"));
    assert_eq!(BinanceChannel::order_book_l1(), BinanceChannel("@bookTicker"));
    assert_eq!(BinanceChannel::order_book_l2(), BinanceChannel("@depth@100ms"));
    assert_eq!(BinanceChannel::liquidations(), BinanceChannel("@forceOrder"));
    assert_eq!(BinanceChannel::candles_prefix(), BinanceChannel("@kline_"));
    assert_eq!(BinanceChannel::trades().name(), "@trade");

    let trades: BinanceChannel = Subscription::from((
        BinanceSpot::default(),
        "btc",
        "usdt",
        InstrumentKind::Spot,
        PublicTrades,
    ))
    .id();
    assert_eq!(trades, BinanceChannel("@trade"));
    let l1: BinanceChannel = Subscription::from((
        BinanceSpot::default(),
        "btc",
        "usdt",
        InstrumentKind::Spot,
        OrderBooksL1,
    ))
    .id();
    assert_eq!(l1, BinanceChannel("@bookTicker"));
    let l2: BinanceChannel = Subscription::from((
        BinanceFuturesUsd::default(),
        "btc",
        "usdt",
        InstrumentKind::FuturePerpetual,
        OrderBooksL2,
    ))
    .id();
    assert_eq!(l2, BinanceChannel("@depth@100ms"));
    let liquidations: BinanceChannel = Subscription::from((
        BinanceFuturesUsd::default(),
        "btc",
        "usdt",
        InstrumentKind::FuturePerpetual,
        Liquidations,
    ))
    .id();
    assert_eq!(liquidations, BinanceChannel("@forceOrder"));
}

#[test]
fn symbols_are_kept_in_lower_case() {
    assert_eq!(Symbol::new("BTC").as_str(), "btc");
    assert_eq!(Symbol::new("usdt").as_str(), "usdt");
    assert_eq!(Symbol::from("Eth").as_str(), "eth");
    assert_eq!(Symbol::from("ÄB".to_string()).as_str(), "äb");
    assert_eq!(Symbol::new("BTC"), Symbol::new("btc"));
    let instrument = Instrument::new("BTC", "USDT", InstrumentKind::Spot);
    assert_eq!(instrument.base.as_str(), "btc");
    assert_eq!(instrument.quote.as_str(), "usdt");
    assert_eq!(instrument, Instrument::from(("btc", "usdt", InstrumentKind::Spot)));
    assert_eq!(instrument.clone(), instrument);
}

#[test]
fn instrument_kinds_have_names() {
    assert_eq!(InstrumentKind::Spot.to_string(), "spot");
    assert_eq!(InstrumentKind::FuturePerpetual.to_string(), "future_perpetual");
    assert_eq!(InstrumentKind::default(), InstrumentKind::Spot);
}

#[test]
fn binance_spells_markets_in_upper_case() {
    let subscription = Subscription::from((
        BinanceSpot::default(),
        "btc",
        "usdt",
        InstrumentKind::Spot,
        PublicTrades,
    ));
    let market: BinanceMarket = subscription.id();
    assert_eq!(market, BinanceMarket("BTCUSDT".to_string()));
    assert_eq!(market.name(), "BTCUSDT");
    assert_eq!(market.clone(), market);
}

#[test]
fn binance_servers() {
    assert_eq!(BinanceServerSpot::id(), ExchangeId::BinanceSpot);
    assert_eq!(BinanceServerFuturesUsd::id(), ExchangeId::BinanceFuturesUsd);
    assert_eq!(BinanceSpot::id(), BinanceServerSpot::id());
    assert_eq!(BinanceFuturesUsd::id(), BinanceServerFuturesUsd::id());
    assert_eq!(BinanceServerSpot::default(), BinanceServerSpot);
}

#[test]
fn one_request_names_every_stream() {
    let subscriptions = vec![
        Subscription::from((
            BinanceSpot::default(),
            "btc",
            "usdt",
            InstrumentKind::Spot,
            Candles(Interval::Minute1),
        )),
        Subscription::from((
            BinanceSpot::default(),
            "ETH",
            "usdt",
            InstrumentKind::Spot,
            Candles(Interval::Hour12),
        )),
    ];
    let meta = BinanceSpot::subscribe(&subscriptions).unwrap();
    assert_eq!(
        meta.subscriptions,
        vec![BinanceRequest {
            method: "SUBSCRIBE",
            params: vec!["btcusdt@kline_1m".to_string(), "ethusdt@kline_12h".to_string()],
            id: 1,
        }]
    );
    assert_eq!(
        meta.instrument_map.find(&SubscriptionId::from("@kline_1m|BTCUSDT")),
        Ok(Instrument::new("btc", "usdt", InstrumentKind::Spot))
    );
    assert_eq!(
        meta.instrument_map.find(&SubscriptionId::from("@kline_12h|ETHUSDT")),
        Ok(Instrument::new("eth", "usdt", InstrumentKind::Spot))
    );
    assert_eq!(
        meta.instrument_map.find(&SubscriptionId::from("@kline_1m|ETHUSDT")),
        Err(SocketError::Unidentifiable(SubscriptionId::from("@kline_1m|ETHUSDT")))
    );
}

#[test]
fn requests_for_given_streams() {
    let exchange_subs = vec![
        ExchangeSub {
            channel: BinanceChannel::trades(),
            market: BinanceMarket("BTCUSDT".to_string()),
        },
        ExchangeSub {
            channel: BinanceChannel::order_book_l2(),
            market: BinanceMarket("ETHBTC".to_string()),
        },
    ];
    assert_eq!(
        BinanceFuturesUsd::requests(&exchange_subs),
        vec![BinanceRequest {
            method: "SUBSCRIBE",
            params: vec!["btcusdt@trade".to_string(), "ethbtc@depth@100ms".to_string()],
            id: 1,
        }]
    );
    assert_eq!(
        BinanceSpot::requests(&Vec::new()),
        vec![BinanceRequest { method: "SUBSCRIBE", params: Vec::new(), id: 1 }]
    );
}

#[test]
fn a_batch_with_a_subscription_that_is_not_served_is_refused() {
    let subscriptions = vec![
        Subscription::from((
            BinanceSpot::default(),
            "btc",
            "usdt",
            InstrumentKind::Spot,
            PublicTrades,
        )),
        Subscription::from((
            BinanceSpot::default(),
            "eth",
            "usdt",
            InstrumentKind::FuturePerpetual,
            PublicTrades,
        )),
    ];
    assert_eq!(
        BinanceSpot::subscribe(&subscriptions).err(),
        Some(SocketError::Unsupported {
            entity: "binance_spot",
            item: "future_perpetual".to_string(),
        })
    );
}

#[test]
fn a_batch_with_two_subscriptions_of_one_identifier_is_refused() {
    let subscriptions = vec![
        Subscription::from((
            BinanceSpot::default(),
            "btc",
            "usdt",
            InstrumentKind::Spot,
            PublicTrades,
        )),
        Subscription::from((
            BinanceSpot::default(),
            "eth",
            "usdt",
            InstrumentKind::Spot,
            PublicTrades,
        )),
        Subscription::from((
            BinanceSpot::default(),
            "BTC",
            "USDT",
            InstrumentKind::Spot,
            PublicTrades,
        )),
    ];
    assert_eq!(
        BinanceSpot::subscribe(&subscriptions).err(),
        Some(SocketError::Subscribe(
            "more than one subscription for @trade|BTCUSDT".to_string()
        ))
    );
    let mapped = map_subscriptions::<BinanceSpot, PublicTrades, BinanceChannel, BinanceMarket>(
        &subscriptions,
    );
    assert_eq!(
        mapped.err(),
        Some(SocketError::Subscribe(
            "more than one subscription for @trade|BTCUSDT".to_string()
        ))
    );

    let (instruments, exchange_subs) = map_subscriptions::<
        BinanceSpot,
        PublicTrades,
        BinanceChannel,
        BinanceMarket,
    >(&subscriptions[..2].to_vec())
    .unwrap();
    assert_eq!(
        exchange_subs,
        vec![
            ExchangeSub {
                channel: BinanceChannel("@trade"),
                market: BinanceMarket("BTCUSDT".to_string()),
            },
            ExchangeSub {
                channel: BinanceChannel("@trade"),
                market: BinanceMarket("ETHUSDT".to_string()),
            },
        ]
    );
    assert_eq!(
        instruments.find(&SubscriptionId::from("@trade|ETHUSDT")),
        Ok(Instrument::new("eth", "usdt", InstrumentKind::Spot))
    );
}

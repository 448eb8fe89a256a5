use barter_data::error::SocketError;
use barter_data::event::MarketEvent;
use barter_data::exchange::binance::spot::candles::{BinanceCandle, BinanceCandleInner};
use barter_data::exchange::binance::spot::BinanceSpot;
use barter_data::exchange::okx::Okx;
use barter_data::exchange::ExchangeId;
use barter_data::model::{Instrument, InstrumentKind, SubscriptionId};
use barter_data::streams::connection::{
    Connection, ConnectionAction, ConnectionEvent, ConnectionState, ReconnectPolicy,
};
use barter_data::streams::merge::{MergeBuffer, Offered, Taken};
use barter_data::streams::Streams;
use barter_data::subscription::candle::Candle;
use barter_data::subscription::map::SubscriptionMap;
use barter_data::transformer::StatelessTransformer;

const POLICY: ReconnectPolicy = ReconnectPolicy {
    max_retries: 3,
    initial_backoff_ms: 125,
    max_backoff_ms: 400,
};

#[test]
fn a_connection_that_runs_without_trouble() {
    let mut connection = Connection::new(POLICY);
    assert_eq!(connection.state(), ConnectionState::Building);
    assert_eq!(connection.policy(), POLICY);
    assert_eq!(connection.step(ConnectionEvent::Validated), ConnectionAction::Connect);
    assert_eq!(connection.state(), ConnectionState::Connecting { retry: 0 });
    assert_eq!(connection.step(ConnectionEvent::Connected), ConnectionAction::Receive);
    assert_eq!(connection.state(), ConnectionState::Streaming);
    assert_eq!(connection.step(ConnectionEvent::Message), ConnectionAction::Forward);
    assert_eq!(connection.step(ConnectionEvent::MessageFailed), ConnectionAction::Skip);
    assert_eq!(connection.step(ConnectionEvent::Message), ConnectionAction::Forward);
    assert_eq!(connection.state(), ConnectionState::Streaming);
    assert_eq!(connection.step(ConnectionEvent::ConsumerGone), ConnectionAction::Release);
    assert_eq!(connection.state(), ConnectionState::Closed);
    assert_eq!(connection.step(ConnectionEvent::Message), ConnectionAction::Ignore);
    assert_eq!(connection.step(ConnectionEvent::Validated), ConnectionAction::Ignore);
    assert_eq!(connection.state(), ConnectionState::Closed);
}

#[test]
fn a_refused_batch_opens_no_transport() {
    let mut connection = Connection::new(POLICY);
    assert_eq!(connection.step(ConnectionEvent::Connected), ConnectionAction::Ignore);
    assert_eq!(connection.step(ConnectionEvent::Message), ConnectionAction::Ignore);
    assert_eq!(connection.state(), ConnectionState::Building);
    assert_eq!(connection.step(ConnectionEvent::Refused), ConnectionAction::Fail);
    assert_eq!(connection.state(), ConnectionState::Closed);
    assert_eq!(connection.step(ConnectionEvent::Validated), ConnectionAction::Ignore);
    assert_eq!(connection.state(), ConnectionState::Closed);
}

#[test]
fn a_lost_connection_is_tried_again_as_often_as_the_policy_allows() {
    let mut connection = Connection::new(POLICY);
    connection.step(ConnectionEvent::Validated);
    connection.step(ConnectionEvent::Connected);
    assert_eq!(
        connection.step(ConnectionEvent::Disconnected { recoverable: true }),
        ConnectionAction::Backoff { millis: 125 }
    );
    assert_eq!(connection.state(), ConnectionState::Reconnecting { retry: 1 });
    assert_eq!(connection.step(ConnectionEvent::Message), ConnectionAction::Ignore);
    assert_eq!(connection.step(ConnectionEvent::BackoffElapsed), ConnectionAction::Connect);
    assert_eq!(connection.state(), ConnectionState::Connecting { retry: 1 });
    assert_eq!(
        connection.step(ConnectionEvent::ConnectFailed),
        ConnectionAction::Backoff { millis: 250 }
    );
    assert_eq!(connection.state(), ConnectionState::Reconnecting { retry: 2 });
    assert_eq!(connection.step(ConnectionEvent::BackoffElapsed), ConnectionAction::Connect);
    assert_eq!(
        connection.step(ConnectionEvent::ConnectFailed),
        ConnectionAction::Backoff { millis: 400 }
    );
    assert_eq!(connection.state(), ConnectionState::Reconnecting { retry: 3 });
    assert_eq!(connection.step(ConnectionEvent::BackoffElapsed), ConnectionAction::Connect);
    assert_eq!(connection.state(), ConnectionState::Connecting { retry: 3 });
    assert_eq!(connection.step(ConnectionEvent::ConnectFailed), ConnectionAction::Fail);
    assert_eq!(connection.state(), ConnectionState::Closed);
}

#[test]
fn a_connection_that_comes_back_counts_its_tries_anew() {
    let mut connection = Connection::new(POLICY);
    connection.step(ConnectionEvent::Validated);
    connection.step(ConnectionEvent::Connected);
    connection.step(ConnectionEvent::Disconnected { recoverable: true });
    connection.step(ConnectionEvent::BackoffElapsed);
    connection.step(ConnectionEvent::ConnectFailed);
    connection.step(ConnectionEvent::BackoffElapsed);
    assert_eq!(connection.state(), ConnectionState::Connecting { retry: 2 });
    assert_eq!(connection.step(ConnectionEvent::Connected), ConnectionAction::Receive);
    assert_eq!(connection.state(), ConnectionState::Streaming);
    assert_eq!(
        connection.step(ConnectionEvent::Disconnected { recoverable: true }),
        ConnectionAction::Backoff { millis: 125 }
    );
    assert_eq!(connection.state(), ConnectionState::Reconnecting { retry: 1 });
}

#[test]
fn a_connection_is_not_tried_again_where_that_cannot_help() {
    let mut connection = Connection::new(POLICY);
    connection.step(ConnectionEvent::Validated);
    connection.step(ConnectionEvent::Connected);
    assert_eq!(
        connection.step(ConnectionEvent::Disconnected { recoverable: false }),
        ConnectionAction::Fail
    );
    assert_eq!(connection.state(), ConnectionState::Closed);

    let never = ReconnectPolicy { max_retries: 0, initial_backoff_ms: 125, max_backoff_ms: 400 };
    let mut connection = Connection::new(never);
    connection.step(ConnectionEvent::Validated);
    connection.step(ConnectionEvent::Connected);
    assert_eq!(
        connection.step(ConnectionEvent::Disconnected { recoverable: true }),
        ConnectionAction::Fail
    );
    assert_eq!(connection.state(), ConnectionState::Closed);

    let mut connection = Connection::new(never);
    connection.step(ConnectionEvent::Validated);
    assert_eq!(connection.step(ConnectionEvent::ConnectFailed), ConnectionAction::Fail);
    assert_eq!(connection.state(), ConnectionState::Closed);
}

#[test]
fn waits_double_up_to_the_longest() {
    assert_eq!(POLICY.backoff(0), 125);
    assert_eq!(POLICY.backoff(1), 125);
    assert_eq!(POLICY.backoff(2), 250);
    assert_eq!(POLICY.backoff(3), 400);
    assert_eq!(POLICY.backoff(4), 400);
    assert_eq!(POLICY.backoff(u32::MAX >> 12), 400);

    let short = ReconnectPolicy { max_retries: 9, initial_backoff_ms: 500, max_backoff_ms: 100 };
    assert_eq!(short.backoff(1), 100);
    assert_eq!(short.backoff(5), 100);

    let long = ReconnectPolicy {
        max_retries: 9,
        initial_backoff_ms: 1,
        max_backoff_ms: u64::MAX,
    };
    assert_eq!(long.backoff(1), 1);
    assert_eq!(long.backoff(11), 1024);
    assert_eq!(long.backoff(64), 1 << 63);
    assert_eq!(long.backoff(65), u64::MAX);
    assert_eq!(long.backoff(66), u64::MAX);

    let none = ReconnectPolicy { max_retries: 9, initial_backoff_ms: 0, max_backoff_ms: 100 };
    assert_eq!(none.backoff(7), 0);
}

#[test]
fn a_full_buffer_holds_the_producer_back() {
    let mut buffer: MergeBuffer<u64> = MergeBuffer::new(2, 1);
    assert_eq!(buffer.take(), Taken::Empty);
    assert_eq!(buffer.offer(1), Offered::Accepted);
    assert_eq!(buffer.offer(2), Offered::Accepted);
    assert_eq!(buffer.offer(3), Offered::Full(3));
    assert_eq!(buffer.len(), 2);
    assert_eq!(buffer.take(), Taken::Item(1));
    assert_eq!(buffer.offer(3), Offered::Accepted);
    assert_eq!(buffer.take(), Taken::Item(2));
    assert_eq!(buffer.take(), Taken::Item(3));
    assert_eq!(buffer.take(), Taken::Empty);
    buffer.producer_done();
    assert_eq!(buffer.take(), Taken::Finished);
    buffer.producer_done();
    assert_eq!(buffer.take(), Taken::Finished);
}

#[test]
fn what_is_in_the_buffer_outlives_its_producer() {
    let mut buffer: MergeBuffer<u64> = MergeBuffer::new(4, 2);
    assert_eq!(buffer.offer(1), Offered::Accepted);
    buffer.producer_done();
    assert_eq!(buffer.offer(2), Offered::Accepted);
    buffer.producer_done();
    assert_eq!(buffer.take(), Taken::Item(1));
    assert_eq!(buffer.take(), Taken::Item(2));
    assert_eq!(buffer.take(), Taken::Finished);
}

#[test]
fn a_buffer_without_a_consumer_takes_nothing() {
    let mut buffer: MergeBuffer<u64> = MergeBuffer::new(2, 1);
    assert_eq!(buffer.offer(1), Offered::Accepted);
    buffer.consumer_done();
    assert_eq!(buffer.len(), 0);
    assert_eq!(buffer.offer(2), Offered::Closed(2));
    assert_eq!(buffer.len(), 0);

    let mut buffer: MergeBuffer<u64> = MergeBuffer::new(0, 1);
    assert_eq!(buffer.offer(1), Offered::Full(1));
}

#[test]
fn a_stream_is_selected_once() {
    let mut streams: Streams<&'static str> = Streams::new();
    assert_eq!(streams.insert(ExchangeId::BinanceSpot, "spot"), None);
    assert_eq!(streams.insert(ExchangeId::Okx, "okx"), None);
    assert_eq!(streams.insert(ExchangeId::Okx, "okx again"), Some("okx"));
    assert!(streams.contains(ExchangeId::BinanceSpot));
    assert!(!streams.contains(ExchangeId::Coinbase));
    assert_eq!(streams.select(ExchangeId::BinanceSpot), Some("spot"));
    assert_eq!(streams.select(ExchangeId::BinanceSpot), None);
    assert_eq!(streams.select(ExchangeId::Coinbase), None);
    assert!(!streams.contains(ExchangeId::BinanceSpot));
    assert_eq!(streams.join(), vec![(ExchangeId::Okx, "okx again")]);
}

#[test]
fn joining_hands_out_every_stream_that_is_left() {
    let mut streams: Streams<u8> = Streams::new();
    streams.insert(ExchangeId::Okx, 5);
    streams.insert(ExchangeId::Coinbase, 3);
    streams.insert(ExchangeId::BinanceFuturesUsd, 1);
    streams.insert(ExchangeId::GateioFuturesUsd, 4);
    streams.insert(ExchangeId::BinanceSpot, 2);
    assert_eq!(streams.select(ExchangeId::Coinbase), Some(3));
    assert_eq!(
        streams.join(),
        vec![
            (ExchangeId::BinanceFuturesUsd, 1),
            (ExchangeId::BinanceSpot, 2),
            (ExchangeId::GateioFuturesUsd, 4),
            (ExchangeId::Okx, 5),
        ]
    );
    let none: Streams<u8> = Streams::new();
    assert_eq!(none.join(), Vec::new());
}

/// The candle of one minute that closes at `end_ms`, as Binance would send it.
fn candle(end_ms: u64) -> BinanceCandle<f64> {
    BinanceCandle::new(
        "BTCUSDT",
        end_ms,
        BinanceCandleInner::new(end_ms - 60_000, end_ms, "1m".to_string(), 1.0, 2.0, 3.0, 0.5, 10.0, 7),
    )
}

/// The events that a connection to `Exchange` gives for candles that close at `ends`.
fn events_of<Exchange: barter_data::exchange::Connector>(
    ends: &[u64],
) -> Vec<MarketEvent<Candle<f64>>> {
    let mut instruments = SubscriptionMap::new();
    instruments.insert(
        SubscriptionId::from("@kline_1m|BTCUSDT"),
        Instrument::new("btc", "usdt", InstrumentKind::Spot),
    );
    let transformer: StatelessTransformer<Exchange> = StatelessTransformer::new(instruments);
    let mut events = Vec::new();
    for end_ms in ends {
        for event in transformer.transform_candle(candle(*end_ms)) {
            events.push(event.unwrap());
        }
    }
    events
}

#[test]
fn joined_connections_give_every_event_of_each() {
    let mut first = events_of::<BinanceSpot>(&[60_000, 120_000, 180_000]).into_iter();
    let mut second = events_of::<Okx>(&[60_000, 120_000]).into_iter();

    let mut streams: Streams<ExchangeId> = Streams::new();
    streams.insert(ExchangeId::BinanceSpot, ExchangeId::BinanceSpot);
    streams.insert(ExchangeId::Okx, ExchangeId::Okx);
    let joined = streams.join();
    assert_eq!(joined.len(), 2);

    let mut buffer: MergeBuffer<MarketEvent<Candle<f64>>> = MergeBuffer::new(2, joined.len());
    let mut received = Vec::new();
    let mut waiting_first = first.next();
    let mut waiting_second = second.next();
    let mut first_done = false;
    let mut second_done = false;
    loop {
        // The second connection is the quicker one: it offers twice for each offer of the first.
        for _ in 0..2 {
            match waiting_second.take() {
                Some(event) => match buffer.offer(event) {
                    Offered::Accepted => waiting_second = second.next(),
                    Offered::Full(event) => waiting_second = Some(event),
                    Offered::Closed(_) => panic!("the consumer is there"),
                },
                None => {
                    if !second_done {
                        buffer.producer_done();
                        second_done = true;
                    }
                }
            }
        }
        match waiting_first.take() {
            Some(event) => match buffer.offer(event) {
                Offered::Accepted => waiting_first = first.next(),
                Offered::Full(event) => waiting_first = Some(event),
                Offered::Closed(_) => panic!("the consumer is there"),
            },
            None => {
                if !first_done {
                    buffer.producer_done();
                    first_done = true;
                }
            }
        }
        match buffer.take() {
            Taken::Item(event) => received.push(event),
            Taken::Empty => {}
            Taken::Finished => break,
        }
    }

    assert_eq!(received.len(), 5);
    let of_first: Vec<&MarketEvent<Candle<f64>>> = received
        .iter()
        .filter(|event| event.exchange == ExchangeId::BinanceSpot)
        .collect();
    let of_second: Vec<&MarketEvent<Candle<f64>>> = received
        .iter()
        .filter(|event| event.exchange == ExchangeId::Okx)
        .collect();
    assert_eq!(of_first.len(), 3);
    assert_eq!(of_second.len(), 2);
    let ends_of_first: Vec<i64> = of_first.iter().map(|event| event.kind.close_time.secs).collect();
    let ends_of_second: Vec<i64> = of_second.iter().map(|event| event.kind.close_time.secs).collect();
    assert_eq!(ends_of_first, vec![60, 120, 180]);
    assert_eq!(ends_of_second, vec![60, 120]);
}

#[test]
fn an_error_is_an_error_of_one_message() {
    let transformer: StatelessTransformer<BinanceSpot> =
        StatelessTransformer::new(SubscriptionMap::new());
    let events = transformer.transform_candle(candle(60_000));
    assert_eq!(
        events,
        vec![Err(SocketError::Unidentifiable(SubscriptionId::from(
            "@kline_1m|BTCUSDT"
        )))]
    );
    assert_eq!(ConnectionEvent::of_message(&events), ConnectionEvent::MessageFailed);
    let mut connection = Connection::new(POLICY);
    connection.step(ConnectionEvent::Validated);
    connection.step(ConnectionEvent::Connected);
    assert_eq!(
        connection.step(ConnectionEvent::of_message(&events)),
        ConnectionAction::Skip
    );
    assert_eq!(connection.state(), ConnectionState::Streaming);
}

#[test]
fn a_message_fails_if_one_of_its_events_is_an_error() {
    let none: Vec<Result<u8, SocketError>> = Vec::new();
    assert_eq!(ConnectionEvent::of_message(&none), ConnectionEvent::Message);
    let events: Vec<Result<u8, SocketError>> = vec![Ok(1), Ok(2)];
    assert_eq!(ConnectionEvent::of_message(&events), ConnectionEvent::Message);
    let events: Vec<Result<u8, SocketError>> = vec![
        Ok(1),
        Err(SocketError::Unidentifiable(SubscriptionId::from("a|b"))),
        Ok(2),
    ];
    assert_eq!(ConnectionEvent::of_message(&events), ConnectionEvent::MessageFailed);
}

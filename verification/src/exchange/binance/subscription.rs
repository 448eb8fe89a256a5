//! Subscribing on Binance.

use crate::error::{SocketError, SocketErrorView};
use crate::exchange::binance::channel::BinanceChannel;
use crate::exchange::binance::market::BinanceMarket;
use crate::exchange::binance::{Binance, ExchangeServer};
use crate::exchange::{ExchangeSub, StreamSelector};
use crate::subscription::map::{collect, distinct_ids};
use crate::subscription::{
    duplicate_reason, id_pairs, is_first_duplicate, is_first_unsupported, is_supported,
    map_subscriptions, subscription_id_of, validate_all, SubKind, Subscription, SubscriptionMeta,
};
use crate::text::{lowercase, to_lowercase};
use crate::Identifier;
use vstd::prelude::*;
use vstd::string::*;

verus! {

/// A request that asks Binance to start streams on the connection it is sent over.
#[derive(Clone, Eq, PartialEq, Debug)]
pub struct BinanceRequest {
    /// What is asked for: `SUBSCRIBE`.
    pub method: &'static str,
    /// The names of the streams to start.
    pub params: Vec<String>,
    /// The number under which Binance answers the request.
    pub id: u64,
}

/// The name of the stream of `channel` on `market`: the market in lower case, then the
/// channel.
pub open spec fn stream_name(channel: Seq<char>, market: Seq<char>) -> Seq<char> {
    lowercase(market) + channel
}

/// The names of the streams of `exchange_subs`, in their order.
pub open spec fn stream_names(
    exchange_subs: Seq<ExchangeSub<BinanceChannel, BinanceMarket>>,
) -> Seq<Seq<char>> {
    Seq::new(
        exchange_subs.len(),
        |i: int| stream_name(exchange_subs[i].channel@, exchange_subs[i].market@),
    )
}

impl<Server: ExchangeServer> Binance<Server> {
    /// The requests that subscribe to `exchange_subs`: one request that names every stream.
    pub fn requests(exchange_subs: &Vec<ExchangeSub<BinanceChannel, BinanceMarket>>) -> (requests:
        Vec<BinanceRequest>)
        ensures
            requests@.len() == 1,
            requests@[0].method@ == "SUBSCRIBE"@,
            requests@[0].params.deep_view() == stream_names(exchange_subs@),
            requests@[0].id == 1,
    {
        let mut params: Vec<String> = Vec::new();
        let mut i: usize = 0;
        while i < exchange_subs.len()
            invariant
                i <= exchange_subs.len(),
                params.deep_view() == stream_names(exchange_subs@.take(i as int)),
            decreases exchange_subs.len() - i,
        {
            let mut name = to_lowercase(exchange_subs[i].market.0.as_str());
            name.append(exchange_subs[i].channel.0);
            let ghost before = params.deep_view();
            params.push(name);
            proof {
                assert(params.deep_view() =~= before.push(name@));
                assert(stream_names(exchange_subs@.take(i as int + 1)) =~= stream_names(
                    exchange_subs@.take(i as int),
                ).push(name@));
            }
            i += 1;
        }
        assert(exchange_subs@.take(exchange_subs@.len() as int) =~= exchange_subs@);
        let mut requests = Vec::new();
        requests.push(BinanceRequest { method: "SUBSCRIBE", params, id: 1 });
        requests
    }

    /// The names of the streams that `subscriptions` ask for, in their order.
    pub open spec fn spec_stream_names<Kind>(
        subscriptions: Seq<Subscription<Binance<Server>, Kind>>,
    ) -> Seq<Seq<char>> where Subscription<Binance<Server>, Kind>: Identifier<BinanceChannel> {
        Seq::new(
            subscriptions.len(),
            |i: int|
                stream_name(
                    <Subscription<Binance<Server>, Kind> as Identifier<BinanceChannel>>::spec_id(
                        &subscriptions[i],
                    ),
                    <Subscription<Binance<Server>, Kind> as Identifier<BinanceMarket>>::spec_id(
                        &subscriptions[i],
                    ),
                ),
        )
    }

    /// Prepares a connection for a batch of subscriptions: checks the batch, builds the
    /// table that leads from each identifier back to its instrument, and writes the
    /// request that subscribes to every stream.
    ///
    /// The batch is taken as a whole or not at all. It is refused with the error of its
    /// first subscription that Binance cannot serve on this server; if there is none, with
    /// the error of its first subscription that has the identifier of an earlier one.
    pub fn subscribe<Kind>(subscriptions: &Vec<Subscription<Binance<Server>, Kind>>) -> (result:
        Result<SubscriptionMeta<BinanceRequest>, SocketError>)
        where
            Binance<Server>: StreamSelector<Kind>,
            Kind: SubKind,
            Subscription<Binance<Server>, Kind>: Identifier<BinanceChannel>,
        ensures
            result is Ok <==> {
                &&& forall|i: int|
                    0 <= i < subscriptions@.len() ==> is_supported(#[trigger] subscriptions@[i])
                &&& distinct_ids(
                    id_pairs::<Binance<Server>, Kind, BinanceChannel, BinanceMarket>(
                        subscriptions@,
                    ),
                )
            },
            result matches Ok(meta) ==> {
                &&& meta.instrument_map@ == collect(
                    id_pairs::<Binance<Server>, Kind, BinanceChannel, BinanceMarket>(
                        subscriptions@,
                    ),
                )
                &&& meta.subscriptions@.len() == 1
                &&& meta.subscriptions@[0].method@ == "SUBSCRIBE"@
                &&& meta.subscriptions@[0].params.deep_view() == Self::spec_stream_names(
                    subscriptions@,
                )
                &&& meta.subscriptions@[0].id == 1
            },
            result matches Err(error) ==> {
                ||| exists|i: int|
                    {
                        &&& is_first_unsupported(subscriptions@, i)
                        &&& error@ == (SocketErrorView::Unsupported {
                            entity: Server::spec_id().name(),
                            item: subscriptions@[i].instrument.kind.name(),
                        })
                    }
                ||| {
                    &&& forall|i: int|
                        0 <= i < subscriptions@.len() ==> is_supported(
                            #[trigger] subscriptions@[i],
                        )
                    &&& exists|i: int|
                        {
                            &&& is_first_duplicate(
                                id_pairs::<Binance<Server>, Kind, BinanceChannel, BinanceMarket>(
                                    subscriptions@,
                                ),
                                i,
                            )
                            &&& error@ == SocketErrorView::Subscribe(
                                duplicate_reason(
                                    subscription_id_of::<
                                        Binance<Server>,
                                        Kind,
                                        BinanceChannel,
                                        BinanceMarket,
                                    >(subscriptions@[i]),
                                ),
                            )
                        }
                }
            },
    {
        match validate_all(subscriptions) {
            Ok(_) => {},
            Err(error) => {
                return Err(error);
            },
        }
        match map_subscriptions::<Binance<Server>, Kind, BinanceChannel, BinanceMarket>(
            subscriptions,
        ) {
            Ok((instrument_map, exchange_subs)) => {
                let requests = Self::requests(&exchange_subs);
                assert(stream_names(exchange_subs@) =~= Self::spec_stream_names(subscriptions@));
                Ok(SubscriptionMeta { instrument_map, subscriptions: requests })
            },
            Err(error) => Err(error),
        }
    }
}

} // verus!

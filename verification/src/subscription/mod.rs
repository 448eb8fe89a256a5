//! Subscriptions: what is asked of an exchange, and how the answers are traced back.

pub mod book;
pub mod candle;
pub mod liquidation;
pub mod map;
pub mod trade;

use crate::error::{SocketError, SocketErrorView};
use crate::exchange::{subscription_id_text, Connector, ExchangeSub, StreamSelector, WireName};
use crate::subscription::map::{
    collect, distinct_ids, ids, lemma_collect_dom, lemma_collect_finds_each_entry, SubscriptionMap,
};
use crate::Identifier;
use crate::model::{Instrument, InstrumentKind, Symbol};
use std::fmt::Debug;
use vstd::prelude::*;
use vstd::std_specs::convert::FromSpecImpl;
use vstd::string::*;

verus! {

/// A kind of market data that a subscription can ask for.
pub trait SubKind where Self: Debug + Clone {

}

/// Asks one exchange for one kind of market data on one instrument.
#[derive(Eq, PartialEq, Ord, PartialOrd, Hash, Debug)]
pub struct Subscription<Exchange, Kind> {
    pub exchange: Exchange,
    pub instrument: Instrument,
    pub kind: Kind,
}

impl<Exchange: Clone, Kind: Clone> Clone for Subscription<Exchange, Kind> {
    fn clone(&self) -> (subscription: Self)
        ensures
            cloned(self.exchange, subscription.exchange),
            subscription.instrument == self.instrument,
            cloned(self.kind, subscription.kind),
    {
        Subscription {
            exchange: self.exchange.clone(),
            instrument: self.instrument.clone(),
            kind: self.kind.clone(),
        }
    }
}

impl<Exchange, Kind> Subscription<Exchange, Kind> {
    /// The subscription that asks `exchange` for `kind` on `instrument`.
    pub fn new<I>(exchange: Exchange, instrument: I, kind: Kind) -> (subscription: Self)
        where
            I: Into<Instrument>,
        ensures
            subscription.exchange == exchange,
            call_ensures(I::into, (instrument,), subscription.instrument),
            subscription.kind == kind,
    {
        Subscription { exchange, instrument: instrument.into(), kind }
    }
}

impl<Exchange, S, Kind> From<(Exchange, S, S, InstrumentKind, Kind)> for Subscription<
    Exchange,
    Kind,
> where S: Into<Symbol> {
    fn from(parts: (Exchange, S, S, InstrumentKind, Kind)) -> (subscription: Self)
        ensures
            subscription.exchange == parts.0,
            call_ensures(S::into, (parts.1,), subscription.instrument.base),
            call_ensures(S::into, (parts.2,), subscription.instrument.quote),
            subscription.instrument.kind == parts.3,
            subscription.kind == parts.4,
    {
        Subscription {
            exchange: parts.0,
            instrument: Instrument::new(parts.1, parts.2, parts.3),
            kind: parts.4,
        }
    }
}

impl<Exchange, S, Kind> FromSpecImpl<(Exchange, S, S, InstrumentKind, Kind)> for Subscription<
    Exchange,
    Kind,
> where S: Into<Symbol> {
    /// The contract of `from` says what the conversion gives; no spec function does.
    open spec fn obeys_from_spec() -> bool {
        false
    }

    open spec fn from_spec(parts: (Exchange, S, S, InstrumentKind, Kind)) -> Self {
        arbitrary()
    }
}

impl<Exchange, I, Kind> From<(Exchange, I, Kind)> for Subscription<Exchange, Kind> where
    I: Into<Instrument>,
 {
    fn from(parts: (Exchange, I, Kind)) -> (subscription: Self)
        ensures
            subscription.exchange == parts.0,
            call_ensures(I::into, (parts.1,), subscription.instrument),
            subscription.kind == parts.2,
    {
        Subscription::new(parts.0, parts.1, parts.2)
    }
}

impl<Exchange, I, Kind> FromSpecImpl<(Exchange, I, Kind)> for Subscription<Exchange, Kind> where
    I: Into<Instrument>,
 {
    /// The contract of `from` says what the conversion gives; no spec function does.
    open spec fn obeys_from_spec() -> bool {
        false
    }

    open spec fn from_spec(parts: (Exchange, I, Kind)) -> Self {
        arbitrary()
    }
}

impl<Exchange, Kind> Subscription<Exchange, Kind> where
    Exchange: StreamSelector<Kind>,
    Kind: SubKind,
 {
    /// Checks that the subscription's exchange serves instruments of the kind asked for.
    ///
    /// A spot instrument needs an exchange that serves spot, a perpetual future one that
    /// serves futures. The subscription comes back as it is if so; if not, the error names
    /// the exchange and the kind of instrument.
    pub fn validate(&self) -> (result: Result<&Self, SocketError>)
        ensures
            result is Ok <==> Exchange::spec_id().supports(self.instrument.kind),
            self.instrument.kind == InstrumentKind::Spot ==> (result is Ok
                <==> Exchange::spec_id().supports_spot()),
            self.instrument.kind == InstrumentKind::FuturePerpetual ==> (result is Ok
                <==> Exchange::spec_id().supports_futures()),
            result matches Ok(valid) ==> *valid == *self,
            result matches Err(error) ==> error@ == (SocketErrorView::Unsupported {
                entity: Exchange::spec_id().name(),
                item: self.instrument.kind.name(),
            }),
    {
        let exchange = Exchange::id();
        if exchange.supports(self.instrument.kind) {
            Ok(self)
        } else {
            Err(
                SocketError::Unsupported {
                    entity: exchange.as_str(),
                    item: self.instrument.kind.to_string(),
                },
            )
        }
    }
}

/// What a connection needs before it opens: the table that leads from each identifier
/// back to its instrument, and the requests that subscribe on the exchange.
#[derive(Debug)]
pub struct SubscriptionMeta<Request> {
    pub instrument_map: SubscriptionMap<Instrument>,
    pub subscriptions: Vec<Request>,
}

/// Whether the exchange of `subscription` serves the kind of instrument it asks for.
pub open spec fn is_supported<Exchange: Connector, Kind>(
    subscription: Subscription<Exchange, Kind>,
) -> bool {
    Exchange::spec_id().supports(subscription.instrument.kind)
}

/// Whether `subscriptions[i]` is the first subscription that its exchange cannot serve.
pub open spec fn is_first_unsupported<Exchange: Connector, Kind>(
    subscriptions: Seq<Subscription<Exchange, Kind>>,
    i: int,
) -> bool {
    &&& 0 <= i < subscriptions.len()
    &&& !is_supported(subscriptions[i])
    &&& forall|j: int| 0 <= j < i ==> is_supported(#[trigger] subscriptions[j])
}

/// Validates every subscription of a batch: the batch is accepted as a whole or not at
/// all, and the error is that of the first subscription that fails.
pub fn validate_all<Exchange, Kind>(subscriptions: &Vec<Subscription<Exchange, Kind>>) -> (result:
    Result<(), SocketError>)
    where
        Exchange: StreamSelector<Kind>,
        Kind: SubKind,
    ensures
        result is Ok <==> forall|i: int|
            0 <= i < subscriptions@.len() ==> is_supported(#[trigger] subscriptions@[i]),
        result matches Err(error) ==> exists|i: int|
            {
                &&& is_first_unsupported(subscriptions@, i)
                &&& error@ == (SocketErrorView::Unsupported {
                    entity: Exchange::spec_id().name(),
                    item: subscriptions@[i].instrument.kind.name(),
                })
            },
{
    let mut i: usize = 0;
    while i < subscriptions.len()
        invariant
            i <= subscriptions.len(),
            forall|j: int| 0 <= j < i ==> is_supported(#[trigger] subscriptions@[j]),
        decreases subscriptions.len() - i,
    {
        match subscriptions[i].validate() {
            Ok(_) => {},
            Err(error) => {
                assert(is_first_unsupported(subscriptions@, i as int));
                return Err(error);
            },
        }
        i += 1;
    }
    Ok(())
}

/// The identifier of `subscription` on its exchange, made of its channel and its market.
pub open spec fn subscription_id_of<
    Exchange,
    Kind,
    Channel: DeepView<V = Seq<char>>,
    Market: DeepView<V = Seq<char>>,
>(
    subscription: Subscription<Exchange, Kind>,
) -> Seq<char> where Subscription<Exchange, Kind>: Identifier<Channel> + Identifier<Market> {
    subscription_id_text(
        <Subscription<Exchange, Kind> as Identifier<Channel>>::spec_id(&subscription),
        <Subscription<Exchange, Kind> as Identifier<Market>>::spec_id(&subscription),
    )
}

/// The identifier and the instrument of each subscription of a batch.
pub open spec fn id_pairs<
    Exchange,
    Kind,
    Channel: DeepView<V = Seq<char>>,
    Market: DeepView<V = Seq<char>>,
>(
    subscriptions: Seq<Subscription<Exchange, Kind>>,
) -> Seq<(Seq<char>, Instrument)> where
    Subscription<Exchange, Kind>: Identifier<Channel> + Identifier<Market>,
 {
    Seq::new(
        subscriptions.len(),
        |i: int|
            (
                subscription_id_of::<Exchange, Kind, Channel, Market>(subscriptions[i]),
                subscriptions[i].instrument,
            ),
    )
}

/// Whether `entries[i]` is the first entry whose identifier an earlier entry has too.
pub open spec fn is_first_duplicate<T>(entries: Seq<(Seq<char>, T)>, i: int) -> bool {
    &&& 0 <= i < entries.len()
    &&& distinct_ids(entries.take(i))
    &&& exists|j: int| 0 <= j < i && (#[trigger] entries[j]).0 == entries[i].0
}

/// What the error says when two subscriptions of a batch have the identifier `id`.
pub open spec fn duplicate_reason(id: Seq<char>) -> Seq<char> {
    "more than one subscription for "@ + id
}

/// Spells every subscription of a batch as its exchange does, and enters each one's
/// instrument under its identifier.
///
/// Two subscriptions with one identifier could not be told apart when their messages
/// arrive: such a batch is refused, and the error names the identifier of the first
/// subscription that repeats an earlier one.
pub fn map_subscriptions<Exchange, Kind, Channel, Market>(
    subscriptions: &Vec<Subscription<Exchange, Kind>>,
) -> (result: Result<(SubscriptionMap<Instrument>, Vec<ExchangeSub<Channel, Market>>), SocketError>)
    where
        Subscription<Exchange, Kind>: Identifier<Channel> + Identifier<Market>,
        Channel: WireName,
        Market: WireName,
    ensures
        result is Ok <==> distinct_ids(
            id_pairs::<Exchange, Kind, Channel, Market>(subscriptions@),
        ),
        result matches Ok(mapped) ==> {
            &&& mapped.0@ == collect(id_pairs::<Exchange, Kind, Channel, Market>(subscriptions@))
            &&& mapped.1@.len() == subscriptions@.len()
            &&& forall|i: int|
                0 <= i < subscriptions@.len() ==> {
                    &&& (#[trigger] mapped.1@[i]).channel.deep_view() == <Subscription<
                        Exchange,
                        Kind,
                    > as Identifier<Channel>>::spec_id(&subscriptions@[i])
                    &&& mapped.1@[i].market.deep_view() == <Subscription<
                        Exchange,
                        Kind,
                    > as Identifier<Market>>::spec_id(&subscriptions@[i])
                }
        },
        result matches Err(error) ==> exists|i: int|
            {
                &&& is_first_duplicate(
                    id_pairs::<Exchange, Kind, Channel, Market>(subscriptions@),
                    i,
                )
                &&& error@ == SocketErrorView::Subscribe(
                    duplicate_reason(
                        subscription_id_of::<Exchange, Kind, Channel, Market>(subscriptions@[i]),
                    ),
                )
            },
{
    let ghost pairs = id_pairs::<Exchange, Kind, Channel, Market>(subscriptions@);
    let mut instrument_map = SubscriptionMap::new();
    let mut exchange_subs: Vec<ExchangeSub<Channel, Market>> = Vec::new();
    let mut i: usize = 0;
    while i < subscriptions.len()
        invariant
            i <= subscriptions.len(),
            pairs == id_pairs::<Exchange, Kind, Channel, Market>(subscriptions@),
            instrument_map@ == collect(pairs.take(i as int)),
            distinct_ids(pairs.take(i as int)),
            exchange_subs@.len() == i,
            forall|j: int|
                0 <= j < i ==> {
                    &&& (#[trigger] exchange_subs@[j]).channel.deep_view() == <Subscription<
                        Exchange,
                        Kind,
                    > as Identifier<Channel>>::spec_id(&subscriptions@[j])
                    &&& exchange_subs@[j].market.deep_view() == <Subscription<
                        Exchange,
                        Kind,
                    > as Identifier<Market>>::spec_id(&subscriptions@[j])
                },
        decreases subscriptions.len() - i,
    {
        let exchange_sub: ExchangeSub<Channel, Market> = ExchangeSub::new(&subscriptions[i]);
        let id = exchange_sub.id();
        let ghost seen = pairs.take(i as int);
        proof {
            lemma_collect_dom(seen);
            assert(id@ == pairs[i as int].0);
        }
        if instrument_map.contains(&id) {
            proof {
                let j = choose|j: int| 0 <= j < seen.len() && (#[trigger] seen[j]).0 == id@;
                assert(pairs[j].0 == pairs[i as int].0);
                assert(is_first_duplicate(pairs, i as int));
                assert(!distinct_ids(pairs));
            }
            let mut reason = "more than one subscription for ".to_owned();
            reason.append(id.as_str());
            return Err(SocketError::Subscribe(reason));
        }
        let instrument = subscriptions[i].instrument.clone();
        proof {
            let next = pairs.take(i as int + 1);
            assert(next.drop_last() =~= seen);
            assert(next.last() == (id@, instrument));
            assert(distinct_ids(next)) by {
                assert forall|a: int, b: int| 0 <= a < b < next.len() implies (#[trigger] next[a]).0
                    != (#[trigger] next[b]).0 by {
                    if b < i {
                        assert(seen[a].0 != seen[b].0);
                    } else {
                        assert(seen[a].0 == next[a].0);
                        assert(!ids(seen).contains(id@));
                    }
                }
            }
        }
        instrument_map.insert(id, instrument);
        exchange_subs.push(exchange_sub);
        i += 1;
    }
    assert(pairs.take(pairs.len() as int) =~= pairs);
    Ok((instrument_map, exchange_subs))
}

/// In the table of a batch whose subscriptions have identifiers of their own, the
/// identifier of each subscription leads back to the very instrument of that subscription.
pub proof fn lemma_batch_finds_each_instrument<
    Exchange,
    Kind,
    Channel: DeepView<V = Seq<char>>,
    Market: DeepView<V = Seq<char>>,
>(
    subscriptions: Seq<Subscription<Exchange, Kind>>,
    i: int,
) where Subscription<Exchange, Kind>: Identifier<Channel> + Identifier<Market>
    requires
        distinct_ids(id_pairs::<Exchange, Kind, Channel, Market>(subscriptions)),
        0 <= i < subscriptions.len(),
    ensures
        collect(id_pairs::<Exchange, Kind, Channel, Market>(subscriptions)).contains_key(
            subscription_id_of::<Exchange, Kind, Channel, Market>(subscriptions[i]),
        ),
        collect(
            id_pairs::<Exchange, Kind, Channel, Market>(subscriptions),
        )[subscription_id_of::<Exchange, Kind, Channel, Market>(subscriptions[i])]
            == subscriptions[i].instrument,
{
    lemma_collect_finds_each_entry(id_pairs::<Exchange, Kind, Channel, Market>(subscriptions), i);
}

/// The length of time that one candle covers.
#[derive(Copy, Clone, Eq, PartialEq, Ord, PartialOrd, Hash, Debug)]
pub enum Interval {
    Minute1,
    Minute3,
    Minute5,
    Minute15,
    Minute30,
    Hour1,
    Hour2,
    Hour4,
    Hour6,
    Hour8,
    Hour12,
    Day1,
    Day3,
    Week1,
    Month1,
    Month3,
}

impl Interval {
    /// The interval's short spelling: a count and a unit, `m` for minutes and `M` for
    /// months.
    pub open spec fn token(self) -> Seq<char> {
        match self {
            Interval::Minute1 => "1m"@,
            Interval::Minute3 => "3m"@,
            Interval::Minute5 => "5m"@,
            Interval::Minute15 => "15m"@,
            Interval::Minute30 => "30m"@,
            Interval::Hour1 => "1h"@,
            Interval::Hour2 => "2h"@,
            Interval::Hour4 => "4h"@,
            Interval::Hour6 => "6h"@,
            Interval::Hour8 => "8h"@,
            Interval::Hour12 => "12h"@,
            Interval::Day1 => "1d"@,
            Interval::Day3 => "3d"@,
            Interval::Week1 => "1w"@,
            Interval::Month1 => "1M"@,
            Interval::Month3 => "3M"@,
        }
    }

    /// The interval's short spelling.
    pub fn as_str(&self) -> (token: &'static str)
        ensures
            token@ == self.token(),
    {
        match self {
            Interval::Minute1 => "1m",
            Interval::Minute3 => "3m",
            Interval::Minute5 => "5m",
            Interval::Minute15 => "15m",
            Interval::Minute30 => "30m",
            Interval::Hour1 => "1h",
            Interval::Hour2 => "2h",
            Interval::Hour4 => "4h",
            Interval::Hour6 => "6h",
            Interval::Hour8 => "8h",
            Interval::Hour12 => "12h",
            Interval::Day1 => "1d",
            Interval::Day3 => "3d",
            Interval::Week1 => "1w",
            Interval::Month1 => "1M",
            Interval::Month3 => "3M",
        }
    }

    /// The interval's short spelling, as a `String`.
    pub fn to_string(&self) -> (token: String)
        ensures
            token@ == self.token(),
    {
        self.as_str().to_owned()
    }

    /// The interval that `token` spells, if it spells one.
    pub fn from_token(token: &str) -> (interval: Option<Interval>)
        ensures
            match interval {
                Some(interval) => interval.token() == token@,
                None => forall|interval: Interval| interval.token() != token@,
            },
    {
        proof {
            lemma_tokens_revealed();
        }
        let length: usize = token.unicode_len();
        let found = if length == 2 {
            let unit: char = token.get_char(1);
            match token.get_char(0) {
                '1' => match unit {
                    'm' => Some(Interval::Minute1),
                    'h' => Some(Interval::Hour1),
                    'd' => Some(Interval::Day1),
                    'w' => Some(Interval::Week1),
                    'M' => Some(Interval::Month1),
                    _ => None,
                },
                '3' => match unit {
                    'm' => Some(Interval::Minute3),
                    'd' => Some(Interval::Day3),
                    'M' => Some(Interval::Month3),
                    _ => None,
                },
                '5' => if unit == 'm' { Some(Interval::Minute5) } else { None },
                '2' => if unit == 'h' { Some(Interval::Hour2) } else { None },
                '4' => if unit == 'h' { Some(Interval::Hour4) } else { None },
                '6' => if unit == 'h' { Some(Interval::Hour6) } else { None },
                '8' => if unit == 'h' { Some(Interval::Hour8) } else { None },
                _ => None,
            }
        } else if length == 3 {
            let tens: char = token.get_char(0);
            let ones: char = token.get_char(1);
            let unit: char = token.get_char(2);
            if tens == '1' && ones == '5' && unit == 'm' {
                Some(Interval::Minute15)
            } else if tens == '3' && ones == '0' && unit == 'm' {
                Some(Interval::Minute30)
            } else if tens == '1' && ones == '2' && unit == 'h' {
                Some(Interval::Hour12)
            } else {
                None
            }
        } else {
            None
        };
        proof {
            match found {
                Some(interval) => {
                    assert(interval.token() =~= token@);
                },
                None => {
                    assert forall|interval: Interval| interval.token() != token@ by {
                        if interval.token() == token@ {
                            assert(interval.token().len() == length);
                            assert(interval.token()[0] == token@[0]);
                            assert(interval.token()[1] == token@[1]);
                            if length == 3 {
                                assert(interval.token()[2] == token@[2]);
                            }
                        }
                    }
                },
            }
        }
        found
    }
}

/// What the sixteen spellings are, character by character.
proof fn lemma_tokens_revealed()
    ensures
        "1m"@ == seq!['1', 'm'],
        "3m"@ == seq!['3', 'm'],
        "5m"@ == seq!['5', 'm'],
        "15m"@ == seq!['1', '5', 'm'],
        "30m"@ == seq!['3', '0', 'm'],
        "1h"@ == seq!['1', 'h'],
        "2h"@ == seq!['2', 'h'],
        "4h"@ == seq!['4', 'h'],
        "6h"@ == seq!['6', 'h'],
        "8h"@ == seq!['8', 'h'],
        "12h"@ == seq!['1', '2', 'h'],
        "1d"@ == seq!['1', 'd'],
        "3d"@ == seq!['3', 'd'],
        "1w"@ == seq!['1', 'w'],
        "1M"@ == seq!['1', 'M'],
        "3M"@ == seq!['3', 'M'],
{
    reveal_strlit("1m");
    reveal_strlit("3m");
    reveal_strlit("5m");
    reveal_strlit("15m");
    reveal_strlit("30m");
    reveal_strlit("1h");
    reveal_strlit("2h");
    reveal_strlit("4h");
    reveal_strlit("6h");
    reveal_strlit("8h");
    reveal_strlit("12h");
    reveal_strlit("1d");
    reveal_strlit("3d");
    reveal_strlit("1w");
    reveal_strlit("1M");
    reveal_strlit("3M");
    assert("1m"@ =~= seq!['1', 'm']);
    assert("3m"@ =~= seq!['3', 'm']);
    assert("5m"@ =~= seq!['5', 'm']);
    assert("15m"@ =~= seq!['1', '5', 'm']);
    assert("30m"@ =~= seq!['3', '0', 'm']);
    assert("1h"@ =~= seq!['1', 'h']);
    assert("2h"@ =~= seq!['2', 'h']);
    assert("4h"@ =~= seq!['4', 'h']);
    assert("6h"@ =~= seq!['6', 'h']);
    assert("8h"@ =~= seq!['8', 'h']);
    assert("12h"@ =~= seq!['1', '2', 'h']);
    assert("1d"@ =~= seq!['1', 'd']);
    assert("3d"@ =~= seq!['3', 'd']);
    assert("1w"@ =~= seq!['1', 'w']);
    assert("1M"@ =~= seq!['1', 'M']);
    assert("3M"@ =~= seq!['3', 'M']);
}

/// No two intervals are spelled alike.
pub proof fn lemma_token_distinct(a: Interval, b: Interval)
    ensures
        a.token() == b.token() <==> a == b,
{
    lemma_tokens_revealed();
    if a.token() == b.token() {
        assert(a.token().len() == b.token().len());
        assert(a.token()[0] == b.token()[0]);
        assert(a.token()[1] == b.token()[1]);
    }
}

} // verus!

//! Market-data normalisation for cryptocurrency exchanges.
//!
//! A [`subscription::Subscription`] asks one exchange for one kind of market data on one
//! instrument. Before a connection opens, every subscription is validated against what the
//! exchange supports and is mapped to the exchange's own channel and market spelling; the
//! two together form the [`model::SubscriptionId`] under which the exchange's messages are
//! later traced back to the instrument that asked for them.
//!
//! While the connection streams, a [`transformer::StatelessTransformer`] turns each
//! message into [`event::MarketEvent`]s, which have one shape whatever exchange they come
//! from. [`streams`] holds what many connections need at once: the decisions of each
//! connection's life, the bounded buffer in which their events meet, and the register of
//! the streams that consumers read.
//!
//! The library opens no socket and starts no task. It is told what happened on a
//! connection and answers what is to be done.

pub mod error;
pub mod event;
pub mod exchange;
pub mod model;
pub mod streams;
pub mod subscription;
pub mod text;
pub mod time;
pub mod transformer;

use vstd::prelude::*;

verus! {

/// A value that names itself with an identifier of type `T`.
///
/// One value may have identifiers of several types: a subscription has both a channel and
/// a market on the exchange it addresses.
pub trait Identifier<T: DeepView> {
    /// The identifier, as contracts speak of it.
    spec fn spec_id(&self) -> T::V;

    /// The identifier.
    fn id(&self) -> (id: T)
        ensures
            id.deep_view() == self.spec_id(),
    ;
}

} // verus!

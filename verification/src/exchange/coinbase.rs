//! Coinbase.

use crate::exchange::{Connector, ExchangeId, StreamSelector};
use crate::subscription::trade::PublicTrades;
use vstd::prelude::*;

verus! {

/// Stands for Coinbase.
#[derive(Copy, Clone, Eq, PartialEq, Ord, PartialOrd, Hash, Debug, Default)]
pub struct Coinbase;

impl Connector for Coinbase {
    open spec fn spec_id() -> ExchangeId {
        ExchangeId::Coinbase
    }

    fn id() -> (id: ExchangeId) {
        ExchangeId::Coinbase
    }
}

impl StreamSelector<PublicTrades> for Coinbase {

}

} // verus!

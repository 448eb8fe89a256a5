//! Gateio's perpetual futures settled in USD.

use crate::exchange::{Connector, ExchangeId, StreamSelector};
use crate::subscription::trade::PublicTrades;
use vstd::prelude::*;

verus! {

/// Stands for Gateio's perpetual futures settled in USD.
#[derive(Copy, Clone, Eq, PartialEq, Ord, PartialOrd, Hash, Debug, Default)]
pub struct GateioFuturesUsd;

impl Connector for GateioFuturesUsd {
    open spec fn spec_id() -> ExchangeId {
        ExchangeId::GateioFuturesUsd
    }

    fn id() -> (id: ExchangeId) {
        ExchangeId::GateioFuturesUsd
    }
}

impl StreamSelector<PublicTrades> for GateioFuturesUsd {

}

} // verus!

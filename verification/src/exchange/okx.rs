//! Okx.

use crate::exchange::{Connector, ExchangeId, StreamSelector};
use crate::subscription::trade::PublicTrades;
use vstd::prelude::*;

verus! {

/// Stands for Okx.
#[derive(Copy, Clone, Eq, PartialEq, Ord, PartialOrd, Hash, Debug, Default)]
pub struct Okx;

impl Connector for Okx {
    open spec fn spec_id() -> ExchangeId {
        ExchangeId::Okx
    }

    fn id() -> (id: ExchangeId) {
        ExchangeId::Okx
    }
}

impl StreamSelector<PublicTrades> for Okx {

}

} // verus!

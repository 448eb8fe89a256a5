//! Public trades.

use crate::subscription::SubKind;
use vstd::prelude::*;

verus! {

/// Asks for every trade as it happens.
#[derive(Copy, Clone, Eq, PartialEq, Ord, PartialOrd, Hash, Debug)]
pub struct PublicTrades;

impl SubKind for PublicTrades {

}

} // verus!

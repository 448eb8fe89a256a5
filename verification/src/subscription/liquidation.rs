//! Liquidations.

use crate::subscription::SubKind;
use vstd::prelude::*;

verus! {

/// Asks for every forced liquidation as it happens.
#[derive(Copy, Clone, Eq, PartialEq, Ord, PartialOrd, Hash, Debug)]
pub struct Liquidations;

impl SubKind for Liquidations {

}

} // verus!

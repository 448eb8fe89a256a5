//! Candles.

use crate::subscription::{Interval, SubKind};
use crate::time::UtcDateTime;
use vstd::prelude::*;

verus! {

/// Asks for the candles of one interval.
#[derive(Copy, Clone, Eq, PartialEq, Ord, PartialOrd, Hash, Debug)]
pub struct Candles(pub Interval);

impl SubKind for Candles {

}

/// One candle: the prices and volume traded up to `close_time`.
///
/// `N` is the type that the prices and the volume were read into; this library moves such
/// numbers and never computes with them.
#[derive(Copy, Clone, PartialEq, PartialOrd, Debug)]
pub struct Candle<N> {
    pub close_time: UtcDateTime,
    pub open: N,
    pub high: N,
    pub low: N,
    pub close: N,
    pub volume: N,
    pub trade_count: u64,
}

} // verus!

//! Order books.

use crate::subscription::SubKind;
use vstd::prelude::*;

verus! {

/// Asks for the best bid and ask as they change.
#[derive(Copy, Clone, Eq, PartialEq, Ord, PartialOrd, Hash, Debug)]
pub struct OrderBooksL1;

impl SubKind for OrderBooksL1 {

}

/// Asks for the price levels of the book as they change.
#[derive(Copy, Clone, Eq, PartialEq, Ord, PartialOrd, Hash, Debug)]
pub struct OrderBooksL2;

impl SubKind for OrderBooksL2 {

}

} // verus!

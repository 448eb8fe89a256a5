//! Gateio.

pub mod futures;

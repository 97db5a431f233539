//! Fixed-layout binary records that stand in for the on-chain accounts of two
//! price oracles: a price/product pair and a tag-prefixed aggregator.
//! Every operation works on a caller-owned byte region, checks the region's
//! size before it writes anything, and changes only the bytes of the fields it
//! is responsible for.

pub mod pyth;
pub mod region;
pub mod switchboard;

//! A small ecological simulation: crabs forage for prey in reefs.
//!
//! A reef is a pool of prey items; many crabs may forage from one reef, so
//! reefs live in a central arena (a vector of reefs) and each crab records
//! the arena indices of the reefs it has discovered. A crab's hunt removes
//! items from those pools one at a time, keeps the first item it can catch,
//! and restores every rejected item to the reef it came from, so that no
//! item is ever lost or duplicated.

pub mod beach;
pub mod color;
pub mod cookbook;
pub mod crab;
pub mod diet;
pub mod ocean;
pub mod prey;
pub mod reef;

//! Verified evaluation engine for route-based game proofs.
//!
//! The library validates a player's route through a game graph against an
//! immutable configuration, simulating combat, resource conversion and level
//! progression with bit-exact, overflow-safe integer semantics, and decides
//! whether the route is accepted and with which score.

pub mod arith;
pub mod combat;
pub mod levelup;
pub mod model;
pub mod resources;
pub mod digest;
pub mod entry;
pub mod simulator;

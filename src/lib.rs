//! Transaction negotiation and wallet synchronisation logic of a Mimblewimble
//! wallet bridge: error kinds, coin-selection strategies, the slate locking and
//! posting flows, chain reconciliation and the boundary envelope.

pub mod error;
pub mod slate_id;
pub mod reconcile;
pub mod selection;
pub mod send;
pub mod post;
pub mod middleware;
pub mod config;
pub mod bridge;
pub mod handles;

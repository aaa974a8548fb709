//! A small election: register candidates and voters, take one vote from each
//! registered voter until a closing time, and show the tallies afterwards.
//!
//! The election lives in a key-value store that the host owns. `store` is the
//! only module that touches it; everything above it is proved against the
//! contracts stated there.

pub mod contract;
pub mod election;
pub mod error;
pub mod msg;
pub mod state;
pub mod store;
pub mod table;

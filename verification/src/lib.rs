//! Startup core of a small desktop host: a schema migration engine that
//! brings an embedded relational store from its current version to the newest
//! one by applying versioned change-sets exactly once each, and the
//! capability registry and command dispatcher through which a separate UI
//! layer invokes host-side operations.

pub mod descriptor;
pub mod store;
pub mod engine;
pub mod registry;
pub mod dispatch;

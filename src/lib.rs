//! Client side of a two-step login protocol with optional two-factor
//! authentication: server address normalization, the choice of endpoint and
//! body for each step, the mapping of transport and decoding failures to
//! user-facing outcomes, and the small persisted settings.
//!
//! Nothing here touches the network or the disk: callers send the requests
//! built here and hand back how each call ended.

pub mod auth;
pub mod settings;
pub mod url;

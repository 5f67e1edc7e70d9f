//! An in-memory key-value store served over HTTP.
//!
//! The library holds the verified core: the shared map that backs reads and
//! writes, the request router and its handlers, the admission-control limit,
//! the listener tuning parameters, and the graceful-shutdown state machine.
//! Process bootstrap and the actual network serving live outside the library.

pub mod admission;
pub mod config;
pub mod handler;
pub mod laws;
pub mod router;
pub mod shutdown;
pub mod store;

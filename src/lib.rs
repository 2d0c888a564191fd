//! Monitoring core for a blockchain JSON-RPC endpoint: failure classification,
//! per-call retry and metric accounting, and the block catch-up poller.

pub mod classify;
pub mod poller;
pub mod region;
pub mod transport;

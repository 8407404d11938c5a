//! Network interfaces: counters, rates, history.

pub mod address;
pub mod engine;
pub mod laws;
pub mod monitor;
pub mod rate;
pub mod utils;

pub use engine::NetworkData;
pub use monitor::NetworkMonitor;

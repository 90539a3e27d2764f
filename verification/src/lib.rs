//! Throughput benchmarking for a ledger network: generation of fee-randomised
//! spend transactions, and the decision of when the network's throughput is
//! stable enough to be measured.

pub mod capacity;
pub mod generator;
pub mod metrics;
pub mod monitor;
pub mod types;
pub mod signing;

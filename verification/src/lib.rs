//! Verified core of the Stride RDMA benchmarking tool: buffer addressing,
//! credit-based flow control, table layout, device identification and the
//! other decisions that the benchmark makes around its RDMA calls.

pub mod cli;
pub mod connection;
pub mod memory;
pub mod operations;
pub mod runners;
pub mod transport;
pub mod utils;

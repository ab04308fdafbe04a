pub mod bench;
pub mod plan;
pub mod probe;
pub mod runner;

use vstd::prelude::*;

verus! {

/// Options of the benchmark suite command.
#[derive(Debug, Clone)]
pub struct BenchCli {
    /// NUMA-aware benchmarking.
    pub numa: bool,
    /// Benchmark duration in seconds.
    pub duration: u32,
    /// Message sizes (a comma separated list or a range).
    pub sizes: String,
}

} // verus!

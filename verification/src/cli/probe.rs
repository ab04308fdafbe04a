use vstd::prelude::*;

verus! {

/// Options of the device probing command.
#[derive(Debug, Clone)]
pub struct ProbeCli {
    /// Show detailed device information.
    pub detailed: bool,
    /// Show NUMA information.
    pub numa: bool,
    /// Show only this device.
    pub device: Option<String>,
}

} // verus!

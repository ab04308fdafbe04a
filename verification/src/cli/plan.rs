use vstd::prelude::*;
use crate::connection::exchange::MemoryRegionInfo;
use crate::utils::mtu::Mtu;
use crate::utils::text::{decimal, push_str, u64_to_decimal};

verus! {

/// What the tool prints: the terminal tables and the trace log.
#[derive(Debug, Clone)]
pub struct OutputConfig {
    pub tui_enabled: bool,
    pub trace_enabled: bool,
}

impl Default for OutputConfig {
    /// Tables on, tracing off.
    fn default() -> (r: Self)
        ensures
            r.tui_enabled,
            !r.trace_enabled,
    {
        OutputConfig { tui_enabled: true, trace_enabled: false }
    }
}

impl OutputConfig {
    /// The output of the `--trace` and `--tui` flags: tracing as asked;
    /// tables unless tracing is asked for without `--tui`.
    pub fn from_flags(trace: bool, tui: bool) -> (r: OutputConfig)
        ensures
            r.trace_enabled == trace,
            r.tui_enabled == !(trace && !tui),
    {
        OutputConfig { trace_enabled: trace, tui_enabled: !(trace && !tui) }
    }
}

/// Settings shared by all benchmark kinds.
#[derive(Debug, Clone)]
pub struct PlanBase {
    pub mode: Mode,
    pub dev: Option<String>,
    pub gid_index: Option<u8>,
    pub server: bool,
    pub addr: String,
    pub threads: usize,
    pub msg_sizes: Vec<u32>,
    pub iters: u32,
    pub bidir: bool,
    pub tx_depth: u32,
    pub timeout: u8,
    pub post_list: u32,
    pub cqe_poll: u32,
    pub hugepages: bool,
    pub mtu: Mtu,
    pub output: OutputConfig,
}

/// A benchmark to run.
#[derive(Debug, Clone)]
pub enum Plan {
    Send(SendPlan),
    Write(WritePlan),
    Read(ReadPlan),
}

#[derive(Debug, Clone)]
pub struct SendPlan {
    pub base: PlanBase,
    pub rx_depth: u32,
    pub imm_data: bool,
    pub flow_control: bool,
}

#[derive(Debug, Clone)]
pub struct WritePlan {
    pub base: PlanBase,
    pub imm_data: bool,
    pub remote_mr: Option<MemoryRegionInfo>,
}

#[derive(Debug, Clone)]
pub struct ReadPlan {
    pub base: PlanBase,
    pub remote_mr: Option<MemoryRegionInfo>,
}

/// RDMA operation of a benchmark.
#[derive(Debug, Clone, Copy, PartialEq, Eq, Structural)]
pub enum Operation {
    Send,
    Write,
    Read,
    Atomic,
}

/// What a benchmark measures.
#[derive(Debug, Clone, Copy, PartialEq, Eq, Structural)]
pub enum Mode {
    Bandwidth,
    Latency,
}

pub open spec fn spec_base(p: Plan) -> PlanBase {
    match p {
        Plan::Send(s) => s.base,
        Plan::Write(w) => w.base,
        Plan::Read(r) => r.base,
    }
}

pub open spec fn spec_operation(p: Plan) -> Operation {
    match p {
        Plan::Send(_) => Operation::Send,
        Plan::Write(_) => Operation::Write,
        Plan::Read(_) => Operation::Read,
    }
}

/// Name of the benchmark of an operation and mode.
pub open spec fn spec_test_name(op: Operation, mode: Mode) -> Seq<char> {
    match (op, mode) {
        (Operation::Send, Mode::Bandwidth) => "SEND bw"@,
        (Operation::Send, Mode::Latency) => "SEND lat"@,
        (Operation::Write, Mode::Bandwidth) => "WRITE bw"@,
        (Operation::Write, Mode::Latency) => "WRITE lat"@,
        (Operation::Read, Mode::Bandwidth) => "READ bw"@,
        (Operation::Read, Mode::Latency) => "READ lat"@,
        (Operation::Atomic, Mode::Bandwidth) => "ATOMIC bw"@,
        (Operation::Atomic, Mode::Latency) => "ATOMIC lat"@,
    }
}

impl Plan {
    /// The settings shared by all kinds.
    pub fn base(&self) -> (r: &PlanBase)
        ensures
            *r == spec_base(*self),
    {
        match self {
            Plan::Send(p) => &p.base,
            Plan::Write(p) => &p.base,
            Plan::Read(p) => &p.base,
        }
    }

    pub fn operation(&self) -> (r: Operation)
        ensures
            r == spec_operation(*self),
    {
        match self {
            Plan::Send(_) => Operation::Send,
            Plan::Write(_) => Operation::Write,
            Plan::Read(_) => Operation::Read,
        }
    }

    /// Completions polled per batch.
    pub fn poll_batch(&self) -> (r: u32)
        ensures
            r == spec_base(*self).cqe_poll,
    {
        self.base().cqe_poll
    }

    pub fn is_latency(&self) -> (r: bool)
        ensures
            r == (spec_base(*self).mode == Mode::Latency),
    {
        self.base().mode == Mode::Latency
    }

    /// One-sided operations (WRITE, READ) need the peer's memory address.
    pub fn needs_remote_addr(&self) -> (r: bool)
        ensures
            r == (spec_operation(*self) == Operation::Write || spec_operation(*self) == Operation::Read),
    {
        match self.operation() {
            Operation::Write | Operation::Read => true,
            _ => false,
        }
    }

    pub fn test_name(&self) -> (r: &'static str)
        ensures
            r@ == spec_test_name(spec_operation(*self), spec_base(*self).mode),
    {
        match (self.operation(), self.base().mode) {
            (Operation::Send, Mode::Bandwidth) => "SEND bw",
            (Operation::Send, Mode::Latency) => "SEND lat",
            (Operation::Write, Mode::Bandwidth) => "WRITE bw",
            (Operation::Write, Mode::Latency) => "WRITE lat",
            (Operation::Read, Mode::Bandwidth) => "READ bw",
            (Operation::Read, Mode::Latency) => "READ lat",
            (Operation::Atomic, Mode::Bandwidth) => "ATOMIC bw",
            (Operation::Atomic, Mode::Latency) => "ATOMIC lat",
        }
    }

    /// Receive queue depth: only SEND benchmarks have one.
    pub fn rx_depth(&self) -> (r: Option<u32>)
        ensures
            r == match *self {
                Plan::Send(p) => Some(p.rx_depth),
                _ => None,
            },
    {
        match self {
            Plan::Send(p) => Some(p.rx_depth),
            _ => None,
        }
    }

    /// Whether the benchmark carries immediate data (never for READ).
    pub fn uses_immediate_data(&self) -> (r: bool)
        ensures
            r == match *self {
                Plan::Send(p) => p.imm_data,
                Plan::Write(p) => p.imm_data,
                Plan::Read(_) => false,
            },
    {
        match self {
            Plan::Send(p) => p.imm_data,
            Plan::Write(p) => p.imm_data,
            Plan::Read(_) => false,
        }
    }

    /// Only SEND benchmarks use credit-based flow control.
    pub fn uses_flow_control(&self) -> (r: bool)
        ensures
            r == match *self {
                Plan::Send(p) => p.flow_control,
                _ => false,
            },
    {
        match self {
            Plan::Send(p) => p.flow_control,
            _ => false,
        }
    }

    /// The peer's memory region of a one-sided benchmark.
    pub fn remote_mr(&self) -> (r: Option<&MemoryRegionInfo>)
        ensures
            r == match *self {
                Plan::Send(_) => None,
                Plan::Write(p) => match p.remote_mr {
                    Some(m) => Some(&m),
                    None => None,
                },
                Plan::Read(p) => match p.remote_mr {
                    Some(m) => Some(&m),
                    None => None,
                },
            },
    {
        match self {
            Plan::Send(_) => None,
            Plan::Write(p) => p.remote_mr.as_ref(),
            Plan::Read(p) => p.remote_mr.as_ref(),
        }
    }

    /// Records the peer's memory region (SEND benchmarks ignore it).
    pub fn set_remote_mr(&mut self, remote_mr: MemoryRegionInfo)
        ensures
            *final(self) == match *old(self) {
                Plan::Send(p) => Plan::Send(p),
                Plan::Write(p) => Plan::Write(WritePlan { remote_mr: Some(remote_mr), ..p }),
                Plan::Read(p) => Plan::Read(ReadPlan { remote_mr: Some(remote_mr), ..p }),
            },
    {
        match self {
            Plan::Send(_) => {},
            Plan::Write(p) => p.remote_mr = Some(remote_mr),
            Plan::Read(p) => p.remote_mr = Some(remote_mr),
        }
    }

    /// The configured path MTU.
    pub fn mtu(&self) -> (r: Mtu)
        ensures
            r == spec_base(*self).mtu,
    {
        self.base().mtu
    }
}

/// Benchmark chosen on the command line with its kind-specific options.
#[derive(Debug, Clone, Copy)]
pub enum PerfCommand {
    Send { mode: Mode, rx_depth: u32, imm_data: bool, use_flow_control: bool },
    Write { mode: Mode, imm_data: bool, rx_depth: u32 },
    Read { mode: Mode },
}

/// Command line options shared by all benchmarks (the size step factor
/// aside, which only the size list expansion reads).
#[derive(Debug, Clone)]
pub struct CommonSettings {
    pub device: Option<String>,
    pub gid_index: Option<u8>,
    pub iters: u32,
    pub msg_size: u32,
    pub qp_timeout: u8,
    pub port: u16,
    pub server_address: Option<String>,
    pub qp_count: u32,
    pub bidirectional: bool,
    pub all_sizes: bool,
    pub tx_depth: u32,
    pub post_list: u32,
    pub cqe_poll: u32,
    pub use_hugepages: bool,
    pub mtu: Mtu,
}

/// Why the command line does not make a benchmark.
#[derive(Debug, Clone, Copy, PartialEq, Eq, Structural)]
pub enum PlanError {
    /// A receive depth other than the default was given to a WRITE benchmark without immediate data.
    RxDepthWithoutImmData { mode: Mode, rx_depth: u32 },
}

/// Default receive depth of the command line.
pub const DEFAULT_RX_DEPTH: u32 = 512;

pub open spec fn mode_of(c: PerfCommand) -> Mode {
    match c {
        PerfCommand::Send { mode, .. } => mode,
        PerfCommand::Write { mode, .. } => mode,
        PerfCommand::Read { mode } => mode,
    }
}

/// Listening address of a server, or the server's address for a client.
pub open spec fn spec_plan_addr(server_address: Option<String>, port: u16) -> Seq<char> {
    match server_address {
        Some(a) => a@ + ":"@ + decimal(port as nat),
        None => "0.0.0.0:"@ + decimal(port as nat),
    }
}

/// The benchmark settings a command line yields.
pub open spec fn spec_plan_base(
    mode: Mode,
    common: CommonSettings,
    expanded_sizes: Seq<u32>,
    trace: bool,
    tui: bool,
    b: PlanBase,
) -> bool {
    &&& b.mode == mode
    &&& b.dev == common.device
    &&& b.gid_index == common.gid_index
    &&& b.server == (common.server_address is None)
    &&& b.addr@ == spec_plan_addr(common.server_address, common.port)
    &&& b.threads == common.qp_count as usize
    &&& b.msg_sizes@ == (if common.all_sizes { expanded_sizes } else { seq![common.msg_size] })
    &&& b.iters == common.iters
    &&& b.bidir == common.bidirectional
    &&& b.tx_depth == (if mode == Mode::Latency { 1 } else { common.tx_depth })
    &&& b.timeout == common.qp_timeout
    &&& b.post_list == common.post_list
    &&& b.cqe_poll == common.cqe_poll
    &&& b.hugepages == common.use_hugepages
    &&& b.mtu == common.mtu
    &&& b.output.trace_enabled == trace
    &&& b.output.tui_enabled == !(trace && !tui)
}

impl PlanError {
    /// The message shown for the error.
    pub fn message(&self) -> (r: String)
        ensures
            r@ == match *self {
                PlanError::RxDepthWithoutImmData { mode, rx_depth } => "Error: --rx-depth can only be used with --imm-data for write operations.\nRegular write operations don't use receive queues.\nUse: stride-perf write "@
                    + (if mode == Mode::Bandwidth { "bw"@ } else { "lat"@ }) + " --imm-data --rx-depth "@
                    + decimal(rx_depth as nat),
            },
    {
        match self {
            PlanError::RxDepthWithoutImmData { mode, rx_depth } => {
                let mut s = String::new();
                push_str(&mut s, "Error: --rx-depth can only be used with --imm-data for write operations.\nRegular write operations don't use receive queues.\nUse: stride-perf write ");
                match mode {
                    Mode::Bandwidth => push_str(&mut s, "bw"),
                    Mode::Latency => push_str(&mut s, "lat"),
                }
                push_str(&mut s, " --imm-data --rx-depth ");
                let d = u64_to_decimal(*rx_depth as u64);
                push_str(&mut s, d.as_str());
                s
            },
        }
    }
}

fn plan_address(server_address: &Option<String>, port: u16) -> (r: String)
    ensures
        r@ == spec_plan_addr(*server_address, port),
{
    let mut s = String::new();
    match server_address {
        Some(a) => {
            push_str(&mut s, a.as_str());
            push_str(&mut s, ":");
        },
        None => push_str(&mut s, "0.0.0.0:"),
    }
    let d = u64_to_decimal(port as u64);
    push_str(&mut s, d.as_str());
    s
}

impl Plan {
    /// Builds the benchmark of a command line. `expanded_sizes` is the list
    /// of message sizes used when `common.all_sizes` is set; otherwise the
    /// single `common.msg_size` is used. A WRITE benchmark given a receive
    /// depth other than the default but no immediate data is refused.
    pub fn from_command(
        command: PerfCommand,
        common: CommonSettings,
        expanded_sizes: Vec<u32>,
        trace: bool,
        tui: bool,
    ) -> (r: Result<Plan, PlanError>)
        ensures
            match command {
                PerfCommand::Write { mode, imm_data, rx_depth } => (r is Err <==> (rx_depth != DEFAULT_RX_DEPTH
                    && !imm_data)) && (r is Err ==> r == Err::<Plan, PlanError>(
                    PlanError::RxDepthWithoutImmData { mode, rx_depth },
                )),
                _ => r is Ok,
            },
            r is Ok ==> ({
                let p = r->Ok_0;
                &&& spec_plan_base(mode_of(command), common, expanded_sizes@, trace, tui, spec_base(p))
                &&& match command {
                    PerfCommand::Send { rx_depth, imm_data, use_flow_control, .. } => p matches Plan::Send(s)
                        && s.rx_depth == rx_depth && s.imm_data == imm_data && s.flow_control == use_flow_control,
                    PerfCommand::Write { imm_data, .. } => p matches Plan::Write(w) && w.imm_data == imm_data
                        && w.remote_mr is None,
                    PerfCommand::Read { .. } => p matches Plan::Read(rp) && rp.remote_mr is None,
                }
            }),
    {
        let mode = match command {
            PerfCommand::Send { mode, .. } => mode,
            PerfCommand::Write { mode, imm_data, rx_depth } => {
                if rx_depth != DEFAULT_RX_DEPTH && !imm_data {
                    return Err(PlanError::RxDepthWithoutImmData { mode, rx_depth });
                }
                mode
            },
            PerfCommand::Read { mode } => mode,
        };
        let msg_sizes = if common.all_sizes {
            expanded_sizes
        } else {
            let mut v: Vec<u32> = Vec::new();
            v.push(common.msg_size);
            v
        };
        let server = common.server_address.is_none();
        let addr = plan_address(&common.server_address, common.port);
        let output = OutputConfig::from_flags(trace, tui);
        let tx_depth = match mode {
            Mode::Latency => 1,
            Mode::Bandwidth => common.tx_depth,
        };
        let base = PlanBase {
            mode,
            dev: common.device,
            gid_index: common.gid_index,
            server,
            addr,
            threads: common.qp_count as usize,
            msg_sizes,
            iters: common.iters,
            bidir: common.bidirectional,
            tx_depth,
            timeout: common.qp_timeout,
            post_list: common.post_list,
            cqe_poll: common.cqe_poll,
            hugepages: common.use_hugepages,
            mtu: common.mtu,
            output,
        };
        let plan = match command {
            PerfCommand::Send { rx_depth, imm_data, use_flow_control, .. } => Plan::Send(
                SendPlan { base, rx_depth, imm_data, flow_control: use_flow_control },
            ),
            PerfCommand::Write { imm_data, .. } => Plan::Write(WritePlan { base, imm_data, remote_mr: None }),
            PerfCommand::Read { .. } => Plan::Read(ReadPlan { base, remote_mr: None }),
        };
        Ok(plan)
    }
}

} // verus!

use stride::cli::plan::{
    CommonSettings, Mode, Operation, OutputConfig, PerfCommand, Plan, PlanError,
};
use stride::connection::exchange::MemoryRegionInfo;
use stride::utils::mtu::Mtu;

fn common(server_address: Option<&str>) -> CommonSettings {
    CommonSettings {
        device: Some("mlx5_0".to_string()),
        gid_index: Some(3),
        iters: 1000,
        msg_size: 65536,
        qp_timeout: 14,
        port: 18515,
        server_address: server_address.map(|s| s.to_string()),
        qp_count: 2,
        bidirectional: false,
        all_sizes: false,
        tx_depth: 128,
        post_list: 4,
        cqe_poll: 32,
        use_hugepages: false,
        mtu: Mtu::Mtu4096,
    }
}

#[test]
fn send_bandwidth_client_plan() {
    let cmd = PerfCommand::Send { mode: Mode::Bandwidth, rx_depth: 512, imm_data: false, use_flow_control: true };
    let plan = Plan::from_command(cmd, common(Some("10.0.0.2")), vec![], false, false).unwrap();
    assert_eq!(plan.operation(), Operation::Send);
    assert!(!plan.is_latency());
    assert_eq!(plan.test_name(), "SEND bw");
    let base = plan.base();
    assert!(!base.server);
    assert_eq!(base.addr, "10.0.0.2:18515");
    assert_eq!(base.msg_sizes, vec![65536]);
    assert_eq!(base.tx_depth, 128);
    assert_eq!(base.threads, 2);
    assert_eq!(plan.rx_depth(), Some(512));
    assert!(plan.uses_flow_control());
    assert!(!plan.uses_immediate_data());
    assert!(!plan.needs_remote_addr());
    assert_eq!(plan.poll_batch(), 32);
    assert_eq!(plan.mtu(), Mtu::Mtu4096);
    assert!(base.output.tui_enabled);
    assert!(!base.output.trace_enabled);
}

#[test]
fn latency_server_plan() {
    let mut c = common(None);
    c.all_sizes = true;
    let cmd = PerfCommand::Write { mode: Mode::Latency, imm_data: false, rx_depth: 512 };
    let mut plan = Plan::from_command(cmd, c, vec![2, 4, 8], true, false).unwrap();
    let base = plan.base();
    assert!(base.server);
    assert_eq!(base.addr, "0.0.0.0:18515");
    assert_eq!(base.msg_sizes, vec![2, 4, 8]);
    assert_eq!(base.tx_depth, 1);
    assert!(!base.output.tui_enabled);
    assert!(base.output.trace_enabled);
    assert_eq!(plan.test_name(), "WRITE lat");
    assert!(plan.needs_remote_addr());
    assert!(plan.remote_mr().is_none());
    plan.set_remote_mr(MemoryRegionInfo { addr: 0x10, rkey: 5, size: 100 });
    assert_eq!(plan.remote_mr().map(|m| m.rkey), Some(5));
}

#[test]
fn write_rx_depth_without_immediate_data_is_refused() {
    let cmd = PerfCommand::Write { mode: Mode::Bandwidth, imm_data: false, rx_depth: 256 };
    let err = Plan::from_command(cmd, common(None), vec![], false, false).unwrap_err();
    assert_eq!(err, PlanError::RxDepthWithoutImmData { mode: Mode::Bandwidth, rx_depth: 256 });
    assert_eq!(
        err.message(),
        "Error: --rx-depth can only be used with --imm-data for write operations.\n\
         Regular write operations don't use receive queues.\n\
         Use: stride-perf write bw --imm-data --rx-depth 256"
    );
    let cmd = PerfCommand::Write { mode: Mode::Bandwidth, imm_data: true, rx_depth: 256 };
    let plan = Plan::from_command(cmd, common(None), vec![], false, false).unwrap();
    assert!(plan.uses_immediate_data());
}

#[test]
fn read_plan() {
    let plan = Plan::from_command(PerfCommand::Read { mode: Mode::Bandwidth }, common(None), vec![], false, true)
        .unwrap();
    assert_eq!(plan.operation(), Operation::Read);
    assert_eq!(plan.rx_depth(), None);
    assert_eq!(plan.test_name(), "READ bw");
}

#[test]
fn output_flags() {
    let o = OutputConfig::from_flags(true, true);
    assert!(o.tui_enabled && o.trace_enabled);
    let o = OutputConfig::from_flags(true, false);
    assert!(!o.tui_enabled && o.trace_enabled);
    let o = OutputConfig::from_flags(false, false);
    assert!(o.tui_enabled && !o.trace_enabled);
    let d = OutputConfig::default();
    assert!(d.tui_enabled && !d.trace_enabled);
}

#[test]
fn valid_write_command_lines_make_plans() {
    for (mode, imm_data, rx_depth) in [
        (Mode::Bandwidth, false, 512),
        (Mode::Latency, false, 512),
        (Mode::Bandwidth, true, 64),
        (Mode::Latency, true, 512),
    ] {
        let cmd = PerfCommand::Write { mode, imm_data, rx_depth };
        let plan = Plan::from_command(cmd, common(None), vec![], false, false).unwrap();
        assert_eq!(plan.operation(), Operation::Write);
        assert_eq!(plan.is_latency(), mode == Mode::Latency);
        assert_eq!(plan.uses_immediate_data(), imm_data);
    }
}

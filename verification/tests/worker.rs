use stride::cli::plan::{CommonSettings, Mode, Operation, PerfCommand, Plan};
use stride::connection::EndpointRole;
use stride::memory::MemoryType;
use stride::runners::runner::{
    bandwidth_post_list, compute_buffer_layout, connection_timeout_micros, endpoint_role,
    latency_extremes, needs_receive_cq, post_wr_id, post_wr_index, qp_post_batch_size, record_polled_completions, shared_memory_type,
    total_bytes, uses_latency_path, work_request_kind, RunRole, WorkRequestKind,
};
use stride::runners::worker::{
    calculate_effective_depth, calculate_qp_region_offset, calculate_send_slot_offset,
    compute_qp_slot_count, max_msg_size, Worker, WorkerContext, WorkerResult,
};
use stride::utils::mtu::Mtu;

pub fn plan(iters: u32, sizes: Vec<u32>) -> Plan {
    let common = CommonSettings {
        device: None,
        gid_index: None,
        iters,
        msg_size: 4096,
        qp_timeout: 14,
        port: 18515,
        server_address: Some("10.0.0.2".to_string()),
        qp_count: 2,
        bidirectional: false,
        all_sizes: !sizes.is_empty(),
        tx_depth: 4,
        post_list: 2,
        cqe_poll: 16,
        use_hugepages: false,
        mtu: Mtu::Mtu4096,
    };
    let cmd = PerfCommand::Send { mode: Mode::Bandwidth, rx_depth: 8, imm_data: false, use_flow_control: false };
    Plan::from_command(cmd, common, sizes, false, true).unwrap()
}

fn context(qp_count: usize) -> (Worker, WorkerContext) {
    let worker = Worker::new_with_shared_memory(7, 0x1_0000, 4096, 0, plan(100, vec![]), 0, 4, Some(8));
    let mut ctx = WorkerContext::new(&worker, 100, qp_count);
    for _ in 0..qp_count {
        ctx.add_queue_pair(&worker);
    }
    (worker, ctx)
}

#[test]
fn region_and_slot_offsets() {
    assert_eq!(calculate_qp_region_offset(0, 4096, 0), 0);
    assert_eq!(calculate_qp_region_offset(100, 4096, 3), 100 + 3 * 8192);
    assert_eq!(compute_qp_slot_count(4096), 64);
    assert_eq!(compute_qp_slot_count(64), 1);
    assert_eq!(compute_qp_slot_count(10), 1);
    assert_eq!(compute_qp_slot_count(1 << 20), 64);
    assert_eq!(calculate_send_slot_offset(4096, 5), 320);
    assert_eq!(calculate_send_slot_offset(4096, 69), 320);
    assert_eq!(calculate_send_slot_offset(128, 3), 64);
}

#[test]
fn effective_depths_and_max_size() {
    assert_eq!(calculate_effective_depth(128, 1000), 128);
    assert_eq!(calculate_effective_depth(128, 10), 10);
    assert_eq!(calculate_effective_depth(0, 10), 1);
    assert_eq!(max_msg_size(&vec![2, 65536, 4]), 65536);
    assert_eq!(max_msg_size(&vec![]), 65536);
}

#[test]
fn worker_addresses() {
    let (worker, ctx) = context(2);
    assert_eq!(worker.tx_depth, 4);
    assert_eq!(worker.rx_depth, Some(8));
    assert_eq!(worker.lkey(), 7);
    assert_eq!(worker.calculate_qp_base_addr(1), 0x1_0000 + 8192);
    assert_eq!(worker.calculate_operation_addr(1, 2), 0x1_0000 + 8192 + 128);
    assert_eq!(ctx.queue_pair_count(), 2);
    assert_eq!(ctx.get_local_addr(1, 2), 0x1_0000 + 8192 + 128);
    assert_eq!(ctx.get_remote_addr(1, 2), 8192 + 128);
}

#[test]
fn worker_context_counts() {
    let (_worker, mut ctx) = context(2);
    assert_eq!(ctx.total_requests, 200);
    assert!(!ctx.is_complete());
    assert!(ctx.can_qp_post_request(0, 4));
    ctx.record_qp_requests_posted(0, 4);
    assert!(!ctx.can_qp_post_request(0, 4));
    assert_eq!(qp_post_batch_size(&ctx, 0, 4, 2), 0);
    assert_eq!(qp_post_batch_size(&ctx, 1, 4, 2), 2);
    assert_eq!(qp_post_batch_size(&ctx, 1, 4, 9), 4);
    ctx.record_qp_requests_completed(0, 3);
    assert_eq!(ctx.completed_requests, 3);
    assert_eq!(ctx.inflight_requests, 1);
    assert_eq!(bandwidth_post_list(&ctx, 16), 16);
    assert_eq!(bandwidth_post_list(&ctx, 500), 196);
}

#[test]
fn polled_completions_are_dealt_in_turn() {
    let (_worker, mut ctx) = context(2);
    record_polled_completions(&mut ctx, 5);
    assert_eq!(ctx.qp_completion_counts, vec![3, 2]);
    assert_eq!(ctx.completed_requests, 5);
    record_polled_completions(&mut ctx, 0);
    assert_eq!(ctx.completed_requests, 5);
    let (_w, mut three) = context(3);
    record_polled_completions(&mut three, 7);
    assert_eq!(three.qp_completion_counts, vec![3, 2, 2]);
}

#[test]
fn buffer_layouts() {
    let l = compute_buffer_layout(100, 2);
    assert_eq!((l.buff_size, l.increment_size, l.total_buffer_size), (4096, 4096, 16384));
    let l = compute_buffer_layout(5000, 1);
    assert_eq!((l.buff_size, l.increment_size, l.total_buffer_size), (5000, 5056, 10112));
    assert!(matches!(shared_memory_type(true, 1024), MemoryType::Hugepages(c) if c.config.size == 1024));
    assert!(matches!(shared_memory_type(false, 64), MemoryType::Aligned(c) if c.alignment == 64));
}

#[test]
fn run_roles() {
    let client = RunRole { server: false, bidirectional: false };
    let server = RunRole { server: true, bidirectional: false };
    assert!(client.generates_traffic() && client.sends_results() && !client.awaits_peer_results());
    assert!(!server.generates_traffic() && !server.sends_results() && server.awaits_peer_results());
    let both = RunRole { server: true, bidirectional: true };
    assert!(both.generates_traffic() && !both.sends_results() && !both.awaits_peer_results());
    assert!(both.syncs_before_close() && !client.syncs_before_close());
    assert_eq!(endpoint_role(true), EndpointRole::Server);
    assert_eq!(endpoint_role(false), EndpointRole::Client);
}

#[test]
fn measurements() {
    assert_eq!(latency_extremes(&[5, 3, 9]), (3, 9));
    assert_eq!(latency_extremes(&[]), (0, 0));
    assert_eq!(latency_extremes(&[4]), (4, 4));
    assert_eq!(total_bytes(65536, 1000), 65_536_000);
    assert_eq!(total_bytes(u32::MAX, u32::MAX), (u32::MAX as u64) * (u32::MAX as u64));
    assert_eq!(connection_timeout_micros(14), 65536);
    assert_eq!(connection_timeout_micros(0), 4);
    assert!(uses_latency_path(true, 1));
    assert!(!uses_latency_path(true, 2));
    assert!(!uses_latency_path(false, 1));
}

#[test]
fn empty_worker_result() {
    let r = WorkerResult::new(3, 100);
    assert_eq!(r.thread_id, 3);
    assert_eq!(r.total_requests, 100);
    assert_eq!(r.completed_requests, 0);
    assert!(r.latency_samples.is_empty());
}

#[test]
fn work_request_ids_and_kinds() {
    let id = post_wr_id(3, 0x1234);
    assert_eq!(id, (3u64 << 32) | 0x1234);
    assert_eq!(post_wr_index(id), 0x1234);
    assert_eq!(post_wr_index(post_wr_id(7, u32::MAX)), u32::MAX as u64);
    assert_eq!(work_request_kind(Operation::Write), WorkRequestKind::Write);
    assert_eq!(work_request_kind(Operation::Read), WorkRequestKind::Read);
    assert_eq!(work_request_kind(Operation::Send), WorkRequestKind::Send);
    assert!(needs_receive_cq(Operation::Send));
    assert!(!needs_receive_cq(Operation::Write));
    assert!(!needs_receive_cq(Operation::Read));
}

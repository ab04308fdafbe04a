use stride::cli::plan::{CommonSettings, Mode, PerfCommand, Plan};
use stride::operations::send::{
    is_send_completion, latency_completions_needed, latency_round_completions,
    latency_timeout_message, latency_wait_done, plan_send_round, process_recv_completions,
    process_send_completions, recv_completion_qp, recv_wr_id, send_completion_qp, send_wr_id,
    SendFlowControl, SendOperationExecutor,
};
use stride::runners::worker::{Worker, WorkerContext};
use stride::utils::mtu::Mtu;

fn plan() -> Plan {
    let common = CommonSettings {
        device: None,
        gid_index: None,
        iters: 100,
        msg_size: 64,
        qp_timeout: 14,
        port: 18515,
        server_address: None,
        qp_count: 2,
        bidirectional: false,
        all_sizes: false,
        tx_depth: 4,
        post_list: 2,
        cqe_poll: 16,
        use_hugepages: false,
        mtu: Mtu::Mtu1024,
    };
    let cmd = PerfCommand::Send { mode: Mode::Bandwidth, rx_depth: 8, imm_data: false, use_flow_control: true };
    Plan::from_command(cmd, common, vec![], false, true).unwrap()
}

fn context() -> WorkerContext {
    let worker = Worker::new_with_shared_memory(1, 0x1_0000, 4096, 0, plan(), 0, 4, Some(8));
    let mut ctx = WorkerContext::new(&worker, 100, 2);
    ctx.add_queue_pair(&worker);
    ctx.add_queue_pair(&worker);
    ctx
}

#[test]
fn flow_control_credits() {
    let mut fc = SendFlowControl::new(2, 8, 100, 200, vec![64]);
    assert_eq!(fc.available_send_credits(0), 8);
    assert!(fc.can_send(1));
    fc.consume_send_credits(1, 8);
    assert!(!fc.can_send(1));
    fc.restore_send_credits(1, 3);
    assert_eq!(fc.available_send_credits(1), 3);
    assert!(fc.needs_recv_buffers(0));
    fc.post_recv_credits(0, 8);
    assert!(!fc.needs_recv_buffers(0));
    fc.consume_recv_credits(0, 10);
    assert_eq!(fc.recv_credits[0], 0);
    fc.reset();
    assert_eq!(fc.available_send_credits(1), 8);
    assert_eq!(fc.posted_recv_per_qp, vec![0, 0]);
}

#[test]
fn receive_depth_is_capped_by_iterations() {
    let fc = SendFlowControl::new(1, 512, 10, 10, vec![64]);
    assert_eq!(fc.rx_depth, 10);
    assert_eq!(fc.available_send_credits(0), 10);
}

#[test]
fn posting_for_a_new_message_size_restarts_the_count() {
    let mut fc = SendFlowControl::new(1, 8, 100, 100, vec![64, 128]);
    fc.post_recv_credits_for_msg_size(0, 5, 64);
    assert_eq!(fc.recv_credits[0], 5);
    assert!(fc.needs_recv_buffers_for_msg_size(0, 64));
    assert!(fc.needs_recv_buffers_for_msg_size(0, 128));
    fc.post_recv_credits_for_msg_size(0, 3, 128);
    assert_eq!(fc.recv_credits[0], 3);
    assert_eq!(fc.posted_recv_per_qp[0], 8);
    assert_eq!(fc.qp_recv_msg_size[0], 128);
}

#[test]
fn send_batches_follow_credits() {
    let mut exec = SendOperationExecutor::new(2, 8, 100, 200, vec![64], false);
    assert_eq!(exec.send_batch_size(0, 16), 8);
    assert_eq!(exec.send_batch_size(0, 4), 4);
    exec.record_send_posted(0, 8);
    assert_eq!(exec.send_batch_size(0, 4), 0);
    let mut ctx = context();
    assert_eq!(process_send_completions(&mut ctx, &mut exec, &[0, 0, 1]), 3);
    assert_eq!(exec.send_batch_size(0, 16), 2);
    assert_eq!(exec.flow_control().send_credits, vec![2, 9]);
    assert_eq!(ctx.completed_requests, 3);
    assert_eq!(ctx.qp_completion_counts, vec![2, 1]);
}

#[test]
fn receive_completions_use_buffers() {
    let mut exec = SendOperationExecutor::new(2, 8, 100, 200, vec![64], false);
    exec.record_recv_posted(1, 4, 64);
    let mut ctx = context();
    assert_eq!(process_recv_completions(&mut ctx, &mut exec, &[1, 1, 0], false), 3);
    assert_eq!(exec.flow_control().recv_credits, vec![0, 2]);
    assert_eq!(ctx.completed_requests, 0);
    assert_eq!(process_recv_completions(&mut ctx, &mut exec, &[1], true), 1);
    assert_eq!(ctx.completed_requests, 1);
    assert_eq!(ctx.qp_completion_counts, vec![0, 1]);
}

#[test]
fn receive_batches() {
    let mut exec = SendOperationExecutor::new(2, 8, 100, 200, vec![64], false);
    assert_eq!(exec.receive_batch_size(0, 64, 100, 1, 0), 8);
    assert_eq!(exec.receive_batch_size(0, 64, 100, 1, 95), 5);
    exec.record_recv_posted(0, 8, 64);
    assert_eq!(exec.receive_batch_size(0, 64, 100, 1, 0), 0);
    assert_eq!(exec.recv_buffer_offset(0, 2), 10);
    assert!(exec.should_reload_receive_buffers(2, 9));
    assert!(!exec.should_reload_receive_buffers(1, 8));
    assert!(!exec.should_reload_receive_buffers(2, 0));
    assert!(exec.any_needs_recv_buffers(2, 64));
    assert!(!exec.any_needs_recv_buffers(1, 64));
    exec.reset_for_new_message_size();
    assert_eq!(exec.flow_control().recv_credits, vec![0, 0]);
}

#[test]
fn work_request_ids() {
    let id = send_wr_id(3, 5, 0x1_0007);
    assert_eq!(id, (3u64 << 32) | (5 << 16) | 7);
    assert_eq!(send_completion_qp(id), 5);
    assert!(is_send_completion(id));
    assert!(!is_send_completion(send_wr_id(0, 1, 0x8000)));
    let r = recv_wr_id(9, 42);
    assert_eq!(r, (9u64 << 32) | 42);
    assert_eq!(recv_completion_qp(r), 9);
}

#[test]
fn bandwidth_rounds() {
    let p = plan_send_round(10, true, false, true, 100, 40, 16);
    assert!(p.check_receive_buffers);
    assert_eq!(p.post_list_size, 0);
    let p = plan_send_round(5, false, false, true, 100, 95, 16);
    assert!(!p.check_receive_buffers);
    assert_eq!(p.post_list_size, 5);
    let p = plan_send_round(20, true, true, true, 100, 0, 16);
    assert!(p.check_receive_buffers);
    assert_eq!(p.post_list_size, 16);
    let p = plan_send_round(1, false, false, false, 100, 0, 16);
    assert_eq!(p.post_list_size, 0);
}

#[test]
fn latency_bookkeeping() {
    assert_eq!(latency_completions_needed(true, 10), 20);
    assert_eq!(latency_completions_needed(false, 10), 10);
    assert_eq!(latency_round_completions(true), 2);
    assert_eq!(latency_round_completions(false), 1);
    assert!(latency_wait_done(false, true, false));
    assert!(!latency_wait_done(true, true, false));
    assert!(latency_wait_done(true, true, true));
    assert_eq!(
        latency_timeout_message(true, false, true),
        "Timeout waiting for completions. Send: true, Recv: false (required)"
    );
    assert_eq!(
        latency_timeout_message(false, false, false),
        "Timeout waiting for completions. Send: false, Recv: false (not required)"
    );
}

#[test]
fn send_post_count_respects_depth_and_credits() {
    let mut exec = SendOperationExecutor::new(2, 8, 100, 200, vec![64], false);
    let mut ctx = context();
    assert_eq!(exec.send_post_count(&ctx, 0, 4, 16), 8);
    assert_eq!(exec.send_post_count(&ctx, 0, 4, 2), 2);
    ctx.record_qp_requests_posted(0, 4);
    assert_eq!(exec.send_post_count(&ctx, 0, 4, 16), 0);
    assert_eq!(exec.send_post_count(&ctx, 1, 4, 16), 8);
    exec.record_send_posted(1, 8);
    assert_eq!(exec.send_post_count(&ctx, 1, 4, 16), 0);
}

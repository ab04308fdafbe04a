use vstd::prelude::*;
use vstd::arithmetic::power2::pow2;
use crate::cli::plan::Operation;
use crate::connection::types::EndpointRole;
use crate::memory::allocator::{AlignedConfig, HugepageConfig, MemoryType};
use crate::runners::worker::{sat_sub, WorkerContext};

verus! {

/// Smallest buffer per queue pair half (perftest's cycle buffer).
pub const CYCLE_BUFFER_SIZE: usize = 4096;

/// Alignment of queue pair halves.
pub const CACHE_LINE_SIZE: usize = 64;

/// Shared buffer layout of a run: every queue pair gets a send and a
/// receive half of `increment_size` bytes.
#[derive(Debug, Clone, Copy)]
pub struct BufferLayout {
    /// Bytes a half must hold: the largest message, at least the cycle buffer.
    pub buff_size: usize,
    /// `buff_size` rounded up to a whole number of cache lines.
    pub increment_size: usize,
    /// Bytes of the whole shared buffer.
    pub total_buffer_size: usize,
}

pub open spec fn round_up_to_cache_line(n: int) -> int {
    ((n + 63) / 64) * 64
}

/// Lays out the shared buffer of `qp_count` queue pairs for messages of up
/// to `max_msg_size` bytes (perftest's BUFF_SIZE and INC).
pub fn compute_buffer_layout(max_msg_size: u32, qp_count: usize) -> (r: BufferLayout)
    requires
        max_msg_size + 63 <= usize::MAX,
        round_up_to_cache_line(if max_msg_size < 4096 { 4096 } else { max_msg_size as int }) * 2 <= usize::MAX,
        round_up_to_cache_line(if max_msg_size < 4096 { 4096 } else { max_msg_size as int }) * 2 * qp_count
            <= usize::MAX,
    ensures
        r.buff_size == if max_msg_size < 4096 { 4096 } else { max_msg_size as int },
        r.increment_size == round_up_to_cache_line(r.buff_size as int),
        r.total_buffer_size == r.increment_size * 2 * qp_count,
        r.increment_size % 64 == 0,
        r.buff_size <= r.increment_size < r.buff_size + 64,
        max_msg_size <= r.buff_size,
{
    let buff_size: usize = if max_msg_size < CYCLE_BUFFER_SIZE as u32 { CYCLE_BUFFER_SIZE } else { max_msg_size as usize };
    let increment_size: usize = if buff_size > CACHE_LINE_SIZE {
        let x = buff_size + 63;
        proof {
            assert(x & !63usize == (x / 64) * 64) by (bit_vector);
        }
        x & !(CACHE_LINE_SIZE - 1)
    } else {
        CACHE_LINE_SIZE
    };
    proof {
        let b = buff_size as int;
        assert(((b + 63) / 64) * 64 <= b + 63) by (nonlinear_arith) requires b >= 0;
        assert(((b + 63) / 64) * 64 >= b) by (nonlinear_arith) requires b >= 0;
        assert((((b + 63) / 64) * 64) % 64 == 0) by (nonlinear_arith) requires b >= 0;
        assert(increment_size * 2 * qp_count <= usize::MAX);
    }
    let total_buffer_size = increment_size * 2 * qp_count;
    BufferLayout { buff_size, increment_size, total_buffer_size }
}

/// Requests queue pair `qp_idx` may post now out of a post list of
/// `post_list`: none when it has `tx_depth` in flight, else at most its free
/// send queue slots.
pub fn qp_post_batch_size(ctx: &WorkerContext, qp_idx: usize, tx_depth: u32, post_list: usize) -> (r: usize)
    requires
        qp_idx < ctx.qp_send_counts.len(),
        qp_idx < ctx.qp_completion_counts.len(),
        ctx.qp_completion_counts@[qp_idx as int] <= ctx.qp_send_counts@[qp_idx as int],
    ensures
        ({
            let inflight = ctx.qp_send_counts@[qp_idx as int] - ctx.qp_completion_counts@[qp_idx as int];
            r == if inflight >= tx_depth {
                0
            } else if post_list < tx_depth - inflight {
                post_list as int
            } else {
                tx_depth - inflight
            }
        }),
{
    if !ctx.can_qp_post_request(qp_idx, tx_depth) {
        return 0;
    }
    let qp_inflight = ctx.qp_send_counts[qp_idx] - ctx.qp_completion_counts[qp_idx];
    let qp_available_slots = tx_depth - qp_inflight;
    if post_list < qp_available_slots as usize { post_list } else { qp_available_slots as usize }
}

/// Post list of a bandwidth round: the configured post list, but no more
/// than the requests neither completed nor in flight.
pub fn bandwidth_post_list(ctx: &WorkerContext, post_list: u32) -> (r: usize)
    requires
        ctx.completed_requests + ctx.inflight_requests <= ctx.total_requests,
    ensures
        r == if post_list < ctx.total_requests - ctx.completed_requests - ctx.inflight_requests {
            post_list as int
        } else {
            ctx.total_requests - ctx.completed_requests - ctx.inflight_requests
        },
{
    let left = ctx.total_requests - ctx.completed_requests - ctx.inflight_requests;
    (if post_list < left { post_list } else { left }) as usize
}

/// Queue pairs never overlap: the region of queue pair `i` ends where the
/// region of queue pair `i + 1` starts, and all regions of a layout lie in
/// its total buffer.
pub proof fn lemma_regions_disjoint(layout: BufferLayout, qp_count: usize, i: int, j: int)
    requires
        layout.total_buffer_size == layout.increment_size * 2 * qp_count,
        0 <= i < j < qp_count,
    ensures
        i * layout.increment_size * 2 + layout.increment_size * 2 <= j * layout.increment_size * 2,
        j * layout.increment_size * 2 + layout.increment_size * 2 <= layout.total_buffer_size,
{
    let s = layout.increment_size * 2;
    assert(s >= 0);
    assert(i * s + s <= j * s) by (nonlinear_arith) requires i + 1 <= j, s >= 0;
    assert(j * s + s <= qp_count * s) by (nonlinear_arith) requires j + 1 <= qp_count, s >= 0;
    assert(i * layout.increment_size * 2 == i * s) by (nonlinear_arith)
        requires s == layout.increment_size * 2;
    assert(j * layout.increment_size * 2 == j * s) by (nonlinear_arith)
        requires s == layout.increment_size * 2;
    assert(layout.increment_size * 2 * qp_count == qp_count * s) by (nonlinear_arith)
        requires s == layout.increment_size * 2;
}

/// The shared buffer of a run: huge page memory when asked for, else
/// memory aligned to cache lines.
pub fn shared_memory_type(hugepages: bool, total_buffer_size: usize) -> (r: MemoryType)
    ensures
        hugepages ==> (r matches MemoryType::Hugepages(c) && c.config.size == total_buffer_size
            && c.config.numa_node is None && c.page_size_mb is None),
        !hugepages ==> (r matches MemoryType::Aligned(c) && c.config.size == total_buffer_size
            && c.config.numa_node is None && c.alignment == CACHE_LINE_SIZE),
{
    if hugepages {
        MemoryType::Hugepages(HugepageConfig::new(total_buffer_size))
    } else {
        MemoryType::Aligned(AlignedConfig::new(total_buffer_size, CACHE_LINE_SIZE))
    }
}

/// What an end does in a run, from whether it is the server and whether
/// traffic goes both ways.
#[derive(Debug, Clone, Copy, PartialEq, Eq, Structural)]
pub struct RunRole {
    pub server: bool,
    pub bidirectional: bool,
}

impl RunRole {
    pub open spec fn spec_generates_traffic(self) -> bool {
        self.bidirectional || !self.server
    }

    pub open spec fn spec_awaits_peer_results(self) -> bool {
        self.server && !self.bidirectional
    }

    pub open spec fn spec_sends_results(self) -> bool {
        !self.server && !self.bidirectional
    }

    /// Whether this end posts operations: both ends do both ways, else
    /// only the client.
    pub fn generates_traffic(&self) -> (r: bool)
        ensures
            r == self.spec_generates_traffic(),
    {
        self.bidirectional || !self.server
    }

    /// Whether this end shows the results its peer sends: the server of a
    /// one-way run.
    pub fn awaits_peer_results(&self) -> (r: bool)
        ensures
            r == self.spec_awaits_peer_results(),
    {
        self.server && !self.bidirectional
    }

    /// Whether this end sends its results to the peer: the client of a
    /// one-way run.
    pub fn sends_results(&self) -> (r: bool)
        ensures
            r == self.spec_sends_results(),
    {
        !self.server && !self.bidirectional
    }

    /// Whether the ends meet once more before closing: in two-way runs.
    pub fn syncs_before_close(&self) -> (r: bool)
        ensures
            r == self.bidirectional,
    {
        self.bidirectional
    }
}

/// In a one-way run the client sends its results and the server waits for
/// them; an end shows results it measured or results it received, never
/// both; in a two-way run no results travel.
pub proof fn lemma_results_flow_to_server(client: RunRole, server: RunRole)
    requires
        !client.server,
        server.server,
        client.bidirectional == server.bidirectional,
    ensures
        client.spec_sends_results() == server.spec_awaits_peer_results(),
        client.spec_generates_traffic(),
        server.spec_awaits_peer_results() == !server.spec_generates_traffic(),
        client.bidirectional ==> !client.spec_sends_results() && !server.spec_awaits_peer_results(),
{
}

/// Work request id of a posted operation: the thread id in the high 32
/// bits over the operation's index.
pub open spec fn spec_post_wr_id(thread_id: usize, global_op_index: u32) -> u64 {
    ((thread_id as u64) << 32u64) | (global_op_index as u64)
}

pub fn post_wr_id(thread_id: usize, global_op_index: u32) -> (r: u64)
    ensures
        r == spec_post_wr_id(thread_id, global_op_index),
{
    ((thread_id as u64) << 32u64) | (global_op_index as u64)
}

/// The operation index a work request id carries (its low 32 bits), as
/// failed completions report it.
pub fn post_wr_index(wr_id: u64) -> (r: u64)
    ensures
        r == wr_id & 0xFFFF_FFFFu64,
        r <= u32::MAX,
{
    assert(wr_id & 0xFFFF_FFFFu64 <= 0xFFFF_FFFFu64) by (bit_vector);
    wr_id & 0xFFFF_FFFFu64
}

/// The operation index packed into a work request id is read back.
pub proof fn lemma_post_wr_id_roundtrip(thread_id: usize, global_op_index: u32)
    ensures
        spec_post_wr_id(thread_id, global_op_index) & 0xFFFF_FFFFu64 == global_op_index,
{
    let t = thread_id as u64;
    assert((((t << 32u64) | (global_op_index as u64)) & 0xFFFF_FFFFu64) == global_op_index as u64) by (bit_vector);
}

/// The work request an operation posts.
#[derive(Debug, Clone, Copy, PartialEq, Eq, Structural)]
pub enum WorkRequestKind {
    Send,
    Write,
    Read,
}

/// The work request of a benchmark's operation: RDMA WRITE and READ for
/// those operations, SEND otherwise.
pub fn work_request_kind(op: Operation) -> (r: WorkRequestKind)
    ensures
        r == (match op {
            Operation::Write => WorkRequestKind::Write,
            Operation::Read => WorkRequestKind::Read,
            _ => WorkRequestKind::Send,
        }),
{
    match op {
        Operation::Write => WorkRequestKind::Write,
        Operation::Read => WorkRequestKind::Read,
        _ => WorkRequestKind::Send,
    }
}

/// Whether a benchmark's workers need a completion queue of their own for
/// receives: only SEND benchmarks receive.
pub fn needs_receive_cq(op: Operation) -> (r: bool)
    ensures
        r == (op == Operation::Send),
{
    match op {
        Operation::Send => true,
        _ => false,
    }
}

/// The connection role of an end: the server listens, the client connects.
pub fn endpoint_role(server: bool) -> (r: EndpointRole)
    ensures
        r == (if server { EndpointRole::Server } else { EndpointRole::Client }),
{
    if server { EndpointRole::Server } else { EndpointRole::Client }
}

/// Timeout of the out-of-band connection for a queue pair timeout
/// exponent, in microseconds: 4.096 µs times 2^exponent, rounded to 4.
pub fn connection_timeout_micros(timeout_factor: u8) -> (r: u64)
    requires
        timeout_factor < 62,
    ensures
        r == 4 * pow2(timeout_factor as nat),
{
    proof {
        vstd::bits::lemma_u64_pow2_no_overflow(timeout_factor as nat);
        vstd::bits::lemma_u64_shl_is_mul(1, timeout_factor as u64);
        vstd::arithmetic::power2::lemma_pow2_strictly_increases(timeout_factor as nat, 62);
        vstd::arithmetic::power2::lemma2_to64();
        vstd::arithmetic::power2::lemma2_to64_rest();
    }
    4 * (1u64 << (timeout_factor as u64))
}

/// Whether a test takes the ping-pong path: a latency test with a send
/// queue depth of one.
pub fn uses_latency_path(is_latency: bool, tx_depth: u32) -> (r: bool)
    ensures
        r == (is_latency && tx_depth == 1),
{
    is_latency && tx_depth == 1
}

/// Bytes moved by `completed` messages of `msg_size` bytes.
pub fn total_bytes(msg_size: u32, completed: u32) -> (r: u64)
    ensures
        r == msg_size * completed,
{
    proof {
        assert(msg_size * completed <= u32::MAX * u32::MAX) by (nonlinear_arith);
    }
    msg_size as u64 * completed as u64
}

/// Smallest of the first `k` samples, 0 when there are none.
pub open spec fn min_sample(s: Seq<u64>, k: nat) -> u64
    decreases k,
{
    if k == 0 {
        0
    } else if k == 1 {
        s[0]
    } else {
        let m = min_sample(s, (k - 1) as nat);
        if s[k - 1] < m { s[k - 1] } else { m }
    }
}

/// Largest of the first `k` samples, 0 when there are none.
pub open spec fn max_sample(s: Seq<u64>, k: nat) -> u64
    decreases k,
{
    if k == 0 {
        0
    } else {
        let m = max_sample(s, (k - 1) as nat);
        if s[k - 1] > m { s[k - 1] } else { m }
    }
}

/// The smallest and the largest latency sample, in nanoseconds (0 for no samples).
pub fn latency_extremes(samples: &[u64]) -> (r: (u64, u64))
    ensures
        r.0 == min_sample(samples@, samples@.len()),
        r.1 == max_sample(samples@, samples@.len()),
{
    if samples.len() == 0 {
        return (0, 0);
    }
    let mut lo = samples[0];
    let mut hi = samples[0];
    assert(max_sample(samples@, 1) == samples@[0]) by {
        reveal_with_fuel(max_sample, 2);
    }
    let mut i: usize = 1;
    while i < samples.len()
        invariant
            1 <= i <= samples@.len(),
            lo == min_sample(samples@, i as nat),
            hi == max_sample(samples@, i as nat),
        decreases samples@.len() - i,
    {
        if samples[i] < lo {
            lo = samples[i];
        }
        if samples[i] > hi {
            hi = samples[i];
        }
        i = i + 1;
    }
    (lo, hi)
}

/// The smallest sample is one of the samples and no sample is below it;
/// likewise the largest.
pub proof fn lemma_latency_extremes_bound(s: Seq<u64>, k: nat, i: int)
    requires
        k <= s.len(),
        0 <= i < k,
    ensures
        min_sample(s, k) <= s[i] <= max_sample(s, k),
    decreases k,
{
    if i < k - 1 {
        lemma_latency_extremes_bound(s, (k - 1) as nat, i);
    }
}

/// Of the first `n` completions of a poll, dealt to the queue pairs in
/// turn, those that fall to queue pair `q`.
pub open spec fn rr_count(n: nat, qp_count: nat, q: int) -> nat
    decreases n,
{
    if n == 0 {
        0
    } else {
        rr_count((n - 1) as nat, qp_count, q) + (if ((n - 1) as nat % qp_count) as int == q { 1nat } else { 0nat })
    }
}

proof fn lemma_rr_count_bound(n: nat, qp_count: nat, q: int)
    ensures
        rr_count(n, qp_count, q) <= n,
    decreases n,
{
    if n > 0 {
        lemma_rr_count_bound((n - 1) as nat, qp_count, q);
    }
}

/// The completions of one poll of a bandwidth test, `completed_count` of
/// them, dealt to the queue pairs in turn and counted on each.
pub fn record_polled_completions(ctx: &mut WorkerContext, completed_count: u32)
    requires
        old(ctx).qp_completion_counts@.len() == old(ctx).qp_send_counts@.len(),
        completed_count > 0 ==> old(ctx).qp_send_counts@.len() > 0,
        forall|q: int|
            0 <= q < old(ctx).qp_completion_counts@.len() ==> old(ctx).qp_completion_counts@[q] + rr_count(
                completed_count as nat,
                old(ctx).qp_send_counts@.len(),
                q,
            ) <= u32::MAX,
        old(ctx).completed_requests + completed_count <= u32::MAX,
    ensures
        *final(ctx) == (WorkerContext {
            qp_completion_counts: final(ctx).qp_completion_counts,
            completed_requests: (old(ctx).completed_requests + completed_count) as u32,
            inflight_requests: sat_sub(old(ctx).inflight_requests, completed_count),
            ..*old(ctx)
        }),
        final(ctx).qp_completion_counts@ == Seq::new(
            old(ctx).qp_completion_counts@.len(),
            |q: int|
                (old(ctx).qp_completion_counts@[q] + rr_count(
                    completed_count as nat,
                    old(ctx).qp_send_counts@.len(),
                    q,
                )) as u32,
        ),
{
    let qp_count = ctx.queue_pair_count();
    let ghost c0 = *ctx;
    let mut counts: Vec<u32> = Vec::new();
    let mut j: usize = 0;
    while j < qp_count
        invariant
            j <= qp_count,
            counts@ == Seq::new(j as nat, |q: int| 0u32),
        decreases qp_count - j,
    {
        counts.push(0);
        j = j + 1;
        assert(counts@ =~= Seq::new(j as nat, |q: int| 0u32));
    }
    let mut k: u32 = 0;
    while k < completed_count
        invariant
            k <= completed_count,
            completed_count > 0 ==> qp_count > 0,
            counts@.len() == qp_count,
            forall|q: int| 0 <= q < qp_count ==> #[trigger] counts@[q] == rr_count(k as nat, qp_count as nat, q),
        decreases completed_count - k,
    {
        let q = (k as usize) % qp_count;
        proof {
            lemma_rr_count_bound(k as nat, qp_count as nat, q as int);
        }
        let v = counts[q] + 1;
        counts.set(q, v);
        k = k + 1;
    }
    let mut q: usize = 0;
    let ghost mut recorded: nat = 0;
    while q < qp_count
        invariant
            q <= qp_count,
            qp_count == c0.qp_send_counts@.len(),
            c0 == *old(ctx),
            c0.qp_completion_counts@.len() == qp_count,
            counts@.len() == qp_count,
            forall|i: int| 0 <= i < qp_count ==> #[trigger] counts@[i] == rr_count(completed_count as nat, qp_count as nat, i),
            forall|i: int|
                0 <= i < qp_count ==> c0.qp_completion_counts@[i] + rr_count(completed_count as nat, qp_count as nat, i)
                    <= u32::MAX,
            c0.completed_requests + completed_count <= u32::MAX,
            recorded == rr_sum(completed_count as nat, qp_count as nat, q as nat),
            recorded <= completed_count,
            *ctx == (WorkerContext {
                qp_completion_counts: ctx.qp_completion_counts,
                completed_requests: (c0.completed_requests + recorded) as u32,
                inflight_requests: sat_sub(c0.inflight_requests, recorded as u32),
                ..c0
            }),
            ctx.qp_completion_counts@.len() == qp_count,
            forall|i: int|
                0 <= i < qp_count ==> #[trigger] ctx.qp_completion_counts@[i] == if i < q {
                    (c0.qp_completion_counts@[i] + rr_count(completed_count as nat, qp_count as nat, i)) as u32
                } else {
                    c0.qp_completion_counts@[i]
                },
        decreases qp_count - q,
    {
        proof {
            lemma_rr_sum_step(completed_count as nat, qp_count as nat, q as nat);
            lemma_rr_sum_total(completed_count as nat, qp_count as nat, (q + 1) as nat);
        }
        if counts[q] > 0 {
            ctx.record_qp_requests_completed(q, counts[q]);
        }
        proof {
            recorded = (recorded + counts@[q as int]) as nat;
        }
        q = q + 1;
    }
    proof {
        lemma_rr_sum_total(completed_count as nat, qp_count as nat, qp_count as nat);
    }
    assert(ctx.qp_completion_counts@ =~= Seq::new(
        c0.qp_completion_counts@.len(),
        |i: int| (c0.qp_completion_counts@[i] + rr_count(completed_count as nat, c0.qp_send_counts@.len(), i)) as u32,
    ));
}

/// Completions dealt to the first `k` queue pairs.
pub open spec fn rr_sum(n: nat, qp_count: nat, k: nat) -> nat
    decreases k,
{
    if k == 0 {
        0
    } else {
        rr_sum(n, qp_count, (k - 1) as nat) + rr_count(n, qp_count, k - 1)
    }
}

proof fn lemma_rr_sum_step(n: nat, qp_count: nat, k: nat)
    ensures
        rr_sum(n, qp_count, k + 1) == rr_sum(n, qp_count, k) + rr_count(n, qp_count, k as int),
{
}

/// The completions dealt to the first `k` queue pairs are at most all of
/// them, and all of them once every queue pair is counted.
pub proof fn lemma_rr_sum_total(n: nat, qp_count: nat, k: nat)
    requires
        qp_count > 0 || n == 0,
        k <= qp_count || n == 0,
    ensures
        rr_sum(n, qp_count, k) <= n,
        k == qp_count ==> rr_sum(n, qp_count, k) == n,
    decreases n,
{
    if n == 0 {
        lemma_rr_sum_zero(qp_count, k);
    } else {
        lemma_rr_sum_last(n, qp_count, k);
        lemma_rr_sum_total((n - 1) as nat, qp_count, k);
    }
}

proof fn lemma_rr_sum_zero(qp_count: nat, k: nat)
    ensures
        rr_sum(0, qp_count, k) == 0,
    decreases k,
{
    if k > 0 {
        lemma_rr_sum_zero(qp_count, (k - 1) as nat);
    }
}

/// The `n`-th completion adds one to the first `k` queue pairs' share
/// exactly when it falls to one of them.
proof fn lemma_rr_sum_last(n: nat, qp_count: nat, k: nat)
    requires
        n > 0,
        qp_count > 0,
    ensures
        rr_sum(n, qp_count, k) == rr_sum((n - 1) as nat, qp_count, k) + (if (((n - 1) as nat % qp_count)
            as int) < k { 1nat } else { 0nat }),
    decreases k,
{
    if k > 0 {
        lemma_rr_sum_last(n, qp_count, (k - 1) as nat);
        let r = ((n - 1) as nat % qp_count) as int;
        assert(rr_count(n, qp_count, k - 1) == rr_count((n - 1) as nat, qp_count, k - 1) + (if r == k - 1 {
            1nat
        } else {
            0nat
        }));
        assert(rr_sum(n, qp_count, k) == rr_sum(n, qp_count, (k - 1) as nat) + rr_count(n, qp_count, k - 1));
        assert(rr_sum((n - 1) as nat, qp_count, k) == rr_sum((n - 1) as nat, qp_count, (k - 1) as nat) + rr_count(
            (n - 1) as nat,
            qp_count,
            k - 1,
        ));
        let a = rr_sum((n - 1) as nat, qp_count, (k - 1) as nat);
        assert(rr_sum(n, qp_count, (k - 1) as nat) == a + (if r < k - 1 { 1nat } else { 0nat }));
        assert((if r < k - 1 { 1nat } else { 0nat }) + (if r == k - 1 { 1nat } else { 0nat }) == (if r < k {
            1nat
        } else {
            0nat
        }));
    } else {
        assert(rr_sum(n, qp_count, 0) == 0);
        assert(rr_sum((n - 1) as nat, qp_count, 0) == 0);
    }
}

} // verus!

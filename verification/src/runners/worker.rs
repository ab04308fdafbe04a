use vstd::prelude::*;
use crate::cli::plan::{Plan, spec_base};

verus! {

/// Cache line size used to lay out send slots inside a queue pair region.
pub const DEFAULT_CACHE_LINE_SIZE: usize = 64;

/// Each queue pair owns a send half and a receive half of its region.
pub const SEND_RECV_REGION_MULTIPLIER: usize = 2;

/// Largest number of cache-line slots a queue pair cycles through.
pub const MAX_QP_SLOTS: usize = 64;

/// Message size assumed when a plan lists none.
pub const DEFAULT_MAX_MSG_SIZE: u32 = 65536;

pub open spec fn spec_qp_region_offset(worker_offset: usize, increment_size: usize, qp_idx: usize) -> int {
    worker_offset + qp_idx * increment_size * 2
}

/// Offset of queue pair `qp_idx`'s region: each queue pair owns a send and
/// a receive half of `increment_size` bytes after the worker's offset.
pub fn calculate_qp_region_offset(worker_offset: usize, increment_size: usize, qp_idx: usize) -> (r: usize)
    requires
        spec_qp_region_offset(worker_offset, increment_size, qp_idx) <= usize::MAX,
    ensures
        r == spec_qp_region_offset(worker_offset, increment_size, qp_idx),
{
    proof {
        assert(0 <= qp_idx * increment_size) by (nonlinear_arith);
        assert(qp_idx * increment_size <= qp_idx * increment_size * 2) by (nonlinear_arith)
            requires 0 <= qp_idx * increment_size;
    }
    worker_offset + qp_idx * increment_size * SEND_RECV_REGION_MULTIPLIER
}

pub open spec fn spec_qp_slot_count(increment_size: usize) -> usize {
    let slots = increment_size / 64;
    let at_least_one = if slots >= 1 { slots } else { 1 };
    (if at_least_one <= 64 { at_least_one } else { 64 }) as usize
}

/// Cache-line slots in a queue pair's send half: one per cache line of the
/// increment, at least one and at most 64.
pub fn compute_qp_slot_count(increment_size: usize) -> (r: usize)
    ensures
        r == spec_qp_slot_count(increment_size),
        1 <= r <= MAX_QP_SLOTS,
{
    let slots = increment_size / DEFAULT_CACHE_LINE_SIZE;
    let at_least_one = if slots > 1 { slots } else { 1 };
    if at_least_one < MAX_QP_SLOTS { at_least_one } else { MAX_QP_SLOTS }
}

pub open spec fn spec_send_slot_offset(increment_size: usize, buffer_slot: usize) -> int {
    (buffer_slot % spec_qp_slot_count(increment_size)) * 64
}

/// Offset inside the send half of buffer slot `buffer_slot`: slots cycle
/// through the cache lines of the half.
pub fn calculate_send_slot_offset(increment_size: usize, buffer_slot: usize) -> (r: usize)
    ensures
        r == spec_send_slot_offset(increment_size, buffer_slot),
        r % 64 == 0,
        r < 4096,
{
    let slot_count = compute_qp_slot_count(increment_size);
    let slot_index = buffer_slot % slot_count;
    proof {
        assert(slot_index < 64);
        assert(slot_index * 64 < 4096) by (nonlinear_arith)
            requires slot_index < 64;
        assert((slot_index * 64) % 64 == 0) by (nonlinear_arith);
    }
    slot_index * DEFAULT_CACHE_LINE_SIZE
}

/// Effective queue depth: the configured depth, but never more than the
/// number of iterations and never less than one.
pub fn calculate_effective_depth(configured_depth: u32, total_iterations: u32) -> (r: u32)
    ensures
        r == spec_effective_depth(configured_depth, total_iterations),
        r >= 1,
{
    let m = if configured_depth < total_iterations { configured_depth } else { total_iterations };
    if m > 1 { m } else { 1 }
}

pub open spec fn spec_effective_depth(configured_depth: u32, total_iterations: u32) -> u32 {
    let m = if configured_depth <= total_iterations { configured_depth } else { total_iterations };
    if m >= 1 { m } else { 1 }
}

/// A slot stays inside the send half of its queue pair region and depends
/// only on the slot number modulo the slot count.
pub proof fn lemma_send_slot_within_send_half(increment_size: usize, buffer_slot: usize)
    ensures
        spec_send_slot_offset(increment_size, buffer_slot) + 64 <= (if increment_size >= 64 { increment_size as int } else { 64 }),
        spec_send_slot_offset(increment_size, buffer_slot) == spec_send_slot_offset(
            increment_size,
            (buffer_slot % spec_qp_slot_count(increment_size)) as usize,
        ),
{
    let c = spec_qp_slot_count(increment_size);
    let k = buffer_slot % c;
    assert(k < c);
    assert(k % c == k) by (nonlinear_arith) requires k < c, c > 0;
    if increment_size >= 64 {
        let slots = increment_size / 64;
        assert(slots * 64 <= increment_size) by (nonlinear_arith)
            requires slots == increment_size / 64;
        assert(c <= slots);
        assert((k + 1) * 64 <= c * 64) by (nonlinear_arith) requires k + 1 <= c;
    } else {
        assert(c == 1);
    }
}

/// Largest message size of a list, or `DEFAULT_MAX_MSG_SIZE` for an empty list.
pub open spec fn spec_max_msg_size(sizes: Seq<u32>) -> u32
    decreases sizes.len(),
{
    if sizes.len() == 0 {
        DEFAULT_MAX_MSG_SIZE
    } else if sizes.len() == 1 {
        sizes[0]
    } else {
        let m = spec_max_msg_size(sizes.drop_last());
        if sizes.last() > m { sizes.last() } else { m }
    }
}

proof fn lemma_max_msg_size_bounds(sizes: Seq<u32>)
    requires
        sizes.len() > 0,
    ensures
        forall|i: int| 0 <= i < sizes.len() ==> sizes[i] <= spec_max_msg_size(sizes),
        exists|i: int| 0 <= i < sizes.len() && sizes[i] == spec_max_msg_size(sizes),
    decreases sizes.len(),
{
    if sizes.len() > 1 {
        lemma_max_msg_size_bounds(sizes.drop_last());
        let m = spec_max_msg_size(sizes.drop_last());
        let w = choose|i: int| 0 <= i < sizes.drop_last().len() && sizes.drop_last()[i] == m;
        if sizes.last() > m {
            assert(sizes[sizes.len() - 1] == spec_max_msg_size(sizes));
        } else {
            assert(sizes[w] == spec_max_msg_size(sizes));
        }
        assert forall|i: int| 0 <= i < sizes.len() implies sizes[i] <= spec_max_msg_size(sizes) by {
            if i < sizes.len() - 1 {
                assert(sizes[i] == sizes.drop_last()[i]);
            }
        }
    } else {
        assert(sizes[0] == spec_max_msg_size(sizes));
    }
}

/// Largest message size of a list, or 65536 for an empty list.
pub fn max_msg_size(sizes: &Vec<u32>) -> (r: u32)
    ensures
        r == spec_max_msg_size(sizes@),
        sizes@.len() > 0 ==> (forall|i: int| 0 <= i < sizes@.len() ==> sizes@[i] <= r),
        sizes@.len() > 0 ==> (exists|i: int| 0 <= i < sizes@.len() && sizes@[i] == r),
{
    if sizes.len() == 0 {
        return DEFAULT_MAX_MSG_SIZE;
    }
    let mut m = sizes[0];
    let mut i: usize = 1;
    while i < sizes.len()
        invariant
            1 <= i <= sizes.len(),
            m == spec_max_msg_size(sizes@.take(i as int)),
        decreases sizes.len() - i,
    {
        let x = sizes[i];
        proof {
            assert(sizes@.take(i + 1).drop_last() =~= sizes@.take(i as int));
            assert(sizes@.take(i + 1).last() == x);
        }
        if x > m {
            m = x;
        }
        i = i + 1;
    }
    proof {
        assert(sizes@.take(sizes.len() as int) =~= sizes@);
        lemma_max_msg_size_bounds(sizes@);
    }
    m
}

/// Buffer addressing of one worker thread: where its memory starts, how
/// its queue pair regions are laid out, and its queue depths.
pub struct Worker {
    pub plan: Plan,
    pub thread_id: usize,
    pub tx_depth: u32,
    pub rx_depth: Option<u32>,
    /// Address of the start of the memory region.
    pub base_addr: u64,
    /// Size of each half of a queue pair region (cache aligned).
    pub increment_size: usize,
    /// Offset of this worker's regions within the memory region.
    pub worker_offset: usize,
    /// Local key for RDMA operations.
    pub lkey: u32,
    /// Largest message size of the plan.
    pub max_msg_size: u32,
}

pub open spec fn spec_effective_rx(rx_depth: Option<u32>, iters: u32) -> Option<u32> {
    match rx_depth {
        Some(d) => Some(spec_effective_depth(d, iters)),
        None => None,
    }
}

impl Worker {
    /// Address of the start of queue pair `qp_idx`'s region.
    pub open spec fn spec_qp_base_addr(&self, qp_idx: usize) -> int {
        self.base_addr + spec_qp_region_offset(self.worker_offset, self.increment_size, qp_idx)
    }

    /// Address of send slot `buffer_slot` of queue pair `qp_idx`.
    pub open spec fn spec_operation_addr(&self, qp_idx: usize, buffer_slot: usize) -> int {
        self.spec_qp_base_addr(qp_idx) + spec_send_slot_offset(self.increment_size, buffer_slot)
    }

    /// The region of queue pair `qp_idx` can be addressed without overflow.
    pub open spec fn qp_region_addressable(&self, qp_idx: usize) -> bool {
        &&& spec_qp_region_offset(self.worker_offset, self.increment_size, qp_idx) <= usize::MAX
        &&& self.spec_qp_base_addr(qp_idx) <= u64::MAX
    }

    /// A worker with its own memory region starting at `memory_region_addr`:
    /// 64-byte increments from offset zero. Depths are capped by the plan's
    /// iterations (and at least one).
    pub fn new(
        memory_region_addr: u64,
        lkey: u32,
        plan: Plan,
        thread_id: usize,
        tx_depth: u32,
        rx_depth: Option<u32>,
    ) -> (r: Self)
        ensures
            r.plan == plan,
            r.thread_id == thread_id,
            r.tx_depth == spec_effective_depth(tx_depth, spec_base(plan).iters),
            r.rx_depth == spec_effective_rx(rx_depth, spec_base(plan).iters),
            r.base_addr == memory_region_addr,
            r.increment_size == DEFAULT_CACHE_LINE_SIZE,
            r.worker_offset == 0,
            r.lkey == lkey,
            r.max_msg_size == spec_max_msg_size(spec_base(plan).msg_sizes@),
    {
        Self::new_with_shared_memory(lkey, memory_region_addr, DEFAULT_CACHE_LINE_SIZE, 0, plan, thread_id, tx_depth, rx_depth)
    }

    /// A worker sharing a memory region (perftest style): its regions start
    /// at `worker_offset` from `base_addr`, in halves of `increment_size`.
    /// Depths are capped by the plan's iterations (and at least one).
    pub fn new_with_shared_memory(
        lkey: u32,
        base_addr: u64,
        increment_size: usize,
        worker_offset: usize,
        plan: Plan,
        thread_id: usize,
        tx_depth: u32,
        rx_depth: Option<u32>,
    ) -> (r: Self)
        ensures
            r.plan == plan,
            r.thread_id == thread_id,
            r.tx_depth == spec_effective_depth(tx_depth, spec_base(plan).iters),
            r.rx_depth == spec_effective_rx(rx_depth, spec_base(plan).iters),
            r.base_addr == base_addr,
            r.increment_size == increment_size,
            r.worker_offset == worker_offset,
            r.lkey == lkey,
            r.max_msg_size == spec_max_msg_size(spec_base(plan).msg_sizes@),
    {
        let total_iterations = plan.base().iters;
        let effective_tx_depth = calculate_effective_depth(tx_depth, total_iterations);
        let effective_rx_depth = match rx_depth {
            Some(depth) => Some(calculate_effective_depth(depth, total_iterations)),
            None => None,
        };
        let max_msg = max_msg_size(&plan.base().msg_sizes);
        Worker {
            plan,
            thread_id,
            tx_depth: effective_tx_depth,
            rx_depth: effective_rx_depth,
            base_addr,
            increment_size,
            worker_offset,
            lkey,
            max_msg_size: max_msg,
        }
    }

    /// Address of the start of queue pair `qp_idx`'s region.
    pub fn calculate_qp_base_addr(&self, qp_idx: usize) -> (r: u64)
        requires
            self.qp_region_addressable(qp_idx),
        ensures
            r == self.spec_qp_base_addr(qp_idx),
    {
        let qp_offset = calculate_qp_region_offset(self.worker_offset, self.increment_size, qp_idx);
        self.base_addr + qp_offset as u64
    }

    /// Address of send slot `buffer_slot` of queue pair `qp_idx`.
    pub fn calculate_operation_addr(&self, qp_idx: usize, buffer_slot: usize) -> (r: u64)
        requires
            self.qp_region_addressable(qp_idx),
            self.spec_operation_addr(qp_idx, buffer_slot) <= u64::MAX,
        ensures
            r == self.spec_operation_addr(qp_idx, buffer_slot),
    {
        let base_addr = self.calculate_qp_base_addr(qp_idx);
        let offset = calculate_send_slot_offset(self.increment_size, buffer_slot);
        base_addr + offset as u64
    }

    /// Address for operation `operation_index` of a message of `msg_size`
    /// bytes: the plain slot address for full-size (or empty) messages;
    /// smaller messages use up to 16 slots strided by their size in cache
    /// lines, never past the last cache line of the send half.
    pub fn calculate_message_size_addr(&self, qp_idx: usize, operation_index: u32, msg_size: u32, max_msg_size: u32) -> (r: u64)
        requires
            self.qp_region_addressable(qp_idx),
            self.spec_operation_addr(qp_idx, operation_index as usize) <= u64::MAX,
            0 < msg_size < max_msg_size ==> self.spec_qp_base_addr(qp_idx)
                + spec_message_size_offset(self.increment_size, operation_index, msg_size) <= u64::MAX,
            0 < msg_size < max_msg_size ==> spec_qp_region_offset(self.worker_offset, self.increment_size, qp_idx)
                + spec_message_size_offset(self.increment_size, operation_index, msg_size) <= usize::MAX,
        ensures
            r == if 0 < msg_size < max_msg_size {
                self.spec_qp_base_addr(qp_idx) + spec_message_size_offset(self.increment_size, operation_index, msg_size)
            } else {
                self.spec_operation_addr(qp_idx, operation_index as usize)
            },
    {
        let base_addr = self.calculate_operation_addr(qp_idx, operation_index as usize);
        if msg_size < max_msg_size && msg_size > 0 {
            let sc = compute_qp_slot_count(self.increment_size);
            let slot_count = if sc < 16 { sc } else { 16 };
            let slot_index = operation_index as usize % slot_count;
            let lines = (msg_size as u64 + 63) / 64;
            let slots_per_message: u64 = if lines > 1 { lines } else { 1 };
            proof {
                assert(slot_index < 16);
                assert(slots_per_message <= 0x4000000);
                assert(slot_index * slots_per_message * 64 <= 16 * 0x4000000 * 64) by (nonlinear_arith)
                    requires slot_index < 16, slots_per_message <= 0x4000000;
            }
            let mut offset: u64 = slot_index as u64 * slots_per_message * 64;
            let qp_offset = calculate_qp_region_offset(self.worker_offset, self.increment_size, qp_idx);
            let max_send_offset = self.increment_size.saturating_sub(DEFAULT_CACHE_LINE_SIZE);
            if offset > max_send_offset as u64 {
                offset = max_send_offset as u64;
            }
            self.base_addr + (qp_offset + offset as usize) as u64
        } else {
            base_addr
        }
    }

    /// The local key for RDMA operations.
    pub fn lkey(&self) -> (r: u32)
        ensures
            r == self.lkey,
    {
        self.lkey
    }

    /// Cache line slots of a queue pair's send half.
    pub fn qp_slot_count(&self) -> (r: usize)
        ensures
            r == spec_qp_slot_count(self.increment_size),
    {
        compute_qp_slot_count(self.increment_size)
    }
}

/// Offset inside the send half used for a smaller-than-maximum message.
pub open spec fn spec_message_size_offset(increment_size: usize, operation_index: u32, msg_size: u32) -> int {
    let sc = spec_qp_slot_count(increment_size);
    let slot_count = if sc < 16 { sc } else { 16 };
    let slot_index = (operation_index as int) % (slot_count as int);
    let lines = (msg_size + 63) / 64;
    let slots_per_message = if lines > 1 { lines } else { 1 };
    let offset = slot_index * slots_per_message * 64;
    let max_send_offset = if increment_size >= 64 { increment_size - 64 } else { 0 };
    if offset > max_send_offset { max_send_offset } else { offset }
}


/// The address of a smaller-than-maximum message never leaves the send half
/// of its queue pair region: it lies at least a cache line before the
/// region's middle (at the region's start when the half is smaller than a
/// cache line). When the message's strided slot fits there it is used as
/// it is: slot `operation_index` modulo the usable slots (at most 16), each
/// as many cache lines wide as the message needs.
pub proof fn lemma_message_size_offset_in_send_half(increment_size: usize, operation_index: u32, msg_size: u32)
    ensures
        0 <= spec_message_size_offset(increment_size, operation_index, msg_size),
        spec_message_size_offset(increment_size, operation_index, msg_size) + 64 <= (if increment_size >= 64 {
            increment_size as int
        } else {
            64
        }),
        ({
            let slots = if spec_qp_slot_count(increment_size) < 16 { spec_qp_slot_count(increment_size) as int } else { 16 };
            let width = if msg_size <= 64 { 64 } else { ((msg_size + 63) / 64) * 64 };
            let strided = (operation_index as int % slots) * width;
            strided + 64 <= increment_size ==> spec_message_size_offset(increment_size, operation_index, msg_size)
                == strided
        }),
{
    let sc = spec_qp_slot_count(increment_size);
    let slot_count: int = if sc < 16 { sc as int } else { 16 };
    assert(slot_count > 0);
    let k = (operation_index as int) % slot_count;
    assert(0 <= k) by (nonlinear_arith) requires slot_count > 0, k == (operation_index as int) % slot_count;
    let lines = (msg_size + 63) / 64;
    let spm: int = if lines > 1 { lines as int } else { 1 };
    assert(k * spm * 64 >= 0) by (nonlinear_arith) requires k >= 0, spm >= 1;
    if msg_size <= 64 {
        assert(lines <= 1);
    } else {
        assert(lines > 1);
    }
    assert(k * spm * 64 == k * (spm * 64)) by (nonlinear_arith);
}

/// Request bookkeeping of a worker: per-queue-pair send and completion
/// counts (perftest's scnt/ccnt), global progress, and the precomputed
/// local and remote buffer addresses of every (queue pair, operation slot),
/// flattened as `qp_idx * tx_depth + operation_index`.
pub struct WorkerContext {
    pub qp_buffer_addrs: Vec<u64>,
    pub qp_remote_addrs: Vec<u64>,
    pub tx_depth: u32,
    /// In-flight requests allowed over all queue pairs (tx_depth per queue pair).
    pub max_inflight_requests: u32,
    pub qp_send_counts: Vec<u32>,
    pub qp_completion_counts: Vec<u32>,
    pub total_requests: u32,
    pub completed_requests: u32,
    pub inflight_requests: u32,
    pub iterations: u32,
    pub round: u32,
}

pub open spec fn saturating_mul_u32(a: u32, b: u32) -> u32 {
    if a * b <= u32::MAX { (a * b) as u32 } else { u32::MAX }
}

pub open spec fn sat_sub(a: u32, b: u32) -> u32 {
    if a >= b { (a - b) as u32 } else { 0 }
}

impl WorkerContext {
    /// Queue pairs registered so far.
    pub open spec fn spec_qp_count(&self) -> nat {
        self.qp_send_counts@.len()
    }

    /// Bookkeeping for `qp_count` queue pairs of `iterations` requests each
    /// (queue pairs are then registered with `add_queue_pair`).
    pub fn new(worker: &Worker, iterations: u32, qp_count: usize) -> (r: Self)
        requires
            iterations * (qp_count as u32) <= u32::MAX,
        ensures
            r.qp_buffer_addrs@.len() == 0,
            r.qp_remote_addrs@.len() == 0,
            r.qp_send_counts@.len() == 0,
            r.qp_completion_counts@.len() == 0,
            r.tx_depth == worker.tx_depth,
            r.max_inflight_requests == saturating_mul_u32(worker.tx_depth, qp_count as u32),
            r.total_requests == iterations * (qp_count as u32),
            r.completed_requests == 0,
            r.inflight_requests == 0,
            r.iterations == iterations,
            r.round == 0,
    {
        let tx_depth = worker.tx_depth;
        let n = qp_count as u32;
        let max_inflight_requests = match tx_depth.checked_mul(n) {
            Some(v) => v,
            None => u32::MAX,
        };
        WorkerContext {
            qp_buffer_addrs: Vec::new(),
            qp_remote_addrs: Vec::new(),
            tx_depth,
            max_inflight_requests,
            qp_send_counts: Vec::new(),
            qp_completion_counts: Vec::new(),
            total_requests: iterations * n,
            completed_requests: 0,
            inflight_requests: 0,
            iterations,
            round: 0,
        }
    }

    /// Registers the next queue pair: its send and completion counters start
    /// at zero and the local address of each of its `tx_depth` operation
    /// slots is precomputed, with the offset from the worker's base address
    /// standing for the remote address until `update_remote_addresses`.
    pub fn add_queue_pair(&mut self, worker: &Worker)
        requires
            old(self).qp_send_counts.len() < usize::MAX,
            worker.qp_region_addressable(old(self).qp_send_counts.len()),
            forall|op: int| 0 <= op < worker.tx_depth ==> #[trigger] worker.spec_operation_addr(
                old(self).qp_send_counts.len(),
                op as usize,
            ) <= u64::MAX,
        ensures
            ({
                let qp = old(self).qp_send_counts.len();
                &&& final(self).qp_buffer_addrs@ == old(self).qp_buffer_addrs@ + Seq::new(
                    worker.tx_depth as nat,
                    |op: int| worker.spec_operation_addr(qp, op as usize) as u64,
                )
                &&& final(self).qp_remote_addrs@ == old(self).qp_remote_addrs@ + Seq::new(
                    worker.tx_depth as nat,
                    |op: int| (worker.spec_operation_addr(qp, op as usize) - worker.base_addr) as u64,
                )
            }),
            final(self).qp_send_counts@ == old(self).qp_send_counts@.push(0),
            final(self).qp_completion_counts@ == old(self).qp_completion_counts@.push(0),
            final(self).tx_depth == old(self).tx_depth,
            final(self).max_inflight_requests == old(self).max_inflight_requests,
            final(self).total_requests == old(self).total_requests,
            final(self).completed_requests == old(self).completed_requests,
            final(self).inflight_requests == old(self).inflight_requests,
            final(self).iterations == old(self).iterations,
            final(self).round == old(self).round,
    {
        let qp_idx = self.qp_send_counts.len();
        let ghost local0 = self.qp_buffer_addrs@;
        let ghost remote0 = self.qp_remote_addrs@;
        let mut op_idx: u32 = 0;
        while op_idx < worker.tx_depth
            invariant
                op_idx <= worker.tx_depth,
                qp_idx == old(self).qp_send_counts.len(),
                worker.qp_region_addressable(qp_idx),
                forall|op: int| 0 <= op < worker.tx_depth ==> #[trigger] worker.spec_operation_addr(qp_idx, op as usize)
                    <= u64::MAX,
                self.qp_buffer_addrs@ == local0 + Seq::new(
                    op_idx as nat,
                    |op: int| worker.spec_operation_addr(qp_idx, op as usize) as u64,
                ),
                self.qp_remote_addrs@ == remote0 + Seq::new(
                    op_idx as nat,
                    |op: int| (worker.spec_operation_addr(qp_idx, op as usize) - worker.base_addr) as u64,
                ),
                self.qp_send_counts@ == old(self).qp_send_counts@,
                self.qp_completion_counts@ == old(self).qp_completion_counts@,
                self.tx_depth == old(self).tx_depth,
                self.max_inflight_requests == old(self).max_inflight_requests,
                self.total_requests == old(self).total_requests,
                self.completed_requests == old(self).completed_requests,
                self.inflight_requests == old(self).inflight_requests,
                self.iterations == old(self).iterations,
                self.round == old(self).round,
            decreases worker.tx_depth - op_idx,
        {
            assert(worker.spec_operation_addr(qp_idx, op_idx as usize) <= u64::MAX);
            let local_addr = worker.calculate_operation_addr(qp_idx, op_idx as usize);
            self.qp_buffer_addrs.push(local_addr);
            let local_offset = local_addr - worker.base_addr;
            self.qp_remote_addrs.push(local_offset);
            op_idx = op_idx + 1;
            assert(self.qp_buffer_addrs@ =~= local0 + Seq::new(
                op_idx as nat,
                |op: int| worker.spec_operation_addr(qp_idx, op as usize) as u64,
            ));
            assert(self.qp_remote_addrs@ =~= remote0 + Seq::new(
                op_idx as nat,
                |op: int| (worker.spec_operation_addr(qp_idx, op as usize) - worker.base_addr) as u64,
            ));
        }
        self.qp_send_counts.push(0);
        self.qp_completion_counts.push(0);
    }

    /// All requests completed and none in flight.
    pub fn is_complete(&self) -> (r: bool)
        ensures
            r == (self.completed_requests >= self.total_requests && self.inflight_requests == 0),
    {
        self.completed_requests >= self.total_requests && self.inflight_requests == 0
    }

    /// Another request may be posted: some remain unposted and the in-flight limit is not reached.
    pub fn can_post_request(&self) -> (r: bool)
        requires
            self.completed_requests + self.inflight_requests <= u32::MAX,
        ensures
            r == (self.completed_requests + self.inflight_requests < self.total_requests
                && self.inflight_requests < self.max_inflight_requests),
    {
        self.completed_requests + self.inflight_requests < self.total_requests
            && self.inflight_requests < self.max_inflight_requests
    }

    /// Queue pair `qp_idx` has fewer than `tx_depth` requests in flight.
    pub fn can_qp_post_request(&self, qp_idx: usize, tx_depth: u32) -> (r: bool)
        requires
            qp_idx < self.qp_send_counts.len(),
            qp_idx < self.qp_completion_counts.len(),
            self.qp_completion_counts@[qp_idx as int] <= self.qp_send_counts@[qp_idx as int],
        ensures
            r == (self.qp_send_counts@[qp_idx as int] - self.qp_completion_counts@[qp_idx as int] < tx_depth),
    {
        let qp_inflight = self.qp_send_counts[qp_idx] - self.qp_completion_counts[qp_idx];
        qp_inflight < tx_depth
    }

    /// Records one posted request.
    pub fn record_request_posted(&mut self)
        requires
            old(self).inflight_requests < u32::MAX,
        ensures
            *final(self) == (WorkerContext { inflight_requests: (old(self).inflight_requests + 1) as u32, ..*old(self) }),
    {
        self.inflight_requests = self.inflight_requests + 1;
    }

    /// Records `count` posted requests.
    pub fn record_requests_posted(&mut self, count: u32)
        requires
            old(self).inflight_requests + count <= u32::MAX,
        ensures
            *final(self) == (WorkerContext { inflight_requests: (old(self).inflight_requests + count) as u32, ..*old(self) }),
    {
        self.inflight_requests = self.inflight_requests + count;
    }

    /// Records one completed request.
    pub fn record_request_completed(&mut self)
        requires
            old(self).completed_requests < u32::MAX,
        ensures
            *final(self) == (WorkerContext {
                inflight_requests: sat_sub(old(self).inflight_requests, 1),
                completed_requests: (old(self).completed_requests + 1) as u32,
                ..*old(self)
            }),
    {
        if self.inflight_requests > 0 {
            self.inflight_requests = self.inflight_requests - 1;
        }
        self.completed_requests = self.completed_requests + 1;
    }

    /// Records `count` completed requests.
    pub fn record_requests_completed(&mut self, count: u32)
        requires
            old(self).completed_requests + count <= u32::MAX,
        ensures
            *final(self) == (WorkerContext {
                inflight_requests: sat_sub(old(self).inflight_requests, count),
                completed_requests: (old(self).completed_requests + count) as u32,
                ..*old(self)
            }),
    {
        self.inflight_requests = self.inflight_requests.saturating_sub(count);
        self.completed_requests = self.completed_requests + count;
    }

    /// Records `count` requests posted on queue pair `qp_idx`.
    pub fn record_qp_requests_posted(&mut self, qp_idx: usize, count: u32)
        requires
            qp_idx < old(self).qp_send_counts.len(),
            old(self).qp_send_counts@[qp_idx as int] + count <= u32::MAX,
            old(self).inflight_requests + count <= u32::MAX,
        ensures
            *final(self) == (WorkerContext {
                qp_send_counts: final(self).qp_send_counts,
                inflight_requests: (old(self).inflight_requests + count) as u32,
                ..*old(self)
            }),
            final(self).qp_send_counts@ == old(self).qp_send_counts@.update(
                qp_idx as int,
                (old(self).qp_send_counts@[qp_idx as int] + count) as u32,
            ),
    {
        let v = self.qp_send_counts[qp_idx] + count;
        self.qp_send_counts.set(qp_idx, v);
        self.inflight_requests = self.inflight_requests + count;
    }

    /// Records `count` requests completed on queue pair `qp_idx`.
    pub fn record_qp_requests_completed(&mut self, qp_idx: usize, count: u32)
        requires
            qp_idx < old(self).qp_completion_counts.len(),
            old(self).qp_completion_counts@[qp_idx as int] + count <= u32::MAX,
            old(self).completed_requests + count <= u32::MAX,
        ensures
            *final(self) == (WorkerContext {
                qp_completion_counts: final(self).qp_completion_counts,
                completed_requests: (old(self).completed_requests + count) as u32,
                inflight_requests: sat_sub(old(self).inflight_requests, count),
                ..*old(self)
            }),
            final(self).qp_completion_counts@ == old(self).qp_completion_counts@.update(
                qp_idx as int,
                (old(self).qp_completion_counts@[qp_idx as int] + count) as u32,
            ),
    {
        let v = self.qp_completion_counts[qp_idx] + count;
        self.qp_completion_counts.set(qp_idx, v);
        self.completed_requests = self.completed_requests + count;
        self.inflight_requests = self.inflight_requests.saturating_sub(count);
    }

    /// Number of registered queue pairs.
    pub fn queue_pair_count(&self) -> (r: usize)
        ensures
            r == self.spec_qp_count(),
    {
        self.qp_send_counts.len()
    }

    /// Turns the stored local offsets into remote addresses by adding the
    /// peer's memory region base address.
    pub fn update_remote_addresses(&mut self, remote_mr_addr: u64)
        requires
            forall|i: int| 0 <= i < old(self).qp_remote_addrs@.len() ==> #[trigger] old(self).qp_remote_addrs@[i]
                + remote_mr_addr <= u64::MAX,
        ensures
            final(self).qp_remote_addrs@.len() == old(self).qp_remote_addrs@.len(),
            forall|i: int| 0 <= i < old(self).qp_remote_addrs@.len() ==> #[trigger] final(self).qp_remote_addrs@[i]
                == old(self).qp_remote_addrs@[i] + remote_mr_addr,
            *final(self) == (WorkerContext { qp_remote_addrs: final(self).qp_remote_addrs, ..*old(self) }),
    {
        let n = self.qp_remote_addrs.len();
        let mut i: usize = 0;
        while i < n
            invariant
                i <= n,
                n == old(self).qp_remote_addrs@.len(),
                self.qp_remote_addrs@.len() == n,
                forall|j: int| 0 <= j < n ==> #[trigger] old(self).qp_remote_addrs@[j] + remote_mr_addr <= u64::MAX,
                forall|j: int| 0 <= j < i ==> #[trigger] self.qp_remote_addrs@[j] == old(self).qp_remote_addrs@[j]
                    + remote_mr_addr,
                forall|j: int| i <= j < n ==> #[trigger] self.qp_remote_addrs@[j] == old(self).qp_remote_addrs@[j],
                *self == (WorkerContext { qp_remote_addrs: self.qp_remote_addrs, ..*old(self) }),
            decreases n - i,
        {
            let v = self.qp_remote_addrs[i] + remote_mr_addr;
            self.qp_remote_addrs.set(i, v);
            i = i + 1;
        }
    }

    /// Precomputed local address of operation slot `operation_index` of queue pair `qp_idx`.
    pub fn get_local_addr(&self, qp_idx: usize, operation_index: u32) -> (r: u64)
        requires
            qp_idx * self.tx_depth + operation_index < self.qp_buffer_addrs@.len(),
        ensures
            r == self.qp_buffer_addrs@[qp_idx * self.tx_depth + operation_index],
    {
        let len = self.qp_buffer_addrs.len();
        let t = self.tx_depth as usize;
        assert(qp_idx * t == qp_idx * self.tx_depth);
        let flat_index = qp_idx * t + operation_index as usize;
        self.qp_buffer_addrs[flat_index]
    }

    /// Precomputed remote address of operation slot `operation_index` of queue pair `qp_idx`.
    pub fn get_remote_addr(&self, qp_idx: usize, operation_index: u32) -> (r: u64)
        requires
            qp_idx * self.tx_depth + operation_index < self.qp_remote_addrs@.len(),
        ensures
            r == self.qp_remote_addrs@[qp_idx * self.tx_depth + operation_index],
    {
        let len = self.qp_remote_addrs.len();
        let t = self.tx_depth as usize;
        assert(qp_idx * t == qp_idx * self.tx_depth);
        let flat_index = qp_idx * t + operation_index as usize;
        self.qp_remote_addrs[flat_index]
    }
}

/// Result of one worker's run.
#[derive(Debug, Clone)]
pub struct WorkerResult {
    pub thread_id: usize,
    pub completed_requests: u32,
    pub total_requests: u32,
    pub execution_time_ns: u64,
    /// Latency samples (latency tests).
    pub latency_samples: Vec<u64>,
    pub error_count: u32,
}

impl WorkerResult {
    /// An empty result: nothing completed, no time, no samples, no errors.
    pub fn new(thread_id: usize, total_requests: u32) -> (r: Self)
        ensures
            r.thread_id == thread_id,
            r.completed_requests == 0,
            r.total_requests == total_requests,
            r.execution_time_ns == 0,
            r.latency_samples@.len() == 0,
            r.error_count == 0,
    {
        WorkerResult {
            thread_id,
            completed_requests: 0,
            total_requests,
            execution_time_ns: 0,
            latency_samples: Vec::new(),
            error_count: 0,
        }
    }

    /// Requests that completed without error.
    pub fn successful_requests(&self) -> (r: u32)
        requires
            self.error_count <= self.completed_requests,
        ensures
            r == self.completed_requests - self.error_count,
    {
        self.completed_requests - self.error_count
    }
}

} // verus!

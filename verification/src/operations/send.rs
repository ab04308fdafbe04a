use vstd::prelude::*;
use crate::runners::worker::{sat_sub, WorkerContext};

verus! {

/// Abstract state of the credit-based flow control of SEND operations:
/// one entry per queue pair in each sequence, plus the global bookkeeping.
pub struct FlowState {
    pub send_credits: Seq<i32>,
    pub recv_credits: Seq<u32>,
    pub posted_recv_per_qp: Seq<u32>,
    pub qp_recv_msg_size: Seq<u32>,
    pub qp_recv_buffers_for_msg_size: Seq<u32>,
    pub max_send_credits: i32,
    pub rx_depth: u32,
    pub current_recv_msg_size: u32,
    pub posted_recv_for_current_size: u32,
}

/// Credit-based flow control for SEND operations, after perftest's
/// per-queue-pair send credits and posted receive buffer accounting.
pub struct SendFlowControl {
    /// Send credits per queue pair.
    pub send_credits: Vec<i32>,
    /// Receive buffers currently posted per queue pair.
    pub recv_credits: Vec<u32>,
    /// Receive buffers ever posted per queue pair (lifetime total).
    pub posted_recv_per_qp: Vec<u32>,
    /// Message size that each queue pair's posted buffers are for.
    pub qp_recv_msg_size: Vec<u32>,
    /// Buffers posted per queue pair for its current message size.
    pub qp_recv_buffers_for_msg_size: Vec<u32>,
    /// Send credits that a queue pair starts with.
    pub max_send_credits: i32,
    /// Receive queue depth in use.
    pub rx_depth: u32,
    /// Message size of the most recent switch over all queue pairs.
    pub current_recv_msg_size: u32,
    /// Buffers posted for that message size over all queue pairs.
    pub posted_recv_for_current_size: u32,
}

/// Constant sequence of `n` copies of `v`.
pub open spec fn filled<T>(n: nat, v: T) -> Seq<T> {
    Seq::new(n, |i: int| v)
}

/// The state a flow control starts in for `qp_count` queue pairs.
pub open spec fn initial_flow_state(qp_count: nat, max_send_credits: i32, rx_depth: u32) -> FlowState {
    FlowState {
        send_credits: filled(qp_count, max_send_credits),
        recv_credits: filled(qp_count, 0u32),
        posted_recv_per_qp: filled(qp_count, 0u32),
        qp_recv_msg_size: filled(qp_count, 0u32),
        qp_recv_buffers_for_msg_size: filled(qp_count, 0u32),
        max_send_credits,
        rx_depth,
        current_recv_msg_size: 0,
        posted_recv_for_current_size: 0,
    }
}

/// All per-queue-pair sequences have the same length.
pub open spec fn flow_state_wf(s: FlowState) -> bool {
    &&& s.recv_credits.len() == s.send_credits.len()
    &&& s.posted_recv_per_qp.len() == s.send_credits.len()
    &&& s.qp_recv_msg_size.len() == s.send_credits.len()
    &&& s.qp_recv_buffers_for_msg_size.len() == s.send_credits.len()
}

/// `count` converted to a signed credit count the way `as i32` does.
pub open spec fn credit_delta(count: u32) -> int {
    if count <= i32::MAX { count as int } else { count as int - 0x1_0000_0000int }
}

pub open spec fn spec_consume_send_credits(s: FlowState, qp_idx: int, count: u32) -> FlowState {
    FlowState {
        send_credits: s.send_credits.update(qp_idx, (s.send_credits[qp_idx] - credit_delta(count)) as i32),
        ..s
    }
}

pub open spec fn spec_restore_send_credits(s: FlowState, qp_idx: int, count: u32) -> FlowState {
    FlowState {
        send_credits: s.send_credits.update(qp_idx, (s.send_credits[qp_idx] + credit_delta(count)) as i32),
        ..s
    }
}

pub open spec fn spec_needs_recv_buffers(s: FlowState, qp_idx: int) -> bool {
    s.recv_credits[qp_idx] < s.rx_depth
}

pub open spec fn spec_needs_recv_buffers_for_msg_size(s: FlowState, qp_idx: int, msg_size: u32) -> bool {
    s.qp_recv_msg_size[qp_idx] != msg_size || spec_needs_recv_buffers(s, qp_idx)
}

pub open spec fn saturating_sub(a: u32, b: u32) -> u32 {
    if a >= b { (a - b) as u32 } else { 0 }
}

pub open spec fn spec_consume_recv_credits(s: FlowState, qp_idx: int, count: u32) -> FlowState {
    FlowState {
        recv_credits: s.recv_credits.update(qp_idx, saturating_sub(s.recv_credits[qp_idx], count)),
        ..s
    }
}

pub open spec fn spec_post_recv_credits(s: FlowState, qp_idx: int, count: u32) -> FlowState {
    FlowState {
        recv_credits: s.recv_credits.update(qp_idx, (s.recv_credits[qp_idx] + count) as u32),
        posted_recv_per_qp: s.posted_recv_per_qp.update(qp_idx, (s.posted_recv_per_qp[qp_idx] + count) as u32),
        ..s
    }
}

/// Whether posting for `msg_size` on `qp_idx` switches that queue pair to a new message size.
pub open spec fn switches_msg_size(s: FlowState, qp_idx: int, msg_size: u32) -> bool {
    s.qp_recv_msg_size[qp_idx] != msg_size
}

/// Whether the switch is also a new message size for the global bookkeeping.
pub open spec fn switches_global_msg_size(s: FlowState, qp_idx: int, msg_size: u32) -> bool {
    switches_msg_size(s, qp_idx, msg_size) && s.current_recv_msg_size != msg_size
}

/// Per-queue-pair receive credits before the new buffers are counted.
pub open spec fn recv_base(s: FlowState, qp_idx: int, msg_size: u32) -> u32 {
    if switches_msg_size(s, qp_idx, msg_size) { 0 } else { s.recv_credits[qp_idx] }
}

pub open spec fn buffers_base(s: FlowState, qp_idx: int, msg_size: u32) -> u32 {
    if switches_msg_size(s, qp_idx, msg_size) { 0 } else { s.qp_recv_buffers_for_msg_size[qp_idx] }
}

pub open spec fn current_size_base(s: FlowState, qp_idx: int, msg_size: u32) -> u32 {
    if switches_global_msg_size(s, qp_idx, msg_size) { 0 } else { s.posted_recv_for_current_size }
}

/// Counters of a message-size-aware receive posting do not overflow.
pub open spec fn post_for_msg_size_fits(s: FlowState, qp_idx: int, count: u32, msg_size: u32) -> bool {
    &&& recv_base(s, qp_idx, msg_size) + count <= u32::MAX
    &&& s.posted_recv_per_qp[qp_idx] + count <= u32::MAX
    &&& buffers_base(s, qp_idx, msg_size) + count <= u32::MAX
    &&& current_size_base(s, qp_idx, msg_size) + count <= u32::MAX
}

pub open spec fn spec_post_recv_credits_for_msg_size(
    s: FlowState,
    qp_idx: int,
    count: u32,
    msg_size: u32,
) -> FlowState {
    FlowState {
        send_credits: s.send_credits,
        recv_credits: s.recv_credits.update(qp_idx, (recv_base(s, qp_idx, msg_size) + count) as u32),
        posted_recv_per_qp: s.posted_recv_per_qp.update(qp_idx, (s.posted_recv_per_qp[qp_idx] + count) as u32),
        qp_recv_msg_size: s.qp_recv_msg_size.update(qp_idx, msg_size),
        qp_recv_buffers_for_msg_size: s.qp_recv_buffers_for_msg_size.update(
            qp_idx,
            (buffers_base(s, qp_idx, msg_size) + count) as u32,
        ),
        max_send_credits: s.max_send_credits,
        rx_depth: s.rx_depth,
        current_recv_msg_size: if switches_msg_size(s, qp_idx, msg_size) { msg_size } else { s.current_recv_msg_size },
        posted_recv_for_current_size: (current_size_base(s, qp_idx, msg_size) + count) as u32,
    }
}

/// Resetting puts the first `send_credits.len()` entries of each sequence
/// back to their initial values (longer sequences keep their tail).
pub open spec fn spec_reset(s: FlowState) -> FlowState {
    let n = s.send_credits.len();
    FlowState {
        send_credits: filled(n, s.max_send_credits),
        recv_credits: filled(n, 0u32) + s.recv_credits.skip(n as int),
        posted_recv_per_qp: filled(n, 0u32) + s.posted_recv_per_qp.skip(n as int),
        qp_recv_msg_size: filled(n, 0u32) + s.qp_recv_msg_size.skip(n as int),
        qp_recv_buffers_for_msg_size: filled(n, 0u32) + s.qp_recv_buffers_for_msg_size.skip(n as int),
        max_send_credits: s.max_send_credits,
        rx_depth: s.rx_depth,
        current_recv_msg_size: 0,
        posted_recv_for_current_size: 0,
    }
}

/// Receive depth in use: the configured depth capped by the per-queue-pair iterations.
pub open spec fn effective_rx_depth(rx_depth: u32, per_qp_iterations: u32) -> u32 {
    if rx_depth <= per_qp_iterations { rx_depth } else { per_qp_iterations }
}

impl View for SendFlowControl {
    type V = FlowState;

    open spec fn view(&self) -> FlowState {
        FlowState {
            send_credits: self.send_credits@,
            recv_credits: self.recv_credits@,
            posted_recv_per_qp: self.posted_recv_per_qp@,
            qp_recv_msg_size: self.qp_recv_msg_size@,
            qp_recv_buffers_for_msg_size: self.qp_recv_buffers_for_msg_size@,
            max_send_credits: self.max_send_credits,
            rx_depth: self.rx_depth,
            current_recv_msg_size: self.current_recv_msg_size,
            posted_recv_for_current_size: self.posted_recv_for_current_size,
        }
    }
}

fn zeros(n: usize) -> (v: Vec<u32>)
    ensures
        v@ == filled(n as nat, 0u32),
{
    let mut v: Vec<u32> = Vec::new();
    let mut i: usize = 0;
    while i < n
        invariant
            i <= n,
            v@ == filled(i as nat, 0u32),
        decreases n - i,
    {
        v.push(0);
        i = i + 1;
        assert(v@ =~= filled(i as nat, 0u32));
    }
    v
}

proof fn lemma_credit_delta(count: u32)
    ensures
        (count as i32) as int == credit_delta(count),
{
    if count <= 0x7fff_ffffu32 {
        assert(count <= 0x7fff_ffffu32 ==> (count as i32) as int == count as int) by (bit_vector);
    } else {
        assert(count > 0x7fff_ffffu32 ==> (count as i32) as int == count as int - 0x1_0000_0000int) by (bit_vector);
    }
}

impl SendFlowControl {
    /// Queue pairs tracked (the number of send credit entries).
    pub open spec fn qp_count(&self) -> nat {
        self.send_credits@.len()
    }

    /// Creates the flow control of `qp_count` queue pairs: every queue pair
    /// starts with `min(rx_depth, per_qp_iterations)` send credits and no
    /// posted receive buffers.
    pub fn new(
        qp_count: usize,
        rx_depth: u32,
        per_qp_iterations: u32,
        total_iterations: u32,
        message_sizes: Vec<u32>,
    ) -> (r: Self)
        ensures
            r@ == initial_flow_state(
                qp_count as nat,
                effective_rx_depth(rx_depth, per_qp_iterations) as i32,
                effective_rx_depth(rx_depth, per_qp_iterations),
            ),
    {
        let effective_rx_depth = if rx_depth < per_qp_iterations { rx_depth } else { per_qp_iterations };
        let max_send_credits = effective_rx_depth as i32;
        let mut send_credits: Vec<i32> = Vec::new();
        let mut i: usize = 0;
        while i < qp_count
            invariant
                i <= qp_count,
                send_credits@ == filled(i as nat, max_send_credits),
            decreases qp_count - i,
        {
            send_credits.push(max_send_credits);
            i = i + 1;
            assert(send_credits@ =~= filled(i as nat, max_send_credits));
        }
        SendFlowControl {
            send_credits,
            recv_credits: zeros(qp_count),
            posted_recv_per_qp: zeros(qp_count),
            qp_recv_msg_size: zeros(qp_count),
            qp_recv_buffers_for_msg_size: zeros(qp_count),
            max_send_credits,
            rx_depth: effective_rx_depth,
            current_recv_msg_size: 0,
            posted_recv_for_current_size: 0,
        }
    }

    /// Whether queue pair `qp_idx` has a send credit left.
    pub fn can_send(&self, qp_idx: usize) -> (r: bool)
        requires
            qp_idx < self.send_credits.len(),
        ensures
            r == (self.send_credits@[qp_idx as int] > 0),
    {
        self.send_credits[qp_idx] > 0
    }

    /// Takes `count` send credits from queue pair `qp_idx`.
    pub fn consume_send_credits(&mut self, qp_idx: usize, count: u32)
        requires
            qp_idx < old(self).send_credits.len(),
            i32::MIN <= old(self).send_credits@[qp_idx as int] - credit_delta(count) <= i32::MAX,
        ensures
            final(self)@ == spec_consume_send_credits(old(self)@, qp_idx as int, count),
    {
        let delta = count as i32;
        proof { lemma_credit_delta(count); }
        let v = self.send_credits[qp_idx] - delta;
        self.send_credits.set(qp_idx, v);
    }

    /// Gives `count` send credits back to queue pair `qp_idx`.
    pub fn restore_send_credits(&mut self, qp_idx: usize, count: u32)
        requires
            qp_idx < old(self).send_credits.len(),
            i32::MIN <= old(self).send_credits@[qp_idx as int] + credit_delta(count) <= i32::MAX,
        ensures
            final(self)@ == spec_restore_send_credits(old(self)@, qp_idx as int, count),
    {
        let delta = count as i32;
        proof { lemma_credit_delta(count); }
        let v = self.send_credits[qp_idx] + delta;
        self.send_credits.set(qp_idx, v);
    }

    /// Whether queue pair `qp_idx` has fewer receive buffers posted than the receive depth.
    pub fn needs_recv_buffers(&self, qp_idx: usize) -> (r: bool)
        requires
            qp_idx < self.recv_credits.len(),
        ensures
            r == spec_needs_recv_buffers(self@, qp_idx as int),
    {
        self.recv_credits[qp_idx] < self.rx_depth
    }

    /// Whether queue pair `qp_idx` needs receive buffers for `msg_size`: its
    /// buffers are for another size, or it has fewer than the receive depth.
    pub fn needs_recv_buffers_for_msg_size(&self, qp_idx: usize, msg_size: u32) -> (r: bool)
        requires
            qp_idx < self.recv_credits.len(),
            qp_idx < self.qp_recv_msg_size.len(),
        ensures
            r == spec_needs_recv_buffers_for_msg_size(self@, qp_idx as int, msg_size),
    {
        if self.qp_recv_msg_size[qp_idx] != msg_size {
            return true;
        }
        self.needs_recv_buffers(qp_idx)
    }

    /// Records that `count` receive buffers of queue pair `qp_idx` were consumed.
    pub fn consume_recv_credits(&mut self, qp_idx: usize, count: u32)
        requires
            qp_idx < old(self).recv_credits.len(),
        ensures
            final(self)@ == spec_consume_recv_credits(old(self)@, qp_idx as int, count),
    {
        let v = self.recv_credits[qp_idx].saturating_sub(count);
        self.recv_credits.set(qp_idx, v);
    }

    /// Records that `count` receive buffers were posted on queue pair `qp_idx`.
    pub fn post_recv_credits(&mut self, qp_idx: usize, count: u32)
        requires
            qp_idx < old(self).recv_credits.len(),
            qp_idx < old(self).posted_recv_per_qp.len(),
            old(self).recv_credits@[qp_idx as int] + count <= u32::MAX,
            old(self).posted_recv_per_qp@[qp_idx as int] + count <= u32::MAX,
        ensures
            final(self)@ == spec_post_recv_credits(old(self)@, qp_idx as int, count),
    {
        let r = self.recv_credits[qp_idx] + count;
        self.recv_credits.set(qp_idx, r);
        let p = self.posted_recv_per_qp[qp_idx] + count;
        self.posted_recv_per_qp.set(qp_idx, p);
    }

    /// Records that `count` receive buffers for `msg_size` were posted on
    /// queue pair `qp_idx`. A queue pair that switches to a new message size
    /// starts its receive credits and per-size count from zero; its lifetime
    /// count of posted buffers is never reset.
    pub fn post_recv_credits_for_msg_size(&mut self, qp_idx: usize, count: u32, msg_size: u32)
        requires
            qp_idx < old(self).recv_credits.len(),
            qp_idx < old(self).posted_recv_per_qp.len(),
            qp_idx < old(self).qp_recv_msg_size.len(),
            qp_idx < old(self).qp_recv_buffers_for_msg_size.len(),
            post_for_msg_size_fits(old(self)@, qp_idx as int, count, msg_size),
        ensures
            final(self)@ == spec_post_recv_credits_for_msg_size(old(self)@, qp_idx as int, count, msg_size),
    {
        if self.qp_recv_msg_size[qp_idx] != msg_size {
            self.qp_recv_msg_size.set(qp_idx, msg_size);
            self.qp_recv_buffers_for_msg_size.set(qp_idx, 0);
            self.recv_credits.set(qp_idx, 0);
            if self.current_recv_msg_size != msg_size {
                self.current_recv_msg_size = msg_size;
                self.posted_recv_for_current_size = 0;
            }
        }
        let r = self.recv_credits[qp_idx] + count;
        self.recv_credits.set(qp_idx, r);
        let p = self.posted_recv_per_qp[qp_idx] + count;
        self.posted_recv_per_qp.set(qp_idx, p);
        let b = self.qp_recv_buffers_for_msg_size[qp_idx] + count;
        self.qp_recv_buffers_for_msg_size.set(qp_idx, b);
        self.posted_recv_for_current_size = self.posted_recv_for_current_size + count;
        let ghost o = old(self)@;
        let ghost e = spec_post_recv_credits_for_msg_size(o, qp_idx as int, count, msg_size);
        assert(self@.qp_recv_msg_size =~= e.qp_recv_msg_size);
        assert(self@.recv_credits =~= e.recv_credits);
        assert(self@.posted_recv_per_qp =~= e.posted_recv_per_qp);
        assert(self@.qp_recv_buffers_for_msg_size =~= e.qp_recv_buffers_for_msg_size);
        assert(self@.send_credits =~= e.send_credits);
    }

    /// Send credits left on queue pair `qp_idx`.
    pub fn available_send_credits(&self, qp_idx: usize) -> (r: i32)
        requires
            qp_idx < self.send_credits.len(),
        ensures
            r == self.send_credits@[qp_idx as int],
    {
        self.send_credits[qp_idx]
    }

    /// Puts every queue pair back to its initial credits and clears all
    /// receive buffer accounting.
    pub fn reset(&mut self)
        requires
            old(self).recv_credits.len() >= old(self).send_credits.len(),
            old(self).posted_recv_per_qp.len() >= old(self).send_credits.len(),
            old(self).qp_recv_msg_size.len() >= old(self).send_credits.len(),
            old(self).qp_recv_buffers_for_msg_size.len() >= old(self).send_credits.len(),
        ensures
            final(self)@ == spec_reset(old(self)@),
    {
        let n = self.send_credits.len();
        let ghost s0 = self@;
        let mut qp_idx: usize = 0;
        while qp_idx < n
            invariant
                n == self.send_credits.len(),
                n == s0.send_credits.len(),
                qp_idx <= n,
                self.max_send_credits == s0.max_send_credits,
                self.rx_depth == s0.rx_depth,
                self.current_recv_msg_size == s0.current_recv_msg_size,
                self.posted_recv_for_current_size == s0.posted_recv_for_current_size,
                self.recv_credits@.len() == s0.recv_credits.len(),
                self.posted_recv_per_qp@.len() == s0.posted_recv_per_qp.len(),
                self.qp_recv_msg_size@.len() == s0.qp_recv_msg_size.len(),
                self.qp_recv_buffers_for_msg_size@.len() == s0.qp_recv_buffers_for_msg_size.len(),
                s0.recv_credits.len() >= n,
                s0.posted_recv_per_qp.len() >= n,
                s0.qp_recv_msg_size.len() >= n,
                s0.qp_recv_buffers_for_msg_size.len() >= n,
                self.send_credits@ == filled(qp_idx as nat, s0.max_send_credits) + s0.send_credits.skip(qp_idx as int),
                self.recv_credits@ == filled(qp_idx as nat, 0u32) + s0.recv_credits.skip(qp_idx as int),
                self.posted_recv_per_qp@ == filled(qp_idx as nat, 0u32) + s0.posted_recv_per_qp.skip(qp_idx as int),
                self.qp_recv_msg_size@ == filled(qp_idx as nat, 0u32) + s0.qp_recv_msg_size.skip(qp_idx as int),
                self.qp_recv_buffers_for_msg_size@ == filled(qp_idx as nat, 0u32)
                    + s0.qp_recv_buffers_for_msg_size.skip(qp_idx as int),
            decreases n - qp_idx,
        {
            let m = self.max_send_credits;
            self.send_credits.set(qp_idx, m);
            self.recv_credits.set(qp_idx, 0);
            self.posted_recv_per_qp.set(qp_idx, 0);
            self.qp_recv_msg_size.set(qp_idx, 0);
            self.qp_recv_buffers_for_msg_size.set(qp_idx, 0);
            qp_idx = qp_idx + 1;
            assert(self.send_credits@ =~= filled(qp_idx as nat, s0.max_send_credits) + s0.send_credits.skip(qp_idx as int));
            assert(self.recv_credits@ =~= filled(qp_idx as nat, 0u32) + s0.recv_credits.skip(qp_idx as int));
            assert(self.posted_recv_per_qp@ =~= filled(qp_idx as nat, 0u32) + s0.posted_recv_per_qp.skip(qp_idx as int));
            assert(self.qp_recv_msg_size@ =~= filled(qp_idx as nat, 0u32) + s0.qp_recv_msg_size.skip(qp_idx as int));
            assert(self.qp_recv_buffers_for_msg_size@ =~= filled(qp_idx as nat, 0u32)
                + s0.qp_recv_buffers_for_msg_size.skip(qp_idx as int));
        }
        self.current_recv_msg_size = 0;
        self.posted_recv_for_current_size = 0;
        assert(self.send_credits@ =~= filled(n as nat, s0.max_send_credits));
    }
}


/// SEND operation executor: flow control plus the immediate-data setting.
pub struct SendOperationExecutor {
    flow_control: SendFlowControl,
    use_immediate_data: bool,
}

impl SendOperationExecutor {
    pub closed spec fn spec_flow_control(&self) -> SendFlowControl {
        self.flow_control
    }

    pub closed spec fn spec_use_immediate_data(&self) -> bool {
        self.use_immediate_data
    }

    /// Creates the executor and its flow control (see `SendFlowControl::new`).
    pub fn new(
        qp_count: usize,
        rx_depth: u32,
        per_qp_iterations: u32,
        total_iterations: u32,
        message_sizes: Vec<u32>,
        use_immediate_data: bool,
    ) -> (r: Self)
        ensures
            r.spec_flow_control()@ == initial_flow_state(
                qp_count as nat,
                effective_rx_depth(rx_depth, per_qp_iterations) as i32,
                effective_rx_depth(rx_depth, per_qp_iterations),
            ),
            r.spec_use_immediate_data() == use_immediate_data,
    {
        SendOperationExecutor {
            flow_control: SendFlowControl::new(
                qp_count,
                rx_depth,
                per_qp_iterations,
                total_iterations,
                message_sizes,
            ),
            use_immediate_data,
        }
    }

    /// A SEND completion returns `completion_count` send credits to the queue pair.
    pub fn handle_send_completion(&mut self, qp_idx: usize, completion_count: u32)
        requires
            qp_idx < old(self).spec_flow_control().send_credits.len(),
            i32::MIN <= old(self).spec_flow_control()@.send_credits[qp_idx as int] + credit_delta(completion_count)
                <= i32::MAX,
        ensures
            final(self).spec_flow_control()@ == spec_restore_send_credits(
                old(self).spec_flow_control()@,
                qp_idx as int,
                completion_count,
            ),
            final(self).spec_use_immediate_data() == old(self).spec_use_immediate_data(),
    {
        self.flow_control.restore_send_credits(qp_idx, completion_count);
    }

    /// A receive completion consumes `completion_count` receive credits of the queue pair.
    pub fn handle_recv_completion(&mut self, qp_idx: usize, completion_count: u32)
        requires
            qp_idx < old(self).spec_flow_control().recv_credits.len(),
        ensures
            final(self).spec_flow_control()@ == spec_consume_recv_credits(
                old(self).spec_flow_control()@,
                qp_idx as int,
                completion_count,
            ),
            final(self).spec_use_immediate_data() == old(self).spec_use_immediate_data(),
    {
        self.flow_control.consume_recv_credits(qp_idx, completion_count);
    }

    /// Resets the flow control for a new test iteration.
    pub fn reset(&mut self)
        requires
            flow_state_wf(old(self).spec_flow_control()@),
        ensures
            final(self).spec_flow_control()@ == spec_reset(old(self).spec_flow_control()@),
            final(self).spec_use_immediate_data() == old(self).spec_use_immediate_data(),
    {
        self.flow_control.reset();
    }

    /// Resets all receive buffer accounting for a new message size (the
    /// same reset as `reset`; buffers already posted stay on the queue pair).
    pub fn reset_for_new_message_size(&mut self)
        requires
            flow_state_wf(old(self).spec_flow_control()@),
        ensures
            final(self).spec_flow_control()@ == spec_reset(old(self).spec_flow_control()@),
            final(self).spec_use_immediate_data() == old(self).spec_use_immediate_data(),
    {
        self.flow_control.reset();
    }

    /// The flow control, for monitoring.
    pub fn flow_control(&self) -> (r: &SendFlowControl)
        ensures
            *r == self.spec_flow_control(),
    {
        &self.flow_control
    }

    /// Records receive buffers posted for `msg_size` (see
    /// `SendFlowControl::post_recv_credits_for_msg_size`).
    pub fn record_recv_posted(&mut self, qp_idx: usize, count: u32, msg_size: u32)
        requires
            flow_state_wf(old(self).spec_flow_control()@),
            qp_idx < old(self).spec_flow_control().send_credits.len(),
            post_for_msg_size_fits(old(self).spec_flow_control()@, qp_idx as int, count, msg_size),
        ensures
            final(self).spec_flow_control()@ == spec_post_recv_credits_for_msg_size(
                old(self).spec_flow_control()@,
                qp_idx as int,
                count,
                msg_size,
            ),
            final(self).spec_use_immediate_data() == old(self).spec_use_immediate_data(),
    {
        self.flow_control.post_recv_credits_for_msg_size(qp_idx, count, msg_size);
    }

    /// Records that `count` SEND requests were posted on `qp_idx`.
    pub fn record_send_posted(&mut self, qp_idx: usize, count: u32)
        requires
            qp_idx < old(self).spec_flow_control().send_credits.len(),
            i32::MIN <= old(self).spec_flow_control()@.send_credits[qp_idx as int] - credit_delta(count)
                <= i32::MAX,
        ensures
            final(self).spec_flow_control()@ == spec_consume_send_credits(
                old(self).spec_flow_control()@,
                qp_idx as int,
                count,
            ),
            final(self).spec_use_immediate_data() == old(self).spec_use_immediate_data(),
    {
        self.flow_control.consume_send_credits(qp_idx, count);
    }

    /// How many SEND requests queue pair `qp_idx` may post out of a post list
    /// of `post_list`: none without send credits, else at most its credits.
    pub fn send_batch_size(&self, qp_idx: usize, post_list: usize) -> (r: usize)
        requires
            qp_idx < self.spec_flow_control().send_credits.len(),
        ensures
            r == spec_send_batch_size(self.spec_flow_control()@, qp_idx as int, post_list),
    {
        if !self.flow_control.can_send(qp_idx) {
            return 0;
        }
        let available = self.flow_control.available_send_credits(qp_idx) as usize;
        if post_list < available { post_list } else { available }
    }

    /// How many SEND requests queue pair `qp_idx` posts now out of a post
    /// list of `post_list`: its send batch (see `send_batch_size`), but none
    /// while it has `tx_depth` requests in flight.
    pub fn send_post_count(&self, ctx: &WorkerContext, qp_idx: usize, tx_depth: u32, post_list: usize) -> (r: usize)
        requires
            qp_idx < self.spec_flow_control().send_credits.len(),
            qp_idx < ctx.qp_send_counts.len(),
            qp_idx < ctx.qp_completion_counts.len(),
            ctx.qp_completion_counts@[qp_idx as int] <= ctx.qp_send_counts@[qp_idx as int],
        ensures
            r == (if ctx.qp_send_counts@[qp_idx as int] - ctx.qp_completion_counts@[qp_idx as int] >= tx_depth {
                0
            } else {
                spec_send_batch_size(self.spec_flow_control()@, qp_idx as int, post_list)
            }),
    {
        let count = self.send_batch_size(qp_idx, post_list);
        if count == 0 {
            return 0;
        }
        if !ctx.can_qp_post_request(qp_idx, tx_depth) {
            return 0;
        }
        count
    }

    /// How many receive buffers to post on `qp_idx` for `msg_size`: none if
    /// it does not need any; else what is missing up to the receive depth,
    /// but no more than the iterations still to be received.
    pub fn receive_batch_size(
        &self,
        qp_idx: usize,
        msg_size: u32,
        iterations: u32,
        round: u32,
        qp_completed: u32,
    ) -> (r: u32)
        requires
            flow_state_wf(self.spec_flow_control()@),
            qp_idx < self.spec_flow_control().send_credits.len(),
            receive_batch_defined(self.spec_flow_control()@, qp_idx as int, msg_size, iterations, round, qp_completed),
        ensures
            r == spec_receive_batch_size(self.spec_flow_control()@, qp_idx as int, msg_size, iterations, round, qp_completed),
    {
        if !self.flow_control.needs_recv_buffers_for_msg_size(qp_idx, msg_size) {
            return 0;
        }
        let recv = self.flow_control.recv_credits[qp_idx];
        let needed_buffers = self.flow_control.rx_depth - recv;
        let remaining_iterations = iterations * round - qp_completed - recv;
        if needed_buffers < remaining_iterations { needed_buffers } else { remaining_iterations }
    }

    /// Buffer slot of the `recv_idx`-th receive buffer of a new posting on
    /// `qp_idx`: slots continue after every buffer the queue pair ever posted.
    pub fn recv_buffer_offset(&self, qp_idx: usize, recv_idx: u32) -> (r: u32)
        requires
            flow_state_wf(self.spec_flow_control()@),
            qp_idx < self.spec_flow_control().send_credits.len(),
            self.spec_flow_control()@.posted_recv_per_qp[qp_idx as int] + recv_idx <= u32::MAX,
        ensures
            r == self.spec_flow_control()@.posted_recv_per_qp[qp_idx as int] + recv_idx,
    {
        self.flow_control.posted_recv_per_qp[qp_idx] + recv_idx
    }

    /// Whether some of the first `qp_count` queue pairs has fewer receive
    /// credits than the `remaining` iterations (and some remain).
    pub fn should_reload_receive_buffers(&self, qp_count: usize, remaining: u32) -> (r: bool)
        requires
            qp_count <= self.spec_flow_control().recv_credits.len(),
        ensures
            r == (remaining > 0 && exists|q: int|
                0 <= q < qp_count && #[trigger] self.spec_flow_control()@.recv_credits[q] < remaining),
    {
        if remaining == 0 {
            return false;
        }
        let mut q: usize = 0;
        while q < qp_count
            invariant
                q <= qp_count,
                qp_count <= self.spec_flow_control().recv_credits.len(),
                forall|j: int| 0 <= j < q ==> !(#[trigger] self.spec_flow_control()@.recv_credits[j] < remaining),
            decreases qp_count - q,
        {
            if self.flow_control.recv_credits[q] < remaining {
                assert(self.spec_flow_control()@.recv_credits[q as int] < remaining);
                return true;
            }
            q = q + 1;
        }
        false
    }

    /// Whether some of the first `qp_count` queue pairs needs receive buffers for `msg_size`.
    pub fn any_needs_recv_buffers(&self, qp_count: usize, msg_size: u32) -> (r: bool)
        requires
            flow_state_wf(self.spec_flow_control()@),
            qp_count <= self.spec_flow_control().send_credits.len(),
        ensures
            r == exists|q: int|
                0 <= q < qp_count && #[trigger] spec_needs_recv_buffers_for_msg_size(
                    self.spec_flow_control()@,
                    q,
                    msg_size,
                ),
    {
        let mut q: usize = 0;
        while q < qp_count
            invariant
                q <= qp_count,
                flow_state_wf(self.spec_flow_control()@),
                qp_count <= self.spec_flow_control().send_credits.len(),
                forall|j: int|
                    0 <= j < q ==> !#[trigger] spec_needs_recv_buffers_for_msg_size(
                        self.spec_flow_control()@,
                        j,
                        msg_size,
                    ),
            decreases qp_count - q,
        {
            if self.flow_control.needs_recv_buffers_for_msg_size(q, msg_size) {
                return true;
            }
            q = q + 1;
        }
        false
    }
}

pub open spec fn spec_send_batch_size(s: FlowState, qp_idx: int, post_list: usize) -> usize {
    if s.send_credits[qp_idx] <= 0 {
        0
    } else if post_list < s.send_credits[qp_idx] {
        post_list
    } else {
        s.send_credits[qp_idx] as usize
    }
}

/// The receive batch computation does not underflow or overflow.
pub open spec fn receive_batch_defined(
    s: FlowState,
    qp_idx: int,
    msg_size: u32,
    iterations: u32,
    round: u32,
    qp_completed: u32,
) -> bool {
    spec_needs_recv_buffers_for_msg_size(s, qp_idx, msg_size) ==> {
        &&& s.recv_credits[qp_idx] <= s.rx_depth
        &&& iterations * round <= u32::MAX
        &&& qp_completed + s.recv_credits[qp_idx] <= iterations * round
    }
}

pub open spec fn spec_receive_batch_size(
    s: FlowState,
    qp_idx: int,
    msg_size: u32,
    iterations: u32,
    round: u32,
    qp_completed: u32,
) -> u32 {
    if !spec_needs_recv_buffers_for_msg_size(s, qp_idx, msg_size) {
        0
    } else {
        let needed = s.rx_depth - s.recv_credits[qp_idx];
        let remaining = iterations * round - qp_completed - s.recv_credits[qp_idx];
        (if needed < remaining { needed } else { remaining }) as u32
    }
}

/// Work request id of a SEND: thread id in the high 32 bits, queue pair
/// index at bit 16 and the low 16 bits of the operation index.
pub open spec fn spec_send_wr_id(thread_id: usize, qp_idx: usize, global_op_index: u32) -> u64 {
    ((thread_id as u64) << 32u64) | ((qp_idx as u64) << 16u64) | ((global_op_index & 0xFFFFu32) as u64)
}

pub fn send_wr_id(thread_id: usize, qp_idx: usize, global_op_index: u32) -> (r: u64)
    ensures
        r == spec_send_wr_id(thread_id, qp_idx, global_op_index),
{
    ((thread_id as u64) << 32u64) | ((qp_idx as u64) << 16u64) | ((global_op_index & 0xFFFFu32) as u64)
}

/// Queue pair index carried by a SEND completion's work request id.
pub fn send_completion_qp(wr_id: u64) -> (r: usize)
    ensures
        r == ((wr_id >> 16u64) & 0xFFFFu64),
{
    assert((wr_id >> 16u64) & 0xFFFFu64 <= 0xFFFFu64) by (bit_vector);
    ((wr_id >> 16u64) & 0xFFFFu64) as usize
}

/// Work request id of a receive buffer: queue pair index in the high 32
/// bits over the buffer slot.
pub open spec fn spec_recv_wr_id(qp_idx: usize, buffer_offset: u32) -> u64 {
    ((qp_idx as u64) << 32u64) | (buffer_offset as u64)
}

pub fn recv_wr_id(qp_idx: usize, buffer_offset: u32) -> (r: u64)
    ensures
        r == spec_recv_wr_id(qp_idx, buffer_offset),
{
    ((qp_idx as u64) << 32u64) | (buffer_offset as u64)
}

/// Queue pair index carried by a receive completion's work request id.
pub fn recv_completion_qp(wr_id: u64) -> (r: usize)
    ensures
        r == ((wr_id >> 32u64) & 0xFFFFu64),
{
    assert((wr_id >> 32u64) & 0xFFFFu64 <= 0xFFFFu64) by (bit_vector);
    ((wr_id >> 32u64) & 0xFFFFu64) as usize
}

/// Whether a completion on the shared latency queue counts as a SEND
/// completion: its low 16 bits are below 32768.
pub fn is_send_completion(wr_id: u64) -> (r: bool)
    ensures
        r == ((wr_id & 0xFFFFu64) < 32768u64),
{
    (wr_id & 0xFFFFu64) < 32768u64
}


/// Returning the credits that a batch consumed restores the flow control exactly.
pub proof fn lemma_restore_undoes_consume(s: FlowState, qp_idx: int, count: u32)
    requires
        0 <= qp_idx < s.send_credits.len(),
        i32::MIN <= s.send_credits[qp_idx] - credit_delta(count) <= i32::MAX,
    ensures
        spec_restore_send_credits(spec_consume_send_credits(s, qp_idx, count), qp_idx, count) == s,
{
    let t = spec_restore_send_credits(spec_consume_send_credits(s, qp_idx, count), qp_idx, count);
    assert(t.send_credits =~= s.send_credits);
}

/// A reset puts a well-formed flow control into the state a new one of the
/// same size, credits and depth starts in.
pub proof fn lemma_reset_restores_initial_state(s: FlowState)
    requires
        flow_state_wf(s),
    ensures
        spec_reset(s) == initial_flow_state(s.send_credits.len(), s.max_send_credits, s.rx_depth),
{
    let n = s.send_credits.len();
    assert(s.recv_credits.skip(n as int) =~= Seq::<u32>::empty());
    assert(s.posted_recv_per_qp.skip(n as int) =~= Seq::<u32>::empty());
    assert(s.qp_recv_msg_size.skip(n as int) =~= Seq::<u32>::empty());
    assert(s.qp_recv_buffers_for_msg_size.skip(n as int) =~= Seq::<u32>::empty());
    assert(filled(n, 0u32) + Seq::<u32>::empty() =~= filled(n, 0u32));
}

/// Every flow control operation keeps all per-queue-pair sequences of one length.
pub proof fn lemma_operations_preserve_wf(s: FlowState, qp_idx: int, count: u32, msg_size: u32)
    requires
        flow_state_wf(s),
        0 <= qp_idx < s.send_credits.len(),
    ensures
        flow_state_wf(spec_consume_send_credits(s, qp_idx, count)),
        flow_state_wf(spec_restore_send_credits(s, qp_idx, count)),
        flow_state_wf(spec_consume_recv_credits(s, qp_idx, count)),
        flow_state_wf(spec_post_recv_credits(s, qp_idx, count)),
        flow_state_wf(spec_post_recv_credits_for_msg_size(s, qp_idx, count, msg_size)),
        flow_state_wf(spec_reset(s)),
{
}

/// Posting for a message size adds exactly `count` to the queue pair's
/// lifetime count of posted buffers, also across a message size switch,
/// leaves every other queue pair alone, and leaves the queue pair tracking
/// that size: it then needs buffers for it only while below the receive depth.
pub proof fn lemma_post_for_msg_size_accounting(s: FlowState, qp_idx: int, count: u32, msg_size: u32)
    requires
        flow_state_wf(s),
        0 <= qp_idx < s.send_credits.len(),
        post_for_msg_size_fits(s, qp_idx, count, msg_size),
    ensures
        ({
            let t = spec_post_recv_credits_for_msg_size(s, qp_idx, count, msg_size);
            &&& t.posted_recv_per_qp[qp_idx] == s.posted_recv_per_qp[qp_idx] + count
            &&& t.recv_credits[qp_idx] == count + (if s.qp_recv_msg_size[qp_idx] == msg_size {
                s.recv_credits[qp_idx] as int
            } else {
                0
            })
            &&& t.qp_recv_msg_size[qp_idx] == msg_size
            &&& spec_needs_recv_buffers_for_msg_size(t, qp_idx, msg_size) == (t.recv_credits[qp_idx] < s.rx_depth)
            &&& forall|j: int|
                0 <= j < s.send_credits.len() && j != qp_idx ==> {
                    &&& t.recv_credits[j] == s.recv_credits[j]
                    &&& t.posted_recv_per_qp[j] == s.posted_recv_per_qp[j]
                    &&& t.qp_recv_msg_size[j] == s.qp_recv_msg_size[j]
                    &&& t.qp_recv_buffers_for_msg_size[j] == s.qp_recv_buffers_for_msg_size[j]
                    &&& t.send_credits[j] == s.send_credits[j]
                }
        }),
{
}

/// A queue pair never posts a batch larger than the post list or its send
/// credits, so consuming the batch never drives its credits below zero;
/// with credits left, the batch is the whole post list or all its credits.
pub proof fn lemma_send_batch_within_credits(s: FlowState, qp_idx: int, post_list: usize)
    requires
        0 <= qp_idx < s.send_credits.len(),
    ensures
        spec_send_batch_size(s, qp_idx, post_list) <= post_list,
        s.send_credits[qp_idx] <= 0 ==> spec_send_batch_size(s, qp_idx, post_list) == 0,
        s.send_credits[qp_idx] > 0 ==> s.send_credits[qp_idx] - spec_send_batch_size(s, qp_idx, post_list) >= 0,
        s.send_credits[qp_idx] > 0 ==> spec_send_batch_size(s, qp_idx, post_list) == post_list
            || spec_send_batch_size(s, qp_idx, post_list) == s.send_credits[qp_idx],
{
}

/// Posting the receive batch that `receive_batch_size` asks for never takes
/// a queue pair above the receive depth.
pub proof fn lemma_receive_batch_within_depth(
    s: FlowState,
    qp_idx: int,
    msg_size: u32,
    iterations: u32,
    round: u32,
    qp_completed: u32,
)
    requires
        flow_state_wf(s),
        0 <= qp_idx < s.send_credits.len(),
        receive_batch_defined(s, qp_idx, msg_size, iterations, round, qp_completed),
        s.recv_credits[qp_idx] <= s.rx_depth,
        post_for_msg_size_fits(
            s,
            qp_idx,
            spec_receive_batch_size(s, qp_idx, msg_size, iterations, round, qp_completed),
            msg_size,
        ),
    ensures
        spec_post_recv_credits_for_msg_size(
            s,
            qp_idx,
            spec_receive_batch_size(s, qp_idx, msg_size, iterations, round, qp_completed),
            msg_size,
        ).recv_credits[qp_idx] <= s.rx_depth,
{
}

/// The queue pair index packed into a SEND work request id is read back by
/// `send_completion_qp` for every index below 65536; the id counts as a
/// SEND completion exactly when the operation index's low 16 bits are below 32768.
pub proof fn lemma_send_wr_id_roundtrip(thread_id: usize, qp_idx: usize, global_op_index: u32)
    requires
        qp_idx < 0x10000,
    ensures
        (spec_send_wr_id(thread_id, qp_idx, global_op_index) >> 16u64) & 0xFFFFu64 == qp_idx as u64,
        (spec_send_wr_id(thread_id, qp_idx, global_op_index) & 0xFFFFu64) == (global_op_index & 0xFFFFu32) as u64,
{
    let t = thread_id as u64;
    let q = qp_idx as u64;
    let o = global_op_index;
    assert(q < 0x10000u64 ==> ((((t << 32u64) | (q << 16u64) | ((o & 0xFFFFu32) as u64)) >> 16u64) & 0xFFFFu64) == q)
        by (bit_vector);
    assert((((t << 32u64) | (q << 16u64) | ((o & 0xFFFFu32) as u64)) & 0xFFFFu64) == (o & 0xFFFFu32) as u64)
        by (bit_vector);
}

/// The queue pair index and buffer slot packed into a receive work request
/// id are read back for every index below 65536.
pub proof fn lemma_recv_wr_id_roundtrip(qp_idx: usize, buffer_offset: u32)
    requires
        qp_idx < 0x10000,
    ensures
        (spec_recv_wr_id(qp_idx, buffer_offset) >> 32u64) & 0xFFFFu64 == qp_idx as u64,
        (spec_recv_wr_id(qp_idx, buffer_offset) & 0xFFFF_FFFFu64) == buffer_offset as u64,
{
    let q = qp_idx as u64;
    let o = buffer_offset;
    assert(q < 0x10000u64 ==> ((((q << 32u64) | (o as u64)) >> 32u64) & 0xFFFFu64) == q) by (bit_vector);
    assert((((q << 32u64) | (o as u64)) & 0xFFFF_FFFFu64) == o as u64) by (bit_vector);
}

/// Times queue pair `q` occurs in a list of completions.
pub open spec fn occurrences(qps: Seq<usize>, q: int) -> nat
    decreases qps.len(),
{
    if qps.len() == 0 {
        0
    } else {
        occurrences(qps.drop_last(), q) + (if qps.last() == q { 1nat } else { 0nat })
    }
}

proof fn lemma_occurrences_step(qps: Seq<usize>, i: int, q: int)
    requires
        0 <= i < qps.len(),
    ensures
        occurrences(qps.take(i + 1), q) == occurrences(qps.take(i), q) + (if qps[i] == q { 1nat } else { 0nat }),
{
    assert(qps.take(i + 1).drop_last() =~= qps.take(i));
}

/// Every completion names a queue pair of both the flow control and the
/// worker bookkeeping.
pub open spec fn completions_in_range(qps: Seq<usize>, exec: &SendOperationExecutor, ctx: &WorkerContext) -> bool {
    forall|i: int|
        0 <= i < qps.len() ==> #[trigger] qps[i] < exec.spec_flow_control().send_credits@.len() && qps[i]
            < ctx.qp_completion_counts@.len()
}

/// Send credits after every completion in `qps` returned one credit.
pub open spec fn credits_after_sends(s: FlowState, qps: Seq<usize>) -> Seq<i32> {
    Seq::new(s.send_credits.len(), |q: int| (s.send_credits[q] + occurrences(qps, q)) as i32)
}

/// Per queue pair completion counts after the completions in `qps`.
pub open spec fn counts_after(counts: Seq<u32>, qps: Seq<usize>) -> Seq<u32> {
    Seq::new(counts.len(), |q: int| (counts[q] + occurrences(qps, q)) as u32)
}

/// Handles SEND completions of the queue pairs in `qps` (one entry per
/// completion): each returns a send credit to its queue pair and counts as
/// a completed request. Returns the number handled.
pub fn process_send_completions(ctx: &mut WorkerContext, exec: &mut SendOperationExecutor, qps: &[usize]) -> (r: u32)
    requires
        completions_in_range(qps@, old(exec), old(ctx)),
        forall|q: int|
            0 <= q < old(exec).spec_flow_control()@.send_credits.len() ==> old(exec).spec_flow_control()@.send_credits[q]
                + occurrences(qps@, q) <= i32::MAX,
        forall|q: int|
            0 <= q < old(ctx).qp_completion_counts@.len() ==> old(ctx).qp_completion_counts@[q] + occurrences(qps@, q)
                <= u32::MAX,
        old(ctx).completed_requests + qps@.len() <= u32::MAX,
    ensures
        r == qps@.len(),
        final(exec).spec_flow_control()@ == (FlowState {
            send_credits: credits_after_sends(old(exec).spec_flow_control()@, qps@),
            ..old(exec).spec_flow_control()@
        }),
        final(exec).spec_use_immediate_data() == old(exec).spec_use_immediate_data(),
        *final(ctx) == (WorkerContext {
            qp_completion_counts: final(ctx).qp_completion_counts,
            completed_requests: (old(ctx).completed_requests + qps@.len()) as u32,
            inflight_requests: sat_sub(old(ctx).inflight_requests, qps@.len() as u32),
            ..*old(ctx)
        }),
        final(ctx).qp_completion_counts@ == counts_after(old(ctx).qp_completion_counts@, qps@),
{
    let ghost s0 = exec.spec_flow_control()@;
    let ghost c0 = *ctx;
    let mut count: u32 = 0;
    let mut i: usize = 0;
    assert(qps@.take(0) =~= Seq::<usize>::empty());
    assert(credits_after_sends(s0, qps@.take(0)) =~= s0.send_credits);
    assert(counts_after(c0.qp_completion_counts@, qps@.take(0)) =~= c0.qp_completion_counts@);
    while i < qps.len()
        invariant
            i <= qps@.len(),
            count == i,
            completions_in_range(qps@, old(exec), old(ctx)),
            s0 == old(exec).spec_flow_control()@,
            c0 == *old(ctx),
            forall|q: int| 0 <= q < s0.send_credits.len() ==> s0.send_credits[q] + occurrences(qps@, q) <= i32::MAX,
            forall|q: int|
                0 <= q < c0.qp_completion_counts@.len() ==> c0.qp_completion_counts@[q] + occurrences(qps@, q)
                    <= u32::MAX,
            c0.completed_requests + qps@.len() <= u32::MAX,
            exec.spec_flow_control()@ == (FlowState {
                send_credits: credits_after_sends(s0, qps@.take(i as int)),
                ..s0
            }),
            exec.spec_flow_control().send_credits@.len() == s0.send_credits.len(),
            exec.spec_use_immediate_data() == old(exec).spec_use_immediate_data(),
            *ctx == (WorkerContext {
                qp_completion_counts: ctx.qp_completion_counts,
                completed_requests: (c0.completed_requests + i) as u32,
                inflight_requests: sat_sub(c0.inflight_requests, i as u32),
                ..c0
            }),
            ctx.qp_completion_counts@ == counts_after(c0.qp_completion_counts@, qps@.take(i as int)),
        decreases qps@.len() - i,
    {
        let q = qps[i];
        proof {
            assert forall|k: int| 0 <= k < s0.send_credits.len() implies occurrences(qps@.take(i + 1), k)
                <= occurrences(qps@, k) by {
                lemma_occurrences_prefix_bound(qps@, i + 1, k);
            }
            lemma_occurrences_step(qps@, i as int, q as int);
            lemma_occurrences_prefix_bound(qps@, i + 1, q as int);
            assert(exec.spec_flow_control()@.send_credits[q as int] == s0.send_credits[q as int] + occurrences(
                qps@.take(i as int),
                q as int,
            ));
            assert(ctx.qp_completion_counts@[q as int] == c0.qp_completion_counts@[q as int] + occurrences(
                qps@.take(i as int),
                q as int,
            ));
        }
        exec.handle_send_completion(q, 1);
        ctx.record_qp_requests_completed(q, 1);
        count = count + 1;
        i = i + 1;
        proof {
            assert forall|k: int| 0 <= k < s0.send_credits.len() implies #[trigger] occurrences(qps@.take(i as int), k)
                == occurrences(qps@.take(i - 1), k) + (if q == k { 1nat } else { 0nat }) by {
                lemma_occurrences_step(qps@, i - 1, k);
            }
            assert forall|k: int| 0 <= k < c0.qp_completion_counts@.len() implies #[trigger] occurrences(
                qps@.take(i as int),
                k,
            ) == occurrences(qps@.take(i - 1), k) + (if q == k { 1nat } else { 0nat }) by {
                lemma_occurrences_step(qps@, i - 1, k);
            }
            assert(exec.spec_flow_control()@.send_credits =~= credits_after_sends(s0, qps@.take(i as int)));
            assert(ctx.qp_completion_counts@ =~= counts_after(c0.qp_completion_counts@, qps@.take(i as int)));
        }
    }
    assert(qps@.take(qps@.len() as int) =~= qps@);
    count
}

/// Receive credits after every completion in `qps` consumed one buffer.
pub open spec fn recv_credits_after(s: FlowState, qps: Seq<usize>) -> Seq<u32> {
    Seq::new(s.recv_credits.len(), |q: int| saturating_sub(s.recv_credits[q], occurrences(qps, q) as u32))
}

/// Handles receive completions of the queue pairs in `qps` (one entry per
/// completion): each consumes a receive buffer of its queue pair and, when
/// `track_progress` (a one-way server, whose progress is what it receives),
/// counts as a completed request. Returns the number handled.
pub fn process_recv_completions(
    ctx: &mut WorkerContext,
    exec: &mut SendOperationExecutor,
    qps: &[usize],
    track_progress: bool,
) -> (r: u32)
    requires
        flow_state_wf(old(exec).spec_flow_control()@),
        completions_in_range(qps@, old(exec), old(ctx)),
        qps@.len() <= u32::MAX,
        track_progress ==> forall|q: int|
            0 <= q < old(ctx).qp_completion_counts@.len() ==> old(ctx).qp_completion_counts@[q] + occurrences(qps@, q)
                <= u32::MAX,
        track_progress ==> old(ctx).completed_requests + qps@.len() <= u32::MAX,
    ensures
        r == qps@.len(),
        final(exec).spec_flow_control()@ == (FlowState {
            recv_credits: recv_credits_after(old(exec).spec_flow_control()@, qps@),
            ..old(exec).spec_flow_control()@
        }),
        final(exec).spec_use_immediate_data() == old(exec).spec_use_immediate_data(),
        !track_progress ==> *final(ctx) == *old(ctx),
        track_progress ==> *final(ctx) == (WorkerContext {
            qp_completion_counts: final(ctx).qp_completion_counts,
            completed_requests: (old(ctx).completed_requests + qps@.len()) as u32,
            inflight_requests: sat_sub(old(ctx).inflight_requests, qps@.len() as u32),
            ..*old(ctx)
        }),
        track_progress ==> final(ctx).qp_completion_counts@ == counts_after(old(ctx).qp_completion_counts@, qps@),
{
    let ghost s0 = exec.spec_flow_control()@;
    let ghost c0 = *ctx;
    let mut count: u32 = 0;
    let mut i: usize = 0;
    assert(qps@.take(0) =~= Seq::<usize>::empty());
    assert(recv_credits_after(s0, qps@.take(0)) =~= s0.recv_credits);
    assert(counts_after(c0.qp_completion_counts@, qps@.take(0)) =~= c0.qp_completion_counts@);
    while i < qps.len()
        invariant
            i <= qps@.len(),
            qps@.len() <= u32::MAX,
            count == i,
            flow_state_wf(s0),
            completions_in_range(qps@, old(exec), old(ctx)),
            s0 == old(exec).spec_flow_control()@,
            c0 == *old(ctx),
            track_progress ==> forall|q: int|
                0 <= q < c0.qp_completion_counts@.len() ==> c0.qp_completion_counts@[q] + occurrences(qps@, q)
                    <= u32::MAX,
            track_progress ==> c0.completed_requests + qps@.len() <= u32::MAX,
            exec.spec_flow_control()@ == (FlowState { recv_credits: recv_credits_after(s0, qps@.take(i as int)), ..s0 }),
            exec.spec_flow_control().recv_credits@.len() == s0.recv_credits.len(),
            exec.spec_use_immediate_data() == old(exec).spec_use_immediate_data(),
            !track_progress ==> *ctx == c0,
            track_progress ==> *ctx == (WorkerContext {
                qp_completion_counts: ctx.qp_completion_counts,
                completed_requests: (c0.completed_requests + i) as u32,
                inflight_requests: sat_sub(c0.inflight_requests, i as u32),
                ..c0
            }),
            track_progress ==> ctx.qp_completion_counts@ == counts_after(c0.qp_completion_counts@, qps@.take(i as int)),
        decreases qps@.len() - i,
    {
        let q = qps[i];
        proof {
            lemma_occurrences_step(qps@, i as int, q as int);
            lemma_occurrences_prefix_bound(qps@, i + 1, q as int);
        }
        exec.handle_recv_completion(q, 1);
        if track_progress {
            ctx.record_qp_requests_completed(q, 1);
        }
        count = count + 1;
        i = i + 1;
        proof {
            assert forall|k: int| 0 <= k < s0.recv_credits.len() implies #[trigger] occurrences(qps@.take(i as int), k)
                == occurrences(qps@.take(i - 1), k) + (if q == k { 1nat } else { 0nat }) by {
                lemma_occurrences_step(qps@, i - 1, k);
            }
            assert forall|k: int| 0 <= k < c0.qp_completion_counts@.len() implies #[trigger] occurrences(
                qps@.take(i as int),
                k,
            ) == occurrences(qps@.take(i - 1), k) + (if q == k { 1nat } else { 0nat }) by {
                lemma_occurrences_step(qps@, i - 1, k);
            }
            assert forall|k: int| 0 <= k < s0.recv_credits.len() implies occurrences(qps@.take(i as int), k)
                <= i by {
                lemma_occurrences_len_bound(qps@.take(i as int), k);
            }
            assert(exec.spec_flow_control()@.recv_credits =~= recv_credits_after(s0, qps@.take(i as int)));
            if track_progress {
                assert(ctx.qp_completion_counts@ =~= counts_after(c0.qp_completion_counts@, qps@.take(i as int)));
            }
        }
    }
    assert(qps@.take(qps@.len() as int) =~= qps@);
    count
}

/// A queue pair occurs in a list at most as often as the list is long.
proof fn lemma_occurrences_len_bound(qps: Seq<usize>, q: int)
    ensures
        occurrences(qps, q) <= qps.len(),
    decreases qps.len(),
{
    if qps.len() > 0 {
        lemma_occurrences_len_bound(qps.drop_last(), q);
    }
}

/// A prefix of a completion list holds a queue pair no more often than the list.
proof fn lemma_occurrences_prefix_bound(qps: Seq<usize>, i: int, q: int)
    requires
        0 <= i <= qps.len(),
    ensures
        occurrences(qps.take(i), q) <= occurrences(qps, q),
    decreases qps.len() - i,
{
    if i < qps.len() {
        lemma_occurrences_step(qps, i, q);
        lemma_occurrences_prefix_bound(qps, i + 1, q);
    } else {
        assert(qps.take(i) =~= qps);
    }
}

/// What one round of the SEND bandwidth loop does besides polling.
#[derive(Debug, Clone, Copy)]
pub struct SendRoundPlan {
    /// Whether to check (and refill) the receive buffers first.
    pub check_receive_buffers: bool,
    /// SEND requests to post this round (0 for none).
    pub post_list_size: usize,
}

/// Plans round `iteration` of the SEND bandwidth loop: a server checks its
/// receive buffers every tenth round; an end that sends (a client, or
/// either end both ways) posts the configured post list, but no more than
/// the requests not yet completed, when it may post.
pub fn plan_send_round(
    iteration: u64,
    server: bool,
    bidirectional: bool,
    can_post: bool,
    total_requests: u32,
    completed_requests: u32,
    post_list: u32,
) -> (r: SendRoundPlan)
    requires
        completed_requests <= total_requests,
    ensures
        r.check_receive_buffers == (server && iteration % 10 == 0),
        r.post_list_size == (if (!server || bidirectional) && can_post {
            if post_list < total_requests - completed_requests {
                post_list as int
            } else {
                total_requests - completed_requests
            }
        } else {
            0
        }),
{
    let check_receive_buffers = server && iteration % 10 == 0;
    let post_list_size = if (!server || bidirectional) && can_post {
        let remaining_requests = total_requests - completed_requests;
        (if post_list < remaining_requests { post_list } else { remaining_requests }) as usize
    } else {
        0
    };
    SendRoundPlan { check_receive_buffers, post_list_size }
}

/// Completions a SEND latency test waits for: a server sees each request's
/// SEND and receive completion, a client only the SEND.
pub fn latency_completions_needed(server: bool, total_requests: u32) -> (r: u32)
    requires
        server ==> total_requests * 2 <= u32::MAX,
    ensures
        r == (if server { total_requests * 2 } else { total_requests as int }),
{
    if server { total_requests * 2 } else { total_requests }
}

/// Completions one ping of a SEND latency test yields.
pub fn latency_round_completions(server: bool) -> (r: u32)
    ensures
        r == (if server { 2u32 } else { 1u32 }),
{
    if server { 2 } else { 1 }
}

/// Whether a ping is complete: its SEND completed and, on a server, its
/// receive too.
pub fn latency_wait_done(server: bool, send_completed: bool, recv_completed: bool) -> (r: bool)
    ensures
        r == (send_completed && (!server || recv_completed)),
{
    send_completed && (!server || recv_completed)
}

pub open spec fn bool_text(b: bool) -> Seq<char> {
    if b { "true"@ } else { "false"@ }
}

fn bool_str(b: bool) -> (r: &'static str)
    ensures
        r@ == bool_text(b),
{
    if b { "true" } else { "false" }
}

/// The error text of a ping whose completions did not all arrive in time.
pub fn latency_timeout_message(send_completed: bool, recv_completed: bool, server: bool) -> (r: String)
    ensures
        r@ == "Timeout waiting for completions. Send: "@ + bool_text(send_completed) + ", Recv: "@ + bool_text(
            recv_completed,
        ) + " ("@ + (if server { "required"@ } else { "not required"@ }) + ")"@,
{
    let mut m = "Timeout waiting for completions. Send: ".to_owned();
    m.append(bool_str(send_completed));
    m.append(", Recv: ");
    m.append(bool_str(recv_completed));
    m.append(" (");
    m.append(if server { "required" } else { "not required" });
    m.append(")");
    m
}


/// When a queue pair needs receive buffers for `msg_size`, the batch that
/// `receive_batch_size` asks for fills it up to the receive depth or up to
/// the iterations it still has to receive, whichever comes first: after
/// posting, its receive credits exceed neither, and reach one of them.
/// Otherwise the batch is empty.
pub proof fn lemma_receive_batch_fills_to_limit(
    s: FlowState,
    qp_idx: int,
    msg_size: u32,
    iterations: u32,
    round: u32,
    qp_completed: u32,
)
    requires
        0 <= qp_idx < s.recv_credits.len(),
        receive_batch_defined(s, qp_idx, msg_size, iterations, round, qp_completed),
    ensures
        ({
            let batch = spec_receive_batch_size(s, qp_idx, msg_size, iterations, round, qp_completed);
            let after = s.recv_credits[qp_idx] + batch;
            let to_receive = iterations * round - qp_completed;
            if spec_needs_recv_buffers_for_msg_size(s, qp_idx, msg_size) {
                &&& after <= s.rx_depth
                &&& after <= to_receive
                &&& (after == s.rx_depth || after == to_receive)
            } else {
                batch == 0
            }
        }),
{
}

} // verus!

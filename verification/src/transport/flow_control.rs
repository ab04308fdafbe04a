//! Credit-based flow control between two ends, after perftest: the sender
//! holds credits for the receive buffers of its peer, and the receiver
//! tells it through a four-byte credit word how many messages it processed.

use vstd::prelude::*;
use vstd::endian::{endianness, Endian};
use memmap2::MmapMut;
use crate::memory::hugepage::{io_error_text, map_anon_regular, mmap_address, mmap_contents};
use crate::memory::ops::MemoryError;

verus! {

/// The four bytes of `v`, least significant first.
pub open spec fn le_word(v: u32) -> Seq<u8> {
    seq![v as u8, (v >> 8u32) as u8, (v >> 16u32) as u8, (v >> 24u32) as u8]
}

/// The four bytes of `v`, most significant first.
pub open spec fn be_word(v: u32) -> Seq<u8> {
    seq![(v >> 24u32) as u8, (v >> 16u32) as u8, (v >> 8u32) as u8, v as u8]
}

/// The four bytes of `v` in the machine's byte order (`u32::to_ne_bytes`).
pub open spec fn ne_word(v: u32) -> Seq<u8> {
    match endianness() {
        Endian::Little => le_word(v),
        Endian::Big => be_word(v),
    }
}

/// Stores `v` in the first four bytes of a map, in the machine's byte
/// order (`copy_from_slice` of `u32::to_ne_bytes` into `DerefMut` of the
/// map); the other bytes stay. What the bytes hold later is not stated, as
/// the peer may write them.
#[verifier::external_body]
fn store_word(m: &mut MmapMut, v: u32)
    requires
        mmap_contents(*old(m)).len() >= 4,
    ensures
        mmap_contents(*final(m)) == ne_word(v) + mmap_contents(*old(m)).skip(4),
{
    m[..4].copy_from_slice(&v.to_ne_bytes());
}

/// Loads the first four bytes of a map as a number in the machine's byte
/// order; the peer may have written them, so nothing is stated of the value.
#[verifier::external_body]
fn load_word(m: &MmapMut) -> u32
    requires
        mmap_contents(*m).len() >= 4,
{
    let mut b = [0u8; 4];
    b.copy_from_slice(&m[..4]);
    u32::from_ne_bytes(b)
}

/// Size of the credit word in bytes.
pub const CREDIT_WORD_SIZE: usize = 4;

/// Work request id that marks a credit update write.
pub const CREDIT_UPDATE_WR_ID: u64 = 0xFFFF_FFFF;

/// Where the peer's credit word is.
#[derive(Clone, Copy, Debug)]
pub struct RemoteMemoryInfo {
    pub addr: u64,
    pub rkey: u32,
}

/// A four-byte anonymous map for a credit word.
fn map_credit_word() -> (r: Result<MmapMut, MemoryError>)
    ensures
        r matches Ok(m) ==> mmap_contents(m).len() == CREDIT_WORD_SIZE,
        r matches Err(e) ==> e is AllocationFailed,
{
    match map_anon_regular(CREDIT_WORD_SIZE) {
        Ok(m) => Ok(m),
        Err(e) => Err(MemoryError::AllocationFailed(io_error_text(&e))),
    }
}

/// Sender side: the credits left, and where to write credit updates.
pub struct FlowControl {
    credit_map: MmapMut,
    credit_address: usize,
    credit_counter: u32,
    initial_credit: u32,
    credit_threshold: u32,
    remote_info: Option<RemoteMemoryInfo>,
    seen: Ghost<Option<u32>>,
}

impl FlowControl {
    pub closed spec fn wf(&self) -> bool {
        mmap_contents(self.credit_map).len() == CREDIT_WORD_SIZE
    }

    pub closed spec fn credits(&self) -> u32 {
        self.credit_counter
    }

    pub closed spec fn spec_initial_credit(&self) -> u32 {
        self.initial_credit
    }

    pub closed spec fn spec_credit_threshold(&self) -> u32 {
        self.credit_threshold
    }

    pub closed spec fn spec_remote_info(&self) -> Option<RemoteMemoryInfo> {
        self.remote_info
    }

    /// Address of the local credit word, as the system placed it.
    pub closed spec fn spec_credit_address(&self) -> usize {
        self.credit_address
    }

    /// The bytes of the local credit word.
    pub closed spec fn word(&self) -> Seq<u8> {
        mmap_contents(self.credit_map)
    }

    /// The count last read from the credit word by `process_remote_update`,
    /// if any (the peer writes that word, so only the reading is recorded).
    pub closed spec fn seen(&self) -> Option<u32> {
        self.seen@
    }

    /// A sender with `initial_credit` credits that updates its peer every
    /// third of them.
    pub fn new(initial_credit: u32) -> (r: Result<FlowControl, MemoryError>)
        ensures
            r matches Ok(f) ==> {
                &&& f.wf()
                &&& f.credits() == initial_credit
                &&& f.spec_initial_credit() == initial_credit
                &&& f.spec_credit_threshold() == initial_credit / 3
                &&& f.spec_remote_info() is None
                &&& f.seen() is None
            },
            r matches Err(e) ==> e is AllocationFailed,
    {
        let credit_map = match map_credit_word() {
            Ok(m) => m,
            Err(e) => return Err(e),
        };
        let credit_address = mmap_address(&credit_map);
        Ok(
            FlowControl {
                credit_map,
                credit_address,
                credit_counter: initial_credit,
                initial_credit,
                credit_threshold: initial_credit / 3,
                remote_info: None,
                seen: Ghost(None),
            },
        )
    }

    /// Address of the local credit word; the word never moves, so every
    /// call gives the same one.
    pub fn credit_word_address(&self) -> (r: usize)
        ensures
            r == self.spec_credit_address(),
    {
        self.credit_address
    }

    /// Size of the local credit word.
    pub fn credit_word_len(&self) -> (r: usize)
        ensures
            r == CREDIT_WORD_SIZE,
    {
        CREDIT_WORD_SIZE
    }

    /// Records where the peer's credit word is.
    pub fn set_remote_info(&mut self, addr: u64, rkey: u32)
        ensures
            final(self).spec_remote_info() == Some(RemoteMemoryInfo { addr, rkey }),
            final(self).word() == old(self).word(),
            final(self).seen() == old(self).seen(),
            final(self).credits() == old(self).credits(),
            final(self).spec_initial_credit() == old(self).spec_initial_credit(),
            final(self).spec_credit_threshold() == old(self).spec_credit_threshold(),
            final(self).wf() == old(self).wf(),
    {
        self.remote_info = Some(RemoteMemoryInfo { addr, rkey });
    }

    /// Whether a credit is left.
    pub fn has_credit(&self) -> (r: bool)
        ensures
            r == (self.credits() > 0),
    {
        self.credit_counter > 0
    }

    /// Takes a credit (the count wraps below zero, as the atomic it stands
    /// for does).
    pub fn consume_credit(&mut self)
        ensures
            final(self).credits() == (if old(self).credits() == 0 { u32::MAX } else { (old(self).credits()
                - 1) as u32 }),
            final(self).word() == old(self).word(),
            final(self).seen() == old(self).seen(),
            final(self).spec_initial_credit() == old(self).spec_initial_credit(),
            final(self).spec_credit_threshold() == old(self).spec_credit_threshold(),
            final(self).spec_remote_info() == old(self).spec_remote_info(),
            final(self).wf() == old(self).wf(),
    {
        self.credit_counter = self.credit_counter.wrapping_sub(1);
    }

    /// Whether `completed` completions call for a credit update: every
    /// multiple of the threshold.
    pub fn should_update_credit(&self, completed: u32) -> (r: bool)
        requires
            self.spec_credit_threshold() > 0,
        ensures
            r == (completed % self.spec_credit_threshold() == 0),
    {
        completed % self.credit_threshold == 0
    }

    /// Writes `completed` to the local credit word.
    pub fn update_credit(&mut self, completed: u32)
        requires
            old(self).wf(),
        ensures
            final(self).wf(),
            final(self).word() == ne_word(completed),
            final(self).seen() == old(self).seen(),
            final(self).spec_credit_address() == old(self).spec_credit_address(),
            final(self).credits() == old(self).credits(),
            final(self).spec_initial_credit() == old(self).spec_initial_credit(),
            final(self).spec_credit_threshold() == old(self).spec_credit_threshold(),
            final(self).spec_remote_info() == old(self).spec_remote_info(),
    {
        store_word(&mut self.credit_map, completed);
        assert(mmap_contents(self.credit_map) =~= ne_word(completed));
    }

    /// Prepares a credit update of `completed` to the peer: where the peer's
    /// word is known and the local word is `registered` with the device, it
    /// writes `completed` to the local word and returns where to copy it to.
    pub fn prepare_credit_update(&mut self, completed: u32, registered: bool) -> (r: Option<RemoteMemoryInfo>)
        requires
            old(self).wf(),
        ensures
            r == (if registered { old(self).spec_remote_info() } else { None }),
            final(self).word() == (if r is Some { ne_word(completed) } else { old(self).word() }),
            final(self).wf(),
            final(self).credits() == old(self).credits(),
            final(self).spec_initial_credit() == old(self).spec_initial_credit(),
            final(self).spec_credit_threshold() == old(self).spec_credit_threshold(),
            final(self).spec_remote_info() == old(self).spec_remote_info(),
    {
        match self.remote_info {
            Some(info) => {
                if registered {
                    self.update_credit(completed);
                    Some(info)
                } else {
                    None
                }
            },
            None => None,
        }
    }

    /// The count the peer last wrote to the local credit word.
    pub fn check_remote_credit(&self) -> u32
        requires
            self.wf(),
    {
        load_word(&self.credit_map)
    }

    pub open spec fn credits_after_update(&self, remote_completed: u32) -> u32 {
        let fresh = if remote_completed >= self.spec_initial_credit() {
            0
        } else {
            (self.spec_initial_credit() - remote_completed) as u32
        };
        if fresh > self.credits() { fresh } else { self.credits() }
    }

    /// Takes in that the peer processed `remote_completed` messages: the
    /// credits become what is left of the initial credit, if that is more.
    pub fn apply_remote_update(&mut self, remote_completed: u32)
        ensures
            final(self).credits() == old(self).credits_after_update(remote_completed),
            final(self).word() == old(self).word(),
            final(self).seen() == old(self).seen(),
            final(self).spec_initial_credit() == old(self).spec_initial_credit(),
            final(self).spec_credit_threshold() == old(self).spec_credit_threshold(),
            final(self).spec_remote_info() == old(self).spec_remote_info(),
            final(self).wf() == old(self).wf(),
    {
        let current_credit = self.credit_counter;
        let new_credit = self.initial_credit.saturating_sub(remote_completed);
        if new_credit > current_credit {
            self.credit_counter = new_credit;
        }
    }

    /// Takes in the count the peer wrote to the local credit word: the value
    /// read is recorded, and the credits become what is left of the initial
    /// credit after it, if that is more. So the credits never go down and
    /// never rise above the initial credit by it.
    pub fn process_remote_update(&mut self)
        requires
            old(self).wf(),
        ensures
            final(self).wf(),
            final(self).seen() matches Some(w) && final(self).credits() == old(self).credits_after_update(w),
            final(self).word() == old(self).word(),
            final(self).credits() >= old(self).credits(),
            final(self).credits() == old(self).credits() || final(self).credits() <= old(
                self,
            ).spec_initial_credit(),
            final(self).spec_initial_credit() == old(self).spec_initial_credit(),
            final(self).spec_credit_threshold() == old(self).spec_credit_threshold(),
            final(self).spec_remote_info() == old(self).spec_remote_info(),
    {
        let remote_completed = self.check_remote_credit();
        self.apply_remote_update(remote_completed);
        self.seen = Ghost(Some(remote_completed));
    }

    /// Back to the initial credits, with a cleared credit word.
    pub fn reset(&mut self)
        requires
            old(self).wf(),
        ensures
            final(self).wf(),
            final(self).credits() == old(self).spec_initial_credit(),
            final(self).word() == ne_word(0),
            final(self).spec_initial_credit() == old(self).spec_initial_credit(),
            final(self).spec_credit_threshold() == old(self).spec_credit_threshold(),
            final(self).spec_remote_info() == old(self).spec_remote_info(),
    {
        self.credit_counter = self.initial_credit;
        self.update_credit(0);
    }
}

/// Receiver side: the messages processed, published through the credit
/// word every threshold.
pub struct FlowControlReceiver {
    credit_map: MmapMut,
    credit_address: usize,
    processed_count: u32,
    credit_threshold: u32,
}

impl FlowControlReceiver {
    pub closed spec fn wf(&self) -> bool {
        mmap_contents(self.credit_map).len() == CREDIT_WORD_SIZE
    }

    pub closed spec fn processed(&self) -> u32 {
        self.processed_count
    }

    /// Address of the credit word, as the system placed it.
    pub closed spec fn spec_credit_address(&self) -> usize {
        self.credit_address
    }

    /// The bytes of the credit word.
    pub closed spec fn word(&self) -> Seq<u8> {
        mmap_contents(self.credit_map)
    }

    pub closed spec fn spec_credit_threshold(&self) -> u32 {
        self.credit_threshold
    }

    /// A receiver for a receive queue of `rx_depth` that publishes its count
    /// every third of the depth.
    pub fn new(rx_depth: u32) -> (r: Result<FlowControlReceiver, MemoryError>)
        ensures
            r matches Ok(f) ==> f.wf() && f.processed() == 0 && f.spec_credit_threshold() == rx_depth / 3,
            r matches Err(e) ==> e is AllocationFailed,
    {
        let credit_map = match map_credit_word() {
            Ok(m) => m,
            Err(e) => return Err(e),
        };
        let credit_address = mmap_address(&credit_map);
        Ok(FlowControlReceiver { credit_map, credit_address, processed_count: 0, credit_threshold: rx_depth / 3 })
    }

    /// Address of the credit word; the word never moves, so every call
    /// gives the same one.
    pub fn credit_word_address(&self) -> (r: usize)
        ensures
            r == self.spec_credit_address(),
    {
        self.credit_address
    }

    /// Counts a processed message; on every multiple of the threshold the
    /// count is written to the credit word, and the result says so.
    pub fn process_completion(&mut self) -> (r: bool)
        requires
            old(self).wf(),
            old(self).processed() < u32::MAX,
            old(self).spec_credit_threshold() > 0,
        ensures
            final(self).wf(),
            final(self).processed() == old(self).processed() + 1,
            final(self).spec_credit_threshold() == old(self).spec_credit_threshold(),
            final(self).spec_credit_address() == old(self).spec_credit_address(),
            r == (final(self).processed() % final(self).spec_credit_threshold() == 0),
            r ==> final(self).word() == ne_word(final(self).processed()),
            !r ==> final(self).word() == old(self).word(),
    {
        self.processed_count = self.processed_count + 1;
        let should_update = self.processed_count % self.credit_threshold == 0;
        if should_update {
            store_word(&mut self.credit_map, self.processed_count);
            assert(mmap_contents(self.credit_map) =~= ne_word(self.processed_count));
        }
        should_update
    }

    /// Messages processed so far.
    pub fn get_processed_count(&self) -> (r: u32)
        ensures
            r == self.processed(),
    {
        self.processed_count
    }

    /// The count last written to the credit word.
    pub fn get_remote_processed_count(&self) -> u32
        requires
            self.wf(),
    {
        load_word(&self.credit_map)
    }

    /// Back to no messages processed, with a cleared credit word.
    pub fn reset(&mut self)
        requires
            old(self).wf(),
        ensures
            final(self).wf(),
            final(self).processed() == 0,
            final(self).spec_credit_threshold() == old(self).spec_credit_threshold(),
            final(self).spec_credit_address() == old(self).spec_credit_address(),
            final(self).word() == ne_word(0),
    {
        self.processed_count = 0;
        store_word(&mut self.credit_map, 0);
        assert(mmap_contents(self.credit_map) =~= ne_word(0));
    }
}

/// Applying a peer update never lowers the credits, and a peer that
/// processed nothing restores the initial credit.
pub proof fn lemma_remote_update_monotone(f: FlowControl, remote_completed: u32)
    ensures
        f.credits_after_update(remote_completed) >= f.credits(),
        remote_completed == 0 ==> f.credits_after_update(remote_completed) >= f.spec_initial_credit(),
        f.credits_after_update(remote_completed) == f.credits() || f.credits_after_update(remote_completed)
            <= f.spec_initial_credit(),
{
}


/// A peer update that reports `remote_completed` processed messages sets
/// the credits to the larger of the old credits and what is left of the
/// initial credit after those messages (nothing when the peer processed the
/// whole initial credit or more).
pub proof fn lemma_remote_update_takes_larger(f: FlowControl, remote_completed: u32)
    ensures
        f.credits_after_update(remote_completed) >= f.credits(),
        remote_completed <= f.spec_initial_credit() ==> f.credits_after_update(remote_completed)
            >= f.spec_initial_credit() - remote_completed,
        f.credits_after_update(remote_completed) == f.credits() || (remote_completed < f.spec_initial_credit()
            && f.credits_after_update(remote_completed) == f.spec_initial_credit() - remote_completed),
{
}

} // verus!

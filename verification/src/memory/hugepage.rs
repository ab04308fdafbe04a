use vstd::prelude::*;
use vstd::arithmetic::power2::pow2;
use memmap2::{MmapMut, MmapOptions};
use crate::memory::mapping::{map_with_page_size, MapTry};
use crate::memory::ops::{overwrite, read_into, MemoryError, MemoryOps};

verus! {

#[verifier::external_type_specification]
#[verifier::external_body]
pub struct ExMmapMut(MmapMut);

#[verifier::external_type_specification]
#[verifier::external_body]
pub struct ExIoError(std::io::Error);

/// The bytes a memory map holds, as this process reads and writes them
/// (the bytes its `Deref` gives). Writes by a network device into a
/// registered map are not part of this model.
pub uninterp spec fn mmap_contents(m: MmapMut) -> Seq<u8>;

/// The huge page shift that a map was requested with (the value handed to
/// `MmapOptions::huge`, of which memmap2 passes the low six bits to the
/// system), or `None` for a map in ordinary pages.
pub uninterp spec fn mmap_huge_shift(m: MmapMut) -> Option<u8>;

/// Maps `len` bytes of anonymous memory backed by huge pages of `2^shift`
/// bytes (`MmapOptions::new().huge(Some(shift)).len(len).map_anon()`). A map
/// that is made holds `len` bytes and was made with that page size;
/// whether one is made depends on the system.
#[verifier::external_body]
pub(crate) fn map_anon_huge(len: usize, shift: u8) -> (r: Result<MmapMut, std::io::Error>)
    ensures
        r matches Ok(m) ==> mmap_contents(m).len() == len && mmap_huge_shift(m) == Some(shift),
{
    MmapOptions::new().huge(Some(shift)).len(len).map_anon()
}

/// Maps `len` bytes of anonymous memory in ordinary pages
/// (`MmapMut::map_anon`). A map that is made holds `len` bytes and is not
/// in huge pages; whether one is made depends on the system.
#[verifier::external_body]
pub(crate) fn map_anon_regular(len: usize) -> (r: Result<MmapMut, std::io::Error>)
    ensures
        r matches Ok(m) ==> mmap_contents(m).len() == len && mmap_huge_shift(m) is None,
{
    MmapMut::map_anon(len)
}

/// The bytes of a map as a slice (`Deref` of `MmapMut`).
#[verifier::external_body]
fn mmap_bytes(m: &MmapMut) -> (r: &[u8])
    ensures
        r@ == mmap_contents(*m),
{
    &m[..]
}

/// The bytes of a map as a slice to change in place (`DerefMut` of
/// `MmapMut`): what the slice holds in the end is what the map holds.
#[verifier::external_body]
fn mmap_bytes_mut(m: &mut MmapMut) -> (r: &mut [u8])
    ensures
        r@ == mmap_contents(*old(m)),
        mmap_contents(*final(m)) == final(r)@,
        mmap_huge_shift(*final(m)) == mmap_huge_shift(*old(m)),
{
    &mut m[..]
}

/// Address of a map's first byte (`MmapMut::as_ptr`); nothing is stated of
/// the address, which the system chose.
#[verifier::external_body]
pub(crate) fn mmap_address(m: &MmapMut) -> usize {
    m.as_ptr() as usize
}

/// The text of a system error (its `Display`); nothing is stated of it.
#[verifier::external_body]
pub(crate) fn io_error_text(e: &std::io::Error) -> String {
    e.to_string()
}

/// Huge page size used when the asked one cannot be had: 2 MiB.
pub const DEFAULT_HUGEPAGE_SHIFT: u8 = 21;

/// The try after a failed one: 2 MiB pages after any other huge page
/// size, ordinary pages after 2 MiB pages, and nothing after ordinary pages.
pub open spec fn spec_next_attempt(failed: Option<u8>) -> Option<Option<u8>> {
    match failed {
        Some(s) => if s != DEFAULT_HUGEPAGE_SHIFT { Some(Some(DEFAULT_HUGEPAGE_SHIFT)) } else { Some(None) },
        None => None,
    }
}

/// What to try after mapping with page size `failed` (`None`: ordinary
/// pages) failed, or `None` when nothing is left to try.
pub fn next_hugepage_attempt(failed: Option<u8>) -> (r: Option<Option<u8>>)
    ensures
        r == spec_next_attempt(failed),
{
    match failed {
        Some(s) => if s != DEFAULT_HUGEPAGE_SHIFT { Some(Some(DEFAULT_HUGEPAGE_SHIFT)) } else { Some(None) },
        None => None,
    }
}

/// Every page size a buffer asked for with `asked` may try, in order: the
/// asked huge pages (2 MiB by default), then as `spec_next_attempt` says.
pub open spec fn hugepage_chain(asked: Option<u8>) -> Seq<Option<u8>> {
    let shift = match asked {
        Some(s) => s,
        None => DEFAULT_HUGEPAGE_SHIFT,
    };
    if shift != DEFAULT_HUGEPAGE_SHIFT {
        seq![Some(shift), Some(DEFAULT_HUGEPAGE_SHIFT), None]
    } else {
        seq![Some(shift), None]
    }
}

/// Each try of the chain is followed by the one `spec_next_attempt` picks,
/// and the last by nothing.
proof fn lemma_chain_steps(asked: Option<u8>, i: nat)
    requires
        i < hugepage_chain(asked).len(),
    ensures
        i + 1 < hugepage_chain(asked).len() ==> spec_next_attempt(hugepage_chain(asked)[i as int]) == Some(
            hugepage_chain(asked)[i + 1 as int],
        ),
        i + 1 == hugepage_chain(asked).len() ==> spec_next_attempt(hugepage_chain(asked)[i as int]) is None,
{
}

/// The tries up to and including the `i`-th are those `hugepage_tries`
/// gives for a buffer that ended up with the `i`-th.
proof fn lemma_chain_prefix_is_tries(asked: Option<u8>, i: nat)
    requires
        i < hugepage_chain(asked).len(),
    ensures
        hugepage_chain(asked).take(i as int + 1) == hugepage_tries(asked, hugepage_chain(asked)[i as int]),
{
    assert(hugepage_chain(asked).take(i as int + 1) =~= hugepage_tries(asked, hugepage_chain(asked)[i as int]));
}

/// A buffer of anonymous mapped memory, in huge pages where the system has
/// them.
pub struct HugepageMemory {
    map: MmapMut,
    size: usize,
    using_hugepages: bool,
    page_size_shift: Option<u8>,
    address: usize,
    tries: Vec<MapTry>,
}

/// The page sizes a buffer asked for with `asked` tries, in order, when it
/// ends up with `got`: the asked huge pages (2 MiB by default); then, for a
/// custom size, 2 MiB pages; then ordinary pages (`None`).
pub open spec fn hugepage_tries(asked: Option<u8>, got: Option<u8>) -> Seq<Option<u8>> {
    let shift = match asked {
        Some(s) => s,
        None => DEFAULT_HUGEPAGE_SHIFT,
    };
    let custom = asked matches Some(s) && s != DEFAULT_HUGEPAGE_SHIFT;
    if got == Some(shift) {
        seq![Some(shift)]
    } else if custom && got == Some(DEFAULT_HUGEPAGE_SHIFT) {
        seq![Some(shift), Some(DEFAULT_HUGEPAGE_SHIFT)]
    } else if custom {
        seq![Some(shift), Some(DEFAULT_HUGEPAGE_SHIFT), None]
    } else {
        seq![Some(shift), None]
    }
}

impl HugepageMemory {
    pub closed spec fn spec_using_hugepages(&self) -> bool {
        self.using_hugepages
    }

    pub closed spec fn spec_page_size_shift(&self) -> Option<u8> {
        self.page_size_shift
    }

    /// Address of the map's first byte, as the system placed it.
    pub closed spec fn spec_address(&self) -> usize {
        self.address
    }

    /// The page size the map was made with.
    pub closed spec fn spec_mapped_shift(&self) -> Option<u8> {
        mmap_huge_shift(self.map)
    }

    /// The page sizes tried when the buffer was made, in order; the last
    /// one is what it was made with.
    pub closed spec fn spec_tries(&self) -> Seq<Option<u8>> {
        self.tries@.map_values(|t: MapTry| t.spec_shift())
    }

    /// What a buffer of `size` bytes asked for with `page_size_shift` can
    /// be: in the asked huge pages (2 MiB by default), in 2 MiB pages when a
    /// custom size could not be had, or in ordinary pages; mapped with the
    /// page size it records, after trying the sizes before it in that order.
    pub open spec fn allocated_as(&self, size: usize, page_size_shift: Option<u8>) -> bool {
        let shift = match page_size_shift {
            Some(s) => s,
            None => DEFAULT_HUGEPAGE_SHIFT,
        };
        &&& self.wf()
        &&& self.contents().len() == size
        &&& self.spec_mapped_shift() == self.spec_page_size_shift()
        &&& self.spec_using_hugepages() == (self.spec_page_size_shift() is Some)
        &&& self.spec_tries() == hugepage_tries(page_size_shift, self.spec_page_size_shift())
        &&& {
            ||| self.spec_using_hugepages() && self.spec_page_size_shift() == Some(shift)
            ||| self.spec_using_hugepages() && self.spec_page_size_shift() == Some(DEFAULT_HUGEPAGE_SHIFT)
                && (page_size_shift matches Some(s) && s != DEFAULT_HUGEPAGE_SHIFT)
            ||| !self.spec_using_hugepages() && self.spec_page_size_shift() is None
        }
    }

    /// A buffer of `size` bytes in huge pages of `2^shift` bytes (2 MiB when
    /// no shift is given); if those cannot be had, a custom size falls back
    /// to 2 MiB pages, and 2 MiB pages fall back to ordinary memory (each
    /// next try as `next_hugepage_attempt` decides). Fails only if no memory
    /// can be mapped at all.
    pub fn new(size: usize, page_size_shift: Option<u8>) -> (r: Result<HugepageMemory, MemoryError>)
        ensures
            r matches Ok(m) ==> m.allocated_as(size, page_size_shift),
            r matches Err(e) ==> e is AllocationFailed,
    {
        let shift = match page_size_shift {
            Some(s) => s,
            None => DEFAULT_HUGEPAGE_SHIFT,
        };
        let ghost chain = hugepage_chain(page_size_shift);
        let mut attempt: Option<u8> = Some(shift);
        let mut tried: Vec<MapTry> = Vec::new();
        assert(tried@.map_values(|t: MapTry| t.spec_shift()) =~= chain.take(0));
        loop
            invariant
                chain == hugepage_chain(page_size_shift),
                shift == (match page_size_shift {
                    Some(s) => s,
                    None => DEFAULT_HUGEPAGE_SHIFT,
                }),
                tried@.len() < chain.len(),
                tried@.map_values(|t: MapTry| t.spec_shift()) == chain.take(tried@.len() as int),
                attempt == chain[tried@.len() as int],
            decreases chain.len() - tried@.len(),
        {
            let ghost before = tried@;
            let (outcome, record) = map_with_page_size(size, attempt);
            tried.push(record);
            proof {
                assert(tried@.map_values(|t: MapTry| t.spec_shift()) =~= before.map_values(
                    |t: MapTry| t.spec_shift(),
                ).push(attempt));
                assert(tried@.map_values(|t: MapTry| t.spec_shift()) =~= chain.take(before.len() + 1 as int));
            }
            match outcome {
                Ok(map) => {
                    let address = mmap_address(&map);
                    let m = HugepageMemory {
                        map,
                        size,
                        using_hugepages: attempt.is_some(),
                        page_size_shift: attempt,
                        address,
                        tries: tried,
                    };
                    proof {
                        lemma_chain_prefix_is_tries(page_size_shift, before.len());
                    }
                    return Ok(m);
                },
                Err(e) => {
                    proof {
                        lemma_chain_steps(page_size_shift, before.len());
                    }
                    match next_hugepage_attempt(attempt) {
                        Some(next) => {
                            attempt = next;
                        },
                        None => {
                            return Err(MemoryError::AllocationFailed(io_error_text(&e)));
                        },
                    }
                },
            }
        }
    }

    /// The page sizes tried when the buffer was made, in order (`None`:
    /// ordinary pages); the last one is what it was made with.
    pub fn tried_page_sizes(&self) -> (r: Vec<Option<u8>>)
        ensures
            r@ == self.spec_tries(),
    {
        let mut r: Vec<Option<u8>> = Vec::new();
        let mut i: usize = 0;
        while i < self.tries.len()
            invariant
                i <= self.tries@.len(),
                r@ == self.tries@.take(i as int).map_values(|t: MapTry| t.spec_shift()),
            decreases self.tries@.len() - i,
        {
            r.push(self.tries[i].shift());
            proof {
                assert(self.tries@.take(i + 1 as int) =~= self.tries@.take(i as int).push(self.tries@[i as int]));
            }
            i = i + 1;
            assert(r@ =~= self.tries@.take(i as int).map_values(|t: MapTry| t.spec_shift()));
        }
        assert(self.tries@.take(i as int) =~= self.tries@);
        r
    }

    /// Whether the buffer is in huge pages.
    pub fn is_using_hugepages(&self) -> (r: bool)
        ensures
            r == self.spec_using_hugepages(),
    {
        self.using_hugepages
    }

    /// The huge page size, as a power of two, if huge pages are used.
    pub fn page_size_shift(&self) -> (r: Option<u8>)
        ensures
            r == self.spec_page_size_shift(),
    {
        self.page_size_shift
    }

    /// The huge page size in MiB, if huge pages are used.
    pub fn page_size_mb(&self) -> (r: Option<usize>)
        requires
            self.spec_page_size_shift() matches Some(s) ==> 20 <= s < 20 + usize::BITS,
        ensures
            r == (match self.spec_page_size_shift() {
                Some(s) => Some(pow2((s - 20) as nat) as usize),
                None => None,
            }),
    {
        match self.page_size_shift {
            Some(shift) => {
                let k = (shift - 20) as usize;
                proof {
                    vstd::bits::lemma_usize_pow2_no_overflow(k as nat);
                    vstd::bits::lemma_usize_shl_is_mul(1, k);
                }
                Some(1usize << k)
            },
            None => None,
        }
    }
}

impl MemoryOps for HugepageMemory {
    closed spec fn contents(&self) -> Seq<u8> {
        mmap_contents(self.map)
    }

    closed spec fn wf(&self) -> bool {
        mmap_contents(self.map).len() == self.size
    }

    /// Any access whose end can be computed is answered.
    open spec fn admits(&self, offset: usize, len: nat) -> bool {
        offset + len <= usize::MAX
    }

    fn size(&self) -> (r: usize) {
        self.size
    }

    /// Writes `src` at `offset`, or fails if it would reach past the end.
    fn write(&mut self, offset: usize, src: &[u8]) -> (r: Result<(), MemoryError>)
        ensures
            r is Err <==> offset + src@.len() > old(self).contents().len(),
            r is Err ==> r == Err::<(), MemoryError>(MemoryError::WriteOutOfBounds),
    {
        if offset + src.len() > self.size {
            return Err(MemoryError::WriteOutOfBounds);
        }
        let ghost c0 = mmap_contents(self.map);
        let bytes = mmap_bytes_mut(&mut self.map);
        let mut i: usize = 0;
        while i < src.len()
            invariant
                i <= src@.len(),
                offset + src@.len() <= c0.len(),
                c0.len() <= usize::MAX,
                bytes@.len() == c0.len(),
                forall|j: int|
                    0 <= j < c0.len() ==> #[trigger] bytes@[j] == (if offset <= j < offset + i {
                        src@[j - offset]
                    } else {
                        c0[j]
                    }),
            decreases src@.len() - i,
        {
            bytes[offset + i] = src[i];
            i = i + 1;
        }
        assert(bytes@ =~= overwrite(c0, offset as int, src@));
        Ok(())
    }

    /// Reads `dst.len()` bytes at `offset`, or fails if that would reach
    /// past the end.
    fn read(&self, offset: usize, dst: &mut [u8]) -> (r: Result<(), MemoryError>)
        ensures
            r is Err <==> offset + old(dst)@.len() > self.contents().len(),
            r is Err ==> r == Err::<(), MemoryError>(MemoryError::ReadOutOfBounds),
    {
        if offset + dst.len() > self.size {
            return Err(MemoryError::ReadOutOfBounds);
        }
        let bytes = mmap_bytes(&self.map);
        let ghost d0 = dst@;
        let mut i: usize = 0;
        while i < dst.len()
            invariant
                i <= d0.len(),
                dst@.len() == d0.len(),
                offset + d0.len() <= bytes@.len(),
                bytes@.len() <= usize::MAX,
                forall|j: int|
                    0 <= j < d0.len() ==> #[trigger] dst@[j] == (if j < i { bytes@[offset + j] } else { d0[j] }),
            decreases d0.len() - i,
        {
            dst[i] = bytes[offset + i];
            i = i + 1;
        }
        assert(dst@ =~= read_into(d0, bytes@, offset as int));
        Ok(())
    }

    /// The address of the map's first byte; a map never moves, so every
    /// call gives the same one.
    fn get_handle(&self) -> (r: usize)
        ensures
            r == self.spec_address(),
    {
        self.address
    }
}

} // verus!

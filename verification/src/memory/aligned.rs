use vstd::prelude::*;
use vstd::arithmetic::power2::is_pow2;
use vstd::layout::valid_layout;
use crate::memory::ops::{buffer_address, overwrite, read_into, MemoryError, MemoryOps};

verus! {

/// Alignment used when none is asked for: a cache line.
pub const DEFAULT_CACHE_LINE_SIZE: usize = 64;

/// Size of a huge page (2 MiB); huge page buffers are rounded up to it.
pub const HUGE_PAGE_SIZE: usize = 2 * 1024 * 1024;

/// Whether `n` is a power of two, by halving it while it is even.
pub fn is_power_of_two(n: usize) -> (r: bool)
    ensures
        r == is_pow2(n as int),
{
    reveal(is_pow2);
    if n == 0 {
        assert(!is_pow2(0));
        return false;
    }
    let mut m = n;
    while m > 1 && m % 2 == 0
        invariant
            m >= 1,
            is_pow2(m as int) == is_pow2(n as int),
        decreases m,
    {
        proof {
            reveal(is_pow2);
        }
        assert(is_pow2(m as int) == is_pow2((m / 2) as int));
        m = m / 2;
    }
    if m == 1 {
        assert(is_pow2(1));
    } else {
        assert(!is_pow2(m as int));
    }
    m == 1
}

/// Size of the buffer: rounded up to whole huge pages when they are asked for.
pub open spec fn buffer_size(size: nat, use_huge_pages: bool) -> nat {
    if use_huge_pages {
        (if size % HUGE_PAGE_SIZE as nat == 0 { size / HUGE_PAGE_SIZE as nat } else { size / HUGE_PAGE_SIZE as nat + 1 })
            * HUGE_PAGE_SIZE as nat
    } else {
        size
    }
}

/// A zero-filled buffer whose first byte sits at a multiple of its alignment.
pub struct AlignedMemory {
    buf: Vec<u8>,
    start: usize,
    size: usize,
    alignment: usize,
    address: usize,
    use_huge_pages: bool,
}

impl AlignedMemory {

    /// Alignment of the buffer's first byte.
    pub closed spec fn spec_alignment(&self) -> usize {
        self.alignment
    }

    /// Address of the buffer's first byte.
    pub closed spec fn spec_address(&self) -> usize {
        self.address
    }

    /// A zero-filled buffer of `size` bytes (rounded up to whole huge pages
    /// when `use_huge_pages`) at a multiple of `alignment` (a cache line when
    /// none is given). The alignment must be a power of two, and the size
    /// and alignment a valid layout.
    pub fn new(size: usize, alignment: Option<usize>, use_huge_pages: bool) -> (r: Result<AlignedMemory, MemoryError>)
        requires
            buffer_size(size as nat, use_huge_pages) <= usize::MAX,
        ensures
            ({
                let a = match alignment {
                    Some(a) => a,
                    None => DEFAULT_CACHE_LINE_SIZE,
                };
                let n = buffer_size(size as nat, use_huge_pages);
                &&& (!is_pow2(a as int) <==> r == Err::<AlignedMemory, MemoryError>(MemoryError::InvalidAlignment))
                &&& is_pow2(a as int) ==> (r == Err::<AlignedMemory, MemoryError>(MemoryError::InvalidLayout) <==> (
                !valid_layout(n as usize, a) || n + a - 1 > usize::MAX))
                &&& r is Err ==> r == Err::<AlignedMemory, MemoryError>(MemoryError::InvalidAlignment) || r == Err::<
                    AlignedMemory,
                    MemoryError,
                >(MemoryError::InvalidLayout) || r == Err::<AlignedMemory, MemoryError>(MemoryError::OutOfMemory)
                &&& r matches Ok(m) ==> {
                    &&& m.wf()
                    &&& m.contents() == Seq::new(n, |i: int| 0u8)
                    &&& m.spec_alignment() == a
                    &&& m.spec_address() % a == 0
                }
            }),
    {
        let alignment = match alignment {
            Some(a) => a,
            None => DEFAULT_CACHE_LINE_SIZE,
        };
        if !is_power_of_two(alignment) {
            return Err(MemoryError::InvalidAlignment);
        }
        proof {
            reveal(is_pow2);
        }
        assert(alignment > 0);
        let size = if use_huge_pages {
            assert(size / HUGE_PAGE_SIZE <= size / 2) by (nonlinear_arith)
                requires HUGE_PAGE_SIZE == 2 * 1024 * 1024;
            let pages = if size % HUGE_PAGE_SIZE == 0 { size / HUGE_PAGE_SIZE } else { size / HUGE_PAGE_SIZE + 1 };
            pages * HUGE_PAGE_SIZE
        } else {
            size
        };
        let isize_max = usize::MAX / 2;
        assert(isize_max == isize::MAX);
        assert(isize_max % alignment <= isize_max) by (nonlinear_arith)
            requires alignment > 0;
        if size > isize_max - isize_max % alignment {
            return Err(MemoryError::InvalidLayout);
        }
        if size > usize::MAX - (alignment - 1) {
            return Err(MemoryError::InvalidLayout);
        }
        let buf = vec![0u8; size + (alignment - 1)];
        let base = buffer_address(&buf);
        let rem = base % alignment;
        let start = if rem == 0 { 0 } else { alignment - rem };
        if base > usize::MAX - start {
            return Err(MemoryError::OutOfMemory);
        }
        let address = base + start;
        proof {
            let a = alignment as int;
            let b = base as int;
            let q = b / a;
            vstd::arithmetic::div_mod::lemma_fundamental_div_mod(b, a);
            let k = if rem == 0 { q } else { q + 1 };
            assert(b % a == rem);
            assert(address as int == a * k) by (nonlinear_arith)
                requires
                    b == a * q + rem,
                    address == b + start,
                    k == (if rem == 0 { q } else { q + 1 }),
                    start == (if rem == 0 { 0 } else { a - rem }),
            ;
            vstd::arithmetic::div_mod::lemma_mod_multiples_basic(k, a);
            assert(a * k == k * a) by (nonlinear_arith);
        }
        let m = AlignedMemory { buf, start, size, alignment, address, use_huge_pages };
        assert(m.contents() =~= Seq::new(size as nat, |i: int| 0u8));
        Ok(m)
    }

    /// The buffer's bytes.
    pub fn as_slice(&self) -> (r: &[u8])
        requires
            self.wf(),
        ensures
            r@ == self.contents(),
    {
        &self.buf.as_slice()[self.start..self.start + self.size]
    }

    /// The buffer's bytes, to change in place. What is written through the
    /// slice becomes the buffer's contents (a slice keeps its length).
    pub fn as_slice_mut(&mut self) -> (r: &mut [u8])
        requires
            old(self).wf(),
        ensures
            r@ == old(self).contents(),
            final(r)@.len() == r@.len() ==> final(self).wf() && final(self).contents() == final(r)@,
            final(self).spec_alignment() == old(self).spec_alignment(),
            final(self).spec_address() == old(self).spec_address(),
    {
        let start = self.start;
        let size = self.size;
        let all = self.buf.as_mut_slice();
        let (head, rest) = all.split_at_mut(start);
        let (mid, tail) = rest.split_at_mut(size);
        mid
    }
}

impl MemoryOps for AlignedMemory {
    closed spec fn contents(&self) -> Seq<u8> {
        self.buf@.subrange(self.start as int, self.start + self.size)
    }

    closed spec fn wf(&self) -> bool {
        &&& self.buf@.len() <= usize::MAX
        &&& self.start + self.size <= self.buf@.len()
        &&& self.alignment > 0
        &&& self.address % self.alignment == 0
    }

    /// Any access whose end can be computed is answered.
    open spec fn admits(&self, offset: usize, len: nat) -> bool {
        offset + len <= usize::MAX
    }

    fn size(&self) -> (r: usize) {
        self.size
    }

    /// Writes `src` at `offset`, or fails if it would reach past the end.
    fn write(&mut self, offset: usize, src: &[u8]) -> (r: Result<(), MemoryError>)
        ensures
            r is Err <==> offset + src@.len() > old(self).contents().len(),
            r is Err ==> r == Err::<(), MemoryError>(MemoryError::WriteOutOfBounds),
    {
        if offset + src.len() > self.size {
            return Err(MemoryError::WriteOutOfBounds);
        }
        let ghost c0 = self.contents();
        let start = self.start;
        let mut i: usize = 0;
        while i < src.len()
            invariant
                i <= src@.len(),
                offset + src@.len() <= self.size,
                self.start == start,
                self.alignment == old(self).alignment,
                self.address == old(self).address,
                self.alignment > 0,
                self.address % self.alignment == 0,
                self.start + self.size <= self.buf@.len(),
                self.buf@.len() <= usize::MAX,
                c0.len() == self.size,
                forall|j: int|
                    0 <= j < c0.len() ==> #[trigger] self.buf@[start + j] == (if offset <= j < offset + i {
                        src@[j - offset]
                    } else {
                        c0[j]
                    }),
            decreases src@.len() - i,
        {
            self.buf.set(start + offset + i, src[i]);
            i = i + 1;
        }
        assert forall|j: int| 0 <= j < c0.len() implies #[trigger] self.contents()[j] == overwrite(
            c0,
            offset as int,
            src@,
        )[j] by {
            assert(self.buf@[start + j] == self.contents()[j]);
        }
        assert(self.contents() =~= overwrite(c0, offset as int, src@));
        Ok(())
    }

    /// Reads `dst.len()` bytes at `offset`, or fails if that would reach
    /// past the end.
    fn read(&self, offset: usize, dst: &mut [u8]) -> (r: Result<(), MemoryError>)
        ensures
            r is Err <==> offset + old(dst)@.len() > self.contents().len(),
            r is Err ==> r == Err::<(), MemoryError>(MemoryError::ReadOutOfBounds),
    {
        if offset + dst.len() > self.size {
            return Err(MemoryError::ReadOutOfBounds);
        }
        let ghost d0 = dst@;
        let mut i: usize = 0;
        while i < dst.len()
            invariant
                i <= d0.len(),
                dst@.len() == d0.len(),
                offset + d0.len() <= self.size,
                self.start + self.size <= self.buf@.len(),
                self.buf@.len() <= usize::MAX,
                forall|j: int|
                    0 <= j < d0.len() ==> #[trigger] dst@[j] == (if j < i {
                        self.buf@[self.start + offset + j]
                    } else {
                        d0[j]
                    }),
            decreases d0.len() - i,
        {
            dst[i] = self.buf[self.start + offset + i];
            i = i + 1;
        }
        assert(dst@ =~= read_into(d0, self.contents(), offset as int));
        Ok(())
    }

    /// Address of the first byte: a multiple of the alignment.
    fn get_handle(&self) -> (r: usize)
        ensures
            r == self.spec_address(),
            r % self.spec_alignment() == 0,
    {
        self.address
    }
}

} // verus!

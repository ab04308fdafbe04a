use vstd::prelude::*;
use crate::memory::ops::{buffer_address, overwrite, read_into, MemoryError, MemoryOps};

verus! {

/// A zero-filled buffer of ordinary heap memory.
pub struct SystemMemory {
    data: Vec<u8>,
    numa_node: Option<i32>,
    address: usize,
}

impl SystemMemory {
    /// The NUMA node the buffer was asked for.
    pub closed spec fn spec_numa_node(&self) -> Option<i32> {
        self.numa_node
    }

    /// Address of the buffer's first byte, as the allocator placed it.
    pub closed spec fn spec_address(&self) -> usize {
        self.address
    }

    /// A zero-filled buffer of `size` bytes.
    pub fn new(size: usize, numa_node: Option<i32>) -> (r: Result<SystemMemory, MemoryError>)
        ensures
            r is Ok,
            r matches Ok(m) ==> m.wf() && m.contents() == Seq::new(size as nat, |i: int| 0u8) && m.spec_numa_node()
                == numa_node,
    {
        let data = vec![0u8; size];
        let address = buffer_address(&data);
        Ok(SystemMemory { data, numa_node, address })
    }
}

impl MemoryOps for SystemMemory {
    closed spec fn contents(&self) -> Seq<u8> {
        self.data@
    }

    open spec fn wf(&self) -> bool {
        true
    }

    /// Accesses may start anywhere up to the end of the buffer.
    open spec fn admits(&self, offset: usize, len: nat) -> bool {
        offset <= self.contents().len()
    }

    fn size(&self) -> (r: usize) {
        self.data.len()
    }

    /// Writes as much of `src` as fits; never fails.
    fn write(&mut self, offset: usize, src: &[u8]) -> (r: Result<(), MemoryError>)
        ensures
            r is Ok,
    {
        let available = self.data.len().saturating_sub(offset);
        let len = if available < src.len() { available } else { src.len() };
        let ghost c0 = self.data@;
        let mut i: usize = 0;
        while i < len
            invariant
                i <= len,
                len <= src@.len(),
                offset + len <= c0.len(),
                c0.len() <= usize::MAX,
                self.data@.len() == c0.len(),
                forall|j: int|
                    0 <= j < c0.len() ==> #[trigger] self.data@[j] == (if offset <= j < offset + i {
                        src@[j - offset]
                    } else {
                        c0[j]
                    }),
            decreases len - i,
        {
            self.data.set(offset + i, src[i]);
            i = i + 1;
        }
        assert(self.data@ =~= overwrite(c0, offset as int, src@));
        Ok(())
    }

    /// Reads as many bytes as the buffer holds from `offset` on; never fails.
    fn read(&self, offset: usize, dst: &mut [u8]) -> (r: Result<(), MemoryError>)
        ensures
            r is Ok,
    {
        let available = self.data.len().saturating_sub(offset);
        let len = if available < dst.len() { available } else { dst.len() };
        let ghost d0 = dst@;
        let mut i: usize = 0;
        while i < len
            invariant
                i <= len,
                len <= d0.len(),
                offset + len <= self.data@.len(),
                self.data@.len() <= usize::MAX,
                len == (if self.data@.len() - offset < d0.len() { self.data@.len() - offset } else { d0.len() as int }),
                dst@.len() == d0.len(),
                forall|j: int|
                    0 <= j < d0.len() ==> #[trigger] dst@[j] == (if j < i { self.data@[offset + j] } else { d0[j] }),
            decreases len - i,
        {
            dst[i] = self.data[offset + i];
            i = i + 1;
        }
        assert(dst@ =~= read_into(d0, self.data@, offset as int));
        Ok(())
    }

    /// The address of the buffer's first byte; the buffer never moves, so
    /// every call gives the same one.
    fn get_handle(&self) -> (r: usize)
        ensures
            r == self.spec_address(),
    {
        self.address
    }
}

} // verus!

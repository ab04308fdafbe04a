use vstd::prelude::*;
use memmap2::MmapMut;
use crate::memory::hugepage::{map_anon_huge, map_anon_regular, mmap_contents, mmap_huge_shift};

verus! {

/// A record that a map with one page size was asked of the system. Only
/// `map_with_page_size` makes one, so a list of them is a list of the
/// mapping calls that were made.
pub struct MapTry {
    shift: Option<u8>,
}

impl MapTry {
    /// The page size that was asked for (`None`: ordinary pages).
    pub closed spec fn spec_shift(&self) -> Option<u8> {
        self.shift
    }

    /// The page size that was asked for (`None`: ordinary pages).
    pub fn shift(&self) -> (r: Option<u8>)
        ensures
            r == self.spec_shift(),
    {
        self.shift
    }
}

/// Maps `len` bytes with the page size `attempt` (`None`: ordinary pages),
/// and gives back, beside the outcome, the record of that call.
pub(crate) fn map_with_page_size(len: usize, attempt: Option<u8>) -> (r: (Result<MmapMut, std::io::Error>, MapTry))
    ensures
        r.1.spec_shift() == attempt,
        r.0 matches Ok(m) ==> mmap_contents(m).len() == len && mmap_huge_shift(m) == attempt,
{
    let outcome = match attempt {
        Some(s) => map_anon_huge(len, s),
        None => map_anon_regular(len),
    };
    (outcome, MapTry { shift: attempt })
}

} // verus!

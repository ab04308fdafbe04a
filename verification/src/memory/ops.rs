use vstd::prelude::*;

verus! {

/// Why a memory operation or allocation failed.
#[derive(Debug, Clone, PartialEq, Eq)]
pub enum MemoryError {
    /// A write would reach past the end of the buffer.
    WriteOutOfBounds,
    /// A read would reach past the end of the buffer.
    ReadOutOfBounds,
    /// The requested alignment is not a power of two.
    InvalidAlignment,
    /// Size and alignment do not make a valid allocation layout.
    InvalidLayout,
    /// No memory could be had; the system's reason.
    AllocationFailed(String),
    /// The allocator gave no usable memory.
    OutOfMemory,
}

impl MemoryError {
    pub open spec fn spec_message(&self) -> Seq<char> {
        match self {
            MemoryError::WriteOutOfBounds => "Write operation would exceed buffer size"@,
            MemoryError::ReadOutOfBounds => "Read operation would exceed buffer size"@,
            MemoryError::InvalidAlignment => "Alignment must be a power of two"@,
            MemoryError::InvalidLayout => "Failed to create memory layout: invalid parameters to Layout::from_size_align"@,
            MemoryError::AllocationFailed(reason) => "Failed to allocate memory: "@ + reason@,
            MemoryError::OutOfMemory => "Memory allocation failed"@,
        }
    }

    /// The error's message.
    pub fn message(&self) -> (r: String)
        ensures
            r@ == self.spec_message(),
    {
        match self {
            MemoryError::WriteOutOfBounds => "Write operation would exceed buffer size".to_owned(),
            MemoryError::ReadOutOfBounds => "Read operation would exceed buffer size".to_owned(),
            MemoryError::InvalidAlignment => "Alignment must be a power of two".to_owned(),
            MemoryError::InvalidLayout => "Failed to create memory layout: invalid parameters to Layout::from_size_align".to_owned(),
            MemoryError::AllocationFailed(reason) => {
                let mut s = "Failed to allocate memory: ".to_owned();
                s.append(reason.as_str());
                s
            },
            MemoryError::OutOfMemory => "Memory allocation failed".to_owned(),
        }
    }
}

/// `c` with the bytes of `data` written from `offset` on, as far as `c`
/// reaches; its length stays.
pub open spec fn overwrite(c: Seq<u8>, offset: int, data: Seq<u8>) -> Seq<u8> {
    Seq::new(c.len(), |i: int| if offset <= i < offset + data.len() { data[i - offset] } else { c[i] })
}

/// `dst` with its bytes replaced by those of `c` from `offset` on, as far
/// as `c` reaches; its length stays.
pub open spec fn read_into(dst: Seq<u8>, c: Seq<u8>, offset: int) -> Seq<u8> {
    Seq::new(dst.len(), |i: int| if offset + i < c.len() { c[offset + i] } else { dst[i] })
}

/// A byte buffer that data is written into and read back from.
pub trait MemoryOps {
    /// The bytes of the buffer.
    spec fn contents(&self) -> Seq<u8>;

    /// The buffer's internal invariant.
    spec fn wf(&self) -> bool;

    /// Whether an access of `len` bytes at `offset` is one the buffer
    /// answers (with data or an error) rather than one it cannot take.
    spec fn admits(&self, offset: usize, len: nat) -> bool;

    /// Size of the buffer in bytes.
    fn size(&self) -> (r: usize)
        requires
            self.wf(),
        ensures
            r == self.contents().len(),
    ;

    /// Writes `src` at `offset`. On success the bytes are in the buffer; on
    /// failure nothing changed.
    fn write(&mut self, offset: usize, src: &[u8]) -> (r: Result<(), MemoryError>)
        requires
            old(self).wf(),
            old(self).admits(offset, src@.len()),
        ensures
            final(self).wf(),
            final(self).contents().len() == old(self).contents().len(),
            r is Ok ==> final(self).contents() == overwrite(old(self).contents(), offset as int, src@),
            r is Err ==> final(self).contents() == old(self).contents(),
    ;

    /// Reads the bytes at `offset` into `dst`. On failure `dst` is unchanged.
    fn read(&self, offset: usize, dst: &mut [u8]) -> (r: Result<(), MemoryError>)
        requires
            self.wf(),
            self.admits(offset, old(dst)@.len()),
        ensures
            final(dst)@.len() == old(dst)@.len(),
            r is Ok ==> final(dst)@ == read_into(old(dst)@, self.contents(), offset as int),
            r is Err ==> final(dst)@ == old(dst)@,
    ;

    /// Address of the buffer.
    fn get_handle(&self) -> usize
        requires
            self.wf(),
    ;
}

/// Address of the first byte of a vector's buffer.
/// Calls `Vec::as_ptr`; nothing is stated of the address, which the
/// allocator chose.
#[verifier::external_body]
pub(crate) fn buffer_address(v: &Vec<u8>) -> usize {
    v.as_ptr() as usize
}

/// A write of data that fits the buffer, then a read of as many bytes at
/// the same offset, gives back the data (when nothing else, such as a
/// network device, writes the buffer in between).
pub proof fn lemma_read_after_write(c: Seq<u8>, offset: int, data: Seq<u8>, dst: Seq<u8>)
    requires
        0 <= offset,
        offset + data.len() <= c.len(),
        dst.len() == data.len(),
    ensures
        read_into(dst, overwrite(c, offset, data), offset) == data,
{
    assert(read_into(dst, overwrite(c, offset, data), offset) =~= data);
}

/// A write leaves the bytes outside the written range as they were.
pub proof fn lemma_write_keeps_other_bytes(c: Seq<u8>, offset: int, data: Seq<u8>, i: int)
    requires
        0 <= i < c.len(),
        i < offset || offset + data.len() <= i,
    ensures
        overwrite(c, offset, data)[i] == c[i],
{
}

} // verus!

//! The executable memory arena, as the library sees it: the bytes of one
//! page-aligned region obtained from the operating system, a write cursor,
//! the protection the region was last given, and whether it was released.
//! The operating-system calls themselves are made by the caller, who hands
//! their outcome to the constructor and to `protect`.

use vstd::prelude::*;
use crate::le::{le16, le32, le64, le_bytes_u16, le_bytes_u32, le_bytes_u64};

verus! {

/// The access rights of the whole region.
#[derive(PartialEq, Eq, Structural, Debug, Clone, Copy)]
pub enum Protection {
    ReadOnly,
    ReadWrite,
    ReadExecute,
    ReadWriteExecute,
}

impl Protection {
    pub open spec fn executable(self) -> bool {
        self == Protection::ReadExecute || self == Protection::ReadWriteExecute
    }

    pub open spec fn writable(self) -> bool {
        self == Protection::ReadWrite || self == Protection::ReadWriteExecute
    }
}

/// The protection asked for by an (executable, writable) pair.
pub open spec fn protection_of(exec_en: bool, write_en: bool) -> Protection {
    if exec_en {
        if write_en {
            Protection::ReadWriteExecute
        } else {
            Protection::ReadExecute
        }
    } else {
        if write_en {
            Protection::ReadWrite
        } else {
            Protection::ReadOnly
        }
    }
}

#[derive(PartialEq, Eq, Structural, Debug, Clone, Copy)]
pub enum ArenaError {
    /// The operating system refused the pages; its error code.
    AllocationFailure(i32),
    /// The operating system refused the protection change; its error code.
    ProtectionFailure(i32),
    /// A byte did not fit before the end of the region.
    BufferExhausted,
    /// An index past the end of the region.
    BoundsViolation,
}

/// What a code buffer holds, in mathematical terms.
pub ghost struct RegionState {
    /// The address of the first byte of the region.
    pub base: nat,
    /// The region's contents; its length is the region's size.
    pub bytes: Seq<u8>,
    /// The write cursor.
    pub pos: nat,
    pub prot: Protection,
    pub released: bool,
}

impl RegionState {
    pub open spec fn wf(self) -> bool {
        &&& self.pos <= self.bytes.len()
        &&& self.bytes.len() <= u32::MAX
        &&& self.bytes.len() <= isize::MAX
        &&& self.base + self.bytes.len() <= usize::MAX
    }

    /// How many bytes still fit after the cursor.
    pub open spec fn room(self) -> nat {
        (self.bytes.len() - self.pos) as nat
    }

    /// How many of `n` bytes an append stores.
    pub open spec fn stored(self, n: nat) -> nat {
        if n <= self.room() {
            n
        } else {
            self.room()
        }
    }

    /// The state after appending `buf` at the cursor: as many of its bytes
    /// as fit are stored in order, the cursor moves past them, and every
    /// other byte stays as it was.
    pub open spec fn after_write(self, buf: Seq<u8>) -> RegionState {
        let n = self.stored(buf.len());
        RegionState {
            bytes: self.bytes.take(self.pos as int) + buf.take(n as int) + self.bytes.skip(
                (self.pos + n) as int,
            ),
            pos: self.pos + n,
            ..self
        }
    }

    /// What appending `buf` returns: its length when it all fits, else
    /// `BufferExhausted`.
    pub open spec fn write_result(self, buf: Seq<u8>) -> Result<usize, ArenaError> {
        if buf.len() <= self.room() {
            Ok(buf.len() as usize)
        } else {
            Err(ArenaError::BufferExhausted)
        }
    }
}

/// The size in bytes of `num_pages` pages of `page_size` bytes, where it
/// fits in 32 bits.
pub open spec fn size_of_pages(page_size: u32, num_pages: u32) -> Option<u32> {
    if page_size * num_pages <= u32::MAX {
        Some((page_size * num_pages) as u32)
    } else {
        None
    }
}

/// An append keeps a well-formed region well formed, never moves the cursor
/// back, and leaves every byte before the old cursor as it was: in
/// particular when the region runs out of room part-way.
pub proof fn lemma_write_keeps_prefix(s: RegionState, buf: Seq<u8>)
    requires
        s.wf(),
    ensures
        s.after_write(buf).wf(),
        s.pos <= s.after_write(buf).pos <= s.bytes.len(),
        s.after_write(buf).bytes.len() == s.bytes.len(),
        s.after_write(buf).bytes.take(s.pos as int) == s.bytes.take(s.pos as int),
        s.write_result(buf) is Err ==> s.after_write(buf).pos == s.bytes.len(),
{
    assert(s.after_write(buf).bytes.take(s.pos as int) =~= s.bytes.take(s.pos as int));
}

pub struct CodeBuff {
    base: usize,
    mem: Vec<u8>,
    pos: usize,
    prot: Protection,
    released: bool,
}

impl View for CodeBuff {
    type V = RegionState;

    closed spec fn view(&self) -> RegionState {
        RegionState {
            base: self.base as nat,
            bytes: self.mem@,
            pos: self.pos as nat,
            prot: self.prot,
            released: self.released,
        }
    }
}

impl CodeBuff {
    /// The size of a region of `num_pages` pages, or `None` where it does
    /// not fit in 32 bits.
    pub fn region_size(page_size: u32, num_pages: u32) -> (r: Option<u32>)
        ensures
            r == size_of_pages(page_size, num_pages),
    {
        page_size.checked_mul(num_pages)
    }

    /// A buffer over the region that the operating system answered with
    /// `alloc` (its address, or its error code) when asked for `num_pages`
    /// pages of `page_size` bytes. Fresh pages read as zero; the region
    /// starts writable, with the cursor at 0.
    pub fn new(page_size: u32, num_pages: u32, alloc: Result<usize, i32>) -> (r: Result<
        CodeBuff,
        ArenaError,
    >)
        requires
            page_size * num_pages <= u32::MAX,
            page_size * num_pages <= isize::MAX,
            alloc matches Ok(b) ==> b + page_size * num_pages <= usize::MAX,
        ensures
            alloc matches Err(c) ==> r == Err::<CodeBuff, ArenaError>(ArenaError::AllocationFailure(c)),
            alloc matches Ok(b) ==> r matches Ok(cb) && cb@ == (RegionState {
                base: b as nat,
                bytes: Seq::new((page_size * num_pages) as nat, |i: int| 0u8),
                pos: 0,
                prot: Protection::ReadWrite,
                released: false,
            }),
            r matches Ok(cb) ==> cb@.wf(),
    {
        match alloc {
            Err(c) => Err(ArenaError::AllocationFailure(c)),
            Ok(b) => {
                let size = page_size * num_pages;
                let mem = vec![0u8; size as usize];
                let cb = CodeBuff { base: b, mem, pos: 0, prot: Protection::ReadWrite, released: false };
                assert(cb@.bytes =~= Seq::new((page_size * num_pages) as nat, |i: int| 0u8));
                Ok(cb)
            },
        }
    }
    /// Appends `buf` at the cursor. Bytes are stored one by one until the
    /// region ends; the first byte that would pass the end stops the write
    /// with `BufferExhausted`, the cursor left just after the last byte
    /// stored and every byte before the cursor untouched.
    pub fn write_bytes(&mut self, buf: &[u8]) -> (r: Result<usize, ArenaError>)
        requires
            old(self)@.wf(),
            !old(self)@.released,
            old(self)@.prot.writable(),
        ensures
            final(self)@ == old(self)@.after_write(buf@),
            final(self)@.wf(),
            r == old(self)@.write_result(buf@),
    {
        let ghost start = self@;
        let mut i: usize = 0;
        while i < buf.len()
            invariant
                start == old(self)@,
                start.wf(),
                i <= buf@.len(),
                i <= start.room(),
                self.pos == start.pos + i,
                self.mem@ == start.bytes.take(start.pos as int) + buf@.take(i as int)
                    + start.bytes.skip(start.pos + i),
                self.base == start.base,
                self.prot == start.prot,
                self.released == start.released,
                self.prot.writable(),
            decreases buf@.len() - i,
        {
            if self.pos >= self.mem.len() {
                assert(i == start.room());
                assert(start.stored(buf@.len()) == i);
                assert(self.mem@ =~= start.after_write(buf@).bytes);
                return Err(ArenaError::BufferExhausted);
            }
            self.mem.set(self.pos, buf[i]);
            self.pos = self.pos + 1;
            i = i + 1;
            assert(self.mem@ =~= start.bytes.take(start.pos as int) + buf@.take(i as int)
                + start.bytes.skip(start.pos + i));
        }
        assert(self.mem@ =~= start.after_write(buf@).bytes);
        Ok(buf.len())
    }
    /// Appends one byte.
    pub fn write_u8(&mut self, x: u8) -> (r: Result<usize, ArenaError>)
        requires
            old(self)@.wf(),
            !old(self)@.released,
            old(self)@.prot.writable(),
        ensures
            final(self)@ == old(self)@.after_write(seq![x]),
            final(self)@.wf(),
            r == old(self)@.write_result(seq![x]),
    {
        let v = vec![x];
        assert(v@ =~= seq![x]);
        self.write_bytes(v.as_slice())
    }

    /// Appends a 16-bit value, least significant byte first.
    pub fn write_u16(&mut self, x: u16) -> (r: Result<usize, ArenaError>)
        requires
            old(self)@.wf(),
            !old(self)@.released,
            old(self)@.prot.writable(),
        ensures
            final(self)@ == old(self)@.after_write(le16(x)),
            final(self)@.wf(),
            r == old(self)@.write_result(le16(x)),
    {
        let v = le_bytes_u16(x);
        self.write_bytes(v.as_slice())
    }

    /// Appends a 32-bit value, least significant byte first.
    pub fn write_u32(&mut self, x: u32) -> (r: Result<usize, ArenaError>)
        requires
            old(self)@.wf(),
            !old(self)@.released,
            old(self)@.prot.writable(),
        ensures
            final(self)@ == old(self)@.after_write(le32(x)),
            final(self)@.wf(),
            r == old(self)@.write_result(le32(x)),
    {
        let v = le_bytes_u32(x);
        self.write_bytes(v.as_slice())
    }

    /// Appends a 64-bit value, least significant byte first.
    pub fn write_u64(&mut self, x: u64) -> (r: Result<usize, ArenaError>)
        requires
            old(self)@.wf(),
            !old(self)@.released,
            old(self)@.prot.writable(),
        ensures
            final(self)@ == old(self)@.after_write(le64(x)),
            final(self)@.wf(),
            r == old(self)@.write_result(le64(x)),
    {
        let v = le_bytes_u64(x);
        self.write_bytes(v.as_slice())
    }

    /// The byte at `index`, or `BoundsViolation` past the end of the region.
    pub fn index(&self, index: usize) -> (r: Result<u8, ArenaError>)
        ensures
            index < self@.bytes.len() ==> r == Ok::<u8, ArenaError>(self@.bytes[index as int]),
            index >= self@.bytes.len() ==> r == Err::<u8, ArenaError>(ArenaError::BoundsViolation),
    {
        if index < self.mem.len() {
            Ok(self.mem[index])
        } else {
            Err(ArenaError::BoundsViolation)
        }
    }

    /// Overwrites the byte at `index`, or returns `BoundsViolation` past the
    /// end of the region. The cursor does not move.
    pub fn store(&mut self, index: usize, value: u8) -> (r: Result<(), ArenaError>)
        requires
            !old(self)@.released,
            old(self)@.prot.writable(),
        ensures
            index < old(self)@.bytes.len() ==> r == Ok::<(), ArenaError>(()) && final(self)@ == (
            RegionState { bytes: old(self)@.bytes.update(index as int, value), ..old(self)@ }),
            index >= old(self)@.bytes.len() ==> r == Err::<(), ArenaError>(
                ArenaError::BoundsViolation,
            ) && final(self)@ == old(self)@,
    {
        if index < self.mem.len() {
            self.mem.set(index, value);
            Ok(())
        } else {
            Err(ArenaError::BoundsViolation)
        }
    }

    /// The protection that an (executable, writable) request maps to.
    pub fn protection_for(exec_en: bool, write_en: bool) -> (r: Protection)
        ensures
            r == protection_of(exec_en, write_en),
    {
        match (exec_en, write_en) {
            (true, true) => Protection::ReadWriteExecute,
            (true, false) => Protection::ReadExecute,
            (false, true) => Protection::ReadWrite,
            (false, false) => Protection::ReadOnly,
        }
    }

    /// Records the answer `os_result` of the operating system to a request
    /// to give the whole region the protection of (`exec_en`, `write_en`):
    /// on success the region has that protection; on failure nothing
    /// changes and the error carries the system's code.
    pub fn protect(&mut self, exec_en: bool, write_en: bool, os_result: Result<(), i32>) -> (r:
        Result<(), ArenaError>)
        requires
            !old(self)@.released,
        ensures
            os_result matches Ok(_) ==> r == Ok::<(), ArenaError>(()) && final(self)@ == (
            RegionState { prot: protection_of(exec_en, write_en), ..old(self)@ }),
            os_result matches Err(c) ==> r == Err::<(), ArenaError>(
                ArenaError::ProtectionFailure(c),
            ) && final(self)@ == old(self)@,
    {
        match os_result {
            Ok(()) => {
                self.prot = CodeBuff::protection_for(exec_en, write_en);
                Ok(())
            },
            Err(c) => Err(ArenaError::ProtectionFailure(c)),
        }
    }

    /// The absolute address of the byte at `offset`.
    pub fn get_address(&self, offset: isize) -> (r: usize)
        requires
            self@.wf(),
            0 <= offset <= self@.bytes.len(),
        ensures
            r == self@.base + offset,
    {
        self.base + offset as usize
    }

    /// The address at which code starting at `offset` may be called: only
    /// while the region is executable and not released, and only for an
    /// offset inside it.
    pub fn entry_point(&self, offset: isize) -> (r: Option<usize>)
        requires
            self@.wf(),
        ensures
            r == if self@.prot.executable() && !self@.released && 0 <= offset
                < self@.bytes.len() {
                Some((self@.base + offset) as usize)
            } else {
                None::<usize>
            },
    {
        let executable = match self.prot {
            Protection::ReadExecute | Protection::ReadWriteExecute => true,
            _ => false,
        };
        if executable && !self.released && 0 <= offset && (offset as usize) < self.mem.len() {
            Some(self.get_address(offset))
        } else {
            None
        }
    }

    /// Marks the region released. Returns `true` the first time only: the
    /// memory is to be handed back to the system exactly then, and a second
    /// call changes nothing.
    pub fn release(&mut self) -> (first: bool)
        ensures
            first == !old(self)@.released,
            final(self)@ == (RegionState { released: true, ..old(self)@ }),
    {
        if self.released {
            false
        } else {
            self.released = true;
            true
        }
    }

    /// The region's size in bytes.
    pub fn get_size(&self) -> (r: u32)
        requires
            self@.wf(),
        ensures
            r == self@.bytes.len(),
    {
        self.mem.len() as u32
    }

    /// The write cursor.
    pub fn position(&self) -> (r: isize)
        requires
            self@.wf(),
        ensures
            r == self@.pos,
    {
        self.pos as isize
    }

    /// Moves the write cursor to `pos`, anywhere from the start to the end
    /// of the region.
    pub fn set_position(&mut self, pos: isize)
        requires
            old(self)@.wf(),
            0 <= pos <= old(self)@.bytes.len(),
        ensures
            final(self)@ == (RegionState { pos: pos as nat, ..old(self)@ }),
    {
        self.pos = pos as usize;
    }

    pub fn protection(&self) -> (r: Protection)
        ensures
            r == self@.prot,
    {
        self.prot
    }

    pub fn is_released(&self) -> (r: bool)
        ensures
            r == self@.released,
    {
        self.released
    }
}

} // verus!

//! The byte-addressable memory: a fixed-size, bounds-checked byte store.
//!
//! An access outside the allocated size is never performed; it surfaces as a
//! [`MemoryErr`] value instead.

use vstd::prelude::*;

verus! {

/// An address, or address plus length, outside the allocated memory.
#[derive(Debug, Clone, Copy, PartialEq, Eq, Structural)]
pub struct MemoryErr;

/// `mem` with `data` written at offset `off` and all other bytes kept.
pub open spec fn spec_write(mem: Seq<u8>, off: int, data: Seq<u8>) -> Seq<u8> {
    Seq::new(mem.len(), |i: int| if off <= i < off + data.len() {
        data[i - off]
    } else {
        mem[i]
    })
}

/// A fixed-size byte store whose size is chosen at construction.
#[derive(Debug, Clone)]
pub struct Memory {
    data: Vec<u8>,
}

impl View for Memory {
    type V = Seq<u8>;

    closed spec fn view(&self) -> Seq<u8> {
        self.data@
    }
}

impl Memory {
    /// A fresh, zeroed store of `size` bytes.
    pub fn new(size: usize) -> (m: Memory)
        ensures
            m@.len() == size,
            forall|i: int| 0 <= i < size ==> m@[i] == 0u8,
    {
        let mut data: Vec<u8> = Vec::new();
        let mut i: usize = 0;
        while i < size
            invariant
                data@.len() == i,
                i <= size,
                forall|j: int| 0 <= j < i ==> data@[j] == 0u8,
            decreases size - i,
        {
            data.push(0);
            i = i + 1;
        }
        Memory { data }
    }

    /// The allocated size in bytes.
    pub fn len(&self) -> (n: usize)
        ensures
            n == self@.len(),
    {
        self.data.len()
    }

    /// Copies out the `size` bytes starting at `offset`; an error if the
    /// range reaches outside the allocated size.
    pub fn get_data(&self, offset: u16, size: usize) -> (r: Result<Vec<u8>, MemoryErr>)
        ensures
            offset + size <= self@.len() ==> (r matches Ok(v)
                && v@ == self@.subrange(offset as int, offset + size)),
            offset + size > self@.len() ==> r == Result::<Vec<u8>, MemoryErr>::Err(MemoryErr),
    {
        let off = offset as usize;
        if off > self.data.len() || size > self.data.len() - off {
            return Err(MemoryErr);
        }
        let mut out: Vec<u8> = Vec::new();
        let mut i: usize = 0;
        while i < size
            invariant
                off + size <= self@.len(),
                off + size <= usize::MAX,
                i <= size,
                out@.len() == i,
                forall|j: int| 0 <= j < i ==> out@[j] == self@[off + j],
            decreases size - i,
        {
            out.push(self.data[off + i]);
            i = i + 1;
        }
        proof {
            assert(out@ =~= self@.subrange(offset as int, offset + size));
        }
        Ok(out)
    }

    /// Writes `data` starting at `offset`; an error, and no change, if the
    /// range reaches outside the allocated size.
    pub fn write_data(&mut self, offset: u16, data: &[u8]) -> (r: Result<(), MemoryErr>)
        ensures
            offset + data@.len() <= old(self)@.len() ==> (r matches Ok(_)
                && final(self)@ == spec_write(old(self)@, offset as int, data@)),
            offset + data@.len() > old(self)@.len() ==> r == Result::<(), MemoryErr>::Err(
                MemoryErr,
            ) && final(self)@ == old(self)@,
    {
        let off = offset as usize;
        if off > self.data.len() || data.len() > self.data.len() - off {
            return Err(MemoryErr);
        }
        let mut i: usize = 0;
        while i < data.len()
            invariant
                off + data@.len() <= self@.len(),
                off + data@.len() <= usize::MAX,
                self@.len() == old(self)@.len(),
                i <= data@.len(),
                forall|j: int| 0 <= j < self@.len() ==> self@[j] == (if off <= j < off + i {
                    data@[j - off]
                } else {
                    old(self)@[j]
                }),
            decreases data@.len() - i,
        {
            let b = data[i];
            self.data.set(off + i, b);
            i = i + 1;
        }
        proof {
            assert(self@ =~= spec_write(old(self)@, offset as int, data@));
        }
        Ok(())
    }

    /// Reads the two big-endian instruction bytes at `pc`; an error if they
    /// reach outside the allocated size.
    pub fn get_command_data(&self, pc: u16) -> (r: Result<(u8, u8), MemoryErr>)
        ensures
            pc + 2 <= self@.len() ==> r == Result::<(u8, u8), MemoryErr>::Ok(
                (self@[pc as int], self@[pc + 1]),
            ),
            pc + 2 > self@.len() ==> r == Result::<(u8, u8), MemoryErr>::Err(MemoryErr),
    {
        let off = pc as usize;
        if off >= self.data.len() || self.data.len() - off < 2 {
            return Err(MemoryErr);
        }
        Ok((self.data[off], self.data[off + 1]))
    }

    /// Reads the byte at position `i`.
    pub fn read_at(&self, i: usize) -> (v: u8)
        requires
            i < self@.len(),
        ensures
            v == self@[i as int],
    {
        self.data[i]
    }

    /// Writes `val` at position `i`.
    pub fn write_at(&mut self, i: usize, val: u8)
        requires
            i < old(self)@.len(),
        ensures
            final(self)@ == old(self)@.update(i as int, val),
    {
        self.data.set(i, val);
    }
}

} // verus!

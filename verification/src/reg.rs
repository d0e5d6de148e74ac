//! The sixteen general-purpose 8-bit registers and their bank.
//!
//! Register `VF` doubles as the flag register: several instructions write a
//! carry, borrow or collision flag into it as a side effect.

use vstd::prelude::*;

verus! {

/// Symbolic index of one of the sixteen general-purpose registers.
#[derive(Debug, Clone, Copy, PartialEq, Eq, Structural)]
pub enum Reg {
    V0,
    V1,
    V2,
    V3,
    V4,
    V5,
    V6,
    V7,
    V8,
    V9,
    VA,
    VB,
    VC,
    VD,
    VE,
    VF,
}

impl Reg {
    /// Position of this register in the bank, 0 through 15.
    pub open spec fn idx(self) -> int {
        match self {
            Reg::V0 => 0,
            Reg::V1 => 1,
            Reg::V2 => 2,
            Reg::V3 => 3,
            Reg::V4 => 4,
            Reg::V5 => 5,
            Reg::V6 => 6,
            Reg::V7 => 7,
            Reg::V8 => 8,
            Reg::V9 => 9,
            Reg::VA => 10,
            Reg::VB => 11,
            Reg::VC => 12,
            Reg::VD => 13,
            Reg::VE => 14,
            Reg::VF => 15,
        }
    }

    /// The register whose bank position is `n % 16`.
    pub open spec fn spec_from_nibble(n: u8) -> Reg {
        let v = n % 16;
        if v == 0 {
            Reg::V0
        } else if v == 1 {
            Reg::V1
        } else if v == 2 {
            Reg::V2
        } else if v == 3 {
            Reg::V3
        } else if v == 4 {
            Reg::V4
        } else if v == 5 {
            Reg::V5
        } else if v == 6 {
            Reg::V6
        } else if v == 7 {
            Reg::V7
        } else if v == 8 {
            Reg::V8
        } else if v == 9 {
            Reg::V9
        } else if v == 10 {
            Reg::VA
        } else if v == 11 {
            Reg::VB
        } else if v == 12 {
            Reg::VC
        } else if v == 13 {
            Reg::VD
        } else if v == 14 {
            Reg::VE
        } else {
            Reg::VF
        }
    }

    /// Position of this register in the bank.
    pub fn index(self) -> (i: usize)
        ensures
            i == self.idx(),
            i < 16,
    {
        match self {
            Reg::V0 => 0,
            Reg::V1 => 1,
            Reg::V2 => 2,
            Reg::V3 => 3,
            Reg::V4 => 4,
            Reg::V5 => 5,
            Reg::V6 => 6,
            Reg::V7 => 7,
            Reg::V8 => 8,
            Reg::V9 => 9,
            Reg::VA => 10,
            Reg::VB => 11,
            Reg::VC => 12,
            Reg::VD => 13,
            Reg::VE => 14,
            Reg::VF => 15,
        }
    }

    /// Selects the register named by the low four bits of `n`.
    pub fn from_nibble(n: u8) -> (r: Reg)
        ensures
            r == Reg::spec_from_nibble(n),
    {
        match n % 16 {
            0 => Reg::V0,
            1 => Reg::V1,
            2 => Reg::V2,
            3 => Reg::V3,
            4 => Reg::V4,
            5 => Reg::V5,
            6 => Reg::V6,
            7 => Reg::V7,
            8 => Reg::V8,
            9 => Reg::V9,
            10 => Reg::VA,
            11 => Reg::VB,
            12 => Reg::VC,
            13 => Reg::VD,
            14 => Reg::VE,
            _ => Reg::VF,
        }
    }
}

/// The bank of sixteen general-purpose registers, addressed by [`Reg`].
#[derive(Debug, Clone)]
pub struct RegBank {
    regs: Vec<u8>,
}

impl View for RegBank {
    type V = Seq<u8>;

    closed spec fn view(&self) -> Seq<u8> {
        self.regs@
    }
}

impl RegBank {
    /// A well-formed bank holds exactly sixteen registers.
    pub open spec fn wf(self) -> bool {
        self@.len() == 16
    }

    /// A fresh bank with every register zeroed.
    pub fn new() -> (r: RegBank)
        ensures
            r.wf(),
            r@.len() == 16,
            forall|i: int| 0 <= i < 16 ==> r@[i] == 0u8,
    {
        let mut regs: Vec<u8> = Vec::new();
        let mut i: usize = 0;
        while i < 16
            invariant
                regs@.len() == i,
                i <= 16,
                forall|j: int| 0 <= j < i ==> regs@[j] == 0u8,
            decreases 16 - i,
        {
            regs.push(0);
            i = i + 1;
        }
        RegBank { regs }
    }

    /// Reads the value of register `reg`.
    pub fn get_value(&self, reg: Reg) -> (v: u8)
        requires
            self.wf(),
        ensures
            v == self@[reg.idx()],
    {
        let i = reg.index();
        self.regs[i]
    }

    /// Writes `val` into register `reg`.
    pub fn set_value(&mut self, reg: Reg, val: u8)
        requires
            old(self).wf(),
        ensures
            final(self).wf(),
            final(self)@ == old(self)@.update(reg.idx(), val),
    {
        let i = reg.index();
        self.regs.set(i, val);
    }

    /// Adds `val` into register `reg`, wrapping modulo 256.
    pub fn add_value(&mut self, reg: Reg, val: u8)
        requires
            old(self).wf(),
        ensures
            final(self).wf(),
            final(self)@ == old(self)@.update(
                reg.idx(),
                ((old(self)@[reg.idx()] + val) % 256) as u8,
            ),
    {
        let i = reg.index();
        let cur = self.regs[i];
        self.regs.set(i, cur.wrapping_add(val));
    }

    /// Reads the register at bank position `i`.
    pub fn get_by_index(&self, i: usize) -> (v: u8)
        requires
            self.wf(),
            i < 16,
        ensures
            v == self@[i as int],
    {
        self.regs[i]
    }

    /// Writes `val` into the register at bank position `i`.
    pub fn set_by_index(&mut self, i: usize, val: u8)
        requires
            old(self).wf(),
            i < 16,
        ensures
            final(self).wf(),
            final(self)@ == old(self)@.update(i as int, val),
    {
        self.regs.set(i, val);
    }
}

} // verus!

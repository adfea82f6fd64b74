use vstd::prelude::*;

use crate::memory::MEM_SIZE;

verus! {

/// What register `i` reads as: register 0 is hardwired to zero.
pub open spec fn reg(regs: Seq<u32>, i: int) -> u32 {
    if i == 0 {
        0
    } else {
        regs[i]
    }
}

/// The register file after writing `v` to register `i`; a write to register
/// 0 changes nothing.
pub open spec fn set_reg(regs: Seq<u32>, i: int, v: u32) -> Seq<u32> {
    if i == 0 {
        regs
    } else {
        regs.update(i, v)
    }
}

/// Writing any value to register 0 leaves the registers as they were, and
/// register 0 still reads 0.
pub proof fn lemma_write_zero_reg(regs: Seq<u32>, v: u32)
    ensures
        set_reg(regs, 0, v) == regs,
        reg(set_reg(regs, 0, v), 0) == 0,
{
}

/// The 32 general-purpose registers.
pub struct Registers(Vec<u32>);

impl View for Registers {
    type V = Seq<u32>;

    closed spec fn view(&self) -> Seq<u32> {
        self.0@
    }
}

impl Registers {
    /// Exactly 32 slots, and the slot of register 0 holds 0.
    pub open spec fn wf(&self) -> bool {
        &&& self@.len() == 32
        &&& self@[0] == 0
    }

    /// All registers zero except register 2, the stack pointer, which points
    /// one past the top of memory.
    pub fn new() -> (r: Self)
        ensures
            r.wf(),
            r@ == Seq::new(32, |i: int| 0u32).update(2, MEM_SIZE as u32),
    {
        let mut slots: Vec<u32> = Vec::new();
        while slots.len() < 32
            invariant
                slots@.len() <= 32,
                forall|i: int| 0 <= i < slots@.len() ==> slots@[i] == 0u32,
            decreases 32 - slots@.len(),
        {
            slots.push(0);
        }
        slots.set(2, MEM_SIZE as u32);
        let r = Registers(slots);
        assert(r@ =~= Seq::new(32, |i: int| 0u32).update(2, MEM_SIZE as u32));
        r
    }

    /// The value of register `reg`; register 0 always reads 0.
    pub fn read(&self, reg: usize) -> (r: u32)
        requires
            self.wf(),
            reg < 32,
        ensures
            r == crate::regs::reg(self@, reg as int),
            r == self@[reg as int],
    {
        if reg == 0 {
            0
        } else {
            self.0[reg]
        }
    }

    /// Stores `val` in register `reg`; a write to register 0 is ignored.
    pub fn write(&mut self, reg: usize, val: u32)
        requires
            old(self).wf(),
            reg < 32,
        ensures
            final(self).wf(),
            final(self)@ == set_reg(old(self)@, reg as int, val),
    {
        if reg == 0 {
            return;
        }
        self.0.set(reg, val);
    }
}

} // verus!

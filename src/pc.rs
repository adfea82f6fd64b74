use vstd::prelude::*;

use crate::error::Error;
use crate::memory::MEM_SIZE;

verus! {

/// `a + b` modulo 2^32.
pub open spec fn wadd(a: u32, b: u32) -> u32 {
    ((a + b) % 0x1_0000_0000) as u32
}

/// `a - b` modulo 2^32.
pub open spec fn wsub(a: u32, b: u32) -> u32 {
    ((a - b) % 0x1_0000_0000) as u32
}

/// Wrapping addition of two words.
pub fn add_wrapping(a: u32, b: u32) -> (r: u32)
    ensures
        r == wadd(a, b),
{
    a.wrapping_add(b)
}

/// Wrapping subtraction of two words.
pub fn sub_wrapping(a: u32, b: u32) -> (r: u32)
    ensures
        r == wsub(a, b),
{
    a.wrapping_sub(b)
}

/// The highest address an instruction may be fetched from.
pub open spec fn last_fetch_addr() -> u32 {
    (MEM_SIZE - 4) as u32
}

/// The address of the next instruction to fetch.
pub struct ProgramCounter(u32);

impl View for ProgramCounter {
    type V = u32;

    closed spec fn view(&self) -> u32 {
        self.0
    }
}

impl ProgramCounter {
    /// Execution starts at address 0.
    pub fn new() -> (r: Self)
        ensures
            r@ == 0,
    {
        ProgramCounter(0)
    }

    pub fn get(&self) -> (r: u32)
        ensures
            r == self@,
    {
        self.0
    }

    /// Sets the counter; bounds are checked at fetch time.
    pub fn set(&mut self, addr: u32)
        ensures
            final(self)@ == addr,
    {
        self.0 = addr;
    }

    /// Advances the counter by 4 and returns its value from before. Fails
    /// with `InvalidPC` when that value is past the last word of memory.
    pub fn inc(&mut self) -> (r: Result<u32, Error>)
        ensures
            final(self)@ == wadd(old(self)@, 4),
            old(self)@ <= last_fetch_addr() ==> r == Ok::<u32, Error>(old(self)@),
            old(self)@ > last_fetch_addr() ==> r == Err::<u32, Error>(
                Error::InvalidPC(old(self)@, MEM_SIZE),
            ),
    {
        let pc = self.0;
        self.0 = add_wrapping(self.0, 4);
        if pc > MEM_SIZE as u32 - 4 {
            return Err(Error::InvalidPC(pc, MEM_SIZE));
        }
        Ok(pc)
    }
}

} // verus!

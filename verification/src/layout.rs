//! The machine's address map: 32,768 memory words followed by 8 registers.

use vstd::prelude::*;

verus! {

/// Total number of addressable memory words.
pub const MEM_SIZE: usize = 32768;

/// Highest valid memory address.
pub const MEM_MAX: u16 = 32767;

/// Number of general-purpose registers.
pub const NUM_REGS: usize = 8;

/// Lowest address mapped to a register.
pub const REG_MIN: u16 = 32768;

/// Highest address mapped to a register.
pub const REG_MAX: u16 = 32775;

/// An address denotes a memory word.
pub open spec fn spec_is_mem(addr: u16) -> bool {
    addr <= MEM_MAX
}

/// An address denotes a register.
pub open spec fn spec_is_reg(addr: u16) -> bool {
    REG_MIN <= addr <= REG_MAX
}

/// True iff `addr` lies in the memory range 0..=32767.
pub fn is_mem(addr: u16) -> (r: bool)
    ensures
        r == spec_is_mem(addr),
{
    addr <= MEM_MAX
}

/// True iff `addr` lies in the register range 32768..=32775.
pub fn is_reg(addr: u16) -> (r: bool)
    ensures
        r == spec_is_reg(addr),
{
    REG_MIN <= addr && addr <= REG_MAX
}

} // verus!

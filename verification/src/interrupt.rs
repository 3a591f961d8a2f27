//! Interrupt numbers and where they live in the interrupt controller.

use vstd::prelude::*;

verus! {

/// The interrupt controller keeps one bit for each interrupt, 32 to a
/// register.  This is the register and the bit in it for interrupt `n`.
pub fn irq_slot(n: u32) -> (slot: (usize, u32))
    ensures
        slot.0 == n / 32,
        slot.1 == 1u32 << (n % 32),
        slot.1 != 0,
{
    let bit: u32 = n % 32;
    assert(bit < 32 ==> 1u32 << bit != 0) by (bit_vector);
    ((n / 32) as usize, 1u32 << bit)
}

/// Whether a bit is set in a register of the interrupt controller.
pub fn irq_is_set(register: u32, mask: u32) -> (b: bool)
    ensures
        b == (register & mask != 0),
{
    register & mask != 0
}

} // verus!

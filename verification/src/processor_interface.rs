use vstd::prelude::*;
use crate::Gamecube;

verus! {

/// The processor interface. None of its registers holds state.
pub struct ProcessorInterface {}

impl ProcessorInterface {
    /// The interface at reset.
    pub fn new() -> Self {
        Self {  }
    }
}

/// A 32-bit write to the processor interface. It is accepted and changes
/// nothing.
pub fn pi_write_u32(gc: &mut Gamecube, offset: u32, val: u32)
    ensures
        *final(gc) == *old(gc),
{
}

pub open spec fn spec_pi_read_u32(gc: &Gamecube, offset: u32) -> u32 {
    0
}

/// A 32-bit read from the processor interface: every register reads zero.
#[verifier::when_used_as_spec(spec_pi_read_u32)]
pub fn pi_read_u32(gc: &Gamecube, offset: u32) -> (r: u32)
    ensures
        r == 0,
{
    0
}

} // verus!

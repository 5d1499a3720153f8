use vstd::prelude::*;
use crate::fault::Fault;
use crate::Gamecube;

verus! {

/// The physical address of the first audio interface register.
pub const AI_BASE: u32 = 0x0C00_6C00;

/// The registers of the audio interface.
pub struct AudioInterface {
    pub control: u32,
}

impl AudioInterface {
    /// The interface at reset.
    pub fn new() -> (r: Self)
        ensures
            r.control == 0,
    {
        Self { control: 0 }
    }
}

/// A 16-bit write to the audio interface. No 16-bit register is modelled,
/// and the write changes nothing.
pub fn ai_write_u16(gc: &mut Gamecube, offset: u32, val: u16)
    ensures
        *final(gc) == *old(gc),
{
}

/// What a 32-bit write of `val` at `offset` leaves of the interface.
pub open spec fn spec_ai_write_u32(ai: AudioInterface, offset: u32, val: u32) -> (AudioInterface, Result<(), Fault>) {
    if offset == 0 {
        (AudioInterface { control: val }, Ok(()))
    } else {
        (ai, Err(Fault::UnimplementedPeripheralRegister { address: AI_BASE.wrapping_add(offset) }))
    }
}

/// A 32-bit write to the audio interface: the control register at offset 0.
/// Any other offset is reported and changes nothing.
pub fn ai_write_u32(gc: &mut Gamecube, offset: u32, val: u32) -> (res: Result<(), Fault>)
    ensures
        *final(gc) == (Gamecube { ai: spec_ai_write_u32(old(gc).ai, offset, val).0, ..*old(gc) }),
        res == spec_ai_write_u32(old(gc).ai, offset, val).1,
{
    if offset == 0 {
        gc.ai.control = val;
        Ok(())
    } else {
        Err(Fault::UnimplementedPeripheralRegister { address: AI_BASE.wrapping_add(offset) })
    }
}

pub open spec fn spec_ai_read_u32(gc: &Gamecube, offset: u32) -> Result<u32, Fault> {
    if offset == 0 {
        Ok(gc.ai.control)
    } else {
        Err(Fault::UnimplementedPeripheralRegister { address: AI_BASE.wrapping_add(offset) })
    }
}

/// A 32-bit read from the audio interface: the control register at offset 0.
/// Any other offset is reported.
#[verifier::when_used_as_spec(spec_ai_read_u32)]
pub fn ai_read_u32(gc: &Gamecube, offset: u32) -> (res: Result<u32, Fault>)
    ensures
        res == spec_ai_read_u32(gc, offset),
{
    if offset == 0 {
        Ok(gc.ai.control)
    } else {
        Err(Fault::UnimplementedPeripheralRegister { address: AI_BASE.wrapping_add(offset) })
    }
}

} // verus!

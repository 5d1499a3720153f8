use vstd::prelude::*;
use crate::fault::Fault;
use crate::Gamecube;

verus! {

/// The physical address of the first memory interface register.
pub const MI_BASE: u32 = 0x0C00_4000;

/// The registers of the memory interface.
pub struct MemoryInterface {
    pub mask_ints: u16,
}

impl MemoryInterface {
    /// The interface at reset.
    pub fn new() -> (r: Self)
        ensures
            r.mask_ints == 0,
    {
        Self { mask_ints: 0 }
    }
}

/// What a 16-bit write of `val` at `offset` leaves of the interface.
pub open spec fn spec_mi_write_u16(mi: MemoryInterface, offset: u32, val: u16) -> (MemoryInterface, Result<(), Fault>) {
    if offset == 0x1C {
        (MemoryInterface { mask_ints: val }, Ok(()))
    } else if offset == 0x26 {
        (mi, Ok(()))
    } else {
        (mi, Err(Fault::UnimplementedPeripheralRegister { address: MI_BASE.wrapping_add(offset) }))
    }
}

/// A 16-bit write to the memory interface: the interrupt mask at offset
/// `0x1C`; a write at offset `0x26` is accepted and changes nothing. Any
/// other offset is reported and changes nothing.
pub fn mi_write_u16(gc: &mut Gamecube, offset: u32, val: u16) -> (res: Result<(), Fault>)
    ensures
        *final(gc) == (Gamecube { mi: spec_mi_write_u16(old(gc).mi, offset, val).0, ..*old(gc) }),
        res == spec_mi_write_u16(old(gc).mi, offset, val).1,
{
    if offset == 0x1C {
        gc.mi.mask_ints = val;
        Ok(())
    } else if offset == 0x26 {
        Ok(())
    } else {
        Err(Fault::UnimplementedPeripheralRegister { address: MI_BASE.wrapping_add(offset) })
    }
}

} // verus!

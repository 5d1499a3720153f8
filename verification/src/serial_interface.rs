use vstd::prelude::*;
use crate::Gamecube;

verus! {

/// The registers of the serial interface.
pub struct SerialInterface {
    pub clock_lock: u32,
}

impl SerialInterface {
    /// The interface at reset.
    pub fn new() -> (r: Self)
        ensures
            r.clock_lock == 0,
    {
        Self { clock_lock: 0 }
    }
}

pub open spec fn spec_si_read_u32(gc: &Gamecube, offset: u32) -> u32 {
    if offset == 0x3C {
        gc.si.clock_lock
    } else {
        0
    }
}

/// A 32-bit read from the serial interface: the clock lock register at
/// offset `0x3C`, zero anywhere else.
#[verifier::when_used_as_spec(spec_si_read_u32)]
pub fn si_read_u32(gc: &Gamecube, offset: u32) -> (r: u32)
    ensures
        r == spec_si_read_u32(gc, offset),
{
    if offset == 0x3C {
        gc.si.clock_lock
    } else {
        0
    }
}

/// What a 32-bit write of `val` at `offset` leaves of the interface.
pub open spec fn spec_si_write_u32(si: SerialInterface, offset: u32, val: u32) -> SerialInterface {
    if offset == 0x3C {
        SerialInterface { clock_lock: val }
    } else {
        si
    }
}

/// A 32-bit write to the serial interface: the clock lock register at offset
/// `0x3C`. A write anywhere else changes nothing.
pub fn si_write_u32(gc: &mut Gamecube, offset: u32, val: u32)
    ensures
        *final(gc) == (Gamecube { si: spec_si_write_u32(old(gc).si, offset, val), ..*old(gc) }),
{
    if offset == 0x3C {
        gc.si.clock_lock = val;
    }
}

} // verus!

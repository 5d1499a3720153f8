use vstd::prelude::*;
use crate::external_interface::EXIDevice;
use crate::fault::Fault;

verus! {

/// An empty slot. A transfer passes through it and leaves every byte as it
/// is.
#[derive(Clone, Copy, Debug)]
pub struct NoDevice;

impl EXIDevice for NoDevice {
    open spec fn transferred(self, byte: u8) -> (Self, u8, Option<Fault>) {
        (self, byte, None)
    }

    fn transfer_byte(&mut self, byte: &mut u8) -> (res: Result<(), Fault>) {
        Ok(())
    }

    open spec fn selected(self) -> Self {
        self
    }

    fn select(&mut self) {
    }
}

} // verus!

use vstd::prelude::*;
use crate::external_interface::EXIDevice;
use crate::fault::Fault;

verus! {

/// The device of a chip select line that nothing is wired to. It cannot take
/// part in a transfer.
#[derive(Clone, Copy, Debug)]
pub struct NullDevice;

impl EXIDevice for NullDevice {
    open spec fn transferred(self, byte: u8) -> (Self, u8, Option<Fault>) {
        (self, byte, Some(Fault::UnimplementedDeviceTransfer { command: 0 }))
    }

    fn transfer_byte(&mut self, byte: &mut u8) -> (res: Result<(), Fault>) {
        Err(Fault::UnimplementedDeviceTransfer { command: 0 })
    }

    open spec fn selected(self) -> Self {
        self
    }

    fn select(&mut self) {
    }
}

} // verus!

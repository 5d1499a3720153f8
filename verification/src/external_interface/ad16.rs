use vstd::prelude::*;
use crate::external_interface::EXIDevice;
use crate::fault::Fault;

verus! {

/// The identifier that the device answers its identification command with.
pub const AD16_ID: u32 = 0x0412_0000;

/// The AD16 debug device.
#[derive(Clone, Copy, Debug)]
pub struct AD16 {
    pub reg: u32,
    pub position: u32,
    pub command: u32,
}

impl AD16 {
    /// The device at reset.
    pub fn new() -> (r: Self)
        ensures
            r == (AD16 { reg: 0, position: 0, command: 0 }),
    {
        Self { reg: 0, position: 0, command: 0 }
    }
}

/// The byte of the identifier that the device sends at `position` of an
/// identification transfer: its four bytes, the lowest first, at positions
/// 2 to 5. None at any other position.
pub open spec fn id_byte(position: u32) -> Option<u8> {
    if position == 2 {
        Some((AD16_ID & 0xFF) as u8)
    } else if position == 3 {
        Some(((AD16_ID >> 8) & 0xFF) as u8)
    } else if position == 4 {
        Some(((AD16_ID >> 16) & 0xFF) as u8)
    } else if position == 5 {
        Some(((AD16_ID >> 24) & 0xFF) as u8)
    } else {
        None
    }
}

impl EXIDevice for AD16 {
    /// The first byte of a transfer is the command. After the
    /// identification command, 0, the device holds its identifier and sends
    /// it. Any other command is not modelled.
    open spec fn transferred(self, byte: u8) -> (Self, u8, Option<Fault>) {
        if self.position == 0 {
            (AD16 { command: byte as u32, position: 1, ..self }, byte, None)
        } else if self.command == 0 {
            (AD16 { reg: AD16_ID, position: self.position.wrapping_add(1), ..self }, match id_byte(self.position) {
                Some(out) => out,
                None => byte,
            }, None)
        } else {
            (self, byte, Some(Fault::UnimplementedDeviceTransfer { command: self.command }))
        }
    }

    fn transfer_byte(&mut self, byte: &mut u8) -> (res: Result<(), Fault>) {
        if self.position == 0 {
            self.command = *byte as u32;
        } else if self.command == 0 {
            self.reg = AD16_ID;
            if self.position == 2 {
                *byte = (self.reg & 0xFF) as u8;
            } else if self.position == 3 {
                *byte = ((self.reg >> 8) & 0xFF) as u8;
            } else if self.position == 4 {
                *byte = ((self.reg >> 16) & 0xFF) as u8;
            } else if self.position == 5 {
                *byte = ((self.reg >> 24) & 0xFF) as u8;
            }
        } else {
            return Err(Fault::UnimplementedDeviceTransfer { command: self.command });
        }
        self.position = self.position.wrapping_add(1);
        Ok(())
    }

    open spec fn selected(self) -> Self {
        AD16 { reg: 0, position: 0, command: 0 }
    }

    fn select(&mut self) {
        self.position = 0;
        self.reg = 0;
        self.command = 0;
    }
}

} // verus!

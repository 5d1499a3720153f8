use vstd::prelude::*;
use vstd::array::spec_array_update;
use crate::external_interface::EXIDevice;
use crate::fault::Fault;
use crate::sram::{Sram, SRAM_SIZE};

verus! {

/// The end of the addresses that select the boot ROM.
pub const ROM_END: u32 = 0x0020_0000;

/// The first address that selects the battery-backed memory.
pub const SRAM_BASE: u32 = 0x0080_0000;

/// The boot ROM device. It also gives access to the battery-backed memory,
/// which it owns.
pub struct Bootrom {
    pub rom: Vec<u8>,
    pub sram: Sram,
    pub command_bytes_received: u32,
    pub command: u32,
    pub cursor: u32,
}

impl Bootrom {
    /// The device over the ROM image `rom` and the memory `sram`, with no
    /// command received.
    pub fn new(rom: Vec<u8>, sram: Sram) -> (r: Self)
        ensures
            r == (Bootrom { rom, sram, command_bytes_received: 0, command: 0, cursor: 0 }),
    {
        Self { rom, sram, command_bytes_received: 0, command: 0, cursor: 0 }
    }

    pub open spec fn spec_get_address(&self) -> u32 {
        (self.command >> 6) & 0x1ffffff
    }

    /// The address that the command names.
    #[verifier::when_used_as_spec(spec_get_address)]
    pub fn get_address(&self) -> (r: u32)
        ensures
            r == self.spec_get_address(),
            r <= 0x1ffffff,
    {
        proof {
            crate::cpu::instr::lemma_and_bound(self.command >> 6, 0x1ffffff);
        }
        (self.command >> 6) & 0x1ffffff
    }

    pub open spec fn spec_is_write(&self) -> bool {
        ((self.command >> 31) & 1) != 0
    }

    /// Whether the command is a write.
    #[verifier::when_used_as_spec(spec_is_write)]
    pub fn is_write(&self) -> (r: bool)
        ensures
            r == self.spec_is_write(),
    {
        ((self.command >> 31) & 1) != 0
    }
}

impl EXIDevice for Bootrom {
    /// The first four bytes of a transfer are the command, the most
    /// significant byte first; the device answers each with `0xFF`. After
    /// them, a read command that names a ROM address sends the ROM byte by
    /// byte from that address on. A command that names an address of the
    /// battery-backed memory reads or writes its byte at that address. A
    /// byte outside the ROM image or the memory, and an address that
    /// selects neither, is reported.
    open spec fn transferred(self, byte: u8) -> (Self, u8, Option<Fault>) {
        if self.command_bytes_received < 4 {
            (Bootrom {
                command: (self.command << 8) | (byte as u32),
                command_bytes_received: (self.command_bytes_received + 1) as u32,
                ..self
            }, 0xff, None)
        } else {
            let addr: u32 = self.get_address();
            if addr < ROM_END {
                if self.is_write() {
                    (self, byte, None)
                } else if addr + self.cursor < self.rom@.len() {
                    (Bootrom { cursor: self.cursor.wrapping_add(1), ..self }, self.rom@[addr + self.cursor], None)
                } else {
                    (self, byte, Some(Fault::UnmappedAddress { address: addr }))
                }
            } else if SRAM_BASE <= addr < SRAM_BASE + SRAM_SIZE {
                let at: int = addr - SRAM_BASE + self.cursor;
                if at >= SRAM_SIZE {
                    (self, byte, Some(Fault::UnmappedAddress { address: addr }))
                } else if self.is_write() {
                    (Bootrom { sram: Sram { byte_array: spec_array_update(self.sram.byte_array, at, byte) }, ..self }, byte, None)
                } else {
                    (self, self.sram.byte_array[at], None)
                }
            } else {
                (self, byte, Some(Fault::UnimplementedDeviceTransfer { command: self.command }))
            }
        }
    }

    fn transfer_byte(&mut self, byte: &mut u8) -> (res: Result<(), Fault>) {
        if self.command_bytes_received < 4 {
            self.command = (self.command << 8) | (*byte as u32);
            *byte = 0xff;
            self.command_bytes_received += 1;
            Ok(())
        } else {
            let addr: u32 = self.get_address();
            if addr < ROM_END {
                if !self.is_write() {
                    let at: u64 = addr as u64 + self.cursor as u64;
                    if at < self.rom.len() as u64 {
                        *byte = self.rom[at as usize];
                        self.cursor = self.cursor.wrapping_add(1);
                    } else {
                        return Err(Fault::UnmappedAddress { address: addr });
                    }
                }
                Ok(())
            } else if SRAM_BASE <= addr && addr < SRAM_BASE + 0x44 {
                let at: u64 = (addr - SRAM_BASE) as u64 + self.cursor as u64;
                if at >= 0x44 {
                    return Err(Fault::UnmappedAddress { address: addr });
                }
                if self.is_write() {
                    self.sram.byte_array[at as usize] = *byte;
                    assert(self.sram.byte_array =~= old(self).transferred(*old(byte)).0.sram.byte_array);
                } else {
                    *byte = self.sram.byte_array[at as usize];
                }
                Ok(())
            } else {
                Err(Fault::UnimplementedDeviceTransfer { command: self.command })
            }
        }
    }

    open spec fn selected(self) -> Self {
        Bootrom { command: 0, command_bytes_received: 0, cursor: 0, ..self }
    }

    fn select(&mut self) {
        self.command = 0;
        self.command_bytes_received = 0;
        self.cursor = 0;
    }
}

} // verus!

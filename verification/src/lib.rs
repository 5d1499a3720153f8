pub mod audio_interface;
pub mod backend;
pub mod cpu;
pub mod disassembler;
pub mod dsp;
pub mod endian;
pub mod external_interface;
pub mod fault;
pub mod memory_interface;
pub mod processor_interface;
pub mod serial_interface;
pub mod sram;

use vstd::prelude::*;
use crate::audio_interface::{ai_read_u32, ai_write_u32, spec_ai_write_u32, AudioInterface};
use crate::cpu::Cpu;
use crate::dsp::client::DSPClient;
use crate::dsp::dsp_interface::{dsp_read_u16, dsp_write_u16, dsp_write_u16_post, dsp_write_u32, dsp_write_u32_post, DSPInterface};
use crate::endian::{be_image_u16, be_image_u32, be_image_u64, be_u16, be_u32, be_u64, overlaid, read_be_u16, read_be_u32, read_be_u64, write_be_u16, write_be_u32, write_be_u64};
use crate::external_interface::{exi_read_u32, exi_write_u32, exi_write_u32_post, ExternalInterface};
use crate::fault::Fault;
use crate::memory_interface::{mi_write_u16, spec_mi_write_u16, MemoryInterface};
use crate::processor_interface::{pi_read_u32, pi_write_u32};
use crate::serial_interface::{si_read_u32, si_write_u32, spec_si_write_u32, SerialInterface};

verus! {

/// The last physical address of main memory.
pub const MEMORY_LAST: u32 = 0x017F_FFFF;

/// The size of main memory in bytes.
pub const MEMORY_SIZE: usize = 0x0180_0000;

/// The first physical address of the boot ROM.
pub const BIOS_BASE: u32 = 0xFFF0_0000;

/// The first byte of the boot ROM image that is scrambled.
pub const SCRAMBLED_FROM: usize = 0x100;

/// The end of the scrambled part of the boot ROM image.
pub const SCRAMBLED_TO: usize = 0x1A_FF00;

/// The machine: the CPU, main memory, the boot ROM image, audio RAM, and the
/// peripherals that the CPU reaches through physical addresses.
pub struct Gamecube {
    pub cpu: Cpu,
    pub bios: Vec<u8>,
    pub exi: ExternalInterface,
    pub si: SerialInterface,
    pub mi: MemoryInterface,
    pub ai: AudioInterface,
    pub dsp: DSPInterface,
    pub dsp_client: DSPClient,
    pub aram: Vec<u8>,
    pub memory: Vec<u8>,
}

/// A value to store, of one of the four widths that the bus carries.
#[derive(Clone, Copy, Debug)]
pub enum Datum {
    Byte(u8),
    Half(u16),
    Word(u32),
    Double(u64),
}

/// Whether `phys` lies in the block of peripheral registers that starts at
/// `base` and ends at `last`.
pub open spec fn within(phys: u32, base: u32, last: u32) -> bool {
    base <= phys && phys <= last
}

impl Gamecube {
    /// What main memory answers to a read of `width` bytes at the physical
    /// address `phys`, given the value that its bytes hold there.
    pub open spec fn memory_answer<T>(&self, phys: u32, width: int, value: T) -> Result<T, Fault> {
        if phys + width <= self.memory@.len() {
            Ok(value)
        } else {
            Err(Fault::UnmappedAddress { address: phys })
        }
    }

    /// What a read of one byte at the physical address `phys` returns.
    pub open spec fn read_phys_u8(&self, phys: u32) -> Result<u8, Fault> {
        if phys <= MEMORY_LAST {
            self.memory_answer(phys, 1, self.memory@[phys as int])
        } else {
            Err(Fault::UnmappedAddress { address: phys })
        }
    }

    /// What a read of 16 bits at the physical address `phys` returns.
    pub open spec fn read_phys_u16(&self, phys: u32) -> Result<u16, Fault> {
        if phys <= MEMORY_LAST {
            self.memory_answer(phys, 2, be_u16(self.memory@, phys as int))
        } else if within(phys, 0x0C00_2000, 0x0C00_2FFF) {
            Err(Fault::UnimplementedPeripheralRegister { address: phys })
        } else if within(phys, 0x0C00_5000, 0x0C00_5FFF) {
            dsp_read_u16(self, (phys - 0x0C00_5000) as u32)
        } else {
            Err(Fault::UnmappedAddress { address: phys })
        }
    }

    /// What a read of 32 bits at the physical address `phys` returns.
    pub open spec fn read_phys_u32(&self, phys: u32) -> Result<u32, Fault> {
        if phys <= MEMORY_LAST {
            self.memory_answer(phys, 4, be_u32(self.memory@, phys as int))
        } else if within(phys, 0x0C00_3000, 0x0C00_3FFF) {
            Ok(pi_read_u32(self, (phys - 0x0C00_3000) as u32))
        } else if within(phys, 0x0C00_6000, 0x0C00_63FF) {
            Err(Fault::UnimplementedPeripheralRegister { address: phys })
        } else if within(phys, 0x0C00_6400, 0x0C00_67FF) {
            Ok(si_read_u32(self, (phys - 0x0C00_6400) as u32))
        } else if within(phys, 0x0C00_6800, 0x0C00_6BFF) {
            exi_read_u32(self, (phys - 0x0C00_6800) as u32)
        } else if within(phys, 0x0C00_6C00, 0x0C00_6FFF) {
            ai_read_u32(self, (phys - 0x0C00_6C00) as u32)
        } else if phys >= BIOS_BASE {
            if phys - BIOS_BASE + 4 <= self.bios@.len() {
                Ok(be_u32(self.bios@, phys - BIOS_BASE))
            } else {
                Err(Fault::UnmappedAddress { address: phys })
            }
        } else {
            Err(Fault::UnmappedAddress { address: phys })
        }
    }

    /// What a read of 64 bits at the physical address `phys` returns.
    pub open spec fn read_phys_u64(&self, phys: u32) -> Result<u64, Fault> {
        if phys <= MEMORY_LAST {
            self.memory_answer(phys, 8, be_u64(self.memory@, phys as int))
        } else {
            Err(Fault::UnmappedAddress { address: phys })
        }
    }

    pub open spec fn spec_read_u8(&self, addr: u32) -> Result<u8, Fault> {
        match self.cpu.mmu.translate_addr(false, addr, &self.cpu.msr) {
            Ok(phys) => self.read_phys_u8(phys),
            Err(f) => Err(f),
        }
    }

    /// Reads the byte at the effective address `addr`. Only main memory
    /// answers reads of this width.
    #[verifier::when_used_as_spec(spec_read_u8)]
    pub fn read_u8(&self, addr: u32) -> (res: Result<u8, Fault>)
        ensures
            res == self.spec_read_u8(addr),
    {
        let phys: u32 = self.cpu.mmu.translate_addr(false, addr, &self.cpu.msr)?;
        if phys <= MEMORY_LAST && (phys as usize) < self.memory.len() {
            Ok(self.memory[phys as usize])
        } else {
            Err(Fault::UnmappedAddress { address: phys })
        }
    }

    pub open spec fn spec_read_u16(&self, addr: u32) -> Result<u16, Fault> {
        match self.cpu.mmu.translate_addr(false, addr, &self.cpu.msr) {
            Ok(phys) => self.read_phys_u16(phys),
            Err(f) => Err(f),
        }
    }

    /// Reads the big-endian 16-bit value at the effective address `addr`,
    /// from main memory or from the DSP interface.
    #[verifier::when_used_as_spec(spec_read_u16)]
    pub fn read_u16(&self, addr: u32) -> (res: Result<u16, Fault>)
        ensures
            res == self.spec_read_u16(addr),
    {
        let phys: u32 = self.cpu.mmu.translate_addr(false, addr, &self.cpu.msr)?;
        if phys <= MEMORY_LAST {
            if phys as u64 + 2 <= self.memory.len() as u64 {
                Ok(read_be_u16(self.memory.as_slice(), phys as usize))
            } else {
                Err(Fault::UnmappedAddress { address: phys })
            }
        } else if 0x0C00_2000 <= phys && phys <= 0x0C00_2FFF {
            Err(Fault::UnimplementedPeripheralRegister { address: phys })
        } else if 0x0C00_5000 <= phys && phys <= 0x0C00_5FFF {
            dsp_read_u16(self, phys - 0x0C00_5000)
        } else {
            Err(Fault::UnmappedAddress { address: phys })
        }
    }

    pub open spec fn spec_read_u32(&self, addr: u32, instr: bool) -> Result<u32, Fault> {
        match self.cpu.mmu.translate_addr(instr, addr, &self.cpu.msr) {
            Ok(phys) => self.read_phys_u32(phys),
            Err(f) => Err(f),
        }
    }

    /// Reads the big-endian 32-bit value at the effective address `addr`, as
    /// an instruction fetch (`instr`) or a data access, from main memory,
    /// the boot ROM or a peripheral.
    #[verifier::when_used_as_spec(spec_read_u32)]
    pub fn read_u32(&self, addr: u32, instr: bool) -> (res: Result<u32, Fault>)
        ensures
            res == self.spec_read_u32(addr, instr),
    {
        let phys: u32 = self.cpu.mmu.translate_addr(instr, addr, &self.cpu.msr)?;
        if phys <= MEMORY_LAST {
            if phys as u64 + 4 <= self.memory.len() as u64 {
                Ok(read_be_u32(self.memory.as_slice(), phys as usize))
            } else {
                Err(Fault::UnmappedAddress { address: phys })
            }
        } else if 0x0C00_3000 <= phys && phys <= 0x0C00_3FFF {
            Ok(pi_read_u32(self, phys - 0x0C00_3000))
        } else if 0x0C00_6000 <= phys && phys <= 0x0C00_63FF {
            Err(Fault::UnimplementedPeripheralRegister { address: phys })
        } else if 0x0C00_6400 <= phys && phys <= 0x0C00_67FF {
            Ok(si_read_u32(self, phys - 0x0C00_6400))
        } else if 0x0C00_6800 <= phys && phys <= 0x0C00_6BFF {
            exi_read_u32(self, phys - 0x0C00_6800)
        } else if 0x0C00_6C00 <= phys && phys <= 0x0C00_6FFF {
            ai_read_u32(self, phys - 0x0C00_6C00)
        } else if phys >= BIOS_BASE {
            let offset: u32 = phys - BIOS_BASE;
            if offset as u64 + 4 <= self.bios.len() as u64 {
                Ok(read_be_u32(self.bios.as_slice(), offset as usize))
            } else {
                Err(Fault::UnmappedAddress { address: phys })
            }
        } else {
            Err(Fault::UnmappedAddress { address: phys })
        }
    }

    pub open spec fn spec_read_u64(&self, addr: u32) -> Result<u64, Fault> {
        match self.cpu.mmu.translate_addr(false, addr, &self.cpu.msr) {
            Ok(phys) => self.read_phys_u64(phys),
            Err(f) => Err(f),
        }
    }

    /// Reads the big-endian 64-bit value at the effective address `addr`.
    /// Only main memory answers reads of this width.
    #[verifier::when_used_as_spec(spec_read_u64)]
    pub fn read_u64(&self, addr: u32) -> (res: Result<u64, Fault>)
        ensures
            res == self.spec_read_u64(addr),
    {
        let phys: u32 = self.cpu.mmu.translate_addr(false, addr, &self.cpu.msr)?;
        if phys <= MEMORY_LAST && phys as u64 + 8 <= self.memory.len() as u64 {
            Ok(read_be_u64(self.memory.as_slice(), phys as usize))
        } else {
            Err(Fault::UnmappedAddress { address: phys })
        }
    }

    /// The machine `pre` after `image` has been written into main memory at
    /// the physical address `phys`, where it fits; otherwise the write is
    /// reported and nothing changes.
    pub open spec fn memory_write_post(pre: Gamecube, post: Gamecube, phys: u32, image: Seq<u8>, res: Result<(), Fault>) -> bool {
        if phys + image.len() <= pre.memory@.len() {
            &&& res is Ok
            &&& post == (Gamecube { memory: post.memory, ..pre })
            &&& post.memory@ == overlaid(pre.memory@, phys as int, image)
        } else {
            res == Err::<(), Fault>(Fault::UnmappedAddress { address: phys }) && post == pre
        }
    }

    /// What a write of the byte `val` at the effective address `addr`
    /// leaves of the machine `pre`: a fault of the translation, or the byte
    /// in main memory. Nothing else takes writes of this width.
    pub open spec fn write_u8_post(pre: Gamecube, post: Gamecube, addr: u32, val: u8, res: Result<(), Fault>) -> bool {
        match pre.cpu.mmu.translate_addr(false, addr, &pre.cpu.msr) {
            Err(f) => res == Err::<(), Fault>(f) && post == pre,
            Ok(phys) => if phys <= MEMORY_LAST {
                Self::memory_write_post(pre, post, phys, seq![val], res)
            } else {
                res == Err::<(), Fault>(Fault::UnmappedAddress { address: phys }) && post == pre
            },
        }
    }

    /// Writes the byte `val` at the effective address `addr`.
    pub fn write_u8(&mut self, addr: u32, val: u8) -> (res: Result<(), Fault>)
        ensures
            Self::write_u8_post(*old(self), *final(self), addr, val, res),
            final(self).cpu == old(self).cpu,
    {
        let phys: u32 = self.cpu.mmu.translate_addr(false, addr, &self.cpu.msr)?;
        if phys <= MEMORY_LAST && (phys as usize) < self.memory.len() {
            self.memory.set(phys as usize, val);
            assert(self.memory@ =~= overlaid(old(self).memory@, phys as int, seq![val]));
            Ok(())
        } else {
            Err(Fault::UnmappedAddress { address: phys })
        }
    }

    /// What a write of the 16-bit value `val` at the effective address
    /// `addr` leaves of the machine `pre`: a fault of the translation, the
    /// big-endian image of `val` in main memory, or what the memory
    /// interface or the DSP interface makes of the write.
    pub open spec fn write_u16_post(pre: Gamecube, post: Gamecube, addr: u32, val: u16, res: Result<(), Fault>) -> bool {
        match pre.cpu.mmu.translate_addr(false, addr, &pre.cpu.msr) {
            Err(f) => res == Err::<(), Fault>(f) && post == pre,
            Ok(phys) => if phys <= MEMORY_LAST {
                Self::memory_write_post(pre, post, phys, be_image_u16(val), res)
            } else if within(phys, 0x0C00_4000, 0x0C00_4FFF) {
                &&& post == (Gamecube { mi: spec_mi_write_u16(pre.mi, (phys - 0x0C00_4000) as u32, val).0, ..pre })
                &&& res == spec_mi_write_u16(pre.mi, (phys - 0x0C00_4000) as u32, val).1
            } else if within(phys, 0x0C00_5000, 0x0C00_5FFF) {
                dsp_write_u16_post(pre, post, (phys - 0x0C00_5000) as u32, val, res)
            } else {
                res == Err::<(), Fault>(Fault::UnmappedAddress { address: phys }) && post == pre
            },
        }
    }

    /// Writes the 16-bit value `val` at the effective address `addr`.
    pub fn write_u16(&mut self, addr: u32, val: u16) -> (res: Result<(), Fault>)
        ensures
            Self::write_u16_post(*old(self), *final(self), addr, val, res),
            final(self).cpu == old(self).cpu,
    {
        let phys: u32 = self.cpu.mmu.translate_addr(false, addr, &self.cpu.msr)?;
        if phys <= MEMORY_LAST {
            if phys as u64 + 2 <= self.memory.len() as u64 {
                write_be_u16(&mut self.memory, phys as usize, val);
                Ok(())
            } else {
                Err(Fault::UnmappedAddress { address: phys })
            }
        } else if 0x0C00_4000 <= phys && phys <= 0x0C00_4FFF {
            mi_write_u16(self, phys - 0x0C00_4000, val)
        } else if 0x0C00_5000 <= phys && phys <= 0x0C00_5FFF {
            dsp_write_u16(self, phys - 0x0C00_5000, val)
        } else {
            Err(Fault::UnmappedAddress { address: phys })
        }
    }

    /// What a write of the 32-bit value `val` at the effective address
    /// `addr` leaves of the machine `pre`: a fault of the translation, the
    /// big-endian image of `val` in main memory, or what the peripheral that
    /// owns the physical address makes of the write.
    pub open spec fn write_u32_post(pre: Gamecube, post: Gamecube, addr: u32, val: u32, res: Result<(), Fault>) -> bool {
        match pre.cpu.mmu.translate_addr(false, addr, &pre.cpu.msr) {
            Err(f) => res == Err::<(), Fault>(f) && post == pre,
            Ok(phys) => if phys <= MEMORY_LAST {
                Self::memory_write_post(pre, post, phys, be_image_u32(val), res)
            } else if within(phys, 0x0C00_3000, 0x0C00_3FFF) {
                res is Ok && post == pre
            } else if within(phys, 0x0C00_5000, 0x0C00_5FFF) {
                dsp_write_u32_post(pre, post, (phys - 0x0C00_5000) as u32, val, res)
            } else if within(phys, 0x0C00_6400, 0x0C00_67FF) {
                res is Ok && post == (Gamecube { si: spec_si_write_u32(pre.si, (phys - 0x0C00_6400) as u32, val), ..pre })
            } else if within(phys, 0x0C00_6800, 0x0C00_6BFF) {
                exi_write_u32_post(pre, post, (phys - 0x0C00_6800) as u32, val, res)
            } else if within(phys, 0x0C00_6C00, 0x0C00_6FFF) {
                &&& post == (Gamecube { ai: spec_ai_write_u32(pre.ai, (phys - 0x0C00_6C00) as u32, val).0, ..pre })
                &&& res == spec_ai_write_u32(pre.ai, (phys - 0x0C00_6C00) as u32, val).1
            } else {
                res == Err::<(), Fault>(Fault::UnmappedAddress { address: phys }) && post == pre
            },
        }
    }

    /// Writes the 32-bit value `val` at the effective address `addr`.
    pub fn write_u32(&mut self, addr: u32, val: u32) -> (res: Result<(), Fault>)
        ensures
            Self::write_u32_post(*old(self), *final(self), addr, val, res),
            final(self).cpu == old(self).cpu,
    {
        let phys: u32 = self.cpu.mmu.translate_addr(false, addr, &self.cpu.msr)?;
        if phys <= MEMORY_LAST {
            if phys as u64 + 4 <= self.memory.len() as u64 {
                write_be_u32(&mut self.memory, phys as usize, val);
                Ok(())
            } else {
                Err(Fault::UnmappedAddress { address: phys })
            }
        } else if 0x0C00_3000 <= phys && phys <= 0x0C00_3FFF {
            pi_write_u32(self, phys - 0x0C00_3000, val);
            Ok(())
        } else if 0x0C00_5000 <= phys && phys <= 0x0C00_5FFF {
            dsp_write_u32(self, phys - 0x0C00_5000, val)
        } else if 0x0C00_6400 <= phys && phys <= 0x0C00_67FF {
            si_write_u32(self, phys - 0x0C00_6400, val);
            Ok(())
        } else if 0x0C00_6800 <= phys && phys <= 0x0C00_6BFF {
            exi_write_u32(self, phys - 0x0C00_6800, val)
        } else if 0x0C00_6C00 <= phys && phys <= 0x0C00_6FFF {
            ai_write_u32(self, phys - 0x0C00_6C00, val)
        } else {
            Err(Fault::UnmappedAddress { address: phys })
        }
    }

    /// What a write of the 64-bit value `val` at the effective address
    /// `addr` leaves of the machine `pre`: a fault of the translation, or
    /// the big-endian image of `val` in main memory. Nothing else takes
    /// writes of this width.
    pub open spec fn write_u64_post(pre: Gamecube, post: Gamecube, addr: u32, val: u64, res: Result<(), Fault>) -> bool {
        match pre.cpu.mmu.translate_addr(false, addr, &pre.cpu.msr) {
            Err(f) => res == Err::<(), Fault>(f) && post == pre,
            Ok(phys) => if phys <= MEMORY_LAST {
                Self::memory_write_post(pre, post, phys, be_image_u64(val), res)
            } else {
                res == Err::<(), Fault>(Fault::UnmappedAddress { address: phys }) && post == pre
            },
        }
    }

    /// Writes the 64-bit value `val` at the effective address `addr`.
    pub fn write_u64(&mut self, addr: u32, val: u64) -> (res: Result<(), Fault>)
        ensures
            Self::write_u64_post(*old(self), *final(self), addr, val, res),
            final(self).cpu == old(self).cpu,
    {
        let phys: u32 = self.cpu.mmu.translate_addr(false, addr, &self.cpu.msr)?;
        if phys <= MEMORY_LAST && phys as u64 + 8 <= self.memory.len() as u64 {
            write_be_u64(&mut self.memory, phys as usize, val);
            Ok(())
        } else {
            Err(Fault::UnmappedAddress { address: phys })
        }
    }

    /// What a write of `datum` at the effective address `addr` leaves of the
    /// machine `pre`.
    pub open spec fn write_post(pre: Gamecube, post: Gamecube, addr: u32, datum: Datum, res: Result<(), Fault>) -> bool {
        match datum {
            Datum::Byte(val) => Self::write_u8_post(pre, post, addr, val, res),
            Datum::Half(val) => Self::write_u16_post(pre, post, addr, val, res),
            Datum::Word(val) => Self::write_u32_post(pre, post, addr, val, res),
            Datum::Double(val) => Self::write_u64_post(pre, post, addr, val, res),
        }
    }

    /// Writes `datum` at the effective address `addr`. No write changes a
    /// register of the CPU.
    pub fn write(&mut self, addr: u32, datum: Datum) -> (res: Result<(), Fault>)
        ensures
            Self::write_post(*old(self), *final(self), addr, datum, res),
            final(self).cpu == old(self).cpu,
    {
        match datum {
            Datum::Byte(val) => self.write_u8(addr, val),
            Datum::Half(val) => self.write_u16(addr, val),
            Datum::Word(val) => self.write_u32(addr, val),
            Datum::Double(val) => self.write_u64(addr, val),
        }
    }

    /// A read does not depend on any register of the CPU but the machine
    /// state register and those of the memory management unit.
    pub proof fn lemma_read_frame(self, cpu: Cpu, addr: u32, instr: bool)
        requires
            cpu.mmu == self.cpu.mmu,
            cpu.msr == self.cpu.msr,
        ensures
            (Gamecube { cpu, ..self }).read_u8(addr) == self.read_u8(addr),
            (Gamecube { cpu, ..self }).read_u16(addr) == self.read_u16(addr),
            (Gamecube { cpu, ..self }).read_u32(addr, instr) == self.read_u32(addr, instr),
            (Gamecube { cpu, ..self }).read_u64(addr) == self.read_u64(addr),
    {
    }
}

/// The three shift registers of the boot ROM scrambler, the bit that they
/// put out, and the last eight bits put out.
#[derive(Clone, Copy, Debug, PartialEq, Eq, Structural)]
pub struct Scrambler {
    pub t: u16,
    pub u: u16,
    pub v: u16,
    pub x: bool,
    pub acc: u8,
}

impl Scrambler {
    /// The scrambler before the first bit.
    pub open spec fn spec_start() -> Self {
        Scrambler { t: 0x2953, u: 0xd9c2, v: 0x3ff1, x: true, acc: 0 }
    }

    /// The scrambler before the first bit.
    #[verifier::when_used_as_spec(spec_start)]
    pub fn start() -> (r: Self)
        ensures
            r == Self::spec_start(),
    {
        Scrambler { t: 0x2953, u: 0xd9c2, v: 0x3ff1, x: true, acc: 0 }
    }

    /// The scrambler after one more bit. The output bit flips according to
    /// the low bits of the three registers. The third register is clocked
    /// when the low bits of the first two agree, the second when the low
    /// bit of the first is clear, the first always; a register that shifts
    /// out a set bit has its taps flipped. The output bit is shifted into
    /// the accumulator.
    pub open spec fn spec_clocked(self) -> Self {
        let t0: bool = self.t & 1 != 0;
        let t1: bool = (self.t >> 1) & 1 != 0;
        let u0: bool = self.u & 1 != 0;
        let u1: bool = (self.u >> 1) & 1 != 0;
        let v0: bool = self.v & 1 != 0;
        let x: bool = ((self.x != (t1 != v0)) != (u0 || u1)) != (((t0 != u1) != v0) && (t0 != u0));
        Scrambler {
            t: if t0 { (self.t >> 1) ^ 0xa740 } else { self.t >> 1 },
            u: if t0 { self.u } else if u0 { (self.u >> 1) ^ 0xfb10 } else { self.u >> 1 },
            v: if t0 != u0 { self.v } else if v0 { (self.v >> 1) ^ 0xb3d0 } else { self.v >> 1 },
            x,
            acc: (((self.acc as u32) & 0x7F) * 2 + (if x { 1u32 } else { 0u32 })) as u8,
        }
    }

    /// Clocks the scrambler by one bit.
    pub fn clock(&mut self)
        ensures
            *final(self) == old(self).spec_clocked(),
    {
        let t0: bool = self.t & 1 != 0;
        let t1: bool = (self.t >> 1) & 1 != 0;
        let u0: bool = self.u & 1 != 0;
        let u1: bool = (self.u >> 1) & 1 != 0;
        let v0: bool = self.v & 1 != 0;
        self.x = ((self.x != (t1 != v0)) != (u0 || u1)) != (((t0 != u1) != v0) && (t0 != u0));
        if t0 == u0 {
            self.v = if v0 { (self.v >> 1) ^ 0xb3d0 } else { self.v >> 1 };
        }
        if !t0 {
            self.u = if u0 { (self.u >> 1) ^ 0xfb10 } else { self.u >> 1 };
        }
        self.t = if t0 { (self.t >> 1) ^ 0xa740 } else { self.t >> 1 };
        proof {
            crate::cpu::instr::lemma_and_bound(self.acc as u32, 0x7F);
        }
        let low: u32 = (self.acc as u32) & 0x7F;
        let bit: u32 = if self.x { 1 } else { 0 };
        self.acc = (low * 2 + bit) as u8;
    }

    /// The scrambler after `bits` bits.
    pub open spec fn after(bits: nat) -> Self
        decreases bits,
    {
        if bits == 0 {
            Self::spec_start()
        } else {
            Self::after((bits - 1) as nat).spec_clocked()
        }
    }
}

/// The byte of the key stream with the index `i`: the eight bits that the
/// scrambler puts out for it, the first in the most significant bit.
pub open spec fn key_byte(i: nat) -> u8 {
    Scrambler::after(8 * (i + 1)).acc
}

/// Descrambles `data` in place: every byte is combined by exclusive-or with
/// the byte of the key stream that has its index. The key stream does not
/// depend on the data.
pub fn descramble(data: &mut [u8])
    ensures
        final(data)@.len() == old(data)@.len(),
        forall|i: int| 0 <= i < old(data)@.len() ==> #[trigger] final(data)@[i] == old(data)@[i] ^ key_byte(i as nat),
{
    let size: usize = data.len();
    let mut state: Scrambler = Scrambler::start();
    let mut it: usize = 0;
    while it < size
        invariant
            it <= size,
            size == old(data)@.len(),
            data@.len() == old(data)@.len(),
            state == Scrambler::after((8 * it) as nat),
            forall|i: int| 0 <= i < it ==> #[trigger] data@[i] == old(data)@[i] ^ key_byte(i as nat),
            forall|i: int| it <= i < size ==> #[trigger] data@[i] == old(data)@[i],
        decreases size - it,
    {
        let mut nacc: usize = 0;
        while nacc < 8
            invariant
                nacc <= 8,
                state == Scrambler::after((8 * it + nacc) as nat),
            decreases 8 - nacc,
        {
            state.clock();
            nacc += 1;
        }
        let byte: u8 = data[it] ^ state.acc;
        data[it] = byte;
        it += 1;
    }
}

/// The boot ROM image `image` with its scrambled part descrambled.
pub open spec fn descrambled(image: Seq<u8>) -> Seq<u8> {
    Seq::new(image.len(), |i: int| if SCRAMBLED_FROM <= i < SCRAMBLED_TO {
        image[i] ^ key_byte((i - SCRAMBLED_FROM) as nat)
    } else {
        image[i]
    })
}

impl Gamecube {
    /// The machine at reset, over the boot ROM image `bios`, the audio RAM
    /// `aram` and the registers `client` that it shares with the DSP. The
    /// scrambled part of the image is descrambled, once. Main memory is
    /// zero.
    pub fn new(bios: Vec<u8>, aram: Vec<u8>, client: DSPClient) -> (r: Self)
        requires
            bios@.len() >= SCRAMBLED_TO,
        ensures
            r.bios@ == descrambled(bios@),
            r.aram == aram,
            r.dsp_client == client,
            r.memory@.len() == MEMORY_SIZE,
            forall|i: int| 0 <= i < MEMORY_SIZE ==> r.memory@[i] == 0,
            r.cpu.at_reset(),
            r.exi.at_reset(r.bios@, r.exi.sram()),
            r.exi.sram().at_reset(),
            r.ai.control == 0 && r.mi.mask_ints == 0 && r.si.clock_lock == 0,
            r.dsp.ar_size == 0 && r.dsp.ar_refresh == 0 && r.dsp.ar_dma_mmaddr == 0 && r.dsp.ar_dma_araddr == 0 && r.dsp.ar_dma_cnt == 0,
    {
        let mut bios: Vec<u8> = bios;
        let ghost image: Seq<u8> = bios@;
        let whole: &mut [u8] = bios.as_mut_slice();
        let (head, rest) = whole.split_at_mut(SCRAMBLED_FROM);
        let (middle, tail) = rest.split_at_mut(SCRAMBLED_TO - SCRAMBLED_FROM);
        descramble(middle);
        assert(bios@ =~= descrambled(image));
        let rom: Vec<u8> = bios.clone();
        assert(rom@ =~= bios@);
        Self {
            cpu: Cpu::new(),
            bios,
            exi: ExternalInterface::new(rom, crate::sram::Sram::new()),
            si: SerialInterface::new(),
            mi: MemoryInterface::new(),
            ai: AudioInterface::new(),
            dsp: DSPInterface::new(),
            dsp_client: client,
            aram,
            memory: vec![0u8; MEMORY_SIZE],
        }
    }
}

/// The machine `post` is what `n` instructions that retire make of the
/// machine `pre`.
pub open spec fn stepped(pre: Gamecube, post: Gamecube, n: nat) -> bool
    decreases n,
{
    if n == 0 {
        post == pre
    } else {
        exists|mid: Gamecube, res: Result<(), Fault>|
            stepped(pre, mid, (n - 1) as nat) && res is Ok && #[trigger] crate::cpu::step_post(mid, post, res)
    }
}

/// Executes one instruction.
pub fn step(gc: &mut Gamecube) -> (res: Result<(), Fault>)
    ensures
        crate::cpu::step_post(*old(gc), *final(gc), res),
{
    crate::cpu::step(gc)
}

/// Executes up to `limit` instructions, and stops at the first that fails.
/// On success all `limit` instructions have retired. On failure fewer have,
/// and the result is the fault of the one after them.
pub fn run(gc: &mut Gamecube, limit: u64) -> (res: Result<(), Fault>)
    ensures
        res is Ok ==> stepped(*old(gc), *final(gc), limit as nat),
        res is Err ==> exists|n: nat, mid: Gamecube| n < limit && #[trigger] stepped(*old(gc), mid, n) && crate::cpu::step_post(mid, *final(gc), res),
{
    let mut done: u64 = 0;
    while done < limit
        invariant
            done <= limit,
            stepped(*old(gc), *gc, done as nat),
        decreases limit - done,
    {
        let ghost before: Gamecube = *gc;
        let res: Result<(), Fault> = step(gc);
        if res.is_err() {
            assert(done < limit && stepped(*old(gc), before, done as nat) && crate::cpu::step_post(before, *gc, res));
            return res;
        }
        assert(stepped(*old(gc), before, done as nat) && res is Ok && crate::cpu::step_post(before, *gc, res));
        done += 1;
    }
    Ok(())
}

} // verus!

pub mod ad16;
pub mod bootrom;
pub mod no_device;
pub mod null;

use vstd::prelude::*;
use vstd::array::spec_array_update;
use crate::cpu::instr::lemma_and_bound;
use crate::external_interface::ad16::AD16;
use crate::external_interface::bootrom::Bootrom;
use crate::external_interface::no_device::NoDevice;
use crate::external_interface::null::NullDevice;
use crate::fault::Fault;
use crate::sram::Sram;
use crate::Gamecube;

verus! {

/// The physical address of the first external interface register.
pub const EXI_BASE: u32 = 0x0C00_6800;

/// The number of bytes that the registers of one channel take.
pub const CHANNEL_SPAN: u32 = 0x14;

/// A device on the external interface. All traffic with a device is made of
/// single byte transfers.
pub trait EXIDevice: Sized {
    /// What the transfer of one byte makes of the device: the device after
    /// it, the byte that comes back, and the fault of a device that cannot
    /// take the byte.
    spec fn transferred(self, byte: u8) -> (Self, u8, Option<Fault>);

    /// Transfers one byte: the device takes `byte`, and may replace it by
    /// the byte that it sends.
    fn transfer_byte(&mut self, byte: &mut u8) -> (res: Result<(), Fault>)
        ensures
            *final(self) == old(self).transferred(*old(byte)).0,
            *final(byte) == old(self).transferred(*old(byte)).1,
            res == ended(old(self).transferred(*old(byte)).2),
    ;

    /// The device after its chip select line has been raised.
    spec fn selected(self) -> Self;

    /// Raises the chip select line of the device: a new transfer starts.
    fn select(&mut self)
        ensures
            *final(self) == old(self).selected(),
    ;
}

/// How a transfer with the fault `fault`, if any, ends.
pub open spec fn ended(fault: Option<Fault>) -> Result<(), Fault> {
    match fault {
        Some(f) => Err(f),
        None => Ok(()),
    }
}

/// What an immediate write of the top `size` bytes of `data`, the most
/// significant first, makes of the device. The first byte that the device
/// cannot take ends the transfer.
pub open spec fn imm_written<D: EXIDevice>(dev: D, data: u32, size: nat) -> (D, Result<(), Fault>)
    decreases size,
{
    if size == 0 {
        (dev, Ok(()))
    } else {
        let (next, _out, fault) = dev.transferred((data >> 24) as u8);
        match fault {
            Some(f) => (next, Err(f)),
            None => imm_written(next, data << 8, (size - 1) as nat),
        }
    }
}

/// Writes the top `size` bytes of `data` to the device, the most
/// significant first.
pub fn imm_write<D: EXIDevice>(dev: &mut D, data: u32, size: u32) -> (res: Result<(), Fault>)
    ensures
        (*final(dev), res) == imm_written(*old(dev), data, size as nat),
{
    let mut word: u32 = data;
    let mut left: u32 = size;
    while left != 0
        invariant
            imm_written(*old(dev), data, size as nat) == imm_written(*dev, word, left as nat),
        decreases left,
    {
        left -= 1;
        let mut byte: u8 = (word >> 24) as u8;
        match dev.transfer_byte(&mut byte) {
            Err(f) => {
                return Err(f);
            },
            Ok(()) => {},
        }
        word = word << 8;
    }
    Ok(())
}

/// What an immediate read of `size` bytes makes of the device, and the word
/// that it gives: the bytes that the device answers zero bytes with, the
/// first in the most significant byte of the word, below what `result`
/// holds of the `position` bytes read before.
pub open spec fn imm_read_from<D: EXIDevice>(dev: D, size: nat, position: u32, result: u32) -> (D, Result<u32, Fault>)
    decreases size,
{
    if size == 0 {
        (dev, Ok(result))
    } else {
        let (next, out, fault) = dev.transferred(0);
        match fault {
            Some(f) => (next, Err(f)),
            None => imm_read_from(next, (size - 1) as nat, (position + 1) as u32, result | ((out as u32) << ((24 - position * 8) as u32))),
        }
    }
}

/// Reads `size` bytes from the device into a word, the first into its most
/// significant byte.
pub fn imm_read<D: EXIDevice>(dev: &mut D, size: u32) -> (res: Result<u32, Fault>)
    requires
        size <= 4,
    ensures
        (*final(dev), res) == imm_read_from(*old(dev), size as nat, 0, 0),
{
    let mut left: u32 = size;
    let mut position: u32 = 0;
    let mut result: u32 = 0;
    while left != 0
        invariant
            position + left == size,
            size <= 4,
            imm_read_from(*old(dev), size as nat, 0, 0) == imm_read_from(*dev, left as nat, position, result),
        decreases left,
    {
        left -= 1;
        let mut byte: u8 = 0;
        match dev.transfer_byte(&mut byte) {
            Err(f) => {
                return Err(f);
            },
            Ok(()) => {},
        }
        result = result | ((byte as u32) << (24 - (position * 8)));
        position += 1;
    }
    Ok(result)
}

/// What a DMA write of the `size` bytes of `mem` from `addr` on makes of
/// the device. A byte outside `mem`, and the first byte that the device
/// cannot take, ends the transfer.
pub open spec fn dma_written<D: EXIDevice>(dev: D, mem: Seq<u8>, addr: int, size: nat) -> (D, Result<(), Fault>)
    decreases size,
{
    if size == 0 {
        (dev, Ok(()))
    } else if addr >= mem.len() {
        (dev, Err(Fault::UnmappedAddress { address: (addr % 0x1_0000_0000) as u32 }))
    } else {
        let (next, _out, fault) = dev.transferred(mem[addr]);
        match fault {
            Some(f) => (next, Err(f)),
            None => dma_written(next, mem, addr + 1, (size - 1) as nat),
        }
    }
}

/// Sends the `size` bytes of `memory` from `addr` on to the device.
pub fn dma_write<D: EXIDevice>(dev: &mut D, memory: &Vec<u8>, addr: u32, size: u32) -> (res: Result<(), Fault>)
    ensures
        (*final(dev), res) == dma_written(*old(dev), memory@, addr as int, size as nat),
{
    let mut at: u64 = addr as u64;
    let mut left: u32 = size;
    while left != 0
        invariant
            at + left == addr + size,
            dma_written(*old(dev), memory@, addr as int, size as nat) == dma_written(*dev, memory@, at as int, left as nat),
        decreases left,
    {
        if at >= memory.len() as u64 {
            return Err(Fault::UnmappedAddress { address: (at % 0x1_0000_0000) as u32 });
        }
        left -= 1;
        let mut byte: u8 = memory[at as usize];
        match dev.transfer_byte(&mut byte) {
            Err(f) => {
                return Err(f);
            },
            Ok(()) => {},
        }
        at += 1;
    }
    Ok(())
}

/// What a DMA read of `size` bytes to `addr` on makes of the device and of
/// the memory `mem`: the bytes that the device answers zero bytes with go
/// to consecutive addresses. The first byte that the device cannot give,
/// and one that would go outside `mem`, ends the transfer.
pub open spec fn dma_read_into<D: EXIDevice>(dev: D, mem: Seq<u8>, addr: int, size: nat) -> (D, Seq<u8>, Result<(), Fault>)
    decreases size,
{
    if size == 0 {
        (dev, mem, Ok(()))
    } else {
        let (next, out, fault) = dev.transferred(0);
        match fault {
            Some(f) => (next, mem, Err(f)),
            None => if addr >= mem.len() {
                (next, mem, Err(Fault::UnmappedAddress { address: (addr % 0x1_0000_0000) as u32 }))
            } else {
                dma_read_into(next, mem.update(addr, out), addr + 1, (size - 1) as nat)
            },
        }
    }
}

/// Receives `size` bytes from the device into `memory` from `addr` on.
pub fn dma_read<D: EXIDevice>(dev: &mut D, memory: &mut Vec<u8>, addr: u32, size: u32) -> (res: Result<(), Fault>)
    ensures
        (*final(dev), final(memory)@, res) == dma_read_into(*old(dev), old(memory)@, addr as int, size as nat),
{
    let mut at: u64 = addr as u64;
    let mut left: u32 = size;
    while left != 0
        invariant
            at + left == addr + size,
            dma_read_into(*old(dev), old(memory)@, addr as int, size as nat) == dma_read_into(*dev, memory@, at as int, left as nat),
        decreases left,
    {
        left -= 1;
        let mut byte: u8 = 0;
        match dev.transfer_byte(&mut byte) {
            Err(f) => {
                return Err(f);
            },
            Ok(()) => {},
        }
        if at >= memory.len() as u64 {
            return Err(Fault::UnmappedAddress { address: (at % 0x1_0000_0000) as u32 });
        }
        memory.set(at as usize, byte);
        at += 1;
    }
    Ok(())
}

/// One of the devices that a channel can hold.
pub enum Device {
    Null(NullDevice),
    Absent(NoDevice),
    Bootrom(Bootrom),
    AD16(AD16),
}

impl EXIDevice for Device {
    open spec fn transferred(self, byte: u8) -> (Self, u8, Option<Fault>) {
        match self {
            Device::Null(d) => (Device::Null(d.transferred(byte).0), d.transferred(byte).1, d.transferred(byte).2),
            Device::Absent(d) => (Device::Absent(d.transferred(byte).0), d.transferred(byte).1, d.transferred(byte).2),
            Device::Bootrom(d) => (Device::Bootrom(d.transferred(byte).0), d.transferred(byte).1, d.transferred(byte).2),
            Device::AD16(d) => (Device::AD16(d.transferred(byte).0), d.transferred(byte).1, d.transferred(byte).2),
        }
    }

    fn transfer_byte(&mut self, byte: &mut u8) -> (res: Result<(), Fault>) {
        match self {
            Device::Null(d) => d.transfer_byte(byte),
            Device::Absent(d) => d.transfer_byte(byte),
            Device::Bootrom(d) => d.transfer_byte(byte),
            Device::AD16(d) => d.transfer_byte(byte),
        }
    }

    open spec fn selected(self) -> Self {
        match self {
            Device::Null(d) => Device::Null(d.selected()),
            Device::Absent(d) => Device::Absent(d.selected()),
            Device::Bootrom(d) => Device::Bootrom(d.selected()),
            Device::AD16(d) => Device::AD16(d.selected()),
        }
    }

    fn select(&mut self) {
        match self {
            Device::Null(d) => d.select(),
            Device::Absent(d) => d.select(),
            Device::Bootrom(d) => d.select(),
            Device::AD16(d) => d.select(),
        }
    }
}

/// The parameter register of a channel.
#[derive(Clone, Copy, Debug, PartialEq, Eq, Structural)]
pub struct EXIChannelParams(pub u32);

impl EXIChannelParams {
    pub open spec fn spec_exi_int_mask(&self) -> bool {
        (self.0 & 1) != 0
    }

    /// Whether the device interrupt is enabled.
    #[verifier::when_used_as_spec(spec_exi_int_mask)]
    pub fn exi_int_mask(&self) -> (r: bool)
        ensures
            r == self.spec_exi_int_mask(),
    {
        (self.0 & 1) != 0
    }

    pub open spec fn spec_exi_int(&self) -> bool {
        ((self.0 >> 1) & 1) != 0
    }

    /// Whether the device interrupt is pending.
    #[verifier::when_used_as_spec(spec_exi_int)]
    pub fn exi_int(&self) -> (r: bool)
        ensures
            r == self.spec_exi_int(),
    {
        ((self.0 >> 1) & 1) != 0
    }

    pub open spec fn spec_clear_exi_int(self) -> Self {
        Self(self.0 & !(1u32 << 1))
    }

    /// Takes the pending device interrupt back.
    pub fn clear_exi_int(&mut self)
        ensures
            *final(self) == old(self).spec_clear_exi_int(),
    {
        self.0 = self.0 & !(1u32 << 1);
    }

    pub open spec fn spec_tc_int_mask(&self) -> bool {
        ((self.0 >> 2) & 1) != 0
    }

    /// Whether the transfer-complete interrupt is enabled.
    #[verifier::when_used_as_spec(spec_tc_int_mask)]
    pub fn tc_int_mask(&self) -> (r: bool)
        ensures
            r == self.spec_tc_int_mask(),
    {
        ((self.0 >> 2) & 1) != 0
    }

    pub open spec fn spec_tc_int(&self) -> bool {
        ((self.0 >> 3) & 1) != 0
    }

    /// Whether the transfer-complete interrupt is pending.
    #[verifier::when_used_as_spec(spec_tc_int)]
    pub fn tc_int(&self) -> (r: bool)
        ensures
            r == self.spec_tc_int(),
    {
        ((self.0 >> 3) & 1) != 0
    }

    pub open spec fn spec_clear_tc_int(self) -> Self {
        Self(self.0 & !(1u32 << 3))
    }

    /// Takes the pending transfer-complete interrupt back.
    pub fn clear_tc_int(&mut self)
        ensures
            *final(self) == old(self).spec_clear_tc_int(),
    {
        self.0 = self.0 & !(1u32 << 3);
    }

    pub open spec fn spec_clk(&self) -> usize {
        ((self.0 >> 4) & 0x7) as usize
    }

    /// The clock frequency selector.
    #[verifier::when_used_as_spec(spec_clk)]
    pub fn clk(&self) -> (r: usize)
        ensures
            r == self.spec_clk(),
            r <= 0x7,
    {
        proof {
            lemma_and_bound(self.0 >> 4, 0x7);
        }
        ((self.0 >> 4) & 0x7) as usize
    }

    pub open spec fn spec_cs(&self) -> usize {
        ((self.0 >> 7) & 0x7) as usize
    }

    /// The chip select lines, one bit for each device.
    #[verifier::when_used_as_spec(spec_cs)]
    pub fn cs(&self) -> (r: usize)
        ensures
            r == self.spec_cs(),
            r <= 0x7,
    {
        proof {
            lemma_and_bound(self.0 >> 7, 0x7);
        }
        ((self.0 >> 7) & 0x7) as usize
    }

    pub open spec fn spec_ext_int_mask(&self) -> bool {
        ((self.0 >> 10) & 1) != 0
    }

    /// Whether the attach interrupt is enabled.
    #[verifier::when_used_as_spec(spec_ext_int_mask)]
    pub fn ext_int_mask(&self) -> (r: bool)
        ensures
            r == self.spec_ext_int_mask(),
    {
        ((self.0 >> 10) & 1) != 0
    }

    pub open spec fn spec_ext_int(&self) -> bool {
        ((self.0 >> 11) & 1) != 0
    }

    /// Whether the attach interrupt is pending.
    #[verifier::when_used_as_spec(spec_ext_int)]
    pub fn ext_int(&self) -> (r: bool)
        ensures
            r == self.spec_ext_int(),
    {
        ((self.0 >> 11) & 1) != 0
    }

    pub open spec fn spec_clear_ext_int(self) -> Self {
        Self(self.0 & !(1u32 << 11))
    }

    /// Takes the pending attach interrupt back.
    pub fn clear_ext_int(&mut self)
        ensures
            *final(self) == old(self).spec_clear_ext_int(),
    {
        self.0 = self.0 & !(1u32 << 11);
    }

    pub open spec fn spec_ext(&self) -> bool {
        ((self.0 >> 12) & 1) != 0
    }

    /// Whether a device is attached.
    #[verifier::when_used_as_spec(spec_ext)]
    pub fn ext(&self) -> (r: bool)
        ensures
            r == self.spec_ext(),
    {
        ((self.0 >> 12) & 1) != 0
    }

    pub open spec fn spec_rom_dis(&self) -> bool {
        ((self.0 >> 13) & 1) != 0
    }

    /// Whether the boot ROM is switched off.
    #[verifier::when_used_as_spec(spec_rom_dis)]
    pub fn rom_dis(&self) -> (r: bool)
        ensures
            r == self.spec_rom_dis(),
    {
        ((self.0 >> 13) & 1) != 0
    }
}

/// The control register of a channel.
#[derive(Clone, Copy, Debug, PartialEq, Eq, Structural)]
pub struct EXIChannelControl(pub u32);

impl EXIChannelControl {
    pub open spec fn spec_t_start(&self) -> bool {
        (self.0 & 1) != 0
    }

    /// Whether a transfer is to start.
    #[verifier::when_used_as_spec(spec_t_start)]
    pub fn t_start(&self) -> (r: bool)
        ensures
            r == self.spec_t_start(),
    {
        (self.0 & 1) != 0
    }

    pub open spec fn spec_clear_t_start(self) -> Self {
        Self(self.0 & !(1u32 << 0))
    }

    /// Marks the transfer as done.
    pub fn clear_t_start(&mut self)
        ensures
            *final(self) == old(self).spec_clear_t_start(),
    {
        self.0 = self.0 & !(1u32 << 0);
    }

    pub open spec fn spec_dma(&self) -> bool {
        ((self.0 >> 1) & 1) != 0
    }

    /// Whether the transfer is a DMA transfer.
    #[verifier::when_used_as_spec(spec_dma)]
    pub fn dma(&self) -> (r: bool)
        ensures
            r == self.spec_dma(),
    {
        ((self.0 >> 1) & 1) != 0
    }

    pub open spec fn spec_rw(&self) -> usize {
        ((self.0 >> 2) & 0x3) as usize
    }

    /// The direction of the transfer: 0 to read, 1 to write.
    #[verifier::when_used_as_spec(spec_rw)]
    pub fn rw(&self) -> (r: usize)
        ensures
            r == self.spec_rw(),
            r <= 0x3,
    {
        proof {
            lemma_and_bound(self.0 >> 2, 0x3);
        }
        ((self.0 >> 2) & 0x3) as usize
    }

    pub open spec fn spec_t_len(&self) -> usize {
        ((self.0 >> 4) & 0x3) as usize
    }

    /// The length of an immediate transfer, less one.
    #[verifier::when_used_as_spec(spec_t_len)]
    pub fn t_len(&self) -> (r: usize)
        ensures
            r == self.spec_t_len(),
            r <= 0x3,
    {
        proof {
            lemma_and_bound(self.0 >> 4, 0x3);
        }
        ((self.0 >> 4) & 0x3) as usize
    }
}

/// One channel of the external interface: its registers and its three
/// devices.
pub struct EXIChannel {
    pub params: EXIChannelParams,
    pub dma_start: u32,
    pub dma_length: u32,
    pub control: EXIChannelControl,
    pub devices: [Device; 3],
    pub imm_data: u32,
}

/// The index of the device that the chip select lines `cs` select: the
/// device of the one line that is raised, and the first device otherwise.
pub open spec fn spec_chosen(cs: usize) -> usize {
    if cs == 0b010 {
        1
    } else if cs == 0b100 {
        2
    } else {
        0
    }
}

/// The index of the device that the chip select lines `cs` select.
#[verifier::when_used_as_spec(spec_chosen)]
pub fn chosen(cs: usize) -> (r: usize)
    ensures
        r == spec_chosen(cs),
        r < 3,
{
    if cs == 0b010 {
        1
    } else if cs == 0b100 {
        2
    } else {
        0
    }
}

/// The fault that reports the register at `offset` of a channel as one
/// that does not exist.
pub open spec fn register_fault(offset: u32) -> Fault {
    Fault::UnimplementedPeripheralRegister { address: EXI_BASE.wrapping_add(offset) }
}

impl EXIChannel {
    /// The channel at reset, over the three devices.
    pub fn new(devices: [Device; 3]) -> (r: Self)
        ensures
            r == (EXIChannel {
                params: EXIChannelParams(0),
                dma_start: 0,
                dma_length: 0,
                control: EXIChannelControl(0),
                devices,
                imm_data: 0,
            }),
    {
        Self { params: EXIChannelParams(0), dma_start: 0, dma_length: 0, control: EXIChannelControl(0), devices, imm_data: 0 }
    }

    /// Whether every register of the channel is zero.
    pub open spec fn registers_at_reset(self) -> bool {
        self.params == EXIChannelParams(0) && self.dma_start == 0 && self.dma_length == 0 && self.control == EXIChannelControl(0)
            && self.imm_data == 0
    }

    pub open spec fn spec_read(&self, reg: u32) -> Result<u32, Fault> {
        if reg == 0x0 {
            Ok(self.params.0)
        } else if reg == 0x4 {
            Ok(self.dma_start)
        } else if reg == 0x8 {
            Ok(self.dma_length)
        } else if reg == 0xC {
            Ok(self.control.0)
        } else if reg == 0x10 {
            Ok(self.imm_data)
        } else {
            Err(register_fault(reg))
        }
    }

    /// Reads the register at the offset `reg` of the channel. An offset
    /// that is no register is reported.
    #[verifier::when_used_as_spec(spec_read)]
    pub fn read(&self, reg: u32) -> (res: Result<u32, Fault>)
        ensures
            res == self.spec_read(reg),
    {
        if reg == 0x0 {
            Ok(self.params.0)
        } else if reg == 0x4 {
            Ok(self.dma_start)
        } else if reg == 0x8 {
            Ok(self.dma_length)
        } else if reg == 0xC {
            Ok(self.control.0)
        } else if reg == 0x10 {
            Ok(self.imm_data)
        } else {
            Err(Fault::UnimplementedPeripheralRegister { address: EXI_BASE.wrapping_add(reg) })
        }
    }

    /// The channel with the device at `index` replaced.
    pub open spec fn with_device(self, index: usize, device: Device) -> Self {
        EXIChannel { devices: spec_array_update(self.devices, index as int, device), ..self }
    }

    /// What the transfer that the control register asks for makes of the
    /// channel and of main memory: a DMA or an immediate transfer, a read or
    /// a write, with the chosen device. A direction other than read and
    /// write is reported.
    pub open spec fn transfer_done(self, mem: Seq<u8>) -> (Self, Seq<u8>, Result<(), Fault>) {
        let index: usize = spec_chosen(self.params.cs());
        let device = self.devices[index as int];
        let length: u32 = (self.control.t_len() + 1) as u32;
        if self.control.dma() {
            if self.control.rw() == 0 {
                let (d, m, r) = dma_read_into(device, mem, self.dma_start as int, self.dma_length as nat);
                (self.with_device(index, d), m, r)
            } else if self.control.rw() == 1 {
                let (d, r) = dma_written(device, mem, self.dma_start as int, self.dma_length as nat);
                (self.with_device(index, d), mem, r)
            } else {
                (self, mem, Err(register_fault(0xC)))
            }
        } else {
            if self.control.rw() == 0 {
                let (d, r) = imm_read_from(device, length as nat, 0, 0);
                match r {
                    Ok(word) => (EXIChannel { imm_data: word, ..self.with_device(index, d) }, mem, Ok(())),
                    Err(f) => (self.with_device(index, d), mem, Err(f)),
                }
            } else if self.control.rw() == 1 {
                let (d, r) = imm_written(device, self.imm_data, length as nat);
                (self.with_device(index, d), mem, r)
            } else {
                (self, mem, Err(register_fault(0xC)))
            }
        }
    }

    /// What a write of `val` to the register at the offset `reg` makes of
    /// the channel and of main memory. A write of the parameter register
    /// selects the chosen device. A write of the control register that
    /// sets the start bit makes the transfer, and clears the start bit
    /// where the transfer succeeds. An offset that is no register is
    /// reported.
    pub open spec fn spec_write(self, mem: Seq<u8>, reg: u32, val: u32) -> (Self, Seq<u8>, Result<(), Fault>) {
        if reg == 0x0 {
            let written = EXIChannel { params: EXIChannelParams(val), ..self };
            let index: usize = spec_chosen(written.params.cs());
            (written.with_device(index, written.devices[index as int].selected()), mem, Ok(()))
        } else if reg == 0x4 {
            (EXIChannel { dma_start: val, ..self }, mem, Ok(()))
        } else if reg == 0x8 {
            (EXIChannel { dma_length: val, ..self }, mem, Ok(()))
        } else if reg == 0xC {
            let written = EXIChannel { control: EXIChannelControl(val), ..self };
            if written.control.t_start() {
                let (done, m, r) = written.transfer_done(mem);
                if r is Ok {
                    (EXIChannel { control: done.control.spec_clear_t_start(), ..done }, m, r)
                } else {
                    (done, m, r)
                }
            } else {
                (EXIChannel { control: written.control.spec_clear_t_start(), ..written }, mem, Ok(()))
            }
        } else if reg == 0x10 {
            (EXIChannel { imm_data: val, ..self }, mem, Ok(()))
        } else {
            (self, mem, Err(register_fault(reg)))
        }
    }

    /// Makes the transfer that the control register asks for.
    fn transfer(&mut self, mem: &mut Vec<u8>) -> (res: Result<(), Fault>)
        ensures
            (*final(self), final(mem)@, res) == old(self).transfer_done(old(mem)@),
    {
        let index: usize = chosen(self.params.cs());
        let rw: usize = self.control.rw();
        if self.control.dma() {
            let dma_addr: u32 = self.dma_start;
            let dma_size: u32 = self.dma_length;
            if rw == 0 {
                let res: Result<(), Fault> = dma_read(&mut self.devices[index], mem, dma_addr, dma_size);
                assert(self.devices =~= old(self).transfer_done(old(mem)@).0.devices);
                res
            } else if rw == 1 {
                let res: Result<(), Fault> = dma_write(&mut self.devices[index], mem, dma_addr, dma_size);
                assert(self.devices =~= old(self).transfer_done(old(mem)@).0.devices);
                res
            } else {
                Err(Fault::UnimplementedPeripheralRegister { address: EXI_BASE.wrapping_add(0xC) })
            }
        } else {
            let length: u32 = (self.control.t_len() + 1) as u32;
            if rw == 0 {
                let res: Result<u32, Fault> = imm_read(&mut self.devices[index], length);
                assert(self.devices =~= old(self).transfer_done(old(mem)@).0.devices);
                match res {
                    Ok(word) => {
                        self.imm_data = word;
                        Ok(())
                    },
                    Err(f) => Err(f),
                }
            } else if rw == 1 {
                let data: u32 = self.imm_data;
                let res: Result<(), Fault> = imm_write(&mut self.devices[index], data, length);
                assert(self.devices =~= old(self).transfer_done(old(mem)@).0.devices);
                res
            } else {
                Err(Fault::UnimplementedPeripheralRegister { address: EXI_BASE.wrapping_add(0xC) })
            }
        }
    }

    /// Writes `val` to the register at the offset `reg` of the channel.
    pub fn write(&mut self, mem: &mut Vec<u8>, reg: u32, val: u32) -> (res: Result<(), Fault>)
        ensures
            (*final(self), final(mem)@, res) == old(self).spec_write(old(mem)@, reg, val),
    {
        if reg == 0x0 {
            self.params = EXIChannelParams(val);
            let index: usize = chosen(self.params.cs());
            self.devices[index].select();
            assert(self.devices =~= old(self).spec_write(old(mem)@, reg, val).0.devices);
            Ok(())
        } else if reg == 0x4 {
            self.dma_start = val;
            Ok(())
        } else if reg == 0x8 {
            self.dma_length = val;
            Ok(())
        } else if reg == 0xC {
            self.control = EXIChannelControl(val);
            if self.control.t_start() {
                self.transfer(mem)?;
            }
            self.control.clear_t_start();
            Ok(())
        } else if reg == 0x10 {
            self.imm_data = val;
            Ok(())
        } else {
            Err(Fault::UnimplementedPeripheralRegister { address: EXI_BASE.wrapping_add(reg) })
        }
    }
}

/// The external interface: three channels.
pub struct ExternalInterface {
    pub channel0: EXIChannel,
    pub channel1: EXIChannel,
    pub channel2: EXIChannel,
}

impl ExternalInterface {
    /// The battery-backed memory, which the boot ROM device holds.
    pub open spec fn sram(self) -> Sram {
        match self.channel0.devices[1] {
            Device::Bootrom(b) => b.sram,
            _ => arbitrary(),
        }
    }

    /// Whether the interface is as a reset leaves it, over the boot ROM
    /// image `rom` and the battery-backed memory `sram`: every channel
    /// register is zero; the boot ROM, with the memory and with no command
    /// received, is the second device of channel 0, an empty slot its third, and the AD16
    /// the first device of channel 2; nothing is wired to any other chip
    /// select line.
    pub open spec fn at_reset(self, rom: Seq<u8>, sram: Sram) -> bool {
        &&& self.channel0.registers_at_reset() && self.channel1.registers_at_reset() && self.channel2.registers_at_reset()
        &&& self.channel0.devices[0] is Null
        &&& self.channel0.devices[1] matches Device::Bootrom(b) && b.rom@ == rom && b.sram == sram && b.command_bytes_received == 0
            && b.command == 0 && b.cursor == 0
        &&& self.channel0.devices[2] is Absent
        &&& self.channel1.devices[0] is Null && self.channel1.devices[1] is Null && self.channel1.devices[2] is Null
        &&& self.channel2.devices[0] == Device::AD16(AD16 { reg: 0, position: 0, command: 0 })
        &&& self.channel2.devices[1] is Null && self.channel2.devices[2] is Null
    }

    /// The interface at reset, over the boot ROM image `bootrom` and the
    /// battery-backed memory `sram`.
    pub fn new(bootrom: Vec<u8>, sram: Sram) -> (r: Self)
        ensures
            r.at_reset(bootrom@, sram),
    {
        Self {
            channel0: EXIChannel::new([Device::Null(NullDevice), Device::Bootrom(Bootrom::new(bootrom, sram)), Device::Absent(NoDevice)]),
            channel1: EXIChannel::new([Device::Null(NullDevice), Device::Null(NullDevice), Device::Null(NullDevice)]),
            channel2: EXIChannel::new([Device::AD16(AD16::new()), Device::Null(NullDevice), Device::Null(NullDevice)]),
        }
    }
}

/// What a 32-bit write of `val` at `offset` leaves of the machine `pre`:
/// what the channel that owns the offset makes of the write, in the
/// interface and in main memory. An offset beyond the three channels is
/// reported and changes nothing.
pub open spec fn exi_write_u32_post(pre: Gamecube, post: Gamecube, offset: u32, val: u32, res: Result<(), Fault>) -> bool {
    let channel: u32 = offset / CHANNEL_SPAN;
    let reg: u32 = offset % CHANNEL_SPAN;
    if channel > 2 {
        post == pre && res == Err::<(), Fault>(register_fault(offset))
    } else {
        let before = if channel == 0 { pre.exi.channel0 } else if channel == 1 { pre.exi.channel1 } else { pre.exi.channel2 };
        let (after, mem, r) = before.spec_write(pre.memory@, reg, val);
        &&& res == r
        &&& post.memory@ == mem
        &&& post == (Gamecube {
            exi: if channel == 0 {
                ExternalInterface { channel0: after, ..pre.exi }
            } else if channel == 1 {
                ExternalInterface { channel1: after, ..pre.exi }
            } else {
                ExternalInterface { channel2: after, ..pre.exi }
            },
            memory: post.memory,
            ..pre
        })
    }
}

/// A 32-bit write to the external interface.
pub fn exi_write_u32(gc: &mut Gamecube, offset: u32, val: u32) -> (res: Result<(), Fault>)
    ensures
        exi_write_u32_post(*old(gc), *final(gc), offset, val, res),
        final(gc).cpu == old(gc).cpu,
{
    let channel: u32 = offset / CHANNEL_SPAN;
    let reg: u32 = offset % CHANNEL_SPAN;
    if channel == 0 {
        gc.exi.channel0.write(&mut gc.memory, reg, val)
    } else if channel == 1 {
        gc.exi.channel1.write(&mut gc.memory, reg, val)
    } else if channel == 2 {
        gc.exi.channel2.write(&mut gc.memory, reg, val)
    } else {
        Err(Fault::UnimplementedPeripheralRegister { address: EXI_BASE.wrapping_add(offset) })
    }
}

pub open spec fn spec_exi_read_u32(gc: &Gamecube, offset: u32) -> Result<u32, Fault> {
    let channel: u32 = offset / CHANNEL_SPAN;
    let reg: u32 = offset % CHANNEL_SPAN;
    if channel == 0 {
        gc.exi.channel0.read(reg)
    } else if channel == 1 {
        gc.exi.channel1.read(reg)
    } else if channel == 2 {
        gc.exi.channel2.read(reg)
    } else {
        Err(register_fault(offset))
    }
}

/// A 32-bit read from the external interface: a register of the channel
/// that owns the offset. An offset beyond the three channels is reported.
#[verifier::when_used_as_spec(spec_exi_read_u32)]
pub fn exi_read_u32(gc: &Gamecube, offset: u32) -> (res: Result<u32, Fault>)
    ensures
        res == spec_exi_read_u32(gc, offset),
{
    let channel: u32 = offset / CHANNEL_SPAN;
    let reg: u32 = offset % CHANNEL_SPAN;
    if channel == 0 {
        gc.exi.channel0.read(reg)
    } else if channel == 1 {
        gc.exi.channel1.read(reg)
    } else if channel == 2 {
        gc.exi.channel2.read(reg)
    } else {
        Err(Fault::UnimplementedPeripheralRegister { address: EXI_BASE.wrapping_add(offset) })
    }
}

} // verus!

use vstd::prelude::*;
use crate::dsp::client::DSPClient;
use crate::dsp::DSPControlRegister;
use crate::fault::Fault;
use crate::Gamecube;

verus! {

/// The physical address of the first DSP interface register.
pub const DSP_BASE: u32 = 0x0C00_5000;

/// The first effective address that a DSP reset copies into audio RAM.
pub const BOOT_SOURCE: u32 = 0x8100_0000;

/// The number of bytes that a DSP reset copies into audio RAM.
pub const BOOT_LENGTH: usize = 0x2000;

/// The CPU's side of the DSP: the audio RAM size and refresh registers and
/// the registers of the audio RAM DMA.
pub struct DSPInterface {
    pub ar_size: u16,
    pub ar_refresh: u16,
    pub ar_dma_mmaddr: u32,
    pub ar_dma_araddr: u32,
    pub ar_dma_cnt: u32,
}

impl DSPInterface {
    /// The interface at reset.
    pub fn new() -> (r: Self)
        ensures
            r.ar_size == 0 && r.ar_refresh == 0 && r.ar_dma_mmaddr == 0 && r.ar_dma_araddr == 0 && r.ar_dma_cnt == 0,
    {
        Self { ar_size: 0, ar_refresh: 0, ar_dma_mmaddr: 0, ar_dma_araddr: 0, ar_dma_cnt: 0 }
    }
}

pub open spec fn spec_dsp_read_u16(gc: &Gamecube, offset: u32) -> Result<u16, Fault> {
    if offset == 0x04 {
        Ok(gc.dsp_client.cpu_mbox_h)
    } else if offset == 0x06 {
        Ok(gc.dsp_client.cpu_mbox_l)
    } else if offset == 0x0A {
        Ok(gc.dsp_client.control_reg.0)
    } else {
        Err(Fault::UnimplementedPeripheralRegister { address: DSP_BASE.wrapping_add(offset) })
    }
}

/// A 16-bit read from the DSP interface: the two halves of the CPU mailbox
/// at offsets `0x04` and `0x06`, the control register at offset `0x0A`. Any
/// other offset is reported.
#[verifier::when_used_as_spec(spec_dsp_read_u16)]
pub fn dsp_read_u16(gc: &Gamecube, offset: u32) -> (res: Result<u16, Fault>)
    ensures
        res == spec_dsp_read_u16(gc, offset),
{
    if offset == 0x04 {
        Ok(gc.dsp_client.cpu_mbox_h)
    } else if offset == 0x06 {
        Ok(gc.dsp_client.cpu_mbox_l)
    } else if offset == 0x0A {
        Ok(gc.dsp_client.control_reg.0)
    } else {
        Err(Fault::UnimplementedPeripheralRegister { address: DSP_BASE.wrapping_add(offset) })
    }
}

/// The index of the first of the bytes from `from` up to `BOOT_LENGTH` of
/// the boot image that cannot be read; `BOOT_LENGTH` where all can.
pub open spec fn boot_stop(gc: &Gamecube, from: int) -> int
    decreases BOOT_LENGTH - from,
{
    if from >= BOOT_LENGTH {
        BOOT_LENGTH as int
    } else if gc.read_u8(BOOT_SOURCE.wrapping_add(from as u32)) is Err {
        from
    } else {
        boot_stop(gc, from + 1)
    }
}

/// What a 16-bit write of `val` at `offset` leaves of the machine `pre`.
///
/// The two halves of the DSP mailbox are at offsets `0x00` and `0x02`, the
/// audio RAM size at `0x12` and its refresh at `0x1A`. A write of the
/// control register, at `0x0A`, that sets the reset bit also copies the
/// boot image, the `BOOT_LENGTH` bytes from effective address `BOOT_SOURCE`
/// on, to the start of audio RAM; a byte that cannot be read ends the copy
/// with its fault, and the bytes before it stay copied. Any other offset is
/// reported and changes nothing.
pub open spec fn dsp_write_u16_post(pre: Gamecube, post: Gamecube, offset: u32, val: u16, res: Result<(), Fault>) -> bool {
    if offset == 0x00 {
        res is Ok && post == (Gamecube { dsp_client: DSPClient { dsp_mbox_h: val, ..pre.dsp_client }, ..pre })
    } else if offset == 0x02 {
        res is Ok && post == (Gamecube { dsp_client: DSPClient { dsp_mbox_l: val, ..pre.dsp_client }, ..pre })
    } else if offset == 0x12 {
        res is Ok && post == (Gamecube { dsp: DSPInterface { ar_size: val, ..pre.dsp }, ..pre })
    } else if offset == 0x1A {
        res is Ok && post == (Gamecube { dsp: DSPInterface { ar_refresh: val, ..pre.dsp }, ..pre })
    } else if offset == 0x0A {
        let written = Gamecube { dsp_client: DSPClient { control_reg: DSPControlRegister(val), ..pre.dsp_client }, ..pre };
        if !DSPControlRegister(val).reset() {
            res is Ok && post == written
        } else if pre.aram@.len() < BOOT_LENGTH {
            res == Err::<(), Fault>(Fault::UnmappedAddress { address: BOOT_SOURCE }) && post == written
        } else {
            let stop = boot_stop(&pre, 0);
            &&& post == (Gamecube { aram: post.aram, ..written })
            &&& post.aram@.len() == pre.aram@.len()
            &&& forall|i: int| 0 <= i < stop ==> #[trigger] post.aram@[i] == pre.read_u8(BOOT_SOURCE.wrapping_add(i as u32)).unwrap()
            &&& forall|i: int| stop <= i < pre.aram@.len() ==> #[trigger] post.aram@[i] == pre.aram@[i]
            &&& res == (if stop < BOOT_LENGTH {
                Err::<(), Fault>(pre.read_u8(BOOT_SOURCE.wrapping_add(stop as u32)).unwrap_err())
            } else {
                Ok::<(), Fault>(())
            })
        }
    } else {
        res == Err::<(), Fault>(Fault::UnimplementedPeripheralRegister { address: DSP_BASE.wrapping_add(offset) }) && post == pre
    }
}

/// A 16-bit write to the DSP interface.
pub fn dsp_write_u16(gc: &mut Gamecube, offset: u32, val: u16) -> (res: Result<(), Fault>)
    ensures
        dsp_write_u16_post(*old(gc), *final(gc), offset, val, res),
{
    if offset == 0x00 {
        gc.dsp_client.dsp_mbox_h = val;
        Ok(())
    } else if offset == 0x02 {
        gc.dsp_client.dsp_mbox_l = val;
        Ok(())
    } else if offset == 0x12 {
        gc.dsp.ar_size = val;
        Ok(())
    } else if offset == 0x1A {
        gc.dsp.ar_refresh = val;
        Ok(())
    } else if offset == 0x0A {
        gc.dsp_client.control_reg = DSPControlRegister(val);
        if !gc.dsp_client.control_reg.reset() {
            return Ok(());
        }
        if gc.aram.len() < BOOT_LENGTH {
            return Err(Fault::UnmappedAddress { address: BOOT_SOURCE });
        }
        let ghost written = *gc;
        let mut i: usize = 0;
        while i < BOOT_LENGTH
            invariant
                i <= BOOT_LENGTH,
                offset == 0x0A,
                DSPControlRegister(val).reset(),
                written == (Gamecube { dsp_client: DSPClient { control_reg: DSPControlRegister(val), ..old(gc).dsp_client }, ..*old(gc) }),
                *gc == (Gamecube { aram: gc.aram, ..written }),
                gc.aram@.len() == old(gc).aram@.len(),
                old(gc).aram@.len() >= BOOT_LENGTH,
                boot_stop(&*old(gc), 0) == boot_stop(&*old(gc), i as int),
                forall|j: int| 0 <= j < i ==> #[trigger] gc.aram@[j] == old(gc).read_u8(BOOT_SOURCE.wrapping_add(j as u32)).unwrap(),
                forall|j: int| i <= j < old(gc).aram@.len() ==> #[trigger] gc.aram@[j] == old(gc).aram@[j],
            decreases BOOT_LENGTH - i,
        {
            assert(gc.spec_read_u8(BOOT_SOURCE.wrapping_add(i as u32)) == old(gc).spec_read_u8(BOOT_SOURCE.wrapping_add(i as u32)));
            let byte: u8 = match gc.read_u8(BOOT_SOURCE.wrapping_add(i as u32)) {
                Ok(b) => b,
                Err(f) => {
                    assert(boot_stop(&*old(gc), i as int) == i);
                    return Err(f);
                },
            };
            assert(boot_stop(&*old(gc), i as int) == boot_stop(&*old(gc), i + 1));
            gc.aram.set(i, byte);
            i += 1;
        }
        Ok(())
    } else {
        Err(Fault::UnimplementedPeripheralRegister { address: DSP_BASE.wrapping_add(offset) })
    }
}

/// The number of bytes that an audio RAM DMA with the count register `cnt`
/// moves: twice the low 31 bits.
pub open spec fn dma_length(cnt: u32) -> int {
    (cnt & 0x7FFF_FFFF) * 2
}

/// What a 32-bit write of `val` at `offset` leaves of the machine `pre`.
///
/// The main memory address of the audio RAM DMA is at offset `0x20`, its
/// audio RAM address at `0x24`. A write of its count register, at `0x28`,
/// starts the transfer: with the top bit of `val` set from audio RAM to
/// main memory, otherwise from main memory to audio RAM. A transfer that
/// would leave either memory is reported, and moves nothing. Any other
/// offset is reported and changes nothing.
pub open spec fn dsp_write_u32_post(pre: Gamecube, post: Gamecube, offset: u32, val: u32, res: Result<(), Fault>) -> bool {
    if offset == 0x20 {
        res is Ok && post == (Gamecube { dsp: DSPInterface { ar_dma_mmaddr: val, ..pre.dsp }, ..pre })
    } else if offset == 0x24 {
        res is Ok && post == (Gamecube { dsp: DSPInterface { ar_dma_araddr: val, ..pre.dsp }, ..pre })
    } else if offset == 0x28 {
        let written = Gamecube { dsp: DSPInterface { ar_dma_cnt: val, ..pre.dsp }, ..pre };
        let length = dma_length(val);
        let mm = pre.dsp.ar_dma_mmaddr as int;
        let ar = pre.dsp.ar_dma_araddr as int;
        if mm + length > pre.memory@.len() {
            res == Err::<(), Fault>(Fault::UnmappedAddress { address: pre.dsp.ar_dma_mmaddr }) && post == written
        } else if ar + length > pre.aram@.len() {
            res == Err::<(), Fault>(Fault::UnmappedAddress { address: pre.dsp.ar_dma_araddr }) && post == written
        } else if (val >> 31) & 1 != 0 {
            &&& res is Ok
            &&& post == (Gamecube { memory: post.memory, ..written })
            &&& post.memory@ == crate::endian::overlaid(pre.memory@, mm, pre.aram@.subrange(ar, ar + length))
        } else {
            &&& res is Ok
            &&& post == (Gamecube { aram: post.aram, ..written })
            &&& post.aram@ == crate::endian::overlaid(pre.aram@, ar, pre.memory@.subrange(mm, mm + length))
        }
    } else {
        res == Err::<(), Fault>(Fault::UnimplementedPeripheralRegister { address: DSP_BASE.wrapping_add(offset) }) && post == pre
    }
}

/// A 32-bit write to the DSP interface.
pub fn dsp_write_u32(gc: &mut Gamecube, offset: u32, val: u32) -> (res: Result<(), Fault>)
    ensures
        dsp_write_u32_post(*old(gc), *final(gc), offset, val, res),
{
    if offset == 0x20 {
        gc.dsp.ar_dma_mmaddr = val;
        Ok(())
    } else if offset == 0x24 {
        gc.dsp.ar_dma_araddr = val;
        Ok(())
    } else if offset == 0x28 {
        gc.dsp.ar_dma_cnt = val;
        proof {
            crate::cpu::instr::lemma_and_bound(val, 0x7FFF_FFFF);
        }
        let to_memory: bool = ((val >> 31) & 1) != 0;
        let length: usize = ((val & 0x7FFF_FFFF) as u64 * 2) as usize;
        let mm: usize = gc.dsp.ar_dma_mmaddr as usize;
        let ar: usize = gc.dsp.ar_dma_araddr as usize;
        if mm as u64 + length as u64 > gc.memory.len() as u64 {
            return Err(Fault::UnmappedAddress { address: gc.dsp.ar_dma_mmaddr });
        }
        if ar as u64 + length as u64 > gc.aram.len() as u64 {
            return Err(Fault::UnmappedAddress { address: gc.dsp.ar_dma_araddr });
        }
        let ghost written = *gc;
        let mut i: usize = 0;
        if to_memory {
            while i < length
                invariant
                    i <= length,
                    mm + length <= usize::MAX,
                    ar + length <= usize::MAX,
                    mm + length <= old(gc).memory@.len(),
                    ar + length <= old(gc).aram@.len(),
                    *gc == (Gamecube { memory: gc.memory, ..written }),
                    written.aram == old(gc).aram,
                    gc.memory@.len() == old(gc).memory@.len(),
                    forall|j: int| 0 <= j < gc.memory@.len() ==> #[trigger] gc.memory@[j] == (if mm <= j < mm + i { old(gc).aram@[ar + j - mm] } else { old(gc).memory@[j] }),
                decreases length - i,
            {
                let byte: u8 = gc.aram[ar + i];
                gc.memory.set(mm + i, byte);
                i += 1;
            }
            assert(gc.memory@ =~= crate::endian::overlaid(old(gc).memory@, mm as int, old(gc).aram@.subrange(ar as int, ar + length)));
        } else {
            while i < length
                invariant
                    i <= length,
                    mm + length <= usize::MAX,
                    ar + length <= usize::MAX,
                    mm + length <= old(gc).memory@.len(),
                    ar + length <= old(gc).aram@.len(),
                    *gc == (Gamecube { aram: gc.aram, ..written }),
                    written.memory == old(gc).memory,
                    gc.aram@.len() == old(gc).aram@.len(),
                    forall|j: int| 0 <= j < gc.aram@.len() ==> #[trigger] gc.aram@[j] == (if ar <= j < ar + i { old(gc).memory@[mm + j - ar] } else { old(gc).aram@[j] }),
                decreases length - i,
            {
                let byte: u8 = gc.memory[mm + i];
                gc.aram.set(ar + i, byte);
                i += 1;
            }
            assert(gc.aram@ =~= crate::endian::overlaid(old(gc).aram@, ar as int, old(gc).memory@.subrange(mm as int, mm + length)));
        }
        Ok(())
    } else {
        Err(Fault::UnimplementedPeripheralRegister { address: DSP_BASE.wrapping_add(offset) })
    }
}

} // verus!

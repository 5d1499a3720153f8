use vstd::prelude::*;
use vstd::array::spec_array_update;
use crate::cpu::instr::Instruction;
use crate::cpu::util::fault_when;
use crate::cpu::{write_hid0, write_msr, Cpu, FloatingPointRegister, FloatingPointStatusControlRegister, GraphicsQuantizationRegister, MachineStateRegister, HID2};
use crate::fault::Fault;
use crate::Gamecube;

verus! {

/// The number of the link register.
pub const SPR_LR: usize = 0b00000_01000;

/// The number of the count register.
pub const SPR_CTR: usize = 0b00000_01001;

/// The number of the first instruction translation register. The eight of
/// them follow each other: the upper and the lower register of entry 0, of
/// entry 1, and so on.
pub const SPR_IBAT0U: usize = 0b10000_10000;

/// The number of the first data translation register, laid out as the
/// instruction translation registers are.
pub const SPR_DBAT0U: usize = 0b10000_11000;

/// The number of the first of the eight graphics quantization registers.
pub const SPR_GQR0: usize = 0b11100_10000;

/// The number of hardware implementation register 2.
pub const SPR_HID2: usize = 0b11100_11000;

/// The number of the write pipe address register.
pub const SPR_WPAR: usize = 0b11100_11001;

/// The number of monitor mode control register 0.
pub const SPR_MMCR0: usize = 0b11101_11000;

/// The number of performance monitor counter 1.
pub const SPR_PMC1: usize = 0b11101_11001;

/// The number of performance monitor counter 2.
pub const SPR_PMC2: usize = 0b11101_11010;

/// The number of monitor mode control register 1.
pub const SPR_MMCR1: usize = 0b11101_11100;

/// The number of performance monitor counter 3.
pub const SPR_PMC3: usize = 0b11101_11101;

/// The number of performance monitor counter 4.
pub const SPR_PMC4: usize = 0b11101_11110;

/// The number of the L2 cache control register.
pub const SPR_L2CR: usize = 0b11111_11001;

/// The number of hardware implementation register 0.
pub const SPR_HID0: usize = 0b11111_10000;

/// The number of the lower time base register.
pub const TBR_TBL: usize = 268;

/// The number of the upper time base register.
pub const TBR_TBU: usize = 269;

/// The index of the performance monitor counter with the number `spr`.
pub open spec fn pmc_index(spr: usize) -> Option<usize> {
    if spr == SPR_PMC1 {
        Some(0usize)
    } else if spr == SPR_PMC2 {
        Some(1usize)
    } else if spr == SPR_PMC3 {
        Some(2usize)
    } else if spr == SPR_PMC4 {
        Some(3usize)
    } else {
        None
    }
}

/// Whether a move to the special-purpose register `spr` is modelled.
pub open spec fn writable_spr(spr: usize) -> bool {
    spr == SPR_LR || spr == SPR_CTR || (SPR_IBAT0U <= spr < SPR_IBAT0U + 8) || (SPR_DBAT0U <= spr < SPR_DBAT0U + 8) || (SPR_GQR0
        <= spr < SPR_GQR0 + 8) || spr == SPR_HID2 || spr == SPR_WPAR || spr == SPR_MMCR0 || spr == SPR_MMCR1
        || pmc_index(spr) is Some || spr == SPR_L2CR || spr == SPR_HID0
}

/// `mtspr`: `rS` goes to the special-purpose register that the instruction
/// names. A register that is not modelled leaves the CPU as it is.
pub open spec fn spec_mtspr(cpu: Cpu, i: Instruction) -> Cpu {
    let val: u32 = cpu.gpr(i.s());
    let spr: usize = i.spr();
    if spr == SPR_LR {
        Cpu { lr: val, ..cpu }
    } else if spr == SPR_CTR {
        Cpu { ctr: val, ..cpu }
    } else if SPR_IBAT0U <= spr < SPR_IBAT0U + 8 {
        let entry: usize = ((spr - SPR_IBAT0U) / 2) as usize;
        if (spr - SPR_IBAT0U) % 2 == 0 {
            Cpu { mmu: cpu.mmu.spec_write_ibatu(entry, val), ..cpu }
        } else {
            Cpu { mmu: cpu.mmu.spec_write_ibatl(entry, val), ..cpu }
        }
    } else if SPR_DBAT0U <= spr < SPR_DBAT0U + 8 {
        let entry: usize = ((spr - SPR_DBAT0U) / 2) as usize;
        if (spr - SPR_DBAT0U) % 2 == 0 {
            Cpu { mmu: cpu.mmu.spec_write_dbatu(entry, val), ..cpu }
        } else {
            Cpu { mmu: cpu.mmu.spec_write_dbatl(entry, val), ..cpu }
        }
    } else if SPR_GQR0 <= spr < SPR_GQR0 + 8 {
        Cpu { gqrs: spec_array_update(cpu.gqrs, spr - SPR_GQR0, GraphicsQuantizationRegister(val)), ..cpu }
    } else if spr == SPR_HID2 {
        Cpu { hid2: HID2(val), ..cpu }
    } else if spr == SPR_WPAR {
        Cpu { wpar: val, ..cpu }
    } else if spr == SPR_MMCR0 {
        Cpu { mmcr0: val, ..cpu }
    } else if spr == SPR_MMCR1 {
        Cpu { mmcr1: val, ..cpu }
    } else if pmc_index(spr) is Some {
        Cpu { pmcs: spec_array_update(cpu.pmcs, pmc_index(spr).unwrap() as int, val), ..cpu }
    } else if spr == SPR_L2CR {
        Cpu { l2cr: val, ..cpu }
    } else if spr == SPR_HID0 {
        Cpu { hid0: val, ..cpu }
    } else {
        cpu
    }
}

/// The fault that reports a special-purpose register that is not modelled.
pub open spec fn spr_fault(i: Instruction) -> Fault {
    Fault::UnimplementedSpr { spr: i.spr(), instruction: i.0 }
}

/// Executes `mtspr`. A register that is not modelled is reported, and
/// nothing is written.
pub fn mtspr(gc: &mut Gamecube, instr: &Instruction) -> (res: Result<(), Fault>)
    ensures
        *final(gc) == (Gamecube { cpu: spec_mtspr(old(gc).cpu, *instr), ..*old(gc) }),
        res == fault_when(!writable_spr(instr.spr()), spr_fault(*instr)),
{
    let val: u32 = gc.cpu.gprs[instr.s()];
    let spr: usize = instr.spr();
    if spr == SPR_LR {
        gc.cpu.lr = val;
    } else if spr == SPR_CTR {
        gc.cpu.ctr = val;
    } else if SPR_IBAT0U <= spr && spr < SPR_IBAT0U + 8 {
        let entry: usize = (spr - SPR_IBAT0U) / 2;
        if (spr - SPR_IBAT0U) % 2 == 0 {
            gc.cpu.mmu.write_ibatu(entry, val);
        } else {
            gc.cpu.mmu.write_ibatl(entry, val);
        }
    } else if SPR_DBAT0U <= spr && spr < SPR_DBAT0U + 8 {
        let entry: usize = (spr - SPR_DBAT0U) / 2;
        if (spr - SPR_DBAT0U) % 2 == 0 {
            gc.cpu.mmu.write_dbatu(entry, val);
        } else {
            gc.cpu.mmu.write_dbatl(entry, val);
        }
    } else if SPR_GQR0 <= spr && spr < SPR_GQR0 + 8 {
        gc.cpu.gqrs[spr - SPR_GQR0] = GraphicsQuantizationRegister(val);
        assert(gc.cpu.gqrs =~= spec_mtspr(old(gc).cpu, *instr).gqrs);
    } else if spr == SPR_HID2 {
        gc.cpu.hid2 = HID2(val);
    } else if spr == SPR_WPAR {
        gc.cpu.wpar = val;
    } else if spr == SPR_MMCR0 {
        gc.cpu.mmcr0 = val;
    } else if spr == SPR_MMCR1 {
        gc.cpu.mmcr1 = val;
    } else if spr == SPR_PMC1 || spr == SPR_PMC2 || spr == SPR_PMC3 || spr == SPR_PMC4 {
        let index: usize = if spr == SPR_PMC1 { 0 } else if spr == SPR_PMC2 { 1 } else if spr == SPR_PMC3 { 2 } else { 3 };
        gc.cpu.pmcs[index] = val;
        assert(gc.cpu.pmcs =~= spec_mtspr(old(gc).cpu, *instr).pmcs);
    } else if spr == SPR_L2CR {
        gc.cpu.l2cr = val;
    } else if spr == SPR_HID0 {
        write_hid0(gc, val);
    } else {
        return Err(Fault::UnimplementedSpr { spr, instruction: instr.0 });
    }
    Ok(())
}

/// `mtsr`: `rS` goes to the segment register that the instruction names.
pub open spec fn spec_mtsr(cpu: Cpu, i: Instruction) -> Cpu {
    Cpu { mmu: crate::cpu::mmu::Mmu { srs: spec_array_update(cpu.mmu.srs, i.sr() as int, cpu.gpr(i.s())), ..cpu.mmu }, ..cpu }
}

/// Executes `mtsr`.
pub fn mtsr(gc: &mut Gamecube, instr: &Instruction)
    ensures
        *final(gc) == (Gamecube { cpu: spec_mtsr(old(gc).cpu, *instr), ..*old(gc) }),
{
    let val: u32 = gc.cpu.gprs[instr.s()];
    gc.cpu.mmu.srs[instr.sr()] = val;
    assert(gc.cpu.mmu.srs =~= spec_mtsr(old(gc).cpu, *instr).mmu.srs);
}

/// The value of the special-purpose register `spr`, where a move from it
/// is modelled.
pub open spec fn readable_spr(cpu: Cpu, spr: usize) -> Option<u32> {
    if spr == SPR_LR {
        Some(cpu.lr)
    } else if SPR_GQR0 <= spr < SPR_GQR0 + 8 {
        Some(cpu.gqrs[spr - SPR_GQR0].0)
    } else if spr == SPR_HID2 {
        Some(cpu.hid2.0)
    } else if spr == SPR_WPAR {
        Some(cpu.wpar)
    } else if spr == SPR_MMCR0 {
        Some(cpu.mmcr0)
    } else if spr == SPR_MMCR1 {
        Some(cpu.mmcr1)
    } else if pmc_index(spr) is Some {
        Some(cpu.pmcs[pmc_index(spr).unwrap() as int])
    } else if spr == SPR_L2CR {
        Some(cpu.l2cr)
    } else if spr == SPR_HID0 {
        Some(cpu.hid0)
    } else {
        None
    }
}

/// `mfspr`: the special-purpose register that the instruction names goes to
/// `rD`. A register that is not modelled leaves the CPU as it is.
pub open spec fn spec_mfspr(cpu: Cpu, i: Instruction) -> Cpu {
    match readable_spr(cpu, i.spr()) {
        Some(val) => cpu.with_gpr(i.d(), val),
        None => cpu,
    }
}

/// Executes `mfspr`. A register that is not modelled is reported, and
/// nothing is written.
pub fn mfspr(gc: &mut Gamecube, instr: &Instruction) -> (res: Result<(), Fault>)
    ensures
        *final(gc) == (Gamecube { cpu: spec_mfspr(old(gc).cpu, *instr), ..*old(gc) }),
        res == fault_when(readable_spr(old(gc).cpu, instr.spr()) is None, spr_fault(*instr)),
{
    let spr: usize = instr.spr();
    let val: u32 = if spr == SPR_LR {
        gc.cpu.lr
    } else if SPR_GQR0 <= spr && spr < SPR_GQR0 + 8 {
        gc.cpu.gqrs[spr - SPR_GQR0].0
    } else if spr == SPR_HID2 {
        gc.cpu.hid2.0
    } else if spr == SPR_WPAR {
        gc.cpu.wpar
    } else if spr == SPR_MMCR0 {
        gc.cpu.mmcr0
    } else if spr == SPR_MMCR1 {
        gc.cpu.mmcr1
    } else if spr == SPR_PMC1 {
        gc.cpu.pmcs[0]
    } else if spr == SPR_PMC2 {
        gc.cpu.pmcs[1]
    } else if spr == SPR_PMC3 {
        gc.cpu.pmcs[2]
    } else if spr == SPR_PMC4 {
        gc.cpu.pmcs[3]
    } else if spr == SPR_L2CR {
        gc.cpu.l2cr
    } else if spr == SPR_HID0 {
        gc.cpu.hid0
    } else {
        return Err(Fault::UnimplementedSpr { spr, instruction: instr.0 });
    };
    gc.cpu.set_gpr(instr.d(), val);
    Ok(())
}

/// The half of the time base with the number `tbr`.
pub open spec fn time_base_half(tb: u64, tbr: usize) -> Option<u32> {
    if tbr == TBR_TBL {
        Some((tb & 0xFFFF_FFFF) as u32)
    } else if tbr == TBR_TBU {
        Some(((tb >> 32) & 0xFFFF_FFFF) as u32)
    } else {
        None
    }
}

/// `mftb`: the low or the high half of the time base goes to `rD`.
pub open spec fn spec_mftb(cpu: Cpu, i: Instruction) -> Cpu {
    match time_base_half(cpu.tb, i.tbr()) {
        Some(val) => cpu.with_gpr(i.d(), val),
        None => cpu,
    }
}

/// Executes `mftb`. A time base register number other than the two that
/// exist is reported, and nothing is written.
pub fn mftb(gc: &mut Gamecube, instr: &Instruction) -> (res: Result<(), Fault>)
    ensures
        *final(gc) == (Gamecube { cpu: spec_mftb(old(gc).cpu, *instr), ..*old(gc) }),
        res == fault_when(time_base_half(old(gc).cpu.tb, instr.tbr()) is None, Fault::UnimplementedSpr { spr: instr.tbr(), instruction: instr.0 }),
{
    let reg: usize = instr.tbr();
    let val: u32 = if reg == TBR_TBL {
        (gc.cpu.tb & 0xFFFF_FFFF) as u32
    } else if reg == TBR_TBU {
        ((gc.cpu.tb >> 32) & 0xFFFF_FFFF) as u32
    } else {
        return Err(Fault::UnimplementedSpr { spr: reg, instruction: instr.0 });
    };
    gc.cpu.set_gpr(instr.d(), val);
    Ok(())
}

/// `mfmsr`: the machine state register goes to `rD`.
pub open spec fn spec_mfmsr(cpu: Cpu, i: Instruction) -> Cpu {
    cpu.with_gpr(i.d(), cpu.msr.0)
}

/// Executes `mfmsr`.
pub fn mfmsr(gc: &mut Gamecube, instr: &Instruction)
    ensures
        *final(gc) == (Gamecube { cpu: spec_mfmsr(old(gc).cpu, *instr), ..*old(gc) }),
{
    let val: u32 = gc.cpu.msr.0;
    gc.cpu.set_gpr(instr.d(), val);
}

/// `mtmsr`: `rS` goes to the machine state register.
pub open spec fn spec_mtmsr(cpu: Cpu, i: Instruction) -> Cpu {
    Cpu { msr: MachineStateRegister(cpu.gpr(i.s())), ..cpu }
}

/// Executes `mtmsr`.
pub fn mtmsr(gc: &mut Gamecube, instr: &Instruction)
    ensures
        *final(gc) == (Gamecube { cpu: spec_mtmsr(old(gc).cpu, *instr), ..*old(gc) }),
{
    let val: u32 = gc.cpu.gprs[instr.s()];
    write_msr(gc, val);
}

/// `mffs`: the floating-point status and control register goes to the low
/// half of `frD`, whose high half stays.
pub open spec fn spec_mffs(cpu: Cpu, i: Instruction) -> Cpu {
    cpu.with_fpr(i.d(), FloatingPointRegister::Paired((cpu.fpscr.0, cpu.fprs[i.d() as int].as_paired_u32().1)))
}

/// Executes `mffs`. The form that records in condition register field 1 is
/// not modelled: it is reported after the move.
pub fn mffs(gc: &mut Gamecube, instr: &Instruction) -> (res: Result<(), Fault>)
    ensures
        *final(gc) == (Gamecube { cpu: spec_mffs(old(gc).cpu, *instr), ..*old(gc) }),
        res == fault_when(instr.rc(), instr.fault()),
{
    let pair: (u32, u32) = gc.cpu.fprs[instr.d()].as_paired_u32();
    let status: u32 = gc.cpu.fpscr.0;
    gc.cpu.set_fpr(instr.d(), FloatingPointRegister::from_paired_u32((status, pair.1)));
    if instr.rc() {
        return Err(instr.fault());
    }
    Ok(())
}

/// The mask that the low `n` bits of the field mask `fm` select: four bits
/// for each set bit, bit `k` of the field mask standing for bits `4k` to
/// `4k + 3`.
pub open spec fn field_mask(fm: usize, n: nat) -> u32
    decreases n,
{
    if n == 0 {
        0
    } else {
        let below: u32 = field_mask(fm, (n - 1) as nat);
        if (fm & (1usize << ((n - 1) as usize))) != 0 {
            below | (0xFu32 << (((n - 1) * 4) as u32))
        } else {
            below
        }
    }
}

/// `mtfsf`: the fields of the floating-point status and control register
/// that the field mask selects are taken from the low half of `frB`; the
/// other fields stay.
pub open spec fn spec_mtfsf(cpu: Cpu, i: Instruction) -> Cpu {
    let m: u32 = field_mask(i.fm(), 8);
    Cpu { fpscr: FloatingPointStatusControlRegister((cpu.fpscr.0 & !m) | (cpu.fprs[i.b() as int].as_paired_u32().0 & m)), ..cpu }
}

/// Executes `mtfsf`. The form that records in condition register field 1 is
/// not modelled: it is reported after the move.
pub fn mtfsf(gc: &mut Gamecube, instr: &Instruction) -> (res: Result<(), Fault>)
    ensures
        *final(gc) == (Gamecube { cpu: spec_mtfsf(old(gc).cpu, *instr), ..*old(gc) }),
        res == fault_when(instr.rc(), instr.fault()),
{
    let fm: usize = instr.fm();
    let mut m: u32 = 0;
    let mut k: usize = 0;
    while k < 8
        invariant
            k <= 8,
            m == field_mask(fm, k as nat),
        decreases 8 - k,
    {
        if (fm & (1usize << k)) != 0 {
            m = m | (0xFu32 << ((k * 4) as u32));
        }
        k += 1;
    }
    let source: u32 = gc.cpu.fprs[instr.b()].as_paired_u32().0;
    gc.cpu.fpscr = FloatingPointStatusControlRegister((gc.cpu.fpscr.0 & !m) | (source & m));
    if instr.rc() {
        return Err(instr.fault());
    }
    Ok(())
}

} // verus!

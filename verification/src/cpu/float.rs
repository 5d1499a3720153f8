use vstd::prelude::*;
use crate::cpu::instr::Instruction;
use crate::cpu::util::fault_when;
use crate::cpu::Cpu;
use crate::fault::Fault;
use crate::Gamecube;

verus! {

/// The CPU after floating-point register `frB` has been copied to `frD`.
pub open spec fn spec_fmr(cpu: Cpu, i: Instruction) -> Cpu {
    cpu.with_fpr(i.d(), cpu.fprs[i.b() as int])
}

/// `ps_mr`: floating-point register `frB` is copied to `frD`. With
/// paired-single mode switched off the instruction raises an exception,
/// which is not modelled: it is reported and nothing is copied.
pub open spec fn spec_ps_mr(cpu: Cpu, i: Instruction) -> Cpu {
    if cpu.hid2.pse() {
        spec_fmr(cpu, i)
    } else {
        cpu
    }
}

/// Executes `ps_mr`. The form that records in condition register field 1 is
/// not modelled: it is reported after the copy.
pub fn ps_mr(gc: &mut Gamecube, instr: &Instruction) -> (res: Result<(), Fault>)
    ensures
        *final(gc) == (Gamecube { cpu: spec_ps_mr(old(gc).cpu, *instr), ..*old(gc) }),
        res == fault_when(!old(gc).cpu.hid2.pse() || instr.rc(), instr.fault()),
{
    if !gc.cpu.hid2.pse() {
        return Err(instr.fault());
    }
    let value: crate::cpu::FloatingPointRegister = gc.cpu.fprs[instr.b()];
    gc.cpu.set_fpr(instr.d(), value);
    if instr.rc() {
        return Err(instr.fault());
    }
    Ok(())
}

/// Executes `fmr`: floating-point register `frB` is copied to `frD`. The
/// form that records in condition register field 1 is not modelled: it is
/// reported after the copy.
pub fn fmr(gc: &mut Gamecube, instr: &Instruction) -> (res: Result<(), Fault>)
    ensures
        *final(gc) == (Gamecube { cpu: spec_fmr(old(gc).cpu, *instr), ..*old(gc) }),
        res == fault_when(instr.rc(), instr.fault()),
{
    let value: crate::cpu::FloatingPointRegister = gc.cpu.fprs[instr.b()];
    gc.cpu.set_fpr(instr.d(), value);
    if instr.rc() {
        return Err(instr.fault());
    }
    Ok(())
}

} // verus!

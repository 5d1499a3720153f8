use vstd::prelude::*;
use crate::cpu::instr::Instruction;
use crate::cpu::util::{as_unsigned, sext_26, wrap32};
use crate::cpu::Cpu;
use crate::Gamecube;

verus! {

/// The count register after a conditional branch with the options `bo`: one
/// less, modulo 2^32, unless the options say to leave it.
pub open spec fn counted(ctr: u32, bo: usize) -> u32 {
    if bo & 0x4 == 0 {
        wrap32(ctr - 1)
    } else {
        ctr
    }
}

/// The counter predicate of a conditional branch, on the count register as
/// it is after the decrement: the options either skip the test, or ask for
/// a count that is not zero, or for one that is.
pub open spec fn counter_holds(ctr_after: u32, bo: usize) -> bool {
    (bo & 0x4) != 0 || ((ctr_after != 0) != ((bo & 0x2) != 0))
}

/// The condition predicate of a conditional branch, on the condition
/// register bit that it inspects: the options either skip the test, or ask
/// for the bit to be set, or for it to be clear.
pub open spec fn condition_holds(bit: bool, bo: usize) -> bool {
    (bo & 0x10) != 0 || (bit == ((bo & 0x8) != 0))
}

/// Whether a conditional branch with the options `bo` that inspects the
/// condition register bit `bi` is taken: both predicates hold.
pub open spec fn branch_taken(cpu: Cpu, bo: usize, bi: usize) -> bool {
    counter_holds(counted(cpu.ctr, bo), bo) && condition_holds(cpu.cr.bit(bi), bo)
}

/// The target of a branch with the displacement `disp`, a word in two's
/// complement: the displacement itself where the address is absolute,
/// otherwise the current instruction address plus the displacement.
pub open spec fn branch_target(cpu: Cpu, disp: u32, absolute: bool) -> u32 {
    if absolute {
        disp
    } else {
        wrap32(cpu.cia + disp)
    }
}

/// The CPU after the link register has taken the address of the next
/// instruction, where `lk` asks for it.
pub open spec fn linked(cpu: Cpu, lk: bool, cia: u32) -> Cpu {
    if lk {
        Cpu { lr: wrap32(cia + 4), ..cpu }
    } else {
        cpu
    }
}

/// The displacement of a conditional branch: the fourteen-bit field times
/// four, extended from sixteen bits in two's complement.
pub open spec fn spec_bc_displacement(i: &Instruction) -> u32 {
    let low: int = i.bd() * 4;
    if low >= 0x8000 {
        (low + 0xFFFF_0000) as u32
    } else {
        low as u32
    }
}

/// The displacement of a conditional branch.
#[verifier::when_used_as_spec(spec_bc_displacement)]
pub fn bc_displacement(i: &Instruction) -> (r: u32)
    ensures
        r == spec_bc_displacement(i),
{
    let low: u32 = (i.bd() as u32) * 4;
    if low >= 0x8000 {
        low + 0xFFFF_0000
    } else {
        low
    }
}

/// Decrements the count register as the options ask, and evaluates both
/// predicates of a conditional branch.
fn decide(gc: &mut Gamecube, bo: usize, bi: usize) -> (taken: bool)
    requires
        bi < 32,
    ensures
        *final(gc) == (Gamecube { cpu: Cpu { ctr: counted(old(gc).cpu.ctr, bo), ..old(gc).cpu }, ..*old(gc) }),
        taken == branch_taken(old(gc).cpu, bo, bi),
{
    if bo & 0x4 == 0 {
        gc.cpu.ctr = gc.cpu.ctr.wrapping_sub(1);
    }
    let ctr_ok: bool = (bo & 0x4) != 0 || ((gc.cpu.ctr != 0) != ((bo & 0x2) != 0));
    let cond_ok: bool = (bo & 0x10) != 0 || (gc.cpu.cr.bit(bi) == ((bo & 0x8) != 0));
    ctr_ok && cond_ok
}

/// `bc`: the count register is decremented unless the options say to leave
/// it; where the counter predicate and the condition predicate both hold,
/// the next instruction address becomes the branch target. The link
/// register takes the address after this instruction where the link bit is
/// set, whether or not the branch is taken.
pub open spec fn spec_bc(cpu: Cpu, i: Instruction) -> Cpu {
    let after = Cpu { ctr: counted(cpu.ctr, i.bo()), ..cpu };
    let jumped = if branch_taken(cpu, i.bo(), i.bi()) {
        Cpu { nia: branch_target(cpu, bc_displacement(&i), i.aa()), ..after }
    } else {
        after
    };
    linked(jumped, i.lk(), cpu.cia)
}

/// Executes `bc`.
pub fn bc(gc: &mut Gamecube, instr: &Instruction)
    ensures
        *final(gc) == (Gamecube { cpu: spec_bc(old(gc).cpu, *instr), ..*old(gc) }),
{
    let taken: bool = decide(gc, instr.bo(), instr.bi());
    if taken {
        let disp: u32 = bc_displacement(instr);
        if instr.aa() {
            gc.cpu.nia = disp;
        } else {
            gc.cpu.nia = gc.cpu.cia.wrapping_add(disp);
        }
    }
    if instr.lk() {
        gc.cpu.lr = gc.cpu.cia.wrapping_add(4);
    }
}

/// `bclr`: as `bc`, with the link register, its low two bits cleared, as
/// the branch target. The target is the link register as it was before this
/// instruction.
pub open spec fn spec_bclr(cpu: Cpu, i: Instruction) -> Cpu {
    let after = Cpu { ctr: counted(cpu.ctr, i.bo()), ..cpu };
    let jumped = if branch_taken(cpu, i.bo(), i.bi()) {
        Cpu { nia: cpu.lr & !3u32, ..after }
    } else {
        after
    };
    linked(jumped, i.lk(), cpu.cia)
}

/// Executes `bclr`.
pub fn bclr(gc: &mut Gamecube, instr: &Instruction)
    ensures
        *final(gc) == (Gamecube { cpu: spec_bclr(old(gc).cpu, *instr), ..*old(gc) }),
{
    let taken: bool = decide(gc, instr.bo(), instr.bi());
    if taken {
        gc.cpu.nia = gc.cpu.lr & !3u32;
    }
    if instr.lk() {
        gc.cpu.lr = gc.cpu.cia.wrapping_add(4);
    }
}

/// The displacement of an unconditional branch: the 24-bit field times
/// four, extended from 26 bits in two's complement.
pub open spec fn b_displacement(i: Instruction) -> u32 {
    crate::cpu::util::unsigned32(sext_26(i.li() << 2) as int)
}

/// `b`: the next instruction address becomes the branch target, and the
/// link register takes the address after this instruction where the link
/// bit is set.
pub open spec fn spec_b(cpu: Cpu, i: Instruction) -> Cpu {
    linked(Cpu { nia: branch_target(cpu, b_displacement(i), i.aa()), ..cpu }, i.lk(), cpu.cia)
}

/// Executes `b`.
pub fn b(gc: &mut Gamecube, instr: &Instruction)
    ensures
        *final(gc) == (Gamecube { cpu: spec_b(old(gc).cpu, *instr), ..*old(gc) }),
{
    let disp: u32 = as_unsigned(sext_26(instr.li() << 2));
    if instr.aa() {
        gc.cpu.nia = disp;
    } else {
        gc.cpu.nia = gc.cpu.cia.wrapping_add(disp);
    }
    if instr.lk() {
        gc.cpu.lr = gc.cpu.cia.wrapping_add(4);
    }
}

/// A conditional branch whose options skip both tests is always taken and
/// leaves the count register alone.
pub proof fn lemma_branch_always(cpu: Cpu, bo: usize, bi: usize)
    requires
        bo & 0x14 == 0x14,
    ensures
        branch_taken(cpu, bo, bi),
        counted(cpu.ctr, bo) == cpu.ctr,
{
    assert(bo & 0x14 == 0x14 ==> (bo & 0x10 != 0 && bo & 0x4 != 0)) by (bit_vector);
}

/// A conditional branch whose options skip the condition test goes by the
/// count register alone, as it is after the decrement.
pub proof fn lemma_branch_counter_only(cpu: Cpu, bo: usize, bi: usize)
    requires
        bo & 0x14 == 0x10,
    ensures
        counted(cpu.ctr, bo) == wrap32(cpu.ctr - 1),
        branch_taken(cpu, bo, bi) == ((wrap32(cpu.ctr - 1) != 0) != ((bo & 0x2) != 0)),
{
    assert(bo & 0x14 == 0x10 ==> (bo & 0x10 != 0 && bo & 0x4 == 0)) by (bit_vector);
}

/// A conditional branch whose options skip the counter test goes by the
/// inspected condition register bit alone, and leaves the count register
/// alone.
pub proof fn lemma_branch_condition_only(cpu: Cpu, bo: usize, bi: usize)
    requires
        bo & 0x14 == 0x04,
    ensures
        counted(cpu.ctr, bo) == cpu.ctr,
        branch_taken(cpu, bo, bi) == (cpu.cr.bit(bi) == ((bo & 0x8) != 0)),
{
    assert(bo & 0x14 == 0x04 ==> (bo & 0x10 == 0 && bo & 0x4 != 0)) by (bit_vector);
}

/// A conditional branch whose options skip neither test is taken exactly
/// when both the count register, as it is after the decrement, and the
/// inspected condition register bit are as the options ask.
pub proof fn lemma_branch_both(cpu: Cpu, bo: usize, bi: usize)
    requires
        bo & 0x14 == 0,
    ensures
        counted(cpu.ctr, bo) == wrap32(cpu.ctr - 1),
        branch_taken(cpu, bo, bi) == (((wrap32(cpu.ctr - 1) != 0) != ((bo & 0x2) != 0)) && (cpu.cr.bit(bi) == ((bo & 0x8) != 0))),
{
    assert(bo & 0x14 == 0 ==> (bo & 0x10 == 0 && bo & 0x4 == 0)) by (bit_vector);
}

} // verus!

use vstd::prelude::*;
use crate::cpu::instr::Instruction;
use crate::cpu::util::{mask, rotl, spec_mask, spec_rotl};
use crate::cpu::{lemma_with_bit, with_bit, ConditionRegister, Cpu};
use crate::Gamecube;

verus! {

/// `ori`: `rS` or the unsigned immediate goes to `rA`.
pub open spec fn spec_ori(cpu: Cpu, i: Instruction) -> Cpu {
    cpu.with_gpr(i.a(), cpu.gpr(i.s()) | i.uimm_word())
}

/// Executes `ori`.
pub fn ori(gc: &mut Gamecube, instr: &Instruction)
    ensures
        *final(gc) == (Gamecube { cpu: spec_ori(old(gc).cpu, *instr), ..*old(gc) }),
{
    let r: u32 = gc.cpu.gprs[instr.s()] | instr.uimm_word();
    gc.cpu.set_gpr(instr.a(), r);
}

/// `oris`: `rS` or the immediate shifted into the high half goes to `rA`.
pub open spec fn spec_oris(cpu: Cpu, i: Instruction) -> Cpu {
    cpu.with_gpr(i.a(), cpu.gpr(i.s()) | (i.uimm_word() << 16))
}

/// Executes `oris`.
pub fn oris(gc: &mut Gamecube, instr: &Instruction)
    ensures
        *final(gc) == (Gamecube { cpu: spec_oris(old(gc).cpu, *instr), ..*old(gc) }),
{
    let r: u32 = gc.cpu.gprs[instr.s()] | (instr.uimm_word() << 16);
    gc.cpu.set_gpr(instr.a(), r);
}

/// `xoris`: `rS` exclusive-or the immediate shifted into the high half goes
/// to `rA`.
pub open spec fn spec_xoris(cpu: Cpu, i: Instruction) -> Cpu {
    cpu.with_gpr(i.a(), cpu.gpr(i.s()) ^ (i.uimm_word() << 16))
}

/// Executes `xoris`.
pub fn xoris(gc: &mut Gamecube, instr: &Instruction)
    ensures
        *final(gc) == (Gamecube { cpu: spec_xoris(old(gc).cpu, *instr), ..*old(gc) }),
{
    let r: u32 = gc.cpu.gprs[instr.s()] ^ (instr.uimm_word() << 16);
    gc.cpu.set_gpr(instr.a(), r);
}

/// `andi.`: `rS` and the unsigned immediate goes to `rA`, and condition
/// register field 0 records it.
pub open spec fn spec_andi(cpu: Cpu, i: Instruction) -> Cpu {
    let r: u32 = cpu.gpr(i.s()) & i.uimm_word();
    cpu.with_gpr(i.a(), r).with_cr0(r)
}

/// Executes `andi.`.
pub fn andi(gc: &mut Gamecube, instr: &Instruction)
    ensures
        *final(gc) == (Gamecube { cpu: spec_andi(old(gc).cpu, *instr), ..*old(gc) }),
{
    let r: u32 = gc.cpu.gprs[instr.s()] & instr.uimm_word();
    gc.cpu.set_gpr(instr.a(), r);
    gc.cpu.do_cr0(r);
}

/// `rlwinm`: `rS` rotated left by `SH` bits, with the bits outside the mask
/// from `MB` to `ME` cleared, goes to `rA`.
pub open spec fn spec_rlwinm(cpu: Cpu, i: Instruction) -> Cpu {
    let r: u32 = spec_rotl(cpu.gpr(i.s()), i.sh() as u32) & spec_mask(i.mb(), i.me());
    cpu.with_gpr(i.a(), r).recorded(i.rc(), r)
}

/// Executes `rlwinm`.
pub fn rlwinm(gc: &mut Gamecube, instr: &Instruction)
    ensures
        *final(gc) == (Gamecube { cpu: spec_rlwinm(old(gc).cpu, *instr), ..*old(gc) }),
{
    let rotated: u32 = rotl(gc.cpu.gprs[instr.s()], instr.sh() as u32);
    let r: u32 = rotated & mask(instr.mb(), instr.me());
    gc.cpu.set_gpr(instr.a(), r);
    if instr.rc() {
        gc.cpu.do_cr0(r);
    }
}

/// `rlwimi`: the bits of `rA` inside the mask from `MB` to `ME` are replaced
/// by those of `rS` rotated left by `SH` bits.
pub open spec fn spec_rlwimi(cpu: Cpu, i: Instruction) -> Cpu {
    let m: u32 = spec_mask(i.mb(), i.me());
    let r: u32 = (spec_rotl(cpu.gpr(i.s()), i.sh() as u32) & m) | (cpu.gpr(i.a()) & !m);
    cpu.with_gpr(i.a(), r).recorded(i.rc(), r)
}

/// Executes `rlwimi`.
pub fn rlwimi(gc: &mut Gamecube, instr: &Instruction)
    ensures
        *final(gc) == (Gamecube { cpu: spec_rlwimi(old(gc).cpu, *instr), ..*old(gc) }),
{
    let rotated: u32 = rotl(gc.cpu.gprs[instr.s()], instr.sh() as u32);
    let m: u32 = mask(instr.mb(), instr.me());
    let r: u32 = (rotated & m) | (gc.cpu.gprs[instr.a()] & !m);
    gc.cpu.set_gpr(instr.a(), r);
    if instr.rc() {
        gc.cpu.do_cr0(r);
    }
}

/// `or`: `rS` or `rB` goes to `rA`.
pub open spec fn spec_or(cpu: Cpu, i: Instruction) -> Cpu {
    let r: u32 = cpu.gpr(i.s()) | cpu.gpr(i.b());
    cpu.with_gpr(i.a(), r).recorded(i.rc(), r)
}

/// Executes `or`.
pub fn or(gc: &mut Gamecube, instr: &Instruction)
    ensures
        *final(gc) == (Gamecube { cpu: spec_or(old(gc).cpu, *instr), ..*old(gc) }),
{
    let r: u32 = gc.cpu.gprs[instr.s()] | gc.cpu.gprs[instr.b()];
    gc.cpu.set_gpr(instr.a(), r);
    if instr.rc() {
        gc.cpu.do_cr0(r);
    }
}

/// `nor`: the complement of `rS` or `rB` goes to `rA`.
pub open spec fn spec_nor(cpu: Cpu, i: Instruction) -> Cpu {
    let r: u32 = !(cpu.gpr(i.s()) | cpu.gpr(i.b()));
    cpu.with_gpr(i.a(), r).recorded(i.rc(), r)
}

/// Executes `nor`.
pub fn nor(gc: &mut Gamecube, instr: &Instruction)
    ensures
        *final(gc) == (Gamecube { cpu: spec_nor(old(gc).cpu, *instr), ..*old(gc) }),
{
    let r: u32 = !(gc.cpu.gprs[instr.s()] | gc.cpu.gprs[instr.b()]);
    gc.cpu.set_gpr(instr.a(), r);
    if instr.rc() {
        gc.cpu.do_cr0(r);
    }
}

/// `and`: `rS` and `rB` goes to `rA`.
pub open spec fn spec_and(cpu: Cpu, i: Instruction) -> Cpu {
    let r: u32 = cpu.gpr(i.s()) & cpu.gpr(i.b());
    cpu.with_gpr(i.a(), r).recorded(i.rc(), r)
}

/// Executes `and`.
pub fn and(gc: &mut Gamecube, instr: &Instruction)
    ensures
        *final(gc) == (Gamecube { cpu: spec_and(old(gc).cpu, *instr), ..*old(gc) }),
{
    let r: u32 = gc.cpu.gprs[instr.s()] & gc.cpu.gprs[instr.b()];
    gc.cpu.set_gpr(instr.a(), r);
    if instr.rc() {
        gc.cpu.do_cr0(r);
    }
}

/// `andc`: `rS` and the complement of `rB` goes to `rA`.
pub open spec fn spec_andc(cpu: Cpu, i: Instruction) -> Cpu {
    let r: u32 = cpu.gpr(i.s()) & !cpu.gpr(i.b());
    cpu.with_gpr(i.a(), r).recorded(i.rc(), r)
}

/// Executes `andc`.
pub fn andc(gc: &mut Gamecube, instr: &Instruction)
    ensures
        *final(gc) == (Gamecube { cpu: spec_andc(old(gc).cpu, *instr), ..*old(gc) }),
{
    let r: u32 = gc.cpu.gprs[instr.s()] & !gc.cpu.gprs[instr.b()];
    gc.cpu.set_gpr(instr.a(), r);
    if instr.rc() {
        gc.cpu.do_cr0(r);
    }
}

/// `xor`: `rS` exclusive-or `rB` goes to `rA`.
pub open spec fn spec_xor(cpu: Cpu, i: Instruction) -> Cpu {
    let r: u32 = cpu.gpr(i.s()) ^ cpu.gpr(i.b());
    cpu.with_gpr(i.a(), r).recorded(i.rc(), r)
}

/// Executes `xor`.
pub fn xor(gc: &mut Gamecube, instr: &Instruction)
    ensures
        *final(gc) == (Gamecube { cpu: spec_xor(old(gc).cpu, *instr), ..*old(gc) }),
{
    let r: u32 = gc.cpu.gprs[instr.s()] ^ gc.cpu.gprs[instr.b()];
    gc.cpu.set_gpr(instr.a(), r);
    if instr.rc() {
        gc.cpu.do_cr0(r);
    }
}

/// `crxor`: condition register bit `crbD` becomes the exclusive-or of bits
/// `crbA` and `crbB`. No other bit changes.
pub open spec fn spec_crxor(cpu: Cpu, i: Instruction) -> Cpu {
    Cpu { cr: ConditionRegister(with_bit(cpu.cr.0, (31 - i.d()) as u32, cpu.cr.bit(i.a()) != cpu.cr.bit(i.b()))), ..cpu }
}

/// Executes `crxor`.
pub fn crxor(gc: &mut Gamecube, instr: &Instruction)
    ensures
        *final(gc) == (Gamecube { cpu: spec_crxor(old(gc).cpu, *instr), ..*old(gc) }),
        final(gc).cpu.cr.bit(instr.d()) == (old(gc).cpu.cr.bit(instr.a()) != old(gc).cpu.cr.bit(instr.b())),
{
    let val: bool = gc.cpu.cr.bit(instr.a()) != gc.cpu.cr.bit(instr.b());
    let k: u32 = 31 - instr.d() as u32;
    let bit: u32 = if val { 1 } else { 0 };
    proof {
        lemma_with_bit(gc.cpu.cr.0, k, val);
    }
    gc.cpu.cr.0 = (gc.cpu.cr.0 & !(1u32 << k)) | (bit << k);
}

/// `slw`: `rS` shifted left by the low five bits of `rB` goes to `rA`.
pub open spec fn spec_slw(cpu: Cpu, i: Instruction) -> Cpu {
    let r: u32 = cpu.gpr(i.s()) << (cpu.gpr(i.b()) & 0x1F);
    cpu.with_gpr(i.a(), r).recorded(i.rc(), r)
}

/// Executes `slw`.
pub fn slw(gc: &mut Gamecube, instr: &Instruction)
    ensures
        *final(gc) == (Gamecube { cpu: spec_slw(old(gc).cpu, *instr), ..*old(gc) }),
{
    proof {
        crate::cpu::instr::lemma_and_bound(gc.cpu.gprs[instr.b() as int], 0x1F);
    }
    let n: u32 = gc.cpu.gprs[instr.b()] & 0x1F;
    let r: u32 = gc.cpu.gprs[instr.s()] << n;
    gc.cpu.set_gpr(instr.a(), r);
    if instr.rc() {
        gc.cpu.do_cr0(r);
    }
}

/// `srw`: `rS` shifted right by the low five bits of `rB` goes to `rA`.
pub open spec fn spec_srw(cpu: Cpu, i: Instruction) -> Cpu {
    let r: u32 = cpu.gpr(i.s()) >> (cpu.gpr(i.b()) & 0x1F);
    cpu.with_gpr(i.a(), r).recorded(i.rc(), r)
}

/// Executes `srw`.
pub fn srw(gc: &mut Gamecube, instr: &Instruction)
    ensures
        *final(gc) == (Gamecube { cpu: spec_srw(old(gc).cpu, *instr), ..*old(gc) }),
{
    proof {
        crate::cpu::instr::lemma_and_bound(gc.cpu.gprs[instr.b() as int], 0x1F);
    }
    let n: u32 = gc.cpu.gprs[instr.b()] & 0x1F;
    let r: u32 = gc.cpu.gprs[instr.s()] >> n;
    gc.cpu.set_gpr(instr.a(), r);
    if instr.rc() {
        gc.cpu.do_cr0(r);
    }
}

/// The word `x` shifted right by `n` bits, with copies of its sign bit
/// coming in from the left.
pub open spec fn shifted_right_signed(x: u32, n: u32) -> u32 {
    if x >= 0x8000_0000 {
        (x >> n) | !(0xFFFF_FFFFu32 >> n)
    } else {
        x >> n
    }
}

/// Whether a shift right by `n` bits of the word `x`, read in two's
/// complement, carries: `x` is negative and a set bit is shifted out.
pub open spec fn shift_carries(x: u32, n: u32) -> bool {
    x >= 0x8000_0000 && n > 0 && (x << ((32 - n) as u32)) != 0
}

/// `sraw`: `rS` shifted right by `rB`, with copies of its sign bit coming in,
/// goes to `rA`; a shift by 32 or more leaves only copies of the sign bit.
/// The carry bit tells whether `rS` is negative and a set bit was shifted
/// out. Condition register field 0 records the result.
pub open spec fn spec_sraw(cpu: Cpu, i: Instruction) -> Cpu {
    let x: u32 = cpu.gpr(i.s());
    let b: u32 = cpu.gpr(i.b());
    let (r, carry) = if (b & 0x20) != 0 {
        if x >= 0x8000_0000 {
            (0xFFFF_FFFFu32, true)
        } else {
            (0u32, false)
        }
    } else {
        (shifted_right_signed(x, b & 0x1F), shift_carries(x, b & 0x1F))
    };
    cpu.with_gpr(i.a(), r).with_ca(carry).with_cr0(r)
}

/// Executes `sraw`.
pub fn sraw(gc: &mut Gamecube, instr: &Instruction)
    ensures
        *final(gc) == (Gamecube { cpu: spec_sraw(old(gc).cpu, *instr), ..*old(gc) }),
{
    let b: u32 = gc.cpu.gprs[instr.b()];
    let x: u32 = gc.cpu.gprs[instr.s()];
    let r: u32;
    let carry: bool;
    if (b & 0x20) != 0 {
        if x >= 0x8000_0000 {
            r = 0xFFFF_FFFF;
            carry = true;
        } else {
            r = 0;
            carry = false;
        }
    } else {
        proof {
            crate::cpu::instr::lemma_and_bound(b, 0x1F);
        }
        let n: u32 = b & 0x1F;
        r = if x >= 0x8000_0000 { (x >> n) | !(0xFFFF_FFFFu32 >> n) } else { x >> n };
        carry = x >= 0x8000_0000 && n > 0 && (x << (32 - n)) != 0;
    }
    gc.cpu.set_gpr(instr.a(), r);
    gc.cpu.xer.set_ca(carry);
    gc.cpu.do_cr0(r);
}

/// The low half of a word, extended to a word in two's complement.
pub open spec fn extended_half(x: u32) -> u32 {
    let low: u32 = x & 0xFFFF;
    if low >= 0x8000 {
        (low + 0xFFFF_0000) as u32
    } else {
        low
    }
}

/// `extsh`: the low half of `rS`, extended in two's complement, goes to
/// `rA`.
pub open spec fn spec_extsh(cpu: Cpu, i: Instruction) -> Cpu {
    let r: u32 = extended_half(cpu.gpr(i.s()));
    cpu.with_gpr(i.a(), r).recorded(i.rc(), r)
}

/// Executes `extsh`.
pub fn extsh(gc: &mut Gamecube, instr: &Instruction)
    ensures
        *final(gc) == (Gamecube { cpu: spec_extsh(old(gc).cpu, *instr), ..*old(gc) }),
{
    proof {
        crate::cpu::instr::lemma_and_bound(gc.cpu.gprs[instr.s() as int], 0xFFFF);
    }
    let low: u32 = gc.cpu.gprs[instr.s()] & 0xFFFF;
    let r: u32 = if low >= 0x8000 { low + 0xFFFF_0000 } else { low };
    gc.cpu.set_gpr(instr.a(), r);
    if instr.rc() {
        gc.cpu.do_cr0(r);
    }
}

} // verus!

use vstd::prelude::*;
use crate::cpu::instr::Instruction;
use crate::cpu::util::{add_carry, as_signed, as_unsigned, fault_when, lemma_product_bounds, lemma_signed_product, lemma_unsigned_product_bounds, signed32, spec_add_carry, wrap32};
use crate::cpu::Cpu;
use crate::fault::Fault;
use crate::Gamecube;

verus! {

/// The four-bit class of a comparison.
pub open spec fn ordering_class(less: bool, greater: bool) -> u32 {
    if less {
        0b1000
    } else if greater {
        0b0100
    } else {
        0b0010
    }
}

/// `add`: the sum of `rA` and `rB`, modulo 2^32, goes to `rD`.
pub open spec fn spec_add(cpu: Cpu, i: Instruction) -> Cpu {
    let r: u32 = wrap32(cpu.gpr(i.a()) + cpu.gpr(i.b()));
    cpu.with_gpr(i.d(), r).recorded(i.rc(), r)
}

/// Executes `add`. The form that records overflow is not modelled: it is
/// reported after the sum has been written.
pub fn add(gc: &mut Gamecube, instr: &Instruction) -> (res: Result<(), Fault>)
    ensures
        *final(gc) == (Gamecube { cpu: spec_add(old(gc).cpu, *instr), ..*old(gc) }),
        res == fault_when(instr.oe(), instr.fault()),
{
    let r: u32 = gc.cpu.gprs[instr.a()].wrapping_add(gc.cpu.gprs[instr.b()]);
    gc.cpu.set_gpr(instr.d(), r);
    if instr.rc() {
        gc.cpu.do_cr0(r);
    }
    if instr.oe() {
        return Err(instr.fault());
    }
    Ok(())
}

/// `addi`: the sum of `rA`, or of zero where the field is 0, and the signed
/// immediate goes to `rD`.
pub open spec fn spec_addi(cpu: Cpu, i: Instruction) -> Cpu {
    cpu.with_gpr(i.d(), wrap32(cpu.gpr_or_zero(i.a()) + i.simm()))
}

/// Executes `addi`.
pub fn addi(gc: &mut Gamecube, instr: &Instruction)
    ensures
        *final(gc) == (Gamecube { cpu: spec_addi(old(gc).cpu, *instr), ..*old(gc) }),
{
    let base: u32 = if instr.a() == 0 { 0 } else { gc.cpu.gprs[instr.a()] };
    let r: u32 = base.wrapping_add(instr.simm_word());
    gc.cpu.set_gpr(instr.d(), r);
}

/// `addc`: the sum of `rA` and `rB` goes to `rD`, and its carry to the carry
/// bit.
pub open spec fn spec_addc(cpu: Cpu, i: Instruction) -> Cpu {
    let (r, carry) = spec_add_carry(cpu.gpr(i.a()), cpu.gpr(i.b()), false);
    cpu.with_gpr(i.d(), r).recorded(i.rc(), r).with_ca(carry)
}

/// Executes `addc`. The form that records overflow is not modelled: it is
/// reported after the sum and the carry have been written.
pub fn addc(gc: &mut Gamecube, instr: &Instruction) -> (res: Result<(), Fault>)
    ensures
        *final(gc) == (Gamecube { cpu: spec_addc(old(gc).cpu, *instr), ..*old(gc) }),
        res == fault_when(instr.oe(), instr.fault()),
{
    let (r, carry) = add_carry(gc.cpu.gprs[instr.a()], gc.cpu.gprs[instr.b()], false);
    gc.cpu.set_gpr(instr.d(), r);
    if instr.rc() {
        gc.cpu.do_cr0(r);
    }
    gc.cpu.xer.set_ca(carry);
    if instr.oe() {
        return Err(instr.fault());
    }
    Ok(())
}

/// `adde`: the sum of `rA`, `rB` and the carry bit goes to `rD`, and its
/// carry to the carry bit.
pub open spec fn spec_adde(cpu: Cpu, i: Instruction) -> Cpu {
    let (r, carry) = spec_add_carry(cpu.gpr(i.a()), cpu.gpr(i.b()), cpu.xer.ca());
    cpu.with_gpr(i.d(), r).recorded(i.rc(), r).with_ca(carry)
}

/// Executes `adde`. The form that records overflow is not modelled: it is
/// reported after the sum and the carry have been written.
pub fn adde(gc: &mut Gamecube, instr: &Instruction) -> (res: Result<(), Fault>)
    ensures
        *final(gc) == (Gamecube { cpu: spec_adde(old(gc).cpu, *instr), ..*old(gc) }),
        res == fault_when(instr.oe(), instr.fault()),
{
    let (r, carry) = add_carry(gc.cpu.gprs[instr.a()], gc.cpu.gprs[instr.b()], gc.cpu.xer.ca());
    gc.cpu.set_gpr(instr.d(), r);
    if instr.rc() {
        gc.cpu.do_cr0(r);
    }
    gc.cpu.xer.set_ca(carry);
    if instr.oe() {
        return Err(instr.fault());
    }
    Ok(())
}

/// `addis`: the sum of `rA`, or of zero where the field is 0, and the
/// immediate shifted into the high half goes to `rD`.
pub open spec fn spec_addis(cpu: Cpu, i: Instruction) -> Cpu {
    cpu.with_gpr(i.d(), wrap32(cpu.gpr_or_zero(i.a()) + i.uimm() * 0x1_0000))
}

/// Executes `addis`.
pub fn addis(gc: &mut Gamecube, instr: &Instruction)
    ensures
        *final(gc) == (Gamecube { cpu: spec_addis(old(gc).cpu, *instr), ..*old(gc) }),
{
    let base: u32 = if instr.a() == 0 { 0 } else { gc.cpu.gprs[instr.a()] };
    let high: u32 = instr.uimm_word() * 0x1_0000;
    let r: u32 = base.wrapping_add(high);
    gc.cpu.set_gpr(instr.d(), r);
}

/// `addic`: the sum of `rA` and the signed immediate goes to `rD`, and its
/// carry to the carry bit.
pub open spec fn spec_addic(cpu: Cpu, i: Instruction) -> Cpu {
    let (r, carry) = spec_add_carry(cpu.gpr(i.a()), i.simm_word(), false);
    cpu.with_gpr(i.d(), r).with_ca(carry)
}

/// Executes `addic`.
pub fn addic(gc: &mut Gamecube, instr: &Instruction)
    ensures
        *final(gc) == (Gamecube { cpu: spec_addic(old(gc).cpu, *instr), ..*old(gc) }),
{
    let (r, carry) = add_carry(gc.cpu.gprs[instr.a()], instr.simm_word(), false);
    gc.cpu.set_gpr(instr.d(), r);
    gc.cpu.xer.set_ca(carry);
}

/// `addic.`: as `addic`, and condition register field 0 records the sum.
pub open spec fn spec_addicr(cpu: Cpu, i: Instruction) -> Cpu {
    let (r, carry) = spec_add_carry(cpu.gpr(i.a()), i.simm_word(), false);
    cpu.with_gpr(i.d(), r).with_cr0(r).with_ca(carry)
}

/// Executes `addic.`.
pub fn addicr(gc: &mut Gamecube, instr: &Instruction)
    ensures
        *final(gc) == (Gamecube { cpu: spec_addicr(old(gc).cpu, *instr), ..*old(gc) }),
{
    let (r, carry) = add_carry(gc.cpu.gprs[instr.a()], instr.simm_word(), false);
    gc.cpu.set_gpr(instr.d(), r);
    gc.cpu.do_cr0(r);
    gc.cpu.xer.set_ca(carry);
}

/// The difference `b - a`, computed as the sum of the complement of `a`, of
/// `b` and of `carry`: its residue modulo 2^32, and whether the sum reaches
/// 2^32.
pub open spec fn spec_sub_carry(a: u32, b: u32, carry: bool) -> (u32, bool) {
    let sum: int = (0xFFFF_FFFF - a) + b + (if carry { 1int } else { 0int });
    (wrap32(sum), sum >= 0x1_0000_0000)
}

/// Subtracts `a` from `b` by adding the complement of `a`, `b` and `carry`.
#[verifier::when_used_as_spec(spec_sub_carry)]
pub fn sub_carry(a: u32, b: u32, carry: bool) -> (r: (u32, bool))
    ensures
        r == spec_sub_carry(a, b, carry),
{
    add_carry(0xFFFF_FFFF - a, b, carry)
}

/// `subf`: `rB` minus `rA`, modulo 2^32, goes to `rD`.
pub open spec fn spec_subf(cpu: Cpu, i: Instruction) -> Cpu {
    let r: u32 = spec_sub_carry(cpu.gpr(i.a()), cpu.gpr(i.b()), true).0;
    cpu.with_gpr(i.d(), r).recorded(i.rc(), r)
}

/// Executes `subf`. The form that records overflow is not modelled: it is
/// reported after the difference has been written.
pub fn subf(gc: &mut Gamecube, instr: &Instruction) -> (res: Result<(), Fault>)
    ensures
        *final(gc) == (Gamecube { cpu: spec_subf(old(gc).cpu, *instr), ..*old(gc) }),
        res == fault_when(instr.oe(), instr.fault()),
{
    let (r, _carry) = sub_carry(gc.cpu.gprs[instr.a()], gc.cpu.gprs[instr.b()], true);
    gc.cpu.set_gpr(instr.d(), r);
    if instr.rc() {
        gc.cpu.do_cr0(r);
    }
    if instr.oe() {
        return Err(instr.fault());
    }
    Ok(())
}

/// `subfc`: `rB` minus `rA` goes to `rD`, and the carry of the sum that
/// computes it to the carry bit.
pub open spec fn spec_subfc(cpu: Cpu, i: Instruction) -> Cpu {
    let (r, carry) = spec_sub_carry(cpu.gpr(i.a()), cpu.gpr(i.b()), true);
    cpu.with_gpr(i.d(), r).with_ca(carry).recorded(i.rc(), r)
}

/// Executes `subfc`. The form that records overflow is not modelled: it is
/// reported after the difference and the carry have been written.
pub fn subfc(gc: &mut Gamecube, instr: &Instruction) -> (res: Result<(), Fault>)
    ensures
        *final(gc) == (Gamecube { cpu: spec_subfc(old(gc).cpu, *instr), ..*old(gc) }),
        res == fault_when(instr.oe(), instr.fault()),
{
    let (r, carry) = sub_carry(gc.cpu.gprs[instr.a()], gc.cpu.gprs[instr.b()], true);
    gc.cpu.set_gpr(instr.d(), r);
    gc.cpu.xer.set_ca(carry);
    if instr.rc() {
        gc.cpu.do_cr0(r);
    }
    if instr.oe() {
        return Err(instr.fault());
    }
    Ok(())
}

/// `subfic`: the signed immediate minus `rA` goes to `rD`, and the carry of
/// the sum that computes it to the carry bit.
pub open spec fn spec_subfic(cpu: Cpu, i: Instruction) -> Cpu {
    let (r, carry) = spec_sub_carry(cpu.gpr(i.a()), i.simm_word(), true);
    cpu.with_gpr(i.d(), r).with_ca(carry)
}

/// Executes `subfic`.
pub fn subfic(gc: &mut Gamecube, instr: &Instruction)
    ensures
        *final(gc) == (Gamecube { cpu: spec_subfic(old(gc).cpu, *instr), ..*old(gc) }),
{
    let (r, carry) = sub_carry(gc.cpu.gprs[instr.a()], instr.simm_word(), true);
    gc.cpu.set_gpr(instr.d(), r);
    gc.cpu.xer.set_ca(carry);
}

/// `subfe`: the sum of the complement of `rA`, of `rB` and of the carry bit
/// goes to `rD`, and its carry to the carry bit.
pub open spec fn spec_subfe(cpu: Cpu, i: Instruction) -> Cpu {
    let (r, carry) = spec_sub_carry(cpu.gpr(i.a()), cpu.gpr(i.b()), cpu.xer.ca());
    cpu.with_gpr(i.d(), r).with_ca(carry).recorded(i.rc(), r)
}

/// Executes `subfe`. The form that records overflow is not modelled: it is
/// reported after the result and the carry have been written.
pub fn subfe(gc: &mut Gamecube, instr: &Instruction) -> (res: Result<(), Fault>)
    ensures
        *final(gc) == (Gamecube { cpu: spec_subfe(old(gc).cpu, *instr), ..*old(gc) }),
        res == fault_when(instr.oe(), instr.fault()),
{
    let (r, carry) = sub_carry(gc.cpu.gprs[instr.a()], gc.cpu.gprs[instr.b()], gc.cpu.xer.ca());
    gc.cpu.set_gpr(instr.d(), r);
    gc.cpu.xer.set_ca(carry);
    if instr.rc() {
        gc.cpu.do_cr0(r);
    }
    if instr.oe() {
        return Err(instr.fault());
    }
    Ok(())
}

/// Whether a product does not fit a word read in two's complement.
pub open spec fn overflows(product: int) -> bool {
    product < -0x8000_0000 || product > 0x7FFF_FFFF
}

/// `mullw`: the low 32 bits of the product of `rA` and `rB`, read in two's
/// complement, go to `rD`. Where overflow is recorded, the overflow bit
/// tells whether the product lost bits.
pub open spec fn spec_mullw(cpu: Cpu, i: Instruction) -> Cpu {
    let product: int = signed32(cpu.gpr(i.a())) * signed32(cpu.gpr(i.b()));
    let r: u32 = wrap32(product);
    let written = cpu.with_gpr(i.d(), r);
    let flagged = if i.oe() { written.with_ov(overflows(product)) } else { written };
    flagged.recorded(i.rc(), r)
}

/// Executes `mullw`.
pub fn mullw(gc: &mut Gamecube, instr: &Instruction)
    ensures
        *final(gc) == (Gamecube { cpu: spec_mullw(old(gc).cpu, *instr), ..*old(gc) }),
{
    let ra: u32 = gc.cpu.gprs[instr.a()];
    let rb: u32 = gc.cpu.gprs[instr.b()];
    proof {
        lemma_product_bounds(signed32(ra), signed32(rb));
        lemma_signed_product(ra, rb);
    }
    let product: i64 = (as_signed(ra) as i64) * (as_signed(rb) as i64);
    let r: u32 = ra.wrapping_mul(rb);
    gc.cpu.set_gpr(instr.d(), r);
    if instr.oe() {
        gc.cpu.xer.set_ov(product < -0x8000_0000 || product > 0x7FFF_FFFF);
    }
    if instr.rc() {
        gc.cpu.do_cr0(r);
    }
}

/// `mulli`: the low 32 bits of the product of `rA` and the signed immediate
/// go to `rD`.
pub open spec fn spec_mulli(cpu: Cpu, i: Instruction) -> Cpu {
    cpu.with_gpr(i.d(), wrap32(signed32(cpu.gpr(i.a())) * i.simm()))
}

/// Executes `mulli`.
pub fn mulli(gc: &mut Gamecube, instr: &Instruction)
    ensures
        *final(gc) == (Gamecube { cpu: spec_mulli(old(gc).cpu, *instr), ..*old(gc) }),
{
    let ra: u32 = gc.cpu.gprs[instr.a()];
    let imm: u32 = instr.simm_word();
    proof {
        lemma_signed_product(ra, imm);
    }
    let r: u32 = ra.wrapping_mul(imm);
    gc.cpu.set_gpr(instr.d(), r);
}

/// `mulhwu`: the high 32 bits of the product of `rA` and `rB`, read as
/// unsigned, go to `rD`.
pub open spec fn spec_mulhwu(cpu: Cpu, i: Instruction) -> Cpu {
    let r: u32 = ((cpu.gpr(i.a()) * cpu.gpr(i.b())) / 0x1_0000_0000) as u32;
    cpu.with_gpr(i.d(), r).recorded(i.rc(), r)
}

/// Executes `mulhwu`.
pub fn mulhwu(gc: &mut Gamecube, instr: &Instruction)
    ensures
        *final(gc) == (Gamecube { cpu: spec_mulhwu(old(gc).cpu, *instr), ..*old(gc) }),
{
    let ra: u64 = gc.cpu.gprs[instr.a()] as u64;
    let rb: u64 = gc.cpu.gprs[instr.b()] as u64;
    proof {
        lemma_unsigned_product_bounds(ra as int, rb as int);
    }
    let r: u32 = ((ra * rb) / 0x1_0000_0000) as u32;
    gc.cpu.set_gpr(instr.d(), r);
    if instr.rc() {
        gc.cpu.do_cr0(r);
    }
}

/// `cmp`: condition register field `crfD` holds how `rA` compares to `rB`,
/// both read in two's complement, and the summary overflow bit.
pub open spec fn spec_cmp(cpu: Cpu, i: Instruction) -> Cpu {
    let a: int = signed32(cpu.gpr(i.a()));
    let b: int = signed32(cpu.gpr(i.b()));
    cpu.with_cr_field(i.crd(), ordering_class(a < b, a > b) | cpu.so_bit())
}

/// Executes `cmp`.
pub fn cmp(gc: &mut Gamecube, instr: &Instruction)
    ensures
        *final(gc) == (Gamecube { cpu: spec_cmp(old(gc).cpu, *instr), ..*old(gc) }),
{
    let a: i32 = as_signed(gc.cpu.gprs[instr.a()]);
    let b: i32 = as_signed(gc.cpu.gprs[instr.b()]);
    let class: u32 = if a < b { 0b1000 } else if a > b { 0b0100 } else { 0b0010 };
    let so: u32 = gc.cpu.so_bit();
    gc.cpu.cr.set_reg(instr.crd(), class | so);
}

/// `cmpl`: condition register field `crfD` holds how `rA` compares to `rB`,
/// both read as unsigned, and the summary overflow bit.
pub open spec fn spec_cmpl(cpu: Cpu, i: Instruction) -> Cpu {
    let a: u32 = cpu.gpr(i.a());
    let b: u32 = cpu.gpr(i.b());
    cpu.with_cr_field(i.crd(), ordering_class(a < b, a > b) | cpu.so_bit())
}

/// Executes `cmpl`.
pub fn cmpl(gc: &mut Gamecube, instr: &Instruction)
    ensures
        *final(gc) == (Gamecube { cpu: spec_cmpl(old(gc).cpu, *instr), ..*old(gc) }),
{
    let a: u32 = gc.cpu.gprs[instr.a()];
    let b: u32 = gc.cpu.gprs[instr.b()];
    let class: u32 = if a < b { 0b1000 } else if a > b { 0b0100 } else { 0b0010 };
    let so: u32 = gc.cpu.so_bit();
    gc.cpu.cr.set_reg(instr.crd(), class | so);
}

/// `cmpli`: condition register field `crfD` holds how `rA` compares to the
/// unsigned immediate, and the summary overflow bit.
pub open spec fn spec_cmpli(cpu: Cpu, i: Instruction) -> Cpu {
    let a: u32 = cpu.gpr(i.a());
    let b: u32 = i.uimm_word();
    cpu.with_cr_field(i.crd(), ordering_class(a < b, a > b) | cpu.so_bit())
}

/// Executes `cmpli`.
pub fn cmpli(gc: &mut Gamecube, instr: &Instruction)
    ensures
        *final(gc) == (Gamecube { cpu: spec_cmpli(old(gc).cpu, *instr), ..*old(gc) }),
{
    let a: u32 = gc.cpu.gprs[instr.a()];
    let b: u32 = instr.uimm_word();
    let class: u32 = if a < b { 0b1000 } else if a > b { 0b0100 } else { 0b0010 };
    let so: u32 = gc.cpu.so_bit();
    gc.cpu.cr.set_reg(instr.crd(), class | so);
}

/// `cmpi`: condition register field `crfD` holds how `rA`, read in two's
/// complement, compares to the signed immediate, and the summary overflow
/// bit.
pub open spec fn spec_cmpi(cpu: Cpu, i: Instruction) -> Cpu {
    let a: int = signed32(cpu.gpr(i.a()));
    let b: int = signed32(i.simm_word());
    cpu.with_cr_field(i.crd(), ordering_class(a < b, a > b) | cpu.so_bit())
}

/// Executes `cmpi`.
pub fn cmpi(gc: &mut Gamecube, instr: &Instruction)
    ensures
        *final(gc) == (Gamecube { cpu: spec_cmpi(old(gc).cpu, *instr), ..*old(gc) }),
{
    let a: i32 = as_signed(gc.cpu.gprs[instr.a()]);
    let b: i32 = as_signed(instr.simm_word());
    let class: u32 = if a < b { 0b1000 } else if a > b { 0b0100 } else { 0b0010 };
    let so: u32 = gc.cpu.so_bit();
    gc.cpu.cr.set_reg(instr.crd(), class | so);
}

/// `neg`: the two's complement of `rA` goes to `rD`. Where overflow is
/// recorded, the summary overflow bit tells whether the result is the most
/// negative word.
pub open spec fn spec_neg(cpu: Cpu, i: Instruction) -> Cpu {
    let r: u32 = wrap32((0xFFFF_FFFF - cpu.gpr(i.a())) + 1);
    let written = cpu.with_gpr(i.d(), r);
    let flagged = if i.oe() { written.with_so(r == 0x8000_0000) } else { written };
    flagged.recorded(i.rc(), r)
}

/// Executes `neg`.
pub fn neg(gc: &mut Gamecube, instr: &Instruction)
    ensures
        *final(gc) == (Gamecube { cpu: spec_neg(old(gc).cpu, *instr), ..*old(gc) }),
{
    let r: u32 = (0xFFFF_FFFF - gc.cpu.gprs[instr.a()]).wrapping_add(1);
    gc.cpu.set_gpr(instr.d(), r);
    if instr.oe() {
        gc.cpu.xer.set_so(r == 0x8000_0000);
    }
    if instr.rc() {
        gc.cpu.do_cr0(r);
    }
}

/// `cntlzw`: the number of zero bits above the highest set bit of `rS` goes
/// to `rA`.
pub open spec fn spec_cntlzw(cpu: Cpu, i: Instruction) -> Cpu {
    let r: u32 = vstd::std_specs::bits::u32_leading_zeros(cpu.gpr(i.s()));
    cpu.with_gpr(i.a(), r).recorded(i.rc(), r)
}

/// Executes `cntlzw`.
pub fn cntlzw(gc: &mut Gamecube, instr: &Instruction)
    ensures
        *final(gc) == (Gamecube { cpu: spec_cntlzw(old(gc).cpu, *instr), ..*old(gc) }),
{
    let r: u32 = gc.cpu.gprs[instr.s()].leading_zeros();
    gc.cpu.set_gpr(instr.a(), r);
    if instr.rc() {
        gc.cpu.do_cr0(r);
    }
}

/// The sum that `add` writes is the sum of its operands modulo 2^32.
pub proof fn lemma_add_wraps(cpu: Cpu, i: Instruction)
    ensures
        spec_add(cpu, i).gpr(i.d()) == (cpu.gpr(i.a()) + cpu.gpr(i.b())) % 0x1_0000_0000,
{
    vstd::array::axiom_spec_array_update(cpu.gprs, i.d() as int, wrap32(cpu.gpr(i.a()) + cpu.gpr(i.b())));
    crate::cpu::instr::lemma_and_bound(i.0 >> 21, 0x1F);
}

/// The carry bit that `addc` writes tells whether the sum of its operands
/// reaches 2^32, and the sum that it writes is that sum modulo 2^32.
pub proof fn lemma_addc_carries(cpu: Cpu, i: Instruction)
    ensures
        spec_addc(cpu, i).xer.ca() == (cpu.gpr(i.a()) + cpu.gpr(i.b()) >= 0x1_0000_0000),
        spec_addc(cpu, i).gpr(i.d()) == (cpu.gpr(i.a()) + cpu.gpr(i.b())) % 0x1_0000_0000,
{
    let (r, carry) = spec_add_carry(cpu.gpr(i.a()), cpu.gpr(i.b()), false);
    vstd::array::axiom_spec_array_update(cpu.gprs, i.d() as int, r);
    crate::cpu::instr::lemma_and_bound(i.0 >> 21, 0x1F);
    crate::cpu::lemma_with_bit(cpu.xer.0, 29, carry);
}

} // verus!
